//! What the library makes of the network time source.

use vstd::prelude::*;

verus! {

/// What asking the time source came to.
#[derive(Debug)]
pub enum TimeReply {
    /// The source was not asked: a fixed time was asked for instead.
    Pinned,
    /// The source answered with this date and time.
    DateTime(String),
    /// The source answered, but the answer could not be read; with the reason.
    Unreadable(String),
    /// The source did not answer; with the reason.
    Failed(String),
}

/// What asking the time source came to, as sequences.
pub enum TimeReplyView {
    Pinned,
    DateTime(Seq<char>),
    Unreadable(Seq<char>),
    Failed(Seq<char>),
}

impl View for TimeReply {
    type V = TimeReplyView;

    open spec fn view(&self) -> TimeReplyView {
        match self {
            TimeReply::Pinned => TimeReplyView::Pinned,
            TimeReply::DateTime(text) => TimeReplyView::DateTime(text@),
            TimeReply::Unreadable(reason) => TimeReplyView::Unreadable(reason@),
            TimeReply::Failed(reason) => TimeReplyView::Failed(reason@),
        }
    }
}

/// The timestamp that stands for a pinned time.
pub open spec fn pinned_timestamp() -> Seq<char> {
    "2020-01-01T00:00:00Z"@
}

/// The timestamp that stands where the time source failed.
pub open spec fn unknown_timestamp() -> Seq<char> {
    "unknown"@
}

/// The timestamp that a reply gives, or the text of the error.
pub open spec fn timestamp_of(reply: TimeReplyView) -> Result<Seq<char>, Seq<char>> {
    match reply {
        TimeReplyView::Pinned => Ok(pinned_timestamp()),
        TimeReplyView::DateTime(text) => Ok(text),
        TimeReplyView::Unreadable(reason) => Err("Failed to parse time JSON: "@ + reason),
        TimeReplyView::Failed(reason) => Err("Time request failed: "@ + reason),
    }
}

/// What the time source gave, as sequences.
pub open spec fn clock_view(clock: Result<String, String>) -> Result<Seq<char>, Seq<char>> {
    match clock {
        Ok(timestamp) => Ok(timestamp@),
        Err(reason) => Err(reason@),
    }
}

/// Turns what asking the time source came to into a timestamp or an error
/// text. A pinned time and an answer give a timestamp; the two failures give
/// an error that says which of them it was.
pub fn fetch_network_time_utc(reply: TimeReply) -> (clock: Result<String, String>)
    ensures
        clock_view(clock) == timestamp_of(reply@),
{
    match reply {
        TimeReply::Pinned => Ok(String::from_str("2020-01-01T00:00:00Z")),
        TimeReply::DateTime(text) => Ok(text),
        TimeReply::Unreadable(reason) => {
            let mut text = String::from_str("Failed to parse time JSON: ");
            text.append(reason.as_str());
            Err(text)
        },
        TimeReply::Failed(reason) => {
            let mut text = String::from_str("Time request failed: ");
            text.append(reason.as_str());
            Err(text)
        },
    }
}

/// The timestamp of a batch: what the time source gave, or `unknown` where it
/// failed.
pub open spec fn batch_timestamp_of(clock: Result<Seq<char>, Seq<char>>) -> Seq<char> {
    match clock {
        Ok(timestamp) => timestamp,
        Err(_) => unknown_timestamp(),
    }
}

/// The one timestamp that all checks of a batch share. A failed time source
/// never fails the batch: `unknown` stands in.
pub fn batch_timestamp(clock: Result<String, String>) -> (timestamp: String)
    ensures
        timestamp@ == batch_timestamp_of(clock_view(clock)),
{
    match clock {
        Ok(timestamp) => timestamp,
        Err(_) => String::from_str("unknown"),
    }
}

} // verus!
