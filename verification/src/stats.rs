//! The summary of a batch of checks.

use crate::status::{CheckStatus, WebsiteStatus, WebsiteStatusView};
use vstd::prelude::*;

verus! {

/// How many of `results` ended as a success.
pub open spec fn successes_in(results: Seq<WebsiteStatusView>) -> nat
    decreases results.len(),
{
    if results.len() == 0 {
        0
    } else {
        successes_in(results.drop_last()) + if results.last().status is Success {
            1nat
        } else {
            0nat
        }
    }
}

/// How many of `results` ended as an HTTP error.
pub open spec fn http_errors_in(results: Seq<WebsiteStatusView>) -> nat
    decreases results.len(),
{
    if results.len() == 0 {
        0
    } else {
        http_errors_in(results.drop_last()) + if results.last().status is HttpError {
            1nat
        } else {
            0nat
        }
    }
}

/// How many of `results` ended as a transport error.
pub open spec fn transport_errors_in(results: Seq<WebsiteStatusView>) -> nat
    decreases results.len(),
{
    if results.len() == 0 {
        0
    } else {
        transport_errors_in(results.drop_last()) + if results.last().status is Transport {
            1nat
        } else {
            0nat
        }
    }
}

/// The response times of `results`, added up, in milliseconds.
pub open spec fn total_millis(results: Seq<WebsiteStatusView>) -> nat
    decreases results.len(),
{
    if results.len() == 0 {
        0
    } else {
        total_millis(results.drop_last()) + results.last().response_time_ms as nat
    }
}

/// The records of a batch, as sequences.
pub open spec fn views_of(results: Seq<WebsiteStatus>) -> Seq<WebsiteStatusView> {
    results.map_values(|r: WebsiteStatus| r@)
}

/// The mean of the response times in whole milliseconds, rounded down; 0 for
/// an empty batch.
pub open spec fn mean_millis(total_response_ms: nat, total: nat) -> nat {
    if total == 0 {
        0
    } else {
        total_response_ms / total
    }
}

/// The share of successes in whole percent, rounded down; 0 for an empty
/// batch.
pub open spec fn percent(successes: nat, total: nat) -> nat {
    if total == 0 {
        0
    } else {
        successes * 100 / total
    }
}

/// The tallies of a batch. The mean and the share are kept as the whole
/// numbers they are made of, so that nothing is lost to rounding.
#[derive(Debug, Clone, Copy)]
pub struct Stats {
    /// How many targets were checked.
    pub total: usize,
    /// How many ended as a success.
    pub successes: usize,
    /// How many ended as an HTTP error.
    pub http_errors: usize,
    /// How many ended as a transport error.
    pub transport_errors: usize,
    /// All response times added up, in milliseconds.
    pub total_response_ms: u128,
}

impl Stats {
    /// Every check is counted under exactly one of the three ends.
    pub open spec fn well_formed(&self) -> bool {
        self.total == self.successes + self.http_errors + self.transport_errors
    }

    /// The summary of `results`: how many there are, how many ended in each
    /// way, and their response times added up.
    pub fn compute(results: &[WebsiteStatus]) -> (stats: Stats)
        ensures
            stats.total == results@.len(),
            stats.successes == successes_in(views_of(results@)),
            stats.http_errors == http_errors_in(views_of(results@)),
            stats.transport_errors == transport_errors_in(views_of(results@)),
            stats.total_response_ms == total_millis(views_of(results@)),
            stats.well_formed(),
    {
        let ghost all = views_of(results@);
        let n: usize = results.len();
        let mut successes: usize = 0;
        let mut http_errors: usize = 0;
        let mut transport_errors: usize = 0;
        let mut total_ms: u128 = 0;
        let mut i: usize = 0;
        while i < n
            invariant
                n == results@.len(),
                all == views_of(results@),
                i <= n,
                successes == successes_in(all.take(i as int)),
                http_errors == http_errors_in(all.take(i as int)),
                transport_errors == transport_errors_in(all.take(i as int)),
                total_ms == total_millis(all.take(i as int)),
                successes + http_errors + transport_errors == i,
                total_ms <= i * 0xFFFF_FFFF_FFFF_FFFF,
            decreases n - i,
        {
            let r = &results[i];
            assert(all.take(i + 1).drop_last() =~= all.take(i as int));
            assert((i + 1) * 0xFFFF_FFFF_FFFF_FFFF <= 0xFFFF_FFFF_FFFF_FFFF
                * 0xFFFF_FFFF_FFFF_FFFF) by (nonlinear_arith)
                requires
                    i < 0xFFFF_FFFF_FFFF_FFFF,
            ;
            assert((i + 1) * 0xFFFF_FFFF_FFFF_FFFF == i * 0xFFFF_FFFF_FFFF_FFFF
                + 0xFFFF_FFFF_FFFF_FFFF) by (nonlinear_arith);
            total_ms = total_ms + r.response_time_ms as u128;
            match r.status {
                CheckStatus::Success(_) => {
                    successes += 1;
                },
                CheckStatus::HttpError(_) => {
                    http_errors += 1;
                },
                CheckStatus::Transport(_) => {
                    transport_errors += 1;
                },
            }
            i += 1;
        }
        assert(all.take(n as int) =~= all);
        Stats { total: n, successes, http_errors, transport_errors, total_response_ms: total_ms }
    }

    /// The mean response time in whole milliseconds, rounded down; 0 for an
    /// empty batch.
    pub fn avg_response_ms(&self) -> (mean: u128)
        ensures
            mean == mean_millis(self.total_response_ms as nat, self.total as nat),
    {
        if self.total == 0 {
            0
        } else {
            self.total_response_ms / (self.total as u128)
        }
    }

    /// The share of successes in whole percent, rounded down; 0 for an empty
    /// batch.
    pub fn uptime_pct(&self) -> (share: u128)
        ensures
            share == percent(self.successes as nat, self.total as nat),
    {
        if self.total == 0 {
            0
        } else {
            (self.successes as u128) * 100 / (self.total as u128)
        }
    }
}

/// Every check of a batch ends in exactly one of the three ways.
pub proof fn lemma_tallies_add_up(results: Seq<WebsiteStatusView>)
    ensures
        successes_in(results) + http_errors_in(results) + transport_errors_in(results)
            == results.len(),
    decreases results.len(),
{
    if results.len() > 0 {
        lemma_tallies_add_up(results.drop_last());
    }
}

/// The summary of an empty batch is zero throughout, the mean and the share
/// included.
pub proof fn lemma_empty_batch()
    ensures
        successes_in(Seq::empty()) == 0,
        http_errors_in(Seq::empty()) == 0,
        transport_errors_in(Seq::empty()) == 0,
        total_millis(Seq::empty()) == 0,
        mean_millis(0, 0) == 0,
        percent(0, 0) == 0,
{
}

/// The share of successes lies between 0 and 100.
pub proof fn lemma_percent_bounds(successes: nat, total: nat)
    requires
        successes <= total,
    ensures
        percent(successes, total) <= 100,
        successes == total && total > 0 ==> percent(successes, total) == 100,
{
    if total > 0 {
        assert(successes * 100 <= total * 100) by (nonlinear_arith)
            requires
                successes <= total,
        ;
        assert(successes * 100 / total <= 100) by (nonlinear_arith)
            requires
                successes * 100 <= total * 100,
                total > 0,
        ;
        if successes == total {
            assert(total * 100 / total == 100) by (nonlinear_arith)
                requires
                    total > 0,
            ;
        }
    }
}

} // verus!
