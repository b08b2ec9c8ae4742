//! Health checks for a list of web sites.
//!
//! The library holds the rules and leaves the network to its caller. One
//! check of one target runs like this: the caller sends a GET, reads the body
//! if [`validation::Config::needs_body`] says so, and hands what came back to
//! [`status::WebsiteStatus::request_with_timestamp`] as a
//! [`response::Fetched`]. That call judges the exchange by the HTTPS policy,
//! the header rules and the body rules and returns the record of the check.
//!
//! A batch runs on [`concurrent::effective_workers`] workers. Each worker
//! takes a job from the [`concurrent::Batch`], tries its target as often as
//! [`concurrent::Attempts`] says, and records the final result. The batch
//! gives the results back in the order of the targets, and
//! [`stats::Stats::compute`] sums them up.
//!
//! Every function states what it returns in its contract, over the views of
//! its arguments. Three calls into std are trusted and say so where they
//! stand: `char::is_alphanumeric`, `String::from_utf8_lossy`, and the `Debug`
//! formatting of a list of strings.

pub mod concurrent;
pub mod issue;
pub mod response;
pub mod stats;
pub mod status;
pub mod text;
pub mod time_utils;
pub mod validation;
