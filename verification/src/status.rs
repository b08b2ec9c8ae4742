//! The record of one check: how the exchange ended, how long it took, and
//! what the rules found.

use crate::issue;
use crate::response::{Fetched, FetchedView, ResponseView};
use crate::text::{decimal, to_decimal};
use crate::time_utils::{clock_view, unknown_timestamp};
use crate::validation::{
    body_passes, default_rules, enforce_https_policy, headers_pass, https_policy_issues,
    https_policy_met, response_issues, validate_response, Config, ConfigView, ReportView,
    ValidationReport,
};
use vstd::prelude::*;

verus! {

/// How a check ended.
#[derive(Debug)]
pub enum CheckStatus {
    /// A response with a status from 200 to 299.
    Success(u16),
    /// A response with any other status.
    HttpError(u16),
    /// No response that could be read, with the reason.
    Transport(String),
}

/// How a check ended, with the reason as a sequence of characters.
pub enum CheckStatusView {
    Success(u16),
    HttpError(u16),
    Transport(Seq<char>),
}

impl View for CheckStatus {
    type V = CheckStatusView;

    open spec fn view(&self) -> CheckStatusView {
        match self {
            CheckStatus::Success(code) => CheckStatusView::Success(*code),
            CheckStatus::HttpError(code) => CheckStatusView::HttpError(*code),
            CheckStatus::Transport(reason) => CheckStatusView::Transport(reason@),
        }
    }
}

impl CheckStatus {
    /// No response was obtained.
    pub open spec fn spec_is_transport(&self) -> bool {
        self@ is Transport
    }

    /// Whether no response was obtained.
    #[verifier::when_used_as_spec(spec_is_transport)]
    pub fn is_transport(&self) -> (b: bool)
        ensures
            b == self.spec_is_transport(),
    {
        match self {
            CheckStatus::Transport(_) => true,
            _ => false,
        }
    }
}

/// The full record of one check of one target.
#[derive(Debug)]
pub struct WebsiteStatus {
    /// The target as it was given.
    pub url: String,
    /// How the check ended.
    pub status: CheckStatus,
    /// How long the request took, in milliseconds.
    pub response_time_ms: u64,
    /// When the check was made, or `unknown`.
    pub timestamp_utc: String,
    /// What the rules found.
    pub validation: ValidationReport,
}

/// The record of one check, as sequences.
pub struct WebsiteStatusView {
    pub url: Seq<char>,
    pub status: CheckStatusView,
    pub response_time_ms: u64,
    pub timestamp_utc: Seq<char>,
    pub validation: ReportView,
}

impl View for WebsiteStatus {
    type V = WebsiteStatusView;

    open spec fn view(&self) -> WebsiteStatusView {
        WebsiteStatusView {
            url: self.url@,
            status: self.status@,
            response_time_ms: self.response_time_ms,
            timestamp_utc: self.timestamp_utc@,
            validation: self.validation@,
        }
    }
}

/// A status that counts as success.
pub open spec fn is_success_code(code: u16) -> bool {
    200 <= code <= 299
}

/// How a check ends for what the request gave: a response is a success or an
/// HTTP error by its status, anything else a transport error.
pub open spec fn outcome_of(fetched: FetchedView) -> CheckStatusView {
    match fetched {
        FetchedView::Response(resp) => if is_success_code(resp.status) {
            CheckStatusView::Success(resp.status)
        } else {
            CheckStatusView::HttpError(resp.status)
        },
        FetchedView::Failed(reason) => CheckStatusView::Transport(reason),
    }
}

/// What the rules find for `url` and what the request gave. The HTTPS policy
/// is judged first, on the URL alone. A response of any status is judged by
/// the header and body rules. Without a response neither headers nor body
/// pass, and the failure is one more issue.
pub open spec fn report_of(url: Seq<char>, cfg: ConfigView, fetched: FetchedView) -> ReportView {
    match fetched {
        FetchedView::Response(resp) => ReportView {
            header_ok: headers_pass(resp, cfg),
            body_ok: body_passes(resp, cfg),
            https_policy_ok: https_policy_met(url, cfg.https_required),
            issues: https_policy_issues(url, cfg.https_required) + response_issues(resp, cfg),
        },
        FetchedView::Failed(reason) => ReportView {
            header_ok: false,
            body_ok: false,
            https_policy_ok: https_policy_met(url, cfg.https_required),
            issues: https_policy_issues(url, cfg.https_required) + seq![
                issue::transport_error(reason),
            ],
        },
    }
}

/// The record of a check whose timestamp was at hand.
pub open spec fn status_of(
    url: Seq<char>,
    cfg: ConfigView,
    timestamp_utc: Seq<char>,
    fetched: FetchedView,
    elapsed_ms: u64,
) -> WebsiteStatusView {
    WebsiteStatusView {
        url,
        status: outcome_of(fetched),
        response_time_ms: elapsed_ms,
        timestamp_utc,
        validation: report_of(url, cfg, fetched),
    }
}

/// The record of a check that asked the time source itself. Where the source
/// failed the timestamp is `unknown` and the failure is the last issue; the
/// verdicts are those of the rules either way.
pub open spec fn status_with_clock(
    url: Seq<char>,
    cfg: ConfigView,
    fetched: FetchedView,
    elapsed_ms: u64,
    clock: Result<Seq<char>, Seq<char>>,
) -> WebsiteStatusView {
    let report = report_of(url, cfg, fetched);
    match clock {
        Ok(timestamp) => status_of(url, cfg, timestamp, fetched, elapsed_ms),
        Err(reason) => WebsiteStatusView {
            url,
            status: outcome_of(fetched),
            response_time_ms: elapsed_ms,
            timestamp_utc: unknown_timestamp(),
            validation: ReportView {
                issues: report.issues + seq![issue::timestamp_failed(reason)],
                ..report
            },
        },
    }
}

/// A report made for one exchange passes as a whole exactly when it holds no
/// issue.
pub proof fn lemma_passes_iff_no_issue(url: Seq<char>, cfg: ConfigView, fetched: FetchedView)
    ensures
        report_of(url, cfg, fetched).overall_ok() <==> report_of(url, cfg, fetched).issues.len()
            == 0,
{
}

/// The HTTPS policy blocks nothing: whether headers and body pass is the same
/// for every URL.
pub proof fn lemma_policy_blocks_nothing(
    url: Seq<char>,
    other: Seq<char>,
    cfg: ConfigView,
    fetched: FetchedView,
)
    ensures
        report_of(url, cfg, fetched).header_ok == report_of(other, cfg, fetched).header_ok,
        report_of(url, cfg, fetched).body_ok == report_of(other, cfg, fetched).body_ok,
{
}

/// A response whose headers pass, judged by rules without a body rule, passes
/// as a whole exactly when the URL meets the HTTPS policy, whatever its status
/// and its body.
pub proof fn lemma_verdict_without_body_rules(
    url: Seq<char>,
    cfg: ConfigView,
    resp: ResponseView,
)
    requires
        !cfg.needs_body(),
        headers_pass(resp, cfg),
    ensures
        report_of(url, cfg, FetchedView::Response(resp)).body_ok,
        report_of(url, cfg, FetchedView::Response(resp)).overall_ok() == https_policy_met(
            url,
            cfg.https_required,
        ),
{
}

/// Without a response neither headers nor body pass, and the report says why.
pub proof fn lemma_transport_error_fails(url: Seq<char>, cfg: ConfigView, reason: Seq<char>)
    ensures
        outcome_of(FetchedView::Failed(reason)) == CheckStatusView::Transport(reason),
        !report_of(url, cfg, FetchedView::Failed(reason)).header_ok,
        !report_of(url, cfg, FetchedView::Failed(reason)).body_ok,
        report_of(url, cfg, FetchedView::Failed(reason)).issues.last() == issue::transport_error(
            reason,
        ),
{
}

/// How the check ends and what the rules find, for `url` and what the request
/// gave.
fn judge(url: &str, cfg: &Config, fetched: Fetched) -> (r: (CheckStatus, ValidationReport))
    ensures
        r.0@ == outcome_of(fetched@),
        r.1@ == report_of(url@, cfg@, fetched@),
{
    let mut report = ValidationReport::default();
    enforce_https_policy(url, &mut report, cfg);
    let status = match fetched {
        Fetched::Response(resp) => {
            let code = resp.status;
            validate_response(resp, cfg, &mut report);
            if 200 <= code && code <= 299 {
                CheckStatus::Success(code)
            } else {
                CheckStatus::HttpError(code)
            }
        },
        Fetched::Failed(reason) => {
            report.header_ok = false;
            report.body_ok = false;
            report.issues.push(issue::make_transport_error(reason.as_str()));
            assert(report@.issues =~= https_policy_issues(url@, cfg@.https_required) + seq![
                issue::transport_error(reason@),
            ]);
            CheckStatus::Transport(reason)
        },
    };
    (status, report)
}

impl WebsiteStatus {
    /// Records one check of `url` under the default rules, the time source
    /// having given `clock`.
    pub fn request(
        url: &str,
        fetched: Fetched,
        elapsed_ms: u64,
        clock: Result<String, String>,
    ) -> (ws: WebsiteStatus)
        ensures
            ws@ == status_with_clock(
                url@,
                default_rules(),
                fetched@,
                elapsed_ms,
                clock_view(clock),
            ),
    {
        let cfg = Config::default();
        WebsiteStatus::request_with(url, &cfg, fetched, elapsed_ms, clock)
    }

    /// Records one check of `url` under `cfg`, the time source having given
    /// `clock`. A failed time source costs the timestamp and adds an issue; it
    /// changes no verdict.
    pub fn request_with(
        url: &str,
        cfg: &Config,
        fetched: Fetched,
        elapsed_ms: u64,
        clock: Result<String, String>,
    ) -> (ws: WebsiteStatus)
        ensures
            ws@ == status_with_clock(url@, cfg@, fetched@, elapsed_ms, clock_view(clock)),
    {
        let (status, mut report) = judge(url, cfg, fetched);
        let timestamp_utc = match clock {
            Ok(timestamp) => timestamp,
            Err(reason) => {
                let ghost before = report@.issues;
                report.issues.push(issue::make_timestamp_failed(reason.as_str()));
                assert(report@.issues =~= before + seq![issue::timestamp_failed(reason@)]);
                String::from_str("unknown")
            },
        };
        WebsiteStatus {
            url: String::from_str(url),
            status,
            response_time_ms: elapsed_ms,
            timestamp_utc,
            validation: report,
        }
    }

    /// Records one check of `url` under `cfg` with a timestamp fetched
    /// beforehand, which is attached as it is.
    pub fn request_with_timestamp(
        url: &str,
        cfg: &Config,
        timestamp_utc: &str,
        fetched: Fetched,
        elapsed_ms: u64,
    ) -> (ws: WebsiteStatus)
        ensures
            ws@ == status_of(url@, cfg@, timestamp_utc@, fetched@, elapsed_ms),
    {
        let (status, report) = judge(url, cfg, fetched);
        WebsiteStatus {
            url: String::from_str(url),
            status,
            response_time_ms: elapsed_ms,
            timestamp_utc: String::from_str(timestamp_utc),
            validation: report,
        }
    }
}

/// `true` or `false`.
pub open spec fn bool_text(b: bool) -> Seq<char> {
    if b {
        "true"@
    } else {
        "false"@
    }
}

/// The line that says how a check ended.
pub open spec fn status_line(status: CheckStatusView) -> Seq<char> {
    match status {
        CheckStatusView::Success(code) => "Status: "@ + decimal(code as nat) + " (success)\n"@,
        CheckStatusView::HttpError(code) => "Status: "@ + decimal(code as nat)
            + " (http error)\n"@,
        CheckStatusView::Transport(reason) => "Transport error: "@ + reason + "\n"@,
    }
}

/// One line for each issue, in their order.
pub open spec fn issue_lines(issues: Seq<Seq<char>>) -> Seq<char>
    decreases issues.len(),
{
    if issues.len() == 0 {
        Seq::empty()
    } else {
        issue_lines(issues.drop_last()) + (" * "@ + issues.last() + "\n"@)
    }
}

/// The issues of a report under their heading; nothing for a report without
/// issues.
pub open spec fn issues_block(issues: Seq<Seq<char>>) -> Seq<char> {
    if issues.len() == 0 {
        Seq::empty()
    } else {
        "Issues:\n"@ + issue_lines(issues)
    }
}

/// The lines that say what the rules found.
pub open spec fn report_lines(report: ReportView) -> Seq<char> {
    "Validation overall ok? "@ + bool_text(report.overall_ok()) + "\n - Header ok: "@ + bool_text(
        report.header_ok,
    ) + "\n - Body ok: "@ + bool_text(report.body_ok) + "\n - HTTPS policy ok: "@ + bool_text(
        report.https_policy_ok,
    ) + "\n"@ + issues_block(report.issues)
}

/// A record as text for a reader, one fact to a line.
pub open spec fn status_text(ws: WebsiteStatusView) -> Seq<char> {
    "URL: "@ + ws.url + "\n"@ + status_line(ws.status) + "Response time (ms): "@ + decimal(
        ws.response_time_ms as nat,
    ) + "\nTimestamp (UTC): "@ + ws.timestamp_utc + "\n"@ + report_lines(ws.validation)
}

/// `true` or `false`.
fn bool_str(b: bool) -> (s: &'static str)
    ensures
        s@ == bool_text(b),
{
    if b {
        "true"
    } else {
        "false"
    }
}

impl CheckStatus {
    /// The line that says how the check ended.
    fn line(&self) -> (s: String)
        ensures
            s@ == status_line(self@),
    {
        match self {
            CheckStatus::Success(code) => {
                let mut s = String::from_str("Status: ");
                s.append(to_decimal(*code as u64).as_str());
                s.append(" (success)\n");
                s
            },
            CheckStatus::HttpError(code) => {
                let mut s = String::from_str("Status: ");
                s.append(to_decimal(*code as u64).as_str());
                s.append(" (http error)\n");
                s
            },
            CheckStatus::Transport(reason) => {
                let mut s = String::from_str("Transport error: ");
                s.append(reason.as_str());
                s.append("\n");
                s
            },
        }
    }
}

impl ValidationReport {
    /// One line for each issue.
    fn issue_lines(&self) -> (s: String)
        ensures
            s@ == issue_lines(self@.issues),
    {
        let ghost all = self@.issues;
        let mut s = String::new();
        let n: usize = self.issues.len();
        let mut i: usize = 0;
        while i < n
            invariant
                n == self.issues@.len(),
                all == self@.issues,
                i <= n,
                s@ == issue_lines(all.take(i as int)),
            decreases n - i,
        {
            let mut line = String::from_str(" * ");
            line.append(self.issues[i].as_str());
            line.append("\n");
            assert(all.take(i + 1).drop_last() =~= all.take(i as int));
            s.append(line.as_str());
            i += 1;
        }
        assert(all.take(n as int) =~= all);
        s
    }

    /// The lines that say what the rules found.
    fn lines(&self) -> (s: String)
        ensures
            s@ == report_lines(self@),
    {
        let mut s = String::from_str("Validation overall ok? ");
        s.append(bool_str(self.overall_ok()));
        s.append("\n - Header ok: ");
        s.append(bool_str(self.header_ok));
        s.append("\n - Body ok: ");
        s.append(bool_str(self.body_ok));
        s.append("\n - HTTPS policy ok: ");
        s.append(bool_str(self.https_policy_ok));
        s.append("\n");
        let mut block = String::new();
        if self.issues.len() > 0 {
            block.append("Issues:\n");
            block.append(self.issue_lines().as_str());
        }
        s.append(block.as_str());
        s
    }
}

impl WebsiteStatus {
    /// The record as text for a reader: the target, how the check ended, the
    /// response time, the timestamp, the three verdicts, and the issues if
    /// there are any. Every line ends with a line feed.
    pub fn to_text(&self) -> (s: String)
        ensures
            s@ == status_text(self@),
    {
        let mut s = String::from_str("URL: ");
        s.append(self.url.as_str());
        s.append("\n");
        s.append(self.status.line().as_str());
        s.append("Response time (ms): ");
        s.append(to_decimal(self.response_time_ms).as_str());
        s.append("\nTimestamp (UTC): ");
        s.append(self.timestamp_utc.as_str());
        s.append("\n");
        s.append(self.validation.lines().as_str());
        s
    }
}

} // verus!
