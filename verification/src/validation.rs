//! The rules that judge one HTTP exchange: the HTTPS policy, the header rules
//! and the body rules, and the report that they fill.

use crate::issue;
use crate::response::{body_view, header_value, HeaderSeq, Response, ResponseView};
use crate::text::{
    chars_of, contains_text, find_text, has_prefix, has_prefix_ignore_ascii_case, has_token,
    starts_with, starts_with_ignore_ascii_case, token_in,
};
use vstd::prelude::*;
use vstd::slice::slice_subrange;
use vstd::utf8::{decode_utf8, valid_utf8};

verus! {

/// What the rules found for one target.
#[derive(Debug)]
pub struct ValidationReport {
    pub header_ok: bool,
    pub body_ok: bool,
    pub https_policy_ok: bool,
    /// One text per broken rule, in the order in which the rules ran.
    pub issues: Vec<String>,
}

/// What a report holds, with each issue as a sequence of characters.
pub struct ReportView {
    pub header_ok: bool,
    pub body_ok: bool,
    pub https_policy_ok: bool,
    pub issues: Seq<Seq<char>>,
}

impl ReportView {
    /// All three verdicts hold.
    pub open spec fn overall_ok(self) -> bool {
        self.header_ok && self.body_ok && self.https_policy_ok
    }
}

impl View for ValidationReport {
    type V = ReportView;

    open spec fn view(&self) -> ReportView {
        ReportView {
            header_ok: self.header_ok,
            body_ok: self.body_ok,
            https_policy_ok: self.https_policy_ok,
            issues: self.issues.deep_view(),
        }
    }
}

impl ValidationReport {
    /// All three verdicts hold.
    pub open spec fn spec_overall_ok(&self) -> bool {
        self@.overall_ok()
    }

    /// Whether all three verdicts hold.
    #[verifier::when_used_as_spec(spec_overall_ok)]
    pub fn overall_ok(&self) -> (ok: bool)
        ensures
            ok == self.spec_overall_ok(),
    {
        self.header_ok && self.body_ok && self.https_policy_ok
    }
}

/// The report on which no rule has run yet: no verdict holds, no issue.
pub open spec fn blank_report() -> ReportView {
    ReportView { header_ok: false, body_ok: false, https_policy_ok: false, issues: Seq::empty() }
}

impl Default for ValidationReport {
    /// The report of [`blank_report`].
    fn default() -> (report: ValidationReport)
        ensures
            report@ == blank_report(),
    {
        let report = ValidationReport {
            header_ok: false,
            body_ok: false,
            https_policy_ok: false,
            issues: Vec::new(),
        };
        assert(report.issues.deep_view() =~= Seq::empty());
        report
    }
}

/// The rules of a run. It is made once and only read afterwards.
#[derive(Clone)]
pub struct Config {
    /// Whether a target must use HTTPS.
    pub https_required: bool,
    /// Headers that a response must have.
    pub required_headers: Vec<&'static str>,
    /// Prefixes of which the content type must begin with one, letter case
    /// aside; empty for no rule.
    pub content_type_allow: Vec<&'static str>,
    /// Headers with the value that each must have.
    pub header_equals: Vec<(&'static str, String)>,
    /// Headers with a text that the value of each must hold.
    pub header_contains: Vec<(&'static str, String)>,
    /// How much of a body is looked at, in bytes.
    pub max_body_bytes: usize,
    /// Tokens that the body must hold, all of them.
    pub body_contains_all: Vec<String>,
    /// Tokens of which the body must hold one; empty for no rule.
    pub body_contains_any: Vec<String>,
}

/// The rules of a run as sequences: what the contracts speak of.
pub struct ConfigView {
    pub https_required: bool,
    pub required_headers: Seq<Seq<char>>,
    pub content_type_allow: Seq<Seq<char>>,
    pub header_equals: Seq<(Seq<char>, Seq<char>)>,
    pub header_contains: Seq<(Seq<char>, Seq<char>)>,
    pub max_body_bytes: usize,
    pub body_contains_all: Seq<Seq<char>>,
    pub body_contains_any: Seq<Seq<char>>,
}

impl ConfigView {
    /// The body is looked at only where a body rule is set.
    pub open spec fn needs_body(self) -> bool {
        self.body_contains_all.len() > 0 || self.body_contains_any.len() > 0
    }

    /// Some part of a body is looked at. Rules with a limit of no bytes judge
    /// every body as if it were empty.
    pub open spec fn well_formed(self) -> bool {
        self.max_body_bytes > 0
    }
}

impl View for Config {
    type V = ConfigView;

    open spec fn view(&self) -> ConfigView {
        ConfigView {
            https_required: self.https_required,
            required_headers: self.required_headers.deep_view(),
            content_type_allow: self.content_type_allow.deep_view(),
            header_equals: self.header_equals.deep_view(),
            header_contains: self.header_contains.deep_view(),
            max_body_bytes: self.max_body_bytes,
            body_contains_all: self.body_contains_all.deep_view(),
            body_contains_any: self.body_contains_any.deep_view(),
        }
    }
}

/// The rules that a run has where none is chosen: HTTPS required, a
/// `Content-Type` header that begins with `text/html` or `application/json`,
/// 64 KiB of body, and no other rule.
pub open spec fn default_rules() -> ConfigView {
    ConfigView {
        https_required: true,
        required_headers: seq!["Content-Type"@],
        content_type_allow: seq!["text/html"@, "application/json"@],
        header_equals: Seq::empty(),
        header_contains: Seq::empty(),
        max_body_bytes: 65536,
        body_contains_all: Seq::empty(),
        body_contains_any: Seq::empty(),
    }
}

impl Config {
    /// The body is looked at only where a body rule is set.
    pub open spec fn spec_needs_body(&self) -> bool {
        self@.needs_body()
    }

    /// Whether a body rule is set, so that the body has to be read.
    #[verifier::when_used_as_spec(spec_needs_body)]
    pub fn needs_body(&self) -> (b: bool)
        ensures
            b == self.spec_needs_body(),
    {
        self.body_contains_all.len() > 0 || self.body_contains_any.len() > 0
    }
}

impl Default for Config {
    /// The rules of [`default_rules`].
    fn default() -> (cfg: Config)
        ensures
            cfg@ == default_rules(),
            cfg@.well_formed(),
    {
        let mut required_headers: Vec<&'static str> = Vec::new();
        required_headers.push("Content-Type");
        let mut content_type_allow: Vec<&'static str> = Vec::new();
        content_type_allow.push("text/html");
        content_type_allow.push("application/json");
        let cfg = Config {
            https_required: true,
            required_headers,
            content_type_allow,
            header_equals: Vec::new(),
            header_contains: Vec::new(),
            max_body_bytes: 65536,
            body_contains_all: Vec::new(),
            body_contains_any: Vec::new(),
        };
        assert(cfg.required_headers.deep_view() =~= seq!["Content-Type"@]);
        assert(cfg.content_type_allow.deep_view() =~= seq!["text/html"@, "application/json"@]);
        assert(cfg.header_contains.deep_view() =~= Seq::empty());
        assert(cfg.body_contains_any.deep_view() =~= Seq::empty());
        cfg
    }
}

/// The scheme of a secure target.
pub open spec fn https_scheme() -> Seq<char> {
    "https://"@
}

/// `url` meets the HTTPS policy: the policy is off, or the URL begins with
/// the secure scheme.
pub open spec fn https_policy_met(url: Seq<char>, required: bool) -> bool {
    !required || has_prefix(url, https_scheme())
}

/// The issues that the HTTPS policy adds for `url`.
pub open spec fn https_policy_issues(url: Seq<char>, required: bool) -> Seq<Seq<char>> {
    if https_policy_met(url, required) {
        Seq::empty()
    } else {
        seq![issue::https_required()]
    }
}

/// Judges `url` by the HTTPS policy. A breach is recorded in the report and
/// stops nothing: the other verdicts and the earlier issues stay.
pub fn enforce_https_policy(url: &str, report: &mut ValidationReport, cfg: &Config)
    ensures
        final(report)@ == (ReportView {
            https_policy_ok: https_policy_met(url@, cfg@.https_required),
            issues: old(report)@.issues + https_policy_issues(url@, cfg@.https_required),
            ..old(report)@
        }),
{
    if !cfg.https_required {
        report.https_policy_ok = true;
        return ;
    }
    let url_chars = chars_of(url);
    let scheme = chars_of("https://");
    if starts_with(url_chars.as_slice(), scheme.as_slice()) {
        report.https_policy_ok = true;
    } else {
        report.https_policy_ok = false;
        report.issues.push(issue::make_https_required());
        assert(report@.issues =~= old(report)@.issues + seq![issue::https_required()]);
    }
}

/// Whether `needle` is found in `text` as a token. A needle made of letters
/// and numbers alone must stand as a word of its own: neither the character
/// before it nor the one after it may be an ASCII letter or digit. Any other
/// needle is found wherever it stands. The empty needle is always found.
pub fn contains_token(text: &str, needle: &str) -> (found: bool)
    ensures
        found == has_token(text@, needle@),
{
    let text_chars = chars_of(text);
    let needle_chars = chars_of(needle);
    token_in(text_chars.as_slice(), needle_chars.as_slice())
}

/// The rule that asks for one token in the body: its issue where `text` lacks
/// the token.
pub open spec fn required_token_rule(text: Seq<char>) -> spec_fn(Seq<char>) -> Option<Seq<char>> {
    |needle: Seq<char>|
        if has_token(text, needle) {
            None
        } else {
            Some(issue::body_missing(needle))
        }
}

/// `text` holds one of `needles` as a token.
pub open spec fn any_token(text: Seq<char>, needles: Seq<Seq<char>>) -> bool {
    exists|i: int| 0 <= i < needles.len() && has_token(text, #[trigger] needles[i])
}

/// The issue of the any-of rule: none where no needle is set or one of them
/// is found.
pub open spec fn any_of_issues(text: Seq<char>, any: Seq<Seq<char>>) -> Seq<Seq<char>> {
    if any.len() > 0 && !any_token(text, any) {
        seq![issue::body_none_of(any)]
    } else {
        Seq::empty()
    }
}

/// The issues of the body rules for `text`: one for each token of `all` that
/// the text lacks, in their order, then one if `any` is not empty and the text
/// holds none of its tokens.
pub open spec fn body_issues(text: Seq<char>, all: Seq<Seq<char>>, any: Seq<Seq<char>>) -> Seq<
    Seq<char>,
> {
    all.filter_map(required_token_rule(text)) + any_of_issues(text, any)
}

/// Whether one of `needles` is found in `text` as a token.
fn any_token_in(text: &[char], needles: &Vec<String>) -> (hit: bool)
    ensures
        hit == any_token(text@, needles.deep_view()),
{
    let ghost dv = needles.deep_view();
    let n: usize = needles.len();
    let mut i: usize = 0;
    while i < n
        invariant
            n == needles@.len(),
            dv == needles.deep_view(),
            i <= n,
            forall|k: int| 0 <= k < i ==> !has_token(text@, #[trigger] dv[k]),
        decreases n - i,
    {
        let needle = chars_of(needles[i].as_str());
        assert(needle@ == dv[i as int]);
        if token_in(text, needle.as_slice()) {
            return true;
        }
        i += 1;
    }
    false
}

/// Judges the text of a body by the body rules. Returns whether it passes and
/// the issues found, which are those of [`body_issues`]; it passes exactly
/// when there is none.
pub fn check_body_text(text: &str, cfg: &Config) -> (r: (bool, Vec<String>))
    ensures
        r.1.deep_view() == body_issues(text@, cfg@.body_contains_all, cfg@.body_contains_any),
        r.0 == (r.1@.len() == 0),
{
    let text_chars = chars_of(text);
    let ghost all = cfg.body_contains_all.deep_view();
    let ghost rule = required_token_rule(text@);
    let mut issues: Vec<String> = Vec::new();
    let n: usize = cfg.body_contains_all.len();
    let mut i: usize = 0;
    while i < n
        invariant
            n == cfg.body_contains_all@.len(),
            all == cfg.body_contains_all.deep_view(),
            rule == required_token_rule(text@),
            text_chars@ == text@,
            i <= n,
            issues.deep_view() == all.take(i as int).filter_map(rule),
        decreases n - i,
    {
        let needle = cfg.body_contains_all[i].as_str();
        let needle_chars = chars_of(needle);
        proof {
            all.lemma_filter_map_take_succ(rule, i as int);
        }
        if !token_in(text_chars.as_slice(), needle_chars.as_slice()) {
            issues.push(issue::make_body_missing(needle));
        }
        i += 1;
    }
    assert(all.take(n as int) =~= all);
    if cfg.body_contains_any.len() > 0 && !any_token_in(
        text_chars.as_slice(),
        &cfg.body_contains_any,
    ) {
        issues.push(issue::make_body_none_of(&cfg.body_contains_any));
    }
    let ok = issues.len() == 0;
    (ok, issues)
}

/// The name of the header that the content type rule reads.
pub open spec fn content_type_name() -> Seq<char> {
    "Content-Type"@
}

/// The rule that asks for a header to be there: its issue where `headers`
/// lacks the name.
pub open spec fn presence_rule(headers: HeaderSeq) -> spec_fn(Seq<char>) -> Option<Seq<char>> {
    |name: Seq<char>|
        match header_value(headers, name) {
            Some(_) => None,
            None => Some(issue::missing_header(name)),
        }
}

/// `actual` begins with one of the prefixes of `allow`, letter case aside.
pub open spec fn content_type_allowed(actual: Seq<char>, allow: Seq<Seq<char>>) -> bool {
    exists|i: int| 0 <= i < allow.len() && has_prefix_ignore_ascii_case(actual, #[trigger] allow[i])
}

/// The issue of the content type rule: none where `allow` is empty; else the
/// header must be there, which is one issue, and begin with an allowed prefix,
/// which is another.
pub open spec fn content_type_issues(headers: HeaderSeq, allow: Seq<Seq<char>>) -> Seq<Seq<char>> {
    if allow.len() == 0 {
        Seq::empty()
    } else {
        match header_value(headers, content_type_name()) {
            Some(actual) => if content_type_allowed(actual, allow) {
                Seq::empty()
            } else {
                seq![issue::content_type_not_allowed(actual)]
            },
            None => seq![issue::missing_header(content_type_name())],
        }
    }
}

/// The rule that asks for a header to have a given value, as a pair of name
/// and value.
pub open spec fn equals_rule(headers: HeaderSeq) -> spec_fn((Seq<char>, Seq<char>)) -> Option<
    Seq<char>,
> {
    |rule: (Seq<char>, Seq<char>)|
        match header_value(headers, rule.0) {
            Some(got) => if got == rule.1 {
                None
            } else {
                Some(issue::header_mismatch(rule.0, got, rule.1))
            },
            None => Some(issue::missing_header(rule.0)),
        }
}

/// The rule that asks for a header's value to hold a given text, as a pair of
/// name and text.
pub open spec fn contains_rule(headers: HeaderSeq) -> spec_fn((Seq<char>, Seq<char>)) -> Option<
    Seq<char>,
> {
    |rule: (Seq<char>, Seq<char>)|
        match header_value(headers, rule.0) {
            Some(got) => if contains_text(got, rule.1) {
                None
            } else {
                Some(issue::header_lacks(rule.0, rule.1, got))
            },
            None => Some(issue::missing_header(rule.0)),
        }
}

/// The issues of the header rules for `headers`, in the order in which the
/// rules run: required headers, content type, exact values, held texts. Every
/// rule runs, whatever the others found.
pub open spec fn header_issues(headers: HeaderSeq, cfg: ConfigView) -> Seq<Seq<char>> {
    cfg.required_headers.filter_map(presence_rule(headers)) + content_type_issues(
        headers,
        cfg.content_type_allow,
    ) + cfg.header_equals.filter_map(equals_rule(headers)) + cfg.header_contains.filter_map(
        contains_rule(headers),
    )
}

/// Runs the rule of required headers and adds its issues to `issues`.
fn check_required(resp: &Response, names: &Vec<&'static str>, issues: &mut Vec<String>)
    ensures
        final(issues).deep_view() == old(issues).deep_view() + names.deep_view().filter_map(
            presence_rule(resp@.headers),
        ),
{
    let ghost all = names.deep_view();
    let ghost rule = presence_rule(resp@.headers);
    let ghost start = issues.deep_view();
    let n: usize = names.len();
    let mut i: usize = 0;
    while i < n
        invariant
            n == names@.len(),
            all == names.deep_view(),
            rule == presence_rule(resp@.headers),
            i <= n,
            issues.deep_view() == start + all.take(i as int).filter_map(rule),
        decreases n - i,
    {
        let name: &str = names[i];
        let ghost before = issues.deep_view();
        proof {
            all.lemma_filter_map_take_succ(rule, i as int);
        }
        if resp.header(name).is_none() {
            issues.push(issue::make_missing_header(name));
            assert(issues.deep_view() =~= before + seq![issue::missing_header(name@)]);
        }
        i += 1;
    }
    assert(all.take(n as int) =~= all);
}

/// Whether `actual` begins with one of the prefixes of `allow`, letter case
/// aside.
fn is_allowed_content_type(actual: &str, allow: &Vec<&'static str>) -> (b: bool)
    ensures
        b == content_type_allowed(actual@, allow.deep_view()),
{
    let ghost dv = allow.deep_view();
    let actual_chars = chars_of(actual);
    let n: usize = allow.len();
    let mut i: usize = 0;
    while i < n
        invariant
            n == allow@.len(),
            dv == allow.deep_view(),
            actual_chars@ == actual@,
            i <= n,
            forall|k: int| 0 <= k < i ==> !has_prefix_ignore_ascii_case(actual@, #[trigger] dv[k]),
        decreases n - i,
    {
        let prefix = chars_of(allow[i]);
        assert(prefix@ == dv[i as int]);
        if starts_with_ignore_ascii_case(actual_chars.as_slice(), prefix.as_slice()) {
            return true;
        }
        i += 1;
    }
    false
}

/// Runs the content type rule and adds its issue to `issues`.
fn check_content_type(resp: &Response, allow: &Vec<&'static str>, issues: &mut Vec<String>)
    ensures
        final(issues).deep_view() == old(issues).deep_view() + content_type_issues(
            resp@.headers,
            allow.deep_view(),
        ),
{
    if allow.len() == 0 {
        return ;
    }
    match resp.header("Content-Type") {
        Some(actual) => {
            if !is_allowed_content_type(actual, allow) {
                issues.push(issue::make_content_type_not_allowed(actual));
            }
        },
        None => {
            issues.push(issue::make_missing_header("Content-Type"));
        },
    }
}

/// Runs the rule of exact values and adds its issues to `issues`.
fn check_equals(resp: &Response, rules: &Vec<(&'static str, String)>, issues: &mut Vec<String>)
    ensures
        final(issues).deep_view() == old(issues).deep_view() + rules.deep_view().filter_map(
            equals_rule(resp@.headers),
        ),
{
    let ghost all = rules.deep_view();
    let ghost rule = equals_rule(resp@.headers);
    let ghost start = issues.deep_view();
    let n: usize = rules.len();
    let mut i: usize = 0;
    while i < n
        invariant
            n == rules@.len(),
            all == rules.deep_view(),
            rule == equals_rule(resp@.headers),
            i <= n,
            issues.deep_view() == start + all.take(i as int).filter_map(rule),
        decreases n - i,
    {
        let name: &str = rules[i].0;
        let expected: &str = rules[i].1.as_str();
        let ghost before = issues.deep_view();
        proof {
            all.lemma_filter_map_take_succ(rule, i as int);
        }
        match resp.header(name) {
            Some(got) => {
                if !same_text(got, expected) {
                    issues.push(issue::make_header_mismatch(name, got, expected));
                    assert(issues.deep_view() =~= before + seq![
                        issue::header_mismatch(name@, got@, expected@),
                    ]);
                }
            },
            None => {
                issues.push(issue::make_missing_header(name));
                assert(issues.deep_view() =~= before + seq![issue::missing_header(name@)]);
            },
        }
        i += 1;
    }
    assert(all.take(n as int) =~= all);
}

/// Runs the rule of held texts and adds its issues to `issues`.
fn check_contains(resp: &Response, rules: &Vec<(&'static str, String)>, issues: &mut Vec<String>)
    ensures
        final(issues).deep_view() == old(issues).deep_view() + rules.deep_view().filter_map(
            contains_rule(resp@.headers),
        ),
{
    let ghost all = rules.deep_view();
    let ghost rule = contains_rule(resp@.headers);
    let ghost start = issues.deep_view();
    let n: usize = rules.len();
    let mut i: usize = 0;
    while i < n
        invariant
            n == rules@.len(),
            all == rules.deep_view(),
            rule == contains_rule(resp@.headers),
            i <= n,
            issues.deep_view() == start + all.take(i as int).filter_map(rule),
        decreases n - i,
    {
        let name: &str = rules[i].0;
        let needle: &str = rules[i].1.as_str();
        let ghost before = issues.deep_view();
        proof {
            all.lemma_filter_map_take_succ(rule, i as int);
        }
        match resp.header(name) {
            Some(got) => {
                let got_chars = chars_of(got);
                let needle_chars = chars_of(needle);
                if !find_text(got_chars.as_slice(), needle_chars.as_slice()) {
                    issues.push(issue::make_header_lacks(name, needle, got));
                    assert(issues.deep_view() =~= before + seq![
                        issue::header_lacks(name@, needle@, got@),
                    ]);
                }
            },
            None => {
                issues.push(issue::make_missing_header(name));
                assert(issues.deep_view() =~= before + seq![issue::missing_header(name@)]);
            },
        }
        i += 1;
    }
    assert(all.take(n as int) =~= all);
}

/// Whether `a` and `b` hold the same characters.
fn same_text(a: &str, b: &str) -> (same: bool)
    ensures
        same == (a@ == b@),
{
    let a_chars = chars_of(a);
    let b_chars = chars_of(b);
    if a_chars.len() != b_chars.len() {
        return false;
    }
    let same = starts_with(a_chars.as_slice(), b_chars.as_slice());
    assert(a@.subrange(0, a@.len() as int) =~= a@);
    same
}

/// Judges the headers of `resp` by the header rules. Every rule runs and every
/// breach is recorded; the headers pass exactly when there is none.
pub fn validate_headers(resp: &Response, cfg: &Config, report: &mut ValidationReport)
    ensures
        final(report)@ == (ReportView {
            header_ok: header_issues(resp@.headers, cfg@).len() == 0,
            issues: old(report)@.issues + header_issues(resp@.headers, cfg@),
            ..old(report)@
        }),
{
    let mut found: Vec<String> = Vec::new();
    check_required(resp, &cfg.required_headers, &mut found);
    check_content_type(resp, &cfg.content_type_allow, &mut found);
    check_equals(resp, &cfg.header_equals, &mut found);
    check_contains(resp, &cfg.header_contains, &mut found);
    report.header_ok = found.len() == 0;
    add_issues(report, found);
}

/// Adds `found` to the issues of `report`, after those it has.
fn add_issues(report: &mut ValidationReport, found: Vec<String>)
    ensures
        final(report)@ == (ReportView {
            issues: old(report)@.issues + found.deep_view(),
            ..old(report)@
        }),
{
    let mut found = found;
    let ghost added = found.deep_view();
    report.issues.append(&mut found);
    assert(report@.issues =~= old(report)@.issues + added);
}

/// The text that `String::from_utf8_lossy` makes of `bytes`: the text they
/// encode, with U+FFFD in place of each part that is no UTF-8.
pub uninterp spec fn lossy_text(bytes: Seq<u8>) -> Seq<char>;

/// Calls `String::from_utf8_lossy`. The result is named; of bytes that are
/// valid UTF-8 it is the text they encode. Where std puts the replacement
/// characters for other bytes is not stated here.
#[verifier::external_body]
fn decode_lossy(bytes: &[u8]) -> (text: String)
    ensures
        text@ == lossy_text(bytes@),
        valid_utf8(bytes@) ==> text@ == decode_utf8(bytes@),
{
    String::from_utf8_lossy(bytes).into_owned()
}

/// The part of a body that is looked at: its first `limit` bytes.
pub open spec fn capped(bytes: Seq<u8>, limit: usize) -> Seq<u8> {
    if bytes.len() <= limit {
        bytes
    } else {
        bytes.take(limit as int)
    }
}

/// The issues of the body rules for what was read of a body. A body that
/// could not be read gives one issue; one that was read is cut to
/// `max_body_bytes`, decoded, and judged as text.
pub open spec fn body_read_issues(body: Result<Seq<u8>, Seq<char>>, cfg: ConfigView) -> Seq<
    Seq<char>,
> {
    match body {
        Ok(bytes) => body_issues(
            lossy_text(capped(bytes, cfg.max_body_bytes)),
            cfg.body_contains_all,
            cfg.body_contains_any,
        ),
        Err(reason) => seq![issue::body_unreadable(reason)],
    }
}

/// Judges what was read of a body by the body rules. A longer body is cut to
/// `max_body_bytes` without complaint, and bytes that are no text are
/// replaced, not refused. The body passes exactly when no issue is added.
pub fn validate_body(body: &Result<Vec<u8>, String>, cfg: &Config, report: &mut ValidationReport)
    ensures
        final(report)@ == (ReportView {
            body_ok: body_read_issues(body_view(*body), cfg@).len() == 0,
            issues: old(report)@.issues + body_read_issues(body_view(*body), cfg@),
            ..old(report)@
        }),
{
    match body {
        Ok(bytes) => {
            let all: &[u8] = bytes.as_slice();
            let seen: &[u8] = if all.len() <= cfg.max_body_bytes {
                all
            } else {
                slice_subrange(all, 0, cfg.max_body_bytes)
            };
            let text = decode_lossy(seen);
            let (ok, issues) = check_body_text(text.as_str(), cfg);
            report.body_ok = ok;
            add_issues(report, issues);
        },
        Err(reason) => {
            report.body_ok = false;
            let mut issues: Vec<String> = Vec::new();
            issues.push(issue::make_body_unreadable(reason.as_str()));
            assert(issues.deep_view() =~= seq![issue::body_unreadable(reason@)]);
            add_issues(report, issues);
        },
    }
}

/// The issues of the header and body rules for `resp`, headers first. The
/// body rules run only where one is set.
pub open spec fn response_issues(resp: ResponseView, cfg: ConfigView) -> Seq<Seq<char>> {
    header_issues(resp.headers, cfg) + if cfg.needs_body() {
        body_read_issues(resp.body, cfg)
    } else {
        Seq::empty()
    }
}

/// The headers of `resp` pass: the header rules find no issue.
pub open spec fn headers_pass(resp: ResponseView, cfg: ConfigView) -> bool {
    header_issues(resp.headers, cfg).len() == 0
}

/// The body of `resp` passes: no body rule is set, or the rules find no issue.
pub open spec fn body_passes(resp: ResponseView, cfg: ConfigView) -> bool {
    !cfg.needs_body() || body_read_issues(resp.body, cfg).len() == 0
}

/// Judges a response by the header rules, then by the body rules if one is
/// set. Where none is set the body passes and is not looked at.
pub fn validate_response(resp: Response, cfg: &Config, report: &mut ValidationReport)
    ensures
        final(report)@ == (ReportView {
            header_ok: headers_pass(resp@, cfg@),
            body_ok: body_passes(resp@, cfg@),
            issues: old(report)@.issues + response_issues(resp@, cfg@),
            ..old(report)@
        }),
{
    validate_headers(&resp, cfg, report);
    if cfg.needs_body() {
        validate_body(&resp.body, cfg, report);
    } else {
        report.body_ok = true;
    }
    assert(report@.issues =~= old(report)@.issues + response_issues(resp@, cfg@));
}

/// A list of rules finds no issue exactly when no rule of it finds one.
pub proof fn lemma_no_issue_iff_every_rule_holds<A>(
    rules: Seq<A>,
    judge: spec_fn(A) -> Option<Seq<char>>,
)
    ensures
        rules.filter_map(judge).len() == 0 <==> forall|i: int|
            0 <= i < rules.len() ==> judge(#[trigger] rules[i]) is None,
    decreases rules.len(),
{
    if rules.len() > 0 {
        let rest = rules.drop_last();
        lemma_no_issue_iff_every_rule_holds(rest, judge);
        if rules.filter_map(judge).len() == 0 {
            assert forall|i: int| 0 <= i < rules.len() implies judge(#[trigger] rules[i])
                is None by {
                if i < rules.len() - 1 {
                    assert(rest[i] == rules[i]);
                }
            }
        }
    }
}

/// The text of a body passes exactly when it holds every token asked for and,
/// where a choice of tokens is set, one of those.
pub proof fn lemma_body_passes(text: Seq<char>, all: Seq<Seq<char>>, any: Seq<Seq<char>>)
    ensures
        body_issues(text, all, any).len() == 0 <==> {
            &&& forall|i: int| 0 <= i < all.len() ==> has_token(text, #[trigger] all[i])
            &&& any.len() == 0 || any_token(text, any)
        },
{
    lemma_no_issue_iff_every_rule_holds(all, required_token_rule(text));
}

/// The headers pass exactly when every required header is there, the content
/// type begins with an allowed prefix where prefixes are set, every header
/// with a set value has that value, and every header with a set text holds it.
pub proof fn lemma_headers_pass(headers: HeaderSeq, cfg: ConfigView)
    ensures
        header_issues(headers, cfg).len() == 0 <==> {
            &&& forall|i: int|
                0 <= i < cfg.required_headers.len() ==> header_value(
                    headers,
                    #[trigger] cfg.required_headers[i],
                ) is Some
            &&& cfg.content_type_allow.len() == 0 || (header_value(headers, content_type_name())
                matches Some(actual) && content_type_allowed(actual, cfg.content_type_allow))
            &&& forall|i: int|
                0 <= i < cfg.header_equals.len() ==> header_value(
                    headers,
                    (#[trigger] cfg.header_equals[i]).0,
                ) == Some(cfg.header_equals[i].1)
            &&& forall|i: int|
                0 <= i < cfg.header_contains.len() ==> (header_value(
                    headers,
                    (#[trigger] cfg.header_contains[i]).0,
                ) matches Some(got) && contains_text(got, cfg.header_contains[i].1))
        },
{
    lemma_no_issue_iff_every_rule_holds(cfg.required_headers, presence_rule(headers));
    lemma_no_issue_iff_every_rule_holds(cfg.header_equals, equals_rule(headers));
    lemma_no_issue_iff_every_rule_holds(cfg.header_contains, contains_rule(headers));
}

} // verus!
