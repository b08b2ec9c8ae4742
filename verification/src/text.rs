//! Character-level text search used by the header and body rules.
//!
//! Every function here works on sequences of `char`; a string is looked at
//! through its view, so positions count characters, not bytes.

use vstd::prelude::*;

verus! {

/// An ASCII letter or digit.
pub open spec fn is_ascii_alphanumeric(c: char) -> bool {
    ('0' <= c && c <= '9') || ('a' <= c && c <= 'z') || ('A' <= c && c <= 'Z')
}

/// `c` with an ASCII capital letter turned into its small letter.
pub open spec fn ascii_lower(c: char) -> char {
    if 'A' <= c && c <= 'Z' {
        ((c as u8) + 32) as char
    } else {
        c
    }
}

/// `needle` stands in `text` at position `at`.
pub open spec fn occurs_at(text: Seq<char>, needle: Seq<char>, at: int) -> bool {
    &&& 0 <= at
    &&& at + needle.len() <= text.len()
    &&& text.subrange(at, at + needle.len()) == needle
}

/// `needle` stands somewhere in `text`.
pub open spec fn contains_text(text: Seq<char>, needle: Seq<char>) -> bool {
    exists|at: int| occurs_at(text, needle, at)
}

/// `needle` stands in `text` at `at`, and neither the character before it nor
/// the one after it, where there is one, is an ASCII letter or digit.
pub open spec fn stands_alone_at(text: Seq<char>, needle: Seq<char>, at: int) -> bool {
    &&& occurs_at(text, needle, at)
    &&& (at == 0 || !is_ascii_alphanumeric(text[at - 1]))
    &&& (at + needle.len() == text.len() || !is_ascii_alphanumeric(text[at + needle.len()]))
}

/// `needle` stands somewhere in `text` as a word of its own.
pub open spec fn contains_word(text: Seq<char>, needle: Seq<char>) -> bool {
    exists|at: int| stands_alone_at(text, needle, at)
}

/// `text` begins with `prefix`.
pub open spec fn has_prefix(text: Seq<char>, prefix: Seq<char>) -> bool {
    occurs_at(text, prefix, 0)
}

/// `a` and `b` are equal but for the case of ASCII letters.
pub open spec fn eq_ignore_ascii_case(a: Seq<char>, b: Seq<char>) -> bool {
    &&& a.len() == b.len()
    &&& forall|i: int| 0 <= i < a.len() ==> ascii_lower(#[trigger] a[i]) == ascii_lower(b[i])
}

/// `text` begins with `prefix`, but for the case of ASCII letters.
pub open spec fn has_prefix_ignore_ascii_case(text: Seq<char>, prefix: Seq<char>) -> bool {
    &&& prefix.len() <= text.len()
    &&& eq_ignore_ascii_case(text.subrange(0, prefix.len() as int), prefix)
}

/// The characters of `s`, in order.
pub fn chars_of(s: &str) -> (v: Vec<char>)
    ensures
        v@ == s@,
{
    let mut v: Vec<char> = Vec::new();
    for c in it: s.chars()
        invariant
            v@ == it.history(),
    {
        v.push(c);
    }
    v
}

/// Whether `c` is an ASCII letter or digit.
pub fn ascii_alphanumeric(c: char) -> (b: bool)
    ensures
        b == is_ascii_alphanumeric(c),
{
    ('0' <= c && c <= '9') || ('a' <= c && c <= 'z') || ('A' <= c && c <= 'Z')
}

/// Lowers an ASCII capital letter; any other character comes back unchanged.
pub fn to_ascii_lower(c: char) -> (r: char)
    ensures
        r == ascii_lower(c),
{
    if 'A' <= c && c <= 'Z' {
        let b: u8 = c as u8;
        (b + 32) as char
    } else {
        c
    }
}

/// Whether `needle` stands in `text` at `at`.
pub fn matches_at(text: &[char], needle: &[char], at: usize) -> (b: bool)
    ensures
        b == occurs_at(text@, needle@, at as int),
{
    let n: usize = needle.len();
    let len: usize = text.len();
    if n > len || at > len - n {
        return false;
    }
    let mut j: usize = 0;
    while j < n
        invariant
            n == needle@.len(),
            len == text@.len(),
            at + n <= len,
            j <= n,
            forall|k: int| 0 <= k < j ==> text@[at + k] == needle@[k],
        decreases n - j,
    {
        if text[at + j] != needle[j] {
            return false;
        }
        j += 1;
    }
    assert(text@.subrange(at as int, at + n) =~= needle@);
    true
}

/// Whether `needle` stands somewhere in `text`. The empty needle stands in
/// every text.
pub fn find_text(text: &[char], needle: &[char]) -> (b: bool)
    ensures
        b == contains_text(text@, needle@),
{
    let n: usize = needle.len();
    if n > text.len() {
        return false;
    }
    let last: usize = text.len() - n;
    let mut at: usize = 0;
    loop
        invariant
            n == needle@.len(),
            last == text@.len() - n,
            at <= last,
            forall|p: int| 0 <= p < at ==> !occurs_at(text@, needle@, p),
        decreases last - at,
    {
        if matches_at(text, needle, at) {
            return true;
        }
        if at == last {
            return false;
        }
        at += 1;
    }
}

/// Whether `needle` stands in `text` at `at` as a word of its own.
pub fn word_at(text: &[char], needle: &[char], at: usize) -> (b: bool)
    ensures
        b == stands_alone_at(text@, needle@, at as int),
{
    if !matches_at(text, needle, at) {
        return false;
    }
    let len: usize = text.len();
    let end: usize = at + needle.len();
    let left_ok = at == 0 || !ascii_alphanumeric(text[at - 1]);
    let right_ok = end == len || !ascii_alphanumeric(text[end]);
    left_ok && right_ok
}

/// Whether `needle` stands somewhere in `text` as a word of its own.
pub fn find_word(text: &[char], needle: &[char]) -> (b: bool)
    ensures
        b == contains_word(text@, needle@),
{
    let n: usize = needle.len();
    if n > text.len() {
        return false;
    }
    let last: usize = text.len() - n;
    let mut at: usize = 0;
    loop
        invariant
            n == needle@.len(),
            last == text@.len() - n,
            at <= last,
            forall|p: int| 0 <= p < at ==> !stands_alone_at(text@, needle@, p),
        decreases last - at,
    {
        if word_at(text, needle, at) {
            return true;
        }
        if at == last {
            return false;
        }
        at += 1;
    }
}

/// Whether `text` begins with `prefix`.
pub fn starts_with(text: &[char], prefix: &[char]) -> (b: bool)
    ensures
        b == has_prefix(text@, prefix@),
{
    if prefix.len() > text.len() {
        return false;
    }
    matches_at(text, prefix, 0)
}

/// Whether `a` and `b` are equal but for the case of ASCII letters.
pub fn equals_ignore_ascii_case(a: &[char], b: &[char]) -> (r: bool)
    ensures
        r == eq_ignore_ascii_case(a@, b@),
{
    if a.len() != b.len() {
        return false;
    }
    let n: usize = a.len();
    let mut i: usize = 0;
    while i < n
        invariant
            n == a@.len(),
            n == b@.len(),
            i <= n,
            forall|k: int| 0 <= k < i ==> ascii_lower(#[trigger] a@[k]) == ascii_lower(b@[k]),
        decreases n - i,
    {
        if to_ascii_lower(a[i]) != to_ascii_lower(b[i]) {
            return false;
        }
        i += 1;
    }
    true
}

/// Whether `text` begins with `prefix`, but for the case of ASCII letters.
pub fn starts_with_ignore_ascii_case(text: &[char], prefix: &[char]) -> (r: bool)
    ensures
        r == has_prefix_ignore_ascii_case(text@, prefix@),
{
    let n: usize = prefix.len();
    if n > text.len() {
        return false;
    }
    let mut i: usize = 0;
    while i < n
        invariant
            n == prefix@.len(),
            n <= text@.len(),
            i <= n,
            forall|k: int|
                0 <= k < i ==> ascii_lower(#[trigger] text@.subrange(0, n as int)[k])
                    == ascii_lower(prefix@[k]),
        decreases n - i,
    {
        if to_ascii_lower(text[i]) != to_ascii_lower(prefix[i]) {
            assert(text@.subrange(0, n as int)[i as int] == text@[i as int]);
            return false;
        }
        i += 1;
    }
    true
}

/// Whether Unicode counts `c` as a letter or a number, as
/// `char::is_alphanumeric` tells it.
pub uninterp spec fn alphanumeric(c: char) -> bool;

/// Calls `char::is_alphanumeric`. The contract only names the result; which
/// characters Unicode lists as letters and numbers is not stated here.
#[verifier::external_body]
fn is_alphanumeric(c: char) -> (b: bool)
    ensures
        b == alphanumeric(c),
{
    c.is_alphanumeric()
}

/// Every character of `needle` is a letter or a number.
pub open spec fn is_wordy(needle: Seq<char>) -> bool {
    forall|i: int| 0 <= i < needle.len() ==> alphanumeric(#[trigger] needle[i])
}

/// The token rule, for a needle of which it is known whether it is wordy:
/// the empty needle is found in every text; a wordy one must stand as a word
/// of its own; any other is found wherever it stands.
pub open spec fn token_found(text: Seq<char>, needle: Seq<char>, wordy: bool) -> bool {
    needle.len() == 0 || if wordy {
        contains_word(text, needle)
    } else {
        contains_text(text, needle)
    }
}

/// `needle` is found in `text` as a token.
pub open spec fn has_token(text: Seq<char>, needle: Seq<char>) -> bool {
    token_found(text, needle, is_wordy(needle))
}

/// Whether every character of `needle` is a letter or a number.
pub fn all_alphanumeric(needle: &[char]) -> (b: bool)
    ensures
        b == is_wordy(needle@),
{
    let n: usize = needle.len();
    let mut i: usize = 0;
    while i < n
        invariant
            n == needle@.len(),
            i <= n,
            forall|k: int| 0 <= k < i ==> alphanumeric(#[trigger] needle@[k]),
        decreases n - i,
    {
        if !is_alphanumeric(needle[i]) {
            return false;
        }
        i += 1;
    }
    true
}

/// Searches `text` for `needle` by the token rule, `wordy` saying whether the
/// needle is made of letters and numbers alone.
pub fn find_token(text: &[char], needle: &[char], wordy: bool) -> (b: bool)
    ensures
        b == token_found(text@, needle@, wordy),
{
    if needle.len() == 0 {
        true
    } else if wordy {
        find_word(text, needle)
    } else {
        find_text(text, needle)
    }
}

/// Whether `needle` is found in `text` as a token: as a word of its own where
/// it is made of letters and numbers alone, anywhere otherwise.
pub fn token_in(text: &[char], needle: &[char]) -> (b: bool)
    ensures
        b == has_token(text@, needle@),
{
    let wordy = needle.len() == 0 || all_alphanumeric(needle);
    find_token(text, needle, wordy)
}

/// A needle that holds a character which is neither letter nor number is
/// searched as plain text.
pub proof fn lemma_unwordy_needle_is_plain_search(text: Seq<char>, needle: Seq<char>)
    requires
        !is_wordy(needle),
    ensures
        has_token(text, needle) == contains_text(text, needle),
{
}

/// The empty needle is found in every text.
pub proof fn lemma_empty_needle_is_found(text: Seq<char>)
    ensures
        has_token(text, Seq::<char>::empty()),
{
}

/// What is found as a word of its own stands in the text.
pub proof fn lemma_word_stands_in_text(text: Seq<char>, needle: Seq<char>)
    requires
        contains_word(text, needle),
    ensures
        contains_text(text, needle),
{
    let at = choose|at: int| stands_alone_at(text, needle, at);
}

/// Every text holds itself as a token.
pub proof fn lemma_text_holds_itself(text: Seq<char>)
    ensures
        has_token(text, text),
{
    assert(text.subrange(0, text.len() as int) =~= text);
    assert(stands_alone_at(text, text, 0));
}

/// The text of one decimal digit.
pub open spec fn digit_text(d: nat) -> Seq<char> {
    if d == 0 {
        "0"@
    } else if d == 1 {
        "1"@
    } else if d == 2 {
        "2"@
    } else if d == 3 {
        "3"@
    } else if d == 4 {
        "4"@
    } else if d == 5 {
        "5"@
    } else if d == 6 {
        "6"@
    } else if d == 7 {
        "7"@
    } else if d == 8 {
        "8"@
    } else {
        "9"@
    }
}

/// `n` written in decimal digits, without leading zeros.
pub open spec fn decimal(n: nat) -> Seq<char>
    decreases n,
{
    if n < 10 {
        digit_text(n)
    } else {
        decimal(n / 10) + digit_text(n % 10)
    }
}

/// The text of the digit `d`.
fn digit_str(d: u64) -> (s: &'static str)
    requires
        d < 10,
    ensures
        s@ == digit_text(d as nat),
{
    if d == 0 {
        "0"
    } else if d == 1 {
        "1"
    } else if d == 2 {
        "2"
    } else if d == 3 {
        "3"
    } else if d == 4 {
        "4"
    } else if d == 5 {
        "5"
    } else if d == 6 {
        "6"
    } else if d == 7 {
        "7"
    } else if d == 8 {
        "8"
    } else {
        "9"
    }
}

/// Writes `n` in decimal digits.
pub fn to_decimal(n: u64) -> (s: String)
    ensures
        s@ == decimal(n as nat),
    decreases n,
{
    if n < 10 {
        String::from_str(digit_str(n))
    } else {
        let mut s = to_decimal(n / 10);
        s.append(digit_str(n % 10));
        s
    }
}

/// A digit is written as the one character that stands `d` places after `0`.
pub proof fn lemma_digit_text(d: nat)
    requires
        d < 10,
    ensures
        digit_text(d) == seq![(('0' as u8) + d as u8) as char],
{
    reveal_strlit("0");
    reveal_strlit("1");
    reveal_strlit("2");
    reveal_strlit("3");
    reveal_strlit("4");
    reveal_strlit("5");
    reveal_strlit("6");
    reveal_strlit("7");
    reveal_strlit("8");
    reveal_strlit("9");
}

} // verus!
