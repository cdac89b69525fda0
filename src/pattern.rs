use vstd::prelude::*;

use crate::decimal::{decimal_digits, digit_char, lemma_digits_value, parse_height, raw_height};
use crate::error::ServiceError;

verus! {

#[verifier::external_type_specification]
#[verifier::external_body]
pub struct ExRegex(regex::Regex);

#[verifier::external_type_specification]
#[verifier::external_body]
pub struct ExRegexError(regex::Error);

/// Whether the regex crate accepts `pattern`.
pub uninterp spec fn pattern_compiles(pattern: Seq<char>) -> bool;

/// The number of capture groups of the compiled `pattern`, the implicit group
/// of the whole match included.
pub uninterp spec fn group_slots(pattern: Seq<char>) -> nat;

/// The leftmost-first match of `pattern` in `text`, if there is one, with the
/// text of its first explicit capture group if that group took part.
pub uninterp spec fn first_group_match(pattern: Seq<char>, text: Seq<char>) -> Option<
    Option<Seq<char>>,
>;

/// A compiled metric pattern together with the text it was compiled from.
pub struct MetricPattern {
    source: String,
    regex: regex::Regex,
}

impl View for MetricPattern {
    type V = Seq<char>;

    /// The text of the pattern.
    closed spec fn view(&self) -> Seq<char> {
        self.source@
    }
}

/// Relies on regex::Regex::new: whether a pattern compiles depends on the
/// pattern alone.
#[verifier::external_body]
fn compile(pattern: &str) -> (r: Result<regex::Regex, regex::Error>)
    ensures
        r is Ok <==> pattern_compiles(pattern@),
{
    regex::Regex::new(pattern)
}

/// Relies on regex::Regex::captures_len: the number of capture groups,
/// counting the whole match, of the regex that `MetricPattern::new` compiled
/// from the pattern's text.
#[verifier::external_body]
fn group_slot_count(p: &MetricPattern) -> (r: usize)
    ensures
        r == group_slots(p@),
{
    p.regex.captures_len()
}

/// What a search for the first capture group found, as plain text.
pub open spec fn found_view(r: Option<Option<String>>) -> Option<Option<Seq<char>>> {
    match r {
        None => None,
        Some(None) => Some(None),
        Some(Some(s)) => Some(Some(s@)),
    }
}

/// Relies on regex::Regex::captures, Captures::get and Match::as_str: the
/// leftmost-first match in `text` of the regex that `MetricPattern::new`
/// compiled from the pattern's text, and the text of its group one.
#[verifier::external_body]
fn search_first_group(p: &MetricPattern, text: &str) -> (r: Option<Option<String>>)
    ensures
        found_view(r) == first_group_match(p@, text@),
{
    match p.regex.captures(text) {
        None => None,
        Some(caps) => Some(caps.get(1).map(|m| m.as_str().to_string())),
    }
}

/// The text that `pattern` captures from `text`, where the pattern has
/// exactly one capture group, matches, and that group takes part.
pub open spec fn captured_text(pattern: Seq<char>, text: Seq<char>) -> Option<Seq<char>> {
    if group_slots(pattern) == 2 {
        match first_group_match(pattern, text) {
            Some(Some(g)) => Some(g),
            _ => None,
        }
    } else {
        None
    }
}

/// The height that `pattern` extracts from `text`.
pub open spec fn pattern_height(pattern: Seq<char>, text: Seq<char>) -> Option<u32> {
    match captured_text(pattern, text) {
        Some(g) => raw_height(g),
        None => None,
    }
}

/// The message of the error for a pattern with `slots` capture groups,
/// the whole match included.
pub open spec fn incorrect_regex_message(slots: nat) -> Seq<char> {
    "expected 1 group exactly, provided "@ + decimal_digits(slots)
}

/// Whether `e` is the error that extracting a height with `pattern` from
/// `text` fails with.
pub open spec fn pattern_failure(pattern: Seq<char>, text: Seq<char>, e: ServiceError) -> bool {
    if group_slots(pattern) != 2 {
        e is IncorrectRegex && e->IncorrectRegex_message@ == incorrect_regex_message(
            group_slots(pattern),
        )
    } else {
        match first_group_match(pattern, text) {
            Some(Some(g)) => e is ParseIntError,
            _ => e is NoMetricError,
        }
    }
}

/// With a pattern of exactly one capture group that matches `text` and
/// captures the decimal text of a height, that height is what is extracted.
pub proof fn lemma_pattern_capture_reads_group(pattern: Seq<char>, text: Seq<char>, d: u32)
    requires
        group_slots(pattern) == 2,
        first_group_match(pattern, text) == Some(Some(decimal_digits(d as nat))),
    ensures
        pattern_height(pattern, text) == Some(d),
{
    lemma_digits_value(d as nat);
}

/// With a pattern of exactly one capture group that does not match `text`,
/// extraction fails, and the error it fails with is `NoMetricError`.
pub proof fn lemma_pattern_without_match_fails(pattern: Seq<char>, text: Seq<char>, e: ServiceError)
    requires
        group_slots(pattern) == 2,
        first_group_match(pattern, text) is None,
    ensures
        pattern_height(pattern, text) is None,
        pattern_failure(pattern, text, e) <==> e is NoMetricError,
{
}

/// The one-character text of the decimal digit `d`.
fn digit_text(d: usize) -> (r: &'static str)
    requires
        d < 10,
    ensures
        r@ == seq![digit_char(d as nat)],
{
    proof {
        reveal_strlit("0");
        reveal_strlit("1");
        reveal_strlit("2");
        reveal_strlit("3");
        reveal_strlit("4");
        reveal_strlit("5");
        reveal_strlit("6");
        reveal_strlit("7");
        reveal_strlit("8");
        reveal_strlit("9");
    }
    let r = if d == 0 {
        "0"
    } else if d == 1 {
        "1"
    } else if d == 2 {
        "2"
    } else if d == 3 {
        "3"
    } else if d == 4 {
        "4"
    } else if d == 5 {
        "5"
    } else if d == 6 {
        "6"
    } else if d == 7 {
        "7"
    } else if d == 8 {
        "8"
    } else {
        "9"
    };
    assert(r@ =~= seq![digit_char(d as nat)]);
    r
}

/// Appends the decimal digits of `n` to `out`.
fn push_decimal(out: &mut String, n: usize)
    ensures
        final(out)@ == old(out)@ + decimal_digits(n as nat),
    decreases n,
{
    if n >= 10 {
        push_decimal(out, n / 10);
        out.append(digit_text(n % 10));
        assert(final(out)@ =~= old(out)@ + decimal_digits(n as nat));
    } else {
        out.append(digit_text(n));
    }
}

impl MetricPattern {
    /// Compiles `pattern`; fails with `RegexError` exactly when the regex
    /// crate refuses it.
    pub fn new(pattern: &str) -> (r: Result<MetricPattern, ServiceError>)
        ensures
            r is Ok <==> pattern_compiles(pattern@),
            r is Ok ==> r->Ok_0@ == pattern@,
            r is Err ==> r->Err_0 is RegexError,
    {
        match compile(pattern) {
            Ok(regex) => Ok(MetricPattern { source: pattern.to_owned(), regex }),
            Err(e) => Err(ServiceError::RegexError(e)),
        }
    }

    /// Compiles `pattern` and checks, once and for all, that it has exactly
    /// one capture group.
    pub fn single_group(pattern: &str) -> (r: Result<MetricPattern, ServiceError>)
        ensures
            !pattern_compiles(pattern@) ==> r is Err && r->Err_0 is RegexError,
            pattern_compiles(pattern@) && group_slots(pattern@) != 2 ==> r is Err
                && r->Err_0 is IncorrectRegex && r->Err_0->IncorrectRegex_message@
                == incorrect_regex_message(group_slots(pattern@)),
            pattern_compiles(pattern@) && group_slots(pattern@) == 2 ==> r is Ok && r->Ok_0@
                == pattern@,
    {
        let p = MetricPattern::new(pattern)?;
        let slots = group_slot_count(&p);
        if slots != 2 {
            return Err(incorrect_regex(slots));
        }
        Ok(p)
    }
}

/// The error for a pattern with `slots` capture groups, the whole match
/// included.
fn incorrect_regex(slots: usize) -> (e: ServiceError)
    ensures
        e is IncorrectRegex,
        e->IncorrectRegex_message@ == incorrect_regex_message(slots as nat),
{
    let mut message = String::from_str("expected 1 group exactly, provided ");
    push_decimal(&mut message, slots);
    ServiceError::IncorrectRegex { message }
}

/// Applies the metric pattern `re` to `text` and returns the text of its
/// capture group. A pattern without exactly one capture group fails with
/// `IncorrectRegex` whatever the text; otherwise no match fails with
/// `NoMetricError`.
pub fn apply(re: &MetricPattern, text: &str) -> (r: Result<String, ServiceError>)
    ensures
        match captured_text(re@, text@) {
            Some(g) => r is Ok && r->Ok_0@ == g,
            None => r is Err && pattern_failure(re@, text@, r->Err_0),
        },
{
    let slots = group_slot_count(re);
    if slots != 2 {
        return Err(incorrect_regex(slots));
    }
    match search_first_group(re, text) {
        Some(Some(g)) => Ok(g),
        _ => Err(ServiceError::NoMetricError),
    }
}

/// Extracts a block height from `text` with the metric pattern `re`: the
/// pattern's capture group must hold a decimal `u32`.
pub fn height_from_pattern(re: &MetricPattern, text: &str) -> (r: Result<u32, ServiceError>)
    ensures
        match pattern_height(re@, text@) {
            Some(h) => r == Ok::<u32, ServiceError>(h),
            None => r is Err && pattern_failure(re@, text@, r->Err_0),
        },
{
    let matched = apply(re, text)?;
    parse_height(matched.as_str())
}

} // verus!
