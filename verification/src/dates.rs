//! Dates read from text, by `chrono`.
use std::fmt::Write;
use vstd::prelude::*;

verus! {

/// The moment that `chrono` reads from the text by the format, as seconds
/// since the Unix epoch taken as UTC, where it can read one.
pub uninterp spec fn date_time_parsed(text: Seq<char>, format: Seq<char>) -> Option<i64>;

/// `chrono::NaiveDateTime::parse_from_str` of the text by the format, as
/// seconds since the Unix epoch taken as UTC, or `None` where it fails.
/// Claimed: the result is `date_time_parsed` of the text and the format.
#[verifier::external_body]
pub(crate) fn parse_date_time(text: &str, format: &str) -> (r: Option<i64>)
    ensures
        r == date_time_parsed(text@, format@),
{
    match chrono::NaiveDateTime::parse_from_str(text, format) {
        Ok(date) => Some(date.and_utc().timestamp()),
        Err(_) => None,
    }
}

} // verus!

verus! {

/// The first match of the regular expression in the text, as `regex` finds
/// it; `None` where there is none or the expression cannot be read.
pub uninterp spec fn regex_found(pattern: Seq<char>, text: Seq<char>) -> Option<Seq<char>>;

/// The first match of the regular expression in the text, by `regex`
/// (`Regex::new(pattern)`, then `find(text)`), or `None` where there is no
/// match or the expression cannot be read. Claimed: the result is
/// `regex_found` of the pattern and the text.
#[verifier::external_body]
pub(crate) fn find_match(pattern: &str, text: &str) -> (r: Option<String>)
    ensures
        match r {
            Some(m) => regex_found(pattern@, text@) == Some(m@),
            None => regex_found(pattern@, text@) is None,
        },
{
    match regex::Regex::new(pattern) {
        Ok(expression) => match expression.find(text) {
            Some(found) => Some(found.as_str().to_string()),
            None => None,
        },
        Err(_) => None,
    }
}

} // verus!

verus! {

/// The moment (seconds since the Unix epoch, UTC) written by `chrono` in
/// the format, where `chrono` can hold the moment and write the format.
pub uninterp spec fn date_formatted(date: i64, format: Seq<char>) -> Option<Seq<char>>;

/// The moment written in the format by `chrono` (`DateTime::from_timestamp`,
/// then `naive_utc().format`), or `None` where `chrono` cannot hold the
/// moment or write the format. Claimed: the result is `date_formatted` of
/// the moment and the format.
#[verifier::external_body]
pub(crate) fn format_date(date: i64, format: &str) -> (r: Option<String>)
    ensures
        match r {
            Some(s) => date_formatted(date, format@) == Some(s@),
            None => date_formatted(date, format@) is None,
        },
{
    let moment = chrono::DateTime::from_timestamp(date, 0)?;
    let mut text = String::new();
    match write!(text, "{}", moment.naive_utc().format(format)) {
        Ok(()) => Some(text),
        Err(_) => None,
    }
}

/// How long ago a span of seconds was, as `timeago` words it with at most
/// `items` units, minutes the smallest.
pub uninterp spec fn ago_text(seconds: u64, items: usize) -> Seq<char>;

/// `timeago::Formatter::convert` of the span, with `num_items(items)` and
/// `min_unit(Minutes)`. The count of units is at least one, as `num_items`
/// asks. Claimed: the result is `ago_text` of the span and the count.
#[verifier::external_body]
pub(crate) fn time_ago(seconds: u64, items: usize) -> (r: String)
    requires
        items > 0,
    ensures
        r@ == ago_text(seconds, items),
{
    let mut formatter = timeago::Formatter::new();
    formatter.num_items(items);
    formatter.min_unit(timeago::TimeUnit::Minutes);
    formatter.convert(std::time::Duration::from_secs(seconds))
}

} // verus!
