//! Reading the timestamps an older version of the tool stored.
//!
//! That version handed its times straight to the database driver, which
//! wrote its native formatting (`2026-08-19 21:16:20.587187055 -0500 CDT
//! m=+150.374812277`, monotonic-clock reading and all). Adopting such a
//! database rewrites each of them into RFC 3339; the rewriting of the rows
//! is the caller's, and what each value becomes is decided here.

use vstd::prelude::*;

use crate::text::{join, trim, views, words};

verus! {

/// Whether `chrono` reads `text` as an RFC 3339 timestamp.
pub uninterp spec fn rfc3339_parses(text: Seq<char>) -> bool;

/// What `chrono` makes of `text` read with a format that carries a zone
/// offset, written back as RFC 3339 in UTC; `None` when it does not parse.
pub uninterp spec fn zoned_time_text(text: Seq<char>, format: Seq<char>) -> Option<Seq<char>>;

/// What `chrono` makes of `text` read with a format that carries no zone,
/// taken as UTC and written back as RFC 3339; `None` when it does not parse.
pub uninterp spec fn naive_time_text(text: Seq<char>, format: Seq<char>) -> Option<Seq<char>>;

/// `chrono::DateTime::parse_from_rfc3339(text).is_ok()`.
#[verifier::external_body]
fn parses_as_rfc3339(text: &str) -> (r: bool)
    ensures
        r == rfc3339_parses(text@),
{
    chrono::DateTime::parse_from_rfc3339(text).is_ok()
}

/// `chrono::DateTime::parse_from_str(text, format)`, converted to UTC and
/// written with `to_rfc3339`.
#[verifier::external_body]
fn parse_zoned(text: &str, format: &str) -> (r: Option<String>)
    ensures
        r matches Some(t) ==> zoned_time_text(text@, format@) == Some(t@),
        r is None ==> zoned_time_text(text@, format@) is None,
{
    match chrono::DateTime::parse_from_str(text, format) {
        Ok(time) => Some(time.with_timezone(&chrono::Utc).to_rfc3339()),
        Err(_) => None,
    }
}

/// `chrono::NaiveDateTime::parse_from_str(text, format)`, taken as UTC and
/// written with `to_rfc3339`.
#[verifier::external_body]
fn parse_naive(text: &str, format: &str) -> (r: Option<String>)
    ensures
        r matches Some(t) ==> naive_time_text(text@, format@) == Some(t@),
        r is None ==> naive_time_text(text@, format@) is None,
{
    match chrono::NaiveDateTime::parse_from_str(text, format) {
        Ok(time) => Some(time.and_utc().to_rfc3339()),
        Err(_) => None,
    }
}

/// The layout of the native format's first three words: date, time with
/// fraction, offset.
pub const ZONED_FORMAT: &'static str = "%Y-%m-%d %H:%M:%S%.f %z";

/// The zone-less layouts tried, in order: SQLite's own text format with and
/// without a fraction, and the ISO form with a `T`.
pub const NAIVE_FRACTION_FORMAT: &'static str = "%Y-%m-%d %H:%M:%S%.f";

pub const NAIVE_FORMAT: &'static str = "%Y-%m-%d %H:%M:%S";

pub const NAIVE_T_FORMAT: &'static str = "%Y-%m-%dT%H:%M:%S%.f";

/// What a stored timestamp is rewritten to, if anything.
pub open spec fn go_time_text(value: Seq<char>) -> Option<Seq<char>> {
    let v = trim(value);
    let all = words(v);
    let parts = if all.len() > 3 {
        all.take(3)
    } else {
        all
    };
    let naive = join(
        if parts.len() > 2 {
            parts.take(2)
        } else {
            parts
        },
        " "@,
    );
    if rfc3339_parses(v) {
        None
    } else if parts.len() == 3 && zoned_time_text(join(parts, " "@), ZONED_FORMAT@) is Some {
        zoned_time_text(join(parts, " "@), ZONED_FORMAT@)
    } else if naive_time_text(naive, NAIVE_FRACTION_FORMAT@) is Some {
        naive_time_text(naive, NAIVE_FRACTION_FORMAT@)
    } else if naive_time_text(naive, NAIVE_FORMAT@) is Some {
        naive_time_text(naive, NAIVE_FORMAT@)
    } else {
        naive_time_text(naive, NAIVE_T_FORMAT@)
    }
}

/// Read a timestamp the older version wrote, as RFC 3339 in UTC.
///
/// Returns `None` when the value already parses as RFC 3339, so anything
/// needing no change is left exactly as it is, and when it is nothing this
/// recognises, which is left alone rather than guessed at.
pub fn parse_go_time(value: &str) -> (r: Option<String>)
    ensures
        match r {
            Some(t) => go_time_text(value@) == Some(t@),
            None => go_time_text(value@) is None,
        },
{
    let v = crate::text::trim_str(value);
    if parses_as_rfc3339(v.as_str()) {
        return None;
    }
    let mut parts = crate::text::split_words(v.as_str());
    let ghost all = views(parts@);
    if parts.len() > 3 {
        parts.truncate(3);
        assert(views(parts@) =~= all.take(3));
    }
    if parts.len() == 3 {
        let joined = crate::text::join_strings(&parts, " ");
        match parse_zoned(joined.as_str(), ZONED_FORMAT) {
            Some(t) => {
                return Some(t);
            },
            None => {},
        }
    }
    if parts.len() > 2 {
        let ghost three = views(parts@);
        parts.truncate(2);
        assert(views(parts@) =~= three.take(2));
    }
    let naive = crate::text::join_strings(&parts, " ");
    match parse_naive(naive.as_str(), NAIVE_FRACTION_FORMAT) {
        Some(t) => {
            return Some(t);
        },
        None => {},
    }
    match parse_naive(naive.as_str(), NAIVE_FORMAT) {
        Some(t) => {
            return Some(t);
        },
        None => {},
    }
    parse_naive(naive.as_str(), NAIVE_T_FORMAT)
}

} // verus!
