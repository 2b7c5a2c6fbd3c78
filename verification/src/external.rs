//! Trusted bindings to the host: the UTC clock, random unique suffixes,
//! and Unicode case folding.
//!
//! Each item wraps exactly one outside function behind a contract the
//! rest of the library is verified against. Results that depend on the
//! clock or on randomness promise only what holds of every outcome.
use chrono::Datelike;
use vstd::prelude::*;

verus! {

/// Relies on chrono's `Utc::now` with `Datelike`: the current UTC date
/// as (year, month, day). `month` ranges over 1 to 12 and `day` over 1
/// to 31 by chrono's documentation; nothing further holds of a clock
/// reading.
#[verifier::external_body]
pub(crate) fn today_utc() -> (date: (i32, u32, u32))
    ensures
        1 <= date.1 <= 12,
        1 <= date.2 <= 31,
{
    let now = chrono::Utc::now();
    (now.year(), now.month(), now.day())
}

/// Relies on chrono's `Utc::now` and `format`: the current UTC instant
/// written as `%Y-%m-%d_%H%M%S_%3f`. A clock reading promises nothing.
#[verifier::external_body]
pub(crate) fn now_timestamp_dashed() -> String {
    chrono::Utc::now().format("%Y-%m-%d_%H%M%S_%3f").to_string()
}

/// Relies on chrono's `Utc::now` and `format`: the current UTC instant
/// written as `%Y%m%d_%H%M%S_%3f`. A clock reading promises nothing.
#[verifier::external_body]
pub(crate) fn now_timestamp_compact() -> String {
    chrono::Utc::now().format("%Y%m%d_%H%M%S_%3f").to_string()
}

/// Relies on uuid's `Uuid::new_v4` and its `Display`: a random version 4
/// identifier in the hyphenated form, which is 36 characters long by
/// uuid's documentation. Nothing holds of which identifier comes back.
#[verifier::external_body]
pub(crate) fn new_uuid_string() -> (id: String)
    ensures
        id@.len() == 36,
{
    uuid::Uuid::new_v4().to_string()
}

/// The case folding `str::to_lowercase` applies: a function of the
/// input's characters alone.
pub uninterp spec fn lower_of(s: Seq<char>) -> Seq<char>;

/// Relies on `str::to_lowercase` of std: the result depends on the
/// input's characters alone, and an empty string folds to an empty
/// string.
#[verifier::external_body]
pub(crate) fn to_lowercase(s: &str) -> (r: String)
    ensures
        r@ == lower_of(s@),
        s@.len() == 0 ==> r@.len() == 0,
{
    s.to_lowercase()
}

/// Relies on `String::pop` of std: removes and returns the last
/// character; an empty string stays empty and yields nothing.
#[verifier::external_body]
pub(crate) fn pop_char(s: &mut String) -> (popped: Option<char>)
    ensures
        old(s)@.len() == 0 ==> final(s)@ == old(s)@ && popped is None,
        old(s)@.len() > 0 ==> final(s)@ == old(s)@.drop_last() && popped == Some(
            old(s)@.last(),
        ),
{
    s.pop()
}

} // verus!
