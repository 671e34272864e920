//! The next-fire computation behind the scheduler: the instant a cron
//! expression next matches, strictly after a given instant.
//!
//! Evaluating a cron expression against the civil calendar is the one piece
//! of the scheduler done by an outside crate. Its result is deterministic —
//! a function of the expression and the instant alone — so it is given a
//! name here, and everything the scheduler decides is stated over that name.

use vstd::prelude::*;

verus! {

/// The instant (whole seconds since the Unix epoch, UTC) at which the cron
/// expression next matches, strictly after `after`; nothing when the
/// expression does not parse, `after` lies outside the representable range,
/// or no match exists within the search horizon.
pub uninterp spec fn next_fire_of(cron: Seq<char>, after: u64) -> Option<u64>;

/// Relies on croner's `Cron::from_str` and `find_next_occurrence` (with the
/// start instant excluded), and on chrono's `DateTime::from_timestamp` and
/// `timestamp` for the conversions at either end: the result depends on the
/// expression and the instant alone, and any occurrence found lies strictly
/// after the start instant.
#[verifier::external_body]
pub(crate) fn next_occurrence_unix(cron: &str, after: u64) -> (r: Option<u64>)
    ensures
        r == next_fire_of(cron@, after),
        r matches Some(t) ==> t > after,
{
    let parsed = cron.parse::<croner::Cron>().ok()?;
    let start = chrono::DateTime::<chrono::Utc>::from_timestamp(i64::try_from(after).ok()?, 0)?;
    let next = parsed.find_next_occurrence(&start, false).ok()?;
    u64::try_from(next.timestamp()).ok()
}

} // verus!
