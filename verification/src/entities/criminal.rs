//! A registered person.

use vstd::prelude::*;

verus! {

/// How long before the arrest a person counts as last seen when nothing
/// else is known: sixteen hours, in seconds.
pub const LAST_SEEN_LEAD_SECONDS: i64 = 57600;

/// One row of the registry. Times are seconds since the Unix epoch, UTC;
/// the arrest carries the fraction of its second beside them.
#[derive(Debug, Clone, PartialEq, Eq)]
pub struct Model {
    pub criminal_id: u32,
    pub name: String,
    pub fathers_name: Option<String>,
    pub date_of_arrest: i64,
    /// The fraction of the second of the arrest, in nanoseconds.
    pub date_of_arrest_nanos: u32,
    pub last_seen: Option<i64>,
    pub no_of_crimes: u32,
    pub arrested_location: Option<String>,
}

/// The time of last sighting to store with a row: the one given, or else
/// sixteen hours before the arrest, where the arrest counts as happening
/// `now` if its date is not given either.
pub open spec fn last_seen_to_store(
    last_seen: Option<i64>,
    date_of_arrest: Option<i64>,
    now: i64,
) -> int {
    match last_seen {
        Some(t) => t as int,
        None => match date_of_arrest {
            Some(a) => a - LAST_SEEN_LEAD_SECONDS,
            None => now - LAST_SEEN_LEAD_SECONDS,
        },
    }
}

/// Fills in the time of last sighting before a row is saved.
pub fn before_save(last_seen: Option<i64>, date_of_arrest: Option<i64>, now: i64) -> (stored: i64)
    requires
        i64::MIN <= last_seen_to_store(last_seen, date_of_arrest, now),
    ensures
        stored == last_seen_to_store(last_seen, date_of_arrest, now),
{
    match last_seen {
        Some(t) => t,
        None => {
            let arrest = match date_of_arrest {
                Some(a) => a,
                None => now,
            };
            arrest - LAST_SEEN_LEAD_SECONDS
        },
    }
}

} // verus!
