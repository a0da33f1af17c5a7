//! Trusted bridge to the calendar library for the one locale- and
//! timezone-dependent piece of rendering: the text of the date line.

use vstd::prelude::*;

verus! {

/// Relies on chrono: TimeZone::timestamp_opt on the machine-local zone, and
/// DateTime::format with the "%c %z" strftime pattern (date, time and numeric
/// offset). The text depends on the machine's time zone, so nothing is
/// claimed of it; a timestamp the calendar cannot place yields empty text.
#[verifier::external_body]
pub fn format_local_timestamp(secs: i64) -> String {
    match chrono::TimeZone::timestamp_opt(&chrono::Local, secs, 0) {
        chrono::LocalResult::Single(dt) => dt.format("%c %z").to_string(),
        _ => String::new(),
    }
}

} // verus!
