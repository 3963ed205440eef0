use vstd::prelude::*;

verus! {

/// Relies on `SystemTime::now`, `SystemTime::duration_since`, chrono's
/// `TimeDelta::from_std`, `DateTime::checked_add_signed` /
/// `checked_sub_signed` and `DateTime::to_rfc3339`: the current time as an
/// RFC 3339 text, or `None` where the clock lies outside chrono's range. None
/// of these calls panics; nothing is promised of the value, which is the clock's.
#[verifier::external_body]
fn now_rfc3339() -> (r: Option<String>) {
    let epoch = chrono::DateTime::<chrono::Utc>::UNIX_EPOCH;
    let at = match std::time::SystemTime::now().duration_since(std::time::UNIX_EPOCH) {
        Ok(after) => chrono::TimeDelta::from_std(after).ok().and_then(|d| epoch.checked_add_signed(d)),
        Err(before) => chrono::TimeDelta::from_std(before.duration()).ok().and_then(
            |d| epoch.checked_sub_signed(d),
        ),
    };
    at.map(|t| t.to_rfc3339())
}

/// The date of a message made now: the current time as an RFC 3339 text, or
/// the empty text where the clock cannot be written as one.
pub(crate) fn current_date() -> String {
    match now_rfc3339() {
        Some(date) => date,
        None => String::new(),
    }
}

} // verus!
