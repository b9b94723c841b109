//! The current time and its display form.
use vstd::prelude::*;

verus! {

/// 9999-12-31T23:59:59Z, the last second that an RFC 2822 date can show.
pub const LATEST_DISPLAYABLE: i64 = 253402300799;

/// Relies on chrono's `Utc::now` and `DateTime::timestamp`: the current time
/// in whole seconds since the Unix epoch.
#[verifier::external_body]
pub(crate) fn unix_now() -> (r: i64) {
    chrono::Utc::now().timestamp()
}

pub uninterp spec fn rfc2822_text(secs: int) -> Seq<char>;

/// Relies on chrono's `DateTime::from_timestamp` and `DateTime::to_rfc2822`
/// in UTC; the latter panics only outside the years 0 to 9999.
#[verifier::external_body]
pub(crate) fn format_rfc2822(secs: i64) -> (r: String)
    requires
        0 <= secs <= LATEST_DISPLAYABLE,
    ensures
        r@ == rfc2822_text(secs as int),
{
    match chrono::DateTime::from_timestamp(secs, 0) {
        Some(d) => d.to_rfc2822(),
        None => String::new(),
    }
}

pub uninterp spec fn months_later(secs: int, months: int) -> Option<int>;

/// Relies on chrono's `DateTime::checked_add_months` in UTC, which yields
/// `None` when the result is out of range.
#[verifier::external_body]
pub(crate) fn add_months(secs: i64, months: u32) -> (r: Option<i64>)
    ensures
        match r {
            Some(x) => months_later(secs as int, months as int) == Some(x as int),
            None => months_later(secs as int, months as int) is None,
        },
{
    match chrono::DateTime::from_timestamp(secs, 0) {
        Some(d) => match d.checked_add_months(chrono::Months::new(months)) {
            Some(x) => Some(x.timestamp()),
            None => None,
        },
        None => None,
    }
}

/// The display form of a time: RFC 2822 where it can be shown, else "unknown".
pub open spec fn date_text(secs: int) -> Seq<char> {
    if 0 <= secs <= LATEST_DISPLAYABLE {
        rfc2822_text(secs)
    } else {
        "unknown"@
    }
}

pub fn display_date(secs: i64) -> (r: String)
    ensures
        r@ == date_text(secs as int),
{
    if 0 <= secs && secs <= LATEST_DISPLAYABLE {
        format_rfc2822(secs)
    } else {
        "unknown".to_string()
    }
}

/// The display form of the time one day after `secs`.
pub fn display_date_next_day(secs: i64) -> (r: String)
    ensures
        r@ == date_text(secs + 86400),
{
    if -86400 <= secs && secs <= LATEST_DISPLAYABLE - 86400 {
        format_rfc2822(secs + 86400)
    } else {
        "unknown".to_string()
    }
}

/// The display form of the time `months` calendar months after `secs`, or
/// of `secs` itself when that cannot be computed.
pub open spec fn months_later_text(secs: int, months: int) -> Seq<char> {
    match months_later(secs, months) {
        Some(x) => date_text(x),
        None => date_text(secs),
    }
}

pub fn display_date_months_later(secs: i64, months: u32) -> (r: String)
    ensures
        r@ == months_later_text(secs as int, months as int),
{
    match add_months(secs, months) {
        Some(x) => display_date(x),
        None => display_date(secs),
    }
}

} // verus!
