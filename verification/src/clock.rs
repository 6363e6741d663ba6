use vstd::prelude::*;
use crate::timestamp::{spec_days_in_month, Timestamp};

verus! {

/// Relies on chrono's `Utc::now` for the current instant, read out
/// through the `Datelike` and `Timelike` accessors, whose documentation
/// bounds the month by 1 to 12, the day by 1 to 31, the hour by 23 and
/// the minute and second by 59.  The year is unbounded there.  chrono
/// itself panics if the host clock reads before the Unix epoch: an
/// environment fault no precondition can exclude.
#[verifier::external_body]
fn utc_now_fields() -> (r: (i32, u32, u32, u32, u32, u32))
    ensures
        1 <= r.1 <= 12,
        1 <= r.2 <= 31,
        r.3 <= 23,
        r.4 <= 59,
        r.5 <= 59,
{
    let t = chrono::Utc::now();
    (
        chrono::Datelike::year(&t),
        chrono::Datelike::month(&t),
        chrono::Datelike::day(&t),
        chrono::Timelike::hour(&t),
        chrono::Timelike::minute(&t),
        chrono::Timelike::second(&t),
    )
}

/// Relies on chrono's `Local::now` for the current instant in the local
/// time zone, read out through the same accessors with the same
/// documented bounds.  As with `Utc::now`, chrono's own clock and
/// offset lookup can panic on a broken environment; no precondition can
/// exclude that.
#[verifier::external_body]
fn local_now_fields() -> (r: (i32, u32, u32, u32, u32, u32))
    ensures
        1 <= r.1 <= 12,
        1 <= r.2 <= 31,
        r.3 <= 23,
        r.4 <= 59,
        r.5 <= 59,
{
    let t = chrono::Local::now();
    (
        chrono::Datelike::year(&t),
        chrono::Datelike::month(&t),
        chrono::Datelike::day(&t),
        chrono::Timelike::hour(&t),
        chrono::Timelike::minute(&t),
        chrono::Timelike::second(&t),
    )
}

/// Check raw clock fields and build a timestamp from them: exactly the
/// fields with a four-digit year and a day the month has give one, and
/// it carries the fields unchanged.
pub fn fields_to_timestamp(f: (i32, u32, u32, u32, u32, u32)) -> (r: Option<Timestamp>)
    requires
        1 <= f.1 <= 12,
        1 <= f.2 <= 31,
        f.3 <= 23,
        f.4 <= 59,
        f.5 <= 59,
    ensures
        r is Some <==> (0 <= f.0 <= 9999 && f.2 as nat <= spec_days_in_month(
            f.0 as nat,
            f.1 as nat,
        )),
        r matches Some(t) ==> t == (Timestamp {
            year: f.0 as u16,
            month: f.1 as u8,
            day: f.2 as u8,
            hour: f.3 as u8,
            minute: f.4 as u8,
            second: f.5 as u8,
        }) && t.wf(),
{
    let (y, mo, d, h, mi, s) = f;
    if y < 0 || y > 9999 {
        return Option::None;
    }
    Timestamp::new(y as u16, mo as u8, d as u8, h as u8, mi as u8, s as u8)
}

/// The current UTC instant as a timestamp, or nothing if the clock
/// reads outside the four-digit-year range.  Whatever the clock read,
/// any timestamp handed out is a genuine one.
pub fn now_utc() -> (r: Option<Timestamp>)
    ensures
        r matches Some(t) ==> t.wf(),
{
    fields_to_timestamp(utc_now_fields())
}

/// The current local calendar date (with the clock time) as a
/// timestamp, or nothing if the clock reads outside the
/// four-digit-year range.  The date part feeds the dashboard's
/// date-range fields.  Whatever the clock read, any timestamp handed
/// out is a genuine one.
pub fn today_local() -> (r: Option<Timestamp>)
    ensures
        r matches Some(t) ==> t.wf(),
{
    fields_to_timestamp(local_now_fields())
}

} // verus!
