use vstd::prelude::*;
use vstd::arithmetic::div_mod::{lemma_div_denominator, lemma_fundamental_div_mod};
use crate::parse::is_digit;

verus! {

/// One UTC instant at second precision, the `last_email_sent` record of
/// the snapshot.  It is held as plain calendar fields and written as the
/// 20-byte form `YYYY-MM-DDTHH:MM:SSZ`.
#[derive(Clone, Copy, Debug, PartialEq, Eq, Structural)]
pub struct Timestamp {
    pub year: u16,
    pub month: u8,
    pub day: u8,
    pub hour: u8,
    pub minute: u8,
    pub second: u8,
}

/// Gregorian leap year.
pub open spec fn spec_is_leap_year(y: nat) -> bool {
    (y % 4 == 0 && y % 100 != 0) || y % 400 == 0
}

/// Days in a calendar month.
pub open spec fn spec_days_in_month(y: nat, m: nat) -> nat {
    if m == 2 {
        if spec_is_leap_year(y) {
            29
        } else {
            28
        }
    } else if m == 4 || m == 6 || m == 9 || m == 11 {
        30
    } else {
        31
    }
}

impl Timestamp {
    /// A genuine calendar date and clock time, with a four-digit year.
    pub open spec fn wf(self) -> bool {
        &&& self.year <= 9999
        &&& 1 <= self.month <= 12
        &&& 1 <= self.day <= spec_days_in_month(self.year as nat, self.month as nat)
        &&& self.hour <= 23
        &&& self.minute <= 59
        &&& self.second <= 59
    }

    /// Build a timestamp from calendar fields, refusing any that are not
    /// a genuine date and time.
    pub fn new(year: u16, month: u8, day: u8, hour: u8, minute: u8, second: u8) -> (r: Option<
        Timestamp,
    >)
        ensures
            r matches Some(t) ==> t.wf() && t == (Timestamp { year, month, day, hour, minute, second }),
            r is Some <==> (Timestamp { year, month, day, hour, minute, second }).wf(),
    {
        let t = Timestamp { year, month, day, hour, minute, second };
        if t.well_formed() {
            Some(t)
        } else {
            Option::None
        }
    }

    /// Executable form of `wf`.
    pub fn well_formed(&self) -> (r: bool)
        ensures
            r == self.wf(),
    {
        self.year <= 9999 && 1 <= self.month && self.month <= 12 && 1 <= self.day && self.day
            <= days_in_month(self.year, self.month) && self.hour <= 23 && self.minute <= 59
            && self.second <= 59
    }
}

/// Executable leap-year test.
pub fn is_leap_year(y: u16) -> (r: bool)
    ensures
        r == spec_is_leap_year(y as nat),
{
    (y % 4 == 0 && y % 100 != 0) || y % 400 == 0
}

/// Executable days-in-month.
pub fn days_in_month(y: u16, m: u8) -> (r: u8)
    ensures
        r as nat == spec_days_in_month(y as nat, m as nat),
{
    if m == 2 {
        if is_leap_year(y) {
            29
        } else {
            28
        }
    } else if m == 4 || m == 6 || m == 9 || m == 11 {
        30
    } else {
        31
    }
}

/// The ASCII digit for a value below ten.
pub open spec fn digit_byte(n: nat) -> u8 {
    (48 + n) as u8
}

/// Two ASCII digits for a value below one hundred.
pub open spec fn two_digits(n: nat) -> Seq<u8> {
    seq![digit_byte(n / 10), digit_byte(n % 10)]
}

/// Four ASCII digits for a value below ten thousand.
pub open spec fn four_digits(n: nat) -> Seq<u8> {
    seq![
        digit_byte(n / 1000),
        digit_byte((n / 100) % 10),
        digit_byte((n / 10) % 10),
        digit_byte(n % 10),
    ]
}

/// The 20-byte form `YYYY-MM-DDTHH:MM:SSZ` of a timestamp.
pub open spec fn spec_encode_ts(t: Timestamp) -> Seq<u8> {
    four_digits(t.year as nat) + seq![45u8] + two_digits(t.month as nat) + seq![45u8]
        + two_digits(t.day as nat) + seq![84u8] + two_digits(t.hour as nat) + seq![58u8]
        + two_digits(t.minute as nat) + seq![58u8] + two_digits(t.second as nat) + seq![90u8]
}

/// What a 20-byte timestamp form denotes, or nothing when the bytes are
/// not such a form or name no genuine date.
pub open spec fn spec_parse_ts(s: Seq<u8>) -> Option<Timestamp> {
    if s.len() == 20 && is_digit(s[0]) && is_digit(s[1]) && is_digit(s[2]) && is_digit(s[3])
        && s[4] == 45 && is_digit(s[5]) && is_digit(s[6]) && s[7] == 45 && is_digit(s[8])
        && is_digit(s[9]) && s[10] == 84 && is_digit(s[11]) && is_digit(s[12]) && s[13] == 58
        && is_digit(s[14]) && is_digit(s[15]) && s[16] == 58 && is_digit(s[17]) && is_digit(s[18])
        && s[19] == 90 {
        let t = Timestamp {
            year: (((s[0] - 48) * 1000 + (s[1] - 48) * 100 + (s[2] - 48) * 10 + (s[3]
                - 48)) as nat) as u16,
            month: (((s[5] - 48) * 10 + (s[6] - 48)) as nat) as u8,
            day: (((s[8] - 48) * 10 + (s[9] - 48)) as nat) as u8,
            hour: (((s[11] - 48) * 10 + (s[12] - 48)) as nat) as u8,
            minute: (((s[14] - 48) * 10 + (s[15] - 48)) as nat) as u8,
            second: (((s[17] - 48) * 10 + (s[18] - 48)) as nat) as u8,
        };
        if t.wf() {
            Some(t)
        } else {
            Option::<Timestamp>::None
        }
    } else {
        Option::<Timestamp>::None
    }
}

/// A two-digit rendering reads back as the value it was made from.
proof fn lemma_two_digit_split(n: nat)
    requires
        n < 100,
    ensures
        (n / 10) * 10 + n % 10 == n,
{
    lemma_fundamental_div_mod(n as int, 10);
}

/// A four-digit rendering reads back as the value it was made from.
proof fn lemma_four_digit_split(n: nat)
    requires
        n < 10000,
    ensures
        (n / 1000) * 1000 + ((n / 100) % 10) * 100 + ((n / 10) % 10) * 10 + n % 10 == n,
{
    lemma_fundamental_div_mod(n as int, 10);
    lemma_fundamental_div_mod(n as int / 10, 10);
    lemma_fundamental_div_mod(n as int / 100, 10);
    lemma_div_denominator(n as int, 10, 10);
    lemma_div_denominator(n as int, 100, 10);
}

/// Writing a timestamp and reading the bytes back gives the same
/// timestamp: the 20-byte form loses nothing.
pub proof fn lemma_ts_round_trip(t: Timestamp)
    requires
        t.wf(),
    ensures
        spec_parse_ts(spec_encode_ts(t)) == Some(t),
{
    let s = spec_encode_ts(t);
    assert(s.len() == 20);
    assert(s[0] == digit_byte(t.year as nat / 1000));
    assert(s[1] == digit_byte((t.year as nat / 100) % 10));
    assert(s[2] == digit_byte((t.year as nat / 10) % 10));
    assert(s[3] == digit_byte(t.year as nat % 10));
    assert(s[4] == 45);
    assert(s[5] == digit_byte(t.month as nat / 10));
    assert(s[6] == digit_byte(t.month as nat % 10));
    assert(s[7] == 45);
    assert(s[8] == digit_byte(t.day as nat / 10));
    assert(s[9] == digit_byte(t.day as nat % 10));
    assert(s[10] == 84);
    assert(s[11] == digit_byte(t.hour as nat / 10));
    assert(s[12] == digit_byte(t.hour as nat % 10));
    assert(s[13] == 58);
    assert(s[14] == digit_byte(t.minute as nat / 10));
    assert(s[15] == digit_byte(t.minute as nat % 10));
    assert(s[16] == 58);
    assert(s[17] == digit_byte(t.second as nat / 10));
    assert(s[18] == digit_byte(t.second as nat % 10));
    assert(s[19] == 90);
    lemma_four_digit_split(t.year as nat);
    lemma_two_digit_split(t.month as nat);
    lemma_two_digit_split(t.day as nat);
    lemma_two_digit_split(t.hour as nat);
    lemma_two_digit_split(t.minute as nat);
    lemma_two_digit_split(t.second as nat);
}

/// Append the two ASCII digits of a value below one hundred.
fn push_two_digits(out: &mut Vec<u8>, n: u8)
    requires
        n <= 99,
    ensures
        final(out)@ == old(out)@ + two_digits(n as nat),
{
    let ghost v0 = out@;
    out.push(48 + n / 10);
    out.push(48 + n % 10);
    proof {
        assert(out@ =~= v0 + two_digits(n as nat));
    }
}

/// Append the four ASCII digits of a value below ten thousand.
fn push_four_digits(out: &mut Vec<u8>, n: u16)
    requires
        n <= 9999,
    ensures
        final(out)@ == old(out)@ + four_digits(n as nat),
{
    let ghost v0 = out@;
    out.push(48 + (n / 1000) as u8);
    out.push(48 + ((n / 100) % 10) as u8);
    out.push(48 + ((n / 10) % 10) as u8);
    out.push(48 + (n % 10) as u8);
    proof {
        assert(out@ =~= v0 + four_digits(n as nat));
    }
}

/// Append the 20-byte form of a timestamp.
pub fn encode_timestamp(out: &mut Vec<u8>, t: &Timestamp)
    requires
        t.wf(),
    ensures
        final(out)@ == old(out)@ + spec_encode_ts(*t),
{
    let ghost v0 = out@;
    push_four_digits(out, t.year);
    out.push(45);
    push_two_digits(out, t.month);
    out.push(45);
    push_two_digits(out, t.day);
    out.push(84);
    push_two_digits(out, t.hour);
    out.push(58);
    push_two_digits(out, t.minute);
    out.push(58);
    push_two_digits(out, t.second);
    out.push(90);
    proof {
        assert(out@ =~= v0 + spec_encode_ts(*t));
    }
}

/// The 10-byte form `DD-MM-YYYY` of a date, the form the dashboard's
/// date-range fields take.
pub open spec fn spec_ddmmyyyy(t: Timestamp) -> Seq<u8> {
    two_digits(t.day as nat) + seq![45u8] + two_digits(t.month as nat) + seq![45u8] + four_digits(
        t.year as nat,
    )
}

/// Render a date as `DD-MM-YYYY`.
pub fn format_ddmmyyyy(t: &Timestamp) -> (v: Vec<u8>)
    requires
        t.wf(),
    ensures
        v@ == spec_ddmmyyyy(*t),
{
    let mut v: Vec<u8> = Vec::new();
    push_two_digits(&mut v, t.day);
    v.push(45);
    push_two_digits(&mut v, t.month);
    v.push(45);
    push_four_digits(&mut v, t.year);
    proof {
        assert(v@ =~= spec_ddmmyyyy(*t));
    }
    v
}

/// Read the 20 bytes at `pos` as a timestamp.
pub fn parse_timestamp(bytes: &Vec<u8>, pos: usize) -> (r: Option<Timestamp>)
    requires
        pos + 20 <= bytes@.len(),
    ensures
        r == spec_parse_ts(bytes@.subrange(pos as int, pos as int + 20)),
{
    let ghost s = bytes@.subrange(pos as int, pos as int + 20);
    let n = bytes.len();
    assert(pos + 20 <= n);
    let b0 = bytes[pos];
    let b1 = bytes[pos + 1];
    let b2 = bytes[pos + 2];
    let b3 = bytes[pos + 3];
    let b4 = bytes[pos + 4];
    let b5 = bytes[pos + 5];
    let b6 = bytes[pos + 6];
    let b7 = bytes[pos + 7];
    let b8 = bytes[pos + 8];
    let b9 = bytes[pos + 9];
    let b10 = bytes[pos + 10];
    let b11 = bytes[pos + 11];
    let b12 = bytes[pos + 12];
    let b13 = bytes[pos + 13];
    let b14 = bytes[pos + 14];
    let b15 = bytes[pos + 15];
    let b16 = bytes[pos + 16];
    let b17 = bytes[pos + 17];
    let b18 = bytes[pos + 18];
    let b19 = bytes[pos + 19];
    let digits_ok = 48 <= b0 && b0 <= 57 && 48 <= b1 && b1 <= 57 && 48 <= b2 && b2 <= 57 && 48
        <= b3 && b3 <= 57 && 48 <= b5 && b5 <= 57 && 48 <= b6 && b6 <= 57 && 48 <= b8 && b8 <= 57
        && 48 <= b9 && b9 <= 57 && 48 <= b11 && b11 <= 57 && 48 <= b12 && b12 <= 57 && 48 <= b14
        && b14 <= 57 && 48 <= b15 && b15 <= 57 && 48 <= b17 && b17 <= 57 && 48 <= b18 && b18 <= 57;
    let seps_ok = b4 == 45 && b7 == 45 && b10 == 84 && b13 == 58 && b16 == 58 && b19 == 90;
    if !(digits_ok && seps_ok) {
        return Option::None;
    }
    let year: u16 = (b0 - 48) as u16 * 1000 + (b1 - 48) as u16 * 100 + (b2 - 48) as u16 * 10 + (b3
        - 48) as u16;
    let month: u8 = (b5 - 48) * 10 + (b6 - 48);
    let day: u8 = (b8 - 48) * 10 + (b9 - 48);
    let hour: u8 = (b11 - 48) * 10 + (b12 - 48);
    let minute: u8 = (b14 - 48) * 10 + (b15 - 48);
    let second: u8 = (b17 - 48) * 10 + (b18 - 48);
    let t = Timestamp { year, month, day, hour, minute, second };
    if t.well_formed() {
        Some(t)
    } else {
        Option::None
    }
}

} // verus!
