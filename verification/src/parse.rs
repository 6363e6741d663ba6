use vstd::prelude::*;
use crate::errors::MonitorError;
use crate::reading::Reading;

verus! {

/// An ASCII decimal digit.
pub open spec fn is_digit(b: u8) -> bool {
    48 <= b <= 57
}

/// A decimal separator: the comma of the source page's locale, or the
/// period it is rewritten to.
pub open spec fn is_sep(b: u8) -> bool {
    b == 44 || b == 46
}

/// Scan the unsigned body of a numeral left to right.  `units` and
/// `frac` carry what the digits before and after the separator have
/// denoted so far; `seen_sep` and `seen_digit` whether a separator or a
/// digit has appeared.  The result is the final integer part, fraction
/// digit values, and separator flag, or nothing when the body is not a
/// decimal numeral (a byte that is neither digit nor separator, a second
/// separator, or no digit at all).
pub open spec fn scan(
    b: Seq<u8>,
    units: nat,
    frac: Seq<u8>,
    seen_sep: bool,
    seen_digit: bool,
) -> Option<(nat, Seq<u8>, bool)>
    decreases b.len(),
{
    if b.len() == 0 {
        if seen_digit {
            Some((units, frac, seen_sep))
        } else {
            Option::<(nat, Seq<u8>, bool)>::None
        }
    } else if is_digit(b[0]) {
        if !seen_sep {
            scan(b.subrange(1, b.len() as int), units * 10 + (b[0] - 48) as nat, frac, false, true)
        } else {
            scan(b.subrange(1, b.len() as int), units, frac + seq![(b[0] - 48) as u8], true, true)
        }
    } else if is_sep(b[0]) {
        if seen_sep {
            Option::<(nat, Seq<u8>, bool)>::None
        } else {
            scan(b.subrange(1, b.len() as int), units, frac, true, seen_digit)
        }
    } else {
        Option::<(nat, Seq<u8>, bool)>::None
    }
}

/// What a numeral with comma or period as decimal separator denotes: the
/// sign and the scanned body, or nothing when it is malformed.
pub open spec fn spec_parse(s: Seq<u8>) -> Option<(bool, nat, Seq<u8>)> {
    let signed = s.len() > 0 && (s[0] == 43 || s[0] == 45);
    let body = if signed {
        s.subrange(1, s.len() as int)
    } else {
        s
    };
    match scan(body, 0, Seq::empty(), false, false) {
        Some((u, f, _)) => Some((signed && s[0] == 45, u, f)),
        Option::None => Option::<(bool, nat, Seq<u8>)>::None,
    }
}

/// A scan only ever grows the integer part.
proof fn lemma_scan_units_monotone(
    b: Seq<u8>,
    units: nat,
    frac: Seq<u8>,
    seen_sep: bool,
    seen_digit: bool,
)
    ensures
        scan(b, units, frac, seen_sep, seen_digit) matches Some(t) ==> t.0 >= units,
    decreases b.len(),
{
    if b.len() > 0 {
        let rest = b.subrange(1, b.len() as int);
        if is_digit(b[0]) {
            if !seen_sep {
                lemma_scan_units_monotone(rest, units * 10 + (b[0] - 48) as nat, frac, false, true);
            } else {
                lemma_scan_units_monotone(rest, units, frac + seq![(b[0] - 48) as u8], true, true);
            }
        } else if is_sep(b[0]) && !seen_sep {
            lemma_scan_units_monotone(rest, units, frac, true, seen_digit);
        }
    }
}

/// `u64::MAX / 10`: one more digit still fits in the integer part
/// exactly when it is below this, or equals it and the digit is at most
/// five.
pub const MAX_UNITS_STEP: u64 = 1844674407370955161;

/// Parse a decimal numeral whose fractional separator is a comma (the
/// regional format of the source page) or a period.  Accepts an optional
/// leading sign, then digits with at most one separator and at least one
/// digit.  Everything else, and an integer part beyond `u64`, is a parse
/// error.
pub fn parse_comma_decimal(bytes: &Vec<u8>) -> (r: Result<Reading, MonitorError>)
    ensures
        r matches Ok(rd) ==> {
            &&& rd.wf()
            &&& spec_parse(bytes@) matches Some(t)
            &&& rd.negative == t.0
            &&& rd.units as nat == t.1
            &&& rd.frac@ == t.2
        },
        r is Ok <==> (spec_parse(bytes@) matches Some(t) && t.1 <= u64::MAX),
        r matches Err(e) ==> e == MonitorError::Parse,
{
    let ghost s = bytes@;
    let ghost signed = s.len() > 0 && (s[0] == 43 || s[0] == 45);
    let ghost body = if signed {
        s.subrange(1, s.len() as int)
    } else {
        s
    };
    let mut i: usize = 0;
    let mut negative = false;
    if bytes.len() > 0 && (bytes[0] == 43 || bytes[0] == 45) {
        negative = bytes[0] == 45;
        i = 1;
    }
    proof {
        assert(body =~= s.subrange(i as int, s.len() as int));
    }
    let mut units: u64 = 0;
    let mut frac: Vec<u8> = Vec::new();
    let mut seen_sep = false;
    let mut seen_digit = false;
    while i < bytes.len()
        invariant
            i <= s.len(),
            bytes@ == s,
            negative == (signed && s[0] == 45),
            signed == (s.len() > 0 && (s[0] == 43 || s[0] == 45)),
            body == if signed {
                s.subrange(1, s.len() as int)
            } else {
                s
            },
            crate::reading::all_digits(frac@),
            scan(body, 0, Seq::empty(), false, false) == scan(
                s.subrange(i as int, s.len() as int),
                units as nat,
                frac@,
                seen_sep,
                seen_digit,
            ),
        decreases s.len() - i,
    {
        let c = bytes[i];
        let ghost rem = s.subrange(i as int, s.len() as int);
        proof {
            assert(rem[0] == c);
            assert(rem.subrange(1, rem.len() as int) =~= s.subrange(i + 1, s.len() as int));
        }
        if 48 <= c && c <= 57 {
            let d = c - 48;
            if !seen_sep {
                if units > MAX_UNITS_STEP || (units == MAX_UNITS_STEP && d > 5) {
                    proof {
                        lemma_scan_units_monotone(
                            rem.subrange(1, rem.len() as int),
                            units as nat * 10 + d as nat,
                            frac@,
                            false,
                            true,
                        );
                    }
                    return Err(MonitorError::Parse);
                }
                units = units * 10 + d as u64;
            } else {
                let ghost f0 = frac@;
                frac.push(d);
                proof {
                    assert(frac@ =~= f0 + seq![d]);
                }
            }
            seen_digit = true;
        } else if c == 44 || c == 46 {
            if seen_sep {
                return Err(MonitorError::Parse);
            }
            seen_sep = true;
        } else {
            return Err(MonitorError::Parse);
        }
        i += 1;
    }
    proof {
        assert(s.subrange(i as int, s.len() as int) =~= Seq::<u8>::empty());
    }
    if !seen_digit {
        return Err(MonitorError::Parse);
    }
    Ok(Reading { negative, units, frac })
}

} // verus!
