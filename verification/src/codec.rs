use vstd::prelude::*;
use crate::errors::MonitorError;
use crate::level::WarningLevel;
use crate::state::MonitorState;
use crate::timestamp::{encode_timestamp, parse_timestamp, spec_encode_ts, spec_parse_ts, Timestamp};

verus! {

/// The opening of the snapshot record: `{"current_warning_level":"`.
pub open spec fn lit_prefix() -> Seq<u8> {
    seq![
        123u8, 34u8, 99u8, 117u8, 114u8, 114u8, 101u8, 110u8, 116u8, 95u8, 119u8, 97u8, 114u8, 110u8, 105u8,
        110u8, 103u8, 95u8, 108u8, 101u8, 118u8, 101u8, 108u8, 34u8, 58u8, 34u8,
    ]
}

/// The middle of the snapshot record: `","last_email_sent":`.
pub open spec fn lit_mid() -> Seq<u8> {
    seq![
        34u8, 44u8, 34u8, 108u8, 97u8, 115u8, 116u8, 95u8, 101u8, 109u8, 97u8, 105u8, 108u8, 95u8, 115u8,
        101u8, 110u8, 116u8, 34u8, 58u8,
    ]
}

/// The record's tail when no alert was ever sent: `null}`.
pub open spec fn lit_null_close() -> Seq<u8> {
    seq![110u8, 117u8, 108u8, 108u8, 125u8]
}

/// The persisted name of a warning level.
pub open spec fn level_name(l: WarningLevel) -> Seq<u8> {
    match l {
        WarningLevel::NoWarning => seq![78u8, 111u8, 110u8, 101u8],
        WarningLevel::Low => seq![76u8, 111u8, 119u8],
        WarningLevel::Medium => seq![77u8, 101u8, 100u8, 105u8, 117u8, 109u8],
        WarningLevel::High => seq![72u8, 105u8, 103u8, 104u8],
    }
}

/// Everything of the record up to and including the `:` before the
/// `last_email_sent` value, for a given level.
pub open spec fn head_for(l: WarningLevel) -> Seq<u8> {
    lit_prefix() + level_name(l) + lit_mid()
}

/// The record's tail: the `last_email_sent` value and the closing brace.
pub open spec fn spec_tail(o: Option<Timestamp>) -> Seq<u8> {
    match o {
        Option::None => lit_null_close(),
        Some(t) => seq![34u8] + spec_encode_ts(t) + seq![34u8, 125u8],
    }
}

/// The snapshot record of a state, as written to the durable store:
/// `{"current_warning_level":<name>,"last_email_sent":<time or null>}`.
pub open spec fn spec_encode_state(s: MonitorState) -> Seq<u8> {
    head_for(s.current_warning_level) + spec_tail(s.last_email_sent)
}

/// Whether `b` begins with `p`.
pub open spec fn starts_with(b: Seq<u8>, p: Seq<u8>) -> bool {
    b.len() >= p.len() && b.subrange(0, p.len() as int) == p
}

/// What a record's tail denotes for a given level, or nothing when it is
/// neither `null}` nor a quoted genuine timestamp and the brace.
pub open spec fn decode_tail(t: Seq<u8>, l: WarningLevel) -> Option<MonitorState> {
    if t.len() == 5 && t == lit_null_close() {
        Some(MonitorState { current_warning_level: l, last_email_sent: Option::None })
    } else if t.len() == 23 && t[0] == 34u8 && t[21] == 34u8 && t[22] == 125u8 {
        match spec_parse_ts(t.subrange(1, 21)) {
            Some(ts) => Some(
                MonitorState { current_warning_level: l, last_email_sent: Some(ts) },
            ),
            Option::None => Option::<MonitorState>::None,
        }
    } else {
        Option::<MonitorState>::None
    }
}

/// What a snapshot record denotes, or nothing when it is not exactly a
/// record that `spec_encode_state` writes.
pub open spec fn spec_decode_state(b: Seq<u8>) -> Option<MonitorState> {
    if starts_with(b, head_for(WarningLevel::NoWarning)) {
        decode_tail(
            b.subrange(head_for(WarningLevel::NoWarning).len() as int, b.len() as int),
            WarningLevel::NoWarning,
        )
    } else if starts_with(b, head_for(WarningLevel::Low)) {
        decode_tail(
            b.subrange(head_for(WarningLevel::Low).len() as int, b.len() as int),
            WarningLevel::Low,
        )
    } else if starts_with(b, head_for(WarningLevel::Medium)) {
        decode_tail(
            b.subrange(head_for(WarningLevel::Medium).len() as int, b.len() as int),
            WarningLevel::Medium,
        )
    } else if starts_with(b, head_for(WarningLevel::High)) {
        decode_tail(
            b.subrange(head_for(WarningLevel::High).len() as int, b.len() as int),
            WarningLevel::High,
        )
    } else {
        Option::<MonitorState>::None
    }
}

/// Writing a state and reading the record back gives the same state:
/// the snapshot loses nothing.
pub proof fn lemma_state_round_trip(s: MonitorState)
    requires
        s.wf(),
    ensures
        spec_decode_state(spec_encode_state(s)) == Some(s),
{
    let b = spec_encode_state(s);
    let l = s.current_warning_level;
    let head = head_for(l);
    assert(b.subrange(0, head.len() as int) =~= head);
    assert(starts_with(b, head));
    let t = b.subrange(head.len() as int, b.len() as int);
    assert(t =~= spec_tail(s.last_email_sent));
    if l != WarningLevel::NoWarning {
        assert(b[26] == level_name(l)[0]);
        assert(!starts_with(b, head_for(WarningLevel::NoWarning))) by {
            if starts_with(b, head_for(WarningLevel::NoWarning)) {
                assert(b.subrange(0, head_for(WarningLevel::NoWarning).len() as int)[26]
                    == head_for(WarningLevel::NoWarning)[26]);
            }
        }
    }
    if l != WarningLevel::NoWarning && l != WarningLevel::Low {
        assert(!starts_with(b, head_for(WarningLevel::Low))) by {
            if starts_with(b, head_for(WarningLevel::Low)) {
                assert(b.subrange(0, head_for(WarningLevel::Low).len() as int)[26] == head_for(
                    WarningLevel::Low,
                )[26]);
            }
        }
    }
    if l == WarningLevel::High {
        assert(!starts_with(b, head_for(WarningLevel::Medium))) by {
            if starts_with(b, head_for(WarningLevel::Medium)) {
                assert(b.subrange(0, head_for(WarningLevel::Medium).len() as int)[26] == head_for(
                    WarningLevel::Medium,
                )[26]);
            }
        }
    }
    match s.last_email_sent {
        Option::None => {
            assert(t == lit_null_close());
        },
        Some(ts) => {
            assert(t.len() == 23);
            assert(t.subrange(1, 21) =~= spec_encode_ts(ts));
            crate::timestamp::lemma_ts_round_trip(ts);
        },
    }
}

/// Append the bytes of `pat` to `out`.
fn append_bytes(out: &mut Vec<u8>, pat: &Vec<u8>)
    ensures
        final(out)@ == old(out)@ + pat@,
{
    let ghost v0 = out@;
    let mut k: usize = 0;
    while k < pat.len()
        invariant
            k <= pat@.len(),
            out@ == v0 + pat@.subrange(0, k as int),
        decreases pat@.len() - k,
    {
        out.push(pat[k]);
        proof {
            assert(v0 + pat@.subrange(0, k as int) + seq![pat@[k as int]] =~= v0 + pat@.subrange(
                0,
                k as int + 1,
            ));
        }
        k += 1;
    }
    proof {
        assert(pat@.subrange(0, pat@.len() as int) =~= pat@);
    }
}

/// The opening of the record, as bytes.
fn make_prefix() -> (v: Vec<u8>)
    ensures
        v@ == lit_prefix(),
{
    let mut v: Vec<u8> = Vec::new();
    v.push(123u8);
    v.push(34u8);
    v.push(99u8);
    v.push(117u8);
    v.push(114u8);
    v.push(114u8);
    v.push(101u8);
    v.push(110u8);
    v.push(116u8);
    v.push(95u8);
    v.push(119u8);
    v.push(97u8);
    v.push(114u8);
    v.push(110u8);
    v.push(105u8);
    v.push(110u8);
    v.push(103u8);
    v.push(95u8);
    v.push(108u8);
    v.push(101u8);
    v.push(118u8);
    v.push(101u8);
    v.push(108u8);
    v.push(34u8);
    v.push(58u8);
    v.push(34u8);
    proof {
        assert(v@ =~= lit_prefix());
    }
    v
}

/// The middle of the record, as bytes.
fn make_mid() -> (v: Vec<u8>)
    ensures
        v@ == lit_mid(),
{
    let mut v: Vec<u8> = Vec::new();
    v.push(34u8);
    v.push(44u8);
    v.push(34u8);
    v.push(108u8);
    v.push(97u8);
    v.push(115u8);
    v.push(116u8);
    v.push(95u8);
    v.push(101u8);
    v.push(109u8);
    v.push(97u8);
    v.push(105u8);
    v.push(108u8);
    v.push(95u8);
    v.push(115u8);
    v.push(101u8);
    v.push(110u8);
    v.push(116u8);
    v.push(34u8);
    v.push(58u8);
    proof {
        assert(v@ =~= lit_mid());
    }
    v
}

/// The `null}` tail, as bytes.
fn make_null_close() -> (v: Vec<u8>)
    ensures
        v@ == lit_null_close(),
{
    let mut v: Vec<u8> = Vec::new();
    v.push(110u8);
    v.push(117u8);
    v.push(108u8);
    v.push(108u8);
    v.push(125u8);
    proof {
        assert(v@ =~= lit_null_close());
    }
    v
}

/// The persisted name of a level, as bytes.
fn make_level_name(l: &WarningLevel) -> (v: Vec<u8>)
    ensures
        v@ == level_name(*l),
{
    let mut v: Vec<u8> = Vec::new();
    match l {
        WarningLevel::NoWarning => {
            v.push(78u8);
            v.push(111u8);
            v.push(110u8);
            v.push(101u8);
        },
        WarningLevel::Low => {
            v.push(76u8);
            v.push(111u8);
            v.push(119u8);
        },
        WarningLevel::Medium => {
            v.push(77u8);
            v.push(101u8);
            v.push(100u8);
            v.push(105u8);
            v.push(117u8);
            v.push(109u8);
        },
        WarningLevel::High => {
            v.push(72u8);
            v.push(105u8);
            v.push(103u8);
            v.push(104u8);
        },
    }
    proof {
        assert(v@ =~= level_name(*l));
    }
    v
}

/// Everything of the record before the `last_email_sent` value, as bytes.
fn make_head(l: &WarningLevel) -> (v: Vec<u8>)
    ensures
        v@ == head_for(*l),
{
    let mut v = make_prefix();
    let name = make_level_name(l);
    append_bytes(&mut v, &name);
    let mid = make_mid();
    append_bytes(&mut v, &mid);
    v
}

/// Serialize a state into its snapshot record.
pub fn encode_state(s: &MonitorState) -> (v: Vec<u8>)
    requires
        s.wf(),
    ensures
        v@ == spec_encode_state(*s),
{
    let mut v = make_head(&s.current_warning_level);
    match &s.last_email_sent {
        Option::None => {
            let nc = make_null_close();
            append_bytes(&mut v, &nc);
        },
        Some(ts) => {
            v.push(34u8);
            encode_timestamp(&mut v, ts);
            v.push(34u8);
            v.push(125u8);
        },
    }
    proof {
        assert(v@ =~= spec_encode_state(*s));
    }
    v
}

/// Whether the bytes at `pos` begin with `pat`.
fn starts_with_at(bytes: &Vec<u8>, pos: usize, pat: &Vec<u8>) -> (r: bool)
    requires
        pos <= bytes@.len(),
    ensures
        r == (pos + pat@.len() <= bytes@.len() && bytes@.subrange(
            pos as int,
            pos as int + pat@.len() as int,
        ) == pat@),
{
    let n = bytes.len();
    let m = pat.len();
    if n - pos < m {
        return false;
    }
    let mut k: usize = 0;
    while k < m
        invariant
            k <= m,
            m == pat@.len(),
            n == bytes@.len(),
            pos + m <= n,
            forall|i: int| 0 <= i < k ==> bytes@[pos + i] == pat@[i],
        decreases m - k,
    {
        if bytes[pos + k] != pat[k] {
            return false;
        }
        k += 1;
    }
    proof {
        assert(bytes@.subrange(pos as int, pos as int + pat@.len() as int) =~= pat@);
    }
    true
}

/// Read a record's tail for a given level.
fn decode_tail_exec(bytes: &Vec<u8>, h: usize, l: WarningLevel) -> (r: Result<
    MonitorState,
    MonitorError,
>)
    requires
        h <= bytes@.len(),
    ensures
        r matches Ok(s) ==> decode_tail(bytes@.subrange(h as int, bytes@.len() as int), l)
            == Some(s) && s.wf(),
        r is Ok <==> decode_tail(bytes@.subrange(h as int, bytes@.len() as int), l) is Some,
        r matches Err(e) ==> e == MonitorError::Persistence,
{
    let ghost t = bytes@.subrange(h as int, bytes@.len() as int);
    let n = bytes.len();
    let rem = n - h;
    let nc = make_null_close();
    if rem == 5 && starts_with_at(bytes, h, &nc) {
        proof {
            assert(t =~= lit_null_close());
        }
        return Ok(MonitorState { current_warning_level: l, last_email_sent: Option::None });
    }
    if rem == 23 && bytes[h] == 34u8 && bytes[h + 21] == 34u8 && bytes[h + 22] == 125u8 {
        proof {
            assert(t[0] == bytes@[h as int]);
            assert(t[21] == bytes@[h + 21]);
            assert(t[22] == bytes@[h + 22]);
            assert(t.subrange(1, 21) =~= bytes@.subrange(h + 1, h + 21));
        }
        match parse_timestamp(bytes, h + 1) {
            Some(ts) => {
                proof {
                    assert(spec_parse_ts(t.subrange(1, 21)) == Some(ts));
                }
                return Ok(MonitorState { current_warning_level: l, last_email_sent: Some(ts) });
            },
            Option::None => {
                return Err(MonitorError::Persistence);
            },
        }
    }
    proof {
        if rem == 5 {
            assert(!(t.len() == 5 && t == lit_null_close()));
        }
        if t.len() == 23 {
            assert(t[0] == bytes@[h as int]);
            assert(t[21] == bytes@[h + 21]);
            assert(t[22] == bytes@[h + 22]);
        }
    }
    Err(MonitorError::Persistence)
}

/// Deserialize a snapshot record back into a state.  Accepts exactly the
/// records that `encode_state` writes; anything else is a persistence
/// error.
pub fn decode_state(bytes: &Vec<u8>) -> (r: Result<MonitorState, MonitorError>)
    ensures
        r matches Ok(s) ==> spec_decode_state(bytes@) == Some(s) && s.wf(),
        r is Ok <==> spec_decode_state(bytes@) is Some,
        r matches Err(e) ==> e == MonitorError::Persistence,
{
    let head_none = make_head(&WarningLevel::NoWarning);
    if starts_with_at(bytes, 0, &head_none) {
        proof {
            assert(bytes@.subrange(0, head_for(WarningLevel::NoWarning).len() as int)
                =~= bytes@.subrange(0 as int, 0 as int + head_none@.len() as int));
        }
        return decode_tail_exec(bytes, head_none.len(), WarningLevel::NoWarning);
    }
    let head_low = make_head(&WarningLevel::Low);
    if starts_with_at(bytes, 0, &head_low) {
        proof {
            assert(bytes@.subrange(0, head_for(WarningLevel::Low).len() as int) =~= bytes@.subrange(
                0 as int,
                0 as int + head_low@.len() as int,
            ));
        }
        return decode_tail_exec(bytes, head_low.len(), WarningLevel::Low);
    }
    let head_medium = make_head(&WarningLevel::Medium);
    if starts_with_at(bytes, 0, &head_medium) {
        proof {
            assert(bytes@.subrange(0, head_for(WarningLevel::Medium).len() as int)
                =~= bytes@.subrange(0 as int, 0 as int + head_medium@.len() as int));
        }
        return decode_tail_exec(bytes, head_medium.len(), WarningLevel::Medium);
    }
    let head_high = make_head(&WarningLevel::High);
    if starts_with_at(bytes, 0, &head_high) {
        proof {
            assert(bytes@.subrange(0, head_for(WarningLevel::High).len() as int)
                =~= bytes@.subrange(0 as int, 0 as int + head_high@.len() as int));
        }
        return decode_tail_exec(bytes, head_high.len(), WarningLevel::High);
    }
    Err(MonitorError::Persistence)
}

} // verus!
