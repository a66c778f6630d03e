//! The shared decode rule: from raw kernel input records to typed
//! `JoyStickEvent` values, in batch form (blocking reads) and one-at-a-time
//! form (the pollable stream).

use vstd::prelude::*;

use crate::event::Action;
use crate::event::Direction;
use crate::event::Error;
use crate::event::JoyStickEvent;
use crate::event::Timestamp;

verus! {

/// The numeric category the kernel input protocol gives to key events;
/// records of any other category carry no joystick input.
pub const KEY_EVENT_TYPE: u16 = 1;

/// A raw input record as the kernel emits it: a category selector, a key
/// code, a value, and a timestamp split into seconds and microseconds
/// relative to the UNIX epoch (either part may be negative for a clock that
/// predates it).
#[derive(Debug, Clone, Copy, PartialEq, Eq, Structural)]
pub struct RawRecord {
    pub event_type: u16,
    pub code: u16,
    pub value: i32,
    pub tv_sec: i64,
    pub tv_usec: i64,
}

/// Whether a record belongs to the key-event category; only those carry
/// joystick input.
pub open spec fn is_key_record(r: RawRecord) -> bool {
    r.event_type == KEY_EVENT_TYPE
}

/// Whether a record's timestamp is representable as a non-negative duration
/// since the UNIX epoch.
pub open spec fn timestamp_valid(r: RawRecord) -> bool {
    0 <= r.tv_sec && 0 <= r.tv_usec < 1_000_000
}

/// What decoding a key record yields: its code read as a `Direction`, its
/// value read as an `Action`, its timestamp read as a duration since the
/// epoch — or the first fault among those three readings, in that order.
pub open spec fn spec_decode_key(r: RawRecord) -> Result<JoyStickEvent, Error> {
    match Direction::spec_from_code(r.code) {
        None => Err(Error::InvalidDirection { code: r.code }),
        Some(direction) => match Action::spec_from_code(r.value) {
            None => Err(Error::InvalidAction { value: r.value }),
            Some(action) => if !timestamp_valid(r) {
                Err(Error::TimestampUnderflow)
            } else {
                Ok(
                    JoyStickEvent {
                        timestamp: Timestamp { secs: r.tv_sec as u64, micros: r.tv_usec as u32 },
                        direction,
                        action,
                    },
                )
            },
        },
    }
}

/// What decoding an arbitrary record yields: nothing for a record outside
/// the key-event category, otherwise the key record's reading.
pub open spec fn spec_decode_record(r: RawRecord) -> Option<Result<JoyStickEvent, Error>> {
    if !is_key_record(r) {
        None
    } else {
        Some(spec_decode_key(r))
    }
}

/// Decode one raw record. A record outside the key-event category is
/// filtered out (`None`); a key record yields either the typed event or the
/// fault that makes it undecodable.
pub fn decode_record(r: &RawRecord) -> (res: Option<Result<JoyStickEvent, Error>>)
    ensures
        res == spec_decode_record(*r),
        res matches Some(Ok(e)) ==> e.timestamp.wf(),
{
    if r.event_type != KEY_EVENT_TYPE {
        return None;
    }
    let direction = match Direction::from_code(r.code) {
        Some(d) => d,
        None => {
            return Some(Err(Error::InvalidDirection { code: r.code }));
        },
    };
    let action = match Action::from_code(r.value) {
        Some(a) => a,
        None => {
            return Some(Err(Error::InvalidAction { value: r.value }));
        },
    };
    if !(0 <= r.tv_sec && 0 <= r.tv_usec && r.tv_usec < 1_000_000) {
        return Some(Err(Error::TimestampUnderflow));
    }
    let timestamp = Timestamp { secs: r.tv_sec as u64, micros: r.tv_usec as u32 };
    Some(Ok(JoyStickEvent::new(timestamp, direction, action)))
}

/// Where one resumption of the pollable stream lands when it starts at
/// index `i` of the records fetched so far: the index it has consumed up
/// to, and its output. Records outside the key-event category are passed
/// over internally; `None` means every record from `i` on was passed over,
/// so the stream suspends again instead of yielding an empty value.
pub open spec fn spec_next_key_event(s: Seq<RawRecord>, i: int) -> (int, Option<
    Result<JoyStickEvent, Error>,
>)
    decreases s.len() - i,
{
    if i < 0 || i >= s.len() {
        (i, None)
    } else if !is_key_record(s[i]) {
        spec_next_key_event(s, i + 1)
    } else {
        (i + 1, Some(spec_decode_key(s[i])))
    }
}

/// One resumption of the pollable stream, over the records fetched so far:
/// starting at `start`, pass over every record outside the key-event
/// category, and stop at the first key record, yielding its decode. Yields
/// `None` — suspend, never an empty value — when no key record is left.
pub fn next_key_event(records: &Vec<RawRecord>, start: usize) -> (res: (
    usize,
    Option<Result<JoyStickEvent, Error>>,
))
    ensures
        (res.0 as int, res.1) == spec_next_key_event(records@, start as int),
        res.1 matches Some(Ok(e)) ==> e.timestamp.wf(),
{
    let ghost s = records@;
    let mut i: usize = start;
    while i < records.len()
        invariant
            s == records@,
            start <= i,
            i <= s.len() || i == start,
            spec_next_key_event(s, start as int) == spec_next_key_event(s, i as int),
        decreases s.len() - i,
    {
        match decode_record(&records[i]) {
            None => {
                i = i + 1;
            },
            Some(out) => {
                return (i + 1, Some(out));
            },
        }
    }
    (i, None)
}

/// The key records of a batch, in the batch's order.
pub open spec fn key_records(s: Seq<RawRecord>) -> Seq<RawRecord>
    decreases s.len(),
{
    if s.len() == 0 {
        Seq::empty()
    } else if is_key_record(s[0]) {
        seq![s[0]] + key_records(s.drop_first())
    } else {
        key_records(s.drop_first())
    }
}

/// Whether every key record of a batch decodes cleanly.
pub open spec fn all_key_records_decode(s: Seq<RawRecord>) -> bool {
    forall|i: int|
        0 <= i < s.len() && is_key_record(#[trigger] s[i]) ==> spec_decode_key(s[i]) is Ok
}

/// Law (round trip): a batch whose key records all decode cleanly decodes
/// as a whole, to exactly one event per key record — the interleaved
/// records of other categories contribute nothing — and in the batch's own
/// relative order.
pub proof fn lemma_decode_batch_complete(s: Seq<RawRecord>)
    requires
        all_key_records_decode(s),
    ensures
        spec_decode_batch(s) is Ok,
        spec_decode_batch(s)->Ok_0 == key_records(s).map_values(
            |r: RawRecord| spec_decode_key(r)->Ok_0,
        ),
        spec_decode_batch(s)->Ok_0.len() == key_records(s).len(),
    decreases s.len(),
{
    let f = |r: RawRecord| spec_decode_key(r)->Ok_0;
    if s.len() == 0 {
        assert(key_records(s).map_values(f) =~= Seq::<JoyStickEvent>::empty());
    } else {
        let rest = s.drop_first();
        assert(all_key_records_decode(rest)) by {
            assert forall|i: int|
                0 <= i < rest.len() && is_key_record(#[trigger] rest[i]) implies spec_decode_key(
                rest[i],
            ) is Ok by {
                assert(rest[i] == s[i + 1]);
            }
        }
        lemma_decode_batch_complete(rest);
        let tail = spec_decode_batch(rest)->Ok_0;
        if is_key_record(s[0]) {
            assert(spec_decode_key(s[0]) is Ok);
            assert(key_records(s) == seq![s[0]] + key_records(rest));
            assert((seq![s[0]] + key_records(rest)).map_values(f) =~= seq![f(s[0])]
                + key_records(rest).map_values(f));
            assert(spec_decode_batch(s)->Ok_0 == seq![f(s[0])] + tail);
        } else {
            assert(key_records(s) == key_records(rest));
        }
    }
}

/// Law: a record outside the key-event category decodes to no output at
/// all, whatever its code, value and timestamp hold.
pub proof fn lemma_non_key_record_filtered(r: RawRecord)
    requires
        !is_key_record(r),
    ensures
        spec_decode_record(r) is None,
{
}

/// What decoding a whole batch yields: every key record's event, in the
/// batch's own order, with records of other categories contributing
/// nothing — or the fault of the first undecodable key record.
pub open spec fn spec_decode_batch(s: Seq<RawRecord>) -> Result<Seq<JoyStickEvent>, Error>
    decreases s.len(),
{
    if s.len() == 0 {
        Ok(Seq::empty())
    } else if !is_key_record(s[0]) {
        spec_decode_batch(s.drop_first())
    } else {
        match spec_decode_key(s[0]) {
            Err(e) => Err(e),
            Ok(event) => match spec_decode_batch(s.drop_first()) {
                Err(e) => Err(e),
                Ok(tail) => Ok(seq![event] + tail),
            },
        }
    }
}

/// Decode a batch of raw records, as a blocking read hands them over.
/// Succeeds with the decoded events of exactly the key records, in the
/// batch's order; fails with the first key record's fault otherwise.
pub fn decode_batch(records: &Vec<RawRecord>) -> (res: Result<Vec<JoyStickEvent>, Error>)
    ensures
        res matches Ok(events) ==> spec_decode_batch(records@) == Ok::<_, Error>(events@),
        res matches Err(e) ==> spec_decode_batch(records@) == Err::<Seq<JoyStickEvent>, _>(e),
{
    let ghost s = records@;
    let mut events: Vec<JoyStickEvent> = Vec::new();
    let mut i: usize = 0;
    proof {
        assert(s.skip(0) =~= s);
        if let Ok(tail) = spec_decode_batch(s) {
            assert(Seq::<JoyStickEvent>::empty() + tail =~= tail);
        }
    }
    while i < records.len()
        invariant
            0 <= i <= s.len(),
            s == records@,
            spec_decode_batch(s) == (match spec_decode_batch(s.skip(i as int)) {
                Ok(tail) => Ok::<Seq<JoyStickEvent>, Error>(events@ + tail),
                Err(e) => Err::<Seq<JoyStickEvent>, Error>(e),
            }),
        decreases s.len() - i,
    {
        proof {
            assert(s.skip(i as int).len() == s.len() - i);
            assert(s.skip(i as int)[0] == s[i as int]);
            assert(s.skip(i as int).drop_first() =~= s.skip(i as int + 1));
        }
        match decode_record(&records[i]) {
            None => {
            },
            Some(Ok(event)) => {
                proof {
                    let tail_res = spec_decode_batch(s.skip(i as int + 1));
                    if let Ok(tail) = tail_res {
                        assert(events@ + (seq![spec_decode_key(s[i as int])->Ok_0] + tail) =~= events@.push(
                            spec_decode_key(s[i as int])->Ok_0,
                        ) + tail);
                    }
                }
                events.push(event);
            },
            Some(Err(e)) => {
                proof {
                    assert(spec_decode_batch(s.skip(i as int)) == Err::<Seq<JoyStickEvent>, Error>(e));
                }
                return Err(e);
            },
        }
        i = i + 1;
    }
    proof {
        assert(s.skip(i as int) =~= Seq::<RawRecord>::empty());
        assert(spec_decode_batch(s.skip(i as int)) == Ok::<Seq<JoyStickEvent>, Error>(Seq::empty()));
        assert(events@ + Seq::<JoyStickEvent>::empty() =~= events@);
    }
    Ok(events)
}

/// Law: a key record whose code denotes no direction decodes to the
/// direction fault carrying that code — never to a substitute direction.
pub proof fn lemma_invalid_direction_faults(r: RawRecord)
    requires
        is_key_record(r),
        Direction::spec_from_code(r.code) is None,
    ensures
        spec_decode_record(r) == Some(Err::<JoyStickEvent, Error>(
            Error::InvalidDirection { code: r.code },
        )),
{
}

} // verus!

