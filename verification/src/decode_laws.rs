//! Facts about decoding frames into the registry and about staleness.

use crate::frame::FrameView;
use crate::parameter::{CanBitSelection, CanMap, Extractor, Parameter};
use crate::registry::{elapsed, table_after_frame, table_after_timeout, STALE_AFTER_MS};
use crate::value::Value;
use vstd::prelude::*;

verus! {

/// Staleness window: a parameter that is decoded from frames and was
/// updated with a value at time `t0` still holds that value at every check
/// less than `STALE_AFTER_MS` milliseconds later, and is unknown at every
/// check from then on, as long as no further frame updates it.
pub proof fn lemma_staleness_window(p: Parameter, value: i64, t0: u64, now: u64)
    requires
        p.can_map is Some,
    ensures
        p.updated(Value::Known(value), t0).after_timeout(now).value == if elapsed(now, t0)
            < STALE_AFTER_MS {
            Value::Known(value)
        } else {
            Value::Unknown
        },
        p.updated(Value::Known(value), t0).after_timeout(now).update_timestamp == t0,
{
}

/// The staleness check touches nothing but values: ids, rules, timestamps
/// and the number of parameters stay, and a parameter without a decode rule
/// is never invalidated.
pub proof fn lemma_timeout_keeps_metadata(params: Seq<Parameter>, now: u64, i: int)
    requires
        0 <= i < params.len(),
    ensures
        table_after_timeout(params, now).len() == params.len(),
        table_after_timeout(params, now)[i] == (Parameter {
            value: table_after_timeout(params, now)[i].value,
            ..params[i]
        }),
        params[i].can_map is None ==> table_after_timeout(params, now)[i] == params[i],
{
}

/// Idempotence: applying the same frame a second time changes no value; it
/// renews the timestamps of the parameters that the frame updates, and is
/// the same as applying the frame once at the later time.
pub proof fn lemma_frame_idempotent(params: Seq<Parameter>, frame: FrameView, t1: u64, t2: u64)
    ensures
        table_after_frame(table_after_frame(params, frame, t1), frame, t2) == table_after_frame(
            params,
            frame,
            t2,
        ),
        forall|i: int|
            0 <= i < params.len() ==> (#[trigger] table_after_frame(
                table_after_frame(params, frame, t1),
                frame,
                t2,
            )[i]).value == table_after_frame(params, frame, t1)[i].value,
{
    let once = table_after_frame(params, frame, t1);
    let twice = table_after_frame(once, frame, t2);
    assert(twice =~= table_after_frame(params, frame, t2));
}

/// A frame from which the parameter's rule decodes nothing, because the rule
/// does not apply, the payload is too short or the identifier differs,
/// leaves the parameter's value and timestamp as they were.
pub proof fn lemma_not_applicable_keeps(p: Parameter, frame: FrameView, millis: u64)
    requires
        p.can_map matches Some(map) ==> map.decoded(frame) is None,
    ensures
        p.after_frame(frame, millis) == p,
{
}

/// A frame from which the parameter's rule decodes a raw value always
/// overwrites, a raw zero included: the parameter holds the scaled value
/// and the frame's timestamp, whatever it held before.
pub proof fn lemma_decoded_overwrites(
    p: Parameter,
    map: CanMap,
    frame: FrameView,
    millis: u64,
    raw: int,
)
    requires
        p.can_map == Some(map),
        map.id == frame.id,
        map.bits.raw_of(frame.data) == Some(raw),
    ensures
        p.after_frame(frame, millis).value == crate::value::scaled(raw, map.scale as int),
        p.after_frame(frame, millis).update_timestamp == millis,
        raw == 0 ==> p.after_frame(frame, millis).value == Value::Known(0),
{
}

/// A guarded rule does not apply to a frame whose guard byte holds another
/// value, while a rule that tests a byte against zero yields a raw zero for
/// the same kind of frame.
pub proof fn lemma_guard_and_zero(
    data: Seq<u8>,
    guard_byte: u8,
    guard_value: u8,
    byte: u8,
    expected: u8,
    set: u8,
)
    requires
        guard_byte < data.len(),
        byte < data.len(),
    ensures
        data[guard_byte as int] != guard_value ==> CanBitSelection::Function(
            Extractor::Guarded { guard_byte, guard_value, byte, expected },
        ).raw_of(data) is None,
        data[byte as int] == 0 ==> CanBitSelection::Function(
            Extractor::NonZero { byte, set },
        ).raw_of(data) == Some(0int),
{
}

} // verus!
