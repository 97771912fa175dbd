//! Facts about one iteration of the control loop: what the frames taken in
//! leave in the registry, and what the tick that follows keeps of it.

use crate::frame::FrameView;
use crate::hardware::{ActionView, Inputs};
use crate::parameter::Parameter;
use crate::parameters::{ParameterId, NUM_PARAMETERS};
use crate::state::MainStateView;
use vstd::prelude::*;

verus! {

/// One of the frames carries a value for the parameter.
pub open spec fn decoded_by_some(p: Parameter, frames: Seq<FrameView>) -> bool {
    p.can_map matches Some(map) && exists|k: int|
        0 <= k < frames.len() && (#[trigger] map.decoded(frames[k])) is Some
}

/// The policies store their own results in the parameter at this position.
pub open spec fn written_by_tick(i: int) -> bool {
    ||| i == ParameterId::TicksMs.index()
    ||| i == ParameterId::AuxVoltage.index()
    ||| i == ParameterId::PcbT.index()
    ||| i == ParameterId::LastSeenSoc.index()
    ||| i == ParameterId::EvaporatorT.index()
    ||| i == ParameterId::ReqWakeupAndContactor.index()
    ||| i == ParameterId::ChargeComplete.index()
    ||| i == ParameterId::ActivateEvse.index()
    ||| i == ParameterId::ActivateObc.index()
    ||| i == ParameterId::AcCompressorPercent.index()
    ||| i == ParameterId::ReqHeaterPowerPercent.index()
}

/// Taking frames in changes nothing but values and timestamps, and of those
/// only where a frame carries a value: such a parameter is stamped with the
/// clock reading at which the frames were taken in, every other parameter
/// stays as it was.
pub proof fn lemma_frames_stamp(s: MainStateView, frames: Seq<FrameView>, millis: u64, i: int)
    requires
        0 <= i < s.table.len(),
    ensures
        s.after_frames(frames, millis) == (MainStateView {
            table: s.after_frames(frames, millis).table,
            ..s
        }),
        s.after_frames(frames, millis).table.len() == s.table.len(),
        s.after_frames(frames, millis).table[i].can_map == s.table[i].can_map,
        s.after_frames(frames, millis).table[i].id == s.table[i].id,
        decoded_by_some(s.table[i], frames) ==> s.after_frames(
            frames,
            millis,
        ).table[i].update_timestamp == millis,
        !decoded_by_some(s.table[i], frames) ==> s.after_frames(frames, millis).table[i]
            == s.table[i],
    decreases frames.len(),
{
    if frames.len() > 0 {
        let before = s.after_frames(frames.drop_last(), millis);
        lemma_frames_stamp(s, frames.drop_last(), millis, i);
        let p = s.table[i];
        if decoded_by_some(p, frames) {
            let map = p.can_map->0;
            let k = choose|k: int|
                0 <= k < frames.len() && (#[trigger] map.decoded(frames[k])) is Some;
            if k < frames.len() - 1 {
                assert(frames.drop_last()[k] == frames[k]);
                assert(decoded_by_some(p, frames.drop_last()));
            }
        } else if p.can_map is Some {
            let map = p.can_map->0;
            assert(map.decoded(frames[frames.len() - 1]) is None);
            assert forall|k: int| 0 <= k < frames.drop_last().len() implies (
            #[trigger] map.decoded(frames.drop_last()[k])) is None by {
                assert(frames.drop_last()[k] == frames[k]);
            }
        }
    }
}

/// Taking frames in keeps the state well formed.
pub proof fn lemma_frames_keep_wf(s: MainStateView, frames: Seq<FrameView>, millis: u64)
    requires
        s.wf(),
    ensures
        s.after_frames(frames, millis).wf(),
{
    let received = s.after_frames(frames, millis);
    lemma_frames_stamp(s, frames, millis, 0);
    assert forall|j: int| 0 <= j < received.table.len() implies (#[trigger] received.table[j]).id
        == j by {
        lemma_frames_stamp(s, frames, millis, j);
    }
}

/// What runs every tick keeps a stamp of the tick's own clock reading, and
/// leaves a parameter with that stamp alone unless a policy stores its
/// result there.
proof fn lemma_always_keeps_stamp(
    s: MainStateView,
    prior: Seq<ActionView>,
    inputs: Inputs,
    i: int,
)
    requires
        s.wf(),
        0 <= i < NUM_PARAMETERS,
        s.table[i].update_timestamp == inputs.millis,
    ensures
        s.ticked_always(prior, inputs).0.wf(),
        s.ticked_always(prior, inputs).0.table[i].update_timestamp == inputs.millis,
        !written_by_tick(i) ==> s.ticked_always(prior, inputs).0.table[i] == s.table[i],
{
    let now = inputs.millis;
    let s0 = MainStateView { dt_ms: crate::registry::elapsed(now, s.last_millis) as u64, ..s };
    let s1 = s0.after_update_parameters(inputs);
    assert(s1.wf() && s1.table[i].update_timestamp == now);
    assert(!written_by_tick(i) ==> s1.table[i] == s.table[i]);
    let s3 = s1.after_read_inputs(inputs).after_manage_power(inputs);
    assert(s3.wf() && s3.table[i].update_timestamp == now);
    assert(!written_by_tick(i) ==> s3.table[i] == s.table[i]);
    let s5 = s3.after_update_outputs(inputs).after_update_charging(inputs);
    assert(s5.wf() && s5.table[i].update_timestamp == now);
    assert(!written_by_tick(i) ==> s5.table[i] == s.table[i]);
    let s6 = s5.after_update_aircon(inputs);
    assert(s6.wf() && s6.table[i].update_timestamp == now);
    assert(!written_by_tick(i) ==> s6.table[i] == s.table[i]);
}

/// A tick keeps a stamp of its own clock reading, and leaves a parameter
/// with that stamp alone unless a policy stores its result there: a value
/// that fresh is not stale.
pub proof fn lemma_tick_keeps_stamp(
    s: MainStateView,
    prior: Seq<ActionView>,
    inputs: Inputs,
    i: int,
)
    requires
        s.wf(),
        0 <= i < NUM_PARAMETERS,
        s.table[i].update_timestamp == inputs.millis,
    ensures
        s.ticked(prior, inputs).0.wf(),
        s.ticked(prior, inputs).0.table[i].update_timestamp == inputs.millis,
        !written_by_tick(i) ==> s.ticked(prior, inputs).0.table[i] == s.table[i],
{
    let (s1, a1) = s.ticked_always(prior, inputs);
    lemma_always_keeps_stamp(s, prior, inputs, i);
    let (s2, a2) = s1.ticked_heater(a1, inputs);
    assert(s2.wf() && s2.table[i].update_timestamp == inputs.millis);
    assert(!written_by_tick(i) ==> s2.table[i] == s.table[i]);
    let (s3, a3) = s2.ticked_telemetry(a2, inputs);
    assert(s3.wf() && s3.table == s2.table);
    let (s4, a4) = s3.ticked_commands(a3, inputs);
    let (s5, a5) = s4.ticked_keep_alive(a4, inputs);
    let (s6, a6) = s5.ticked_sign_of_life(a5, inputs);
    assert(s6.table == s2.table);
}

/// The stamp of a received frame: after one iteration of the control loop
/// every parameter for which a frame of this iteration carried a value is
/// stamped with the clock reading of this iteration's tick. Unless a policy
/// stores its own result in the parameter, it holds what the frames left:
/// the value of the last frame that carried one.
pub proof fn lemma_iteration_stamps(
    s: MainStateView,
    frames: Seq<FrameView>,
    inputs: Inputs,
    i: int,
)
    requires
        s.wf(),
        0 <= i < NUM_PARAMETERS,
        decoded_by_some(s.table[i], frames),
    ensures
        s.iterated(frames, inputs).0.table[i].update_timestamp == inputs.millis,
        !written_by_tick(i) ==> s.iterated(frames, inputs).0.table[i] == s.after_frames(
            frames,
            inputs.millis,
        ).table[i],
{
    let received = s.after_frames(frames, inputs.millis);
    lemma_frames_stamp(s, frames, inputs.millis, i);
    lemma_frames_keep_wf(s, frames, inputs.millis);
    lemma_tick_keeps_stamp(received, s.with_frame_log(Seq::empty(), frames), inputs, i);
}

/// One frame, end to end: a frame from which a parameter's rule decodes a
/// value leaves, after the iteration that takes it in, that value in the
/// parameter and the clock reading of the iteration's tick as its stamp,
/// unless a policy stores its own result in the parameter.
pub proof fn lemma_one_frame_end_to_end(
    s: MainStateView,
    frame: FrameView,
    inputs: Inputs,
    i: int,
)
    requires
        s.wf(),
        0 <= i < NUM_PARAMETERS,
        !written_by_tick(i),
        s.table[i].can_map matches Some(map) && map.decoded(frame) is Some,
    ensures
        s.iterated(seq![frame], inputs).0.table[i].value == s.table[i].can_map->0.decoded(
            frame,
        )->0,
        s.iterated(seq![frame], inputs).0.table[i].update_timestamp == inputs.millis,
{
    let frames = seq![frame];
    let map = s.table[i].can_map->0;
    assert(frames[0] == frame);
    assert(map.decoded(frames[0]) is Some);
    assert(decoded_by_some(s.table[i], frames));
    lemma_iteration_stamps(s, frames, inputs, i);
    assert(frames.drop_last() =~= Seq::<FrameView>::empty());
    assert(frames.last() == frame);
    assert(s.after_frames(frames.drop_last(), inputs.millis) == s);
    assert(s.after_frames(frames, inputs.millis) == s.after_can(frame, inputs.millis));
}

} // verus!
