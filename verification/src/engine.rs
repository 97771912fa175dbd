//! One tick of the policy engine, and one iteration of the control loop.

use crate::frame::{Frame, FrameView};
use crate::hardware::{action_views, push_action, Action, ActionView, Inputs, LogEvent};
use crate::iteration_laws::{decoded_by_some, lemma_iteration_stamps};
use crate::output_laws::{frames_sendable, lemma_iteration_frames_sendable};
use crate::parameters::NUM_PARAMETERS;
use crate::power::with_fault_log;
use crate::registry::{elapsed, elapsed_ms};
use crate::state::{MainState, MainStateView};
use vstd::prelude::*;

verus! {

/// The heater's power request is recomputed this often.
pub const HEATER_CADENCE_MS: u64 = 2000;

/// Telemetry is sent and parameters are logged this often.
pub const TELEMETRY_CADENCE_MS: u64 = 500;

/// Commands are sent this often.
pub const COMMAND_CADENCE_MS: u64 = 200;

/// The keep-alive is sent this often.
pub const KEEP_ALIVE_CADENCE_MS: u64 = 30;

/// The sign of life is logged this often.
pub const SIGN_OF_LIFE_CADENCE_MS: u64 = 15000;

/// Whether a cadence is due: at least `cadence` milliseconds have passed
/// since it last ran.
pub open spec fn due(now: u64, last: u64, cadence: u64) -> bool {
    elapsed(now, last) >= cadence
}

/// The counter's successor, starting over after the largest value.
pub open spec fn next_count(counter: u32) -> u32 {
    if counter == u32::MAX {
        0
    } else {
        (counter + 1) as u32
    }
}

impl MainStateView {
    /// State and commands after the part of a tick that runs every time:
    /// the parameters are refreshed and checked for staleness, the inputs
    /// read, then the wake decision, the outputs, the charging decision and
    /// the compressor, each on the state that the one before left. The
    /// commands are appended to `prior`.
    pub open spec fn ticked_always(self, prior: Seq<ActionView>, inputs: Inputs) -> (
        MainStateView,
        Seq<ActionView>,
    ) {
        let s0 = MainStateView {
            dt_ms: elapsed(inputs.millis, self.last_millis) as u64,
            ..self
        };
        let s1 = s0.after_update_parameters(inputs);
        let s2 = s1.after_read_inputs(inputs);
        let a2 = with_fault_log(prior, inputs);
        let s3 = s2.after_manage_power(inputs);
        let s4 = s3.after_update_outputs(inputs);
        let a4 = s3.with_output_actions(a2, inputs);
        let s5 = s4.after_update_charging(inputs);
        let s6 = s5.after_update_aircon(inputs);
        let a6 = s5.with_aircon_actions(a4, inputs);
        (s6, a6)
    }

    /// State and commands after the heater's cadence, run where it is due.
    pub open spec fn ticked_heater(self, prior: Seq<ActionView>, inputs: Inputs) -> (
        MainStateView,
        Seq<ActionView>,
    ) {
        if due(inputs.millis, self.last_heater_update_ms, HEATER_CADENCE_MS) {
            (
                MainStateView { last_heater_update_ms: inputs.millis, ..self }.after_update_heater(
                    inputs,
                ),
                prior,
            )
        } else {
            (self, prior)
        }
    }

    /// State and commands after the telemetry cadence, run where it is
    /// due: the frames, then the parameter log.
    pub open spec fn ticked_telemetry(self, prior: Seq<ActionView>, inputs: Inputs) -> (
        MainStateView,
        Seq<ActionView>,
    ) {
        if due(inputs.millis, self.last_can_500ms, TELEMETRY_CADENCE_MS) {
            let s = MainStateView { last_can_500ms: inputs.millis, ..self };
            (
                s.after_log_parameters(),
                s.with_parameter_log(s.with_can_500ms(prior, inputs), NUM_PARAMETERS as nat),
            )
        } else {
            (self, prior)
        }
    }

    /// State and commands after the command cadence, run where it is due.
    pub open spec fn ticked_commands(self, prior: Seq<ActionView>, inputs: Inputs) -> (
        MainStateView,
        Seq<ActionView>,
    ) {
        if due(inputs.millis, self.last_can_200ms, COMMAND_CADENCE_MS) {
            let s = MainStateView { last_can_200ms: inputs.millis, ..self };
            (s, s.with_can_200ms(prior, inputs))
        } else {
            (self, prior)
        }
    }

    /// State and commands after the keep-alive cadence, run where it is
    /// due.
    pub open spec fn ticked_keep_alive(self, prior: Seq<ActionView>, inputs: Inputs) -> (
        MainStateView,
        Seq<ActionView>,
    ) {
        if due(inputs.millis, self.last_can_30ms, KEEP_ALIVE_CADENCE_MS) {
            let s = MainStateView { last_can_30ms: inputs.millis, ..self };
            (s, s.with_can_30ms(prior))
        } else {
            (self, prior)
        }
    }

    /// State and commands after the sign of life, logged where it is due.
    pub open spec fn ticked_sign_of_life(self, prior: Seq<ActionView>, inputs: Inputs) -> (
        MainStateView,
        Seq<ActionView>,
    ) {
        if due(inputs.millis, self.last_test_print_ms, SIGN_OF_LIFE_CADENCE_MS) {
            (
                MainStateView { last_test_print_ms: inputs.millis, ..self },
                prior.push(ActionView::Log(LogEvent::Running)),
            )
        } else {
            (self, prior)
        }
    }

    /// State and commands after one whole tick: what runs every time, then
    /// the cadences from the slowest policy to the keep-alive and the sign of
    /// life, each where it is due; at the end the tick's time is remembered
    /// and the tick counted. The commands are appended to `prior`.
    pub open spec fn ticked(self, prior: Seq<ActionView>, inputs: Inputs) -> (
        MainStateView,
        Seq<ActionView>,
    ) {
        let (s1, a1) = self.ticked_always(prior, inputs);
        let (s2, a2) = s1.ticked_heater(a1, inputs);
        let (s3, a3) = s2.ticked_telemetry(a2, inputs);
        let (s4, a4) = s3.ticked_commands(a3, inputs);
        let (s5, a5) = s4.ticked_keep_alive(a4, inputs);
        let (s6, a6) = s5.ticked_sign_of_life(a5, inputs);
        (
            MainStateView {
                last_millis: inputs.millis,
                update_counter: next_count(s6.update_counter),
                ..s6
            },
            a6,
        )
    }

    /// The state after frames were taken in, in this order, at clock reading
    /// `millis`.
    pub open spec fn after_frames(self, frames: Seq<FrameView>, millis: u64) -> MainStateView
        decreases frames.len(),
    {
        if frames.len() == 0 {
            self
        } else {
            self.after_frames(frames.drop_last(), millis).after_can(frames.last(), millis)
        }
    }

    /// The log commands for the received frames that are logged, in the
    /// order of the frames, appended to `prior`.
    pub open spec fn with_frame_log(self, prior: Seq<ActionView>, frames: Seq<FrameView>) -> Seq<
        ActionView,
    >
        decreases frames.len(),
    {
        if frames.len() == 0 {
            prior
        } else {
            let before = self.with_frame_log(prior, frames.drop_last());
            if self.logs_frame(frames.last()) {
                before.push(ActionView::LogCan(frames.last()))
            } else {
                before
            }
        }
    }

    /// State and commands after one iteration of the control loop at the
    /// clock reading of `inputs`: the received frames are taken in, all of
    /// them and in their order, stamped with that reading; then the tick
    /// runs on the registry that they left.
    pub open spec fn iterated(self, frames: Seq<FrameView>, inputs: Inputs) -> (
        MainStateView,
        Seq<ActionView>,
    ) {
        self.after_frames(frames, inputs.millis).ticked(
            self.with_frame_log(Seq::empty(), frames),
            inputs,
        )
    }
}

/// The frames of a list, each as plain values.
pub open spec fn frame_views(frames: Seq<Frame>) -> Seq<FrameView> {
    Seq::new(frames.len(), |i: int| frames[i]@)
}

impl MainState {
    /// Runs one tick on the inputs read for it and appends the commands for
    /// the hardware in the order in which they are to be carried out.
    pub fn tick(&mut self, inputs: &Inputs, actions: &mut Vec<Action>)
        requires
            old(self).wf(),
        ensures
            (final(self)@, action_views(final(actions)@)) == old(self)@.ticked(
                action_views(old(actions)@),
                *inputs,
            ),
            final(self).wf(),
    {
        let now = inputs.millis;
        let ghost a0 = action_views(actions@);
        self.dt_ms = elapsed_ms(now, self.last_millis);
        self.update_parameters(inputs);
        self.read_inputs(inputs, actions);
        self.manage_power(inputs);
        self.update_outputs(inputs, actions);
        self.update_charging(inputs);
        self.update_aircon(inputs, actions);
        assert((self@, action_views(actions@)) == old(self)@.ticked_always(a0, *inputs));
        let ghost s1 = self@;
        let ghost a1 = action_views(actions@);

        if elapsed_ms(now, self.last_heater_update_ms) >= HEATER_CADENCE_MS {
            self.last_heater_update_ms = now;
            self.update_heater(inputs);
        }
        assert((self@, action_views(actions@)) == s1.ticked_heater(a1, *inputs));
        let ghost s2 = self@;
        let ghost a2 = action_views(actions@);

        if elapsed_ms(now, self.last_can_500ms) >= TELEMETRY_CADENCE_MS {
            self.last_can_500ms = now;
            self.send_can_500ms(inputs, actions);
            self.log_parameters(actions);
        }
        assert((self@, action_views(actions@)) == s2.ticked_telemetry(a2, *inputs));
        let ghost s3 = self@;
        let ghost a3 = action_views(actions@);

        if elapsed_ms(now, self.last_can_200ms) >= COMMAND_CADENCE_MS {
            self.last_can_200ms = now;
            self.send_can_200ms(inputs, actions);
        }
        assert((self@, action_views(actions@)) == s3.ticked_commands(a3, *inputs));
        let ghost s4 = self@;
        let ghost a4 = action_views(actions@);

        if elapsed_ms(now, self.last_can_30ms) >= KEEP_ALIVE_CADENCE_MS {
            self.last_can_30ms = now;
            self.send_can_30ms(actions);
        }
        assert((self@, action_views(actions@)) == s4.ticked_keep_alive(a4, *inputs));
        let ghost s5 = self@;
        let ghost a5 = action_views(actions@);

        if elapsed_ms(now, self.last_test_print_ms) >= SIGN_OF_LIFE_CADENCE_MS {
            self.last_test_print_ms = now;
            push_action(actions, Action::Log(LogEvent::Running));
        }
        assert((self@, action_views(actions@)) == s5.ticked_sign_of_life(a5, *inputs));

        self.last_millis = now;
        self.update_counter = if self.update_counter == u32::MAX {
            0
        } else {
            self.update_counter + 1
        };
    }

    /// Runs one tick on the inputs read for it and returns the commands for
    /// the hardware in the order in which they are to be carried out.
    pub fn update(&mut self, inputs: &Inputs) -> (actions: Vec<Action>)
        requires
            old(self).wf(),
        ensures
            (final(self)@, action_views(actions@)) == old(self)@.ticked(Seq::empty(), *inputs),
            final(self).wf(),
    {
        let mut actions: Vec<Action> = Vec::new();
        assert(action_views(actions@) =~= Seq::empty());
        self.tick(inputs, &mut actions);
        actions
    }

    /// Takes in the frames received since the last iteration, in the order
    /// of their arrival, at the clock reading `millis`, and appends a log
    /// command for each frame that is to be logged.
    pub fn receive(&mut self, frames: &Vec<Frame>, millis: u64, actions: &mut Vec<Action>)
        requires
            old(self).wf(),
        ensures
            final(self)@ == old(self)@.after_frames(frame_views(frames@), millis),
            final(self).wf(),
            action_views(final(actions)@) == old(self)@.with_frame_log(
                action_views(old(actions)@),
                frame_views(frames@),
            ),
    {
        let mut i: usize = 0;
        assert(frame_views(frames@).subrange(0, 0) =~= Seq::empty());
        while i < frames.len()
            invariant
                i <= frames@.len(),
                self.wf(),
                self@.log_can == old(self)@.log_can,
                self@ == old(self)@.after_frames(
                    frame_views(frames@).subrange(0, i as int),
                    millis,
                ),
                action_views(actions@) == old(self)@.with_frame_log(
                    action_views(old(actions)@),
                    frame_views(frames@).subrange(0, i as int),
                ),
            decreases frames@.len() - i,
        {
            let log_it = self.on_can(&frames[i], millis);
            if log_it {
                push_action(actions, Action::LogCan(frames[i].duplicate()));
            }
            proof {
                let upto = frame_views(frames@).subrange(0, i + 1);
                assert(upto.drop_last() =~= frame_views(frames@).subrange(0, i as int));
                assert(upto.last() == frames@[i as int]@);
            }
            i += 1;
        }
        assert(frame_views(frames@).subrange(0, i as int) =~= frame_views(frames@));
    }

    /// One iteration of the control loop: the frames received since the
    /// last iteration are applied to the registry, all of them and in their
    /// order of arrival, stamped with the clock reading of this iteration,
    /// before the staleness check and the policies of the tick see it.
    /// Afterwards every parameter for which one of the frames carried a
    /// value bears that clock reading, and every frame among the commands is
    /// one that the bus can carry.
    pub fn iterate(&mut self, frames: &Vec<Frame>, inputs: &Inputs) -> (actions: Vec<Action>)
        requires
            old(self).wf(),
        ensures
            (final(self)@, action_views(actions@)) == old(self)@.iterated(
                frame_views(frames@),
                *inputs,
            ),
            final(self).wf(),
            forall|i: int|
                0 <= i < NUM_PARAMETERS && decoded_by_some(
                    #[trigger] old(self)@.table[i],
                    frame_views(frames@),
                ) ==> final(self)@.table[i].update_timestamp == inputs.millis,
            frames_sendable(action_views(actions@)),
    {
        let mut actions: Vec<Action> = Vec::new();
        assert(action_views(actions@) =~= Seq::empty());
        self.receive(frames, inputs.millis, &mut actions);
        self.tick(inputs, &mut actions);
        proof {
            assert forall|i: int|
                0 <= i < NUM_PARAMETERS && decoded_by_some(
                    #[trigger] old(self)@.table[i],
                    frame_views(frames@),
                ) implies self@.table[i].update_timestamp == inputs.millis by {
                lemma_iteration_stamps(old(self)@, frame_views(frames@), *inputs, i);
            }
            lemma_iteration_frames_sendable(old(self)@, frame_views(frames@), *inputs);
        }
        actions
    }
}

} // verus!
