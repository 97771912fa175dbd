//! The controller's state: the registry and the latched control state of
//! the policy engine.

use crate::frame::{Frame, FrameId, FrameView};
use crate::parameter::Parameter;
use crate::parameters::{init_parameters, initial_table, ParameterId, NUM_PARAMETERS};
use crate::registry::{ids_match, table_after_frame, Registry};
use crate::text::{text_chars, text_new};
use crate::value::Value;
use arrayvec::ArrayString;
use vstd::prelude::*;

verus! {

/// Registry and latched control state.
#[derive(Debug)]
pub struct MainState {
    pub registry: Registry,
    /// Number of ticks so far, wrapping.
    pub update_counter: u32,
    /// Whether received frames are logged.
    pub log_can: bool,
    /// Clock reading of the latest tick.
    pub last_millis: u64,
    /// Milliseconds between the latest two ticks.
    pub dt_ms: u64,
    pub last_test_print_ms: u64,
    /// Start of the latest solenoid update.
    pub last_solenoid_update_ms: u64,
    pub last_can_30ms: u64,
    pub last_can_200ms: u64,
    pub last_can_500ms: u64,
    pub last_heater_update_ms: u64,
    /// Latest tick at which the ignition was on.
    pub ignition_last_on_ms: u64,
    /// Latest tick at which the auxiliary voltage was low.
    pub last_aux_low_ms: u64,
    /// Latest tick at which the compressor was commanded off.
    pub last_compressor_off_ts: u64,
    /// Latest tick at which a DC/DC over-current was seen.
    pub last_dcdc_overcurrent_ts: u64,
    /// The value of each parameter when it was last logged.
    pub last_logged_values: Vec<Value>,
    /// Only parameters whose name contains this text are logged; empty for
    /// all.
    pub watch_filter: ArrayString<50>,
}

/// The controller's state as plain mathematical values.
pub ghost struct MainStateView {
    pub table: Seq<Parameter>,
    pub update_counter: u32,
    pub log_can: bool,
    pub last_millis: u64,
    pub dt_ms: u64,
    pub last_test_print_ms: u64,
    pub last_solenoid_update_ms: u64,
    pub last_can_30ms: u64,
    pub last_can_200ms: u64,
    pub last_can_500ms: u64,
    pub last_heater_update_ms: u64,
    pub ignition_last_on_ms: u64,
    pub last_aux_low_ms: u64,
    pub last_compressor_off_ts: u64,
    pub last_dcdc_overcurrent_ts: u64,
    pub last_logged_values: Seq<Value>,
    pub watch_filter: Seq<char>,
}

impl View for MainState {
    type V = MainStateView;

    open spec fn view(&self) -> MainStateView {
        MainStateView {
            table: self.registry@,
            update_counter: self.update_counter,
            log_can: self.log_can,
            last_millis: self.last_millis,
            dt_ms: self.dt_ms,
            last_test_print_ms: self.last_test_print_ms,
            last_solenoid_update_ms: self.last_solenoid_update_ms,
            last_can_30ms: self.last_can_30ms,
            last_can_200ms: self.last_can_200ms,
            last_can_500ms: self.last_can_500ms,
            last_heater_update_ms: self.last_heater_update_ms,
            ignition_last_on_ms: self.ignition_last_on_ms,
            last_aux_low_ms: self.last_aux_low_ms,
            last_compressor_off_ts: self.last_compressor_off_ts,
            last_dcdc_overcurrent_ts: self.last_dcdc_overcurrent_ts,
            last_logged_values: self.last_logged_values@,
            watch_filter: text_chars(self.watch_filter),
        }
    }
}

impl MainStateView {
    /// The table is the controller's: every parameter at its position, and
    /// one logged value for each.
    pub open spec fn wf(self) -> bool {
        &&& self.table.len() == NUM_PARAMETERS
        &&& ids_match(self.table)
        &&& self.last_logged_values.len() == NUM_PARAMETERS
    }

    /// The state at startup.
    pub open spec fn initial() -> MainStateView {
        MainStateView {
            table: initial_table(),
            update_counter: 0,
            log_can: false,
            last_millis: 0,
            dt_ms: 0,
            last_test_print_ms: 0,
            last_solenoid_update_ms: 0,
            last_can_30ms: 0,
            last_can_200ms: 0,
            last_can_500ms: 0,
            last_heater_update_ms: 0,
            ignition_last_on_ms: 0,
            last_aux_low_ms: 0,
            last_compressor_off_ts: 0,
            last_dcdc_overcurrent_ts: 0,
            last_logged_values: Seq::new(NUM_PARAMETERS as nat, |i: int| Value::Unknown),
            watch_filter: Seq::empty(),
        }
    }

    /// The value of a parameter.
    pub open spec fn value(self, id: ParameterId) -> Value {
        self.table[id.index() as int].value
    }

    /// The state with a parameter's value and update time replaced.
    pub open spec fn with_value(self, id: ParameterId, value: Value, millis: u64) -> MainStateView {
        MainStateView {
            table: self.table.update(
                id.index() as int,
                self.table[id.index() as int].updated(value, millis),
            ),
            ..self
        }
    }

    /// The state after a frame was taken in at clock reading `millis`: the
    /// frame is applied to the registry, and each parameter that it updates
    /// is stamped with that reading.
    pub open spec fn after_can(self, frame: FrameView, millis: u64) -> MainStateView {
        MainStateView { table: table_after_frame(self.table, frame, millis), ..self }
    }

    /// Whether a received frame is logged: frame logging is switched on and
    /// the frame has a standard identifier.
    pub open spec fn logs_frame(self, frame: FrameView) -> bool {
        self.log_can && frame.id is Standard
    }
}

impl MainState {
    /// The state is well formed.
    pub open spec fn wf(&self) -> bool {
        self@.wf()
    }

    /// Whether the state is well formed: the startup self-check.
    pub fn is_consistent(&self) -> (r: bool)
        ensures
            r == self.wf(),
    {
        self.registry.len() == NUM_PARAMETERS && self.registry.is_consistent()
            && self.last_logged_values.len() == NUM_PARAMETERS
    }

    /// The state at startup, with the parameter table freshly defined.
    pub fn new() -> (state: MainState)
        ensures
            state@ == MainStateView::initial(),
            state.wf(),
    {
        let registry = init_parameters();
        let mut last_logged_values: Vec<Value> = Vec::new();
        let mut i: usize = 0;
        while i < NUM_PARAMETERS
            invariant
                i <= NUM_PARAMETERS,
                last_logged_values@.len() == i,
                forall|j: int| 0 <= j < i ==> last_logged_values@[j] == Value::Unknown,
            decreases NUM_PARAMETERS - i,
        {
            last_logged_values.push(Value::Unknown);
            i += 1;
        }
        let state = MainState {
            registry,
            update_counter: 0,
            log_can: false,
            last_millis: 0,
            dt_ms: 0,
            last_test_print_ms: 0,
            last_solenoid_update_ms: 0,
            last_can_30ms: 0,
            last_can_200ms: 0,
            last_can_500ms: 0,
            last_heater_update_ms: 0,
            ignition_last_on_ms: 0,
            last_aux_low_ms: 0,
            last_compressor_off_ts: 0,
            last_dcdc_overcurrent_ts: 0,
            last_logged_values,
            watch_filter: text_new(),
        };
        assert(state@.last_logged_values =~= MainStateView::initial().last_logged_values);
        state
    }

    /// The value of a parameter.
    pub fn value(&self, id: ParameterId) -> (v: Value)
        requires
            self.wf(),
        ensures
            v == self@.value(id),
    {
        self.registry.value(id.index())
    }

    /// Stores a parameter's value together with the time of the update.
    pub fn set_value(&mut self, id: ParameterId, value: Value, millis: u64)
        requires
            old(self).wf(),
        ensures
            final(self)@ == old(self)@.with_value(id, value, millis),
            final(self).wf(),
    {
        self.registry.set_value(id.index(), value, millis);
    }

    /// Takes in one received frame at clock reading `millis`, the reading of
    /// the tick that takes the frame in: every parameter that the frame
    /// updates is stamped with it. Returns whether the frame is to be logged.
    pub fn on_can(&mut self, frame: &Frame, millis: u64) -> (log_it: bool)
        ensures
            final(self)@ == old(self)@.after_can(frame@, millis),
            old(self).wf() ==> final(self).wf(),
            log_it == old(self)@.logs_frame(frame@),
    {
        let log_it = self.log_can && match frame.id {
            FrameId::Standard(_) => true,
            FrameId::Extended(_) => false,
        };
        self.registry.on_frame(frame, millis);
        log_it
    }
}

} // verus!
