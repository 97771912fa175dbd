//! Every tick: refresh the locally sourced parameters, note the fault
//! inputs, and decide whether the vehicle is to be woken.

use crate::hardware::{
    action_views, push_action, Action, ActionView, DigitalInput, Inputs, LogEvent,
};
use crate::parameters::ParameterId;
use crate::registry::{elapsed, elapsed_ms, table_after_timeout};
use crate::state::{MainState, MainStateView};
use crate::value::{scaled, Value, MICRO};
use vstd::prelude::*;

verus! {

/// A flag parameter counts as set above this value.
pub const ON: i64 = 500_000;

/// A state of charge below this reading is no reading.
pub const SOC_MIN_PLAUSIBLE: i64 = 500_000;

/// A state of charge above this reading is no reading.
pub const SOC_MAX_PLAUSIBLE: i64 = 100_500_000;

/// Remote operation needs at least this state of charge.
pub const SOC_REMOTE_FLOOR: i64 = 10_000_000;

/// Below this the auxiliary battery counts as low.
pub const AUX_LOW_VOLTAGE: i64 = 12_000_000;

/// No scheduled wake before the controller ran this long.
pub const WAKE_AFTER_BOOT_MS: u64 = 7_200_000;

/// The daily wake: the first hour of every 24 hours.
pub const DAY_MS: u64 = 86_400_000;

pub const DAILY_WAKE_MS: u64 = 3_600_000;

/// The low-battery wake: the first half hour of every 4 hours, while the
/// auxiliary battery was seen low within the last hour.
pub const FOUR_HOURS_MS: u64 = 14_400_000;

pub const LOW_AUX_WAKE_MS: u64 = 1_800_000;

pub const AUX_LOW_MEMORY_MS: u64 = 3_600_000;

/// Whether `now` lies in a scheduled wake window.
pub open spec fn in_wake_window(now: u64, last_aux_low_ms: u64) -> bool {
    now > WAKE_AFTER_BOOT_MS && (now % DAY_MS < DAILY_WAKE_MS || (now % FOUR_HOURS_MS
        < LOW_AUX_WAKE_MS && elapsed(now, last_aux_low_ms) < AUX_LOW_MEMORY_MS))
}

/// Whether the vehicle is to be woken and the main contactor requested: on
/// ignition, while charging equipment is active, or, with a state of charge
/// of at least `SOC_REMOTE_FLOOR` last seen, for climate control or a
/// scheduled wake. While no state of charge was seen, only the ignition and
/// active charging equipment wake the vehicle.
pub open spec fn wakeup_requested(
    ignition: bool,
    activate_evse: Value,
    last_seen_soc: Value,
    hvac_requested: Value,
    wake_window: bool,
) -> bool {
    ignition || activate_evse.above(ON) || (last_seen_soc.at_least(SOC_REMOTE_FLOOR) && (
    hvac_requested.above(ON) || wake_window))
}

/// The log lines for the fault inputs that are active, appended to `prior`.
pub open spec fn with_fault_log(prior: Seq<ActionView>, inputs: Inputs) -> Seq<ActionView> {
    let a1 = if inputs.digital.group1_oc {
        prior.push(ActionView::Log(LogEvent::InputFault(DigitalInput::Group1OC)))
    } else {
        prior
    };
    let a2 = if inputs.digital.group2_oc {
        a1.push(ActionView::Log(LogEvent::InputFault(DigitalInput::Group2OC)))
    } else {
        a1
    };
    let a3 = if inputs.digital.group3_oc {
        a2.push(ActionView::Log(LogEvent::InputFault(DigitalInput::Group3OC)))
    } else {
        a2
    };
    if inputs.digital.group4_oc {
        a3.push(ActionView::Log(LogEvent::InputFault(DigitalInput::Group4OC)))
    } else {
        a3
    }
}

impl MainStateView {
    /// The state after the locally sourced parameters were refreshed: the
    /// clock, the auxiliary voltage, the board temperature and the
    /// evaporator temperature are stored, a plausible state of charge is
    /// remembered, and stale values turn unknown.
    pub open spec fn after_update_parameters(self, inputs: Inputs) -> MainStateView {
        let now = inputs.millis;
        let s1 = self.with_value(ParameterId::TicksMs, scaled(now as int, MICRO as int), now)
            .with_value(ParameterId::AuxVoltage, inputs.analog.aux_voltage, now).with_value(
            ParameterId::PcbT,
            inputs.analog.pcb_t,
            now,
        );
        let soc = s1.value(ParameterId::Soc);
        let s2 = if soc.at_least(SOC_MIN_PLAUSIBLE) && soc.at_most(SOC_MAX_PLAUSIBLE) {
            s1.with_value(ParameterId::LastSeenSoc, soc, now)
        } else {
            s1
        };
        let s3 = s2.with_value(ParameterId::EvaporatorT, inputs.evaporator_t, now);
        MainStateView { table: table_after_timeout(s3.table, now), ..s3 }
    }

    /// The state after the inputs were read: the ignition's last time on is
    /// renewed while it is on.
    pub open spec fn after_read_inputs(self, inputs: Inputs) -> MainStateView {
        MainStateView {
            ignition_last_on_ms: if inputs.digital.ignition {
                inputs.millis
            } else {
                self.ignition_last_on_ms
            },
            ..self
        }
    }

    /// The state after the wake decision: a low auxiliary voltage is noted,
    /// and the request is stored.
    pub open spec fn after_manage_power(self, inputs: Inputs) -> MainStateView {
        let now = inputs.millis;
        let last_aux_low_ms = if self.value(ParameterId::AuxVoltage).below(AUX_LOW_VOLTAGE) {
            now
        } else {
            self.last_aux_low_ms
        };
        let request = wakeup_requested(
            inputs.digital.ignition,
            self.value(ParameterId::ActivateEvse),
            self.value(ParameterId::LastSeenSoc),
            self.value(ParameterId::HvacRequested),
            in_wake_window(now, last_aux_low_ms),
        );
        MainStateView { last_aux_low_ms, ..self }.with_value(
            ParameterId::ReqWakeupAndContactor,
            Value::flag(request),
            now,
        )
    }
}

impl MainState {
    /// Runs the staleness check at time `now`.
    pub fn timeout_parameters(&mut self, now: u64)
        requires
            old(self).wf(),
        ensures
            final(self)@ == (MainStateView {
                table: table_after_timeout(old(self)@.table, now),
                ..old(self)@
            }),
            final(self).wf(),
    {
        self.registry.timeout(now);
    }

    /// Refreshes the locally sourced parameters and runs the staleness
    /// check.
    pub fn update_parameters(&mut self, inputs: &Inputs)
        requires
            old(self).wf(),
        ensures
            final(self)@ == old(self)@.after_update_parameters(*inputs),
            final(self).wf(),
    {
        let now = inputs.millis;
        self.set_value(ParameterId::TicksMs, Value::from_raw(now as i128, MICRO), now);
        self.set_value(
            ParameterId::AuxVoltage,
            inputs.get_analog_input(crate::hardware::AnalogInput::AuxVoltage),
            now,
        );
        self.set_value(
            ParameterId::PcbT,
            inputs.get_analog_input(crate::hardware::AnalogInput::PcbT),
            now,
        );
        let soc = self.value(ParameterId::Soc);
        if soc.is_at_least(SOC_MIN_PLAUSIBLE) && soc.is_at_most(SOC_MAX_PLAUSIBLE) {
            self.set_value(ParameterId::LastSeenSoc, soc, now);
        }
        self.set_value(ParameterId::EvaporatorT, inputs.evaporator_t, now);
        self.timeout_parameters(now);
    }

    /// Logs the fault inputs that are active and notes the ignition.
    pub fn read_inputs(&mut self, inputs: &Inputs, actions: &mut Vec<Action>)
        ensures
            final(self)@ == old(self)@.after_read_inputs(*inputs),
            action_views(final(actions)@) == with_fault_log(action_views(old(actions)@), *inputs),
    {
        if inputs.get_digital_input(DigitalInput::Group1OC) {
            push_action(actions, Action::Log(LogEvent::InputFault(DigitalInput::Group1OC)));
        }
        if inputs.get_digital_input(DigitalInput::Group2OC) {
            push_action(actions, Action::Log(LogEvent::InputFault(DigitalInput::Group2OC)));
        }
        if inputs.get_digital_input(DigitalInput::Group3OC) {
            push_action(actions, Action::Log(LogEvent::InputFault(DigitalInput::Group3OC)));
        }
        if inputs.get_digital_input(DigitalInput::Group4OC) {
            push_action(actions, Action::Log(LogEvent::InputFault(DigitalInput::Group4OC)));
        }
        if inputs.get_digital_input(DigitalInput::Ignition) {
            self.ignition_last_on_ms = inputs.millis;
        }
    }

    /// Decides whether the vehicle is to be woken and the main contactor
    /// requested, and stores the request.
    pub fn manage_power(&mut self, inputs: &Inputs)
        requires
            old(self).wf(),
        ensures
            final(self)@ == old(self)@.after_manage_power(*inputs),
            final(self).wf(),
    {
        let now = inputs.millis;
        let ignition = inputs.get_digital_input(DigitalInput::Ignition);
        let enough_soc = self.value(ParameterId::LastSeenSoc).is_at_least(SOC_REMOTE_FLOOR);
        if self.value(ParameterId::AuxVoltage).is_below(AUX_LOW_VOLTAGE) {
            self.last_aux_low_ms = now;
        }
        let wake_window = now > WAKE_AFTER_BOOT_MS && (now % DAY_MS < DAILY_WAKE_MS || (now
            % FOUR_HOURS_MS < LOW_AUX_WAKE_MS && elapsed_ms(now, self.last_aux_low_ms)
            < AUX_LOW_MEMORY_MS));
        let request = ignition || self.value(ParameterId::ActivateEvse).is_above(ON) || (enough_soc
            && (self.value(ParameterId::HvacRequested).is_above(ON) || wake_window));
        self.set_value(ParameterId::ReqWakeupAndContactor, Value::from_flag(request), now);
    }
}

} // verus!
