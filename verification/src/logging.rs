//! Which parameters are worth a line in the log, and which a print lists.

use crate::hardware::{action_views, push_action, Action, ActionView, LogEvent};
use crate::names::{contains_ignoring_case, string_contains_case_insensitive};
use crate::parameter::Parameter;
use crate::parameters::NUM_PARAMETERS;
use crate::state::{MainState, MainStateView};
use crate::text::text_as_str;
use crate::value::Value;
use vstd::prelude::*;

verus! {

/// Whether a value moved by at least `threshold` since it was logged:
/// two known values by their distance, a value that came or went always,
/// an unknown value that stayed unknown never.
pub open spec fn moved(value: Value, last: Value, threshold: u64) -> bool {
    match (value, last) {
        (Value::Unknown, Value::Unknown) => false,
        (Value::Known(a), Value::Known(b)) => a - b >= threshold || b - a >= threshold,
        _ => true,
    }
}

/// Whether a name passes the filter: the filter is empty or stands in the
/// name, capital and small ASCII letters counted as the same.
pub open spec fn passes_filter(name: Seq<char>, filter: Seq<char>) -> bool {
    filter.len() == 0 || contains_ignoring_case(name, filter)
}

/// Whether a parameter is logged: it has a log threshold, moved by at
/// least that much since it was last logged, and passes the filter.
pub open spec fn worth_logging(p: Parameter, last: Value, filter: Seq<char>) -> bool {
    p.log_threshold matches Some(threshold) && moved(p.value, last, threshold) && passes_filter(
        p.display_name@,
        filter,
    )
}

/// The ids of the parameters among the first `upto` whose name passes the
/// filter, in table order.
pub open spec fn listed_ids(table: Seq<Parameter>, filter: Seq<char>, upto: nat) -> Seq<usize>
    decreases upto,
{
    if upto == 0 {
        Seq::empty()
    } else {
        let before = listed_ids(table, filter, (upto - 1) as nat);
        if passes_filter(table[upto - 1].display_name@, filter) {
            before.push(table[upto - 1].id)
        } else {
            before
        }
    }
}

impl MainStateView {
    /// Whether the parameter at position `i` is logged now.
    pub open spec fn logged_at(self, i: int) -> bool {
        worth_logging(self.table[i], self.last_logged_values[i], self.watch_filter)
    }

    /// The state after logging: each logged parameter's value is
    /// remembered as its last logged value.
    pub open spec fn after_log_parameters(self) -> MainStateView {
        MainStateView {
            last_logged_values: Seq::new(
                self.last_logged_values.len(),
                |i: int|
                    if self.logged_at(i) {
                        self.table[i].value
                    } else {
                        self.last_logged_values[i]
                    },
            ),
            ..self
        }
    }

    /// The log lines for the parameters among the first `upto` that are
    /// logged now, in table order, appended to `prior`.
    pub open spec fn with_parameter_log(self, prior: Seq<ActionView>, upto: nat) -> Seq<ActionView>
        decreases upto,
    {
        if upto == 0 {
            prior
        } else {
            let before = self.with_parameter_log(prior, (upto - 1) as nat);
            if self.logged_at(upto - 1) {
                before.push(
                    ActionView::Log(
                        LogEvent::ParameterChanged {
                            id: self.table[upto - 1].id,
                            value: self.table[upto - 1].value,
                        },
                    ),
                )
            } else {
                before
            }
        }
    }
}

/// Whether a value moved by at least `threshold` since it was logged.
pub fn has_moved(value: Value, last: Value, threshold: u64) -> (r: bool)
    ensures
        r == moved(value, last, threshold),
{
    match (value, last) {
        (Value::Unknown, Value::Unknown) => false,
        (Value::Known(a), Value::Known(b)) => {
            let distance: i128 = if a >= b {
                a as i128 - b as i128
            } else {
                b as i128 - a as i128
            };
            distance >= threshold as i128
        },
        _ => true,
    }
}

/// Whether a name passes the filter.
pub fn name_passes(name: &str, filter: &str) -> (r: bool)
    ensures
        r == passes_filter(name@, filter@),
{
    filter.unicode_len() == 0 || string_contains_case_insensitive(name, filter)
}

impl MainState {
    /// Logs every parameter that moved by at least its log threshold since
    /// it was last logged and whose name passes the watch filter, and
    /// remembers what was logged.
    pub fn log_parameters(&mut self, actions: &mut Vec<Action>)
        requires
            old(self).wf(),
        ensures
            final(self)@ == old(self)@.after_log_parameters(),
            final(self).wf(),
            action_views(final(actions)@) == old(self)@.with_parameter_log(
                action_views(old(actions)@),
                NUM_PARAMETERS as nat,
            ),
    {
        let mut i: usize = 0;
        while i < NUM_PARAMETERS
            invariant
                i <= NUM_PARAMETERS,
                old(self).wf(),
                self.wf(),
                self@ == (MainStateView {
                    last_logged_values: self@.last_logged_values,
                    ..old(self)@
                }),
                forall|j: int|
                    0 <= j < i ==> self@.last_logged_values[j] == old(
                        self,
                    )@.after_log_parameters().last_logged_values[j],
                forall|j: int|
                    i <= j < NUM_PARAMETERS ==> self@.last_logged_values[j] == old(
                        self,
                    )@.last_logged_values[j],
                action_views(actions@) == old(self)@.with_parameter_log(
                    action_views(old(actions)@),
                    i as nat,
                ),
            decreases NUM_PARAMETERS - i,
        {
            let param = self.registry.params[i];
            let last = self.last_logged_values[i];
            let log_it = match param.log_threshold {
                Some(threshold) => has_moved(param.value, last, threshold) && name_passes(
                    param.display_name,
                    text_as_str(&self.watch_filter),
                ),
                None => false,
            };
            assert(log_it == old(self)@.logged_at(i as int));
            if log_it {
                push_action(
                    actions,
                    Action::Log(LogEvent::ParameterChanged { id: param.id, value: param.value }),
                );
                self.last_logged_values[i] = param.value;
            }
            i += 1;
        }
        assert(self@.last_logged_values =~= old(self)@.after_log_parameters().last_logged_values);
    }

    /// The ids of all parameters, in table order.
    pub fn print_parameters(&self) -> (ids: Vec<usize>)
        requires
            self.wf(),
        ensures
            ids@ == listed_ids(self@.table, Seq::empty(), NUM_PARAMETERS as nat),
    {
        proof {
            reveal_strlit("");
            assert(""@ =~= Seq::<char>::empty());
        }
        self.print_parameters_filtered("")
    }

    /// The ids of the parameters whose name passes `filter`, in table
    /// order.
    pub fn print_parameters_filtered(&self, filter: &str) -> (ids: Vec<usize>)
        requires
            self.wf(),
        ensures
            ids@ == listed_ids(self@.table, filter@, NUM_PARAMETERS as nat),
    {
        let mut ids: Vec<usize> = Vec::new();
        let mut i: usize = 0;
        while i < NUM_PARAMETERS
            invariant
                i <= NUM_PARAMETERS,
                self.wf(),
                ids@ == listed_ids(self@.table, filter@, i as nat),
            decreases NUM_PARAMETERS - i,
        {
            let param = self.registry.params[i];
            if name_passes(param.display_name, filter) {
                ids.push(param.id);
            }
            i += 1;
        }
        ids
    }
}

} // verus!
