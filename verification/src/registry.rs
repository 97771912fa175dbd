//! The parameter registry: a table of parameters, each stored at the
//! position that its id names.

use crate::frame::{Frame, FrameView};
use crate::parameter::Parameter;
use crate::value::Value;
use vstd::prelude::*;

verus! {

/// A value decoded from frames turns unknown when it was not refreshed for
/// this many milliseconds.
pub const STALE_AFTER_MS: u64 = 5000;

/// The table of parameters.
#[derive(Clone, Debug, PartialEq, Eq)]
pub struct Registry {
    pub params: Vec<Parameter>,
}

/// Why a table of parameters was refused.
#[derive(Clone, Copy, Debug, PartialEq, Eq, Structural)]
pub enum RegistryError {
    /// The parameter at this position carries another id.
    IdMismatch { index: usize },
}

/// Every parameter's id is its position.
pub open spec fn ids_match(params: Seq<Parameter>) -> bool {
    forall|i: int| 0 <= i < params.len() ==> (#[trigger] params[i]).id == i
}

/// Milliseconds from `then` to `now`; zero where `then` is not in the past.
pub open spec fn elapsed(now: u64, then: u64) -> int {
    if now >= then {
        now - then
    } else {
        0
    }
}

/// Milliseconds from `then` to `now`; zero where `then` is not in the past.
pub fn elapsed_ms(now: u64, then: u64) -> (r: u64)
    ensures
        r == elapsed(now, then),
{
    if now >= then {
        now - then
    } else {
        0
    }
}

/// The table after a frame arrived: each parameter on its own.
pub open spec fn table_after_frame(
    params: Seq<Parameter>,
    frame: FrameView,
    millis: u64,
) -> Seq<Parameter> {
    Seq::new(params.len(), |i: int| params[i].after_frame(frame, millis))
}

/// The table after the staleness check at time `now`.
pub open spec fn table_after_timeout(params: Seq<Parameter>, now: u64) -> Seq<Parameter> {
    Seq::new(params.len(), |i: int| params[i].after_timeout(now))
}

impl Parameter {
    /// The parameter is decoded from frames, holds a value, and that value is
    /// at least `STALE_AFTER_MS` old.
    pub open spec fn is_stale(self, now: u64) -> bool {
        self.can_map is Some && self.value is Known && elapsed(now, self.update_timestamp)
            >= STALE_AFTER_MS
    }

    /// The parameter after the staleness check: a stale value turns unknown,
    /// the time of its last update stays.
    pub open spec fn after_timeout(self, now: u64) -> Parameter {
        if self.is_stale(now) {
            Parameter { value: Value::Unknown, ..self }
        } else {
            self
        }
    }

    /// Runs the staleness check on this parameter.
    pub fn timeout(&mut self, now: u64)
        ensures
            *final(self) == old(self).after_timeout(now),
    {
        if self.can_map.is_some() && self.value.is_known() && elapsed_ms(
            now,
            self.update_timestamp,
        ) >= STALE_AFTER_MS {
            self.value = Value::Unknown;
        }
    }
}

impl View for Registry {
    type V = Seq<Parameter>;

    open spec fn view(&self) -> Seq<Parameter> {
        self.params@
    }
}

impl Registry {
    /// Every parameter sits at the position that its id names.
    pub open spec fn wf(&self) -> bool {
        ids_match(self@)
    }

    /// The startup self-check: whether every parameter sits at the position
    /// that its id names.
    pub fn is_consistent(&self) -> (r: bool)
        ensures
            r == self.wf(),
    {
        first_mismatch(&self.params).is_none()
    }

    /// Number of parameters.
    pub fn len(&self) -> (n: usize)
        ensures
            n == self@.len(),
    {
        self.params.len()
    }

    /// Stores a value and the time of the update in the parameter `id`.
    pub fn set_value(&mut self, id: usize, value: Value, millis: u64)
        requires
            id < old(self)@.len(),
        ensures
            final(self)@ == old(self)@.update(
                id as int,
                old(self)@[id as int].updated(value, millis),
            ),
            old(self).wf() ==> final(self).wf(),
    {
        self.params[id].set_value(value, millis);
    }

    /// The value of the parameter `id`.
    pub fn value(&self, id: usize) -> (v: Value)
        requires
            id < self@.len(),
        ensures
            v == self@[id as int].value,
    {
        self.params[id].value
    }

    /// Applies one frame that arrived at time `millis` to every parameter
    /// whose rule names the frame's identifier, in table order.
    pub fn on_frame(&mut self, frame: &Frame, millis: u64)
        ensures
            final(self)@ == table_after_frame(old(self)@, frame@, millis),
            old(self).wf() ==> final(self).wf(),
    {
        let n = self.params.len();
        let mut i: usize = 0;
        while i < n
            invariant
                i <= n,
                n == old(self)@.len(),
                self@.len() == n,
                forall|j: int| 0 <= j < i ==> self@[j] == old(self)@[j].after_frame(frame@, millis),
                forall|j: int| i <= j < n ==> self@[j] == old(self)@[j],
            decreases n - i,
        {
            self.params[i].on_frame(frame, millis);
            i += 1;
        }
        assert(self@ =~= table_after_frame(old(self)@, frame@, millis));
    }

    /// Turns every stale value unknown.
    pub fn timeout(&mut self, now: u64)
        ensures
            final(self)@ == table_after_timeout(old(self)@, now),
            old(self).wf() ==> final(self).wf(),
    {
        let n = self.params.len();
        let mut i: usize = 0;
        while i < n
            invariant
                i <= n,
                n == old(self)@.len(),
                self@.len() == n,
                forall|j: int| 0 <= j < i ==> self@[j] == old(self)@[j].after_timeout(now),
                forall|j: int| i <= j < n ==> self@[j] == old(self)@[j],
            decreases n - i,
        {
            self.params[i].timeout(now);
            i += 1;
        }
        assert(self@ =~= table_after_timeout(old(self)@, now));
    }
}

/// The first position whose parameter carries another id.
fn first_mismatch(params: &Vec<Parameter>) -> (r: Option<usize>)
    ensures
        r is None <==> ids_match(params@),
        r matches Some(index) ==> index < params@.len() && params@[index as int].id != index
            && ids_match(params@.subrange(0, index as int)),
{
    let mut i: usize = 0;
    while i < params.len()
        invariant
            i <= params@.len(),
            ids_match(params@.subrange(0, i as int)),
        decreases params@.len() - i,
    {
        if params[i].id != i {
            return Some(i);
        }
        assert forall|j: int| 0 <= j < i + 1 implies (#[trigger] params@.subrange(
            0,
            i + 1,
        )[j]).id == j by {
            if j < i {
                assert(params@.subrange(0, i as int)[j].id == j);
            }
        }
        i += 1;
    }
    assert(params@.subrange(0, i as int) =~= params@);
    None
}

/// Builds the registry from the table defined at startup. The table is
/// refused where a parameter does not sit at the position that its id names;
/// the error names the first such position.
pub fn set_parameters(params: Vec<Parameter>) -> (r: Result<Registry, RegistryError>)
    ensures
        r is Ok <==> ids_match(params@),
        r matches Ok(registry) ==> registry@ == params@ && registry.wf(),
        r matches Err(RegistryError::IdMismatch { index }) ==> index < params@.len()
            && params@[index as int].id != index && ids_match(params@.subrange(0, index as int)),
{
    match first_mismatch(&params) {
        Some(index) => Err(RegistryError::IdMismatch { index }),
        None => Ok(Registry { params }),
    }
}

/// All parameters, in table order.
pub fn get_parameters(registry: &Registry) -> (params: &Vec<Parameter>)
    ensures
        params@ == registry@,
{
    &registry.params
}

/// The parameter with the given id.
pub fn get_parameter_id(registry: &Registry, id: usize) -> (param: &Parameter)
    requires
        id < registry@.len(),
    ensures
        *param == registry@[id as int],
{
    &registry.params[id]
}

/// Applies one received frame to the registry: every parameter whose rule
/// names the frame's identifier and decodes a value from its payload gets
/// that value and the timestamp `millis`; every other parameter stays as it
/// is.
pub fn update_parameters_on_can(registry: &mut Registry, frame: &Frame, millis: u64)
    ensures
        final(registry)@ == table_after_frame(old(registry)@, frame@, millis),
        old(registry).wf() ==> final(registry).wf(),
{
    registry.on_frame(frame, millis);
}

} // verus!
