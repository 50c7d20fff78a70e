//! Supervision of long-running background services: the bookkeeping that decides
//! which service is registered under which id, how shutdown results are turned
//! into errors, and how the manager's settings are built.

pub mod background_service_manager;
pub mod error;
pub mod manager;
pub mod manager_wasm;
pub mod native;
pub mod service_context;
pub mod service_context_wasm;
pub mod service_info;
pub mod service_info_wasm;
pub mod sync;
pub mod time;

use vstd::prelude::*;

verus! {

/// The identifier under which a spawned service is registered.
#[derive(Clone, Copy, PartialEq, Eq, Hash, Debug, Structural)]
pub struct TaskId(pub(crate) u64);

impl View for TaskId {
    type V = u64;

    closed spec fn view(&self) -> u64 {
        self.0
    }
}

impl TaskId {
    /// The id with the number `value`.
    pub(crate) fn from_value(value: u64) -> (r: TaskId)
        ensures
            r@ == value,
    {
        TaskId(value)
    }

    /// The number behind this id.
    pub fn value(&self) -> (r: u64)
        ensures
            r == self@,
    {
        self.0
    }
}

/// Hands out task ids: every call of `next_id` returns the current counter
/// value and advances the counter by one, so that no id is handed out twice.
#[derive(Debug)]
pub struct IdCounter {
    next: u64,
}

impl View for IdCounter {
    type V = u64;

    closed spec fn view(&self) -> u64 {
        self.next
    }
}

impl IdCounter {
    /// A counter whose first id is 1.
    pub fn new() -> (r: IdCounter)
        ensures
            r@ == 1,
    {
        IdCounter { next: 1 }
    }

    /// Whether the counter has reached the last id it can hand out.
    pub fn is_exhausted(&self) -> (r: bool)
        ensures
            r == (self@ == u64::MAX),
    {
        self.next == u64::MAX
    }

    /// Returns the next task id.
    pub fn next_id(&mut self) -> (id: TaskId)
        requires
            old(self)@ < u64::MAX,
        ensures
            id@ == old(self)@,
            final(self)@ == old(self)@ + 1,
    {
        let id = TaskId(self.next);
        self.next = self.next + 1;
        id
    }
}

/// Ids are never handed out twice: an id that was handed out while the counter
/// stood at `earlier` differs from every id handed out once the counter has
/// moved past it.
pub proof fn issued_ids_are_fresh(first: TaskId, earlier: IdCounter, later: IdCounter, second: TaskId)
    requires
        first@ == earlier@,
        earlier@ < later@,
        second@ == later@,
    ensures
        first != second,
{
}

} // verus!
