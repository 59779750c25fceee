//! Task descriptors: one interrupt source, one handler, a static priority
//! and the resources the handler may claim.

use vstd::prelude::*;

verus! {

/// Binds an interrupt source to a handler. Fixed once the dispatcher is
/// configured.
pub struct TaskDescriptor<H> {
    /// The interrupt source that triggers the task.
    pub source: u16,
    /// The static priority; a higher value is more urgent.
    pub priority: u8,
    /// The identifiers of the resources the handler may claim.
    pub resources: Vec<usize>,
    /// The handler, handed back to the caller when the task is dispatched.
    pub handler: H,
}

impl<H> TaskDescriptor<H> {
    /// Whether `resource` is in the task's access set.
    pub open spec fn accesses(&self, resource: usize) -> bool {
        self.resources@.contains(resource)
    }

    pub fn new(source: u16, priority: u8, resources: Vec<usize>, handler: H) -> (task: Self)
        ensures
            task.source == source,
            task.priority == priority,
            task.resources == resources,
            task.handler == handler,
    {
        TaskDescriptor { source, priority, resources, handler }
    }

    /// Whether `resource` is in the task's access set.
    pub fn may_access(&self, resource: usize) -> (found: bool)
        ensures
            found == self.accesses(resource),
    {
        let mut k: usize = 0;
        while k < self.resources.len()
            invariant
                k <= self.resources.len(),
                forall|j: int| 0 <= j < k ==> self.resources@[j] != resource,
            decreases self.resources.len() - k,
        {
            if self.resources[k] == resource {
                return true;
            }
            k += 1;
        }
        false
    }
}

} // verus!
