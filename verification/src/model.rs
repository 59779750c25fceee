//! The mathematical model of the dispatcher: its state, the invariant that
//! every reachable state satisfies, and the state each transition leads to.

use vstd::prelude::*;
use crate::error::{ClaimError, DispatchError};
use crate::task::TaskDescriptor;

verus! {

/// One open scope on the dispatcher's stack: a task that was entered, or a
/// claim that the task named in `task` holds.
#[derive(Clone, Copy, Debug)]
pub struct Frame {
    /// Index of the task that opened the scope.
    pub task: usize,
    /// `None` for the task's own entry, `Some(r)` for a claim on resource `r`.
    pub claim: Option<usize>,
    /// The priority mask at the moment the scope was opened.
    pub saved: u8,
}

/// What can happen to a dispatcher.
pub enum Event {
    /// Initialisation ends.
    Arm,
    /// Initialisation runs again.
    Reset,
    /// The interrupt of a source is raised and latched.
    Pend(u16),
    /// The interrupt of a source is taken.
    Interrupt(u16),
    /// The running task's handler returns.
    Return,
    /// The running task claims a resource.
    Claim(usize),
    /// The innermost claim ends.
    Release,
}

/// The dispatcher's state as plain mathematics.
pub struct Model<H> {
    /// Number of priority levels above idle; task priorities are `1..=levels`.
    pub levels: u8,
    /// The task table.
    pub tasks: Seq<TaskDescriptor<H>>,
    /// The ceiling of each resource, by resource identifier.
    pub ceilings: Seq<u8>,
    /// Whether initialisation has ended and interrupts are taken.
    pub armed: bool,
    /// The priority mask: no task of this priority or lower may start.
    pub mask: u8,
    /// The open scopes, oldest first.
    pub frames: Seq<Frame>,
    /// For each task, whether its interrupt is latched and waiting.
    pub pending: Seq<bool>,
}

/// Every task priority lies in `1..=levels`.
pub open spec fn priorities_in_range<H>(levels: u8, tasks: Seq<TaskDescriptor<H>>) -> bool {
    forall|i: int| 0 <= i < tasks.len() ==> 1 <= (#[trigger] tasks[i]).priority <= levels
}

/// Every resource named in an access set is one of the first `count`.
pub open spec fn resources_known<H>(tasks: Seq<TaskDescriptor<H>>, count: nat) -> bool {
    forall|i: int, k: int|
        0 <= i < tasks.len() && 0 <= k < tasks[i].resources@.len()
            ==> (#[trigger] tasks[i].resources@[k]) < count
}

/// No two tasks are bound to the same interrupt source.
pub open spec fn sources_distinct<H>(tasks: Seq<TaskDescriptor<H>>) -> bool {
    forall|i: int, j: int|
        0 <= i < j < tasks.len() ==> (#[trigger] tasks[i]).source != (#[trigger] tasks[j]).source
}

/// `c` is the ceiling of `resource`: the highest priority among the tasks
/// that may access it, or the idle priority when no task does.
pub open spec fn is_ceiling<H>(tasks: Seq<TaskDescriptor<H>>, resource: usize, c: u8) -> bool {
    &&& forall|i: int|
        0 <= i < tasks.len() && (#[trigger] tasks[i]).accesses(resource) ==> tasks[i].priority <= c
    &&& c == 0 || exists|i: int|
        0 <= i < tasks.len() && (#[trigger] tasks[i]).accesses(resource) && tasks[i].priority == c
}

/// Every listed ceiling is the ceiling of its resource.
pub open spec fn ceilings_exact<H>(tasks: Seq<TaskDescriptor<H>>, ceilings: Seq<u8>) -> bool {
    forall|r: usize| 0 <= r < ceilings.len() ==> is_ceiling(tasks, r, #[trigger] ceilings[r as int])
}

impl<H> Model<H> {
    /// The state in which initialisation leaves a dispatcher: nothing armed,
    /// nothing running, nothing pending.
    pub open spec fn initial(levels: u8, tasks: Seq<TaskDescriptor<H>>, ceilings: Seq<u8>) -> Self {
        Model {
            levels,
            tasks,
            ceilings,
            armed: false,
            mask: 0,
            frames: Seq::empty(),
            pending: Seq::new(tasks.len(), |i: int| false),
        }
    }

    /// The static part of the invariant: what configuration checks.
    pub open spec fn configured(self) -> bool {
        &&& priorities_in_range(self.levels, self.tasks)
        &&& resources_known(self.tasks, self.ceilings.len())
        &&& sources_distinct(self.tasks)
        &&& ceilings_exact(self.tasks, self.ceilings)
    }

    /// The mask that holds inside the scope `f`.
    pub open spec fn level(self, f: Frame) -> u8 {
        match f.claim {
            None => self.tasks[f.task as int].priority,
            Some(r) => self.ceilings[r as int],
        }
    }

    /// The scope at `k` was opened lawfully on top of the scope below it.
    pub open spec fn frame_ok(self, k: int) -> bool {
        let f = self.frames[k];
        &&& f.task < self.tasks.len()
        &&& f.saved == (if k == 0 { 0u8 } else { self.level(self.frames[k - 1]) })
        &&& match f.claim {
            None => self.tasks[f.task as int].priority > f.saved,
            Some(r) => {
                &&& r < self.ceilings.len()
                &&& self.tasks[f.task as int].accesses(r)
                &&& self.ceilings[r as int] >= f.saved
                &&& k > 0
                &&& self.frames[k - 1].task == f.task
            },
        }
    }

    /// Scopes only ever raise the mask, and a scope opened by another task
    /// sits on top of lower levels only.
    pub open spec fn ordered(self) -> bool {
        forall|j: int, k: int|
            #![trigger self.frames[j], self.frames[k]]
            0 <= j < k < self.frames.len() ==> {
                &&& self.level(self.frames[j]) <= self.frames[k].saved
                &&& self.frames[j].task != self.frames[k].task
                    ==> self.tasks[self.frames[k].task as int].priority > self.level(self.frames[j])
            }
    }

    /// No resource is claimed twice.
    pub open spec fn exclusive(self) -> bool {
        forall|j: int, k: int|
            #![trigger self.frames[j], self.frames[k]]
            0 <= j < k < self.frames.len() && self.frames[j].claim is Some
                ==> self.frames[j].claim != self.frames[k].claim
    }

    /// The invariant of every reachable state.
    pub open spec fn wf(self) -> bool {
        &&& self.configured()
        &&& self.tasks.len() <= usize::MAX
        &&& self.pending.len() == self.tasks.len()
        &&& !self.armed ==> self.frames.len() == 0
        &&& forall|k: int| 0 <= k < self.frames.len() ==> #[trigger] self.frame_ok(k)
        &&& self.ordered()
        &&& self.exclusive()
        &&& self.mask == (if self.frames.len() == 0 { 0u8 } else { self.level(self.frames.last()) })
    }

    /// Task `i` is bound to `source`.
    pub open spec fn bound_to(self, source: u16, i: int) -> bool {
        0 <= i < self.tasks.len() && self.tasks[i].source == source
    }

    /// Some task is bound to `source`.
    pub open spec fn has_source(self, source: u16) -> bool {
        exists|i: int| self.bound_to(source, i)
    }

    /// Some open scope is a claim on `resource`.
    pub open spec fn held(self, resource: usize) -> bool {
        exists|k: int| 0 <= k < self.frames.len() && (#[trigger] self.frames[k]).claim == Some(resource)
    }

    /// Task `task` holds a claim on `resource`.
    pub open spec fn holds(self, task: int, resource: usize) -> bool {
        exists|k: int|
            0 <= k < self.frames.len() && (#[trigger] self.frames[k]).claim == Some(resource)
                && self.frames[k].task == task
    }

    /// Task `i` would be taken now: armed, latched, and above the mask.
    pub open spec fn ready(self, i: int) -> bool {
        &&& 0 <= i < self.tasks.len()
        &&& self.armed
        &&& self.pending[i]
        &&& self.tasks[i].priority > self.mask
    }

    /// Task `i` is the one taken next: ready, of the highest priority among
    /// the ready tasks, and first in the table among those.
    pub open spec fn next_is(self, i: int) -> bool {
        &&& self.ready(i)
        &&& forall|j: int| #[trigger]
            self.ready(j) ==> self.tasks[j].priority < self.tasks[i].priority || (
            self.tasks[j].priority == self.tasks[i].priority && i <= j)
    }

    /// Why a claim on `resource` is refused, if it is: the first of the
    /// reasons that applies. `None` where the claim is granted.
    pub open spec fn claim_refusal(self, resource: usize) -> Option<ClaimError> {
        if self.frames.len() == 0 {
            Some(ClaimError::NoActiveTask)
        } else if resource >= self.ceilings.len() {
            Some(ClaimError::UnknownResource)
        } else if !self.tasks[self.frames.last().task as int].accesses(resource) {
            Some(ClaimError::OutsideAccessSet)
        } else if self.held(resource) {
            Some(ClaimError::AlreadyHeld)
        } else if self.ceilings[resource as int] < self.mask {
            Some(ClaimError::CeilingBelowThreshold)
        } else {
            None
        }
    }

    /// Why the entry of the interrupt of `source` is refused, if it is: the
    /// first of the reasons that applies. `None` where the task is entered.
    pub open spec fn entry_refusal(self, source: u16) -> Option<DispatchError> {
        if !self.armed {
            Some(DispatchError::NotArmed)
        } else if !self.has_source(source) {
            Some(DispatchError::UnknownSource)
        } else if exists|i: int| self.bound_to(source, i) && self.tasks[i].priority <= self.mask {
            Some(DispatchError::Masked)
        } else {
            None
        }
    }

    /// The state after the end of initialisation.
    pub open spec fn armed_state(self) -> Self {
        Model { armed: true, ..self }
    }

    /// The state after the interrupt of task `i` was latched.
    pub open spec fn latched(self, i: usize) -> Self {
        Model { pending: self.pending.update(i as int, true), ..self }
    }

    /// The state after task `i` was entered.
    pub open spec fn entered(self, i: usize) -> Self {
        Model {
            mask: self.tasks[i as int].priority,
            frames: self.frames.push(Frame { task: i, claim: None, saved: self.mask }),
            pending: self.pending.update(i as int, false),
            ..self
        }
    }

    /// The state after task `i` ran from entry to return: as before, with
    /// its interrupt no longer pending.
    pub open spec fn served(self, i: usize) -> Self {
        Model { pending: self.pending.update(i as int, false), ..self }
    }

    /// The state after the running task claimed `resource`.
    pub open spec fn claimed(self, resource: usize) -> Self {
        Model {
            mask: self.ceilings[resource as int],
            frames: self.frames.push(
                Frame { task: self.frames.last().task, claim: Some(resource), saved: self.mask },
            ),
            ..self
        }
    }

    /// The state after the innermost scope was closed.
    pub open spec fn closed_scope(self) -> Self {
        Model { mask: self.frames.last().saved, frames: self.frames.drop_last(), ..self }
    }

    /// The state that initialisation leaves for this state's configuration.
    pub open spec fn reinitialised(self) -> Self {
        Model::initial(self.levels, self.tasks, self.ceilings)
    }

    /// The task bound to `source`, where there is one.
    pub open spec fn task_of(self, source: u16) -> usize {
        choose|i: usize| self.bound_to(source, i as int)
    }

    /// The state after `event`. An event that is refused leaves the state
    /// as it is.
    pub open spec fn after(self, event: Event) -> Self {
        match event {
            Event::Arm => self.armed_state(),
            Event::Reset => self.reinitialised(),
            Event::Pend(source) => if self.has_source(source) {
                self.latched(self.task_of(source))
            } else {
                self
            },
            Event::Interrupt(source) => if self.entry_refusal(source) is None {
                self.entered(self.task_of(source))
            } else {
                self
            },
            Event::Return => if self.frames.len() > 0 && self.frames.last().claim is None {
                self.closed_scope()
            } else {
                self
            },
            Event::Claim(resource) => if self.claim_refusal(resource) is None {
                self.claimed(resource)
            } else {
                self
            },
            Event::Release => if self.frames.len() > 0 && self.frames.last().claim is Some {
                self.closed_scope()
            } else {
                self
            },
        }
    }

    /// The state after a run of events, the first of them first.
    pub open spec fn after_all(self, events: Seq<Event>) -> Self
        decreases events.len(),
    {
        if events.len() == 0 {
            self
        } else {
            self.after_all(events.drop_last()).after(events.last())
        }
    }

    /// With distinct sources, the task bound to a source is the only one.
    pub proof fn lemma_task_of(self, source: u16, i: usize)
        requires
            sources_distinct(self.tasks),
            self.bound_to(source, i as int),
        ensures
            self.task_of(source) == i,
    {
    }

    /// Arming keeps the invariant.
    pub proof fn lemma_armed_wf(self)
        requires
            self.wf(),
        ensures
            self.armed_state().wf(),
    {
        let n = self.armed_state();
        assert forall|k: int| 0 <= k < n.frames.len() implies #[trigger] n.frame_ok(k) by {
        }
    }

    /// Latching an interrupt keeps the invariant.
    pub proof fn lemma_latched_wf(self, i: usize)
        requires
            self.wf(),
            i < self.tasks.len(),
        ensures
            self.latched(i).wf(),
    {
        let n = self.latched(i);
        assert forall|k: int| 0 <= k < n.frames.len() implies #[trigger] n.frame_ok(k) by {
            assert(self.frame_ok(k));
        }
    }

    /// No open scope stands above the mask.
    pub proof fn lemma_mask_dominates(self, j: int)
        requires
            self.wf(),
            0 <= j < self.frames.len(),
        ensures
            self.frames[j].saved <= self.level(self.frames[j]) <= self.mask,
    {
        assert(self.frame_ok(j));
        assert(self.frame_ok(self.frames.len() - 1));
    }

    /// Entering a task above the mask keeps the invariant.
    pub proof fn lemma_entered_wf(self, i: usize)
        requires
            self.wf(),
            self.armed,
            i < self.tasks.len(),
            self.tasks[i as int].priority > self.mask,
        ensures
            self.entered(i).wf(),
    {
        let n = self.entered(i);
        let top = self.frames.len() as int;
        assert forall|k: int| 0 <= k < n.frames.len() implies #[trigger] n.frame_ok(k) by {
            if k < top {
                assert(self.frame_ok(k));
            }
        }
        assert forall|j: int, k: int|
            #![trigger n.frames[j], n.frames[k]]
            0 <= j < k < n.frames.len() implies {
            &&& n.level(n.frames[j]) <= n.frames[k].saved
            &&& n.frames[j].task != n.frames[k].task
                ==> n.tasks[n.frames[k].task as int].priority > n.level(n.frames[j])
        } by {
            if k == top {
                self.lemma_mask_dominates(j);
            }
        }
        assert forall|j: int, k: int|
            #![trigger n.frames[j], n.frames[k]]
            0 <= j < k < n.frames.len() && n.frames[j].claim is Some implies n.frames[j].claim
            != n.frames[k].claim by {
        }
    }

    /// Claiming a free resource of the running task, with a ceiling not
    /// below the mask, keeps the invariant.
    pub proof fn lemma_claimed_wf(self, resource: usize)
        requires
            self.wf(),
            self.frames.len() > 0,
            resource < self.ceilings.len(),
            self.tasks[self.frames.last().task as int].accesses(resource),
            !self.held(resource),
            self.ceilings[resource as int] >= self.mask,
        ensures
            self.claimed(resource).wf(),
    {
        let n = self.claimed(resource);
        let top = self.frames.len() as int;
        assert(self.frame_ok(top - 1));
        assert forall|k: int| 0 <= k < n.frames.len() implies #[trigger] n.frame_ok(k) by {
            if k < top {
                assert(self.frame_ok(k));
            }
        }
        assert forall|j: int, k: int|
            #![trigger n.frames[j], n.frames[k]]
            0 <= j < k < n.frames.len() implies {
            &&& n.level(n.frames[j]) <= n.frames[k].saved
            &&& n.frames[j].task != n.frames[k].task
                ==> n.tasks[n.frames[k].task as int].priority > n.level(n.frames[j])
        } by {
            if k == top {
                self.lemma_mask_dominates(j);
            }
        }
        assert forall|j: int, k: int|
            #![trigger n.frames[j], n.frames[k]]
            0 <= j < k < n.frames.len() && n.frames[j].claim is Some implies n.frames[j].claim
            != n.frames[k].claim by {
        }
    }

    /// Closing the innermost scope keeps the invariant.
    pub proof fn lemma_closed_scope_wf(self)
        requires
            self.wf(),
            self.frames.len() > 0,
        ensures
            self.closed_scope().wf(),
    {
        let n = self.closed_scope();
        let top = self.frames.len() - 1;
        assert(self.frame_ok(top));
        assert forall|k: int| 0 <= k < n.frames.len() implies #[trigger] n.frame_ok(k) by {
            assert(self.frame_ok(k));
        }
        assert forall|j: int, k: int|
            #![trigger n.frames[j], n.frames[k]]
            0 <= j < k < n.frames.len() implies {
            &&& n.level(n.frames[j]) <= n.frames[k].saved
            &&& n.frames[j].task != n.frames[k].task
                ==> n.tasks[n.frames[k].task as int].priority > n.level(n.frames[j])
        } by {
        }
        assert forall|j: int, k: int|
            #![trigger n.frames[j], n.frames[k]]
            0 <= j < k < n.frames.len() && n.frames[j].claim is Some implies n.frames[j].claim
            != n.frames[k].claim by {
        }
    }
}

} // verus!
