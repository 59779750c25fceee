//! What the invariant buys: no two tasks ever hold one resource, no task of
//! equal or lower priority runs while a task is active, and initialisation
//! always leaves the same state.

use vstd::prelude::*;
use crate::model::{Event, Model};
use crate::task::TaskDescriptor;

verus! {

impl<H> Model<H> {
    /// The mask never stands below the priority of a task that was entered
    /// and has not returned, whatever claims were opened and closed since.
    pub proof fn lemma_mask_covers_active_tasks(self, k: int)
        requires
            self.wf(),
            0 <= k < self.frames.len(),
        ensures
            self.tasks[self.frames[k].task as int].priority <= self.level(self.frames[k]) <= self.mask,
    {
        self.lemma_mask_dominates(k);
        assert(self.frame_ok(k));
    }

    /// While a task is active, a task may be entered only if its priority is
    /// strictly higher: no task of equal or lower priority runs until the
    /// active one returns.
    pub proof fn lemma_no_entry_at_or_below_active(self, k: int, i: usize)
        requires
            self.wf(),
            0 <= k < self.frames.len(),
            i < self.tasks.len(),
            self.tasks[i as int].priority > self.mask,
        ensures
            self.tasks[i as int].priority > self.tasks[self.frames[k].task as int].priority,
            self.entered(i).wf(),
            self.entered(i).mask > self.mask,
    {
        self.lemma_mask_covers_active_tasks(k);
        self.lemma_entered_wf(i);
    }

    /// Of two active tasks, the one entered later has the strictly higher
    /// priority: every preemption goes upwards.
    pub proof fn lemma_preemption_is_strict(self, j: int, k: int)
        requires
            self.wf(),
            0 <= j < k < self.frames.len(),
            self.frames[k].claim is None,
        ensures
            self.tasks[self.frames[k].task as int].priority > self.tasks[self.frames[j].task as int].priority,
            self.frames[k].task != self.frames[j].task,
    {
        assert(self.frame_ok(j));
        assert(self.frame_ok(k));
    }

    /// Within a task the mask only moves between the task's priority and the
    /// ceilings of what it claims: every scope stands at or above the scope
    /// it was opened in.
    pub proof fn lemma_scopes_rise(self, j: int, k: int)
        requires
            self.wf(),
            0 <= j <= k < self.frames.len(),
        ensures
            self.level(self.frames[j]) <= self.level(self.frames[k]),
    {
        assert(self.frame_ok(k));
    }

    /// A resource has at most one holder: if tasks `a` and `b` both hold a
    /// claim on `resource`, they are one task.
    pub proof fn lemma_single_holder(self, a: int, b: int, resource: usize)
        requires
            self.wf(),
            self.holds(a, resource),
            self.holds(b, resource),
        ensures
            a == b,
    {
        let j = choose|j: int|
            0 <= j < self.frames.len() && (#[trigger] self.frames[j]).claim == Some(resource)
                && self.frames[j].task == a;
        let k = choose|k: int|
            0 <= k < self.frames.len() && (#[trigger] self.frames[k]).claim == Some(resource)
                && self.frames[k].task == b;
    }

    /// While a resource is held, every task that may access it is masked: its
    /// priority is not above the mask, so its interrupt stays pending and it
    /// cannot start until the claim ends.
    pub proof fn lemma_contenders_are_masked(self, resource: usize, contender: int)
        requires
            self.wf(),
            self.held(resource),
            0 <= contender < self.tasks.len(),
            self.tasks[contender].accesses(resource),
        ensures
            self.tasks[contender].priority <= self.ceilings[resource as int] <= self.mask,
            !self.ready(contender),
    {
        let k = choose|k: int|
            0 <= k < self.frames.len() && (#[trigger] self.frames[k]).claim == Some(resource);
        self.lemma_mask_dominates(k);
    }

    /// If the running task may access a resource that is held, the running
    /// task is the holder: a claim never meets another task's claim.
    pub proof fn lemma_holder_is_running(self, holder: int, resource: usize)
        requires
            self.wf(),
            self.frames.len() > 0,
            self.tasks[self.frames.last().task as int].accesses(resource),
            self.holds(holder, resource),
        ensures
            holder == self.frames.last().task,
    {
        let top = self.frames.len() - 1;
        let k = choose|k: int|
            0 <= k < self.frames.len() && (#[trigger] self.frames[k]).claim == Some(resource)
                && self.frames[k].task == holder;
        assert(self.frame_ok(top));
    }

    /// A checked configuration starts in a state that satisfies the
    /// invariant.
    pub proof fn lemma_initial_wf(levels: u8, tasks: Seq<TaskDescriptor<H>>, ceilings: Seq<u8>)
        requires
            Model::initial(levels, tasks, ceilings).configured(),
            tasks.len() <= usize::MAX,
        ensures
            Model::initial(levels, tasks, ceilings).wf(),
    {
    }

    /// No event breaks the invariant.
    pub proof fn lemma_after_wf(self, event: Event)
        requires
            self.wf(),
        ensures
            self.after(event).wf(),
    {
        match event {
            Event::Arm => {
                self.lemma_armed_wf();
            },
            Event::Reset => {},
            Event::Pend(source) => {
                if self.has_source(source) {
                    self.lemma_latched_wf(self.task_of(source));
                }
            },
            Event::Interrupt(source) => {
                if self.entry_refusal(source) is None {
                    self.lemma_entered_wf(self.task_of(source));
                }
            },
            Event::Return => {
                if self.frames.len() > 0 && self.frames.last().claim is None {
                    self.lemma_closed_scope_wf();
                }
            },
            Event::Claim(resource) => {
                if self.claim_refusal(resource) is None {
                    self.lemma_claimed_wf(resource);
                }
            },
            Event::Release => {
                if self.frames.len() > 0 && self.frames.last().claim is Some {
                    self.lemma_closed_scope_wf();
                }
            },
        }
    }

    /// Every state that a run of events reaches from a state that satisfies
    /// the invariant satisfies it too.
    pub proof fn lemma_after_all_wf(self, events: Seq<Event>)
        requires
            self.wf(),
        ensures
            self.after_all(events).wf(),
        decreases events.len(),
    {
        if events.len() > 0 {
            self.lemma_after_all_wf(events.drop_last());
            self.after_all(events.drop_last()).lemma_after_wf(events.last());
        }
    }

    /// Race freedom at every point in time: whatever happened since a
    /// checked configuration was initialised, no two tasks hold one
    /// resource, and while a resource is held no task that may access it
    /// can start.
    pub proof fn lemma_never_two_holders(
        levels: u8,
        tasks: Seq<TaskDescriptor<H>>,
        ceilings: Seq<u8>,
        events: Seq<Event>,
        a: int,
        b: int,
        resource: usize,
    )
        requires
            Model::initial(levels, tasks, ceilings).configured(),
            tasks.len() <= usize::MAX,
            0 <= a < tasks.len(),
            0 <= b < tasks.len(),
            tasks[a].accesses(resource),
            tasks[b].accesses(resource),
        ensures
            ({
                let now = Model::initial(levels, tasks, ceilings).after_all(events);
                &&& now.holds(a, resource) && now.holds(b, resource) ==> a == b
                &&& now.held(resource) ==> !now.ready(a) && !now.ready(b)
            }),
    {
        let start = Model::initial(levels, tasks, ceilings);
        Self::lemma_initial_wf(levels, tasks, ceilings);
        start.lemma_after_all_wf(events);
        start.lemma_after_all_keeps_tables(events);
        let now = start.after_all(events);
        if now.holds(a, resource) && now.holds(b, resource) {
            now.lemma_single_holder(a, b, resource);
        }
        if now.held(resource) {
            now.lemma_contenders_are_masked(resource, a);
            now.lemma_contenders_are_masked(resource, b);
        }
    }

    /// No run of events changes the tables that initialisation checked.
    pub proof fn lemma_after_all_keeps_tables(self, events: Seq<Event>)
        ensures
            self.after_all(events).levels == self.levels,
            self.after_all(events).tasks == self.tasks,
            self.after_all(events).ceilings == self.ceilings,
        decreases events.len(),
    {
        if events.len() > 0 {
            self.lemma_after_all_keeps_tables(events.drop_last());
        }
    }

    /// No lower or equal priority while a task is active, at every point in
    /// time: whatever happened since a checked configuration was
    /// initialised, the mask stands at or above the priority of every task
    /// that was entered and has not returned, so an event that enters a task
    /// enters one of strictly higher priority than all of them.
    pub proof fn lemma_never_below_active(
        levels: u8,
        tasks: Seq<TaskDescriptor<H>>,
        ceilings: Seq<u8>,
        events: Seq<Event>,
        k: int,
        source: u16,
    )
        requires
            Model::initial(levels, tasks, ceilings).configured(),
            tasks.len() <= usize::MAX,
            0 <= k < Model::initial(levels, tasks, ceilings).after_all(events).frames.len(),
        ensures
            ({
                let now = Model::initial(levels, tasks, ceilings).after_all(events);
                let active = now.tasks[now.frames[k].task as int];
                &&& active.priority <= now.mask
                &&& now.entry_refusal(source) is None ==> now.tasks[now.task_of(source) as int].priority
                    > active.priority
            }),
    {
        let start = Model::initial(levels, tasks, ceilings);
        Self::lemma_initial_wf(levels, tasks, ceilings);
        start.lemma_after_all_wf(events);
        let now = start.after_all(events);
        now.lemma_mask_covers_active_tasks(k);
    }

    /// Initialisation is idempotent: running it again on any state of the
    /// same configuration, once or twice, leaves the state that the first
    /// run left.
    pub proof fn lemma_init_idempotent(self)
        ensures
            self.reinitialised().reinitialised() == self.reinitialised(),
            self.reinitialised() == Model::initial(self.levels, self.tasks, self.ceilings),
            Model::initial(self.levels, self.tasks, self.ceilings).reinitialised() == Model::initial(
                self.levels,
                self.tasks,
                self.ceilings,
            ),
            self.wf() ==> self.reinitialised().wf(),
    {
    }
}

} // verus!
