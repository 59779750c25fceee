//! The dispatcher: maps an incoming interrupt to its task, raises the
//! priority mask to the task's priority for as long as the handler runs, and
//! keeps the stack of scopes that tasks and claims open.
//!
//! The dispatcher decides; the caller acts. Each operation takes the event
//! that occurred (an interrupt was raised, a handler returned, a claim was
//! asked for) and answers with the threshold that now holds or with the
//! reason for refusing. Running the handler and writing the mask to the
//! interrupt controller are the caller's part.

use vstd::prelude::*;
use crate::config::Config;
use crate::error::{ClaimError, ConfigError, DispatchError};
use crate::model::{Event, Frame, Model};
use crate::task::TaskDescriptor;
use crate::threshold::Threshold;

verus! {

/// What `on_interrupt` hands to the caller: the task to run, its handler,
/// and the threshold the handler runs under.
pub struct Dispatch<H> {
    /// Index of the task in the task table.
    pub task: usize,
    /// The task's handler.
    pub handler: H,
    /// A threshold at the task's priority.
    pub threshold: Threshold,
}

/// What the idle loop does next.
#[derive(Clone, Copy, Debug, PartialEq, Eq, Structural)]
pub enum IdleAction {
    /// Nothing can run: wait for the next interrupt.
    Sleep,
    /// The task with this index is ready and is taken next.
    Dispatch(usize),
    /// A task is running or initialisation has not ended: idle has no turn.
    NotIdle,
}

/// The scheduler state of one core.
pub struct Dispatcher<H> {
    levels: u8,
    tasks: Vec<TaskDescriptor<H>>,
    ceilings: Vec<u8>,
    armed: bool,
    mask: u8,
    frames: Vec<Frame>,
    pending: Vec<bool>,
}

impl<H: Copy> Dispatcher<H> {
    /// The state as the model sees it.
    pub closed spec fn view(&self) -> Model<H> {
        Model {
            levels: self.levels,
            tasks: self.tasks@,
            ceilings: self.ceilings@,
            armed: self.armed,
            mask: self.mask,
            frames: self.frames@,
            pending: self.pending@,
        }
    }

    /// The invariant that `init` establishes and every operation keeps.
    pub open spec fn wf(&self) -> bool {
        self@.wf()
    }

    /// The initialisation phase: checks the configuration and, if it holds,
    /// builds a dispatcher that is not armed yet, with nothing running and
    /// nothing pending. The result depends on the configuration alone.
    pub fn init(config: Config<H>) -> (r: Result<Self, ConfigError>)
        ensures
            match r {
                Ok(d) => {
                    &&& config.verdict() is None
                    &&& d.wf()
                    &&& d@ == Model::initial(config.levels, config.tasks@, config.ceilings@)
                },
                Err(e) => config.verdict() == Some(e),
            },
    {
        match config.validate() {
            Err(e) => Err(e),
            Ok(_) => {
                let mut pending: Vec<bool> = Vec::new();
                let mut i: usize = 0;
                while i < config.tasks.len()
                    invariant
                        i <= config.tasks.len(),
                        pending@.len() == i,
                        forall|j: int| 0 <= j < i ==> !pending@[j],
                    decreases config.tasks.len() - i,
                {
                    pending.push(false);
                    i += 1;
                }
                let d = Dispatcher {
                    levels: config.levels,
                    tasks: config.tasks,
                    ceilings: config.ceilings,
                    armed: false,
                    mask: 0,
                    frames: Vec::new(),
                    pending,
                };
                assert(d@.pending =~= Model::initial(config.levels, config.tasks@, config.ceilings@).pending);
                Ok(d)
            },
        }
    }

    /// Ends initialisation: from now on interrupts are taken.
    pub fn arm(&mut self)
        requires
            old(self).wf(),
        ensures
            final(self).wf(),
            final(self)@ == old(self)@.armed_state(),
            final(self)@ == old(self)@.after(Event::Arm),
    {
        proof {
            self@.lemma_armed_wf();
        }
        self.armed = true;
    }

    /// Whether initialisation has ended.
    pub fn is_armed(&self) -> (armed: bool)
        ensures
            armed == self@.armed,
    {
        self.armed
    }

    /// The threshold that holds now.
    pub fn threshold(&self) -> (t: Threshold)
        ensures
            t@ == self@.mask,
    {
        Threshold::new(self.mask)
    }

    /// The ceiling of `resource`, if the resource table holds it.
    pub fn ceiling(&self, resource: usize) -> (c: Option<u8>)
        ensures
            c == (if resource < self@.ceilings.len() {
                Some(self@.ceilings[resource as int])
            } else {
                None
            }),
    {
        if resource < self.ceilings.len() {
            Some(self.ceilings[resource])
        } else {
            None
        }
    }

    /// The task whose handler is running, if any.
    pub fn running(&self) -> (task: Option<usize>)
        ensures
            task == (if self@.frames.len() == 0 {
                None
            } else {
                Some(self@.frames.last().task)
            }),
    {
        let n = self.frames.len();
        if n == 0 {
            None
        } else {
            Some(self.frames[n - 1].task)
        }
    }

    /// Whether the interrupt of task `task` is latched and waiting.
    pub fn is_pending(&self, task: usize) -> (pending: bool)
        ensures
            pending == (task < self@.pending.len() && self@.pending[task as int]),
    {
        task < self.pending.len() && self.pending[task]
    }

    /// The task bound to `source`, if any.
    pub fn task_for(&self, source: u16) -> (task: Option<usize>)
        ensures
            match task {
                Some(i) => {
                    &&& self@.bound_to(source, i as int)
                    &&& forall|j: int| 0 <= j < i ==> !self@.bound_to(source, j)
                },
                None => !self@.has_source(source),
            },
    {
        let mut i: usize = 0;
        while i < self.tasks.len()
            invariant
                i <= self.tasks.len(),
                forall|j: int| 0 <= j < i ==> !self@.bound_to(source, j),
            decreases self.tasks.len() - i,
        {
            if self.tasks[i].source == source {
                return Some(i);
            }
            i += 1;
        }
        None
    }

    /// The task that holds a claim on `resource`, if any.
    pub fn holder(&self, resource: usize) -> (task: Option<usize>)
        ensures
            match task {
                Some(t) => self@.holds(t as int, resource) && (self.wf() ==> forall|other: int|
                    self@.holds(other, resource) ==> other == t),
                None => !self@.held(resource),
            },
    {
        let mut k: usize = 0;
        while k < self.frames.len()
            invariant
                k <= self.frames.len(),
                forall|j: int| 0 <= j < k ==> (#[trigger] self@.frames[j]).claim != Some(resource),
            decreases self.frames.len() - k,
        {
            let f = self.frames[k];
            match f.claim {
                Some(r) => {
                    if r == resource {
                        proof {
                            if self.wf() {
                                assert forall|other: int| self@.holds(other, resource) implies other
                                    == f.task by {
                                    self@.lemma_single_holder(other, f.task as int, resource);
                                }
                            }
                        }
                        return Some(f.task);
                    }
                },
                None => {},
            }
            k += 1;
        }
        None
    }

    /// Runs initialisation again: whatever was running or pending is
    /// dropped, and the dispatcher is as `init` left it, not armed.
    pub fn reset(&mut self)
        requires
            old(self).wf(),
        ensures
            final(self).wf(),
            final(self)@ == old(self)@.reinitialised(),
            final(self)@ == old(self)@.after(Event::Reset),
    {
        self.armed = false;
        self.mask = 0;
        self.frames.clear();
        let mut i: usize = 0;
        while i < self.pending.len()
            invariant
                i <= self.pending.len(),
                self.pending@.len() == old(self).pending@.len(),
                forall|j: int| 0 <= j < i ==> !self.pending@[j],
                self.levels == old(self).levels,
                self.tasks == old(self).tasks,
                self.ceilings == old(self).ceilings,
                !self.armed,
                self.mask == 0,
                self.frames@.len() == 0,
            decreases self.pending.len() - i,
        {
            self.pending.set(i, false);
            i += 1;
        }
        assert(self@.pending =~= old(self)@.reinitialised().pending);
        assert(self@.frames =~= old(self)@.reinitialised().frames);
    }

    /// Latches the interrupt of `source`: it stays pending until its task is
    /// entered.
    pub fn pend(&mut self, source: u16) -> (r: Result<usize, DispatchError>)
        requires
            old(self).wf(),
        ensures
            final(self).wf(),
            final(self)@ == old(self)@.after(Event::Pend(source)),
            match r {
                Ok(i) => old(self)@.bound_to(source, i as int) && final(self)@ == old(self)@.latched(i),
                Err(e) => {
                    &&& e == DispatchError::UnknownSource
                    &&& !old(self)@.has_source(source)
                    &&& final(self)@ == old(self)@
                },
            },
    {
        match self.task_for(source) {
            None => Err(DispatchError::UnknownSource),
            Some(i) => {
                proof {
                    self@.lemma_latched_wf(i);
                    self@.lemma_task_of(source, i);
                }
                self.pending.set(i, true);
                Ok(i)
            },
        }
    }

    /// The task that is taken next: among the tasks that are pending and
    /// above the mask, the one of the highest priority, and the first in the
    /// table among equals.
    pub fn next(&self) -> (task: Option<usize>)
        requires
            self.wf(),
        ensures
            match task {
                Some(i) => self@.next_is(i as int),
                None => forall|j: int| !self@.ready(j),
            },
    {
        if !self.armed {
            return None;
        }
        let mut best: Option<usize> = None;
        let mut i: usize = 0;
        while i < self.tasks.len()
            invariant
                self.wf(),
                self.armed,
                i <= self.tasks.len(),
                match best {
                    Some(b) => {
                        &&& b < i
                        &&& self@.ready(b as int)
                        &&& forall|j: int|
                            0 <= j < i && #[trigger] self@.ready(j) ==> self@.tasks[j].priority
                                < self@.tasks[b as int].priority || (self@.tasks[j].priority
                                == self@.tasks[b as int].priority && b <= j)
                    },
                    None => forall|j: int| 0 <= j < i ==> !self@.ready(j),
                },
            decreases self.tasks.len() - i,
        {
            if self.pending[i] && self.tasks[i].priority > self.mask {
                match best {
                    Some(b) => {
                        if self.tasks[i].priority > self.tasks[b].priority {
                            best = Some(i);
                        }
                    },
                    None => {
                        best = Some(i);
                    },
                }
            }
            i += 1;
        }
        best
    }

    /// One turn of the idle loop. Idle runs only when no scope is open; it
    /// holds no claim, so whatever is ready preempts it.
    pub fn idle(&self) -> (action: IdleAction)
        requires
            self.wf(),
        ensures
            match action {
                IdleAction::NotIdle => !self@.armed || self@.frames.len() > 0,
                IdleAction::Dispatch(i) => {
                    &&& self@.armed
                    &&& self@.frames.len() == 0
                    &&& self@.next_is(i as int)
                },
                IdleAction::Sleep => {
                    &&& self@.armed
                    &&& self@.frames.len() == 0
                    &&& forall|j: int| !self@.ready(j)
                },
            },
    {
        if !self.armed || self.frames.len() > 0 {
            IdleAction::NotIdle
        } else {
            match self.next() {
                Some(i) => IdleAction::Dispatch(i),
                None => IdleAction::Sleep,
            }
        }
    }

    /// Entry of the interrupt of `source`. The task bound to it is entered
    /// only if its priority is above the mask: the mask is saved and raised
    /// to the task's priority, and the interrupt is no longer pending.
    /// Otherwise nothing changes.
    pub fn on_interrupt(&mut self, source: u16) -> (r: Result<Dispatch<H>, DispatchError>)
        requires
            old(self).wf(),
        ensures
            final(self).wf(),
            final(self)@ == old(self)@.after(Event::Interrupt(source)),
            match r {
                Ok(d) => {
                    &&& old(self)@.entry_refusal(source) is None
                    &&& old(self)@.bound_to(source, d.task as int)
                    &&& final(self)@ == old(self)@.entered(d.task)
                    &&& d.handler == old(self)@.tasks[d.task as int].handler
                    &&& d.threshold@ == old(self)@.tasks[d.task as int].priority
                },
                Err(e) => {
                    &&& old(self)@.entry_refusal(source) == Some(e)
                    &&& final(self)@ == old(self)@
                },
            },
    {
        if !self.armed {
            return Err(DispatchError::NotArmed);
        }
        match self.task_for(source) {
            None => Err(DispatchError::UnknownSource),
            Some(i) => {
                let priority = self.tasks[i].priority;
                if priority <= self.mask {
                    return Err(DispatchError::Masked);
                }
                proof {
                    self@.lemma_entered_wf(i);
                    self@.lemma_task_of(source, i);
                }
                let handler = self.tasks[i].handler;
                self.frames.push(Frame { task: i, claim: None, saved: self.mask });
                self.mask = priority;
                self.pending.set(i, false);
                Ok(Dispatch { task: i, handler, threshold: Threshold::new(priority) })
            },
        }
    }

    /// Takes the interrupt of `source` from entry to return: enters the task
    /// as `on_interrupt` does, runs `run` on the task's handler under a
    /// threshold at the task's priority, and restores the mask as `on_return`
    /// does. A refused entry runs nothing and changes nothing.
    pub fn dispatch<R, F>(&mut self, source: u16, run: F) -> (r: Result<R, DispatchError>) where
        F: FnOnce(H, &mut Threshold) -> R,

        requires
            old(self).wf(),
            forall|i: int, th: &mut Threshold|
                old(self)@.bound_to(source, i) && th@ == old(self)@.tasks[i].priority
                    ==> call_requires(run, (old(self)@.tasks[i].handler, th)),
        ensures
            final(self).wf(),
            match r {
                Ok(ret) => {
                    &&& old(self)@.entry_refusal(source) is None
                    &&& forall|i: usize|
                        old(self)@.bound_to(source, i as int) ==> {
                            &&& final(self)@ == old(self)@.served(i)
                            &&& exists|th: &mut Threshold|
                                th@ == old(self)@.tasks[i as int].priority && call_ensures(
                                    run,
                                    (old(self)@.tasks[i as int].handler, th),
                                    ret,
                                )
                        }
                },
                Err(e) => {
                    &&& old(self)@.entry_refusal(source) == Some(e)
                    &&& final(self)@ == old(self)@
                },
            },
    {
        match self.on_interrupt(source) {
            Err(e) => Err(e),
            Ok(d) => {
                let mut threshold = d.threshold;
                let ret = run(d.handler, &mut threshold);
                let _ = self.on_return();
                assert(self@.frames =~= old(self)@.frames);
                Ok(ret)
            },
        }
    }

    /// The running task's handler returned: its scope is closed and the mask
    /// it found is restored. Answers with the threshold of the context that
    /// resumes.
    pub fn on_return(&mut self) -> (r: Result<Threshold, DispatchError>)
        requires
            old(self).wf(),
        ensures
            final(self).wf(),
            final(self)@ == old(self)@.after(Event::Return),
            match r {
                Ok(t) => {
                    &&& old(self)@.frames.len() > 0
                    &&& old(self)@.frames.last().claim is None
                    &&& final(self)@ == old(self)@.closed_scope()
                    &&& t@ == old(self)@.frames.last().saved
                },
                Err(e) => {
                    &&& final(self)@ == old(self)@
                    &&& match e {
                        DispatchError::NoActiveTask => old(self)@.frames.len() == 0,
                        DispatchError::ClaimOutstanding => old(self)@.frames.len() > 0 && old(
                            self,
                        )@.frames.last().claim is Some,
                        _ => false,
                    }
                },
            },
    {
        let n = self.frames.len();
        if n == 0 {
            return Err(DispatchError::NoActiveTask);
        }
        let top = self.frames[n - 1];
        if top.claim.is_some() {
            return Err(DispatchError::ClaimOutstanding);
        }
        proof {
            self@.lemma_closed_scope_wf();
        }
        self.frames.pop();
        self.mask = top.saved;
        Ok(Threshold::new(top.saved))
    }

    /// The running task claims `resource`: the mask is saved and raised to
    /// the resource's ceiling. Answers with the threshold that holds inside
    /// the claim. A refused claim changes nothing.
    pub fn claim(&mut self, resource: usize) -> (r: Result<Threshold, ClaimError>)
        requires
            old(self).wf(),
        ensures
            final(self).wf(),
            final(self)@ == old(self)@.after(Event::Claim(resource)),
            match r {
                Ok(t) => {
                    &&& old(self)@.claim_refusal(resource) is None
                    &&& final(self)@ == old(self)@.claimed(resource)
                    &&& t@ == old(self)@.ceilings[resource as int]
                },
                Err(e) => {
                    &&& old(self)@.claim_refusal(resource) == Some(e)
                    &&& final(self)@ == old(self)@
                },
            },
    {
        let n = self.frames.len();
        if n == 0 {
            return Err(ClaimError::NoActiveTask);
        }
        if resource >= self.ceilings.len() {
            return Err(ClaimError::UnknownResource);
        }
        let task = self.frames[n - 1].task;
        proof {
            assert(self@.frame_ok(n - 1));
        }
        if !self.tasks[task].may_access(resource) {
            return Err(ClaimError::OutsideAccessSet);
        }
        if self.holder(resource).is_some() {
            return Err(ClaimError::AlreadyHeld);
        }
        let ceiling = self.ceilings[resource];
        if ceiling < self.mask {
            return Err(ClaimError::CeilingBelowThreshold);
        }
        proof {
            self@.lemma_claimed_wf(resource);
        }
        self.frames.push(Frame { task, claim: Some(resource), saved: self.mask });
        self.mask = ceiling;
        Ok(Threshold::new(ceiling))
    }

    /// The innermost claim ends: its scope is closed and the mask it found
    /// is restored. Answers with the threshold that holds again.
    pub fn release(&mut self) -> (r: Result<Threshold, ClaimError>)
        requires
            old(self).wf(),
        ensures
            final(self).wf(),
            final(self)@ == old(self)@.after(Event::Release),
            match r {
                Ok(t) => {
                    &&& old(self)@.frames.len() > 0
                    &&& old(self)@.frames.last().claim is Some
                    &&& final(self)@ == old(self)@.closed_scope()
                    &&& t@ == old(self)@.frames.last().saved
                },
                Err(e) => {
                    &&& final(self)@ == old(self)@
                    &&& e == ClaimError::NothingClaimed
                    &&& (old(self)@.frames.len() == 0 || old(self)@.frames.last().claim is None)
                },
            },
    {
        let n = self.frames.len();
        if n == 0 {
            return Err(ClaimError::NothingClaimed);
        }
        let top = self.frames[n - 1];
        if top.claim.is_none() {
            return Err(ClaimError::NothingClaimed);
        }
        proof {
            self@.lemma_closed_scope_wf();
        }
        self.frames.pop();
        self.mask = top.saved;
        Ok(Threshold::new(top.saved))
    }
}

} // verus!
