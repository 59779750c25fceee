//! The configuration surface: the task table and the resource table, and
//! the checks that run on them before a dispatcher may be armed.

use vstd::prelude::*;
use crate::error::ConfigError;
use crate::model::{ceilings_exact, is_ceiling, priorities_in_range, resources_known, sources_distinct};
use crate::task::TaskDescriptor;

verus! {

/// What is declared once, at startup.
pub struct Config<H> {
    /// Number of priority levels above idle that the hardware offers.
    pub levels: u8,
    /// The task table.
    pub tasks: Vec<TaskDescriptor<H>>,
    /// The resource table: the ceiling of each resource, by identifier.
    pub ceilings: Vec<u8>,
}

/// A resource has one ceiling only.
pub proof fn lemma_ceiling_unique<H>(tasks: Seq<TaskDescriptor<H>>, resource: usize, a: u8, b: u8)
    requires
        is_ceiling(tasks, resource, a),
        is_ceiling(tasks, resource, b),
    ensures
        a == b,
{
}

/// The ceiling of `resource` under the task table `tasks`.
pub fn ceiling_of<H>(tasks: &Vec<TaskDescriptor<H>>, resource: usize) -> (c: u8)
    ensures
        is_ceiling(tasks@, resource, c),
{
    let mut c: u8 = 0;
    let mut i: usize = 0;
    while i < tasks.len()
        invariant
            i <= tasks.len(),
            forall|j: int| 0 <= j < i && (#[trigger] tasks@[j]).accesses(resource) ==> tasks@[j].priority <= c,
            c == 0 || exists|j: int| 0 <= j < i && (#[trigger] tasks@[j]).accesses(resource) && tasks@[j].priority == c,
        decreases tasks.len() - i,
    {
        if tasks[i].may_access(resource) && tasks[i].priority > c {
            c = tasks[i].priority;
        }
        i += 1;
    }
    c
}

impl<H> Config<H> {
    /// The first check that the configuration fails, if any: priorities,
    /// then access sets, then interrupt sources, then ceilings.
    pub open spec fn verdict(&self) -> Option<ConfigError> {
        if !priorities_in_range(self.levels, self.tasks@) {
            Some(ConfigError::PriorityOutOfRange)
        } else if !resources_known(self.tasks@, self.ceilings@.len()) {
            Some(ConfigError::UnknownResource)
        } else if !sources_distinct(self.tasks@) {
            Some(ConfigError::DuplicateSource)
        } else if !ceilings_exact(self.tasks@, self.ceilings@) {
            Some(ConfigError::CeilingMismatch)
        } else {
            None
        }
    }

    /// A configuration for `resources` resources whose ceilings are computed
    /// from the access sets of `tasks`.
    pub fn new(levels: u8, tasks: Vec<TaskDescriptor<H>>, resources: usize) -> (config: Self)
        ensures
            config.levels == levels,
            config.tasks == tasks,
            config.ceilings@.len() == resources,
            ceilings_exact(tasks@, config.ceilings@),
    {
        let mut ceilings: Vec<u8> = Vec::new();
        let mut r: usize = 0;
        while r < resources
            invariant
                r <= resources,
                ceilings@.len() == r,
                ceilings_exact(tasks@, ceilings@),
            decreases resources - r,
        {
            let c = ceiling_of(&tasks, r);
            ceilings.push(c);
            r += 1;
        }
        Config { levels, tasks, ceilings }
    }

    fn check_priorities(&self) -> (ok: bool)
        ensures
            ok == priorities_in_range(self.levels, self.tasks@),
    {
        let mut i: usize = 0;
        while i < self.tasks.len()
            invariant
                i <= self.tasks.len(),
                forall|j: int| 0 <= j < i ==> 1 <= (#[trigger] self.tasks@[j]).priority <= self.levels,
            decreases self.tasks.len() - i,
        {
            let p = self.tasks[i].priority;
            if p == 0 || p > self.levels {
                return false;
            }
            i += 1;
        }
        true
    }

    fn check_resources(&self) -> (ok: bool)
        ensures
            ok == resources_known(self.tasks@, self.ceilings@.len()),
    {
        let mut i: usize = 0;
        while i < self.tasks.len()
            invariant
                i <= self.tasks.len(),
                forall|j: int, k: int|
                    0 <= j < i && 0 <= k < self.tasks@[j].resources@.len()
                        ==> (#[trigger] self.tasks@[j].resources@[k]) < self.ceilings@.len(),
            decreases self.tasks.len() - i,
        {
            let mut k: usize = 0;
            while k < self.tasks[i].resources.len()
                invariant
                    i < self.tasks.len(),
                    k <= self.tasks@[i as int].resources@.len(),
                    forall|l: int|
                        0 <= l < k ==> (#[trigger] self.tasks@[i as int].resources@[l]) < self.ceilings@.len(),
                decreases self.tasks@[i as int].resources@.len() - k,
            {
                if self.tasks[i].resources[k] >= self.ceilings.len() {
                    return false;
                }
                k += 1;
            }
            i += 1;
        }
        true
    }

    fn check_sources(&self) -> (ok: bool)
        ensures
            ok == sources_distinct(self.tasks@),
    {
        let mut j: usize = 0;
        while j < self.tasks.len()
            invariant
                j <= self.tasks.len(),
                forall|a: int, b: int|
                    0 <= a < b < j ==> (#[trigger] self.tasks@[a]).source != (#[trigger] self.tasks@[b]).source,
            decreases self.tasks.len() - j,
        {
            let mut i: usize = 0;
            while i < j
                invariant
                    i <= j < self.tasks.len(),
                    forall|a: int| 0 <= a < i ==> (#[trigger] self.tasks@[a]).source != self.tasks@[j as int].source,
                decreases j - i,
            {
                if self.tasks[i].source == self.tasks[j].source {
                    return false;
                }
                i += 1;
            }
            j += 1;
        }
        true
    }

    fn check_ceilings(&self) -> (ok: bool)
        ensures
            ok == ceilings_exact(self.tasks@, self.ceilings@),
    {
        let mut r: usize = 0;
        while r < self.ceilings.len()
            invariant
                r <= self.ceilings.len(),
                forall|q: usize| 0 <= q < r ==> is_ceiling(self.tasks@, q, #[trigger] self.ceilings@[q as int]),
            decreases self.ceilings.len() - r,
        {
            let c = ceiling_of(&self.tasks, r);
            if c != self.ceilings[r] {
                proof {
                    if is_ceiling(self.tasks@, r, self.ceilings@[r as int]) {
                        lemma_ceiling_unique(self.tasks@, r, c, self.ceilings@[r as int]);
                    }
                }
                return false;
            }
            r += 1;
        }
        true
    }

    /// Checks the configuration and names the first check that fails.
    pub fn validate(&self) -> (r: Result<(), ConfigError>)
        ensures
            match r {
                Ok(_) => self.verdict() is None,
                Err(e) => self.verdict() == Some(e),
            },
    {
        if !self.check_priorities() {
            Err(ConfigError::PriorityOutOfRange)
        } else if !self.check_resources() {
            Err(ConfigError::UnknownResource)
        } else if !self.check_sources() {
            Err(ConfigError::DuplicateSource)
        } else if !self.check_ceilings() {
            Err(ConfigError::CeilingMismatch)
        } else {
            Ok(())
        }
    }
}

} // verus!
