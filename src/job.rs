//! Jobs and the workflow document that holds them.

use vstd::prelude::*;
use crate::instruction::{Inst, InstView};

verus! {

/// A named unit of work: whether it runs, the pause before each of its
/// instructions (in seconds), and its instructions in execution order.
pub struct Task {
    pub name: String,
    pub enable: bool,
    pub sleep: u64,
    pub insts: Vec<Inst>,
}

pub struct TaskView {
    pub name: Seq<char>,
    pub enable: bool,
    pub sleep: u64,
    pub insts: Seq<InstView>,
}

impl View for Task {
    type V = TaskView;

    open spec fn view(&self) -> TaskView {
        TaskView {
            name: self.name@,
            enable: self.enable,
            sleep: self.sleep,
            insts: self.insts@.map_values(|i: Inst| i@),
        }
    }
}

/// The workflow document: a display name and its jobs, in source order.
pub struct Workflows {
    pub name: String,
    pub jobs: Vec<Task>,
}

pub struct WorkflowsView {
    pub name: Seq<char>,
    pub jobs: Seq<TaskView>,
}

impl View for Workflows {
    type V = WorkflowsView;

    open spec fn view(&self) -> WorkflowsView {
        WorkflowsView { name: self.name@, jobs: self.jobs@.map_values(|t: Task| t@) }
    }
}

/// A job setting that cannot be used.
#[derive(Debug, Clone, Copy, PartialEq, Eq, Structural)]
pub enum ConfigError {
    /// A pause given as a negative number of seconds.
    InvalidDelay { value: i64 },
}

/// The pause of `secs` seconds, which must not be negative.
pub fn delay_from_secs(secs: i64) -> (r: Result<u64, ConfigError>)
    ensures
        secs >= 0 ==> r == Ok::<u64, ConfigError>(secs as u64),
        secs < 0 ==> r == Err::<u64, ConfigError>(ConfigError::InvalidDelay { value: secs }),
{
    if secs < 0 {
        Err(ConfigError::InvalidDelay { value: secs })
    } else {
        Ok(secs as u64)
    }
}

impl Task {
    /// A job with no instructions yet.
    pub fn new(name: String, enable: bool, sleep: u64) -> (r: Self)
        ensures
            r@ == (TaskView { name: name@, enable, sleep, insts: Seq::empty() }),
    {
        let r = Self { name, enable, sleep, insts: Vec::new() };
        assert(r@.insts =~= Seq::<InstView>::empty());
        r
    }

    /// Appends `inst` to the instructions.
    pub fn push(&mut self, inst: Inst)
        ensures
            final(self)@ == (TaskView { insts: old(self)@.insts.push(inst@), ..old(self)@ }),
    {
        self.insts.push(inst);
        assert(self@.insts =~= old(self)@.insts.push(inst@));
    }
}

} // verus!
