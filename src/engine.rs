//! Running one job: a state machine that decides, instruction by
//! instruction, what to ask of the browser, and keeps the located element.
//!
//! The caller performs each action and answers with the matching event:
//! `Pause` with `Resumed`, `Find` with `Found`, `SendText` and `Click` with
//! `Succeeded` or `Failed`. `Finish` ends the job.

use vstd::prelude::*;
use crate::instruction::InstType;
use crate::job::{Task, TaskView};

verus! {

/// Why a job stopped before its end.
#[derive(Debug, Clone, PartialEq, Eq)]
pub enum ExecutionError {
    /// `@send` or `@click` came before any element was located.
    NoCurrentElement { job_name: String, index: usize, line: String },
    /// The browser refused a `@send` or `@click`.
    BrowserCallFailed { job_name: String, index: usize, line: String },
}

/// The two ways a job stops early.
#[derive(Debug, Clone, Copy, PartialEq, Eq, Structural)]
pub enum Failure {
    NoCurrentElement,
    BrowserCallFailed,
}

pub struct ExecutionErrorView {
    pub failure: Failure,
    pub job_name: Seq<char>,
    pub index: int,
    pub line: Seq<char>,
}

impl View for ExecutionError {
    type V = ExecutionErrorView;

    open spec fn view(&self) -> ExecutionErrorView {
        match self {
            ExecutionError::NoCurrentElement { job_name, index, line } => ExecutionErrorView {
                failure: Failure::NoCurrentElement,
                job_name: job_name@,
                index: *index as int,
                line: line@,
            },
            ExecutionError::BrowserCallFailed { job_name, index, line } => ExecutionErrorView {
                failure: Failure::BrowserCallFailed,
                job_name: job_name@,
                index: *index as int,
                line: line@,
            },
        }
    }
}

/// What the caller tells the run after performing an action.
#[derive(Debug, Clone, Copy, PartialEq, Eq, Structural)]
pub enum Event {
    /// The pause is over.
    Resumed,
    /// The lookup ended; `element` is the handle of what was found, if anything.
    Found { element: Option<u64> },
    /// The browser performed the call.
    Succeeded,
    /// The browser refused the call.
    Failed,
}

/// What the run asks of the caller.
#[derive(Debug)]
pub enum Action {
    /// Wait `secs` seconds.
    Pause { secs: u64 },
    /// Look up an element by `selector`.
    Find { selector: String },
    /// Type `text` into `element`.
    SendText { element: u64, text: String },
    /// Click `element`.
    Click { element: u64 },
    /// The job is over, with this outcome.
    Finish { outcome: Result<(), ExecutionError> },
}

pub enum ActionView {
    Pause { secs: u64 },
    Find { selector: Seq<char> },
    SendText { element: u64, text: Seq<char> },
    Click { element: u64 },
    Finish { outcome: Result<(), ExecutionErrorView> },
}

impl View for Action {
    type V = ActionView;

    open spec fn view(&self) -> ActionView {
        match self {
            Action::Pause { secs } => ActionView::Pause { secs: *secs },
            Action::Find { selector } => ActionView::Find { selector: selector@ },
            Action::SendText { element, text } => ActionView::SendText {
                element: *element,
                text: text@,
            },
            Action::Click { element } => ActionView::Click { element: *element },
            Action::Finish { outcome } => ActionView::Finish {
                outcome: match outcome {
                    Ok(()) => Ok(()),
                    Err(e) => Err(e@),
                },
            },
        }
    }
}

/// What the run waits for.
#[derive(Debug, Clone, Copy, PartialEq, Eq, Structural)]
pub enum Phase {
    Pausing,
    Finding,
    Calling,
    /// The job is over: at its end (`None`), or stopped at the current
    /// instruction.
    Finished { failure: Option<Failure> },
}

/// The state of a run: the instruction under way, the located element, and
/// what the run waits for.
pub struct RunView {
    pub pos: int,
    pub current: Option<u64>,
    pub phase: Phase,
}

/// The error for instruction `i` of `job`.
pub open spec fn error_at(job: TaskView, i: int, f: Failure) -> ExecutionErrorView {
    ExecutionErrorView { failure: f, job_name: job.name, index: i, line: job.insts[i].text }
}

/// Stopping at instruction `i` with `f`.
pub open spec fn stop_at(job: TaskView, i: int, cur: Option<u64>, f: Failure) -> (RunView, ActionView) {
    (
        RunView { pos: i, current: cur, phase: Phase::Finished { failure: Some(f) } },
        ActionView::Finish { outcome: Err(error_at(job, i, f)) },
    )
}

/// Taking up instruction `i` with `cur` located: first its pause (unless
/// `paused`, or the job has none), then its call. `@loop` and `@end` ask
/// for nothing and pass on to the next instruction; past the last one the
/// job is over.
pub open spec fn issue(job: TaskView, i: int, cur: Option<u64>, paused: bool) -> (RunView, ActionView)
    decreases job.insts.len() - i, if paused { 0int } else { 1int },
{
    if i < 0 || i >= job.insts.len() {
        (
            RunView { pos: i, current: cur, phase: Phase::Finished { failure: None } },
            ActionView::Finish { outcome: Ok(()) },
        )
    } else if !paused && job.sleep > 0 {
        (RunView { pos: i, current: cur, phase: Phase::Pausing }, ActionView::Pause { secs: job.sleep })
    } else {
        let inst = job.insts[i];
        match inst.kind {
            InstType::LOC => (
                RunView { pos: i, current: cur, phase: Phase::Finding },
                ActionView::Find { selector: inst.value },
            ),
            InstType::SEND => match cur {
                Some(e) => (
                    RunView { pos: i, current: cur, phase: Phase::Calling },
                    ActionView::SendText { element: e, text: inst.value },
                ),
                None => stop_at(job, i, cur, Failure::NoCurrentElement),
            },
            InstType::CLICK => match cur {
                Some(e) => (
                    RunView { pos: i, current: cur, phase: Phase::Calling },
                    ActionView::Click { element: e },
                ),
                None => stop_at(job, i, cur, Failure::NoCurrentElement),
            },
            _ => issue(job, i + 1, cur, false),
        }
    }
}

/// The element located after a lookup that gave `found`: what was found, or
/// on a miss the earlier element (or none, when `strict`).
pub open spec fn after_lookup(cur: Option<u64>, found: Option<u64>, strict: bool) -> Option<u64> {
    match found {
        Some(e) => Some(e),
        None => if strict { None } else { cur },
    }
}

/// The action that state `s` waits on.
pub open spec fn pending(job: TaskView, s: RunView) -> ActionView {
    match s.phase {
        Phase::Pausing => ActionView::Pause { secs: job.sleep },
        Phase::Finding => ActionView::Find { selector: job.insts[s.pos].value },
        Phase::Calling => if job.insts[s.pos].kind == InstType::SEND {
            ActionView::SendText { element: s.current->0, text: job.insts[s.pos].value }
        } else {
            ActionView::Click { element: s.current->0 }
        },
        Phase::Finished { failure } => ActionView::Finish {
            outcome: match failure {
                None => Ok(()),
                Some(f) => Err(error_at(job, s.pos, f)),
            },
        },
    }
}

/// One transition: the answer `ev` to the action that `s` waits on. An
/// event that answers nothing pending leaves the state as it is and repeats
/// the pending action.
pub open spec fn next(job: TaskView, s: RunView, strict: bool, ev: Event) -> (RunView, ActionView) {
    match (s.phase, ev) {
        (Phase::Pausing, Event::Resumed) => issue(job, s.pos, s.current, true),
        (Phase::Finding, Event::Found { element }) => issue(
            job,
            s.pos + 1,
            after_lookup(s.current, element, strict),
            false,
        ),
        (Phase::Calling, Event::Succeeded) => issue(job, s.pos + 1, s.current, false),
        (Phase::Calling, Event::Failed) => stop_at(job, s.pos, s.current, Failure::BrowserCallFailed),
        _ => (s, pending(job, s)),
    }
}

/// Whether `s` is a state that a run of `job` can be in.
pub open spec fn reachable(job: TaskView, s: RunView) -> bool {
    &&& 0 <= s.pos <= job.insts.len()
    &&& match s.phase {
        Phase::Pausing => s.pos < job.insts.len() && job.sleep > 0,
        Phase::Finding => s.pos < job.insts.len() && job.insts[s.pos].kind == InstType::LOC,
        Phase::Calling => s.pos < job.insts.len() && s.current is Some && (job.insts[s.pos].kind
            == InstType::SEND || job.insts[s.pos].kind == InstType::CLICK),
        Phase::Finished { failure: None } => s.pos == job.insts.len(),
        Phase::Finished { failure: Some(_) } => s.pos < job.insts.len(),
    }
}

/// A run of one job.
pub struct JobRun<'a> {
    job: &'a Task,
    strict: bool,
    pos: usize,
    current: Option<u64>,
    phase: Phase,
}

impl<'a> JobRun<'a> {
    pub closed spec fn job(&self) -> TaskView {
        self.job@
    }

    pub closed spec fn strict(&self) -> bool {
        self.strict
    }

    pub closed spec fn state(&self) -> RunView {
        RunView { pos: self.pos as int, current: self.current, phase: self.phase }
    }

    pub open spec fn wf(&self) -> bool {
        reachable(self.job(), self.state())
    }

    /// Starts a run of `job` with no element located. With `strict`, a
    /// lookup that finds nothing also forgets the element located before.
    pub fn start(job: &'a Task, strict: bool) -> (r: (JobRun<'a>, Action))
        ensures
            r.0.wf(),
            r.0.job() == job@,
            r.0.strict() == strict,
            (r.0.state(), r.1@) == issue(job@, 0, None, false),
    {
        let mut run = JobRun { job, strict, pos: 0, current: None, phase: Phase::Finished { failure: None } };
        let action = run.issue_from(0, false);
        (run, action)
    }

    /// Answers the pending action with `ev`, and gives the next action.
    pub fn step(&mut self, ev: Event) -> (r: Action)
        requires
            old(self).wf(),
        ensures
            final(self).wf(),
            final(self).job() == old(self).job(),
            final(self).strict() == old(self).strict(),
            (final(self).state(), r@) == next(old(self).job(), old(self).state(), old(self).strict(), ev),
    {
        match (self.phase, ev) {
            (Phase::Pausing, Event::Resumed) => self.issue_from(self.pos, true),
            (Phase::Finding, Event::Found { element }) => {
                let n = self.job.insts.len();
                assert(self.pos < n);
                let cur = match element {
                    Some(e) => Some(e),
                    None => if self.strict { None } else { self.current },
                };
                self.current = cur;
                self.issue_from(self.pos + 1, false)
            },
            (Phase::Calling, Event::Succeeded) => {
                let n = self.job.insts.len();
                assert(self.pos < n);
                self.issue_from(self.pos + 1, false)
            },
            (Phase::Calling, Event::Failed) => {
                self.phase = Phase::Finished { failure: Some(Failure::BrowserCallFailed) };
                Action::Finish { outcome: Err(self.error(Failure::BrowserCallFailed)) }
            },
            _ => self.pending_action(),
        }
    }

    /// The element located now, if any.
    pub fn current(&self) -> (r: Option<u64>)
        ensures
            r == self.state().current,
    {
        self.current
    }

    /// The index of the instruction under way (the length of the job once
    /// it has run to its end).
    pub fn position(&self) -> (r: usize)
        ensures
            r == self.state().pos,
    {
        self.pos
    }

    /// Whether the job is over.
    pub fn is_finished(&self) -> (r: bool)
        ensures
            r == self.state().phase is Finished,
    {
        match self.phase {
            Phase::Finished { .. } => true,
            _ => false,
        }
    }

    /// The error for the instruction under way.
    fn error(&self, f: Failure) -> (r: ExecutionError)
        requires
            self.pos < self.job.insts@.len(),
        ensures
            r@ == error_at(self.job(), self.pos as int, f),
    {
        let inst = &self.job.insts[self.pos];
        match f {
            Failure::NoCurrentElement => ExecutionError::NoCurrentElement {
                job_name: self.job.name.clone(),
                index: self.pos,
                line: inst.text.clone(),
            },
            Failure::BrowserCallFailed => ExecutionError::BrowserCallFailed {
                job_name: self.job.name.clone(),
                index: self.pos,
                line: inst.text.clone(),
            },
        }
    }

    /// The action the run waits on.
    fn pending_action(&self) -> (r: Action)
        requires
            self.wf(),
        ensures
            r@ == pending(self.job(), self.state()),
    {
        match self.phase {
            Phase::Pausing => Action::Pause { secs: self.job.sleep },
            Phase::Finding => Action::Find { selector: self.job.insts[self.pos].value.clone() },
            Phase::Calling => {
                let e = match self.current {
                    Some(e) => e,
                    None => 0,
                };
                if self.job.insts[self.pos].inst_type == InstType::SEND {
                    Action::SendText { element: e, text: self.job.insts[self.pos].value.clone() }
                } else {
                    Action::Click { element: e }
                }
            },
            Phase::Finished { failure } => match failure {
                None => Action::Finish { outcome: Ok(()) },
                Some(f) => Action::Finish { outcome: Err(self.error(f)) },
            },
        }
    }

    /// Takes up instruction `pos` with the element located now.
    fn issue_from(&mut self, pos: usize, paused: bool) -> (r: Action)
        requires
            pos <= old(self).job.insts@.len(),
        ensures
            final(self).wf(),
            final(self).job == old(self).job,
            final(self).strict == old(self).strict,
            (final(self).state(), r@) == issue(old(self).job(), pos as int, old(self).current, paused),
    {
        let ghost cur = self.current;
        let ghost job = self.job();
        let n = self.job.insts.len();
        let mut i = pos;
        let mut resumed = paused;
        while i < n
            invariant
                pos <= i <= n == job.insts.len(),
                job == self.job(),
                self.current == cur,
                cur == old(self).current,
                self.job == old(self).job,
                self.strict == old(self).strict,
                issue(job, i as int, cur, resumed) == issue(job, pos as int, cur, paused),
            decreases n - i,
        {
            self.pos = i;
            if !resumed && self.job.sleep > 0 {
                self.phase = Phase::Pausing;
                return Action::Pause { secs: self.job.sleep };
            }
            let inst = &self.job.insts[i];
            assert(inst@ == job.insts[i as int]);
            match inst.inst_type {
                InstType::LOC => {
                    self.phase = Phase::Finding;
                    return Action::Find { selector: inst.value.clone() };
                },
                InstType::SEND => match self.current {
                    Some(e) => {
                        self.phase = Phase::Calling;
                        return Action::SendText { element: e, text: inst.value.clone() };
                    },
                    None => {
                        self.phase = Phase::Finished { failure: Some(Failure::NoCurrentElement) };
                        return Action::Finish { outcome: Err(self.error(Failure::NoCurrentElement)) };
                    },
                },
                InstType::CLICK => match self.current {
                    Some(e) => {
                        self.phase = Phase::Calling;
                        return Action::Click { element: e };
                    },
                    None => {
                        self.phase = Phase::Finished { failure: Some(Failure::NoCurrentElement) };
                        return Action::Finish { outcome: Err(self.error(Failure::NoCurrentElement)) };
                    },
                },
                InstType::LOOP | InstType::END => {
                    i = i + 1;
                    resumed = false;
                },
            }
        }
        self.pos = i;
        self.phase = Phase::Finished { failure: None };
        Action::Finish { outcome: Ok(()) }
    }
}

} // verus!
