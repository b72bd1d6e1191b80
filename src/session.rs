//! A whole run over a document: which job comes next, and when the browser
//! session is closed.

use vstd::prelude::*;
use crate::job::{Workflows, WorkflowsView};

verus! {

/// Progress through the jobs of a document, and whether the browser session
/// has been released.
pub struct Session {
    pub next_job: usize,
    pub closed: bool,
}

/// What the run does next.
#[derive(Debug, Clone, Copy, PartialEq, Eq, Structural)]
pub enum SessionAction {
    /// Run the job at `index` of the document.
    RunJob { index: usize },
    /// Close the browser session: no job is left.
    Close,
    /// Nothing more: the session is closed.
    Done,
}

/// The first enabled job of `w` at or after `from`, if any.
pub open spec fn first_enabled(w: WorkflowsView, from: int) -> Option<int>
    decreases w.jobs.len() - from,
{
    if from < 0 || from >= w.jobs.len() {
        None
    } else if w.jobs[from].enable {
        Some(from)
    } else {
        first_enabled(w, from + 1)
    }
}

/// One step of a run: while the session is open, the next enabled job not
/// yet handed out; once none is left, closing the session; after that,
/// nothing.
pub open spec fn advance_spec(w: WorkflowsView, s: Session) -> (Session, SessionAction) {
    if s.closed {
        (s, SessionAction::Done)
    } else {
        match first_enabled(w, s.next_job as int) {
            Some(i) => (
                Session { next_job: (i + 1) as usize, closed: false },
                SessionAction::RunJob { index: i as usize },
            ),
            None => (
                Session {
                    next_job: if s.next_job >= w.jobs.len() {
                        s.next_job
                    } else {
                        w.jobs.len() as usize
                    },
                    closed: true,
                },
                SessionAction::Close,
            ),
        }
    }
}

/// How many of the next `n` steps from `s` close the session.
pub open spec fn closes(w: WorkflowsView, s: Session, n: nat) -> nat
    decreases n,
{
    if n == 0 {
        0
    } else {
        let (t, a) = advance_spec(w, s);
        (if a is Close {
            1nat
        } else {
            0nat
        }) + closes(w, t, (n - 1) as nat)
    }
}

impl Session {
    /// A session before its first job, with the browser open.
    pub fn new() -> (r: Self)
        ensures
            r == (Session { next_job: 0, closed: false }),
    {
        Session { next_job: 0, closed: false }
    }

    /// The next step of the run. Disabled jobs are passed over and never
    /// handed out; the session is closed once, after the last job.
    pub fn advance(&mut self, w: &Workflows) -> (r: SessionAction)
        ensures
            (*final(self), r) == advance_spec(w@, *old(self)),
    {
        if self.closed {
            return SessionAction::Done;
        }
        proof {
            lemma_first_enabled(w@, self.next_job as int);
        }
        let n = w.jobs.len();
        match self.next_enabled(w) {
            Some(i) => SessionAction::RunJob { index: i },
            None => {
                self.closed = true;
                SessionAction::Close
            },
        }
    }

    /// Hands out no more jobs: the next step closes the session (if it is
    /// still open).
    pub fn stop(&mut self, w: &Workflows)
        ensures
            *final(self) == (Session { next_job: w@.jobs.len() as usize, closed: old(self).closed }),
    {
        self.next_job = w.jobs.len();
    }

    /// The index of the first enabled job not yet handed out.
    fn next_enabled(&mut self, w: &Workflows) -> (r: Option<usize>)
        ensures
            r == (match first_enabled(w@, old(self).next_job as int) {
                Some(i) => Some(i as usize),
                None => None::<usize>,
            }),
            r matches Some(i) ==> final(self).next_job == i + 1,
            r is None ==> final(self).next_job == (if old(self).next_job >= w@.jobs.len() {
                old(self).next_job as int
            } else {
                w@.jobs.len() as int
            }),
            final(self).closed == old(self).closed,
    {
        let n = w.jobs.len();
        let mut i = self.next_job;
        if i >= n {
            return None;
        }
        while i < n
            invariant
                old(self).next_job <= i <= n == w@.jobs.len(),
                first_enabled(w@, i as int) == first_enabled(w@, old(self).next_job as int),
                self.closed == old(self).closed,
            decreases n - i,
        {
            if w.jobs[i].enable {
                self.next_job = i + 1;
                return Some(i);
            }
            i = i + 1;
        }
        self.next_job = n;
        None
    }
}

/// The job that `first_enabled` finds is enabled and lies at or after `from`.
proof fn lemma_first_enabled(w: WorkflowsView, from: int)
    ensures
        first_enabled(w, from) matches Some(i) ==> from <= i < w.jobs.len() && w.jobs[i].enable,
    decreases w.jobs.len() - from,
{
    if 0 <= from < w.jobs.len() && !w.jobs[from].enable {
        lemma_first_enabled(w, from + 1);
    }
}

/// A job handed out by a step is enabled: disabled jobs never run.
pub proof fn lemma_only_enabled_jobs_run(w: WorkflowsView, s: Session)
    requires
        w.jobs.len() <= usize::MAX,
    ensures
        advance_spec(w, s).1 matches SessionAction::RunJob { index } ==> index < w.jobs.len()
            && w.jobs[index as int].enable,
{
    lemma_first_enabled(w, s.next_job as int);
}

/// Whatever the steps, the session is closed at most once: never again once
/// it is closed, at most once while it is open.
pub proof fn lemma_close_at_most_once(w: WorkflowsView, s: Session, n: nat)
    ensures
        closes(w, s, n) <= (if s.closed {
            0nat
        } else {
            1nat
        }),
    decreases n,
{
    if n > 0 {
        let (t, a) = advance_spec(w, s);
        lemma_close_at_most_once(w, t, (n - 1) as nat);
    }
}

/// A run from a fresh session closes the browser exactly once within
/// `jobs.len() + 1` steps (and any number of steps beyond).
pub proof fn lemma_close_exactly_once(w: WorkflowsView, n: nat)
    requires
        w.jobs.len() <= usize::MAX,
        n >= w.jobs.len() + 1,
    ensures
        closes(w, Session { next_job: 0, closed: false }, n) == 1,
{
    lemma_open_session_closes(w, Session { next_job: 0, closed: false }, n);
}

/// From an open session with `next_job <= jobs.len()`, enough steps close it
/// exactly once.
proof fn lemma_open_session_closes(w: WorkflowsView, s: Session, n: nat)
    requires
        w.jobs.len() <= usize::MAX,
        !s.closed,
        s.next_job <= w.jobs.len(),
        n >= w.jobs.len() - s.next_job + 1,
    ensures
        closes(w, s, n) == 1,
    decreases n,
{
    let (t, a) = advance_spec(w, s);
    lemma_first_enabled(w, s.next_job as int);
    match first_enabled(w, s.next_job as int) {
        Some(i) => {
            lemma_open_session_closes(w, t, (n - 1) as nat);
        },
        None => {
            lemma_close_at_most_once(w, t, (n - 1) as nat);
        },
    }
}

} // verus!
