//! The workflow document as written (raw records of text), and its
//! conversion into jobs of parsed instructions.

use vstd::prelude::*;
use crate::instruction::{parse_inst, parse_line, Inst, InstView, ParseError};
use crate::job::{Task, TaskView, Workflows, WorkflowsView};

verus! {

/// One job as the document writes it.
pub struct RawJob {
    pub name: String,
    /// `"on"` or `"off"`, in any letter case.
    pub enable: String,
    pub sleep: u64,
    pub insts: Vec<String>,
}

pub struct RawJobView {
    pub name: Seq<char>,
    pub enable: Seq<char>,
    pub sleep: u64,
    pub insts: Seq<Seq<char>>,
}

impl View for RawJob {
    type V = RawJobView;

    open spec fn view(&self) -> RawJobView {
        RawJobView {
            name: self.name@,
            enable: self.enable@,
            sleep: self.sleep,
            insts: self.insts@.map_values(|s: String| s@),
        }
    }
}

/// The document as written: its name and its job records.
pub struct RawWorkflows {
    pub name: String,
    pub jobs: Vec<RawJob>,
}

pub struct RawWorkflowsView {
    pub name: Seq<char>,
    pub jobs: Seq<RawJobView>,
}

impl View for RawWorkflows {
    type V = RawWorkflowsView;

    open spec fn view(&self) -> RawWorkflowsView {
        RawWorkflowsView { name: self.name@, jobs: self.jobs@.map_values(|j: RawJob| j@) }
    }
}

/// Why a document could not be loaded. Each names the job and, where there
/// is one, the offending text.
#[derive(Debug, Clone, PartialEq, Eq)]
pub enum LoadError {
    /// The enable flag is neither `on` nor `off`.
    InvalidEnabledFlag { job_name: String, value: String },
    /// A line of the job is not an instruction.
    InvalidInstruction { job_name: String, line: String },
    /// The pause is a negative number of seconds.
    InvalidDelay { job_name: String, secs: i64 },
    /// A field is missing or has the wrong type, or the text is not a document.
    MalformedDocument { detail: String },
}

pub enum LoadErrorView {
    InvalidEnabledFlag { job_name: Seq<char>, value: Seq<char> },
    InvalidInstruction { job_name: Seq<char>, line: Seq<char> },
    InvalidDelay { job_name: Seq<char>, secs: i64 },
    MalformedDocument { detail: Seq<char> },
}

impl View for LoadError {
    type V = LoadErrorView;

    open spec fn view(&self) -> LoadErrorView {
        match self {
            LoadError::InvalidEnabledFlag { job_name, value } => LoadErrorView::InvalidEnabledFlag {
                job_name: job_name@,
                value: value@,
            },
            LoadError::InvalidInstruction { job_name, line } => LoadErrorView::InvalidInstruction {
                job_name: job_name@,
                line: line@,
            },
            LoadError::InvalidDelay { job_name, secs } => LoadErrorView::InvalidDelay {
                job_name: job_name@,
                secs: *secs,
            },
            LoadError::MalformedDocument { detail } => LoadErrorView::MalformedDocument {
                detail: detail@,
            },
        }
    }
}

/// The outcome of a load, as plain values.
pub open spec fn outcome_view(r: Result<Workflows, LoadError>) -> Result<
    WorkflowsView,
    LoadErrorView,
> {
    match r {
        Ok(w) => Ok(w@),
        Err(e) => Err(e@),
    }
}

/// Whether `c` is `lower`, or its ASCII capital (`lower` is a small ASCII letter).
pub open spec fn same_letter(c: char, lower: char) -> bool {
    c as u32 == lower as u32 || c as u32 + 32 == lower as u32
}

/// Whether `v` spells the small-letter word `w`, ignoring letter case.
pub open spec fn spells(v: Seq<char>, w: Seq<char>) -> bool {
    v.len() == w.len() && forall|i: int| 0 <= i < v.len() ==> same_letter(v[i], w[i])
}

pub open spec fn on_word() -> Seq<char> {
    seq!['o', 'n']
}

pub open spec fn off_word() -> Seq<char> {
    seq!['o', 'f', 'f']
}

/// What an enable flag means: `on` and `off` in any letter case.
pub open spec fn enable_flag(v: Seq<char>) -> Option<bool> {
    if spells(v, on_word()) {
        Some(true)
    } else if spells(v, off_word()) {
        Some(false)
    } else {
        None
    }
}

/// The instructions of `lines`, or the first line that is none.
pub open spec fn parse_lines(lines: Seq<Seq<char>>) -> Result<Seq<InstView>, Seq<char>>
    decreases lines.len(),
{
    if lines.len() == 0 {
        Ok(Seq::empty())
    } else {
        match parse_lines(lines.drop_last()) {
            Err(l) => Err(l),
            Ok(prev) => match parse_line(lines.last()) {
                Some(i) => Ok(prev.push(i)),
                None => Err(lines.last()),
            },
        }
    }
}

/// The job that raw record `j` describes, or why there is none.
pub open spec fn job_of(j: RawJobView) -> Result<TaskView, LoadErrorView> {
    match enable_flag(j.enable) {
        None => Err(LoadErrorView::InvalidEnabledFlag { job_name: j.name, value: j.enable }),
        Some(enable) => match parse_lines(j.insts) {
            Err(line) => Err(LoadErrorView::InvalidInstruction { job_name: j.name, line }),
            Ok(insts) => Ok(TaskView { name: j.name, enable, sleep: j.sleep, insts }),
        },
    }
}

/// The jobs of `js`, or the error of the first record that has one.
pub open spec fn jobs_of(js: Seq<RawJobView>) -> Result<Seq<TaskView>, LoadErrorView>
    decreases js.len(),
{
    if js.len() == 0 {
        Ok(Seq::empty())
    } else {
        match jobs_of(js.drop_last()) {
            Err(e) => Err(e),
            Ok(prev) => match job_of(js.last()) {
                Ok(t) => Ok(prev.push(t)),
                Err(e) => Err(e),
            },
        }
    }
}

/// The document that `raw` describes: all of it, or the first error.
pub open spec fn document_of(raw: RawWorkflowsView) -> Result<WorkflowsView, LoadErrorView> {
    match jobs_of(raw.jobs) {
        Ok(jobs) => Ok(WorkflowsView { name: raw.name, jobs }),
        Err(e) => Err(e),
    }
}

/// Once a prefix of `lines` fails, `lines` fails on the same line.
proof fn lemma_parse_lines_keeps_error(lines: Seq<Seq<char>>, k: int)
    requires
        0 <= k <= lines.len(),
        parse_lines(lines.take(k)) is Err,
    ensures
        parse_lines(lines) == parse_lines(lines.take(k)),
    decreases lines.len(),
{
    if k < lines.len() {
        assert(lines.drop_last().take(k) =~= lines.take(k));
        lemma_parse_lines_keeps_error(lines.drop_last(), k);
    } else {
        assert(lines.take(k) =~= lines);
    }
}

/// Once a prefix of `js` fails, `js` fails with the same error.
proof fn lemma_jobs_of_keeps_error(js: Seq<RawJobView>, k: int)
    requires
        0 <= k <= js.len(),
        jobs_of(js.take(k)) is Err,
    ensures
        jobs_of(js) == jobs_of(js.take(k)),
    decreases js.len(),
{
    if k < js.len() {
        assert(js.drop_last().take(k) =~= js.take(k));
        lemma_jobs_of_keeps_error(js.drop_last(), k);
    } else {
        assert(js.take(k) =~= js);
    }
}

/// Whether `v` spells `w` ignoring ASCII letter case (`w` in small letters).
fn spells_word(v: &Vec<char>, w: &Vec<char>) -> (r: bool)
    requires
        forall|i: int| 0 <= i < w@.len() ==> 'a' <= #[trigger] w@[i] <= 'z',
    ensures
        r == spells(v@, w@),
{
    if v.len() != w.len() {
        return false;
    }
    let mut i: usize = 0;
    while i < v.len()
        invariant
            i <= v@.len() == w@.len(),
            forall|j: int| 0 <= j < i ==> same_letter(v@[j], w@[j]),
        decreases v.len() - i,
    {
        let vc: char = v[i];
        let wc: char = w[i];
        let c: u64 = vc as u32 as u64;
        let l: u64 = wc as u32 as u64;
        if !(c == l || c + 32 == l) {
            assert(!same_letter(v@[i as int], w@[i as int]));
            return false;
        }
        i = i + 1;
    }
    true
}

/// Reads an enable flag.
pub fn parse_enable_flag(value: &str) -> (r: Option<bool>)
    ensures
        r == enable_flag(value@),
{
    let v = crate::text::chars_of(value);
    let on: Vec<char> = vec!['o', 'n'];
    let off: Vec<char> = vec!['o', 'f', 'f'];
    if spells_word(&v, &on) {
        Some(true)
    } else if spells_word(&v, &off) {
        Some(false)
    } else {
        None
    }
}

/// Parses the lines of a job in order, stopping at the first that fails.
fn parse_all(lines: &Vec<String>) -> (r: Result<Vec<Inst>, String>)
    ensures
        match r {
            Ok(insts) => parse_lines(lines@.map_values(|s: String| s@)) == Ok::<
                Seq<InstView>,
                Seq<char>,
            >(insts@.map_values(|i: Inst| i@)),
            Err(line) => parse_lines(lines@.map_values(|s: String| s@)) == Err::<
                Seq<InstView>,
                Seq<char>,
            >(line@),
        },
{
    let ghost all = lines@.map_values(|s: String| s@);
    let mut insts: Vec<Inst> = Vec::new();
    let mut i: usize = 0;
    assert(all.take(0) =~= Seq::<Seq<char>>::empty());
    assert(insts@.map_values(|x: Inst| x@) =~= Seq::<InstView>::empty());
    while i < lines.len()
        invariant
            i <= lines@.len(),
            all == lines@.map_values(|s: String| s@),
            parse_lines(all.take(i as int)) == Ok::<Seq<InstView>, Seq<char>>(
                insts@.map_values(|x: Inst| x@),
            ),
        decreases lines.len() - i,
    {
        assert(all.take(i + 1).drop_last() =~= all.take(i as int));
        assert(all.take(i + 1).last() == all[i as int]);
        match parse_inst(lines[i].clone()) {
            Ok(inst) => {
                let ghost before = insts@;
                insts.push(inst);
                assert(insts@.map_values(|x: Inst| x@) =~= before.map_values(|x: Inst| x@).push(
                    inst@,
                ));
            },
            Err(ParseError::UnknownInstruction { line }) => {
                proof {
                    lemma_parse_lines_keeps_error(all, i + 1);
                }
                return Err(line);
            },
        }
        i = i + 1;
    }
    assert(all.take(i as int) =~= all);
    Ok(insts)
}

/// Turns one raw record into a job.
pub fn job_from_raw(j: &RawJob) -> (r: Result<Task, LoadError>)
    ensures
        match r {
            Ok(t) => job_of(j@) == Ok::<TaskView, LoadErrorView>(t@),
            Err(e) => job_of(j@) == Err::<TaskView, LoadErrorView>(e@),
        },
{
    match parse_enable_flag(j.enable.as_str()) {
        None => Err(LoadError::InvalidEnabledFlag { job_name: j.name.clone(), value: j.enable.clone() }),
        Some(enable) => match parse_all(&j.insts) {
            Err(line) => Err(LoadError::InvalidInstruction { job_name: j.name.clone(), line }),
            Ok(insts) => Ok(Task { name: j.name.clone(), enable, sleep: j.sleep, insts }),
        },
    }
}

/// Turns the raw document into jobs: all of them, or the first error, in
/// document order.
pub fn from_raw(raw: &RawWorkflows) -> (r: Result<Workflows, LoadError>)
    ensures
        outcome_view(r) == document_of(raw@),
{
    let ghost all = raw@.jobs;
    let mut jobs: Vec<Task> = Vec::new();
    let mut i: usize = 0;
    assert(all.take(0) =~= Seq::<RawJobView>::empty());
    assert(jobs@.map_values(|x: Task| x@) =~= Seq::<TaskView>::empty());
    while i < raw.jobs.len()
        invariant
            i <= raw.jobs@.len(),
            all == raw@.jobs,
            jobs_of(all.take(i as int)) == Ok::<Seq<TaskView>, LoadErrorView>(
                jobs@.map_values(|t: Task| t@),
            ),
        decreases raw.jobs.len() - i,
    {
        assert(all.take(i + 1).drop_last() =~= all.take(i as int));
        assert(all.take(i + 1).last() == all[i as int]);
        match job_from_raw(&raw.jobs[i]) {
            Ok(t) => {
                let ghost before = jobs@;
                jobs.push(t);
                assert(jobs@.map_values(|x: Task| x@) =~= before.map_values(|x: Task| x@).push(
                    t@,
                ));
            },
            Err(e) => {
                proof {
                    lemma_jobs_of_keeps_error(all, i + 1);
                }
                return Err(e);
            },
        }
        i = i + 1;
    }
    assert(all.take(i as int) =~= all);
    Ok(Workflows { name: raw.name.clone(), jobs })
}

/// The flag word that writes `e`.
pub open spec fn flag_word(e: bool) -> Seq<char> {
    if e {
        on_word()
    } else {
        off_word()
    }
}

/// The record that writes job `t`: its flag as `on` or `off`, each
/// instruction as its source line.
pub open spec fn raw_job_of(t: TaskView) -> RawJobView {
    RawJobView {
        name: t.name,
        enable: flag_word(t.enable),
        sleep: t.sleep,
        insts: t.insts.map_values(|i: InstView| i.text),
    }
}

/// The records that write document `w`, jobs in order.
pub open spec fn raw_of(w: WorkflowsView) -> RawWorkflowsView {
    RawWorkflowsView { name: w.name, jobs: w.jobs.map_values(|t: TaskView| raw_job_of(t)) }
}

/// Writes one job back as a record.
pub fn job_to_raw(t: &Task) -> (r: RawJob)
    ensures
        r@ == raw_job_of(t@),
{
    let enable = if t.enable {
        let on = String::from_str("on");
        proof {
            reveal_strlit("on");
        }
        on
    } else {
        let off = String::from_str("off");
        proof {
            reveal_strlit("off");
        }
        off
    };
    let mut insts: Vec<String> = Vec::new();
    let mut i: usize = 0;
    while i < t.insts.len()
        invariant
            i <= t.insts@.len(),
            insts@.map_values(|s: String| s@) == t@.insts.take(i as int).map_values(
                |x: InstView| x.text,
            ),
        decreases t.insts.len() - i,
    {
        let ghost before = insts@;
        let line = t.insts[i].text.clone();
        assert(line@ == t@.insts[i as int].text);
        insts.push(line);
        assert(insts@.map_values(|s: String| s@) =~= before.map_values(|s: String| s@).push(
            line@,
        ));
        assert(t@.insts.take(i + 1) =~= t@.insts.take(i as int).push(t@.insts[i as int]));
        assert(insts@.map_values(|s: String| s@) =~= t@.insts.take(i + 1).map_values(
            |x: InstView| x.text,
        ));
        i = i + 1;
    }
    assert(t@.insts.take(i as int) =~= t@.insts);
    let r = RawJob { name: t.name.clone(), enable, sleep: t.sleep, insts };
    assert(r@.enable == flag_word(t.enable));
    assert(r@.insts =~= raw_job_of(t@).insts);
    r
}

/// Writes a document back as its records, jobs and instructions in order.
pub fn to_raw(w: &Workflows) -> (r: RawWorkflows)
    ensures
        r@ == raw_of(w@),
{
    let mut jobs: Vec<RawJob> = Vec::new();
    let mut i: usize = 0;
    while i < w.jobs.len()
        invariant
            i <= w.jobs@.len(),
            jobs@.map_values(|j: RawJob| j@) == w@.jobs.take(i as int).map_values(
                |t: TaskView| raw_job_of(t),
            ),
        decreases w.jobs.len() - i,
    {
        let ghost before = jobs@;
        let j = job_to_raw(&w.jobs[i]);
        assert(j@ == raw_job_of(w@.jobs[i as int]));
        jobs.push(j);
        assert(jobs@.map_values(|j: RawJob| j@) =~= before.map_values(|j: RawJob| j@).push(j@));
        assert(w@.jobs.take(i + 1) =~= w@.jobs.take(i as int).push(w@.jobs[i as int]));
        assert(jobs@.map_values(|j: RawJob| j@) =~= w@.jobs.take(i + 1).map_values(
            |t: TaskView| raw_job_of(t),
        ));
        i = i + 1;
    }
    assert(w@.jobs.take(i as int) =~= w@.jobs);
    let r = RawWorkflows { name: w.name.clone(), jobs };
    assert(r@.jobs =~= raw_of(w@).jobs);
    r
}

/// The instructions parsed from `lines` keep those lines as their text.
proof fn lemma_parse_lines_texts(lines: Seq<Seq<char>>, insts: Seq<InstView>)
    requires
        parse_lines(lines) == Ok::<Seq<InstView>, Seq<char>>(insts),
    ensures
        insts.map_values(|i: InstView| i.text) == lines,
    decreases lines.len(),
{
    if lines.len() > 0 {
        match parse_lines(lines.drop_last()) {
            Ok(prev) => {
                let last = parse_line(lines.last())->0;
                assert(insts == prev.push(last));
                lemma_parse_lines_texts(lines.drop_last(), prev);
                assert(insts.map_values(|i: InstView| i.text) =~= prev.map_values(
                    |i: InstView| i.text,
                ).push(last.text));
                assert(lines.drop_last().push(lines.last()) =~= lines);
            },
            Err(_) => {},
        }
    } else {
        assert(insts.map_values(|i: InstView| i.text) =~= lines);
    }
}

/// A flag written back reads as what it was.
proof fn lemma_flag_word(e: bool)
    ensures
        enable_flag(flag_word(e)) == Some(e),
{
    assert(spells(on_word(), on_word()));
    assert(spells(off_word(), off_word()));
}

/// The jobs of accepted records, written back, read as the same jobs.
proof fn lemma_jobs_round_trip(js: Seq<RawJobView>, ts: Seq<TaskView>)
    requires
        jobs_of(js) == Ok::<Seq<TaskView>, LoadErrorView>(ts),
    ensures
        jobs_of(ts.map_values(|t: TaskView| raw_job_of(t))) == Ok::<Seq<TaskView>, LoadErrorView>(
            ts,
        ),
    decreases js.len(),
{
    let back = ts.map_values(|t: TaskView| raw_job_of(t));
    if js.len() > 0 {
        let prev = jobs_of(js.drop_last())->Ok_0;
        assert(ts == prev.push(job_of(js.last())->Ok_0));
        assert(ts.drop_last() =~= prev);
        lemma_jobs_round_trip(js.drop_last(), prev);
        assert(back.drop_last() =~= prev.map_values(|t: TaskView| raw_job_of(t)));
        let j = js.last();
        let t = ts.last();
        lemma_flag_word(t.enable);
        lemma_parse_lines_texts(j.insts, t.insts);
        assert(back.last() == raw_job_of(t));
        assert(job_of(raw_job_of(t)) == Ok::<TaskView, LoadErrorView>(t));
        assert(prev.push(t) =~= ts);
    } else {
        assert(back =~= Seq::<RawJobView>::empty());
    }
}

/// Round trip: a document that loads from records, written back as records
/// and loaded again, is the same document, with its jobs in the same order
/// and each job's instructions in the same order.
pub proof fn lemma_round_trip(raw: RawWorkflowsView, w: WorkflowsView)
    requires
        document_of(raw) == Ok::<WorkflowsView, LoadErrorView>(w),
    ensures
        document_of(raw_of(w)) == Ok::<WorkflowsView, LoadErrorView>(w),
{
    lemma_jobs_round_trip(raw.jobs, w.jobs);
}

} // verus!
