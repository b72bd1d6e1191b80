//! Reading a workflow document from YAML text.
//!
//! The text is read by `serde_yaml` into a generic node; the walk over its
//! fields is verified against `records_of`, a statement over a plain model
//! of the node (`YamlView`).

use vstd::prelude::*;
use crate::document::{
    document_of, from_raw, outcome_view, LoadError, LoadErrorView, RawJob, RawJobView,
    RawWorkflows, RawWorkflowsView,
};
use crate::job::{delay_from_secs, ConfigError, Workflows};

verus! {

/// What a YAML node holds, tags set aside (as `serde_yaml`'s accessors see
/// through them).
pub enum YamlView {
    /// A string.
    Text { text: Seq<char> },
    /// An integer.
    Int { value: int },
    /// A sequence, items in order.
    List { items: Seq<YamlView> },
    /// A mapping, entries in order; a key is `Some(text)` when it is a plain
    /// (untagged) string, `None` otherwise.
    Fields { entries: Seq<(Option<Seq<char>>, YamlView)> },
    /// Anything else: null, a boolean, a float.
    Other,
}

/// The node that `serde_yaml::from_str` reads from `text`, or `None` when it
/// fails.
pub uninterp spec fn yaml_of(text: Seq<char>) -> Option<YamlView>;

/// What the parsed node `v` holds.
pub uninterp spec fn node_of(v: serde_yaml::Value) -> YamlView;

/// `serde_yaml::Value`, a parsed YAML node.
#[verifier::external_type_specification]
#[verifier::external_body]
pub struct ExValue(serde_yaml::Value);

/// `serde_yaml::Error`, the error of a failed read.
#[verifier::external_type_specification]
#[verifier::external_body]
pub struct ExError(serde_yaml::Error);

/// The value of the first entry of `entries` under the plain-string key `key`.
pub open spec fn lookup(entries: Seq<(Option<Seq<char>>, YamlView)>, key: Seq<char>) -> Option<YamlView>
    decreases entries.len(),
{
    if entries.len() == 0 {
        None
    } else if entries[0].0 == Some(key) {
        Some(entries[0].1)
    } else {
        lookup(entries.drop_first(), key)
    }
}

/// The value under `key` when `y` is a mapping that has it.
pub open spec fn field(y: YamlView, key: Seq<char>) -> Option<YamlView> {
    match y {
        YamlView::Fields { entries } => lookup(entries, key),
        _ => None,
    }
}

/// Relies on `serde_yaml::from_str`, here read into a generic `Value`: the
/// result depends on the text alone.
#[verifier::external_body]
fn read_yaml(text: &str) -> (r: Result<serde_yaml::Value, serde_yaml::Error>)
    ensures
        match r {
            Ok(v) => yaml_of(text@) == Some(node_of(v)),
            Err(_) => yaml_of(text@) is None,
        },
{
    serde_yaml::from_str(text)
}

/// Relies on the `Display` impl of `serde_yaml::Error`, for its message.
#[verifier::external_body]
fn error_message(e: &serde_yaml::Error) -> (r: String) {
    e.to_string()
}

/// Relies on `serde_yaml::Value::get` with a string key: the value of the
/// mapping entry whose key is that string, when `v` is a mapping that has one.
#[verifier::external_body]
fn entry<'a>(v: &'a serde_yaml::Value, key: &str) -> (r: Option<&'a serde_yaml::Value>)
    ensures
        match r {
            Some(f) => field(node_of(*v), key@) == Some(node_of(*f)),
            None => field(node_of(*v), key@) is None,
        },
{
    v.get(key)
}

/// Relies on `serde_yaml::Value::as_str`: the text of a string node.
pub assume_specification<'a>[ serde_yaml::Value::as_str ](v: &'a serde_yaml::Value) -> (r: Option<&'a str>)
    ensures
        match r {
            Some(s) => node_of(*v) == (YamlView::Text { text: s@ }),
            None => !(node_of(*v) is Text),
        },
;

/// Relies on `serde_yaml::Value::as_u64`: an integer node in `u64`'s range.
pub assume_specification[ serde_yaml::Value::as_u64 ](v: &serde_yaml::Value) -> (r: Option<u64>)
    ensures
        match node_of(*v) {
            YamlView::Int { value } => if 0 <= value <= u64::MAX {
                r == Some(value as u64)
            } else {
                r is None
            },
            _ => r is None,
        },
;

/// Relies on `serde_yaml::Value::as_i64`: an integer node in `i64`'s range.
pub assume_specification[ serde_yaml::Value::as_i64 ](v: &serde_yaml::Value) -> (r: Option<i64>)
    ensures
        match node_of(*v) {
            YamlView::Int { value } => if i64::MIN <= value <= i64::MAX {
                r == Some(value as i64)
            } else {
                r is None
            },
            _ => r is None,
        },
;

/// Relies on `serde_yaml::Value::as_sequence`: the items of a sequence node.
pub assume_specification<'a>[ serde_yaml::Value::as_sequence ](v: &'a serde_yaml::Value) -> (r: Option<&'a Vec<serde_yaml::Value>>)
    ensures
        match r {
            Some(items) => node_of(*v) == (YamlView::List {
                items: items@.map_values(|x: serde_yaml::Value| node_of(x)),
            }),
            None => !(node_of(*v) is List),
        },
;

pub open spec fn name_key() -> Seq<char> {
    seq!['n', 'a', 'm', 'e']
}

pub open spec fn jobs_key() -> Seq<char> {
    seq!['j', 'o', 'b', 's']
}

pub open spec fn enable_key() -> Seq<char> {
    seq!['e', 'n', 'a', 'b', 'l', 'e']
}

pub open spec fn sleep_key() -> Seq<char> {
    seq!['s', 'l', 'e', 'e', 'p']
}

pub open spec fn insts_key() -> Seq<char> {
    seq!['i', 'n', 's', 't', 's']
}

/// A malformed-document error; its detail is free.
pub open spec fn malformed() -> LoadErrorView {
    LoadErrorView::MalformedDocument { detail: Seq::empty() }
}

/// Whether error `x` is the error `e` that the statement gives: the same
/// variant and fields, any detail for a malformed document.
pub open spec fn error_like(x: LoadErrorView, e: LoadErrorView) -> bool {
    if e is MalformedDocument {
        x is MalformedDocument
    } else {
        x == e
    }
}

/// The text under `key` in `y`.
pub open spec fn text_at(y: YamlView, key: Seq<char>) -> Option<Seq<char>> {
    match field(y, key) {
        Some(YamlView::Text { text }) => Some(text),
        _ => None,
    }
}

/// The items of the sequence under `key` in `y`.
pub open spec fn list_at(y: YamlView, key: Seq<char>) -> Option<Seq<YamlView>> {
    match field(y, key) {
        Some(YamlView::List { items }) => Some(items),
        _ => None,
    }
}

/// The pause of job record `y` named `name`: a whole number of seconds; a
/// negative one is an invalid delay, anything else is malformed.
pub open spec fn sleep_at(y: YamlView, name: Seq<char>) -> Result<u64, LoadErrorView> {
    match field(y, sleep_key()) {
        Some(YamlView::Int { value }) => if 0 <= value <= u64::MAX {
            Ok(value as u64)
        } else if i64::MIN <= value < 0 {
            Err(LoadErrorView::InvalidDelay { job_name: name, secs: value as i64 })
        } else {
            Err(malformed())
        },
        _ => Err(malformed()),
    }
}

/// The texts of `items`, when every item is a string.
pub open spec fn lines_of(items: Seq<YamlView>) -> Option<Seq<Seq<char>>> {
    if forall|i: int| 0 <= i < items.len() ==> #[trigger] items[i] is Text {
        Some(items.map_values(|y: YamlView| y->text))
    } else {
        None
    }
}

/// The record of one job node: its `name`, `enable`, `sleep` and `insts`,
/// checked in that order.
pub open spec fn job_record(y: YamlView) -> Result<RawJobView, LoadErrorView> {
    match text_at(y, name_key()) {
        None => Err(malformed()),
        Some(name) => match text_at(y, enable_key()) {
            None => Err(malformed()),
            Some(enable) => match sleep_at(y, name) {
                Err(e) => Err(e),
                Ok(sleep) => match list_at(y, insts_key()) {
                    None => Err(malformed()),
                    Some(items) => match lines_of(items) {
                        None => Err(malformed()),
                        Some(insts) => Ok(RawJobView { name, enable, sleep, insts }),
                    },
                },
            },
        },
    }
}

/// The records of the job nodes `ys`, or the error of the first that has one.
pub open spec fn job_records(ys: Seq<YamlView>) -> Result<Seq<RawJobView>, LoadErrorView>
    decreases ys.len(),
{
    if ys.len() == 0 {
        Ok(Seq::empty())
    } else {
        match job_records(ys.drop_last()) {
            Err(e) => Err(e),
            Ok(prev) => match job_record(ys.last()) {
                Ok(j) => Ok(prev.push(j)),
                Err(e) => Err(e),
            },
        }
    }
}

/// The records of a document node: a text `name`, then a sequence `jobs`.
pub open spec fn records_of(y: YamlView) -> Result<RawWorkflowsView, LoadErrorView> {
    match text_at(y, name_key()) {
        None => Err(malformed()),
        Some(name) => match list_at(y, jobs_key()) {
            None => Err(malformed()),
            Some(items) => match job_records(items) {
                Ok(jobs) => Ok(RawWorkflowsView { name, jobs }),
                Err(e) => Err(e),
            },
        },
    }
}

/// Once a prefix of `ys` fails, `ys` fails with the same error.
proof fn lemma_job_records_keep_error(ys: Seq<YamlView>, k: int)
    requires
        0 <= k <= ys.len(),
        job_records(ys.take(k)) is Err,
    ensures
        job_records(ys) == job_records(ys.take(k)),
    decreases ys.len(),
{
    if k < ys.len() {
        assert(ys.drop_last().take(k) =~= ys.take(k));
        lemma_job_records_keep_error(ys.drop_last(), k);
    } else {
        assert(ys.take(k) =~= ys);
    }
}

/// The error for field `key` that is missing or not of the expected kind.
fn bad_field(key: &str) -> (r: LoadError)
    ensures
        r is MalformedDocument,
{
    let mut detail = String::from_str("missing or mistyped field: ");
    detail.append(key);
    LoadError::MalformedDocument { detail }
}

/// The text under `key`.
fn text_field(v: &serde_yaml::Value, key: &str) -> (r: Result<String, LoadError>)
    ensures
        match text_at(node_of(*v), key@) {
            Some(t) => r matches Ok(s) && s@ == t,
            None => r matches Err(e) && e is MalformedDocument,
        },
{
    match entry(v, key) {
        Some(f) => match f.as_str() {
            Some(s) => Ok(String::from_str(s)),
            None => Err(bad_field(key)),
        },
        None => Err(bad_field(key)),
    }
}

/// The sequence under `key`.
fn list_field<'a>(v: &'a serde_yaml::Value, key: &str) -> (r: Result<&'a Vec<serde_yaml::Value>, LoadError>)
    ensures
        match list_at(node_of(*v), key@) {
            Some(items) => r matches Ok(s) && s@.map_values(|x: serde_yaml::Value| node_of(x))
                == items,
            None => r matches Err(e) && e is MalformedDocument,
        },
{
    match entry(v, key) {
        Some(f) => match f.as_sequence() {
            Some(s) => Ok(s),
            None => Err(bad_field(key)),
        },
        None => Err(bad_field(key)),
    }
}

/// The pause of a job: a whole number of seconds, not negative.
fn sleep_field(v: &serde_yaml::Value, job_name: &String) -> (r: Result<u64, LoadError>)
    ensures
        match sleep_at(node_of(*v), job_name@) {
            Ok(d) => r == Ok::<u64, LoadError>(d),
            Err(e) => r matches Err(x) && error_like(x@, e),
        },
{
    let key = "sleep";
    proof {
        reveal_strlit("sleep");
        assert(key@ =~= sleep_key());
    }
    match entry(v, key) {
        Some(f) => match f.as_u64() {
            Some(n) => Ok(n),
            None => match f.as_i64() {
                Some(n) => match delay_from_secs(n) {
                    Ok(d) => Ok(d),
                    Err(ConfigError::InvalidDelay { value }) => Err(
                        LoadError::InvalidDelay { job_name: job_name.clone(), secs: value },
                    ),
                },
                None => Err(bad_field(key)),
            },
        },
        None => Err(bad_field(key)),
    }
}

/// One job record, with its fields read but not yet checked.
fn read_job(v: &serde_yaml::Value) -> (r: Result<RawJob, LoadError>)
    ensures
        match job_record(node_of(*v)) {
            Ok(j) => r matches Ok(x) && x@ == j,
            Err(e) => r matches Err(x) && error_like(x@, e),
        },
{
    let (name_k, enable_k, insts_k) = ("name", "enable", "insts");
    proof {
        reveal_strlit("name");
        reveal_strlit("enable");
        reveal_strlit("insts");
        assert(name_k@ =~= name_key());
        assert(enable_k@ =~= enable_key());
        assert(insts_k@ =~= insts_key());
    }
    let name = text_field(v, name_k)?;
    let enable = text_field(v, enable_k)?;
    let sleep = sleep_field(v, &name)?;
    let lines = list_field(v, insts_k)?;
    let ghost items = lines@.map_values(|x: serde_yaml::Value| node_of(x));
    let mut insts: Vec<String> = Vec::new();
    let mut i: usize = 0;
    assert(insts@.map_values(|s: String| s@) =~= items.take(0).map_values(|y: YamlView| y->text));
    while i < lines.len()
        invariant
            i <= lines@.len() == items.len(),
            items == lines@.map_values(|x: serde_yaml::Value| node_of(x)),
            text_at(node_of(*v), name_key()) == Some(name@),
            text_at(node_of(*v), enable_key()) == Some(enable@),
            sleep_at(node_of(*v), name@) == Ok::<u64, LoadErrorView>(sleep),
            list_at(node_of(*v), insts_key()) == Some(items),
            forall|j: int| 0 <= j < i ==> #[trigger] items[j] is Text,
            insts@.map_values(|s: String| s@) == items.take(i as int).map_values(
                |y: YamlView| y->text,
            ),
        decreases lines.len() - i,
    {
        match lines[i].as_str() {
            Some(s) => {
                let ghost before = insts@;
                let line = String::from_str(s);
                insts.push(line);
                assert(insts@.map_values(|s: String| s@) =~= before.map_values(|s: String| s@).push(
                    line@,
                ));
                assert(items.take(i + 1) =~= items.take(i as int).push(items[i as int]));
                assert(insts@.map_values(|s: String| s@) =~= items.take(i + 1).map_values(
                    |y: YamlView| y->text,
                ));
            },
            None => {
                assert(!(items[i as int] is Text));
                assert(lines_of(items) is None);
                return Err(bad_field(insts_k));
            },
        }
        i = i + 1;
    }
    assert(items.take(i as int) =~= items);
    let r = RawJob { name, enable, sleep, insts };
    assert(r@.insts =~= lines_of(items)->0);
    Ok(r)
}

/// Reads the document's records from YAML text: a mapping with a text
/// `name` and a sequence `jobs`, each job a mapping with a text `name`, a
/// text `enable`, a whole number `sleep` and a sequence of text `insts`.
pub fn read_document(source: &str) -> (r: Result<RawWorkflows, LoadError>)
    ensures
        match yaml_of(source@) {
            None => r matches Err(x) && x is MalformedDocument,
            Some(y) => match records_of(y) {
                Ok(raw) => r matches Ok(x) && x@ == raw,
                Err(e) => r matches Err(x) && error_like(x@, e),
            },
        },
{
    let doc = match read_yaml(source) {
        Ok(d) => d,
        Err(e) => {
            return Err(LoadError::MalformedDocument { detail: error_message(&e) });
        },
    };
    let (name_k, jobs_k) = ("name", "jobs");
    proof {
        reveal_strlit("name");
        reveal_strlit("jobs");
        assert(name_k@ =~= name_key());
        assert(jobs_k@ =~= jobs_key());
    }
    let name = text_field(&doc, name_k)?;
    let records = list_field(&doc, jobs_k)?;
    let ghost y = node_of(doc);
    let ghost items = records@.map_values(|x: serde_yaml::Value| node_of(x));
    let mut jobs: Vec<RawJob> = Vec::new();
    let mut i: usize = 0;
    assert(items.take(0) =~= Seq::<YamlView>::empty());
    assert(jobs@.map_values(|j: RawJob| j@) =~= Seq::<RawJobView>::empty());
    while i < records.len()
        invariant
            i <= records@.len() == items.len(),
            items == records@.map_values(|x: serde_yaml::Value| node_of(x)),
            yaml_of(source@) == Some(y),
            text_at(y, name_key()) == Some(name@),
            list_at(y, jobs_key()) == Some(items),
            job_records(items.take(i as int)) == Ok::<Seq<RawJobView>, LoadErrorView>(
                jobs@.map_values(|j: RawJob| j@),
            ),
        decreases records.len() - i,
    {
        assert(items.take(i + 1).drop_last() =~= items.take(i as int));
        assert(items.take(i + 1).last() == items[i as int]);
        match read_job(&records[i]) {
            Ok(job) => {
                let ghost before = jobs@;
                jobs.push(job);
                assert(jobs@.map_values(|j: RawJob| j@) =~= before.map_values(|j: RawJob| j@).push(
                    job@,
                ));
            },
            Err(e) => {
                proof {
                    lemma_job_records_keep_error(items, i + 1);
                }
                return Err(e);
            },
        }
        i = i + 1;
    }
    assert(items.take(i as int) =~= items);
    Ok(RawWorkflows { name, jobs })
}

/// Loads a workflow document from YAML text: either every job, with every
/// instruction parsed, or the first error. Text that is not YAML is a
/// malformed document; otherwise the records that `records_of` finds in the
/// node are loaded as `from_raw` loads them.
pub fn load(source: &str) -> (r: Result<Workflows, LoadError>)
    ensures
        match yaml_of(source@) {
            None => r matches Err(x) && x is MalformedDocument,
            Some(y) => match records_of(y) {
                Ok(raw) => outcome_view(r) == document_of(raw),
                Err(e) => r matches Err(x) && error_like(x@, e),
            },
        },
{
    let raw = read_document(source)?;
    from_raw(&raw)
}

} // verus!
