use capture::engine::{Action, Event, ExecutionError, JobRun};
use capture::instruction::parse_inst;
use capture::job::Task;

fn job(sleep: u64, lines: &[&str]) -> Task {
    let mut t = Task::new("job".to_string(), true, sleep);
    for l in lines {
        t.push(parse_inst(l.to_string()).unwrap());
    }
    t
}

/// Runs `task` against a scripted browser: `find` answers lookups by
/// selector, `fail_calls` makes every send and click fail. Returns the
/// browser calls made, in order, and the outcome.
fn drive(
    task: &Task,
    strict: bool,
    find: &dyn Fn(&str) -> Option<u64>,
    fail_calls: bool,
) -> (Vec<String>, Result<(), ExecutionError>, Option<u64>) {
    let (mut run, mut action) = JobRun::start(task, strict);
    let mut calls = Vec::new();
    loop {
        let event = match action {
            Action::Pause { secs } => {
                calls.push(format!("pause {}", secs));
                Event::Resumed
            }
            Action::Find { selector } => {
                calls.push(format!("find {}", selector));
                Event::Found { element: find(&selector) }
            }
            Action::SendText { element, text } => {
                calls.push(format!("send {} {}", element, text));
                if fail_calls { Event::Failed } else { Event::Succeeded }
            }
            Action::Click { element } => {
                calls.push(format!("click {}", element));
                if fail_calls { Event::Failed } else { Event::Succeeded }
            }
            Action::Finish { outcome } => return (calls, outcome, run.current()),
        };
        action = run.step(event);
    }
}

#[test]
fn send_without_locate_fails_before_any_call() {
    let task = job(0, &["@send hi"]);
    let (calls, outcome, current) = drive(&task, false, &|_| Some(1), false);
    assert!(calls.is_empty());
    assert_eq!(current, None);
    assert_eq!(
        outcome,
        Err(ExecutionError::NoCurrentElement { job_name: "job".to_string(), index: 0, line: "@send hi".to_string() })
    );
}

#[test]
fn click_after_missed_lookup_fails() {
    let task = job(0, &["@loc //button", "@click"]);
    let (calls, outcome, current) = drive(&task, false, &|_| None, false);
    assert_eq!(calls, vec!["find //button".to_string()]);
    assert_eq!(current, None);
    assert!(matches!(outcome, Err(ExecutionError::NoCurrentElement { index: 1, .. })));
}

#[test]
fn located_element_receives_text_and_click() {
    let task = job(0, &["@loc //input", "@send admin", "@click"]);
    let (calls, outcome, current) = drive(&task, false, &|s| if s == "//input" { Some(7) } else { None }, false);
    assert_eq!(calls, vec!["find //input", "send 7 admin", "click 7"]);
    assert_eq!(outcome, Ok(()));
    assert_eq!(current, Some(7));
}

#[test]
fn missed_lookup_keeps_earlier_element() {
    let task = job(0, &["@loc //a", "@loc //missing", "@click"]);
    let find = |s: &str| if s == "//a" { Some(3) } else { None };
    let (calls, outcome, _) = drive(&task, false, &find, false);
    assert_eq!(calls, vec!["find //a", "find //missing", "click 3"]);
    assert_eq!(outcome, Ok(()));
}

#[test]
fn strict_run_forgets_element_on_miss() {
    let task = job(0, &["@loc //a", "@loc //missing", "@click"]);
    let find = |s: &str| if s == "//a" { Some(3) } else { None };
    let (calls, outcome, current) = drive(&task, true, &find, false);
    assert_eq!(calls, vec!["find //a", "find //missing"]);
    assert_eq!(current, None);
    assert!(matches!(outcome, Err(ExecutionError::NoCurrentElement { index: 2, .. })));
}

#[test]
fn pause_comes_before_every_instruction() {
    let task = job(2, &["@loc //a", "@loop", "@click"]);
    let (calls, outcome, _) = drive(&task, false, &|_| Some(5), false);
    assert_eq!(calls, vec!["pause 2", "find //a", "pause 2", "pause 2", "click 5"]);
    assert_eq!(outcome, Ok(()));
}

#[test]
fn loop_and_end_ask_nothing() {
    let task = job(0, &["@loop", "@end", "@loop"]);
    let (calls, outcome, _) = drive(&task, false, &|_| Some(1), false);
    assert!(calls.is_empty());
    assert_eq!(outcome, Ok(()));
}

#[test]
fn empty_job_finishes_at_once() {
    let task = job(3, &[]);
    let (calls, outcome, _) = drive(&task, false, &|_| Some(1), false);
    assert!(calls.is_empty());
    assert_eq!(outcome, Ok(()));
}

#[test]
fn refused_call_stops_the_job() {
    let task = job(0, &["@loc //a", "@send x", "@click"]);
    let (calls, outcome, _) = drive(&task, false, &|_| Some(4), true);
    assert_eq!(calls, vec!["find //a", "send 4 x"]);
    assert_eq!(
        outcome,
        Err(ExecutionError::BrowserCallFailed { job_name: "job".to_string(), index: 1, line: "@send x".to_string() })
    );
}

#[test]
fn unmatched_event_repeats_pending_action() {
    let task = job(0, &["@loc //a", "@click"]);
    let (mut run, first) = JobRun::start(&task, false);
    assert!(matches!(first, Action::Find { ref selector } if selector == "//a"));
    let again = run.step(Event::Succeeded);
    assert!(matches!(again, Action::Find { ref selector } if selector == "//a"));
    assert_eq!(run.position(), 0);
    let click = run.step(Event::Found { element: Some(9) });
    assert!(matches!(click, Action::Click { element: 9 }));
    let done = run.step(Event::Succeeded);
    assert!(matches!(done, Action::Finish { outcome: Ok(()) }));
    assert!(run.is_finished());
    assert_eq!(run.position(), 2);
    let still = run.step(Event::Resumed);
    assert!(matches!(still, Action::Finish { outcome: Ok(()) }));
}
