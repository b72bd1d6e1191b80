use capture::instruction::parse_inst;
use capture::job::{Task, Workflows};
use capture::session::{Session, SessionAction};

fn doc(flags: &[bool]) -> Workflows {
    let mut jobs = Vec::new();
    for (i, f) in flags.iter().enumerate() {
        let mut t = Task::new(format!("job{}", i), *f, 0);
        t.push(parse_inst("@click".to_string()).unwrap());
        jobs.push(t);
    }
    Workflows { name: "d".to_string(), jobs }
}

#[test]
fn disabled_jobs_are_never_handed_out() {
    let w = doc(&[false, true, false, true]);
    let mut s = Session::new();
    assert_eq!(s.advance(&w), SessionAction::RunJob { index: 1 });
    assert_eq!(s.advance(&w), SessionAction::RunJob { index: 3 });
    assert_eq!(s.advance(&w), SessionAction::Close);
    assert_eq!(s.advance(&w), SessionAction::Done);
}

#[test]
fn all_disabled_runs_nothing_and_closes() {
    let w = doc(&[false, false]);
    let mut s = Session::new();
    assert_eq!(s.advance(&w), SessionAction::Close);
    assert_eq!(s.next_job, 2);
    assert!(s.closed);
}

#[test]
fn close_is_granted_once() {
    let w = doc(&[true]);
    let mut s = Session::new();
    let mut closes = 0;
    for _ in 0..6 {
        if s.advance(&w) == SessionAction::Close {
            closes += 1;
        }
    }
    assert_eq!(closes, 1);
    assert_eq!(s.advance(&w), SessionAction::Done);
}

#[test]
fn stop_skips_remaining_jobs_and_closes() {
    let w = doc(&[true, true, true]);
    let mut s = Session::new();
    assert_eq!(s.advance(&w), SessionAction::RunJob { index: 0 });
    s.stop(&w);
    assert_eq!(s.advance(&w), SessionAction::Close);
    assert_eq!(s.advance(&w), SessionAction::Done);
}

#[test]
fn empty_document_closes_at_once() {
    let w = doc(&[]);
    let mut s = Session::new();
    assert_eq!(s.advance(&w), SessionAction::Close);
}
