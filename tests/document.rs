use capture::document::{from_raw, parse_enable_flag, to_raw, LoadError, RawJob, RawWorkflows};
use capture::instruction::InstType;
use capture::job::{delay_from_secs, ConfigError};
use capture::yaml::{load, read_document};

const DOC: &str = "name: demo
jobs:
  - name: login
    enable: \"off\"
    sleep: 1
    insts:
      - \"@loc //input[@id='account']\"
      - \"@send admin\"
      - \"@click\"
  - name: browse
    enable: \"ON\"
    sleep: 0
    insts:
      - \"@loop\"
      - \"@loc //a\"
      - \"@end\"
";

#[test]
fn disabled_job_loads_with_enable_false() {
    let w = load(DOC).expect("document loads");
    assert_eq!(w.name, "demo");
    assert_eq!(w.jobs.len(), 2);
    let login = &w.jobs[0];
    assert_eq!(login.name, "login");
    assert!(!login.enable);
    assert_eq!(login.sleep, 1);
    assert_eq!(login.insts.len(), 3);
    assert_eq!(login.insts[0].inst_type, InstType::LOC);
    assert_eq!(login.insts[0].value, "//input[@id='account']");
    assert_eq!(login.insts[1].inst_type, InstType::SEND);
    assert_eq!(login.insts[1].value, "admin");
    assert_eq!(login.insts[2].inst_type, InstType::CLICK);
    let browse = &w.jobs[1];
    assert!(browse.enable);
    assert_eq!(browse.insts[0].inst_type, InstType::LOOP);
    assert_eq!(browse.insts[2].inst_type, InstType::END);
}

#[test]
fn unknown_enable_flag_fails() {
    let doc = "name: d\njobs:\n  - name: login\n    enable: \"maybe\"\n    sleep: 0\n    insts: []\n";
    match load(doc) {
        Err(LoadError::InvalidEnabledFlag { job_name, value }) => {
            assert_eq!(job_name, "login");
            assert_eq!(value, "maybe");
        }
        other => panic!("unexpected: {:?}", other.err()),
    }
}

#[test]
fn enable_flag_ignores_letter_case() {
    assert_eq!(parse_enable_flag("on"), Some(true));
    assert_eq!(parse_enable_flag("On"), Some(true));
    assert_eq!(parse_enable_flag("OFF"), Some(false));
    assert_eq!(parse_enable_flag("oFf"), Some(false));
    assert_eq!(parse_enable_flag("of"), None);
    assert_eq!(parse_enable_flag("true"), None);
    assert_eq!(parse_enable_flag(""), None);
}

#[test]
fn bad_instruction_rejects_whole_document() {
    let doc = "name: d\njobs:\n  - name: a\n    enable: \"on\"\n    sleep: 0\n    insts: [\"@click\"]\n  - name: b\n    enable: \"on\"\n    sleep: 0\n    insts: [\"@loc //x\", \"@jump\", \"@wat\"]\n";
    match load(doc) {
        Err(LoadError::InvalidInstruction { job_name, line }) => {
            assert_eq!(job_name, "b");
            assert_eq!(line, "@jump");
        }
        other => panic!("unexpected: {:?}", other.err()),
    }
}

#[test]
fn missing_field_is_malformed() {
    let doc = "name: d\njobs:\n  - name: a\n    sleep: 0\n    insts: []\n";
    assert!(matches!(load(doc), Err(LoadError::MalformedDocument { .. })));
    let doc = "name: d\njobs:\n  - name: a\n    enable: \"on\"\n    sleep: \"soon\"\n    insts: []\n";
    assert!(matches!(load(doc), Err(LoadError::MalformedDocument { .. })));
    let doc = "name: d\njobs: 3\n";
    assert!(matches!(load(doc), Err(LoadError::MalformedDocument { .. })));
    assert!(matches!(load("jobs: [\n"), Err(LoadError::MalformedDocument { .. })));
}

#[test]
fn negative_sleep_is_an_invalid_delay() {
    let doc = "name: d\njobs:\n  - name: slow\n    enable: \"on\"\n    sleep: -2\n    insts: []\n";
    match load(doc) {
        Err(LoadError::InvalidDelay { job_name, secs }) => {
            assert_eq!(job_name, "slow");
            assert_eq!(secs, -2);
        }
        other => panic!("unexpected: {:?}", other.err()),
    }
    assert_eq!(delay_from_secs(-1), Err(ConfigError::InvalidDelay { value: -1 }));
    assert_eq!(delay_from_secs(0), Ok(0));
    assert_eq!(delay_from_secs(7), Ok(7));
}

#[test]
fn empty_job_list_loads() {
    let w = load("name: nothing\njobs: []\n").unwrap();
    assert_eq!(w.name, "nothing");
    assert!(w.jobs.is_empty());
}

#[test]
fn round_trip_keeps_job_and_instruction_order() {
    let w = load(DOC).unwrap();
    let raw = to_raw(&w);
    assert_eq!(raw.jobs[0].enable, "off");
    assert_eq!(raw.jobs[1].enable, "on");
    let again = from_raw(&raw).unwrap();
    assert_eq!(again.name, w.name);
    assert_eq!(again.jobs.len(), w.jobs.len());
    for (a, b) in again.jobs.iter().zip(w.jobs.iter()) {
        assert_eq!(a.name, b.name);
        assert_eq!(a.enable, b.enable);
        assert_eq!(a.sleep, b.sleep);
        assert_eq!(a.insts.len(), b.insts.len());
        for (x, y) in a.insts.iter().zip(b.insts.iter()) {
            assert_eq!(x.inst_type, y.inst_type);
            assert_eq!(x.value, y.value);
            assert_eq!(x.text, y.text);
        }
    }
}

#[test]
fn from_raw_checks_jobs_in_order() {
    let raw = RawWorkflows {
        name: "d".to_string(),
        jobs: vec![
            RawJob { name: "first".to_string(), enable: "yes".to_string(), sleep: 0, insts: vec![] },
            RawJob { name: "second".to_string(), enable: "on".to_string(), sleep: 0, insts: vec!["@x".to_string()] },
        ],
    };
    match from_raw(&raw) {
        Err(LoadError::InvalidEnabledFlag { job_name, .. }) => assert_eq!(job_name, "first"),
        other => panic!("unexpected: {:?}", other.err()),
    }
}

#[test]
fn read_document_keeps_raw_text() {
    let raw = read_document(DOC).unwrap();
    assert_eq!(raw.jobs[1].enable, "ON");
    assert_eq!(raw.jobs[0].insts[1], "@send admin");
}

#[test]
fn missing_sleep_is_malformed() {
    let doc = "{name: w, jobs: [{name: a, enable: 'on', insts: []}]}";
    assert!(matches!(load(doc), Err(LoadError::MalformedDocument { .. })));
}

#[test]
fn flow_style_document_loads_flags_case_insensitively() {
    let doc = "{name: w, jobs: [{name: a, enable: 'ON', sleep: 1, insts: []}, {name: b, enable: 'Off', sleep: 0, insts: []}]}";
    let w = load(doc).unwrap();
    assert!(w.jobs[0].enable);
    assert!(!w.jobs[1].enable);
    assert_eq!(w.jobs[0].sleep, 1);
}

#[test]
fn repeated_job_names_both_load() {
    let doc = "{name: w, jobs: [{name: a, enable: 'on', sleep: 0, insts: ['@click']}, {name: a, enable: 'off', sleep: 2, insts: []}]}";
    let w = load(doc).unwrap();
    assert_eq!(w.jobs.len(), 2);
    assert_eq!(w.jobs[0].name, "a");
    assert_eq!(w.jobs[1].name, "a");
    assert_eq!(w.jobs[1].sleep, 2);
}

#[test]
fn non_text_instruction_is_malformed() {
    let doc = "{name: w, jobs: [{name: a, enable: 'on', sleep: 0, insts: ['@click', 5]}]}";
    assert!(matches!(load(doc), Err(LoadError::MalformedDocument { .. })));
}

#[test]
fn tagged_text_is_read_through_its_tag() {
    let doc = "{name: w, jobs: [{name: a, enable: !flag 'on', sleep: 0, insts: []}]}";
    let w = load(doc).unwrap();
    assert!(w.jobs[0].enable);
}
