use capture::command::{cmd_parse, Command, Instruction};
use capture::instruction::ParseError;

#[test]
fn command_forms() {
    let c = cmd_parse("@loc //a".to_string()).unwrap();
    assert_eq!(c.inst, Instruction::LOC);
    assert_eq!(c.value, "//a");
    let c = cmd_parse("@set admin".to_string()).unwrap();
    assert_eq!(c.inst, Instruction::SET);
    assert_eq!(c.value, "admin");
    let c = cmd_parse("@click".to_string()).unwrap();
    assert_eq!(c.inst, Instruction::CLICK);
    assert_eq!(c.value, "");
}

#[test]
fn command_is_not_trimmed() {
    match cmd_parse(" @loc //a".to_string()) {
        Err(ParseError::UnknownInstruction { line }) => assert_eq!(line, " @loc //a"),
        Ok(_) => panic!("accepted a line with leading space"),
    }
    assert!(cmd_parse("@send x".to_string()).is_err());
}

#[test]
fn command_new_keeps_fields() {
    let c = Command::new(Instruction::LOOP, "x".to_string());
    assert_eq!(c.inst, Instruction::LOOP);
    assert_eq!(c.value, "x");
}
