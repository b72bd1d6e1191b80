use capture::instruction::{parse_inst, InstType, ParseError};

fn parsed(line: &str) -> (InstType, String, String) {
    let inst = parse_inst(line.to_string()).expect("a valid instruction");
    (inst.inst_type, inst.value, inst.text)
}

#[test]
fn parses_locate() {
    let (k, v, t) = parsed("@loc //input[@id='account']");
    assert_eq!(k, InstType::LOC);
    assert_eq!(v, "//input[@id='account']");
    assert_eq!(t, "@loc //input[@id='account']");
}

#[test]
fn parses_send() {
    let (k, v, _) = parsed("@send admin");
    assert_eq!(k, InstType::SEND);
    assert_eq!(v, "admin");
}

#[test]
fn parses_click_loop_end_without_argument() {
    assert_eq!(parsed("@click"), (InstType::CLICK, String::new(), "@click".to_string()));
    assert_eq!(parsed("@loop"), (InstType::LOOP, String::new(), "@loop".to_string()));
    assert_eq!(parsed("@end"), (InstType::END, String::new(), "@end".to_string()));
}

#[test]
fn trailing_text_after_click_is_not_an_argument() {
    let (k, v, t) = parsed("@click now please");
    assert_eq!(k, InstType::CLICK);
    assert_eq!(v, "");
    assert_eq!(t, "@click now please");
}

#[test]
fn unknown_line_is_rejected_with_the_line() {
    match parse_inst("@hover //a".to_string()) {
        Err(ParseError::UnknownInstruction { line }) => assert_eq!(line, "@hover //a"),
        Ok(_) => panic!("accepted an unknown instruction"),
    }
    assert!(parse_inst(String::new()).is_err());
    assert!(parse_inst("   ".to_string()).is_err());
    assert!(parse_inst("@LOC //a".to_string()).is_err());
}

#[test]
fn send_strips_exactly_one_prefix_and_space() {
    let (k, v, _) = parsed("@send  hello");
    assert_eq!(k, InstType::SEND);
    assert_eq!(v, " hello");
}

#[test]
fn line_is_trimmed_before_matching() {
    let (k, v, t) = parsed("  \t@loc //button  \n");
    assert_eq!(k, InstType::LOC);
    assert_eq!(v, "//button");
    assert_eq!(t, "  \t@loc //button  \n");
    let (k, v, _) = parsed("\u{3000}@send hi\u{a0}");
    assert_eq!(k, InstType::SEND);
    assert_eq!(v, "hi");
}

#[test]
fn only_a_leading_prefix_is_removed() {
    let (_, v, _) = parsed("@send @send x");
    assert_eq!(v, "@send x");
}

#[test]
fn prefix_without_space_keeps_the_whole_line() {
    let (k, v, _) = parsed("@locate x");
    assert_eq!(k, InstType::LOC);
    assert_eq!(v, "@locate x");
    let (k, v, _) = parsed("@loc");
    assert_eq!(k, InstType::LOC);
    assert_eq!(v, "@loc");
}
