//! The plain command form: `@loc`, `@set` and `@click` lines, read as given
//! (no trimming).

use vstd::prelude::*;
use crate::instruction::{argument, ParseError};
use crate::text::{chars_of, has_prefix, starts_with};

verus! {

/// The kinds of a command.
#[derive(Clone, Copy, Debug, PartialEq, Eq, Structural)]
pub enum Instruction {
    LOC,
    SET,
    CLICK,
    LOOP,
    END,
}

/// A command: its kind and its argument.
pub struct Command {
    pub inst: Instruction,
    pub value: String,
}

impl Command {
    pub fn new(inst: Instruction, value: String) -> (r: Self)
        ensures
            r.inst == inst,
            r.value@ == value@,
    {
        Self { inst, value }
    }
}

pub open spec fn loc_prefix() -> Seq<char> {
    seq!['@', 'l', 'o', 'c']
}

pub open spec fn set_prefix() -> Seq<char> {
    seq!['@', 's', 'e', 't']
}

pub open spec fn click_prefix() -> Seq<char> {
    seq!['@', 'c', 'l', 'i', 'c', 'k']
}

/// The command that `text` denotes, as its kind and argument.
pub open spec fn command_of(text: Seq<char>) -> Option<(Instruction, Seq<char>)> {
    if starts_with(text, loc_prefix()) {
        Some((Instruction::LOC, argument(text, loc_prefix())))
    } else if starts_with(text, set_prefix()) {
        Some((Instruction::SET, argument(text, set_prefix())))
    } else if starts_with(text, click_prefix()) {
        Some((Instruction::CLICK, Seq::empty()))
    } else {
        None
    }
}

/// The argument of `text` after prefix `p`, which starts it.
fn argument_after(text: &String, s: &Vec<char>, p: Vec<char>) -> (r: String)
    requires
        s@ == text@,
        starts_with(s@, p@),
    ensures
        r@ == argument(text@, p@),
{
    let n = s.len();
    let plen = p.len();
    let mut pw = p;
    pw.push(' ');
    assert(s@.subrange(0, n as int) =~= s@);
    if has_prefix(s, 0, n, &pw) {
        String::from_str(text.as_str().substring_char(plen + 1, n))
    } else {
        assert(text@.subrange(0, n as int) =~= text@);
        String::from_str(text.as_str().substring_char(0, n))
    }
}

/// Parses one command line.
pub fn cmd_parse(text: String) -> (r: Result<Command, ParseError>)
    ensures
        match r {
            Ok(c) => command_of(text@) == Some((c.inst, c.value@)),
            Err(ParseError::UnknownInstruction { line }) => command_of(text@) is None && line@
                == text@,
        },
{
    let s = chars_of(text.as_str());
    let n = s.len();
    assert(s@.subrange(0, n as int) =~= s@);
    let loc: Vec<char> = vec!['@', 'l', 'o', 'c'];
    let set: Vec<char> = vec!['@', 's', 'e', 't'];
    let click: Vec<char> = vec!['@', 'c', 'l', 'i', 'c', 'k'];
    if has_prefix(&s, 0, n, &loc) {
        let value = argument_after(&text, &s, loc);
        Ok(Command::new(Instruction::LOC, value))
    } else if has_prefix(&s, 0, n, &set) {
        let value = argument_after(&text, &s, set);
        Ok(Command::new(Instruction::SET, value))
    } else if has_prefix(&s, 0, n, &click) {
        Ok(Command::new(Instruction::CLICK, String::new()))
    } else {
        Err(ParseError::UnknownInstruction { line: text })
    }
}

} // verus!
