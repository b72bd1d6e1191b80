//! The instruction grammar: one line of a job becomes one typed instruction.

use vstd::prelude::*;
use crate::text::{chars_of, has_prefix, starts_with, trim, trim_bounds};

verus! {

/// The five instruction kinds, in the order in which their prefixes are tried.
#[derive(Clone, Copy, Debug, PartialEq, Eq, Structural)]
pub enum InstType {
    /// `@loc <selector>`: locate an element.
    LOC,
    /// `@send <text>`: type text into the located element.
    SEND,
    /// `@click`: click the located element.
    CLICK,
    /// `@loop`: recognised, but the runner gives it no meaning yet.
    LOOP,
    /// `@end`: recognised, but the runner gives it no meaning yet.
    END,
}

/// One parsed directive: its kind, its argument and the line it came from.
pub struct Inst {
    pub inst_type: InstType,
    /// The selector of `LOC`, the text of `SEND`; empty for the other kinds.
    pub value: String,
    /// The source line, kept for diagnostics.
    pub text: String,
}

/// What an instruction is, as plain values.
pub struct InstView {
    pub kind: InstType,
    pub value: Seq<char>,
    pub text: Seq<char>,
}

impl View for Inst {
    type V = InstView;

    open spec fn view(&self) -> InstView {
        InstView { kind: self.inst_type, value: self.value@, text: self.text@ }
    }
}

/// A line that is not an instruction.
#[derive(Debug, Clone, PartialEq, Eq)]
pub enum ParseError {
    /// No known prefix starts the line; `line` is the line as given.
    UnknownInstruction { line: String },
}

/// The prefix that introduces an instruction of kind `k`.
pub open spec fn prefix(k: InstType) -> Seq<char> {
    match k {
        InstType::LOC => seq!['@', 'l', 'o', 'c'],
        InstType::SEND => seq!['@', 's', 'e', 'n', 'd'],
        InstType::CLICK => seq!['@', 'c', 'l', 'i', 'c', 'k'],
        InstType::LOOP => seq!['@', 'l', 'o', 'o', 'p'],
        InstType::END => seq!['@', 'e', 'n', 'd'],
    }
}

/// Whether instructions of kind `k` carry an argument.
pub open spec fn takes_argument(k: InstType) -> bool {
    k == InstType::LOC || k == InstType::SEND
}

/// The argument of trimmed line `t` introduced by prefix `p`: one occurrence
/// of `p` followed by a space is removed from the front; all else is kept.
pub open spec fn argument(t: Seq<char>, p: Seq<char>) -> Seq<char> {
    if starts_with(t, p.push(' ')) {
        t.skip(p.len() + 1 as int)
    } else {
        t
    }
}

/// What trimmed line `t` holds if its kind is `k`.
pub open spec fn value_of(t: Seq<char>, k: InstType) -> Seq<char> {
    if takes_argument(k) {
        argument(t, prefix(k))
    } else {
        Seq::empty()
    }
}

/// The kind of `line`: the first kind, in declaration order, whose prefix
/// starts the trimmed line.
pub open spec fn kind_of(line: Seq<char>) -> Option<InstType> {
    let t = trim(line);
    if starts_with(t, prefix(InstType::LOC)) {
        Some(InstType::LOC)
    } else if starts_with(t, prefix(InstType::SEND)) {
        Some(InstType::SEND)
    } else if starts_with(t, prefix(InstType::CLICK)) {
        Some(InstType::CLICK)
    } else if starts_with(t, prefix(InstType::LOOP)) {
        Some(InstType::LOOP)
    } else if starts_with(t, prefix(InstType::END)) {
        Some(InstType::END)
    } else {
        None
    }
}

/// The instruction that `line` denotes, if any.
pub open spec fn parse_line(line: Seq<char>) -> Option<InstView> {
    match kind_of(line) {
        Some(k) => Some(InstView { kind: k, value: value_of(trim(line), k), text: line }),
        None => None,
    }
}

fn prefix_chars(k: InstType) -> (r: Vec<char>)
    ensures
        r@ == prefix(k),
{
    match k {
        InstType::LOC => vec!['@', 'l', 'o', 'c'],
        InstType::SEND => vec!['@', 's', 'e', 'n', 'd'],
        InstType::CLICK => vec!['@', 'c', 'l', 'i', 'c', 'k'],
        InstType::LOOP => vec!['@', 'l', 'o', 'o', 'p'],
        InstType::END => vec!['@', 'e', 'n', 'd'],
    }
}

impl Inst {
    pub fn new(inst_type: InstType, value: String, text: String) -> (r: Self)
        ensures
            r.inst_type == inst_type,
            r.value@ == value@,
            r.text@ == text@,
    {
        Self { inst_type, value, text }
    }
}

/// The kind of the trimmed line `s[lo..hi]`.
fn match_kind(s: &Vec<char>, lo: usize, hi: usize, line: Ghost<Seq<char>>) -> (r: Option<InstType>)
    requires
        lo <= hi <= s@.len(),
        s@.subrange(lo as int, hi as int) == trim(line@),
    ensures
        r == kind_of(line@),
{
    if has_prefix(s, lo, hi, &prefix_chars(InstType::LOC)) {
        Some(InstType::LOC)
    } else if has_prefix(s, lo, hi, &prefix_chars(InstType::SEND)) {
        Some(InstType::SEND)
    } else if has_prefix(s, lo, hi, &prefix_chars(InstType::CLICK)) {
        Some(InstType::CLICK)
    } else if has_prefix(s, lo, hi, &prefix_chars(InstType::LOOP)) {
        Some(InstType::LOOP)
    } else if has_prefix(s, lo, hi, &prefix_chars(InstType::END)) {
        Some(InstType::END)
    } else {
        None
    }
}

/// Parses one line of a job.
pub fn parse_inst(text: String) -> (r: Result<Inst, ParseError>)
    ensures
        match r {
            Ok(inst) => parse_line(text@) == Some(inst@),
            Err(ParseError::UnknownInstruction { line }) => parse_line(text@) is None && line@
                == text@,
        },
{
    let s = chars_of(text.as_str());
    let (lo, hi) = trim_bounds(&s);
    match match_kind(&s, lo, hi, Ghost(text@)) {
        None => Err(ParseError::UnknownInstruction { line: text }),
        Some(k) => {
            let ghost t = trim(text@);
            let value = if k == InstType::LOC || k == InstType::SEND {
                let mut p = prefix_chars(k);
                let plen = p.len();
                p.push(' ');
                if has_prefix(&s, lo, hi, &p) {
                    assert(t.skip(plen + 1 as int) =~= s@.subrange(lo + plen + 1, hi as int));
                    String::from_str(text.as_str().substring_char(lo + plen + 1, hi))
                } else {
                    String::from_str(text.as_str().substring_char(lo, hi))
                }
            } else {
                String::new()
            };
            Ok(Inst::new(k, value, text))
        },
    }
}

} // verus!
