use vstd::prelude::*;

use crate::commands::{Effect, SETVALUE, APPEND_VALUE, ADD, SUB, GOTO};
use crate::interpreter::{Op, takes_text, text_result, op_outcome, run_op};
use crate::text::{joined, words_of, same_text, concat_text};

verus! {

/// The pieces of a line cut at every single space; empty pieces are kept.
pub open spec fn split_spaces(s: Seq<char>) -> Seq<Seq<char>>
    decreases s.len(),
{
    if s.len() == 0 {
        seq![Seq::empty()]
    } else {
        let w = split_spaces(s.drop_last());
        if s.last() == ' ' {
            w.push(Seq::empty())
        } else {
            w.drop_last().push(w.last().push(s.last()))
        }
    }
}

/// The command that a mnemonic names in the registry.
pub open spec fn op_named(m: Seq<char>) -> Option<Op> {
    if m == "SETVALUE"@ {
        Some(Op::SetValue)
    } else if m == "PRINT"@ {
        Some(Op::Print)
    } else if m == "PX"@ {
        Some(Op::Px)
    } else if m == "INPUT"@ {
        Some(Op::Input)
    } else if m == "APPEND_VALUE"@ {
        Some(Op::AppendValue)
    } else if m == "CLEAR_VALUE"@ {
        Some(Op::ClearValue)
    } else if m == "ADD"@ {
        Some(Op::Add)
    } else if m == "SUB"@ {
        Some(Op::Sub)
    } else if m == "NL"@ {
        Some(Op::Nl)
    } else if m == "CLS"@ {
        Some(Op::Cls)
    } else if m == "WAIT"@ {
        Some(Op::Wait)
    } else {
        None
    }
}

/// The note shown for a mnemonic that the registry does not hold.
pub open spec fn unknown_command_note(m: Seq<char>) -> Seq<char> {
    "Unknown command attempted! "@ + m
}

/// The mnemonic of the jump, which the registry holds as a placeholder: jumps
/// are made by the interpreter.
pub open spec fn goto_mnemonic() -> Seq<char> {
    "GOTO"@
}

/// Whether running the line with mnemonic `m` and arguments `a` on register
/// `v` may leave register `v2` and ask the console for `e`.
pub open spec fn line_outcome(m: Seq<char>, a: Seq<Seq<char>>, v: Seq<char>, v2: Seq<char>, e: Effect) -> bool {
    if m == goto_mnemonic() {
        v2 == v && e is Nothing
    } else {
        match op_named(m) {
            Some(op) => if takes_text(op) {
                v2 == text_result(op, v, joined(a)) && e is Nothing
            } else {
                op_outcome(op, v, Seq::empty(), v2, e)
            },
            None => v2 == v && match e {
                Effect::Line(s) => s@ == unknown_command_note(m),
                _ => false,
            },
        }
    }
}

/// Cuts a line at every single space.
pub fn split_line<'a>(line: &'a str) -> (r: Vec<&'a str>)
    ensures
        words_of(r@) == split_spaces(line@),
        r@.len() >= 1,
{
    let n = line.unicode_len();
    let mut words: Vec<&'a str> = Vec::new();
    let mut start: usize = 0;
    let mut i: usize = 0;
    proof {
        assert(line@.take(0) =~= Seq::<char>::empty());
        assert(line@.subrange(0, 0) =~= Seq::<char>::empty());
        assert(words_of(words@).push(line@.subrange(0, 0)) =~= seq![Seq::<char>::empty()]);
    }
    while i < n
        invariant
            n == line@.len(),
            start <= i <= n,
            words_of(words@).push(line@.subrange(start as int, i as int)) == split_spaces(
                line@.take(i as int),
            ),
        decreases n - i,
    {
        let ghost w0 = words_of(words@);
        let ghost piece = line@.subrange(start as int, i as int);
        proof {
            assert(line@.take(i + 1).drop_last() =~= line@.take(i as int));
            assert(line@.take(i + 1).last() == line@[i as int]);
        }
        if line.get_char(i) == ' ' {
            let s = line.substring_char(start, i);
            words.push(s);
            start = i + 1;
            proof {
                assert(words_of(words@) =~= w0.push(piece));
                assert(line@.subrange(start as int, i + 1) =~= Seq::<char>::empty());
            }
        } else {
            proof {
                assert(w0.push(piece).drop_last() =~= w0);
                assert(line@.subrange(start as int, i + 1) =~= piece.push(line@[i as int]));
            }
        }
        i += 1;
    }
    let last = line.substring_char(start, n);
    let ghost w0 = words_of(words@);
    words.push(last);
    proof {
        assert(words_of(words@) =~= w0.push(last@));
        assert(line@.take(n as int) =~= line@);
    }
    words
}

/// The registry command that a mnemonic names.
pub fn op_named_by(m: &str) -> (r: Option<Op>)
    ensures
        r == op_named(m@),
{
    if same_text(m, "SETVALUE") {
        Some(Op::SetValue)
    } else if same_text(m, "PRINT") {
        Some(Op::Print)
    } else if same_text(m, "PX") {
        Some(Op::Px)
    } else if same_text(m, "INPUT") {
        Some(Op::Input)
    } else if same_text(m, "APPEND_VALUE") {
        Some(Op::AppendValue)
    } else if same_text(m, "CLEAR_VALUE") {
        Some(Op::ClearValue)
    } else if same_text(m, "ADD") {
        Some(Op::Add)
    } else if same_text(m, "SUB") {
        Some(Op::Sub)
    } else if same_text(m, "NL") {
        Some(Op::Nl)
    } else if same_text(m, "CLS") {
        Some(Op::Cls)
    } else if same_text(m, "WAIT") {
        Some(Op::Wait)
    } else {
        None
    }
}

/// Runs one text line: the first piece names the command, the others are
/// its arguments. An unknown name is reported, not fatal.
pub fn execute(value: &mut String, line: &str) -> (r: Effect)
    ensures
        ({
            let w = split_spaces(line@);
            line_outcome(w[0], w.drop_first(), old(value)@, final(value)@, r)
        }),
{
    let words = split_line(line);
    let cmd = words[0];
    let mut args: Vec<&str> = Vec::new();
    let mut i: usize = 1;
    while i < words.len()
        invariant
            1 <= i <= words@.len(),
            args@ == words@.subrange(1, i as int),
        decreases words@.len() - i,
    {
        args.push(words[i]);
        i += 1;
        assert(args@ =~= words@.subrange(1, i as int));
    }
    proof {
        assert(words_of(args@) =~= words_of(words@).drop_first());
    }
    if same_text(cmd, "GOTO") {
        GOTO(args.as_slice());
        return Effect::Nothing;
    }
    match op_named_by(cmd) {
        Some(op) => {
            if op == Op::SetValue {
                SETVALUE(value, args.as_slice());
                Effect::Nothing
            } else if op == Op::AppendValue {
                APPEND_VALUE(value, args.as_slice());
                Effect::Nothing
            } else if op == Op::Add {
                ADD(value, args.as_slice());
                Effect::Nothing
            } else if op == Op::Sub {
                SUB(value, args.as_slice());
                Effect::Nothing
            } else {
                run_op(value, op, Vec::new())
            }
        },
        None => Effect::Line(concat_text("Unknown command attempted! ", cmd)),
    }
}

} // verus!
