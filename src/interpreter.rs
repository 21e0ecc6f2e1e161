use vstd::prelude::*;
use vstd::utf8::{
    valid_utf8, decode_utf8, pop_first_scalar, decode_first_scalar, length_of_first_scalar,
    is_leading_byte_width_1, is_leading_byte_width_2, is_leading_byte_width_3,
};

use crate::commands::{
    Effect, undefined_text, print_prefix, glyph_of, unknown_color_note, clear_screen_text,
    wait_format_note, sum_text, difference_text, undefined_value, SETVALUE, APPEND_VALUE,
    CLEAR_VALUE, ADD, SUB, PRINT, PX, INPUT, NL, CLS, WAIT,
};
use crate::number::u64_of_text;
use crate::text::{joined, words_of};

verus! {

/// The opcode of the jump instruction, followed by one byte of target.
pub const GOTO_OPCODE: u8 = 0x04;

/// The commands that an opcode can name, besides the jump.
#[derive(Clone, Copy, PartialEq, Eq, Structural, Debug)]
pub enum Op {
    SetValue,
    Print,
    Px,
    Input,
    AppendValue,
    ClearValue,
    Add,
    Sub,
    Nl,
    Cls,
    Wait,
}

/// The command of an opcode byte; `None` for the jump and for unknown bytes.
pub open spec fn op_of(b: u8) -> Option<Op> {
    if b == 0x01 {
        Some(Op::SetValue)
    } else if b == 0x02 {
        Some(Op::Print)
    } else if b == 0x03 {
        Some(Op::Px)
    } else if b == 0x05 {
        Some(Op::Input)
    } else if b == 0x06 {
        Some(Op::AppendValue)
    } else if b == 0x07 {
        Some(Op::ClearValue)
    } else if b == 0x08 {
        Some(Op::Add)
    } else if b == 0x09 {
        Some(Op::Sub)
    } else if b == 0x0A {
        Some(Op::Nl)
    } else if b == 0x0B {
        Some(Op::Cls)
    } else if b == 0x0C {
        Some(Op::Wait)
    } else {
        None
    }
}

/// Commands whose opcode is followed by a text argument ended by a zero byte.
pub open spec fn takes_text(op: Op) -> bool {
    op == Op::SetValue || op == Op::AppendValue || op == Op::Add || op == Op::Sub
}

/// Where the text argument that starts at `from` ends: the first zero byte at
/// or after `from`, or the end of the program.
pub open spec fn arg_end(p: Seq<u8>, from: int) -> int
    decreases p.len() - from,
{
    if from >= p.len() {
        p.len() as int
    } else if p[from] == 0 {
        from
    } else {
        arg_end(p, from + 1)
    }
}

/// A text argument never holds the zero byte that ends it; with no zero
/// byte left before the end of the program, it runs to that end.
pub proof fn lemma_argument_stops_at_zero(p: Seq<u8>, from: int)
    requires
        0 <= from <= p.len(),
    ensures
        from <= arg_end(p, from) <= p.len(),
        forall|k: int| from <= k < arg_end(p, from) ==> p[k] != 0,
        arg_end(p, from) < p.len() ==> p[arg_end(p, from)] == 0,
        (forall|k: int| from <= k < p.len() ==> p[k] != 0) ==> arg_end(p, from) == p.len(),
    decreases p.len() - from,
{
    if from < p.len() && p[from] != 0 {
        lemma_argument_stops_at_zero(p, from + 1);
    }
}

/// A text argument of UTF-8 bytes without a zero byte decodes to a text
/// without a NUL character.
pub proof fn lemma_text_argument_has_no_nul(a: Seq<u8>)
    requires
        valid_utf8(a),
        forall|k: int| 0 <= k < a.len() ==> a[k] != 0,
    ensures
        forall|i: int| 0 <= i < decode_utf8(a).len() ==> decode_utf8(a)[i] != '\0',
    decreases a.len(),
{
    if a.len() > 0 {
        let n = length_of_first_scalar(a);
        let rest = pop_first_scalar(a);
        assert forall|k: int| 0 <= k < rest.len() implies rest[k] != 0 by {
            assert(rest[k] == a[k + n]);
        }
        lemma_text_argument_has_no_nul(rest);
        let b = a[0];
        if is_leading_byte_width_1(b) {
            assert((b & 0x7F) == b && ((b & 0x7F) as u32) <= 0x7F) by (bit_vector)
                requires
                    b <= 0x7f,
            ;
        } else if is_leading_byte_width_2(b) {
            let b1 = a[1];
            assert(((((b & 0x1F) as u32) << 6) | ((b1 & 0x3F) as u32)) <= 0x7FF) by (bit_vector);
        } else if is_leading_byte_width_3(b) {
            let b1 = a[1];
            let b2 = a[2];
            assert(((((b & 0x0F) as u32) << 12) | (((b1 & 0x3F) as u32) << 6) | ((b2 & 0x3F) as u32))
                <= 0xFFFF) by (bit_vector);
        }
        let cp = decode_first_scalar(a);
        assert(0 < cp <= 0x10FFFF);
        assert(decode_utf8(a) == seq![cp as char] + decode_utf8(rest));
        assert forall|i: int| 0 <= i < decode_utf8(a).len() implies decode_utf8(a)[i] != '\0' by {
            if i > 0 {
                assert(decode_utf8(a)[i] == decode_utf8(rest)[i - 1]);
            }
        }
    }
}

/// Where decoding goes on after a text argument that starts at `from`: past
/// its zero byte, or at the end of the program when it has none.
pub open spec fn after_arg(p: Seq<u8>, from: int) -> int {
    if arg_end(p, from) < p.len() {
        arg_end(p, from) + 1
    } else {
        p.len() as int
    }
}

/// The offset that a jump byte names: one less than the byte, and 0 for 0.
pub open spec fn goto_target(t: u8) -> int {
    if t == 0 {
        0
    } else {
        t - 1
    }
}

/// Where a machine at `pc` goes next: past the instruction, to a jump's
/// target, or to the end of the program when it halts.
pub open spec fn next_pc(p: Seq<u8>, pc: int) -> int {
    if p[pc] == GOTO_OPCODE {
        if pc + 1 < p.len() && goto_target(p[pc + 1]) < p.len() {
            goto_target(p[pc + 1])
        } else {
            p.len() as int
        }
    } else {
        match op_of(p[pc]) {
            Some(op) => if takes_text(op) {
                after_arg(p, pc + 1)
            } else {
                pc + 1
            },
            None => pc + 1,
        }
    }
}

/// Where a machine that starts at `pc` stands after `k` steps, or where it
/// stopped if the program ended first.
pub open spec fn pc_after(p: Seq<u8>, pc: int, k: nat) -> int
    decreases k,
{
    if k == 0 || !(0 <= pc < p.len()) {
        pc
    } else {
        pc_after(p, next_pc(p, pc), (k - 1) as nat)
    }
}

/// An opcode that runs a command and takes no argument.
pub open spec fn is_plain_opcode(b: u8) -> bool {
    match op_of(b) {
        Some(op) => !takes_text(op),
        None => false,
    }
}

/// In a program made of no-argument opcodes alone, each step moves one byte
/// on: step `k` runs the command of byte `k`, so the commands run once each,
/// in the order of the bytes, and the run ends after as many steps as bytes.
pub proof fn lemma_plain_program_runs_in_order(p: Seq<u8>, j: int, k: nat)
    requires
        forall|i: int| 0 <= i < p.len() ==> is_plain_opcode(#[trigger] p[i]),
        0 <= j,
        j + k <= p.len(),
    ensures
        pc_after(p, j, k) == j + k,
    decreases k,
{
    if k > 0 {
        assert(is_plain_opcode(p[j]));
        assert(next_pc(p, j) == j + 1);
        lemma_plain_program_runs_in_order(p, j + 1, (k - 1) as nat);
    }
}

/// A program that starts with a jump to byte 0 never ends: after any number
/// of steps the machine stands at offset 0 again.
pub proof fn lemma_goto_zero_loops(p: Seq<u8>, k: nat)
    requires
        p.len() >= 2,
        p[0] == GOTO_OPCODE,
        p[1] == 0,
    ensures
        pc_after(p, 0, k) == 0,
    decreases k,
{
    if k > 0 {
        assert(next_pc(p, 0) == 0);
        lemma_goto_zero_loops(p, (k - 1) as nat);
    }
}

/// The note shown when a text argument is not UTF-8.
pub open spec fn utf8_note(op: Op) -> Seq<char> {
    if op == Op::SetValue {
        "Invalid UTF-8 in SETVALUE arguments"@
    } else if op == Op::AppendValue {
        "Invalid UTF-8 in APPEND_VALUE arguments"@
    } else if op == Op::Add {
        "Invalid UTF-8 in ADD arguments"@
    } else {
        "Invalid UTF-8 in SUB arguments"@
    }
}

/// The register after a text command with argument `a`.
pub open spec fn text_result(op: Op, v: Seq<char>, a: Seq<char>) -> Seq<char> {
    match op {
        Op::SetValue => a,
        Op::AppendValue => v + a,
        Op::Add => sum_text(v, a),
        Op::Sub => difference_text(v, a),
        _ => v,
    }
}

/// Whether running `op` with argument bytes `arg` on register `v` may leave
/// register `v2` and ask the console for `e`.
pub open spec fn op_outcome(op: Op, v: Seq<char>, arg: Seq<u8>, v2: Seq<char>, e: Effect) -> bool {
    if takes_text(op) {
        if valid_utf8(arg) {
            v2 == text_result(op, v, decode_utf8(arg)) && e is Nothing
        } else {
            v2 == v && match e {
                Effect::Line(s) => s@ == utf8_note(op),
                _ => false,
            }
        }
    } else {
        match op {
            Op::Print => v2 == v && match e {
                Effect::Line(s) => s@ == print_prefix() + v,
                _ => false,
            },
            Op::Px => v2 == v && match e {
                Effect::Text(s) => glyph_of(v) == Some(s@),
                Effect::Line(s) => glyph_of(v) is None && s@ == unknown_color_note(v),
                _ => false,
            },
            Op::Input => v2 == v && e is ReadLine,
            Op::ClearValue => v2 == undefined_text() && e is Nothing,
            Op::Nl => v2 == v && match e {
                Effect::Line(s) => s@.len() == 0,
                _ => false,
            },
            Op::Cls => v2 == v && match e {
                Effect::Text(s) => s@ == clear_screen_text(),
                _ => false,
            },
            Op::Wait => v2 == v && match u64_of_text(v) {
                Some(ms) => e == Effect::Sleep(ms),
                None => match e {
                    Effect::Line(s) => s@ == wait_format_note(),
                    _ => false,
                },
            },
            _ => false,
        }
    }
}

/// One decoded instruction.
#[derive(Debug)]
pub enum Instruction {
    /// Run a command with these argument bytes, then go on at `next`.
    Run { op: Op, arg: Vec<u8>, next: usize },
    /// Go on at `target`.
    Jump { target: usize },
    /// A jump whose target byte lies past the end of the program.
    BadJump { byte: u8 },
    /// A jump opcode at the very end of the program, with no target byte.
    MissingTarget,
    /// An unknown opcode, skipped.
    Skip,
}

/// Why a run stopped before the end of its program.
#[derive(Clone, Copy, PartialEq, Eq, Structural, Debug)]
pub enum RunError {
    /// A jump named this target byte, which lies past the end of the program.
    GotoOutOfBounds(u8),
    /// The program ended right after a jump opcode.
    MissingGotoTarget,
}

/// The outcome of one step of a machine.
#[derive(Debug)]
pub enum Step {
    /// The step ran; the console is asked for this.
    Continue(Effect),
    /// The run stopped on an error.
    Halt(RunError),
}

/// The command of an opcode byte.
pub fn op_for(b: u8) -> (r: Option<Op>)
    ensures
        r == op_of(b),
{
    match b {
        0x01 => Some(Op::SetValue),
        0x02 => Some(Op::Print),
        0x03 => Some(Op::Px),
        0x05 => Some(Op::Input),
        0x06 => Some(Op::AppendValue),
        0x07 => Some(Op::ClearValue),
        0x08 => Some(Op::Add),
        0x09 => Some(Op::Sub),
        0x0A => Some(Op::Nl),
        0x0B => Some(Op::Cls),
        0x0C => Some(Op::Wait),
        _ => None,
    }
}

/// Decodes the instruction at offset `pc` of a program.
pub fn decode(program: &[u8], pc: usize) -> (r: Instruction)
    requires
        pc < program@.len(),
    ensures
        ({
            let p = program@;
            let b = p[pc as int];
            match r {
                Instruction::Run { op, arg, next } => op_of(b) == Some(op) && if takes_text(op) {
                    arg@ == p.subrange(pc + 1, arg_end(p, pc + 1)) && next == after_arg(p, pc + 1)
                } else {
                    arg@.len() == 0 && next == pc + 1
                },
                Instruction::Jump { target } => b == GOTO_OPCODE && pc + 1 < p.len() && target
                    == goto_target(p[pc + 1]) && target < p.len(),
                Instruction::BadJump { byte } => b == GOTO_OPCODE && pc + 1 < p.len() && byte == p[pc
                    + 1] && goto_target(byte) >= p.len(),
                Instruction::MissingTarget => b == GOTO_OPCODE && pc + 1 == p.len(),
                Instruction::Skip => b != GOTO_OPCODE && op_of(b) is None,
            }
        }),
{
    let b = program[pc];
    if b == GOTO_OPCODE {
        if pc + 1 < program.len() {
            let t = program[pc + 1];
            let target: usize = if t == 0 {
                0
            } else {
                (t - 1) as usize
            };
            if target < program.len() {
                Instruction::Jump { target }
            } else {
                Instruction::BadJump { byte: t }
            }
        } else {
            Instruction::MissingTarget
        }
    } else {
        match op_for(b) {
            None => Instruction::Skip,
            Some(op) => {
                if op == Op::SetValue || op == Op::AppendValue || op == Op::Add || op == Op::Sub {
                    let mut arg: Vec<u8> = Vec::new();
                    let mut i: usize = pc + 1;
                    while i < program.len() && program[i] != 0
                        invariant
                            pc + 1 <= i <= program@.len(),
                            arg_end(program@, pc + 1) == arg_end(program@, i as int),
                            arg@ == program@.subrange(pc + 1, i as int),
                        decreases program@.len() - i,
                    {
                        arg.push(program[i]);
                        i += 1;
                        assert(arg@ =~= program@.subrange(pc + 1, i as int));
                    }
                    let next: usize = if i < program.len() {
                        i + 1
                    } else {
                        i
                    };
                    Instruction::Run { op, arg, next }
                } else {
                    Instruction::Run { op, arg: Vec::new(), next: pc + 1 }
                }
            },
        }
    }
}

/// Relies on `String::from_utf8`: `Ok` exactly when the bytes are UTF-8, with
/// the characters that they encode.
#[verifier::external_body]
fn utf8_to_text(bytes: Vec<u8>) -> (r: Option<String>)
    ensures
        match r {
            Some(s) => valid_utf8(bytes@) && s@ == decode_utf8(bytes@),
            None => !valid_utf8(bytes@),
        },
{
    String::from_utf8(bytes).ok()
}

/// The note shown when the argument of a text command is not UTF-8.
fn utf8_note_text(op: Op) -> (r: String)
    requires
        takes_text(op),
    ensures
        r@ == utf8_note(op),
{
    match op {
        Op::SetValue => String::from_str("Invalid UTF-8 in SETVALUE arguments"),
        Op::AppendValue => String::from_str("Invalid UTF-8 in APPEND_VALUE arguments"),
        Op::Add => String::from_str("Invalid UTF-8 in ADD arguments"),
        _ => String::from_str("Invalid UTF-8 in SUB arguments"),
    }
}

/// Runs one command on the register, with the argument bytes that followed it.
pub fn run_op(value: &mut String, op: Op, arg: Vec<u8>) -> (r: Effect)
    requires
        !takes_text(op) ==> arg@.len() == 0,
    ensures
        op_outcome(op, old(value)@, arg@, final(value)@, r),
{
    if op == Op::SetValue || op == Op::AppendValue || op == Op::Add || op == Op::Sub {
        let ghost bytes = arg@;
        match utf8_to_text(arg) {
            None => Effect::Line(utf8_note_text(op)),
            Some(s) => {
                let words: Vec<&str> = vec![s.as_str()];
                proof {
                    assert(words_of(words@) =~= seq![s@]);
                    assert(joined(words_of(words@)) == s@);
                }
                match op {
                    Op::SetValue => SETVALUE(value, words.as_slice()),
                    Op::AppendValue => APPEND_VALUE(value, words.as_slice()),
                    Op::Add => ADD(value, words.as_slice()),
                    _ => SUB(value, words.as_slice()),
                }
                Effect::Nothing
            },
        }
    } else {
        match op {
            Op::Print => PRINT(value.as_str()),
            Op::Px => PX(value.as_str()),
            Op::Input => Effect::ReadLine,
            Op::ClearValue => {
                CLEAR_VALUE(value);
                Effect::Nothing
            },
            Op::Nl => NL(),
            Op::Cls => CLS(),
            _ => WAIT(value.as_str()),
        }
    }
}

/// A program being run: its bytes, the offset of the next opcode, and the
/// register that every command reads and writes.
pub struct Machine {
    pub program: Vec<u8>,
    pub pc: usize,
    pub value: String,
}

impl Machine {
    /// A machine at the start of a program, with a fresh register.
    pub fn new(program: Vec<u8>) -> (r: Machine)
        ensures
            r.program@ == program@,
            r.pc == 0,
            r.value@ == undefined_text(),
    {
        Machine { program, pc: 0, value: undefined_value() }
    }

    /// Whether an opcode is left to run.
    pub fn running(&self) -> (r: bool)
        ensures
            r == (self.pc < self.program@.len()),
    {
        self.pc < self.program.len()
    }

    /// Hands the machine a line read from the console, as `INPUT` does.
    pub fn input(&mut self, line: &str)
        ensures
            final(self).program@ == old(self).program@,
            final(self).pc == old(self).pc,
            final(self).value@ == crate::commands::trimmed_end(line@),
    {
        INPUT(&mut self.value, line);
    }

    /// Decodes and runs the opcode at `pc`.
    pub fn step(&mut self) -> (r: Step)
        requires
            old(self).pc < old(self).program@.len(),
        ensures
            ({
                let p = old(self).program@;
                let pc = old(self).pc as int;
                let v = old(self).value@;
                let b = p[pc];
                &&& final(self).program@ == p
                &&& final(self).pc == next_pc(p, pc)
                &&& b == GOTO_OPCODE && pc + 1 < p.len() && goto_target(p[pc + 1]) < p.len() ==> {
                    &&& final(self).pc == goto_target(p[pc + 1])
                    &&& final(self).value@ == v
                    &&& r matches Step::Continue(Effect::Nothing)
                }
                &&& b == GOTO_OPCODE && pc + 1 < p.len() && goto_target(p[pc + 1]) >= p.len() ==> {
                    &&& final(self).pc == p.len()
                    &&& final(self).value@ == v
                    &&& r == Step::Halt(RunError::GotoOutOfBounds(p[pc + 1]))
                }
                &&& b == GOTO_OPCODE && pc + 1 == p.len() ==> {
                    &&& final(self).pc == p.len()
                    &&& final(self).value@ == v
                    &&& r == Step::Halt(RunError::MissingGotoTarget)
                }
                &&& b != GOTO_OPCODE && op_of(b) is None ==> {
                    &&& final(self).pc == pc + 1
                    &&& final(self).value@ == v
                    &&& r matches Step::Continue(Effect::Nothing)
                }
                &&& op_of(b) matches Some(op) ==> {
                    &&& takes_text(op) ==> final(self).pc == after_arg(p, pc + 1)
                    &&& !takes_text(op) ==> final(self).pc == pc + 1
                    &&& r matches Step::Continue(e) && op_outcome(
                        op,
                        v,
                        if takes_text(op) {
                            p.subrange(pc + 1, arg_end(p, pc + 1))
                        } else {
                            Seq::empty()
                        },
                        final(self).value@,
                        e,
                    )
                }
            }),
    {
        let len = self.program.len();
        match decode(self.program.as_slice(), self.pc) {
            Instruction::Run { op, arg, next } => {
                let e = run_op(&mut self.value, op, arg);
                self.pc = next;
                Step::Continue(e)
            },
            Instruction::Jump { target } => {
                self.pc = target;
                Step::Continue(Effect::Nothing)
            },
            Instruction::BadJump { byte } => {
                self.pc = self.program.len();
                Step::Halt(RunError::GotoOutOfBounds(byte))
            },
            Instruction::MissingTarget => {
                self.pc = self.program.len();
                Step::Halt(RunError::MissingGotoTarget)
            },
            Instruction::Skip => {
                assert(self.pc < len);
                self.pc = self.pc + 1;
                Step::Continue(Effect::Nothing)
            },
        }
    }
}

} // verus!
