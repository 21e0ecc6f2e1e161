use fbasic::commands::{
    glyph_for, undefined_value, Effect, ADD, APPEND_VALUE, CLEAR_VALUE, CLS, GOTO, INPUT, NL, PRINT,
    PX, SETVALUE, SUB, WAIT,
};
use fbasic::executor::{execute, op_named_by, split_line};
use fbasic::interpreter::{decode, op_for, run_op, Instruction, Machine, Op, RunError, Step};
use fbasic::loader::{load, sniff_package};
use fbasic::package::{unwrap_package, PackageError};
use fbasic::text::{concat_text, join_words, same_text};

fn value(s: &str) -> String {
    s.to_string()
}

fn line_text(e: Effect) -> String {
    match e {
        Effect::Line(s) => s,
        other => panic!("expected a line, got {:?}", other),
    }
}

fn plain_text(e: Effect) -> String {
    match e {
        Effect::Text(s) => s,
        other => panic!("expected text, got {:?}", other),
    }
}

#[test]
fn register_starts_undefined() {
    assert_eq!(undefined_value(), "undefined");
    let m = Machine::new(vec![0x02]);
    assert_eq!(m.value, "undefined");
    assert_eq!(m.pc, 0);
}

#[test]
fn setvalue_joins_arguments_with_single_spaces() {
    let mut v = undefined_value();
    SETVALUE(&mut v, &["hello", "big", "world"]);
    assert_eq!(v, "hello big world");
    SETVALUE(&mut v, &[]);
    assert_eq!(v, "");
}

#[test]
fn append_value_adds_no_separator() {
    let mut v = value("abc");
    APPEND_VALUE(&mut v, &["de", "f"]);
    assert_eq!(v, "abcde f");
}

#[test]
fn clear_value_resets_to_undefined() {
    let mut v = value("42");
    CLEAR_VALUE(&mut v);
    assert_eq!(v, "undefined");
}

#[test]
fn goto_command_does_nothing() {
    GOTO(&["3"]);
}

#[test]
fn add_and_sub_on_numbers() {
    let mut v = value("10");
    ADD(&mut v, &["5"]);
    assert_eq!(v, "15");
    SUB(&mut v, &["20"]);
    assert_eq!(v, "-5");
    ADD(&mut v, &["+7"]);
    assert_eq!(v, "2");
    SUB(&mut v, &["-3"]);
    assert_eq!(v, "5");
}

#[test]
fn add_keeps_a_non_numeric_register() {
    let mut v = value("abc");
    ADD(&mut v, &["5"]);
    assert_eq!(v, "abc");
    SUB(&mut v, &["5"]);
    assert_eq!(v, "abc");
}

#[test]
fn add_keeps_register_on_non_numeric_argument() {
    let mut v = value("7");
    ADD(&mut v, &["five"]);
    assert_eq!(v, "7");
    SUB(&mut v, &["1", "2"]);
    assert_eq!(v, "7");
    ADD(&mut v, &[" 5"]);
    assert_eq!(v, "7");
}

#[test]
fn add_keeps_register_when_the_sum_overflows() {
    let mut v = value("2147483647");
    ADD(&mut v, &["1"]);
    assert_eq!(v, "2147483647");
    let mut w = value("-2147483648");
    SUB(&mut w, &["1"]);
    assert_eq!(w, "-2147483648");
    ADD(&mut w, &["2147483647"]);
    assert_eq!(w, "-1");
}

#[test]
fn print_prefixes_the_register() {
    assert_eq!(line_text(PRINT("hi")), "[fBASIC] hi");
    assert_eq!(line_text(PRINT("")), "[fBASIC] ");
}

#[test]
fn px_red_draws_one_red_square() {
    let s = plain_text(PX("red"));
    assert_eq!(s, "\u{1F7E5}");
    assert_eq!(s.chars().count(), 1);
}

#[test]
fn px_unknown_color_names_the_value() {
    let s = line_text(PX("mauve"));
    assert!(s.contains("mauve"));
    assert_eq!(s, "Unknown color attempted to render pixel! mauve");
    assert!(!s.contains('\u{1F7E5}'));
}

#[test]
fn glyph_table_entries() {
    assert_eq!(glyph_for("newline").unwrap(), "\n");
    assert_eq!(glyph_for("clear").unwrap(), " ");
    assert_eq!(glyph_for("refresh").unwrap(), "\x1B[2J\x1B[1;1H");
    assert_eq!(glyph_for("blue").unwrap(), "\u{1F7E6}");
    assert_eq!(glyph_for("bricks").unwrap(), "\u{1F9F1}");
    assert_eq!(glyph_for("pink").unwrap(), "\u{2B1C}");
    assert!(glyph_for("Red").is_none());
    assert!(glyph_for("").is_none());
}

#[test]
fn nl_and_cls_effects() {
    assert_eq!(line_text(NL()), "");
    assert_eq!(plain_text(CLS()), "\x1B[2J\x1B[1;1H");
}

#[test]
fn wait_reads_milliseconds() {
    assert!(matches!(WAIT("250"), Effect::Sleep(250)));
    assert!(matches!(WAIT("+3"), Effect::Sleep(3)));
    let s = line_text(WAIT("-3"));
    assert!(s.contains("milliseconds"));
    assert!(matches!(WAIT("soon"), Effect::Line(_)));
}

#[test]
fn input_trims_the_line() {
    let mut v = value("old");
    INPUT(&mut v, "  typed text \n");
    assert_eq!(v, "  typed text");
    INPUT(&mut v, "ab\t \r\n");
    assert_eq!(v, "ab");
    INPUT(&mut v, "\n");
    assert_eq!(v, "");
}

#[test]
fn text_helpers() {
    assert_eq!(join_words(&["a", "", "b"]), "a  b");
    assert!(same_text("abc", "abc"));
    assert!(!same_text("abc", "abd"));
    assert!(!same_text("ab", "abc"));
    assert_eq!(concat_text("ab", "cd"), "abcd");
}

#[test]
fn split_line_keeps_empty_pieces() {
    assert_eq!(split_line("SETVALUE a  b"), vec!["SETVALUE", "a", "", "b"]);
    assert_eq!(split_line(""), vec![""]);
    assert_eq!(split_line("PRINT"), vec!["PRINT"]);
    assert_eq!(split_line("X "), vec!["X", ""]);
}

#[test]
fn execute_runs_registry_commands() {
    let mut v = undefined_value();
    assert!(matches!(execute(&mut v, "SETVALUE 40"), Effect::Nothing));
    assert!(matches!(execute(&mut v, "ADD 2"), Effect::Nothing));
    assert_eq!(v, "42");
    assert_eq!(line_text(execute(&mut v, "PRINT")), "[fBASIC] 42");
    assert!(matches!(execute(&mut v, "INPUT"), Effect::ReadLine));
    assert!(matches!(execute(&mut v, "CLEAR_VALUE"), Effect::Nothing));
    assert_eq!(v, "undefined");
    assert!(matches!(execute(&mut v, "APPEND_VALUE x y"), Effect::Nothing));
    assert_eq!(v, "undefinedx y");
}

#[test]
fn execute_reports_unknown_commands() {
    let mut v = value("keep");
    assert_eq!(line_text(execute(&mut v, "JUMP 3")), "Unknown command attempted! JUMP");
    assert_eq!(line_text(execute(&mut v, "")), "Unknown command attempted! ");
    assert_eq!(line_text(execute(&mut v, "goto")), "Unknown command attempted! goto");
    assert_eq!(v, "keep");
}

#[test]
fn execute_goto_is_a_placeholder() {
    let mut v = value("keep");
    assert!(matches!(execute(&mut v, "GOTO"), Effect::Nothing));
    assert!(matches!(execute(&mut v, "GOTO 1"), Effect::Nothing));
    assert_eq!(v, "keep");
}

#[test]
fn mnemonics_and_opcodes() {
    assert_eq!(op_named_by("WAIT"), Some(Op::Wait));
    assert_eq!(op_named_by("wait"), None);
    assert_eq!(op_for(0x01), Some(Op::SetValue));
    assert_eq!(op_for(0x0C), Some(Op::Wait));
    assert_eq!(op_for(0x04), None);
    assert_eq!(op_for(0x0D), None);
}

#[test]
fn no_argument_opcodes_advance_by_one() {
    for (b, op) in [
        (0x02u8, Op::Print),
        (0x03, Op::Px),
        (0x05, Op::Input),
        (0x07, Op::ClearValue),
        (0x0A, Op::Nl),
        (0x0B, Op::Cls),
        (0x0C, Op::Wait),
    ] {
        let program = vec![0x00, b, 0x41, 0x00];
        match decode(&program, 1) {
            Instruction::Run { op: got, arg, next } => {
                assert_eq!(got, op);
                assert!(arg.is_empty());
                assert_eq!(next, 2);
            }
            other => panic!("unexpected {:?}", other),
        }
    }
}

#[test]
fn no_argument_step_runs_its_command() {
    let mut m = Machine::new(vec![0x07, 0x02]);
    m.value = value("x");
    assert!(matches!(m.step(), Step::Continue(Effect::Nothing)));
    assert_eq!(m.pc, 1);
    assert_eq!(m.value, "undefined");
    match m.step() {
        Step::Continue(e) => assert_eq!(line_text(e), "[fBASIC] undefined"),
        other => panic!("unexpected {:?}", other),
    }
    assert_eq!(m.pc, 2);
    assert!(!m.running());
}

#[test]
fn text_argument_stops_at_zero_byte() {
    let program = vec![0x01, b'a', b'b', 0x00, 0x02];
    match decode(&program, 0) {
        Instruction::Run { op, arg, next } => {
            assert_eq!(op, Op::SetValue);
            assert_eq!(arg, b"ab".to_vec());
            assert!(!arg.contains(&0));
            assert_eq!(next, 4);
        }
        other => panic!("unexpected {:?}", other),
    }
}

#[test]
fn text_argument_without_terminator_runs_to_the_end() {
    let program = vec![0x06, b'x', b'y'];
    match decode(&program, 0) {
        Instruction::Run { op, arg, next } => {
            assert_eq!(op, Op::AppendValue);
            assert_eq!(arg, b"xy".to_vec());
            assert_eq!(next, 3);
        }
        other => panic!("unexpected {:?}", other),
    }
    let mut m = Machine::new(program);
    m.value = value("a");
    assert!(matches!(m.step(), Step::Continue(Effect::Nothing)));
    assert_eq!(m.value, "axy");
    assert!(!m.running());
}

#[test]
fn empty_text_argument() {
    let mut m = Machine::new(vec![0x01, 0x00]);
    m.step();
    assert_eq!(m.value, "");
    assert_eq!(m.pc, 2);
}

#[test]
fn invalid_utf8_argument_is_reported() {
    let mut m = Machine::new(vec![0x01, 0xFF, 0x00, 0x02]);
    match m.step() {
        Step::Continue(e) => assert_eq!(line_text(e), "Invalid UTF-8 in SETVALUE arguments"),
        other => panic!("unexpected {:?}", other),
    }
    assert_eq!(m.value, "undefined");
    assert_eq!(m.pc, 3);
    let mut v = value("1");
    assert_eq!(
        line_text(run_op(&mut v, Op::Add, vec![0xC3])),
        "Invalid UTF-8 in ADD arguments"
    );
    assert_eq!(v, "1");
}

#[test]
fn goto_jumps_to_one_less_than_its_byte() {
    let program = vec![0x02, 0x02, 0x04, 0x02];
    assert!(matches!(decode(&program, 2), Instruction::Jump { target: 1 }));
    let program = vec![0x04, 0x00];
    assert!(matches!(decode(&program, 0), Instruction::Jump { target: 0 }));
    let program = vec![0x02, 0x04, 0x01];
    assert!(matches!(decode(&program, 1), Instruction::Jump { target: 0 }));
}

#[test]
fn goto_past_the_end_halts() {
    let program = vec![0x04, 0x03];
    assert!(matches!(decode(&program, 0), Instruction::BadJump { byte: 3 }));
    let mut m = Machine::new(vec![0x02, 0x04, 0xFF]);
    m.step();
    match m.step() {
        Step::Halt(e) => assert_eq!(e, RunError::GotoOutOfBounds(0xFF)),
        other => panic!("unexpected {:?}", other),
    }
    assert!(!m.running());
}

#[test]
fn goto_without_target_halts() {
    let mut m = Machine::new(vec![0x04]);
    match m.step() {
        Step::Halt(e) => assert_eq!(e, RunError::MissingGotoTarget),
        other => panic!("unexpected {:?}", other),
    }
    assert!(!m.running());
}

#[test]
fn goto_step_moves_pc() {
    let mut m = Machine::new(vec![0x07, 0x04, 0x01]);
    m.step();
    assert!(matches!(m.step(), Step::Continue(Effect::Nothing)));
    assert_eq!(m.pc, 0);
    assert!(m.running());
}

#[test]
fn unknown_opcodes_are_skipped() {
    let program = vec![0xEE, 0x00, 0x0D];
    assert!(matches!(decode(&program, 0), Instruction::Skip));
    assert!(matches!(decode(&program, 1), Instruction::Skip));
    let mut m = Machine::new(program);
    m.value = value("same");
    while m.running() {
        assert!(matches!(m.step(), Step::Continue(Effect::Nothing)));
    }
    assert_eq!(m.value, "same");
    assert_eq!(m.pc, 3);
}

#[test]
fn setvalue_then_print_shows_hi() {
    let mut m = Machine::new(vec![0x01, b'h', b'i', 0x00, 0x02]);
    let mut lines: Vec<String> = Vec::new();
    while m.running() {
        match m.step() {
            Step::Continue(Effect::Line(s)) => lines.push(s),
            Step::Continue(_) => {}
            Step::Halt(e) => panic!("halted: {:?}", e),
        }
    }
    assert_eq!(lines, vec!["[fBASIC] hi".to_string()]);
}

#[test]
fn input_step_asks_for_a_line() {
    let mut m = Machine::new(vec![0x05, 0x02]);
    assert!(matches!(m.step(), Step::Continue(Effect::ReadLine)));
    m.input("  yes\n");
    assert_eq!(m.value, "  yes");
    assert_eq!(m.pc, 1);
}

#[test]
fn arithmetic_through_opcodes() {
    let mut m = Machine::new(vec![0x01, b'1', b'0', 0x00, 0x08, b'5', 0x00, 0x09, b'2', 0x00]);
    while m.running() {
        m.step();
    }
    assert_eq!(m.value, "13");
}

fn fixture() -> Vec<u8> {
    let mut b = vec![0x00, 0x01, 4];
    b.extend_from_slice(b"test");
    b.push(0);
    b.extend_from_slice(&[0x00, 0x02, 0x01, 0x01]);
    b
}

#[test]
fn package_round_trip() {
    let pkg = unwrap_package(&fixture()).unwrap();
    assert_eq!(pkg.name, "test");
    assert_eq!(pkg.version, 1);
    assert_eq!(pkg.description, "");
    assert_eq!(pkg.payload, vec![0x01, 0x01]);
}

#[test]
fn package_with_large_payload_length() {
    let b = vec![0x00, 0x01, 4, b't', b'e', b's', b't', 0, 0x02, 0x01, 0x01, 0x01];
    assert_eq!(unwrap_package(&b).unwrap_err(), PackageError::PayloadIncomplete);
    let mut big = vec![0x00, 0x07, 0, 1, b'd', 0x01, 0x00];
    big.extend(std::iter::repeat(0x02u8).take(256));
    let pkg = unwrap_package(&big).unwrap();
    assert_eq!(pkg.payload.len(), 256);
    assert_eq!(pkg.description, "d");
    assert_eq!(pkg.name, "");
}

#[test]
fn empty_package_fields() {
    let pkg = unwrap_package(&[0x00, 0x07, 0x00, 0x00, 0x00, 0x00]).unwrap();
    assert_eq!(pkg.version, 7);
    assert_eq!(pkg.name, "");
    assert_eq!(pkg.description, "");
    assert!(pkg.payload.is_empty());
}

#[test]
fn package_lossy_name() {
    let b = vec![0x00, 0x02, 1, 0xFF, 0, 0, 0];
    let pkg = unwrap_package(&b).unwrap();
    assert_eq!(pkg.name, "\u{FFFD}");
    assert!(pkg.payload.is_empty());
}

#[test]
fn truncated_packages_are_errors() {
    let b = fixture();
    for k in 0..b.len() {
        assert!(unwrap_package(&b[..k]).is_err(), "prefix of {} bytes", k);
    }
    assert_eq!(unwrap_package(&b[..5]).unwrap_err(), PackageError::TooSmall);
    assert_eq!(unwrap_package(&b[..6]).unwrap_err(), PackageError::NameOverrun);
    assert_eq!(unwrap_package(&b[..7]).unwrap_err(), PackageError::DescriptionOverrun);
    assert_eq!(unwrap_package(&b[..8]).unwrap_err(), PackageError::MissingPayloadLength);
    assert_eq!(unwrap_package(&b[..9]).unwrap_err(), PackageError::MissingPayloadLength);
    assert_eq!(unwrap_package(&b[..10]).unwrap_err(), PackageError::PayloadIncomplete);
    assert_eq!(unwrap_package(&b[..11]).unwrap_err(), PackageError::PayloadIncomplete);
}

#[test]
fn package_errors_by_field() {
    assert_eq!(
        unwrap_package(&[0x01, 0, 0, 0, 0, 0]).unwrap_err(),
        PackageError::InvalidMarker
    );
    assert_eq!(
        unwrap_package(&[0x00, 0, 9, 0, 0, 0]).unwrap_err(),
        PackageError::NameOverrun
    );
    assert_eq!(
        unwrap_package(&[0x00, 0, 0, 9, 0, 0]).unwrap_err(),
        PackageError::DescriptionOverrun
    );
    assert_eq!(
        unwrap_package(&[0x00, 0, 2, b'a', b'b', 0]).unwrap_err(),
        PackageError::MissingPayloadLength
    );
}

#[test]
fn loader_tells_packages_from_programs() {
    assert!(sniff_package(&[0x00, 1]));
    assert!(!sniff_package(&[0x02]));
    assert!(!sniff_package(&[]));

    let raw = load(vec![0x02, 0x0A]).unwrap();
    assert!(raw.notes.is_empty());
    assert_eq!(raw.machine.program, vec![0x02, 0x0A]);

    let packed = load(fixture()).unwrap();
    assert_eq!(
        packed.notes,
        vec![
            "Package Name: test".to_string(),
            "Description: ".to_string(),
            "Version: 1".to_string(),
            "Running embedded program...".to_string(),
        ]
    );
    assert_eq!(packed.machine.program, vec![0x01, 0x01]);
    assert_eq!(packed.machine.value, "undefined");

    assert_eq!(load(vec![0x00, 1]).err(), Some(PackageError::TooSmall));
    assert!(load(Vec::new()).unwrap().machine.program.is_empty());
}

#[test]
fn plain_program_runs_each_command_in_order() {
    let mut m = Machine::new(vec![0x02, 0x0A, 0x07, 0x02]);
    m.value = value("v");
    let mut seen: Vec<String> = Vec::new();
    let mut steps: usize = 0;
    while m.running() {
        steps += 1;
        match m.step() {
            Step::Continue(Effect::Line(s)) => seen.push(s),
            Step::Continue(Effect::Nothing) => seen.push("-".to_string()),
            other => panic!("unexpected {:?}", other),
        }
        assert_eq!(m.pc, steps);
    }
    assert_eq!(steps, 4);
    assert_eq!(seen, vec!["[fBASIC] v", "", "-", "[fBASIC] undefined"]);
}

#[test]
fn goto_zero_at_start_loops() {
    let mut m = Machine::new(vec![0x04, 0x00, 0x02]);
    for _ in 0..100 {
        assert!(matches!(m.step(), Step::Continue(Effect::Nothing)));
        assert_eq!(m.pc, 0);
    }
    assert!(m.running());
}
