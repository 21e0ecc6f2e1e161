#![allow(non_snake_case)]

use vstd::prelude::*;

use crate::number::{i32_of_text, int_text, u64_of_text, parse_i32, parse_u64, i32_to_text};
use crate::text::{joined, words_of, join_words, same_text, concat_text};

verus! {

/// What a command asks of the console once it has run.
#[derive(Debug)]
pub enum Effect {
    /// Nothing to show.
    Nothing,
    /// Write the text and end the line.
    Line(String),
    /// Write the text as it is and flush, leaving the line open.
    Text(String),
    /// Read one line of input and hand it to `INPUT`.
    ReadLine,
    /// Pause for this many milliseconds.
    Sleep(u64),
}

/// The text that the register holds before anything is stored, and after a clear.
pub open spec fn undefined_text() -> Seq<char> {
    "undefined"@
}

/// The prefix of every printed value.
pub open spec fn print_prefix() -> Seq<char> {
    "[fBASIC] "@
}

/// The note shown when the register names no known glyph.
pub open spec fn unknown_color_note(v: Seq<char>) -> Seq<char> {
    "Unknown color attempted to render pixel! "@ + v
}

/// The note shown when the register holds no number of milliseconds.
pub open spec fn wait_format_note() -> Seq<char> {
    "When running the wait command, the currently-stored value must be in milliseconds!"@
}

/// The escape sequence that clears the screen and homes the cursor.
pub open spec fn clear_screen_text() -> Seq<char> {
    "\x1B[2J\x1B[1;1H"@
}

/// The glyph table: what a pixel of each known name draws.
pub open spec fn glyph_of(name: Seq<char>) -> Option<Seq<char>> {
    if name == "newline"@ {
        Some("\n"@)
    } else if name == "clear"@ {
        Some(" "@)
    } else if name == "refresh"@ {
        Some(clear_screen_text())
    } else if name == "red"@ {
        Some("\u{1F7E5}"@)
    } else if name == "orange"@ {
        Some("\u{1F7E7}"@)
    } else if name == "yellow"@ {
        Some("\u{1F7E8}"@)
    } else if name == "green"@ {
        Some("\u{1F7E9}"@)
    } else if name == "blue"@ {
        Some("\u{1F7E6}"@)
    } else if name == "purple"@ {
        Some("\u{1F7EA}"@)
    } else if name == "brown"@ {
        Some("\u{1F7EB}"@)
    } else if name == "black"@ {
        Some("\u{2B1B}"@)
    } else if name == "pink"@ {
        Some("\u{2B1C}"@)
    } else if name == "bricks"@ {
        Some("\u{1F9F1}"@)
    } else {
        None
    }
}

/// The register after adding `arg` to it: the sum when both read as `i32`
/// and the sum fits, else the register unchanged.
pub open spec fn sum_text(v: Seq<char>, arg: Seq<char>) -> Seq<char> {
    match (i32_of_text(v), i32_of_text(arg)) {
        (Some(c), Some(a)) => if i32::MIN <= c + a && c + a <= i32::MAX {
            int_text(c + a)
        } else {
            v
        },
        _ => v,
    }
}

/// The register after subtracting `arg` from it: the difference when both
/// read as `i32` and the difference fits, else the register unchanged.
pub open spec fn difference_text(v: Seq<char>, arg: Seq<char>) -> Seq<char> {
    match (i32_of_text(v), i32_of_text(arg)) {
        (Some(c), Some(a)) => if i32::MIN <= c - a && c - a <= i32::MAX {
            int_text(c - a)
        } else {
            v
        },
        _ => v,
    }
}

/// Adding or subtracting leaves the register as it was when either side does
/// not read as an `i32`.
pub proof fn lemma_arithmetic_keeps_non_numbers(v: Seq<char>, arg: Seq<char>)
    requires
        i32_of_text(v) is None || i32_of_text(arg) is None,
    ensures
        sum_text(v, arg) == v,
        difference_text(v, arg) == v,
{
}

/// A character with the Unicode White_Space property, as `char::is_whitespace` tells it.
pub open spec fn is_white_space(c: char) -> bool {
    ('\u{9}' <= c && c <= '\u{D}') || c == ' ' || c == '\u{85}' || c == '\u{A0}' || c
        == '\u{1680}' || ('\u{2000}' <= c && c <= '\u{200A}') || c == '\u{2028}' || c
        == '\u{2029}' || c == '\u{202F}' || c == '\u{205F}' || c == '\u{3000}'
}

/// The text without the white space at its end.
pub open spec fn trimmed_end(s: Seq<char>) -> Seq<char>
    decreases s.len(),
{
    if s.len() > 0 && is_white_space(s.last()) {
        trimmed_end(s.drop_last())
    } else {
        s
    }
}

/// Relies on `str::trim_end`: the text with every trailing character that
/// `char::is_whitespace` accepts removed.
#[verifier::external_body]
fn trim_end_text(s: &str) -> (r: String)
    ensures
        r@ == trimmed_end(s@),
{
    s.trim_end().to_string()
}

/// A fresh register.
pub fn undefined_value() -> (r: String)
    ensures
        r@ == undefined_text(),
{
    String::from_str("undefined")
}

/// Replaces the register with the arguments joined by single spaces.
pub fn SETVALUE(value: &mut String, args: &[&str])
    ensures
        final(value)@ == joined(words_of(args@)),
{
    *value = join_words(args);
}

/// Appends the arguments, joined by single spaces, to the register.
pub fn APPEND_VALUE(value: &mut String, args: &[&str])
    ensures
        final(value)@ == old(value)@ + joined(words_of(args@)),
{
    let tail = join_words(args);
    value.append(tail.as_str());
}

/// Resets the register to `undefined`.
pub fn CLEAR_VALUE(value: &mut String)
    ensures
        final(value)@ == undefined_text(),
{
    *value = undefined_value();
}

/// Jumps are made by the interpreter itself: at this layer the command does nothing.
pub fn GOTO(_args: &[&str]) {
}

/// Adds the joined arguments, read as an `i32`, to the register read as an `i32`.
pub fn ADD(value: &mut String, args: &[&str])
    ensures
        final(value)@ == sum_text(old(value)@, joined(words_of(args@))),
{
    let arg = join_words(args);
    if let Some(a) = parse_i32(arg.as_str()) {
        if let Some(c) = parse_i32(value.as_str()) {
            let s: i64 = c as i64 + a as i64;
            if i32::MIN as i64 <= s && s <= i32::MAX as i64 {
                *value = i32_to_text(s as i32);
            }
        }
    }
}

/// Subtracts the joined arguments, read as an `i32`, from the register read as an `i32`.
pub fn SUB(value: &mut String, args: &[&str])
    ensures
        final(value)@ == difference_text(old(value)@, joined(words_of(args@))),
{
    let arg = join_words(args);
    if let Some(a) = parse_i32(arg.as_str()) {
        if let Some(c) = parse_i32(value.as_str()) {
            let d: i64 = c as i64 - a as i64;
            if i32::MIN as i64 <= d && d <= i32::MAX as i64 {
                *value = i32_to_text(d as i32);
            }
        }
    }
}

/// Shows the register after the `[fBASIC] ` prefix.
pub fn PRINT(value: &str) -> (r: Effect)
    ensures
        match r {
            Effect::Line(s) => s@ == print_prefix() + value@,
            _ => false,
        },
{
    Effect::Line(concat_text("[fBASIC] ", value))
}

/// The glyph that the table gives for a name, if any.
pub fn glyph_for(name: &str) -> (r: Option<String>)
    ensures
        match r {
            Some(g) => glyph_of(name@) == Some(g@),
            None => glyph_of(name@) is None,
        },
{
    if same_text(name, "newline") {
        Some(String::from_str("\n"))
    } else if same_text(name, "clear") {
        Some(String::from_str(" "))
    } else if same_text(name, "refresh") {
        Some(String::from_str("\x1B[2J\x1B[1;1H"))
    } else if same_text(name, "red") {
        Some(String::from_str("\u{1F7E5}"))
    } else if same_text(name, "orange") {
        Some(String::from_str("\u{1F7E7}"))
    } else if same_text(name, "yellow") {
        Some(String::from_str("\u{1F7E8}"))
    } else if same_text(name, "green") {
        Some(String::from_str("\u{1F7E9}"))
    } else if same_text(name, "blue") {
        Some(String::from_str("\u{1F7E6}"))
    } else if same_text(name, "purple") {
        Some(String::from_str("\u{1F7EA}"))
    } else if same_text(name, "brown") {
        Some(String::from_str("\u{1F7EB}"))
    } else if same_text(name, "black") {
        Some(String::from_str("\u{2B1B}"))
    } else if same_text(name, "pink") {
        Some(String::from_str("\u{2B1C}"))
    } else if same_text(name, "bricks") {
        Some(String::from_str("\u{1F9F1}"))
    } else {
        None
    }
}

/// Draws one pixel of the colour that the register names, or notes that the
/// name is unknown.
pub fn PX(value: &str) -> (r: Effect)
    ensures
        match r {
            Effect::Text(s) => glyph_of(value@) == Some(s@),
            Effect::Line(s) => glyph_of(value@) is None && s@ == unknown_color_note(value@),
            _ => false,
        },
{
    match glyph_for(value) {
        Some(g) => Effect::Text(g),
        None => Effect::Line(concat_text("Unknown color attempted to render pixel! ", value)),
    }
}


/// Replaces the register with a line read from the console, without the
/// white space (the line break among it) at its end.
pub fn INPUT(value: &mut String, line: &str)
    ensures
        final(value)@ == trimmed_end(line@),
{
    *value = trim_end_text(line);
}

/// Ends the current line.
pub fn NL() -> (r: Effect)
    ensures
        match r {
            Effect::Line(s) => s@.len() == 0,
            _ => false,
        },
{
    Effect::Line(String::new())
}

/// Clears the screen.
pub fn CLS() -> (r: Effect)
    ensures
        match r {
            Effect::Text(s) => s@ == clear_screen_text(),
            _ => false,
        },
{
    Effect::Text(String::from_str("\x1B[2J\x1B[1;1H"))
}

/// Pauses for the number of milliseconds in the register, or notes that it
/// holds no such number.
pub fn WAIT(value: &str) -> (r: Effect)
    ensures
        match u64_of_text(value@) {
            Some(ms) => r == Effect::Sleep(ms),
            None => match r {
                Effect::Line(s) => s@ == wait_format_note(),
                _ => false,
            },
        },
{
    match parse_u64(value) {
        Some(ms) => Effect::Sleep(ms),
        None => Effect::Line(
            String::from_str(
                "When running the wait command, the currently-stored value must be in milliseconds!",
            ),
        ),
    }
}

} // verus!
