//! A runtime for fBASIC, a small language written as a flat stream of opcode
//! bytes, optionally wrapped in a package that carries a name, a description
//! and a version.
//!
//! - `commands`: the register that every command works on, and the commands.
//! - `executor`: runs a text line through the command registry.
//! - `interpreter`: decodes opcodes and steps a machine through a program.
//! - `package`: takes a package apart.
//! - `loader`: tells a package from a bare program and makes either ready to run.
//!
//! Nothing here touches the console: each step hands back what the console
//! should do, and the caller does it.

pub mod commands;
pub mod executor;
pub mod interpreter;
pub mod loader;
pub mod number;
pub mod package;
pub mod text;
