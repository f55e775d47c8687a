//! Command-chain tokenizer and execution engine of a small interactive shell.
//!
//! A line of input is split into tokens, the tokens are grouped into units
//! (one control operator or one command with its arguments), and the units are
//! taken one at a time, left to right. For each unit the engine decides
//! whether it is skipped, whether it changes a flag, or what has to be run and
//! where; the caller runs it and hands the exit status back.
//!
//! Nothing in here touches the process, the file system or the terminal.

pub mod text;
pub mod token;
pub mod lexer;
pub mod launch;
pub mod chain;
pub mod resolve;
pub mod shell;
pub mod laws;
