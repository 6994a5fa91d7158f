//! Keccak-256 digests of text, rendered as hexadecimal output lines.
//!
//! Text arrives as lines. In whole-input mode the lines are joined into one
//! document that yields a single output line; in per-line mode every line
//! yields an output line of its own. Four switches, held in
//! [`types::CommandlineArgs`], shape each output line.

pub mod digest;
pub mod document;
pub mod hex;
pub mod output;
pub mod types;
pub mod util;
