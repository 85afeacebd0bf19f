//! Decoder for a two-verb, line-oriented text protocol:
//!
//! ```text
//! PUBLISH <message>\n
//! RETRIEVE\n
//! ```
//!
//! A message holds no newline, may be empty (`PUBLISH \n`), and a line must
//! end in exactly one newline with nothing after it.
pub mod command;
pub mod decode;
pub mod laws;
pub mod text;

pub use command::{Command, CommandView, Error};
pub use decode::{check_for_newline, parse};
