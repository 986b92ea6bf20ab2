//! Process control for a small interactive console: the command grammar, the
//! sequence of system calls behind each command, and the text that reports the
//! result. The crate decides; the caller performs the calls it is asked for.

pub mod command;
pub mod control;
mod native;
pub mod number;
pub mod report;
pub mod runs;
pub mod wide;
pub mod words;
