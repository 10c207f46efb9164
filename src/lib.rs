//! Decision logic of an interactive serial-port terminal.
//!
//! The library decides, for every event of a session (a read from the
//! serial device, a chunk typed at the keyboard, the result of a write to
//! the device), what the session does next. The program around it performs
//! the reads and writes, and hands the results back.
pub mod escape;
pub mod session;
pub mod config;
pub mod report;
