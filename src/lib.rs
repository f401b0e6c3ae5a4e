//! The background database worker of a small SQLite browser: the rules that turn a
//! database path into an SQLite connection target, and the worker's state machine,
//! which decides for each command or I/O outcome the next state, the notifications
//! to report and the next piece of I/O to perform.
use vstd::prelude::*;

pub mod target;
pub mod worker;
