//! Decides, step by step, how a chat command is typed into another
//! application's window: which operating-system call comes next, with which
//! data, and what the invocation amounts to in the end.

pub mod clipboard;
pub mod cstring;
pub mod keys;
pub mod reload;
pub mod sequence;
