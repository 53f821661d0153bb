//! Preparation and supervision of a script run from standard input: the
//! in-memory registration of the script's source, the per-origin storage
//! directories, the enabled unstable features, the one-shot configuration of
//! the isolate, and the state machine that turns what happens in the isolate
//! into one exit code.

pub mod bootstrap;
pub mod features;
pub mod lifecycle;
pub mod options;
pub mod storage;
pub mod vfs;
