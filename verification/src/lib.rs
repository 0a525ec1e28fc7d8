//! Facts about the host for a desktop program's "About" dialog: the
//! computer's name, its total memory and its graphics adapter.
//!
//! Each fact comes from one command or file that depends on the family of
//! the operating system. The library decides which probe to run, makes a
//! display text of what came back, and remembers it; running the probe is
//! left to the caller. Nothing here fails: a fact that cannot be had is
//! shown as a placeholder.

pub mod adapter;
pub mod facts;
pub mod host;
pub mod memory;
pub mod number;
pub mod probe;
pub mod text;
