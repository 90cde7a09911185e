//! The trigger engine and target-lifecycle coordinator of a process-dump
//! agent for Linux: which processes are monitored, which observers watch each
//! of them, when a dump is due, what it is called and how it is requested.

use vstd::prelude::*;

pub mod dumpwriter;
pub mod monitor;
pub mod procdumpconfiguration;
pub mod processhelpers;
pub mod text;
pub mod triggerthreadprocs;

verus! {

} // verus!
