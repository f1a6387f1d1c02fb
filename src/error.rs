//! The faults that stop a run.
use vstd::prelude::*;

use crate::codec::RuntimeValue;
use crate::engine::SafeR;

verus! {

/// A fatal condition. The run stops at the first one.
#[derive(Debug, PartialEq, Eq)]
pub enum HarnessError {
    /// A literal of the command at this position in the script is malformed.
    ParseError { command: usize },
    /// An action names a module that no command registered.
    UnknownModule { name: String },
    /// An action names no module and no unnamed module was loaded yet.
    NoCurrentModule,
    /// The engine could not load the module file.
    LoadFailed { filename: String },
    /// The invoked export does not exist.
    LookupError { field: String, line: u64 },
    /// The engine reported a fault while invoking an export.
    EngineFault { field: String, line: u64, result: SafeR },
    /// The observed result does not match the expected one.
    AssertionMismatch { field: String, line: u64, observed: RuntimeValue, expected: RuntimeValue },
    /// An assertion expects more than one result, and the policy is to fail.
    MultipleResults { field: String, line: u64 },
    /// A bare action lists expected results, which it cannot check.
    ActionWithExpected { line: u64 },
    /// The driver answered with an event that the executor did not ask for.
    UnexpectedEvent,
    /// A step was asked of a run that had already stopped on a fault.
    Stopped,
}

} // verus!
