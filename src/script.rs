//! The commands of a test script.
use vstd::prelude::*;

use crate::codec::{encoded, Literal};

verus! {

/// What an action does.
#[derive(Debug)]
pub enum Action {
    /// Calls the export `field` of the named module, or of the current one,
    /// with `args`.
    Invoke { field: String, args: Vec<Literal>, module: Option<String> },
    /// Reads an exported global; not carried out.
    Get,
}

/// One command of a script. Commands run in script order.
#[derive(Debug)]
pub enum Command {
    Module { name: Option<String>, filename: String },
    Register,
    Action { action: Action, expected: Vec<Literal>, line: u64 },
    AssertReturn { action: Action, expected: Vec<Literal>, line: u64 },
    AssertTrap,
    AssertInvalid,
    AssertMalformed,
    AssertExhaustion,
    AssertUninstantiable,
    AssertUnlinkable,
}

/// The call that an `Action` or `AssertReturn` command makes.
pub struct Invocation {
    pub field: String,
    pub args: Seq<Literal>,
    pub module: Option<String>,
    pub expected: Seq<Literal>,
    pub line: u64,
    /// Whether the command asserts its results (`AssertReturn`).
    pub asserts: bool,
}

/// The call a command makes, if it invokes an export.
pub open spec fn invocation(c: Command) -> Option<Invocation> {
    match c {
        Command::Action { action: Action::Invoke { field, args, module }, expected, line } => Some(
            Invocation { field, args: args@, module, expected: expected@, line, asserts: false },
        ),
        Command::AssertReturn { action: Action::Invoke { field, args, module }, expected, line } => Some(
            Invocation { field, args: args@, module, expected: expected@, line, asserts: true },
        ),
        _ => None,
    }
}

pub open spec fn all_encode(lits: Seq<Literal>) -> bool {
    forall|i: int| 0 <= i < lits.len() ==> (#[trigger] encoded(lits[i])) is Some
}

/// Every literal of the command encodes.
pub open spec fn command_well_formed(c: Command) -> bool {
    match c {
        Command::Action { action, expected, .. } | Command::AssertReturn { action, expected, .. } => {
            &&& all_encode(expected@)
            &&& action matches Action::Invoke { args, .. } ==> all_encode(args@)
        },
        _ => true,
    }
}

/// Whether every literal encodes.
pub fn literals_encode(lits: &Vec<Literal>) -> (r: bool)
    ensures
        r == all_encode(lits@),
{
    let mut i: usize = 0;
    while i < lits.len()
        invariant
            i <= lits@.len(),
            forall|j: int| 0 <= j < i ==> (#[trigger] encoded(lits@[j])) is Some,
        decreases lits@.len() - i,
    {
        if lits[i].encode().is_err() {
            return false;
        }
        i = i + 1;
    }
    true
}

impl Command {
    /// Whether every literal of the command encodes.
    pub fn is_well_formed(&self) -> (r: bool)
        ensures
            r == command_well_formed(*self),
    {
        match self {
            Command::Action { action, expected, .. } | Command::AssertReturn {
                action,
                expected,
                ..
            } => {
                if !literals_encode(expected) {
                    return false;
                }
                match action {
                    Action::Invoke { args, .. } => literals_encode(args),
                    Action::Get => true,
                }
            },
            _ => true,
        }
    }

    /// The parts of the call the command makes, if it invokes an export:
    /// field, arguments, module, expected results, line, and whether it
    /// asserts its results.
    pub fn invocation_parts(&self) -> (r: Option<
        (&String, &Vec<Literal>, &Option<String>, &Vec<Literal>, u64, bool),
    >)
        ensures
            r is Some <==> invocation(*self) is Some,
            r matches Some(p) ==> ({
                let inv = invocation(*self)->0;
                &&& *p.0 == inv.field
                &&& p.1@ == inv.args
                &&& *p.2 == inv.module
                &&& p.3@ == inv.expected
                &&& p.4 == inv.line
                &&& p.5 == inv.asserts
            }),
    {
        match self {
            Command::Action { action: Action::Invoke { field, args, module }, expected, line } => Some(
                (field, args, module, expected, *line, false),
            ),
            Command::AssertReturn {
                action: Action::Invoke { field, args, module },
                expected,
                line,
            } => Some((field, args, module, expected, *line, true)),
            _ => None,
        }
    }
}

} // verus!
