//! The engine gateway's values: module handles, load options, the engine's
//! result chain and the arithmetic of its value stack.
use vstd::prelude::*;

verus! {

/// Slots in the engine's value stack.
pub const VALUE_STACK_SLOTS: u32 = 4096;

/// An opaque reference to a module that the engine instantiated and owns.
#[derive(Debug, Clone, Copy, PartialEq, Eq, Structural)]
pub struct ModuleHandle {
    pub id: u64,
}

/// Compatibility switches handed to the engine when it loads a module.
#[derive(Debug, Clone, Copy, PartialEq, Eq, Structural)]
pub struct LoadOptions {
    pub disable_memory_bounds: bool,
    pub mangle_table_index: bool,
    pub trim_leading_underscore_on_lookup: bool,
}

/// The status of an engine result.
#[derive(Debug, Clone, Copy, PartialEq, Eq, Structural)]
pub enum S {
    Success,
    Error,
    ErrNest,
}

/// An engine result: success, a fault with a message, or a fault with a
/// message and the result that caused it.
#[derive(Debug, PartialEq, Eq)]
pub enum SafeR {
    Success,
    Error(String),
    ErrNest(String, Box<SafeR>),
}

/// The messages of a result chain, outermost first.
pub open spec fn message_chain(r: SafeR) -> Seq<Seq<char>>
    decreases r,
{
    match r {
        SafeR::Success => Seq::empty(),
        SafeR::Error(m) => seq![m@],
        SafeR::ErrNest(m, cause) => seq![m@] + message_chain(*cause),
    }
}

pub open spec fn status_of(r: SafeR) -> S {
    match r {
        SafeR::Success => S::Success,
        SafeR::Error(_) => S::Error,
        SafeR::ErrNest(_, _) => S::ErrNest,
    }
}

impl LoadOptions {
    pub open spec fn spec_standard() -> LoadOptions {
        LoadOptions {
            disable_memory_bounds: false,
            mangle_table_index: false,
            trim_leading_underscore_on_lookup: false,
        }
    }

    /// Options with every compatibility switch off.
    pub fn standard() -> (r: LoadOptions)
        ensures
            r == LoadOptions::spec_standard(),
    {
        LoadOptions {
            disable_memory_bounds: false,
            mangle_table_index: false,
            trim_leading_underscore_on_lookup: false,
        }
    }
}

impl SafeR {
    pub fn status(&self) -> (r: S)
        ensures
            r == status_of(*self),
    {
        match self {
            SafeR::Success => S::Success,
            SafeR::Error(_) => S::Error,
            SafeR::ErrNest(_, _) => S::ErrNest,
        }
    }

    pub fn is_ok(&self) -> (r: bool)
        ensures
            r == (*self is Success),
    {
        match self {
            SafeR::Success => true,
            _ => false,
        }
    }

    /// The messages of the chain, outermost first.
    pub fn messages(&self) -> (r: Vec<String>)
        ensures
            r@.len() == message_chain(*self).len(),
            forall|i: int| 0 <= i < r@.len() ==> #[trigger] r@[i]@ == message_chain(*self)[i],
        decreases self,
    {
        match self {
            SafeR::Success => Vec::new(),
            SafeR::Error(m) => {
                let mut v: Vec<String> = Vec::new();
                v.push(m.clone());
                v
            },
            SafeR::ErrNest(m, cause) => {
                let mut v: Vec<String> = Vec::new();
                v.push(m.clone());
                let mut rest = cause.messages();
                let ghost head = v@;
                let ghost tail = rest@;
                v.append(&mut rest);
                assert forall|i: int| 0 <= i < v@.len() implies #[trigger] v@[i]@ == message_chain(
                    *self,
                )[i] by {
                    if i > 0 {
                        assert(v@[i] == tail[i - 1]);
                    }
                }
                v
            },
        }
    }
}

/// The slot that a push writes and the stack pointer after it. The pointer
/// names the top slot and wraps, so that an empty stack holds `u32::MAX`;
/// `None` when the slot lies past the stack's end.
pub fn push_slot(sp: u32) -> (r: Option<u32>)
    ensures
        r == (if (sp as int + 1) % 0x1_0000_0000 < VALUE_STACK_SLOTS {
            Some(((sp as int + 1) % 0x1_0000_0000) as u32)
        } else {
            None::<u32>
        }),
{
    let next = sp.wrapping_add(1);
    if next < VALUE_STACK_SLOTS {
        Some(next)
    } else {
        None
    }
}

/// The slot that a pop reads, the top one, and the stack pointer after it;
/// `None` when the pointer lies past the stack's end.
pub fn pop_slot(sp: u32) -> (r: Option<(u32, u32)>)
    ensures
        r == (if sp < VALUE_STACK_SLOTS {
            Some((sp, ((sp as int - 1) % 0x1_0000_0000) as u32))
        } else {
            None::<(u32, u32)>
        }),
{
    if sp < VALUE_STACK_SLOTS {
        Some((sp, sp.wrapping_sub(1)))
    } else {
        None
    }
}

} // verus!
