//! The module registry: named module handles and the current unnamed one.
use vstd::prelude::*;

use crate::codec::same_text;
use crate::engine::ModuleHandle;
use crate::error::HarnessError;

verus! {

/// What a registry holds: handles by name, and the handle of the most
/// recent unnamed module.
pub struct RegistryView {
    pub named: Map<Seq<char>, ModuleHandle>,
    pub current: Option<ModuleHandle>,
}

pub struct ModuleRegistry {
    names: Vec<String>,
    handles: Vec<ModuleHandle>,
    named: Ghost<Map<Seq<char>, ModuleHandle>>,
    current: Option<ModuleHandle>,
}

/// The handle that an action's module reference resolves to.
pub open spec fn resolved(r: RegistryView, name: Option<String>) -> Result<ModuleHandle, HarnessError> {
    match name {
        Some(n) => if r.named.contains_key(n@) {
            Ok(r.named[n@])
        } else {
            Err(HarnessError::UnknownModule { name: n })
        },
        None => match r.current {
            Some(h) => Ok(h),
            None => Err(HarnessError::NoCurrentModule),
        },
    }
}

/// The registry after a module is registered under `name`, or made the
/// current one when it has no name.
pub open spec fn registered(r: RegistryView, name: Option<String>, handle: ModuleHandle) -> RegistryView {
    match name {
        Some(n) => RegistryView { named: r.named.insert(n@, handle), current: r.current },
        None => RegistryView { named: r.named, current: Some(handle) },
    }
}

/// An action that names a module reaches the handle registered under that
/// name, not the current unnamed module, while an action that names none
/// reaches the current one.
pub proof fn lemma_named_module_resolves(
    r: RegistryView,
    unnamed: ModuleHandle,
    name: String,
    named: ModuleHandle,
)
    ensures
        resolved(registered(registered(r, None, unnamed), Some(name), named), Some(name)) == Ok::<
            ModuleHandle,
            HarnessError,
        >(named),
        resolved(registered(registered(r, None, unnamed), Some(name), named), None) == Ok::<
            ModuleHandle,
            HarnessError,
        >(unnamed),
{
}

/// Registering an unnamed module replaces the current one and leaves every
/// name as it was.
pub proof fn lemma_unnamed_module_replaces_current(r: RegistryView, handle: ModuleHandle, name: String)
    ensures
        resolved(registered(r, None, handle), None) == Ok::<ModuleHandle, HarnessError>(handle),
        resolved(registered(r, None, handle), Some(name)) == resolved(r, Some(name)),
{
}

impl View for ModuleRegistry {
    type V = RegistryView;

    closed spec fn view(&self) -> RegistryView {
        RegistryView { named: self.named@, current: self.current }
    }
}

impl ModuleRegistry {
    pub closed spec fn wf(&self) -> bool {
        &&& self.names@.len() == self.handles@.len()
        &&& forall|i: int, j: int|
            0 <= i < self.names@.len() && 0 <= j < self.names@.len() && #[trigger] self.names@[i]@
                == #[trigger] self.names@[j]@ ==> i == j
        &&& forall|i: int|
            0 <= i < self.names@.len() ==> self.named@.contains_key(#[trigger] self.names@[i]@)
                && self.named@[self.names@[i]@] == self.handles@[i]
        &&& forall|k: Seq<char>|
            #[trigger] self.named@.contains_key(k) ==> exists|i: int|
                0 <= i < self.names@.len() && #[trigger] self.names@[i]@ == k
    }

    /// An empty registry.
    pub fn new() -> (r: ModuleRegistry)
        ensures
            r.wf(),
            r@.named == Map::<Seq<char>, ModuleHandle>::empty(),
            r@.current is None,
    {
        ModuleRegistry {
            names: Vec::new(),
            handles: Vec::new(),
            named: Ghost(Map::empty()),
            current: None,
        }
    }

    fn position(&self, name: &str) -> (r: Option<usize>)
        requires
            self.wf(),
        ensures
            r matches Some(i) ==> i < self.names@.len() && self.names@[i as int]@ == name@,
            r is None ==> !self@.named.contains_key(name@),
    {
        let mut i: usize = 0;
        while i < self.names.len()
            invariant
                self.wf(),
                i <= self.names@.len(),
                forall|j: int| 0 <= j < i ==> self.names@[j]@ != name@,
            decreases self.names@.len() - i,
        {
            if same_text(self.names[i].as_str(), name) {
                return Some(i);
            }
            i = i + 1;
        }
        None
    }

    /// Registers a loaded module: under its name if it has one, else as the
    /// current module, in place of any earlier one.
    pub fn register(&mut self, name: &Option<String>, handle: ModuleHandle)
        requires
            old(self).wf(),
        ensures
            final(self).wf(),
            final(self)@ == registered(old(self)@, *name, handle),
    {
        match name {
            Some(n) => {
                let ghost key = n@;
                match self.position(n.as_str()) {
                    Some(i) => {
                        self.handles.set(i, handle);
                        self.named = Ghost(self.named@.insert(key, handle));
                        assert forall|j: int| 0 <= j < self.names@.len() implies self.named@.contains_key(
                            #[trigger] self.names@[j]@,
                        ) && self.named@[self.names@[j]@] == self.handles@[j] by {
                            if j != i {
                                assert(old(self).names@[j]@ != old(self).names@[i as int]@);
                            }
                        }
                        assert forall|k: Seq<char>| #[trigger] self.named@.contains_key(k) implies exists|
                            j: int,
                        | 0 <= j < self.names@.len() && #[trigger] self.names@[j]@ == k by {
                            if k != key {
                                assert(old(self).named@.contains_key(k));
                            }
                        }
                    },
                    None => {
                        self.names.push(n.clone());
                        self.handles.push(handle);
                        self.named = Ghost(self.named@.insert(key, handle));
                        let ghost last = self.names@.len() - 1;
                        assert(self.names@[last]@ == key);
                        assert forall|a: int, b: int|
                            0 <= a < self.names@.len() && 0 <= b < self.names@.len()
                                && #[trigger] self.names@[a]@ == #[trigger] self.names@[b]@ implies a
                            == b by {
                            if a < last && b == last {
                                assert(old(self).named@.contains_key(old(self).names@[a]@));
                            }
                            if b < last && a == last {
                                assert(old(self).named@.contains_key(old(self).names@[b]@));
                            }
                            if a < last && b < last {
                                assert(old(self).names@[a] == self.names@[a]);
                                assert(old(self).names@[b] == self.names@[b]);
                            }
                        }
                        assert forall|j: int| 0 <= j < self.names@.len() implies self.named@.contains_key(
                            #[trigger] self.names@[j]@,
                        ) && self.named@[self.names@[j]@] == self.handles@[j] by {
                            if j < last {
                                assert(old(self).names@[j] == self.names@[j]);
                                assert(old(self).named@.contains_key(old(self).names@[j]@));
                            }
                        }
                        assert forall|k: Seq<char>| #[trigger] self.named@.contains_key(k) implies exists|
                            j: int,
                        | 0 <= j < self.names@.len() && #[trigger] self.names@[j]@ == k by {
                            if k != key {
                                assert(old(self).named@.contains_key(k));
                                let j = choose|j: int|
                                    0 <= j < old(self).names@.len() && #[trigger] old(self).names@[j]@
                                        == k;
                                assert(self.names@[j] == old(self).names@[j]);
                            }
                        }
                    },
                }
                assert(self@.named =~= old(self)@.named.insert(key, handle));
            },
            None => {
                self.current = Some(handle);
            },
        }
    }

    /// The handle of the named module, or of the current one.
    pub fn resolve(&self, name: &Option<String>) -> (r: Result<ModuleHandle, HarnessError>)
        requires
            self.wf(),
        ensures
            r == resolved(self@, *name),
    {
        match name {
            Some(n) => match self.position(n.as_str()) {
                Some(i) => Ok(self.handles[i]),
                None => Err(HarnessError::UnknownModule { name: n.clone() }),
            },
            None => match self.current {
                Some(h) => Ok(h),
                None => Err(HarnessError::NoCurrentModule),
            },
        }
    }
}

} // verus!
