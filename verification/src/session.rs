//! The resolution session: the read-only capability both verifiers consult.
//! It maps struct handles to fully-qualified identities, loads concrete
//! function signatures by module and name, and answers the admissibility
//! oracle over canonical struct names.

use vstd::prelude::*;
use crate::types::{
    ModuleIdentity, ResolvedSignature, StructIdentity, StructRef, spec_module_matches,
    module_matches,
};

verus! {

/// One loadable function: its module, its name, and the concrete signature
/// the loader produces for it.
#[derive(Debug)]
pub struct LoadableFunction {
    pub module: ModuleIdentity,
    pub name: String,
    pub signature: ResolvedSignature,
}

/// Read-only resolution capability: a table of struct identities indexed by
/// handle, the loadable function signatures, and the allow-list of canonical
/// struct names admissible as transaction input.
#[derive(Debug)]
pub struct ResolutionSession {
    pub structs: Vec<StructIdentity>,
    pub functions: Vec<LoadableFunction>,
    pub allowed: Vec<String>,
}

/// What resolving a struct handle yields: the identity at that index of the
/// table, or nothing for a handle the session does not know.
pub open spec fn spec_resolve(s: ResolutionSession, r: StructRef) -> Option<StructIdentity> {
    if r.index < s.structs@.len() {
        Some(s.structs@[r.index as int])
    } else {
        None
    }
}

/// Whether a canonical struct name is on the session's allow-list.
pub open spec fn spec_is_allowed_name(s: ResolutionSession, name: Seq<char>) -> bool {
    exists|i: int| 0 <= i < s.allowed@.len() && (#[trigger] s.allowed@[i])@ == name
}

/// First entry whose module and name match, scanned in order; nothing when
/// no entry matches (the load fails).
pub open spec fn spec_find_function(
    entries: Seq<LoadableFunction>,
    m: ModuleIdentity,
    name: Seq<char>,
) -> Option<ResolvedSignature>
    decreases entries.len(),
{
    if entries.len() == 0 {
        None
    } else if spec_module_matches(entries[0].module, m) && entries[0].name@ == name {
        Some(entries[0].signature)
    } else {
        spec_find_function(entries.subrange(1, entries.len() as int), m, name)
    }
}

impl ResolutionSession {
    /// Maps a struct handle to its fully-qualified identity, or `None` for a
    /// handle unknown to this session.
    pub fn resolve_struct(&self, r: StructRef) -> (res: Option<&StructIdentity>)
        ensures
            match res {
                Some(id) => spec_resolve(*self, r) == Some(*id),
                None => spec_resolve(*self, r) is None,
            },
    {
        if r.index < self.structs.len() {
            Some(&self.structs[r.index])
        } else {
            None
        }
    }

    /// The admissibility oracle: whether the given canonical struct name is
    /// on the allow-list.
    pub fn is_allowed_input_struct(&self, name: &String) -> (r: bool)
        ensures
            r == spec_is_allowed_name(*self, name@),
    {
        let n = self.allowed.len();
        let mut i: usize = 0;
        while i < n
            invariant
                n == self.allowed@.len(),
                0 <= i <= n,
                forall|j: int| 0 <= j < i ==> (#[trigger] self.allowed@[j])@ != name@,
            decreases n - i,
        {
            if self.allowed[i].eq(name) {
                return true;
            }
            i += 1;
        }
        false
    }

    /// Loads the concrete signature of `<module>::<name>`, or `None` when the
    /// session has no such function (the load fails).
    pub fn load_function(&self, module: &ModuleIdentity, name: &String) -> (res: Option<
        &ResolvedSignature,
    >)
        ensures
            match res {
                Some(sig) => spec_find_function(self.functions@, *module, name@) == Some(*sig),
                None => spec_find_function(self.functions@, *module, name@) is None,
            },
    {
        let n = self.functions.len();
        proof {
            assert(self.functions@.subrange(0, n as int) =~= self.functions@);
        }
        let mut i: usize = 0;
        while i < n
            invariant
                n == self.functions@.len(),
                0 <= i <= n,
                spec_find_function(self.functions@.subrange(i as int, n as int), *module, name@)
                    == spec_find_function(self.functions@, *module, name@),
        decreases n - i,
        {
            let entry = &self.functions[i];
            proof {
                let sub = self.functions@.subrange(i as int, n as int);
                assert(sub[0] == self.functions@[i as int]);
                assert(sub.subrange(1, sub.len() as int) =~= self.functions@.subrange(
                    i as int + 1,
                    n as int,
                ));
            }
            if module_matches(&entry.module, module) && entry.name.eq(name) {
                return Some(&entry.signature);
            }
            i += 1;
        }
        None
    }
}

} // verus!
