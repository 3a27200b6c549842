//! Data model: a structural view of a compiled module, resolved value types,
//! struct identities, and the verdict taxonomy of the verifiers.

use vstd::prelude::*;

verus! {

/// Visibility of a function definition inside a compiled module.
#[derive(Clone, Copy, PartialEq, Eq, Structural, Debug)]
pub enum Visibility {
    Private,
    Public,
    Friend,
}

/// Opaque handle to a struct declaration; meaningful only through a
/// resolution session, which maps it to a `StructIdentity`.
#[derive(Clone, Copy, PartialEq, Eq, Structural, Debug)]
pub struct StructRef {
    pub index: usize,
}

/// A concrete (generics already substituted) value type, as produced by the
/// external loader when a function signature is resolved.
#[derive(Debug)]
pub enum ResolvedType {
    Bool,
    U8,
    U16,
    U32,
    U64,
    U128,
    U256,
    Address,
    Signer,
    Vector(Box<ResolvedType>),
    Struct(StructRef),
    StructInstantiation(StructRef, Vec<ResolvedType>),
    Reference(Box<ResolvedType>),
    MutableReference(Box<ResolvedType>),
}

/// Identity of a module: its account address bytes together with the module
/// name.
#[derive(Debug)]
pub struct ModuleIdentity {
    pub address: Vec<u8>,
    pub name: String,
}

/// Fully-qualified identity of a struct declaration: the declaring module
/// plus the struct's own name.
#[derive(Debug)]
pub struct StructIdentity {
    pub module: ModuleIdentity,
    pub name: String,
}

/// One function definition of a compiled module, reduced to the facts the
/// verifiers read: its name, its visibility, and its entry flag.
#[derive(Debug)]
pub struct FunctionDef {
    pub name: String,
    pub visibility: Visibility,
    pub is_entry: bool,
}

/// Structural view of a compiled module: its own identity and its ordered
/// function definitions.
#[derive(Debug)]
pub struct ModuleInfo {
    pub self_id: ModuleIdentity,
    pub function_defs: Vec<FunctionDef>,
}

/// A loaded function signature: ordered parameter types and return types,
/// with generics already substituted.
#[derive(Debug)]
pub struct ResolvedSignature {
    pub parameters: Vec<ResolvedType>,
    pub returns: Vec<ResolvedType>,
}

/// Why a verification failed. Verification is a pure decision: every failure
/// is terminal and carries exactly one of these reasons.
#[derive(Clone, Copy, PartialEq, Eq, Structural, Debug)]
pub enum FailureReason {
    MissingInitFunction,
    InitMustBePrivate,
    InitMustNotBeEntry,
    InitWrongArity,
    InitWrongParameterType,
    EntryMustNotReturn,
    DisallowedParameterType,
    InternalLoadError,
}

/// Two module identities denote the same module: same address bytes and same
/// name.
pub open spec fn spec_module_matches(a: ModuleIdentity, b: ModuleIdentity) -> bool {
    a.address@ == b.address@ && a.name@ == b.name@
}

/// Two struct identities denote the same struct: same module and same struct
/// name.
pub open spec fn spec_identity_matches(a: StructIdentity, b: StructIdentity) -> bool {
    spec_module_matches(a.module, b.module) && a.name@ == b.name@
}

/// Byte-wise equality of two byte vectors.
pub fn bytes_eq(a: &Vec<u8>, b: &Vec<u8>) -> (r: bool)
    ensures
        r == (a@ == b@),
{
    if a.len() != b.len() {
        return false;
    }
    let n = a.len();
    let mut i: usize = 0;
    while i < n
        invariant
            n == a@.len(),
            n == b@.len(),
            0 <= i <= n,
            forall|j: int| 0 <= j < i ==> a@[j] == b@[j],
        decreases n - i,
    {
        if a[i] != b[i] {
            return false;
        }
        i += 1;
    }
    proof {
        assert(a@ =~= b@);
    }
    true
}

/// Equality of two module identities, deciding `spec_module_matches`.
pub fn module_matches(a: &ModuleIdentity, b: &ModuleIdentity) -> (r: bool)
    ensures
        r == spec_module_matches(*a, *b),
{
    bytes_eq(&a.address, &b.address) && a.name.eq(&b.name)
}

/// Equality of two struct identities, deciding `spec_identity_matches`.
pub fn identity_matches(a: &StructIdentity, b: &StructIdentity) -> (r: bool)
    ensures
        r == spec_identity_matches(*a, *b),
{
    module_matches(&a.module, &b.module) && a.name.eq(&b.name)
}

} // verus!
