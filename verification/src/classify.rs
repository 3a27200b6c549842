//! The transaction input type classifier: a recursive predicate deciding
//! whether a resolved value type may appear as a parameter of an entry
//! function.

use vstd::prelude::*;
use crate::types::{ResolvedType, StructRef};
use crate::canonical::{canonical_name, spec_canonical_name};
use crate::session::{ResolutionSession, spec_is_allowed_name, spec_resolve};

verus! {

/// Whether a struct handle resolves to an identity whose canonical name the
/// admissibility oracle accepts. An unresolvable handle is never admissible.
pub open spec fn spec_struct_allowed(s: ResolutionSession, r: StructRef) -> bool {
    match spec_resolve(s, r) {
        Some(id) => spec_is_allowed_name(s, spec_canonical_name(id)),
        None => false,
    }
}

/// What a reference may wrap besides an immutable signer: only a bare struct
/// whose identity the oracle accepts. Struct instantiations, primitives and
/// everything else are excluded here; this is narrower than the bare-struct
/// rule, deliberately.
pub open spec fn spec_allowed_reference_inner(s: ResolutionSession, t: ResolvedType) -> bool {
    match t {
        ResolvedType::Struct(r) => spec_struct_allowed(s, r),
        _ => false,
    }
}

/// The allowed-input grammar: primitives; vectors of allowed types; structs
/// and struct instantiations the oracle accepts; immutable references to a
/// signer or to an accepted bare struct; mutable references to an accepted
/// bare struct. Everything else — nested references, references to vectors,
/// mutable references to a signer — is excluded.
pub open spec fn spec_is_allowed_input(s: ResolutionSession, t: ResolvedType) -> bool
    decreases t,
{
    match t {
        ResolvedType::Bool => true,
        ResolvedType::U8 => true,
        ResolvedType::U16 => true,
        ResolvedType::U32 => true,
        ResolvedType::U64 => true,
        ResolvedType::U128 => true,
        ResolvedType::U256 => true,
        ResolvedType::Address => true,
        ResolvedType::Signer => true,
        ResolvedType::Vector(elem) => spec_is_allowed_input(s, *elem),
        ResolvedType::Struct(r) => spec_struct_allowed(s, r),
        ResolvedType::StructInstantiation(r, _) => spec_struct_allowed(s, r),
        ResolvedType::Reference(inner) => (*inner) is Signer || spec_allowed_reference_inner(
            s,
            *inner,
        ),
        ResolvedType::MutableReference(inner) => spec_allowed_reference_inner(s, *inner),
    }
}

/// Resolves a struct handle and queries the oracle with the canonical name
/// of the identity it denotes.
pub fn struct_ref_allowed(session: &ResolutionSession, r: StructRef) -> (b: bool)
    ensures
        b == spec_struct_allowed(*session, r),
{
    match session.resolve_struct(r) {
        Some(id) => {
            let full_name = canonical_name(id);
            session.is_allowed_input_struct(&full_name)
        },
        None => false,
    }
}

/// Decides membership of a single resolved type in the allowed-input
/// grammar.
pub fn check_transaction_input_type(ety: &ResolvedType, session: &ResolutionSession) -> (b: bool)
    ensures
        b == spec_is_allowed_input(*session, *ety),
    decreases *ety,
{
    match ety {
        ResolvedType::Bool => true,
        ResolvedType::U8 => true,
        ResolvedType::U16 => true,
        ResolvedType::U32 => true,
        ResolvedType::U64 => true,
        ResolvedType::U128 => true,
        ResolvedType::U256 => true,
        ResolvedType::Address => true,
        ResolvedType::Signer => true,
        ResolvedType::Vector(elem) => check_transaction_input_type(elem, session),
        ResolvedType::Struct(r) => struct_ref_allowed(session, *r),
        ResolvedType::StructInstantiation(r, _) => struct_ref_allowed(session, *r),
        ResolvedType::Reference(inner) => {
            if matches!(&**inner, ResolvedType::Signer) {
                true
            } else {
                is_allowed_reference_types(inner, session)
            }
        },
        ResolvedType::MutableReference(inner) => is_allowed_reference_types(inner, session),
    }
}

/// Decides what a reference may wrap besides an immutable signer: only a
/// bare struct the oracle accepts.
pub fn is_allowed_reference_types(bt: &ResolvedType, session: &ResolutionSession) -> (b: bool)
    ensures
        b == spec_allowed_reference_inner(*session, *bt),
{
    match bt {
        ResolvedType::Struct(r) => struct_ref_allowed(session, *r),
        _ => false,
    }
}

/// Law: a vector type is admissible exactly when its element type is, for
/// every session; admissibility passes through any depth of vector nesting.
pub proof fn lemma_vector_follows_element(s: ResolutionSession, vt: ResolvedType)
    ensures
        vt matches ResolvedType::Vector(elem) ==> spec_is_allowed_input(s, vt)
            == spec_is_allowed_input(s, *elem),
{
}

/// Law: a bare struct type is admissible exactly when its handle resolves
/// and the oracle accepts the canonical name of the resolved identity; a
/// handle the session cannot resolve is never admissible.
pub proof fn lemma_struct_follows_oracle(s: ResolutionSession, r: StructRef)
    ensures
        spec_resolve(s, r) matches Some(id) ==> spec_is_allowed_input(
            s,
            ResolvedType::Struct(r),
        ) == spec_is_allowed_name(s, spec_canonical_name(id)),
        spec_resolve(s, r) is None ==> !spec_is_allowed_input(s, ResolvedType::Struct(r)),
{
}

/// Law: an immutable reference to a signer is admissible while a mutable
/// reference to a signer is not, for every session.
pub proof fn lemma_signer_reference_asymmetry(
    s: ResolutionSession,
    rt: ResolvedType,
    mt: ResolvedType,
)
    ensures
        rt matches ResolvedType::Reference(inner) && (*inner) is Signer ==> spec_is_allowed_input(
            s,
            rt,
        ),
        mt matches ResolvedType::MutableReference(inner) && (*inner) is Signer
            ==> !spec_is_allowed_input(s, mt),
{
}

} // verus!
