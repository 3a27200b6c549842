//! The two verifiers: the module initializer check and the entry function
//! signature check, with the laws that hold of their verdicts.

use vstd::prelude::*;
use vstd::string::*;
use crate::types::{
    FailureReason, FunctionDef, ModuleIdentity, ModuleInfo, ResolvedSignature, ResolvedType,
    StructIdentity, StructRef, Visibility, identity_matches,
};
use crate::session::{ResolutionSession, spec_find_function, spec_resolve};
use crate::classify::{check_transaction_input_type, spec_is_allowed_input};

verus! {

/// The reserved name of the module initializer.
pub open spec fn spec_init_name() -> Seq<char> {
    "init"@
}

/// Address of the framework module declaring the execution context struct:
/// the 32-byte account address whose last byte is 2.
pub open spec fn spec_reserved_address() -> Seq<u8> {
    Seq::new(32, |i: int| if i == 31 { 2u8 } else { 0u8 })
}

/// Whether an identity is the reserved execution-context struct the
/// initializer must take: the framework address, module `storage_context`,
/// struct `StorageContext`.
pub open spec fn spec_is_reserved_context(id: StructIdentity) -> bool {
    id.module.address@ == spec_reserved_address() && id.module.name@ == "storage_context"@
        && id.name@ == "StorageContext"@
}

/// First function definition named `init`, scanned in order; nothing when no
/// definition bears the name.
pub open spec fn spec_find_init(defs: Seq<FunctionDef>) -> Option<FunctionDef>
    decreases defs.len(),
{
    if defs.len() == 0 {
        None
    } else if defs[0].name@ == spec_init_name() {
        Some(defs[0])
    } else {
        spec_find_init(defs.subrange(1, defs.len() as int))
    }
}

/// Verdict on a struct handle standing as the initializer's sole parameter:
/// it must resolve, and resolve to the reserved execution-context struct.
pub open spec fn spec_check_init_struct(s: ResolutionSession, r: StructRef) -> Result<
    bool,
    FailureReason,
> {
    match spec_resolve(s, r) {
        None => Err(FailureReason::InternalLoadError),
        Some(id) => if spec_is_reserved_context(id) {
            Ok(true)
        } else {
            Err(FailureReason::InitWrongParameterType)
        },
    }
}

/// Verdict on the sole parameter type of a loaded initializer signature:
/// only a struct or struct instantiation resolving to the reserved
/// execution-context struct passes.
pub open spec fn spec_check_init_param(s: ResolutionSession, t: ResolvedType) -> Result<
    bool,
    FailureReason,
> {
    match t {
        ResolvedType::Struct(r) => spec_check_init_struct(s, r),
        ResolvedType::StructInstantiation(r, _) => spec_check_init_struct(s, r),
        _ => Err(FailureReason::InitWrongParameterType),
    }
}

/// Verdict on a module's initializer. The first definition named `init`
/// must exist, be private and not an entry point; the loaded signature of
/// `<module>::init` must exist, have exactly one parameter, and that
/// parameter must be the reserved execution-context struct.
pub open spec fn spec_verify_init(m: ModuleInfo, s: ResolutionSession) -> Result<
    bool,
    FailureReason,
> {
    match spec_find_init(m.function_defs@) {
        None => Err(FailureReason::MissingInitFunction),
        Some(d) => if !(d.visibility is Private) {
            Err(FailureReason::InitMustBePrivate)
        } else if d.is_entry {
            Err(FailureReason::InitMustNotBeEntry)
        } else {
            match spec_find_function(s.functions@, m.self_id, spec_init_name()) {
                None => Err(FailureReason::InternalLoadError),
                Some(sig) => if sig.parameters@.len() != 1 {
                    Err(FailureReason::InitWrongArity)
                } else {
                    spec_check_init_param(s, sig.parameters@[0])
                },
            }
        },
    }
}

/// Every parameter type is in the allowed-input grammar.
pub open spec fn spec_all_parameters_allowed(
    s: ResolutionSession,
    params: Seq<ResolvedType>,
) -> bool {
    forall|i: int| 0 <= i < params.len() ==> spec_is_allowed_input(s, #[trigger] params[i])
}

/// Verdict on an entry candidate's signature. It must return nothing and
/// every parameter must be in the allowed-input grammar.
pub open spec fn spec_verify_entry(func: ResolvedSignature, s: ResolutionSession) -> Result<
    bool,
    FailureReason,
> {
    if func.returns@.len() > 0 {
        Err(FailureReason::EntryMustNotReturn)
    } else if !spec_all_parameters_allowed(s, func.parameters@) {
        Err(FailureReason::DisallowedParameterType)
    } else {
        Ok(true)
    }
}

/// Builds the address of the reserved framework module.
pub fn reserved_context_address() -> (r: Vec<u8>)
    ensures
        r@ == spec_reserved_address(),
{
    let mut v: Vec<u8> = Vec::new();
    let mut i: usize = 0;
    while i < 31
        invariant
            v@.len() == i,
            0 <= i <= 31,
            forall|j: int| 0 <= j < i ==> v@[j] == 0u8,
        decreases 31 - i,
    {
        v.push(0u8);
        i += 1;
    }
    v.push(2u8);
    proof {
        assert(v@ =~= spec_reserved_address());
    }
    v
}

/// Decides whether an identity is the reserved execution-context struct.
pub fn is_reserved_context(id: &StructIdentity) -> (r: bool)
    ensures
        r == spec_is_reserved_context(*id),
{
    let reserved = StructIdentity {
        module: ModuleIdentity {
            address: reserved_context_address(),
            name: String::from_str("storage_context"),
        },
        name: String::from_str("StorageContext"),
    };
    identity_matches(id, &reserved)
}

/// Verdict on a struct handle standing as the initializer's sole parameter.
fn check_init_struct(session: &ResolutionSession, r: StructRef) -> (res: Result<
    bool,
    FailureReason,
>)
    ensures
        res == spec_check_init_struct(*session, r),
{
    match session.resolve_struct(r) {
        None => Err(FailureReason::InternalLoadError),
        Some(id) => if is_reserved_context(id) {
            Ok(true)
        } else {
            Err(FailureReason::InitWrongParameterType)
        },
    }
}

/// Checks that the module's initializer, the function named `init`, has the
/// required shape: private, not an entry point, and taking exactly one
/// parameter of the reserved execution-context struct type.
pub fn verify_init_function(module: &ModuleInfo, session: &ResolutionSession) -> (r: Result<
    bool,
    FailureReason,
>)
    ensures
        r == spec_verify_init(*module, *session),
{
    let init_name = String::from_str("init");
    let n = module.function_defs.len();
    proof {
        assert(module.function_defs@.subrange(0, n as int) =~= module.function_defs@);
    }
    let mut i: usize = 0;
    while i < n
        invariant
            n == module.function_defs@.len(),
            0 <= i <= n,
            init_name@ == spec_init_name(),
            spec_find_init(module.function_defs@.subrange(i as int, n as int)) == spec_find_init(
                module.function_defs@,
            ),
        decreases n - i,
    {
        let fdef = &module.function_defs[i];
        proof {
            let sub = module.function_defs@.subrange(i as int, n as int);
            assert(sub[0] == module.function_defs@[i as int]);
            assert(sub.subrange(1, sub.len() as int) =~= module.function_defs@.subrange(
                i as int + 1,
                n as int,
            ));
        }
        if fdef.name.eq(&init_name) {
            // The first definition named `init` decides the verdict.
            if !matches!(fdef.visibility, Visibility::Private) {
                return Err(FailureReason::InitMustBePrivate);
            }
            if fdef.is_entry {
                return Err(FailureReason::InitMustNotBeEntry);
            }
            let loaded = session.load_function(&module.self_id, &init_name);
            match loaded {
                None => {
                    return Err(FailureReason::InternalLoadError);
                },
                Some(sig) => {
                    if sig.parameters.len() != 1 {
                        return Err(FailureReason::InitWrongArity);
                    }
                    match &sig.parameters[0] {
                        ResolvedType::Struct(r) => {
                            return check_init_struct(session, *r);
                        },
                        ResolvedType::StructInstantiation(r, _) => {
                            return check_init_struct(session, *r);
                        },
                        _ => {
                            return Err(FailureReason::InitWrongParameterType);
                        },
                    }
                },
            }
        }
        i += 1;
    }
    Err(FailureReason::MissingInitFunction)
}

/// Checks that an already-resolved signature is fit for an entry function:
/// no return values, and every parameter in the allowed-input grammar. Stops
/// at the first disallowed parameter.
pub fn verify_entry_function(func: &ResolvedSignature, session: &ResolutionSession) -> (r: Result<
    bool,
    FailureReason,
>)
    ensures
        r == spec_verify_entry(*func, *session),
{
    if func.returns.len() > 0 {
        return Err(FailureReason::EntryMustNotReturn);
    }
    let n = func.parameters.len();
    let mut i: usize = 0;
    while i < n
        invariant
            n == func.parameters@.len(),
            0 <= i <= n,
            func.returns@.len() == 0,
            forall|j: int|
                0 <= j < i ==> spec_is_allowed_input(*session, #[trigger] func.parameters@[j]),
        decreases n - i,
    {
        if !check_transaction_input_type(&func.parameters[i], session) {
            return Err(FailureReason::DisallowedParameterType);
        }
        i += 1;
    }
    Ok(true)
}

/// When no definition bears the name `init`, the scan finds nothing.
proof fn lemma_find_init_none(defs: Seq<FunctionDef>)
    requires
        forall|i: int| 0 <= i < defs.len() ==> (#[trigger] defs[i]).name@ != spec_init_name(),
    ensures
        spec_find_init(defs) is None,
    decreases defs.len(),
{
    if defs.len() > 0 {
        let t = defs.subrange(1, defs.len() as int);
        assert forall|i: int| 0 <= i < t.len() implies (#[trigger] t[i]).name@
            != spec_init_name() by {
            assert(t[i] == defs[i + 1]);
        }
        lemma_find_init_none(t);
    }
}

/// Whatever the scan finds bears the name `init` and is one of the
/// definitions; when it finds nothing, no definition bears the name.
proof fn lemma_find_init_properties(defs: Seq<FunctionDef>)
    ensures
        spec_find_init(defs) is None ==> forall|i: int|
            0 <= i < defs.len() ==> (#[trigger] defs[i]).name@ != spec_init_name(),
        spec_find_init(defs) matches Some(d) ==> d.name@ == spec_init_name() && (exists|i: int|
            0 <= i < defs.len() && defs[i] == d),
    decreases defs.len(),
{
    if defs.len() == 0 {
    } else if defs[0].name@ == spec_init_name() {
        assert(0 <= 0 < defs.len() && defs[0] == defs[0]);
    } else {
        let t = defs.subrange(1, defs.len() as int);
        lemma_find_init_properties(t);
        assert(forall|i: int| 0 <= i < t.len() ==> #[trigger] t[i] == defs[i + 1]);
        match spec_find_init(t) {
            Some(d) => {
                let j = choose|i: int| 0 <= i < t.len() && t[i] == d;
                assert(defs[j + 1] == d);
            },
            None => {
                assert forall|i: int| 0 <= i < defs.len() implies (#[trigger] defs[i]).name@
                    != spec_init_name() by {
                    if i > 0 {
                        assert(defs[i] == t[i - 1]);
                    }
                }
            },
        }
    }
}

/// Law: a module in which no function is named `init` is rejected with
/// `MissingInitFunction`, whatever the session holds.
pub proof fn lemma_missing_init(m: ModuleInfo, s: ResolutionSession)
    requires
        forall|i: int|
            0 <= i < m.function_defs@.len() ==> (#[trigger] m.function_defs@[i]).name@
                != spec_init_name(),
    ensures
        spec_verify_init(m, s) == Err::<bool, FailureReason>(FailureReason::MissingInitFunction),
{
    lemma_find_init_none(m.function_defs@);
}

/// Law: when some definition is named `init` but every definition bearing
/// the name is public or friend-visible, the module is rejected with
/// `InitMustBePrivate`.
pub proof fn lemma_nonprivate_init_rejected(m: ModuleInfo, s: ResolutionSession)
    requires
        exists|i: int|
            0 <= i < m.function_defs@.len() && (#[trigger] m.function_defs@[i]).name@
                == spec_init_name(),
        forall|i: int|
            0 <= i < m.function_defs@.len() && (#[trigger] m.function_defs@[i]).name@
                == spec_init_name() ==> !(m.function_defs@[i].visibility is Private),
    ensures
        spec_verify_init(m, s) == Err::<bool, FailureReason>(FailureReason::InitMustBePrivate),
{
    lemma_find_init_properties(m.function_defs@);
    match spec_find_init(m.function_defs@) {
        Some(d) => {
            let j = choose|i: int| 0 <= i < m.function_defs@.len() && m.function_defs@[i] == d;
            assert(!(m.function_defs@[j].visibility is Private));
        },
        None => {
            assert(false);
        },
    }
}

/// Law: when every definition named `init` is private but flagged as an
/// entry point, the module is rejected with `InitMustNotBeEntry`. (A
/// non-private `init` is rejected with `InitMustBePrivate` before its entry
/// flag is looked at.)
pub proof fn lemma_entry_init_rejected(m: ModuleInfo, s: ResolutionSession)
    requires
        exists|i: int|
            0 <= i < m.function_defs@.len() && (#[trigger] m.function_defs@[i]).name@
                == spec_init_name(),
        forall|i: int|
            0 <= i < m.function_defs@.len() && (#[trigger] m.function_defs@[i]).name@
                == spec_init_name() ==> m.function_defs@[i].visibility is Private
                && m.function_defs@[i].is_entry,
    ensures
        spec_verify_init(m, s) == Err::<bool, FailureReason>(FailureReason::InitMustNotBeEntry),
{
    lemma_find_init_properties(m.function_defs@);
    match spec_find_init(m.function_defs@) {
        Some(d) => {
            let j = choose|i: int| 0 <= i < m.function_defs@.len() && m.function_defs@[i] == d;
            assert(m.function_defs@[j].visibility is Private && m.function_defs@[j].is_entry);
        },
        None => {
            assert(false);
        },
    }
}

/// Law: an entry candidate that declares any return value is rejected with
/// `EntryMustNotReturn`, whatever its parameters.
pub proof fn lemma_entry_must_not_return(func: ResolvedSignature, s: ResolutionSession)
    requires
        func.returns@.len() > 0,
    ensures
        spec_verify_entry(func, s) == Err::<bool, FailureReason>(FailureReason::EntryMustNotReturn),
{
}

/// Law: verification is referentially transparent — equal modules,
/// signatures and sessions always receive equal verdicts, so repeating
/// either verification cannot change its outcome.
pub proof fn lemma_verdicts_deterministic(
    m1: ModuleInfo,
    m2: ModuleInfo,
    f1: ResolvedSignature,
    f2: ResolvedSignature,
    s1: ResolutionSession,
    s2: ResolutionSession,
)
    requires
        m1 == m2,
        f1 == f2,
        s1 == s2,
    ensures
        spec_verify_init(m1, s1) == spec_verify_init(m2, s2),
        spec_verify_entry(f1, s1) == spec_verify_entry(f2, s2),
{
}

} // verus!
