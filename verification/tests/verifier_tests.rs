use moveos_verifier::classify::check_transaction_input_type;
use moveos_verifier::session::{LoadableFunction, ResolutionSession};
use moveos_verifier::types::{
    FailureReason, FunctionDef, ModuleIdentity, ModuleInfo, ResolvedSignature, ResolvedType,
    StructIdentity, StructRef, Visibility,
};
use moveos_verifier::verify::{
    reserved_context_address, verify_entry_function, verify_init_function,
};

fn addr(last: u8) -> Vec<u8> {
    let mut v = vec![0u8; 31];
    v.push(last);
    v
}

fn module_id(last: u8, name: &str) -> ModuleIdentity {
    ModuleIdentity {
        address: addr(last),
        name: name.to_string(),
    }
}

fn context_identity() -> StructIdentity {
    StructIdentity {
        module: ModuleIdentity {
            address: reserved_context_address(),
            name: "storage_context".to_string(),
        },
        name: "StorageContext".to_string(),
    }
}

fn init_def(visibility: Visibility, is_entry: bool) -> FunctionDef {
    FunctionDef {
        name: "init".to_string(),
        visibility,
        is_entry,
    }
}

fn empty_session() -> ResolutionSession {
    ResolutionSession {
        structs: vec![],
        functions: vec![],
        allowed: vec![],
    }
}

fn module_with_defs(defs: Vec<FunctionDef>) -> ModuleInfo {
    ModuleInfo {
        self_id: module_id(9, "example"),
        function_defs: defs,
    }
}

fn session_loading_init(params: Vec<ResolvedType>, structs: Vec<StructIdentity>) -> ResolutionSession {
    ResolutionSession {
        structs,
        functions: vec![LoadableFunction {
            module: module_id(9, "example"),
            name: "init".to_string(),
            signature: ResolvedSignature {
                parameters: params,
                returns: vec![],
            },
        }],
        allowed: vec![],
    }
}

#[test]
fn missing_init_fails() {
    let module = module_with_defs(vec![FunctionDef {
        name: "transfer".to_string(),
        visibility: Visibility::Public,
        is_entry: true,
    }]);
    let session = empty_session();
    assert_eq!(
        verify_init_function(&module, &session),
        Err(FailureReason::MissingInitFunction)
    );
}

#[test]
fn empty_module_fails_missing_init() {
    let module = module_with_defs(vec![]);
    let session = empty_session();
    assert_eq!(
        verify_init_function(&module, &session),
        Err(FailureReason::MissingInitFunction)
    );
}

#[test]
fn public_init_fails() {
    let module = module_with_defs(vec![init_def(Visibility::Public, false)]);
    let session = empty_session();
    assert_eq!(
        verify_init_function(&module, &session),
        Err(FailureReason::InitMustBePrivate)
    );
}

#[test]
fn friend_init_fails() {
    let module = module_with_defs(vec![init_def(Visibility::Friend, false)]);
    let session = empty_session();
    assert_eq!(
        verify_init_function(&module, &session),
        Err(FailureReason::InitMustBePrivate)
    );
}

#[test]
fn entry_init_fails() {
    let module = module_with_defs(vec![init_def(Visibility::Private, true)]);
    let session = empty_session();
    assert_eq!(
        verify_init_function(&module, &session),
        Err(FailureReason::InitMustNotBeEntry)
    );
}

#[test]
fn init_with_context_param_succeeds() {
    let module = module_with_defs(vec![init_def(Visibility::Private, false)]);
    let session = session_loading_init(
        vec![ResolvedType::Struct(StructRef { index: 0 })],
        vec![context_identity()],
    );
    assert_eq!(verify_init_function(&module, &session), Ok(true));
}

#[test]
fn init_with_context_instantiation_succeeds() {
    let module = module_with_defs(vec![init_def(Visibility::Private, false)]);
    let session = session_loading_init(
        vec![ResolvedType::StructInstantiation(
            StructRef { index: 0 },
            vec![ResolvedType::U64],
        )],
        vec![context_identity()],
    );
    assert_eq!(verify_init_function(&module, &session), Ok(true));
}

#[test]
fn init_with_u64_param_fails() {
    let module = module_with_defs(vec![init_def(Visibility::Private, false)]);
    let session = session_loading_init(vec![ResolvedType::U64], vec![context_identity()]);
    assert_eq!(
        verify_init_function(&module, &session),
        Err(FailureReason::InitWrongParameterType)
    );
}

#[test]
fn init_with_unrelated_struct_fails() {
    let module = module_with_defs(vec![init_def(Visibility::Private, false)]);
    let other = StructIdentity {
        module: module_id(7, "coin"),
        name: "Coin".to_string(),
    };
    let session = session_loading_init(
        vec![ResolvedType::Struct(StructRef { index: 0 })],
        vec![other],
    );
    assert_eq!(
        verify_init_function(&module, &session),
        Err(FailureReason::InitWrongParameterType)
    );
}

#[test]
fn init_with_no_params_fails_arity() {
    let module = module_with_defs(vec![init_def(Visibility::Private, false)]);
    let session = session_loading_init(vec![], vec![context_identity()]);
    assert_eq!(
        verify_init_function(&module, &session),
        Err(FailureReason::InitWrongArity)
    );
}

#[test]
fn init_with_two_params_fails_arity() {
    let module = module_with_defs(vec![init_def(Visibility::Private, false)]);
    let session = session_loading_init(
        vec![
            ResolvedType::Struct(StructRef { index: 0 }),
            ResolvedType::Struct(StructRef { index: 0 }),
        ],
        vec![context_identity()],
    );
    assert_eq!(
        verify_init_function(&module, &session),
        Err(FailureReason::InitWrongArity)
    );
}

#[test]
fn init_load_failure_is_internal_error() {
    let module = module_with_defs(vec![init_def(Visibility::Private, false)]);
    let session = empty_session();
    assert_eq!(
        verify_init_function(&module, &session),
        Err(FailureReason::InternalLoadError)
    );
}

#[test]
fn init_unresolvable_struct_is_internal_error() {
    let module = module_with_defs(vec![init_def(Visibility::Private, false)]);
    let session = session_loading_init(
        vec![ResolvedType::Struct(StructRef { index: 5 })],
        vec![context_identity()],
    );
    assert_eq!(
        verify_init_function(&module, &session),
        Err(FailureReason::InternalLoadError)
    );
}

#[test]
fn vector_admissibility_follows_element() {
    let session = empty_session();
    // Allowed base type, wrapped at depths 0, 1 and 3.
    let d0 = ResolvedType::U8;
    assert!(check_transaction_input_type(&d0, &session));
    let d1 = ResolvedType::Vector(Box::new(ResolvedType::U8));
    assert!(check_transaction_input_type(&d1, &session));
    let d3 = ResolvedType::Vector(Box::new(ResolvedType::Vector(Box::new(
        ResolvedType::Vector(Box::new(ResolvedType::U8)),
    ))));
    assert!(check_transaction_input_type(&d3, &session));
    // Disallowed base type: the same wrapping stays disallowed.
    let b0 = ResolvedType::MutableReference(Box::new(ResolvedType::Signer));
    assert!(!check_transaction_input_type(&b0, &session));
    let b1 = ResolvedType::Vector(Box::new(ResolvedType::MutableReference(Box::new(
        ResolvedType::Signer,
    ))));
    assert!(!check_transaction_input_type(&b1, &session));
    let b3 = ResolvedType::Vector(Box::new(ResolvedType::Vector(Box::new(
        ResolvedType::Vector(Box::new(ResolvedType::MutableReference(Box::new(
            ResolvedType::Signer,
        )))),
    ))));
    assert!(!check_transaction_input_type(&b3, &session));
}

#[test]
fn signer_reference_asymmetry() {
    let session = empty_session();
    let immutable = ResolvedType::Reference(Box::new(ResolvedType::Signer));
    assert!(check_transaction_input_type(&immutable, &session));
    let mutable = ResolvedType::MutableReference(Box::new(ResolvedType::Signer));
    assert!(!check_transaction_input_type(&mutable, &session));
}

#[test]
fn struct_follows_allow_list() {
    let listed = StructIdentity {
        module: module_id(3, "string"),
        name: "String".to_string(),
    };
    let unlisted = StructIdentity {
        module: module_id(3, "string"),
        name: "Utf16".to_string(),
    };
    let session = ResolutionSession {
        structs: vec![listed, unlisted],
        functions: vec![],
        allowed: vec!["0x3::string::String".to_string()],
    };
    let on_list = ResolvedType::Struct(StructRef { index: 0 });
    assert!(check_transaction_input_type(&on_list, &session));
    let off_list = ResolvedType::Struct(StructRef { index: 1 });
    assert!(!check_transaction_input_type(&off_list, &session));
    let unresolvable = ResolvedType::Struct(StructRef { index: 9 });
    assert!(!check_transaction_input_type(&unresolvable, &session));
}

#[test]
fn entry_with_returns_fails() {
    let session = empty_session();
    // The parameters are not even valid: the return check comes first.
    let func = ResolvedSignature {
        parameters: vec![ResolvedType::MutableReference(Box::new(ResolvedType::Signer))],
        returns: vec![ResolvedType::U8],
    };
    assert_eq!(
        verify_entry_function(&func, &session),
        Err(FailureReason::EntryMustNotReturn)
    );
}

#[test]
fn entry_with_valid_params_succeeds() {
    let session = empty_session();
    let func = ResolvedSignature {
        parameters: vec![
            ResolvedType::U8,
            ResolvedType::Address,
            ResolvedType::Vector(Box::new(ResolvedType::U64)),
        ],
        returns: vec![],
    };
    assert_eq!(verify_entry_function(&func, &session), Ok(true));
}

#[test]
fn entry_with_nested_reference_fails() {
    let session = empty_session();
    let func = ResolvedSignature {
        parameters: vec![
            ResolvedType::U8,
            ResolvedType::Reference(Box::new(ResolvedType::Reference(Box::new(
                ResolvedType::U8,
            )))),
        ],
        returns: vec![],
    };
    assert_eq!(
        verify_entry_function(&func, &session),
        Err(FailureReason::DisallowedParameterType)
    );
}

#[test]
fn verdicts_are_idempotent() {
    let module = module_with_defs(vec![init_def(Visibility::Private, false)]);
    let session = session_loading_init(
        vec![ResolvedType::Struct(StructRef { index: 0 })],
        vec![context_identity()],
    );
    let first = verify_init_function(&module, &session);
    let second = verify_init_function(&module, &session);
    assert_eq!(first, second);

    let func = ResolvedSignature {
        parameters: vec![ResolvedType::Reference(Box::new(ResolvedType::Signer))],
        returns: vec![],
    };
    let first_entry = verify_entry_function(&func, &session);
    let second_entry = verify_entry_function(&func, &session);
    assert_eq!(first_entry, second_entry);
    assert_eq!(first_entry, Ok(true));
}
