use module_gen::file_format::{
    bytes_eq, check_bounds, id_eq, AccountAddress, CompiledModule, CompiledModuleMut,
    FieldDefinition, FunctionHandle, Identifier, ModuleHandle, ModuleId, SignatureToken,
};

fn empty_module() -> CompiledModuleMut {
    CompiledModuleMut {
        address_pool: Vec::new(),
        identifiers: Vec::new(),
        user_strings: Vec::new(),
        byte_array_pool: Vec::new(),
        type_signatures: Vec::new(),
        module_handles: Vec::new(),
        struct_handles: Vec::new(),
        struct_defs: Vec::new(),
        field_defs: Vec::new(),
        function_handles: Vec::new(),
        function_signatures: Vec::new(),
        locals_signatures: Vec::new(),
        function_defs: Vec::new(),
    }
}

#[test]
fn identifier_rejects_empty() {
    assert!(Identifier::new(String::new()).is_none());
}

#[test]
fn identifier_accepts_nonempty() {
    let id = Identifier::new(String::from("ok")).unwrap();
    assert_eq!(id.name, "ok");
}

#[test]
fn bytes_eq_decides_equality() {
    assert!(bytes_eq(&vec![1u8, 2, 3], &vec![1u8, 2, 3]));
    assert!(!bytes_eq(&vec![1u8, 2, 3], &vec![1u8, 2]));
    assert!(!bytes_eq(&vec![1u8, 2, 3], &vec![1u8, 2, 4]));
    assert!(bytes_eq(&Vec::new(), &Vec::new()));
}

#[test]
fn id_eq_compares_address_and_name() {
    let a = ModuleId {
        address: AccountAddress { bytes: vec![7u8; 32] },
        name: Identifier::new(String::from("m")).unwrap(),
    };
    let b = ModuleId {
        address: AccountAddress { bytes: vec![7u8; 32] },
        name: Identifier::new(String::from("m")).unwrap(),
    };
    let c = ModuleId {
        address: AccountAddress { bytes: vec![8u8; 32] },
        name: Identifier::new(String::from("m")).unwrap(),
    };
    let d = ModuleId {
        address: AccountAddress { bytes: vec![7u8; 32] },
        name: Identifier::new(String::from("n")).unwrap(),
    };
    assert!(id_eq(&a, &b));
    assert!(!id_eq(&a, &c));
    assert!(!id_eq(&a, &d));
}

#[test]
fn check_bounds_accepts_empty_module() {
    let m = empty_module();
    assert!(check_bounds(&m));
}

#[test]
fn check_bounds_rejects_dangling_module_handle() {
    let mut m = empty_module();
    m.module_handles.push(ModuleHandle { address: 0, name: 0 });
    assert!(!check_bounds(&m));
}

#[test]
fn check_bounds_rejects_dangling_function_handle() {
    let mut m = empty_module();
    m.address_pool.push(AccountAddress { bytes: vec![0u8; 32] });
    m.identifiers.push(Identifier::new(String::from("m")).unwrap());
    m.module_handles.push(ModuleHandle { address: 0, name: 0 });
    m.function_handles.push(FunctionHandle { module: 0, name: 0, signature: 0 });
    assert!(!check_bounds(&m));
}

#[test]
fn check_bounds_rejects_dangling_field_type() {
    let mut m = empty_module();
    m.address_pool.push(AccountAddress { bytes: vec![0u8; 32] });
    m.identifiers.push(Identifier::new(String::from("m")).unwrap());
    m.module_handles.push(ModuleHandle { address: 0, name: 0 });
    m.field_defs.push(FieldDefinition { struct_handle: 0, name: 0, signature: 0 });
    assert!(!check_bounds(&m));
}

#[test]
fn freeze_requires_self_handle() {
    let m = empty_module();
    assert!(CompiledModule::freeze(m).is_none());
}

#[test]
fn freeze_accepts_minimal_well_formed_module() {
    let mut m = empty_module();
    m.address_pool.push(AccountAddress { bytes: vec![0u8; 32] });
    m.identifiers.push(Identifier::new(String::from("m")).unwrap());
    m.module_handles.push(ModuleHandle { address: 0, name: 0 });
    m.type_signatures.push(SignatureToken::Bool);
    let frozen = CompiledModule::freeze(m).unwrap();
    let id = frozen.self_id();
    assert_eq!(id.name.name, "m");
    assert_eq!(id.address.bytes, vec![0u8; 32]);
}
