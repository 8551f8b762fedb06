use wasm_tools::reader::types::{GlobalType, MemoryType, TableType, Type};
use wasm_tools::{validate, Encoding, Range, Validator, WasmFeatures};

const HEADER: [u8; 8] = [0x00, 0x61, 0x73, 0x6d, 0x01, 0x00, 0x00, 0x00];

/// A module with these sections, each a number and contents.
fn module(sections: &[(u8, &[u8])]) -> Vec<u8> {
    let mut bytes = HEADER.to_vec();
    for (id, contents) in sections {
        bytes.push(*id);
        assert!(contents.len() < 128);
        bytes.push(contents.len() as u8);
        bytes.extend_from_slice(contents);
    }
    bytes
}

fn error_of(bytes: &[u8]) -> (String, usize) {
    match validate(bytes) {
        Ok(_) => panic!("the binary is valid"),
        Err(e) => (e.message(), e.offset()),
    }
}

#[test]
fn test_validate() {
    assert!(validate(&[0x0, 0x61, 0x73, 0x6d, 0x1, 0x0, 0x0, 0x0]).is_ok());
    assert!(validate(&[0x0, 0x61, 0x73, 0x6d, 0x2, 0x0, 0x0, 0x0]).is_err());
}

#[test]
fn test_module_type_information() {
    // (module
    //     (type (func (param i32 i64) (result i32)))
    //     (memory 1 5)
    //     (table 10 funcref)
    //     (global (mut i32) (i32.const 0))
    //     (func (type 0) (i32.const 0))
    //     (tag (param i64 i32))
    //     (elem funcref (ref.func 0)))
    let bytes = module(&[
        (1, &[2, 0x60, 2, 0x7f, 0x7e, 1, 0x7f, 0x60, 2, 0x7e, 0x7f, 0]),
        (3, &[1, 0]),
        (4, &[1, 0x70, 0, 10]),
        (5, &[1, 1, 1, 5]),
        (13, &[1, 0, 1]),
        (6, &[1, 0x7f, 1, 0x41, 0, 0x0b]),
        (9, &[1, 5, 0x70, 1, 0xd2, 0, 0x0b]),
        (10, &[1, 4, 0, 0x41, 0, 0x0b]),
    ]);

    let mut validator = Validator::new_with_features(WasmFeatures {
        exceptions: true,
        ..Default::default()
    });

    let types = match validator.validate_all(&bytes) {
        Ok(types) => types,
        Err(e) => panic!("{} at {}", e.message(), e.offset()),
    };

    assert_eq!(types.type_count(), 2);
    assert_eq!(types.memory_count(), 1);
    assert_eq!(types.table_count(), 1);
    assert_eq!(types.global_count(), 1);
    assert_eq!(types.function_count(), 1);
    assert_eq!(types.tag_count(), 1);
    assert_eq!(types.element_count(), 1);
    assert_eq!(types.module_count(), 0);
    assert_eq!(types.component_count(), 0);
    assert_eq!(types.instance_count(), 0);
    assert_eq!(types.value_count(), 0);

    match types.func_type_at(0) {
        Some(ty) => {
            assert_eq!(ty.params, [Type::I32, Type::I64]);
            assert_eq!(ty.returns, [Type::I32]);
        }
        _ => unreachable!(),
    }

    match types.func_type_at(1) {
        Some(ty) => {
            assert_eq!(ty.params, [Type::I64, Type::I32]);
            assert_eq!(ty.returns, []);
        }
        _ => unreachable!(),
    }

    assert_eq!(
        types.memory_at(0),
        Some(MemoryType {
            memory64: false,
            shared: false,
            initial: 1,
            maximum: Some(5)
        })
    );

    assert_eq!(
        types.table_at(0),
        Some(TableType {
            initial: 10,
            maximum: None,
            element_type: Type::FuncRef,
        })
    );

    assert_eq!(
        types.global_at(0),
        Some(GlobalType {
            content_type: Type::I32,
            mutable: true
        })
    );

    match types.function_at(0) {
        Some(ty) => {
            assert_eq!(ty.params, [Type::I32, Type::I64]);
            assert_eq!(ty.returns, [Type::I32]);
        }
        _ => unreachable!(),
    }

    match types.tag_at(0) {
        Some(ty) => {
            assert_eq!(ty.params, [Type::I64, Type::I32]);
            assert_eq!(ty.returns, []);
        }
        _ => unreachable!(),
    }

    assert_eq!(types.element_at(0), Some(Type::FuncRef));
}

#[test]
fn nothing_is_not_a_module() {
    assert_eq!(error_of(&[]), ("Unexpected EOF".to_string(), 0));
    assert_eq!(error_of(&HEADER[..7]), ("Unexpected EOF".to_string(), 4));
}

#[test]
fn the_magic_number_has_to_come_first() {
    let mut bytes = HEADER;
    bytes[3] = 0x6e;
    assert_eq!(
        error_of(&bytes),
        ("magic header not detected: bad magic number".to_string(), 0)
    );
}

#[test]
fn the_version_has_to_be_known() {
    let mut bytes = HEADER;
    bytes[4] = 2;
    assert_eq!(error_of(&bytes), ("unknown binary version".to_string(), 0));
    bytes[6] = 2;
    assert_eq!(error_of(&bytes), ("unknown binary version".to_string(), 4));
}

#[test]
fn types_that_are_not_there_have_no_count() {
    let types = validate(&HEADER).unwrap_or_else(|e| panic!("{}", e.message()));
    assert_eq!(types.type_count(), 0);
    assert_eq!(types.function_count(), 0);
    assert!(types.func_type_at(0).is_none());
    assert!(types.function_at(0).is_none());
    assert!(types.tag_at(0).is_none());
    assert_eq!(types.memory_at(0), None);
    assert_eq!(types.table_at(0), None);
    assert_eq!(types.global_at(0), None);
    assert_eq!(types.element_at(0), None);
}

#[test]
fn sections_come_in_order() {
    let bytes = module(&[(3, &[0]), (1, &[0])]);
    assert_eq!(error_of(&bytes), ("section out of order".to_string(), 13));
    let bytes = module(&[(1, &[0]), (1, &[0])]);
    assert_eq!(error_of(&bytes), ("section out of order".to_string(), 13));
    // a tag section stands between the memory section and the global section
    let features = WasmFeatures { exceptions: true, ..Default::default() };
    let bytes = module(&[(5, &[0]), (13, &[0]), (6, &[0])]);
    assert!(Validator::new_with_features(features).validate_all(&bytes).is_ok());
    let bytes = module(&[(6, &[0]), (13, &[0])]);
    assert!(Validator::new_with_features(features).validate_all(&bytes).is_err());
}

#[test]
fn custom_sections_stand_anywhere() {
    let custom: &[u8] = &[4, b'n', b'a', b'm', b'e', 1, 2, 3];
    let bytes = module(&[(0, custom), (1, &[0]), (0, custom), (3, &[0]), (0, custom)]);
    assert!(validate(&bytes).is_ok());
}

#[test]
fn names_are_utf8() {
    let bytes = module(&[(0, &[2, 0xc3, 0xa9])]);
    assert!(validate(&bytes).is_ok());
    let bytes = module(&[(0, &[2, 0xc3, 0x28])]);
    assert_eq!(error_of(&bytes), ("invalid UTF-8 encoding".to_string(), 12));
}

#[test]
fn unknown_sections_are_refused() {
    let bytes = module(&[(0x1f, &[1, 2, 3])]);
    assert_eq!(error_of(&bytes), ("malformed section id: 31".to_string(), 10));
    let mut validator = Validator::new();
    let e = validator.unknown_section(200, &Range { start: 7, end: 9 }).unwrap_err();
    assert_eq!(e.message(), "malformed section id: 200");
    assert_eq!(e.offset(), 7);
}

#[test]
fn a_section_has_nothing_behind_its_items() {
    let bytes = module(&[(1, &[0, 0])]);
    assert_eq!(
        error_of(&bytes),
        (
            "section size mismatch: unexpected data at the end of the section".to_string(),
            11
        )
    );
}

#[test]
fn a_section_stands_in_the_binary() {
    let mut bytes = HEADER.to_vec();
    bytes.extend_from_slice(&[1, 5, 0]);
    assert_eq!(error_of(&bytes).0, "Unexpected EOF");
}

#[test]
fn tags_need_exceptions() {
    let bytes = module(&[(13, &[0])]);
    assert_eq!(
        error_of(&bytes),
        ("exceptions proposal not enabled".to_string(), 10)
    );
}

#[test]
fn functions_have_bodies() {
    let types: &[u8] = &[1, 0x60, 0, 0];
    let bytes = module(&[(1, types), (3, &[1, 0]), (10, &[1, 2, 0, 0x0b])]);
    assert!(validate(&bytes).is_ok());
    // no code section
    let bytes = module(&[(1, types), (3, &[1, 0])]);
    assert_eq!(
        error_of(&bytes),
        (
            "function and code section have inconsistent lengths".to_string(),
            bytes.len()
        )
    );
    // a code section with too few bodies
    let bytes = module(&[(1, types), (3, &[2, 0, 0]), (10, &[1, 2, 0, 0x0b])]);
    assert_eq!(
        error_of(&bytes).0,
        "function and code section have inconsistent lengths"
    );
    // no function section
    let bytes = module(&[(10, &[1, 2, 0, 0x0b])]);
    assert_eq!(error_of(&bytes).0, "code section without function section");
    let bytes = module(&[(10, &[0])]);
    assert!(validate(&bytes).is_ok());
}

#[test]
fn bodies_are_validated() {
    let types: &[u8] = &[1, 0x60, 0, 1, 0x7f];
    let bytes = module(&[(1, types), (3, &[1, 0]), (10, &[1, 4, 0, 0x41, 7, 0x0b])]);
    assert!(validate(&bytes).is_ok());
    // the result is missing
    let bytes = module(&[(1, types), (3, &[1, 0]), (10, &[1, 2, 0, 0x0b])]);
    assert!(validate(&bytes).is_err());
    // the result is a 64-bit integer
    let bytes = module(&[(1, types), (3, &[1, 0]), (10, &[1, 4, 0, 0x42, 7, 0x0b])]);
    assert!(validate(&bytes).is_err());
}

#[test]
fn the_start_function_takes_and_gives_nothing() {
    let code: &[u8] = &[1, 2, 0, 0x0b];
    let bytes = module(&[(1, &[1, 0x60, 0, 0]), (3, &[1, 0]), (8, &[0]), (10, code)]);
    assert!(validate(&bytes).is_ok());
    let bytes = module(&[(1, &[1, 0x60, 1, 0x7f, 0]), (3, &[1, 0]), (8, &[0]), (10, code)]);
    assert_eq!(error_of(&bytes).0, "invalid start function type");
    let bytes = module(&[(8, &[0])]);
    assert!(validate(&bytes).is_err());
}

#[test]
fn data_segments_are_counted() {
    let memory: &[u8] = &[1, 0, 1];
    let data: &[u8] = &[1, 0, 0x41, 0, 0x0b, 1, 7];
    let bytes = module(&[(5, memory), (12, &[1]), (11, data)]);
    assert!(validate(&bytes).is_ok());
    let bytes = module(&[(5, memory), (12, &[2]), (11, data)]);
    assert_eq!(
        error_of(&bytes),
        (
            "data count and data section have inconsistent lengths".to_string(),
            bytes.len()
        )
    );
    // 100001 segments
    let bytes = module(&[(12, &[0xa1, 0x8d, 0x06])]);
    assert_eq!(
        error_of(&bytes).0,
        "data count section specifies too many data segments"
    );
}

#[test]
fn there_is_one_memory() {
    let bytes = module(&[(5, &[2, 0, 1, 0, 1])]);
    assert_eq!(error_of(&bytes), ("multiple memories".to_string(), 10));
    let features = WasmFeatures { multi_memory: true, ..Default::default() };
    assert!(Validator::new_with_features(features).validate_all(&bytes).is_ok());
}

#[test]
fn there_are_not_too_many_types() {
    // 1000001 types
    let bytes = module(&[(1, &[0xc1, 0x84, 0x3d])]);
    assert_eq!(
        error_of(&bytes),
        ("types count exceeds limit of 1000000".to_string(), 10)
    );
}

#[test]
fn a_header_comes_first_and_once() {
    let range = Range { start: 3, end: 4 };
    let mut validator = Validator::new();
    let e = validator.start_section(0, &range).unwrap_err();
    assert_eq!(
        e.message(),
        "unexpected module start section before header was parsed"
    );
    assert_eq!(e.offset(), 3);
    assert!(validator.version(1, Encoding::Module, &range).is_ok());
    let e = validator.version(1, Encoding::Module, &range).unwrap_err();
    assert_eq!(e.message(), "wasm version header out of order");
    let e = validator.module_section(&range).unwrap_err();
    assert_eq!(
        e.message(),
        "unexpected component module section while parsing a module"
    );
}

#[test]
fn nothing_comes_after_the_end() {
    let range = Range { start: 3, end: 4 };
    let mut validator = Validator::new();
    assert!(validator.version(1, Encoding::Module, &range).is_ok());
    assert!(validator.end(8).is_ok());
    let e = validator.data_count_section(0, &range).unwrap_err();
    assert_eq!(
        e.message(),
        "unexpected module data count section after parsing has completed"
    );
    let e = validator.component_section(&range).unwrap_err();
    assert_eq!(
        e.message(),
        "unexpected component component section after parsing has completed"
    );
    let e = validator.end(9).err().map(|e| (e.message(), e.offset()));
    assert_eq!(
        e,
        Some(("cannot call `end` after parsing has completed".to_string(), 9))
    );
    let e = Validator::new().end(9).err().map(|e| (e.message(), e.offset()));
    assert_eq!(
        e,
        Some(("cannot call `end` before a header has been parsed".to_string(), 9))
    );
}

#[test]
fn features_stay() {
    let features = WasmFeatures { exceptions: true, simd: false, ..Default::default() };
    let mut validator = Validator::new_with_features(features);
    assert!(validator.validate_all(&module(&[(1, &[0])])).is_ok());
    assert!(validator.features().exceptions);
    assert!(!validator.features().simd);
    assert!(validator.features().bulk_memory);
    assert!(!Validator::new().features().exceptions);
    assert!(Validator::new().features().simd);
    assert!(!Validator::new().features().component_model);
}
