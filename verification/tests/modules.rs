use wasm_tools::reader::types::Type;
use wasm_tools::{Types, Validator, WasmFeatures};

/// A module with these sections, each a number and contents.
fn module(sections: &[(u8, &[u8])]) -> Vec<u8> {
    let mut bytes = vec![0x00, 0x61, 0x73, 0x6d, 0x01, 0x00, 0x00, 0x00];
    for (id, contents) in sections {
        bytes.push(*id);
        assert!(contents.len() < 128);
        bytes.push(contents.len() as u8);
        bytes.extend_from_slice(contents);
    }
    bytes
}

fn validate_with(features: WasmFeatures, sections: &[(u8, &[u8])]) -> Result<Types, String> {
    match Validator::new_with_features(features).validate_all(&module(sections)) {
        Ok(types) => Ok(types),
        Err(e) => Err(e.message()),
    }
}

fn types_of(sections: &[(u8, &[u8])]) -> Types {
    match validate_with(WasmFeatures::default(), sections) {
        Ok(types) => types,
        Err(e) => panic!("{}", e),
    }
}

fn is_invalid(sections: &[(u8, &[u8])]) -> bool {
    validate_with(WasmFeatures::default(), sections).is_err()
}

#[test]
fn imports_come_before_definitions() {
    let types = types_of(&[
        (1, &[1, 0x60, 1, 0x7e, 0]),
        (
            2,
            &[
                4, 1, b'm', 1, b'f', 0, 0, 1, b'm', 1, b't', 1, 0x70, 0, 2, 1, b'm', 1, b'm', 2, 1,
                1, 3, 1, b'm', 1, b'g', 3, 0x7d, 0,
            ],
        ),
        (6, &[1, 0x7f, 0, 0x41, 5, 0x0b]),
    ]);
    assert_eq!(types.function_count(), 1);
    assert_eq!(types.function_at(0).map(|ty| ty.params.clone()), Some(vec![Type::I64]));
    assert_eq!(types.table_at(0).map(|ty| ty.initial), Some(2));
    assert_eq!(types.memory_at(0).map(|ty| ty.maximum), Some(Some(3)));
    assert_eq!(types.global_count(), 2);
    assert_eq!(types.global_at(0).map(|ty| ty.content_type), Some(Type::F32));
    assert_eq!(types.global_at(1).map(|ty| ty.content_type), Some(Type::I32));
}

#[test]
fn imported_functions_have_types() {
    assert!(is_invalid(&[(2, &[1, 1, b'm', 1, b'f', 0, 0])]));
}

#[test]
fn mutable_globals_can_be_kept_inside() {
    let sections: [(u8, &[u8]); 1] = [(2, &[1, 1, b'm', 1, b'g', 3, 0x7f, 1])];
    let features = WasmFeatures::default();
    assert!(validate_with(features, &sections).is_ok());
    let features = WasmFeatures { mutable_global: false, ..features };
    assert!(validate_with(features, &sections).is_err());
}

#[test]
fn limits_are_ordered() {
    assert!(is_invalid(&[(5, &[1, 1, 4, 3])]));
    assert!(is_invalid(&[(4, &[1, 0x70, 1, 4, 3])]));
    // 65536 pages, and one more
    types_of(&[(5, &[1, 0, 0x80, 0x80, 0x04])]);
    assert!(is_invalid(&[(5, &[1, 0, 0x81, 0x80, 0x04])]));
}

#[test]
fn exports_are_named_once_and_are_there() {
    let memory: &[u8] = &[1, 0, 1];
    types_of(&[(5, memory), (7, &[2, 1, b'a', 2, 0, 1, b'b', 2, 0])]);
    assert!(is_invalid(&[(5, memory), (7, &[2, 1, b'a', 2, 0, 1, b'a', 2, 0])]));
    assert!(is_invalid(&[(5, memory), (7, &[1, 1, b'a', 2, 1])]));
    assert!(is_invalid(&[(5, memory), (7, &[1, 1, b'a', 0, 0])]));
}

#[test]
fn globals_start_with_constants_of_their_type() {
    types_of(&[(6, &[1, 0x7e, 0, 0x42, 1, 0x0b])]);
    assert!(is_invalid(&[(6, &[1, 0x7e, 0, 0x41, 1, 0x0b])]));
    assert!(is_invalid(&[(6, &[1, 0x7f, 0, 0x0b])]));
    assert!(is_invalid(&[(6, &[1, 0x7f, 0, 0x41, 1, 0x41, 1, 0x0b])]));
    // sums need a proposal
    let sum: [(u8, &[u8]); 1] = [(6, &[1, 0x7f, 0, 0x41, 1, 0x41, 2, 0x6a, 0x0b])];
    assert!(is_invalid(&sum));
    let features = WasmFeatures { extended_const: true, ..Default::default() };
    assert!(validate_with(features, &sum).is_ok());
}

#[test]
fn segments_fit_their_tables() {
    let table: &[u8] = &[1, 0x70, 0, 1];
    let externs: &[u8] = &[1, 0x6f, 0, 1];
    let types: &[u8] = &[1, 0x60, 0, 0];
    let code: &[u8] = &[1, 2, 0, 0x0b];
    let segment: &[u8] = &[1, 0, 0x41, 0, 0x0b, 1, 0];
    let good = types_of(&[(1, types), (3, &[1, 0]), (4, table), (9, segment), (10, code)]);
    assert_eq!(good.element_at(0), Some(Type::FuncRef));
    // another type of elements
    assert!(is_invalid(&[(1, types), (3, &[1, 0]), (4, externs), (9, segment), (10, code)]));
    // no table
    assert!(is_invalid(&[(1, types), (3, &[1, 0]), (9, segment), (10, code)]));
    // no function
    assert!(is_invalid(&[(4, table), (9, segment)]));
    // a place that is no 32-bit integer
    let segment: &[u8] = &[1, 0, 0x42, 0, 0x0b, 0];
    assert!(is_invalid(&[(4, table), (9, segment)]));
}

#[test]
fn data_goes_to_a_memory() {
    let data: &[u8] = &[1, 0, 0x41, 0, 0x0b, 1, 7];
    types_of(&[(5, &[1, 0, 1]), (11, data)]);
    assert!(is_invalid(&[(11, data)]));
    // passive data goes nowhere yet, and needs a proposal
    let passive: [(u8, &[u8]); 1] = [(11, &[1, 1, 1, 7])];
    types_of(&passive);
    let features = WasmFeatures { bulk_memory: false, ..Default::default() };
    assert!(validate_with(features, &passive).is_err());
}

#[test]
fn results_can_be_many() {
    let many: [(u8, &[u8]); 1] = [(1, &[1, 0x60, 0, 2, 0x7f, 0x7f])];
    types_of(&many);
    let features = WasmFeatures { multi_value: false, ..Default::default() };
    assert_eq!(
        validate_with(features, &many).err(),
        Some("func type returns multiple values but the multi-value feature is not enabled".into())
    );
}

#[test]
fn values_need_their_proposals() {
    let vector: [(u8, &[u8]); 1] = [(1, &[1, 0x60, 1, 0x7b, 0])];
    types_of(&vector);
    let features = WasmFeatures { simd: false, ..Default::default() };
    assert_eq!(
        validate_with(features, &vector).err(),
        Some("SIMD support is not enabled".into())
    );
    let reference: [(u8, &[u8]); 1] = [(1, &[1, 0x60, 1, 0x6f, 0])];
    types_of(&reference);
    let features = WasmFeatures { reference_types: false, ..Default::default() };
    assert_eq!(
        validate_with(features, &reference).err(),
        Some("reference types support is not enabled".into())
    );
}
