use wasm_tools::{Validator, WasmFeatures};

/// A module with the types `() -> ()`, `(i32) -> i32` and `(i32, i64) -> (i64)`, a table, a
/// memory, a mutable global of type `i32`, a passive element segment, a passive data segment and
/// one function of a type with a body.
fn module(ty: u8, body: &[u8]) -> Vec<u8> {
    let mut bytes = vec![0x00, 0x61, 0x73, 0x6d, 0x01, 0x00, 0x00, 0x00];
    let mut code = vec![1, body.len() as u8 + 2, 0];
    code.extend_from_slice(body);
    code.push(0x0b);
    assert!(code.len() < 128);
    let sections: [(u8, &[u8]); 10] = [
        (1, &[3, 0x60, 0, 0, 0x60, 1, 0x7f, 1, 0x7f, 0x60, 2, 0x7f, 0x7e, 1, 0x7e]),
        (3, &[1, ty]),
        (4, &[1, 0x70, 0, 1]),
        (5, &[1, 0, 1]),
        (6, &[1, 0x7f, 1, 0x41, 0, 0x0b]),
        (7, &[1, 1, b'f', 0, 0]),
        (9, &[1, 1, 0, 1, 0]),
        (12, &[1]),
        (10, &code),
        (11, &[1, 1, 0]),
    ];
    for (id, contents) in sections {
        bytes.push(id);
        bytes.push(contents.len() as u8);
        bytes.extend_from_slice(contents);
    }
    bytes
}

fn works_with(features: WasmFeatures, ty: u8, body: &[u8]) -> Result<(), String> {
    match Validator::new_with_features(features).validate_all(&module(ty, body)) {
        Ok(_) => Ok(()),
        Err(e) => Err(e.message()),
    }
}

fn valid(ty: u8, body: &[u8]) {
    assert_eq!(works_with(WasmFeatures::default(), ty, body), Ok(()), "{:?}", body);
}

fn invalid(ty: u8, body: &[u8]) {
    assert!(works_with(WasmFeatures::default(), ty, body).is_err(), "{:?}", body);
}

#[test]
fn empty_bodies_give_nothing() {
    valid(0, &[]);
    invalid(1, &[]);
    invalid(0, &[0x41, 0]);
    valid(0, &[0x41, 0, 0x1a]);
    invalid(0, &[0x1a]);
}

#[test]
fn locals_have_types() {
    valid(1, &[0x20, 0]);
    valid(2, &[0x20, 1]);
    invalid(2, &[0x20, 0]);
    invalid(1, &[0x20, 1]);
    valid(1, &[0x20, 0, 0x22, 0]);
    valid(1, &[0x20, 0, 0x21, 0, 0x41, 1]);
}

#[test]
fn arithmetic_has_types() {
    valid(1, &[0x20, 0, 0x20, 0, 0x6a]);
    invalid(1, &[0x20, 0, 0x6a]);
    invalid(2, &[0x20, 0, 0x20, 1, 0x7c]);
    valid(2, &[0x20, 0, 0xac, 0x20, 1, 0x7c]);
    valid(1, &[0x20, 0, 0xb2, 0x43, 0, 0, 0, 0, 0x92, 0xa8]);
    valid(1, &[0x20, 0, 0x45]);
}

#[test]
fn blocks_keep_their_operands() {
    valid(0, &[0x02, 0x40, 0x0b]);
    valid(1, &[0x02, 0x7f, 0x41, 1, 0x0b]);
    invalid(1, &[0x41, 1, 0x02, 0x40, 0x1a, 0x0b]);
    // a block that takes and gives a value
    valid(1, &[0x41, 1, 0x02, 1, 0x45, 0x0b]);
    invalid(1, &[0x02, 1, 0x45, 0x0b]);
    // one end is missing
    invalid(0, &[0x02, 0x40]);
    // one end is too many
    invalid(0, &[0x0b, 0x01]);
}

#[test]
fn both_arms_of_an_if_agree() {
    valid(1, &[0x20, 0, 0x04, 0x7f, 0x41, 1, 0x05, 0x41, 2, 0x0b]);
    invalid(1, &[0x20, 0, 0x04, 0x7f, 0x41, 1, 0x05, 0x42, 2, 0x0b]);
    invalid(1, &[0x20, 0, 0x04, 0x7f, 0x41, 1, 0x0b]);
    valid(0, &[0x41, 0, 0x04, 0x40, 0x0b]);
    invalid(0, &[0x05]);
}

#[test]
fn branches_go_to_labels() {
    valid(0, &[0x0c, 0]);
    invalid(0, &[0x0c, 1]);
    valid(1, &[0x41, 1, 0x0c, 0]);
    invalid(1, &[0x0c, 0]);
    // a loop takes what it is given at its start
    valid(0, &[0x03, 0x40, 0x0c, 0, 0x0b]);
    valid(1, &[0x02, 0x7f, 0x41, 1, 0x20, 0, 0x0d, 0, 0x0b]);
    // a table of labels
    valid(0, &[0x02, 0x40, 0x41, 0, 0x0e, 1, 0, 1, 0x0b]);
    invalid(0, &[0x02, 0x40, 0x41, 0, 0x0e, 1, 0, 2, 0x0b]);
    invalid(1, &[0x02, 0x40, 0x41, 0, 0x0e, 1, 0, 1, 0x0b, 0x41, 0]);
}

#[test]
fn what_is_not_reached_has_any_type() {
    valid(1, &[0x00]);
    valid(1, &[0x00, 0x6a]);
    invalid(1, &[0x00, 0x42, 0]);
    valid(2, &[0x41, 0, 0x42, 0, 0x0f, 0x1a]);
    invalid(1, &[0x00, 0x42, 0, 0x6a]);
}

#[test]
fn calls_have_types() {
    valid(0, &[0x10, 0]);
    invalid(0, &[0x10, 1]);
    valid(1, &[0x41, 3, 0x10, 0]);
    invalid(1, &[0x42, 3, 0x10, 0]);
    valid(1, &[0x41, 3, 0x41, 0, 0x11, 1, 0]);
    invalid(1, &[0x41, 3, 0x11, 1, 0]);
    invalid(1, &[0x41, 3, 0x41, 0, 0x11, 3, 0]);
    invalid(1, &[0x41, 3, 0x41, 0, 0x11, 1, 1]);
}

#[test]
fn globals_have_types() {
    valid(1, &[0x23, 0]);
    invalid(2, &[0x23, 0]);
    invalid(1, &[0x23, 1]);
    valid(0, &[0x41, 0, 0x24, 0]);
    invalid(0, &[0x42, 0, 0x24, 0]);
}

#[test]
fn memory_is_aligned() {
    valid(1, &[0x20, 0, 0x28, 2, 0]);
    invalid(1, &[0x20, 0, 0x28, 3, 0]);
    valid(0, &[0x41, 0, 0x42, 0, 0x37, 3, 0]);
    invalid(0, &[0x41, 0, 0x41, 0, 0x37, 3, 0]);
    valid(1, &[0x3f, 0]);
    valid(1, &[0x41, 0, 0x40, 0]);
}

#[test]
fn bulk_operations_name_segments() {
    let args = [0x41, 0, 0x41, 0, 0x41, 0];
    let with = |tail: &[u8]| {
        let mut body = args.to_vec();
        body.extend_from_slice(tail);
        body
    };
    valid(0, &with(&[0xfc, 8, 0, 0]));
    invalid(0, &with(&[0xfc, 8, 1, 0]));
    valid(0, &with(&[0xfc, 10, 0, 0]));
    valid(0, &with(&[0xfc, 11, 0]));
    valid(0, &with(&[0xfc, 12, 0, 0]));
    invalid(0, &with(&[0xfc, 12, 1, 0]));
    valid(0, &[0xfc, 9, 0]);
    valid(0, &[0xfc, 13, 0]);
    let features = WasmFeatures { bulk_memory: false, ..Default::default() };
    assert!(works_with(features, 0, &with(&[0xfc, 11, 0])).is_err());
}

#[test]
fn references_have_types() {
    valid(1, &[0xd0, 0x70, 0xd1]);
    valid(1, &[0xd2, 0, 0xd1]);
    invalid(1, &[0x41, 0, 0xd1]);
    valid(0, &[0x41, 0, 0xd0, 0x70, 0x26, 0]);
    invalid(0, &[0x41, 0, 0xd0, 0x6f, 0x26, 0]);
    let features = WasmFeatures { reference_types: false, ..Default::default() };
    assert!(works_with(features, 1, &[0xd0, 0x70, 0xd1]).is_err());
}

#[test]
fn selections_agree() {
    valid(1, &[0x41, 1, 0x41, 2, 0x20, 0, 0x1b]);
    invalid(1, &[0x41, 1, 0x42, 2, 0x20, 0, 0x1b]);
    invalid(0, &[0xd0, 0x70, 0xd0, 0x70, 0x41, 0, 0x1b, 0x1a]);
    valid(0, &[0xd0, 0x70, 0xd0, 0x70, 0x41, 0, 0x1c, 1, 0x70, 0x1a]);
}

#[test]
fn proposals_are_switched() {
    let all = WasmFeatures::default();
    // sign extension
    let body = [0x20, 0, 0xc0];
    assert!(works_with(all, 1, &body).is_ok());
    assert!(works_with(WasmFeatures { sign_extension: false, ..all }, 1, &body).is_err());
    // saturating conversions
    let body = [0x43, 0, 0, 0, 0, 0xfc, 0];
    assert!(works_with(all, 1, &body).is_ok());
    assert!(works_with(WasmFeatures { saturating_float_to_int: false, ..all }, 1, &body).is_err());
    // vectors
    let body = [0x20, 0, 0xfd, 0x11, 0xfd, 0x53];
    assert!(works_with(all, 1, &body).is_ok());
    assert!(works_with(WasmFeatures { simd: false, ..all }, 1, &body).is_err());
    // threads: a fence
    let body = [0xfe, 3, 0];
    assert!(works_with(all, 0, &body).is_err());
    assert!(works_with(WasmFeatures { threads: true, ..all }, 0, &body).is_ok());
    // tail calls
    let body = [0x12, 0];
    assert!(works_with(all, 0, &body).is_err());
    assert!(works_with(WasmFeatures { tail_call: true, ..all }, 0, &body).is_ok());
    // blocks with parameters
    let body = [0x41, 1, 0x02, 1, 0x45, 0x0b];
    assert!(works_with(WasmFeatures { multi_value: false, ..all }, 1, &body).is_err());
    // only what is the same everywhere: no floats
    let body = [0x20, 0, 0xb2, 0xa8];
    assert!(works_with(all, 1, &body).is_ok());
    assert!(works_with(WasmFeatures { deterministic_only: true, ..all }, 1, &body).is_err());
}

#[test]
fn exceptions_are_caught() {
    let features = WasmFeatures { exceptions: true, ..Default::default() };
    let body = [0x06, 0x40, 0x19, 0x0b];
    assert!(works_with(features, 0, &body).is_ok());
    assert!(works_with(WasmFeatures::default(), 0, &body).is_err());
    // there is no tag
    assert!(works_with(features, 0, &[0x08, 0]).is_err());
    // a catch outside a try
    assert!(works_with(features, 0, &[0x19]).is_err());
}
