use wasm_tools::reader::types::Type;
use wasm_tools::{
    validate, ComponentExportSectionReader, Encoding, Parser, Range, Result, Types, ValidPayload,
    Validator, WasmFeatures,
};

const MODULE: [u8; 8] = [0x00, 0x61, 0x73, 0x6d, 0x01, 0x00, 0x00, 0x00];
const COMPONENT: [u8; 8] = [0x00, 0x61, 0x73, 0x6d, 0x0a, 0x00, 0x01, 0x00];

/// A binary with a header and these sections, each a number and contents.
fn binary(header: &[u8], sections: &[(u8, &[u8])]) -> Vec<u8> {
    let mut bytes = header.to_vec();
    for (id, contents) in sections {
        bytes.push(*id);
        assert!(contents.len() < 128);
        bytes.push(contents.len() as u8);
        bytes.extend_from_slice(contents);
    }
    bytes
}

fn features() -> WasmFeatures {
    WasmFeatures { component_model: true, ..Default::default() }
}

fn types_of(bytes: &[u8]) -> Types {
    match Validator::new_with_features(features()).validate_all(bytes) {
        Ok(types) => types,
        Err(e) => panic!("{} at {}", e.message(), e.offset()),
    }
}

fn error_of(bytes: &[u8]) -> (String, usize) {
    match Validator::new_with_features(features()).validate_all(bytes) {
        Ok(_) => panic!("the binary is valid"),
        Err(e) => (e.message(), e.offset()),
    }
}

fn text_of<T>(result: Result<T>) -> String {
    match result {
        Ok(_) => panic!("nothing is wrong"),
        Err(e) => e.message(),
    }
}

/// A module that exports a function `f` that gives a 32-bit integer.
fn exporting() -> Vec<u8> {
    binary(
        &MODULE,
        &[
            (1, &[1, 0x60, 0, 1, 0x7f]),
            (3, &[1, 0]),
            (7, &[1, 1, b'f', 0, 0]),
            (10, &[1, 4, 0, 0x41, 7, 0x0b]),
        ],
    )
}

#[test]
fn components_need_a_feature() {
    match validate(&COMPONENT) {
        Ok(_) => panic!("components are not enabled"),
        Err(e) => {
            assert_eq!(e.message(), "WebAssembly component model feature not enabled");
            assert_eq!(e.offset(), 0);
        }
    }
    let types = types_of(&COMPONENT);
    assert_eq!(types.component_count(), 0);
    assert_eq!(types.type_count(), 0);
}

#[test]
fn component_sections_need_a_feature() {
    let section = match ComponentExportSectionReader::new(&[0], 5) {
        Ok(section) => section,
        Err(e) => panic!("{}", e.message()),
    };
    let mut validator = Validator::new();
    let e = validator.component_export_section(&section).unwrap_err();
    assert_eq!(e.message(), "component model feature is not enabled");
    assert_eq!(e.offset(), 5);
}

#[test]
fn the_outer_component_goes_on_behind_a_nested_one() {
    let bytes = binary(&COMPONENT, &[(5, &COMPONENT), (4, &MODULE), (5, &COMPONENT)]);
    let types = types_of(&bytes);
    assert_eq!(types.component_count(), 2);
    assert_eq!(types.module_count(), 1);
}

#[test]
fn components_nest_deeply() {
    let innermost = binary(&COMPONENT, &[(4, &MODULE), (4, &MODULE)]);
    let middle = binary(&COMPONENT, &[(5, &innermost), (4, &MODULE), (5, &innermost)]);
    let bytes = binary(&COMPONENT, &[(5, &middle), (5, &COMPONENT), (4, &MODULE)]);
    // the types are those of the outermost component
    let types = types_of(&bytes);
    assert_eq!(types.component_count(), 2);
    assert_eq!(types.module_count(), 1);
}

#[test]
fn nested_binaries_have_the_right_header() {
    let bytes = binary(&COMPONENT, &[(4, &COMPONENT)]);
    assert_eq!(
        error_of(&bytes),
        ("expected a version header for a module".to_string(), 10)
    );
    let bytes = binary(&COMPONENT, &[(5, &MODULE)]);
    assert_eq!(
        error_of(&bytes),
        ("expected a version header for a component".to_string(), 10)
    );
}

#[test]
fn nested_modules_are_validated() {
    let wrong = binary(&MODULE, &[(3, &[1, 0])]);
    let bytes = binary(&COMPONENT, &[(4, &wrong)]);
    let mut validator = Validator::new_with_features(features());
    assert!(validator.validate_all(&bytes).is_err());
}

#[test]
fn module_sections_are_refused_in_a_component() {
    let range = Range { start: 2, end: 3 };
    let mut validator = Validator::new_with_features(features());
    assert!(validator.version(0x1_000a, Encoding::Component, &range).is_ok());
    assert_eq!(
        text_of(validator.start_section(0, &range)),
        "unexpected module start section while parsing a component"
    );
    assert_eq!(
        text_of(validator.code_section_start(0, &range)),
        "unexpected module code section while parsing a component"
    );
    let types = match validator.end(8) {
        Ok(types) => types,
        Err(e) => panic!("{}", e.message()),
    };
    assert_eq!(types.module_count(), 0);
}

#[test]
fn a_payload_hands_out_the_parser_of_a_nested_binary() {
    let bytes = binary(&COMPONENT, &[(4, &MODULE)]);
    let mut validator = Validator::new_with_features(features());
    let mut parts = Parser::new(0).parse_all(&bytes);
    let mut seen = Vec::new();
    while let Some(part) = parts.next() {
        let part = match part {
            Ok(part) => part,
            Err(e) => panic!("{}", e.message()),
        };
        match validator.payload(&part) {
            Ok(ValidPayload::Valid) => seen.push("valid"),
            Ok(ValidPayload::Parser(_)) => seen.push("parser"),
            Ok(ValidPayload::Func(..)) => seen.push("func"),
            Ok(ValidPayload::End(_)) => seen.push("end"),
            Err(e) => panic!("{}", e.message()),
        }
    }
    assert_eq!(seen, ["valid", "parser", "valid", "end", "end"]);
}

#[test]
fn a_core_function_can_be_lifted_and_exported() {
    let module = exporting();
    let parts: [(u8, &[u8]); 6] = [
        (4, &module),
        // an instance of the module
        (6, &[1, 0x00, 0x00, 0, 0]),
        // its export `f`
        (9, &[1, 0x01, 0x00, 0, 1, b'f']),
        // the type of a function that gives an unsigned 32-bit integer
        (1, &[1, 0x4c, 0, 0x78]),
        // the lifted function
        (3, &[1, 0x00, 0, 0, 0]),
        // an export of it
        (7, &[1, 1, b'g', 0x03, 1]),
    ];
    let types = types_of(&binary(&COMPONENT, &parts));
    assert_eq!(types.module_count(), 1);
    assert_eq!(types.instance_count(), 1);
    assert_eq!(types.type_count(), 1);
    assert_eq!(types.function_count(), 2);
    match types.function_at(0) {
        Some(ty) => {
            assert_eq!(ty.params, []);
            assert_eq!(ty.returns, [Type::I32]);
        }
        None => unreachable!(),
    }

    // a function that gives a 64-bit integer is something else
    let mut wrong = parts;
    wrong[3] = (1, &[1, 0x4c, 0, 0x76]);
    assert!(Validator::new_with_features(features())
        .validate_all(&binary(&COMPONENT, &wrong))
        .is_err());

    // there is no export of that name
    let mut wrong = parts;
    wrong[2] = (9, &[1, 0x01, 0x00, 0, 1, b'h']);
    assert!(Validator::new_with_features(features())
        .validate_all(&binary(&COMPONENT, &wrong))
        .is_err());

    // names are exported once
    let mut wrong = parts;
    wrong[5] = (7, &[2, 1, b'g', 0x03, 1, 1, b'g', 0x03, 1]);
    assert!(Validator::new_with_features(features())
        .validate_all(&binary(&COMPONENT, &wrong))
        .is_err());
}

#[test]
fn imports_have_types() {
    // an import of a function of a type that is there
    let bytes = binary(
        &COMPONENT,
        &[(1, &[1, 0x4c, 0, 0x7f]), (2, &[1, 1, b'a', 0])],
    );
    assert_eq!(types_of(&bytes).function_count(), 1);
    // and of one that is not
    let bytes = binary(&COMPONENT, &[(2, &[1, 1, b'a', 0])]);
    assert_eq!(error_of(&bytes).1, 11);
}

#[test]
fn component_types_are_numbered_in_order() {
    // a record of a list, then a function that takes it
    let bytes = binary(
        &COMPONENT,
        &[(
            1,
            &[
                3, 0x6f, 0x78, 0x71, 1, 1, b'a', 0, 0x4c, 1, 1, 1, b'r', 1, 0x7f,
            ],
        )],
    );
    assert_eq!(types_of(&bytes).type_count(), 3);
}
