use wasm_tools::reader::component::exports::ComponentExportKind;
use wasm_tools::reader::sections::SectionReader;
use wasm_tools::{BinaryReader, ComponentExportSectionReader, Parser, Payload, Result};

fn good<T>(result: Result<T>) -> T {
    match result {
        Ok(value) => value,
        Err(e) => panic!("{} at {}", e.message(), e.offset()),
    }
}

fn bad<T>(result: Result<T>) -> (String, usize) {
    match result {
        Ok(_) => panic!("nothing is wrong"),
        Err(e) => (e.message(), e.offset()),
    }
}

#[test]
fn component_exports_are_read() {
    let data: &[u8] = &[0x01, 0x03, b'f', b'o', b'o', 0x00, 0x03, 0x00];
    let mut reader = good(ComponentExportSectionReader::new(data, 0));
    assert_eq!(reader.get_count(), 1);
    assert_eq!(reader.original_position(), 1);
    for _ in 0..reader.get_count() {
        let export = good(reader.read());
        assert_eq!(export.name, "foo");
        assert_eq!(export.kind, ComponentExportKind::Module(3));
        println!("Export: {:?}", export);
    }
    assert_eq!(reader.original_position(), 7);
    assert!(!reader.eof());
}

#[test]
fn component_exports_have_kinds() {
    let data: &[u8] = &[
        6, 1, b'a', 0, 1, 1, b'b', 1, 2, 1, b'c', 2, 3, 1, b'd', 3, 4, 1, b'e', 4, 5, 1, b'f', 5, 6,
    ];
    let reader = good(ComponentExportSectionReader::new(data, 50));
    let mut exports = reader.into_iter();
    let mut kinds = Vec::new();
    while let Some(export) = exports.next() {
        kinds.push(good(export).kind);
    }
    assert_eq!(
        kinds,
        [
            ComponentExportKind::Module(1),
            ComponentExportKind::Component(2),
            ComponentExportKind::Instance(3),
            ComponentExportKind::Function(4),
            ComponentExportKind::Value(5),
            ComponentExportKind::Type(6),
        ]
    );
}

#[test]
fn an_export_of_another_kind_is_refused() {
    let mut reader = good(ComponentExportSectionReader::new(&[1, 1, b'a', 6, 0], 50));
    assert_eq!(
        bad(reader.read()),
        ("invalid leading byte for component argument kind".to_string(), 53)
    );
}

#[test]
fn a_section_without_a_count_is_refused() {
    assert_eq!(
        bad(ComponentExportSectionReader::new(&[], 9)),
        ("Unexpected EOF".to_string(), 9)
    );
}

#[test]
fn going_through_a_section_ends_where_it_does() {
    // one byte too many
    let reader = good(ComponentExportSectionReader::new(&[1, 1, b'a', 0, 0, 7], 50));
    let mut exports = reader.into_iter();
    assert!(matches!(exports.next(), Some(Ok(_))));
    match exports.next() {
        Some(result) => assert_eq!(
            bad(result),
            (
                "section size mismatch: unexpected data at the end of the section".to_string(),
                55
            )
        ),
        None => panic!("there is a byte behind the last export"),
    }
    assert!(exports.next().is_none());
}

#[test]
fn numbers_are_read_with_their_limits() {
    let mut reader = BinaryReader::new_with_offset(&[0xff, 0xff, 0xff, 0xff, 0x0f], 0);
    assert_eq!(good(reader.read_var_u32()), u32::MAX);
    let mut reader = BinaryReader::new_with_offset(&[0xff, 0xff, 0xff, 0xff, 0x1f], 0);
    assert_eq!(
        bad(reader.read_var_u32()),
        ("invalid var_u32: integer too large".to_string(), 4)
    );
    let mut reader = BinaryReader::new_with_offset(&[0x80, 0x80, 0x80, 0x80, 0x80, 0x00], 0);
    assert_eq!(
        bad(reader.read_var_u32()),
        ("invalid var_u32: integer representation too long".to_string(), 4)
    );
    let mut reader = BinaryReader::new_with_offset(&[0x80, 0x80, 0x80, 0x80, 0x78], 0);
    assert_eq!(good(reader.read_var_i32()), i32::MIN);
    let mut reader = BinaryReader::new_with_offset(&[0x7f], 0);
    assert_eq!(good(reader.read_var_i64()), -1);
    let mut reader = BinaryReader::new_with_offset(&[0x78, 0x56, 0x34, 0x12], 0);
    assert_eq!(good(reader.read_u32()), 0x1234_5678);
}

#[test]
fn strings_are_read() {
    let mut reader = BinaryReader::new_with_offset(&[3, 0xe2, 0x82, 0xac, 9], 0);
    assert_eq!(good(reader.read_string()), "\u{20ac}");
    assert_eq!(good(reader.read_u8()), 9);
    let mut reader = BinaryReader::new_with_offset(&[2, 0xe2, 0x82], 0);
    assert_eq!(bad(reader.read_string()), ("invalid UTF-8 encoding".to_string(), 2));
    // 100001 bytes
    let mut reader = BinaryReader::new_with_offset(&[0xa1, 0x8d, 0x06], 0);
    assert_eq!(bad(reader.read_string()).0, "string size out of bounds");
}

#[test]
fn a_binary_is_taken_apart() {
    let bytes = [
        0x00, 0x61, 0x73, 0x6d, 0x01, 0x00, 0x00, 0x00, // the header
        0x00, 0x03, 0x01, b'x', 0x05, // a custom section
        0x0a, 0x04, 0x01, 0x02, 0x00, 0x0b, // a code section
    ];
    let mut parts = Parser::new(0).parse_all(&bytes);
    assert!(matches!(parts.next(), Some(Ok(Payload::Version { num: 1, .. }))));
    match parts.next() {
        Some(Ok(Payload::CustomSection { name, data, data_offset, range })) => {
            assert_eq!(name, "x");
            assert_eq!(data, [5]);
            assert_eq!(data_offset, 12);
            assert_eq!((range.start, range.end), (10, 13));
        }
        _ => panic!("a custom section comes"),
    }
    match parts.next() {
        Some(Ok(Payload::CodeSectionStart { count, range, size })) => {
            assert_eq!(count, 1);
            assert_eq!(size, 3);
            assert_eq!((range.start, range.end), (15, 19));
        }
        _ => panic!("a code section comes"),
    }
    match parts.next() {
        Some(Ok(Payload::CodeSectionEntry(body))) => {
            let range = body.range();
            assert_eq!((range.start, range.end), (17, 19));
        }
        _ => panic!("a body comes"),
    }
    assert!(matches!(parts.next(), Some(Ok(Payload::End(19)))));
    assert!(parts.next().is_none());
}
