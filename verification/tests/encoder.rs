use wasm_tools::encoder::{
    Element, ElementMode, ElementSection, ElementSegment, Elements, FunctionSection, Instruction,
    Section, SectionId, ValType,
};
use wasm_tools::reader::sections::{
    ElementItems, ElementKind, ElementSectionReader, FunctionSectionReader, SectionReader,
    SectionWithLimitedItems,
};
use wasm_tools::reader::types::Type;
use wasm_tools::{validate, Result};

fn good<T>(result: Result<T>) -> T {
    match result {
        Ok(value) => value,
        Err(e) => panic!("{} at {}", e.message(), e.offset()),
    }
}

fn encoded<S: Section>(section: &S) -> Vec<u8> {
    let mut bytes = Vec::new();
    section.encode(&mut bytes);
    bytes
}

#[test]
fn sections_start_empty() {
    let functions = FunctionSection::new();
    assert_eq!(functions.len(), 0);
    assert!(functions.is_empty());
    assert_eq!(functions.id(), 3);
    assert_eq!(encoded(&functions), [1, 0]);

    let elements = ElementSection::new();
    assert_eq!(elements.len(), 0);
    assert!(elements.is_empty());
    assert_eq!(elements.id(), 9);
    assert_eq!(encoded(&elements), [1, 0]);
}

#[test]
fn functions_are_written_in_order() {
    let mut functions = FunctionSection::new();
    functions.function(3).function(128).function(u32::MAX);
    assert_eq!(functions.len(), 3);
    assert!(!functions.is_empty());
    assert_eq!(
        encoded(&functions),
        [9, 3, 3, 0x80, 0x01, 0xff, 0xff, 0xff, 0xff, 0x0f]
    );
}

#[test]
fn a_section_is_put_behind_what_is_there() {
    let mut functions = FunctionSection::default();
    functions.function(7);
    let mut sink = vec![1, 2, 3];
    functions.encode(&mut sink);
    assert_eq!(sink, [1, 2, 3, 2, 1, 7]);
}

#[test]
fn functions_are_read_back() {
    let list = [0, 1, 127, 128, 16383, 16384, 624485, u32::MAX];
    let mut functions = FunctionSection::new();
    for index in list {
        functions.function(index);
    }
    let bytes = encoded(&functions);
    assert_eq!(bytes[0] as usize, bytes.len() - 1);
    let mut reader = good(FunctionSectionReader::new(&bytes[1..], 0));
    assert_eq!(reader.get_count(), list.len() as u32);
    for index in list {
        assert_eq!(good(reader.read()), index);
    }
    assert!(reader.eof());
    assert!(reader.ensure_end().is_ok());
}

#[test]
fn instructions_are_written() {
    let cases: [(Instruction<'_>, &[u8]); 15] = [
        (Instruction::End, &[0x0b]),
        (Instruction::BrTable(&[1, 200], 3), &[0x0e, 2, 1, 0xc8, 0x01, 3]),
        (Instruction::GlobalGet(128), &[0x23, 0x80, 0x01]),
        (Instruction::I32Const(0), &[0x41, 0x00]),
        (Instruction::I32Const(64), &[0x41, 0xc0, 0x00]),
        (Instruction::I32Const(-65), &[0x41, 0xbf, 0x7f]),
        (Instruction::I32Const(i32::MIN), &[0x41, 0x80, 0x80, 0x80, 0x80, 0x78]),
        (Instruction::I64Const(-1), &[0x42, 0x7f]),
        (Instruction::I64Const(624485), &[0x42, 0xe5, 0x8e, 0x26]),
        (Instruction::I32Add, &[0x6a]),
        (Instruction::I32Sub, &[0x6b]),
        (Instruction::I32Mul, &[0x6c]),
        (Instruction::I64Add, &[0x7c]),
        (Instruction::RefNull(ValType::ExternRef), &[0xd0, 0x6f]),
        (Instruction::RefFunc(5), &[0xd2, 5]),
    ];
    for (instruction, expected) in cases {
        let mut bytes = Vec::new();
        instruction.encode(&mut bytes);
        assert_eq!(bytes, expected);
    }
}

#[test]
fn active_segments_are_written() {
    let offset = Instruction::I32Const(42);
    let mut elements = ElementSection::new();
    elements.active(Some(0), &offset, ValType::FuncRef, Elements::Functions(&[]));
    assert_eq!(elements.len(), 1);
    assert_eq!(encoded(&elements), [8, 1, 2, 0, 0x41, 42, 0x0b, 0, 0]);

    let mut elements = ElementSection::new();
    elements.active(None, &offset, ValType::FuncRef, Elements::Functions(&[1, 300]));
    assert_eq!(encoded(&elements), [9, 1, 0, 0x41, 42, 0x0b, 2, 1, 0xac, 0x02]);

    let list = [Element::Func(4), Element::Null];
    let mut elements = ElementSection::new();
    elements.active(None, &offset, ValType::FuncRef, Elements::Expressions(&list));
    assert_eq!(
        encoded(&elements),
        [12, 1, 4, 0x41, 42, 0x0b, 2, 0xd2, 4, 0x0b, 0xd0, 0x70, 0x0b]
    );

    let mut elements = ElementSection::new();
    elements.active(Some(9), &offset, ValType::ExternRef, Elements::Expressions(&list));
    assert_eq!(
        encoded(&elements),
        [14, 1, 6, 9, 0x41, 42, 0x0b, 0x6f, 2, 0xd2, 4, 0x0b, 0xd0, 0x6f, 0x0b]
    );
}

#[test]
fn passive_and_declared_segments_are_written() {
    let list = [Element::Null];
    let mut elements = ElementSection::new();
    elements
        .passive(ValType::FuncRef, Elements::Functions(&[1]))
        .passive(ValType::ExternRef, Elements::Expressions(&list))
        .declared(ValType::FuncRef, Elements::Functions(&[2]))
        .declared(ValType::FuncRef, Elements::Expressions(&list));
    assert_eq!(elements.len(), 4);
    assert_eq!(
        encoded(&elements),
        [
            21, 4, // four segments
            1, 0, 1, 1, // passive functions
            5, 0x6f, 1, 0xd0, 0x6f, 0x0b, // passive expressions
            3, 0, 1, 2, // declared functions
            7, 0x70, 1, 0xd0, 0x70, 0x0b, // declared expressions
        ]
    );
}

#[test]
fn the_shorthands_are_segments() {
    let offset = Instruction::GlobalGet(3);
    let functions = Elements::Functions(&[1, 2]);
    let mut short = ElementSection::new();
    short
        .active(Some(1), &offset, ValType::FuncRef, functions)
        .passive(ValType::FuncRef, functions)
        .declared(ValType::FuncRef, functions);
    let mut long = ElementSection::new();
    for mode in [
        ElementMode::Active { table: Some(1), offset: &offset },
        ElementMode::Passive,
        ElementMode::Declared,
    ] {
        long.segment(ElementSegment {
            mode,
            element_type: ValType::FuncRef,
            elements: functions,
        });
    }
    assert_eq!(encoded(&short), encoded(&long));
}

#[test]
fn raw_segments_are_copied() {
    let mut elements = ElementSection::new();
    elements.raw(&[1, 0, 1, 7]).raw(&[]);
    assert_eq!(elements.len(), 2);
    assert_eq!(encoded(&elements), [5, 2, 1, 0, 1, 7]);
}

#[test]
fn segments_are_read_back() {
    let list = [Element::Func(4), Element::Null];
    let offset = Instruction::I32Const(-5);
    let mut elements = ElementSection::new();
    elements
        .active(Some(300), &offset, ValType::ExternRef, Elements::Expressions(&list))
        .active(None, &offset, ValType::FuncRef, Elements::Functions(&[6, 7]))
        .passive(ValType::FuncRef, Elements::Functions(&[8]))
        .declared(ValType::ExternRef, Elements::Expressions(&[]));
    let bytes = encoded(&elements);
    let mut reader = good(ElementSectionReader::new(&bytes[1..], 100));
    assert_eq!(reader.get_count(), 4);

    let first = good(reader.read());
    assert_eq!(first.ty, Type::ExternRef);
    match first.kind {
        ElementKind::Active { table_index, init_expr } => {
            assert_eq!(table_index, 300);
            let mut expression = init_expr.get_binary_reader();
            assert_eq!(good(expression.read_u8()), 0x41);
            assert_eq!(good(expression.read_var_i32()), -5);
            assert_eq!(good(expression.read_u8()), 0x0b);
            assert!(expression.eof());
        }
        _ => panic!("the segment is active"),
    }
    match first.items {
        ElementItems::Expressions(items) => {
            assert_eq!(items.len(), 2);
            assert_eq!(items[0].offset + 3, items[1].offset);
            let mut expression = items[1].item.get_binary_reader();
            assert_eq!(good(expression.read_u8()), 0xd0);
            assert_eq!(good(expression.read_u8()), 0x6f);
        }
        ElementItems::Functions(_) => panic!("the elements are expressions"),
    }

    let second = good(reader.read());
    assert_eq!(second.ty, Type::FuncRef);
    assert!(matches!(second.kind, ElementKind::Active { table_index: 0, .. }));
    match second.items {
        ElementItems::Functions(items) => {
            let items: Vec<u32> = items.iter().map(|placed| placed.item).collect();
            assert_eq!(items, [6, 7]);
        }
        ElementItems::Expressions(_) => panic!("the elements are functions"),
    }

    let third = good(reader.read());
    assert!(matches!(third.kind, ElementKind::Passive));
    let fourth = good(reader.read());
    assert!(matches!(fourth.kind, ElementKind::Declared));
    assert_eq!(fourth.ty, Type::ExternRef);
    assert!(reader.ensure_end().is_ok());
}

#[test]
fn a_segment_for_the_first_table_holds_no_type() {
    let offset = Instruction::I32Const(0);
    let mut elements = ElementSection::new();
    elements.active(None, &offset, ValType::ExternRef, Elements::Expressions(&[]));
    let bytes = encoded(&elements);
    let mut reader = good(ElementSectionReader::new(&bytes[1..], 0));
    assert_eq!(good(reader.read()).ty, Type::FuncRef);
}

#[test]
fn sections_make_a_valid_module() {
    let mut functions = FunctionSection::new();
    functions.function(0);
    let offset = Instruction::I32Const(1);
    let mut elements = ElementSection::new();
    elements
        .active(None, &offset, ValType::FuncRef, Elements::Functions(&[0]))
        .active(Some(0), &offset, ValType::FuncRef, Elements::Expressions(&[Element::Func(0)]))
        .passive(ValType::FuncRef, Elements::Functions(&[0, 0]));

    let mut bytes = vec![0x00, 0x61, 0x73, 0x6d, 0x01, 0x00, 0x00, 0x00];
    // one type, without parameters and results
    bytes.extend_from_slice(&[SectionId::Type.to_byte(), 4, 1, 0x60, 0, 0]);
    bytes.push(functions.id());
    functions.encode(&mut bytes);
    // a table with 128 elements
    bytes.extend_from_slice(&[SectionId::Table.to_byte(), 5, 1, 0x70, 0, 0x80, 0x01]);
    bytes.push(elements.id());
    elements.encode(&mut bytes);
    // one empty body
    bytes.extend_from_slice(&[SectionId::Code.to_byte(), 4, 1, 2, 0, 0x0b]);

    let types = good(validate(&bytes));
    assert_eq!(types.function_count(), 1);
    assert_eq!(types.element_count(), 3);
    assert_eq!(types.element_at(2), Some(Type::FuncRef));
}
