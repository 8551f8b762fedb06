//! How a binary is made of its parts.

use crate::error::BinaryReaderError;
use crate::parser::{
    section_kind, Encoding, ParseView, Parser, ParserState, PayloadView, SectionKind,
};
use crate::reader::binary_reader::{Cursor, Range};
use crate::reader::laws::{law_fixed, law_numbers};
use vstd::prelude::*;

verus! {

/// A binary starts with four bytes that are always the same and four bytes with the version, of which
/// the last two say whether it is a module or a component. Sections follow.
pub proof fn law_header_bytes(p: Parser, c: Cursor)
    requires
        p.state == ParserState::Header,
        c.wf(),
    ensures
        p.parse(c).2 is Ok <==> {
            &&& c.left() >= 8
            &&& c.bytes[c.pos] == 0 && c.bytes[c.pos + 1] == 0x61 && c.bytes[c.pos + 2] == 0x73
                && c.bytes[c.pos + 3] == 0x6d
            &&& c.bytes[c.pos + 6] <= 1 && c.bytes[c.pos + 7] == 0
        },
        p.parse(c) matches (q, d, Ok(part)) ==> {
            let encoding = if c.bytes[c.pos + 6] == 0 {
                Encoding::Module
            } else {
                Encoding::Component
            };
            &&& d == c.advance(8)
            &&& q == (Parser { state: ParserState::SectionStart, encoding, ..p })
            &&& part matches PayloadView::Version { num, encoding: found, range }
            &&& found == encoding
            &&& num == c.bytes[c.pos + 4] + 0x100 * c.bytes[c.pos + 5] + 0x1_0000
                * c.bytes[c.pos + 6]
            &&& range.start == c.offset() && range.end == c.offset() + 8
        },
{
    reveal(Parser::parse);
    let magic = seq![0x00u8, 0x61, 0x73, 0x6d];
    if c.left() >= 4 {
        let first = c.bytes.subrange(c.pos, c.pos + 4);
        law_fixed(c.advance(4));
        if c.bytes[c.pos] == 0 && c.bytes[c.pos + 1] == 0x61 && c.bytes[c.pos + 2] == 0x73
            && c.bytes[c.pos + 3] == 0x6d {
            assert(first =~= magic);
        } else {
            assert(first[0] == c.bytes[c.pos] && first[1] == c.bytes[c.pos + 1] && first[2]
                == c.bytes[c.pos + 2] && first[3] == c.bytes[c.pos + 3]);
            assert(magic[0] == 0 && magic[1] == 0x61 && magic[2] == 0x73 && magic[3] == 0x6d);
            assert(first != magic);
        }
    }
}

/// The number of a section with items, and what it is a section of.
pub open spec fn number_of(kind: SectionKind) -> (Encoding, u8) {
    match kind {
        SectionKind::Type => (Encoding::Module, 1),
        SectionKind::Import => (Encoding::Module, 2),
        SectionKind::Function => (Encoding::Module, 3),
        SectionKind::Table => (Encoding::Module, 4),
        SectionKind::Memory => (Encoding::Module, 5),
        SectionKind::Global => (Encoding::Module, 6),
        SectionKind::Export => (Encoding::Module, 7),
        SectionKind::Element => (Encoding::Module, 9),
        SectionKind::Data => (Encoding::Module, 11),
        SectionKind::Tag => (Encoding::Module, 13),
        SectionKind::ComponentType => (Encoding::Component, 1),
        SectionKind::ComponentImport => (Encoding::Component, 2),
        SectionKind::ComponentFunction => (Encoding::Component, 3),
        SectionKind::Instance => (Encoding::Component, 6),
        SectionKind::ComponentExport => (Encoding::Component, 7),
        SectionKind::Alias => (Encoding::Component, 9),
    }
}

/// A section with items is known by its number, and each kind has one number.
pub proof fn law_section_numbers(encoding: Encoding, id: u8, kind: SectionKind)
    ensures
        section_kind(encoding, id) == Some(kind) <==> number_of(kind) == (encoding, id),
{
}

/// A parser stands where a section can start.
pub open spec fn at_section(p: Parser) -> bool {
    p.state == ParserState::SectionStart || p.state == (ParserState::FunctionBody {
        remaining: 0,
        len: 0,
    })
}

/// Where a section can start and no bytes are left is the end, and only there.
pub proof fn law_end(p: Parser, c: Cursor)
    requires
        at_section(p),
        c.wf(),
    ensures
        c.left() == 0 <==> p.parse(c).2 matches Ok(PayloadView::End(_)),
        c.left() == 0 ==> p.parse(c).1 == c && p.parse(c).2->Ok_0->End_0 == c.offset(),
{
    reveal(Parser::parse);
}

/// The part of a section with a number whose content is some bytes, which start at an offset.
pub open spec fn content_of(
    encoding: Encoding,
    id: u8,
    content: Seq<u8>,
    offset: int,
    part: PayloadView,
) -> bool {
    let range = Range { start: offset as usize, end: (offset + content.len()) as usize };
    let inner = Cursor::start(content, offset);
    match part {
        PayloadView::CustomSection { name, data_offset, data, range: found } => {
            &&& id == 0
            &&& inner.string().1 is Ok && inner.string().1->Ok_0 == name
            &&& data == content.skip(inner.string().0.pos)
            &&& data_offset == inner.string().0.offset()
            &&& found == range
        },
        PayloadView::Section(kind, section) => {
            &&& number_of(kind) == (encoding, id)
            &&& section.cursor.bytes == content && section.cursor.base == offset
            &&& (section.cursor, Ok::<u32, BinaryReaderError>(section.count))
                == inner.var_u32()
        },
        PayloadView::StartSection { func, range: found } => {
            &&& encoding == Encoding::Module && id == 8
            &&& inner.var_u32().1 is Ok && inner.var_u32().1->Ok_0 == func
            &&& inner.var_u32().0.pos == content.len()
            &&& found == range
        },
        PayloadView::DataCountSection { count, range: found } => {
            &&& encoding == Encoding::Module && id == 12
            &&& inner.var_u32().1 is Ok && inner.var_u32().1->Ok_0 == count
            &&& inner.var_u32().0.pos == content.len()
            &&& found == range
        },
        PayloadView::ComponentStartSection(cursor) => {
            encoding == Encoding::Component && id == 8 && cursor == inner
        },
        PayloadView::UnknownSection { id: number, contents, range: found } => {
            &&& number == id && contents == content && found == range
            &&& id > 13 || (encoding == Encoding::Component && id > 9)
        },
        _ => false,
    }
}

/// A section is its number, the length of its content, and the content, of which it is made. The next
/// section comes behind the content. Only of a code section, and of a module or a component in a
/// component, the content is taken apart further.
pub proof fn law_section_bytes(p: Parser, c: Cursor)
    requires
        at_section(p),
        c.wf(),
        c.left() > 0,
        p.parse(c).2 is Ok,
    ensures
        ({
            let (q, d, part) = p.parse(c);
            let id = c.bytes[c.pos];
            let (e, len) = c.advance(1).var_u32();
            let content = e.bytes.subrange(e.pos, e.pos + len->Ok_0);
            &&& len is Ok
            &&& len->Ok_0 <= e.left()
            &&& e.pos - c.pos + len->Ok_0 <= p.max_size
            &&& match part->Ok_0 {
                PayloadView::CodeSectionStart { count, range, size } => {
                    let (f, n) = e.var_u32();
                    &&& p.encoding == Encoding::Module && id == 10
                    &&& n is Ok && n->Ok_0 == count
                    &&& d == f
                    &&& f.pos + size == e.pos + len->Ok_0
                    &&& range.start == e.offset() && range.end == e.offset() + len->Ok_0
                    &&& q == (Parser {
                        state: ParserState::FunctionBody { remaining: count, len: size },
                        ..p
                    })
                },
                PayloadView::ModuleSection { parser, range } => {
                    &&& p.encoding == Encoding::Component && id == 4
                    &&& d == e
                    &&& parser == Parser::start(e.offset() as usize, len->Ok_0 as u64)
                    &&& range.start == e.offset() && range.end == e.offset() + len->Ok_0
                    &&& q == (Parser {
                        state: ParserState::SectionStart,
                        max_size: (p.max_size - len->Ok_0) as u64,
                        ..p
                    })
                },
                PayloadView::ComponentSection { parser, range } => {
                    &&& p.encoding == Encoding::Component && id == 5
                    &&& d == e
                    &&& parser == Parser::start(e.offset() as usize, len->Ok_0 as u64)
                    &&& range.start == e.offset() && range.end == e.offset() + len->Ok_0
                    &&& q == (Parser {
                        state: ParserState::SectionStart,
                        max_size: (p.max_size - len->Ok_0) as u64,
                        ..p
                    })
                },
                other => {
                    &&& d == e.advance(len->Ok_0 as int)
                    &&& q == (Parser { state: ParserState::SectionStart, ..p })
                    &&& content_of(p.encoding, id, content, e.offset(), other)
                },
            }
        }),
{
    reveal(Parser::parse);
    law_numbers(c.advance(1));
    let (e, len) = c.advance(1).var_u32();
    if len is Ok && len->Ok_0 <= e.left() {
        law_numbers(e);
        let content = e.bytes.subrange(e.pos, e.pos + len->Ok_0);
        let inner = Cursor::start(content, e.offset());
        law_numbers(inner);
        let named = inner.string().0;
        assert(inner.string().1 is Ok ==> named.rest() == content.skip(named.pos)) by {
            if inner.string().1 is Ok {
                assert(named.bytes == content);
                assert(named.rest() =~= content.skip(named.pos));
            }
        }
    }
}

/// In a code section the bodies follow each other, each a length and so many bytes, which are handed
/// out. They fill the section.
pub proof fn law_body_bytes(p: Parser, c: Cursor, remaining: u32, len: u32)
    requires
        p.state == (ParserState::FunctionBody { remaining, len }),
        c.wf(),
    ensures
        remaining > 0 ==> (p.parse(c).2 is Ok <==> {
            let (d, size) = c.var_u32();
            size is Ok && size->Ok_0 <= d.left() && d.pos - c.pos + size->Ok_0 <= len
        }),
        remaining > 0 ==> (p.parse(c) matches (q, e, Ok(part)) ==> {
            let (d, size) = c.var_u32();
            &&& part matches PayloadView::CodeSectionEntry(body)
            &&& body == Cursor::start(
                d.bytes.subrange(d.pos, d.pos + size->Ok_0),
                d.offset(),
            )
            &&& e == d.advance(size->Ok_0 as int)
            &&& q == (Parser {
                state: ParserState::FunctionBody {
                    remaining: (remaining - 1) as u32,
                    len: (len - (e.pos - c.pos)) as u32,
                },
                ..p
            })
        }),
        remaining == 0 && len > 0 ==> p.parse(c).2 is Err,
{
    reveal(Parser::parse);
    law_numbers(c);
}

/// What is read is read forward: nothing stands still but at an end.
pub proof fn law_forward(p: Parser, c: Cursor)
    requires
        c.wf(),
        p.parse(c).2 is Ok,
    ensures
        ({
            let (q, d, part) = p.parse(c);
            &&& d.bytes == c.bytes && d.base == c.base
            &&& d.pos <= c.bytes.len()
            &&& if part->Ok_0 is End {
                d.pos == c.pos && c.left() == 0
            } else {
                d.pos > c.pos
            }
        }),
{
    match p.state {
        ParserState::Header => law_header_bytes(p, c),
        ParserState::SectionStart => {
            law_end(p, c);
            if c.left() > 0 {
                law_section_bytes(p, c);
                law_numbers(c.advance(1));
                law_numbers(c.advance(1).var_u32().0);
            }
        },
        ParserState::FunctionBody { remaining, len } => {
            law_body_bytes(p, c, remaining, len);
            law_numbers(c);
            if remaining == 0 && len == 0 {
                law_end(p, c);
                if c.left() > 0 {
                    law_section_bytes(p, c);
                    law_numbers(c.advance(1));
                    law_numbers(c.advance(1).var_u32().0);
                }
            }
        },
    }
}

/// Each part of a binary brings it nearer to its end, and once nothing more comes, nothing comes.
pub proof fn law_progress(parts: ParseView)
    requires
        parts.wf(),
    ensures
        parts.step() matches (rest, Some(Ok(part))) ==> rest.left() < parts.left() && parts.pos
            <= rest.pos <= rest.bytes.len() && rest.bytes == parts.bytes && rest.base
            == parts.base && rest.wf(),
        parts.step().1 is None <==> parts.done,
        parts.step() matches (rest, Some(Err(_))) ==> rest.step().1 is None,
{
    if !parts.done {
        let c = parts.window();
        if let (q, d, Ok(part)) = parts.current.parse(c) {
            law_forward(parts.current, c);
            parts.current.lemma_states(c);
            lemma_nested_at_section(parts.current, c);
            let rest = parts.behind(part, q, d.pos);
            assert forall|i: int| 0 <= i < rest.stack.len() implies (#[trigger] rest.stack[i]).state
                == ParserState::SectionStart by {
                if i < parts.stack.len() {
                    assert(parts.stack[i].state == ParserState::SectionStart);
                }
            }
        }
    }
}

proof fn lemma_nested_at_section(p: Parser, c: Cursor)
    ensures
        p.parse(c) matches (q, _, Ok(part)) ==> (part is ModuleSection || part is ComponentSection
            ==> q.state == ParserState::SectionStart),
{
    reveal(Parser::parse);
}

/// How many bytes the parsers of what is read now, and of what that is in, still expect.
pub open spec fn expected(parsers: Seq<Parser>) -> nat
    decreases parsers.len(),
{
    if parsers.len() == 0 {
        0
    } else {
        expected(parsers.drop_last()) + parsers.last().max_size as nat
    }
}

/// The parsers expect just the bytes up to some place, unless no bytes are left at all.
pub open spec fn accounted(parts: ParseView, total: int) -> bool {
    &&& parts.pos == parts.bytes.len() || parts.pos + expected(parts.stack.push(parts.current))
        == total
    &&& parts.done ==> parts.pos == parts.bytes.len() || parts.pos == total
}

/// No byte is passed over: what is expected is what has not been read, and at the end that is nothing.
pub proof fn law_no_byte_passed_over(parts: ParseView, total: int)
    requires
        parts.wf(),
        accounted(parts, total),
    ensures
        parts.step() matches (rest, Some(Ok(part))) ==> accounted(rest, total),
{
    if let (rest, Some(Ok(part))) = parts.step() {
        law_progress(parts);
        let c = parts.window();
        let p = parts.current;
        let (q, d, result) = p.parse(c);
        law_forward(p, c);
        lemma_sizes(p, c);
        let open = parts.stack.push(p);
        assert(open.drop_last() =~= parts.stack);
        let current = Parser { max_size: (q.max_size - d.pos) as u64, ..q };
        let now = rest.stack.push(rest.current);
        assert(now.drop_last() =~= rest.stack);
        assert(expected(open) == expected(parts.stack) + p.max_size);
        assert(expected(now) == expected(rest.stack) + rest.current.max_size);
        match part {
            PayloadView::ModuleSection { parser, .. } => {
                assert(rest.stack =~= parts.stack.push(current));
                assert(rest.stack.drop_last() =~= parts.stack);
                assert(expected(rest.stack) == expected(parts.stack) + current.max_size);
            },
            PayloadView::ComponentSection { parser, .. } => {
                assert(rest.stack =~= parts.stack.push(current));
                assert(rest.stack.drop_last() =~= parts.stack);
                assert(expected(rest.stack) == expected(parts.stack) + current.max_size);
            },
            PayloadView::End(_) => {
                if parts.stack.len() > 0 {
                    assert(now =~= parts.stack);
                }
                assert(parts.visible() == 0);
                if parts.stack.len() == 0 {
                    assert(expected(parts.stack) == 0);
                }
            },
            _ => {
                assert(rest.stack == parts.stack);
            },
        }
    }
}

proof fn lemma_sizes(p: Parser, c: Cursor)
    requires
        c.wf(),
        c.pos == 0,
        p.parse(c).2 is Ok,
        c.bytes.len() <= p.max_size,
    ensures
        ({
            let (q, d, part) = p.parse(c);
            &&& d.pos <= q.max_size
            &&& match part->Ok_0 {
                PayloadView::ModuleSection { parser, .. } => q.max_size + parser.max_size
                    == p.max_size,
                PayloadView::ComponentSection { parser, .. } => q.max_size + parser.max_size
                    == p.max_size,
                _ => q.max_size == p.max_size,
            }
        }),
{
    match p.state {
        ParserState::Header => law_header_bytes(p, c),
        ParserState::SectionStart => {
            law_end(p, c);
            reveal(Parser::parse);
            if c.left() > 0 {
                law_section_bytes(p, c);
                law_numbers(c.advance(1));
                law_numbers(c.advance(1).var_u32().0);
            }
        },
        ParserState::FunctionBody { remaining, len } => {
            law_body_bytes(p, c, remaining, len);
            law_numbers(c);
            reveal(Parser::parse);
            if remaining == 0 && len == 0 {
                law_end(p, c);
                if c.left() > 0 {
                    law_section_bytes(p, c);
                    law_numbers(c.advance(1));
                    law_numbers(c.advance(1).var_u32().0);
                }
            }
        },
    }
}

} // verus!
