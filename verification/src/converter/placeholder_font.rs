//! The placeholder font: a small font that stands in where the custom font
//! cannot be loaded.
//!
//! It is a TrueType font of two glyphs without outlines. Every printable ASCII
//! character has the second glyph, half an em wide; every other character has
//! the first.

use vstd::prelude::*;

verus! {

/// The header of the font file: a TrueType font of seven tables.
pub open spec fn font_header() -> Seq<u8> {
    seq![
        0u8, 1, 0, 0, 0, 7, 0, 64, 0, 2, 0, 48,
    ]
}

/// The first four records of the table directory: `cmap`, `glyf`, `head`, `hhea`, each
/// with the place and the length of its table.
pub open spec fn table_directory_front() -> Seq<u8> {
    seq![
        99u8, 109, 97, 112, 0, 0, 0, 0, 0, 0, 0, 124, 0, 0, 1, 18,
        103, 108, 121, 102, 0, 0, 0, 0, 0, 0, 1, 144, 0, 0, 0, 4,
        104, 101, 97, 100, 0, 0, 0, 0, 0, 0, 1, 148, 0, 0, 0, 54,
        104, 104, 101, 97, 0, 0, 0, 0, 0, 0, 1, 204, 0, 0, 0, 36,
    ]
}

/// The last three records of the table directory: `hmtx`, `loca`, `maxp`.
pub open spec fn table_directory_back() -> Seq<u8> {
    seq![
        104u8, 109, 116, 120, 0, 0, 0, 0, 0, 0, 1, 240, 0, 0, 0, 8,
        108, 111, 99, 97, 0, 0, 0, 0, 0, 0, 1, 248, 0, 0, 0, 6,
        109, 97, 120, 112, 0, 0, 0, 0, 0, 0, 2, 0, 0, 0, 0, 6,
    ]
}

/// The head of the `cmap` table: one subtable for Unicode, of the byte format.
pub open spec fn character_map_head() -> Seq<u8> {
    seq![
        0u8, 0, 0, 1, 0, 0, 0, 3, 0, 0, 0, 12, 0, 0, 1, 6,
        0, 0,
    ]
}

/// The `head` table, filled to a multiple of four bytes: 1000 units to the em.
pub open spec fn header_table() -> Seq<u8> {
    seq![
        0u8, 1, 0, 0, 0, 0, 0, 0, 0, 0, 0, 0, 95, 15, 60, 245,
        0, 0, 3, 232, 0, 0, 0, 0, 0, 0, 0, 0, 0, 0, 0, 0,
        0, 0, 0, 0, 0, 0, 0, 0, 0, 0, 0, 0, 0, 0, 0, 0,
        0, 0, 0, 0, 0, 0, 0, 0,
    ]
}

/// The `hhea` table: ascent 800, descent -200, two horizontal metrics.
pub open spec fn horizontal_header_table() -> Seq<u8> {
    seq![
        0u8, 1, 0, 0, 3, 32, 255, 56, 0, 0, 1, 244, 0, 0, 0, 0,
        0, 0, 0, 0, 0, 0, 0, 0, 0, 0, 0, 0, 0, 0, 0, 0,
        0, 0, 0, 2,
    ]
}

/// The tables `hmtx`, `loca` and `maxp`, each filled to a multiple of four bytes:
/// two glyphs, each half an em wide and without an outline.
pub open spec fn closing_tables() -> Seq<u8> {
    seq![
        1u8, 244, 0, 0, 1, 244, 0, 0, 0, 0, 0, 0, 0, 0, 0, 0,
        0, 0, 80, 0, 0, 2, 0, 0,
    ]
}

/// The glyph of each of the 256 byte codes: the second glyph for the printable
/// ASCII characters, the first for every other code.
pub open spec fn glyph_map() -> Seq<u8> {
    Seq::new(256, |code: int| if 32 <= code < 127 { 1u8 } else { 0u8 })
}

/// A run of zero bytes.
pub open spec fn zeros(count: nat) -> Seq<u8> {
    Seq::new(count, |i: int| 0u8)
}

/// The bytes of the placeholder font: header, table directory, and the tables
/// `cmap`, `glyf`, `head`, `hhea`, `hmtx`, `loca`, `maxp`, each table filled
/// to a multiple of four bytes.
pub open spec fn placeholder_font_data() -> Seq<u8> {
    font_header() + table_directory_front() + table_directory_back() + character_map_head()
        + glyph_map() + zeros(2) + zeros(4) + header_table() + horizontal_header_table()
        + closing_tables()
}

/// The bytes of `font_header`.
fn font_header_bytes() -> (bytes: Vec<u8>)
    ensures
        bytes@ == font_header(),
{
    vec![
        0u8, 1, 0, 0, 0, 7, 0, 64, 0, 2, 0, 48,
    ]
}

/// The bytes of `table_directory_front`.
fn table_directory_front_bytes() -> (bytes: Vec<u8>)
    ensures
        bytes@ == table_directory_front(),
{
    vec![
        99u8, 109, 97, 112, 0, 0, 0, 0, 0, 0, 0, 124, 0, 0, 1, 18,
        103, 108, 121, 102, 0, 0, 0, 0, 0, 0, 1, 144, 0, 0, 0, 4,
        104, 101, 97, 100, 0, 0, 0, 0, 0, 0, 1, 148, 0, 0, 0, 54,
        104, 104, 101, 97, 0, 0, 0, 0, 0, 0, 1, 204, 0, 0, 0, 36,
    ]
}

/// The bytes of `table_directory_back`.
fn table_directory_back_bytes() -> (bytes: Vec<u8>)
    ensures
        bytes@ == table_directory_back(),
{
    vec![
        104u8, 109, 116, 120, 0, 0, 0, 0, 0, 0, 1, 240, 0, 0, 0, 8,
        108, 111, 99, 97, 0, 0, 0, 0, 0, 0, 1, 248, 0, 0, 0, 6,
        109, 97, 120, 112, 0, 0, 0, 0, 0, 0, 2, 0, 0, 0, 0, 6,
    ]
}

/// The bytes of `character_map_head`.
fn character_map_head_bytes() -> (bytes: Vec<u8>)
    ensures
        bytes@ == character_map_head(),
{
    vec![
        0u8, 0, 0, 1, 0, 0, 0, 3, 0, 0, 0, 12, 0, 0, 1, 6,
        0, 0,
    ]
}

/// The bytes of `header_table`.
fn header_table_bytes() -> (bytes: Vec<u8>)
    ensures
        bytes@ == header_table(),
{
    vec![
        0u8, 1, 0, 0, 0, 0, 0, 0, 0, 0, 0, 0, 95, 15, 60, 245,
        0, 0, 3, 232, 0, 0, 0, 0, 0, 0, 0, 0, 0, 0, 0, 0,
        0, 0, 0, 0, 0, 0, 0, 0, 0, 0, 0, 0, 0, 0, 0, 0,
        0, 0, 0, 0, 0, 0, 0, 0,
    ]
}

/// The bytes of `horizontal_header_table`.
fn horizontal_header_table_bytes() -> (bytes: Vec<u8>)
    ensures
        bytes@ == horizontal_header_table(),
{
    vec![
        0u8, 1, 0, 0, 3, 32, 255, 56, 0, 0, 1, 244, 0, 0, 0, 0,
        0, 0, 0, 0, 0, 0, 0, 0, 0, 0, 0, 0, 0, 0, 0, 0,
        0, 0, 0, 2,
    ]
}

/// The bytes of `closing_tables`.
fn closing_tables_bytes() -> (bytes: Vec<u8>)
    ensures
        bytes@ == closing_tables(),
{
    vec![
        1u8, 244, 0, 0, 1, 244, 0, 0, 0, 0, 0, 0, 0, 0, 0, 0,
        0, 0, 80, 0, 0, 2, 0, 0,
    ]
}

/// Appends the glyph map.
fn push_glyph_map(out: &mut Vec<u8>)
    ensures
        final(out)@ == old(out)@ + glyph_map(),
{
    let mut code: u16 = 0;
    while code < 256
        invariant
            code <= 256,
            out@ == old(out)@ + glyph_map().take(code as int),
        decreases 256 - code,
    {
        let glyph: u8 = if 32 <= code && code < 127 { 1 } else { 0 };
        out.push(glyph);
        proof {
            assert(glyph_map().take(code + 1) =~= glyph_map().take(code as int).push(glyph));
        }
        code = code + 1;
    }
    proof {
        assert(glyph_map().take(256) == glyph_map());
    }
}

/// Appends a run of zero bytes.
fn push_zeros(out: &mut Vec<u8>, count: usize)
    ensures
        final(out)@ == old(out)@ + zeros(count as nat),
{
    let mut i: usize = 0;
    while i < count
        invariant
            i <= count,
            out@ == old(out)@ + zeros(i as nat),
        decreases count - i,
    {
        out.push(0);
        proof {
            assert(zeros((i + 1) as nat) =~= zeros(i as nat).push(0u8));
        }
        i = i + 1;
    }
}

/// The bytes of the placeholder font.
pub fn placeholder_font() -> (bytes: Vec<u8>)
    ensures
        bytes@ == placeholder_font_data(),
{
    let mut bytes = font_header_bytes();
    let mut front = table_directory_front_bytes();
    bytes.append(&mut front);
    let mut back = table_directory_back_bytes();
    bytes.append(&mut back);
    let mut map_head = character_map_head_bytes();
    bytes.append(&mut map_head);
    push_glyph_map(&mut bytes);
    push_zeros(&mut bytes, 2);
    push_zeros(&mut bytes, 4);
    let mut head = header_table_bytes();
    bytes.append(&mut head);
    let mut horizontal = horizontal_header_table_bytes();
    bytes.append(&mut horizontal);
    let mut closing = closing_tables_bytes();
    bytes.append(&mut closing);
    bytes
}

/// The placeholder font has 520 bytes, and starts as a TrueType font does.
pub proof fn placeholder_font_is_a_font_file()
    ensures
        placeholder_font_data().len() == 520,
        placeholder_font_data().subrange(0, 4) == seq![0u8, 1, 0, 0],
{
    assert(placeholder_font_data().subrange(0, 4) =~= seq![0u8, 1, 0, 0]);
}

} // verus!
