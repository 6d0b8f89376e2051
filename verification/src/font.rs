//! The built-in font: sixteen hexadecimal digit glyphs, five bytes each,
//! stored at the bottom of memory.
use vstd::prelude::*;

verus! {

/// Height of one font glyph in bytes (and in pixel rows).
pub const GLYPH_HEIGHT: usize = 5;

/// The eighty bytes of the digit glyphs `0` through `F`, in order.
pub open spec fn font_seq() -> Seq<u8> {
    seq![
        0xF0u8, 0x90, 0x90, 0x90, 0xF0, // 0
        0x20, 0x60, 0x20, 0x20, 0x70, // 1
        0xF0, 0x10, 0xF0, 0x80, 0xF0, // 2
        0xF0, 0x10, 0xF0, 0x10, 0xF0, // 3
        0x90, 0x90, 0xF0, 0x10, 0x10, // 4
        0xF0, 0x80, 0xF0, 0x10, 0xF0, // 5
        0xF0, 0x80, 0xF0, 0x90, 0xF0, // 6
        0xF0, 0x10, 0x20, 0x40, 0x40, // 7
        0xF0, 0x90, 0xF0, 0x90, 0xF0, // 8
        0xF0, 0x90, 0xF0, 0x10, 0xF0, // 9
        0xF0, 0x90, 0xF0, 0x90, 0x90, // A
        0xE0, 0x90, 0xE0, 0x90, 0xE0, // B
        0xF0, 0x80, 0x80, 0x80, 0xF0, // C
        0xE0, 0x90, 0x90, 0x90, 0xE0, // D
        0xF0, 0x80, 0xF0, 0x80, 0xF0, // E
        0xF0, 0x80, 0xF0, 0x80, 0x80, // F
    ]
}

/// Build the font table as a vector whose contents are exactly `font_seq`.
pub fn font_table() -> (r: Vec<u8>)
    ensures
        r@ == font_seq(),
{
    let mut t: Vec<u8> = Vec::new();
    t.push(0xF0);
    t.push(0x90);
    t.push(0x90);
    t.push(0x90);
    t.push(0xF0);
    t.push(0x20);
    t.push(0x60);
    t.push(0x20);
    t.push(0x20);
    t.push(0x70);
    t.push(0xF0);
    t.push(0x10);
    t.push(0xF0);
    t.push(0x80);
    t.push(0xF0);
    t.push(0xF0);
    t.push(0x10);
    t.push(0xF0);
    t.push(0x10);
    t.push(0xF0);
    t.push(0x90);
    t.push(0x90);
    t.push(0xF0);
    t.push(0x10);
    t.push(0x10);
    t.push(0xF0);
    t.push(0x80);
    t.push(0xF0);
    t.push(0x10);
    t.push(0xF0);
    t.push(0xF0);
    t.push(0x80);
    t.push(0xF0);
    t.push(0x90);
    t.push(0xF0);
    t.push(0xF0);
    t.push(0x10);
    t.push(0x20);
    t.push(0x40);
    t.push(0x40);
    t.push(0xF0);
    t.push(0x90);
    t.push(0xF0);
    t.push(0x90);
    t.push(0xF0);
    t.push(0xF0);
    t.push(0x90);
    t.push(0xF0);
    t.push(0x10);
    t.push(0xF0);
    t.push(0xF0);
    t.push(0x90);
    t.push(0xF0);
    t.push(0x90);
    t.push(0x90);
    t.push(0xE0);
    t.push(0x90);
    t.push(0xE0);
    t.push(0x90);
    t.push(0xE0);
    t.push(0xF0);
    t.push(0x80);
    t.push(0x80);
    t.push(0x80);
    t.push(0xF0);
    t.push(0xE0);
    t.push(0x90);
    t.push(0x90);
    t.push(0x90);
    t.push(0xE0);
    t.push(0xF0);
    t.push(0x80);
    t.push(0xF0);
    t.push(0x80);
    t.push(0xF0);
    t.push(0xF0);
    t.push(0x80);
    t.push(0xF0);
    t.push(0x80);
    t.push(0x80);
    proof {
        assert(t@ =~= font_seq());
    }
    t
}

} // verus!
