use vstd::prelude::*;

verus! {

/// Rows of cells in the bundled monospace glyph atlas.
pub const CHARMAP_NROWS: u32 = 3;

/// Columns of cells in the bundled monospace glyph atlas.
pub const CHARMAP_NCOLS: u32 = 32;

/// The atlas cell left blank, the last one; used for space and for every
/// character the atlas does not hold.
pub const CHAR_EMPTY_SPACE_INDEX: u32 = 95;

/// Whether `c` is a printable, non-space ASCII character (`'!'..='~'`).
pub open spec fn is_glyph_char(c: char) -> bool {
    '!' <= c && c <= '~'
}

/// The atlas cell that shows `c`: cell `c - '!'` for printable characters,
/// the blank cell for everything else.
pub open spec fn glyph_cell(c: char) -> int {
    if is_glyph_char(c) {
        c as int - '!' as int
    } else {
        CHAR_EMPTY_SPACE_INDEX as int
    }
}

/// The atlas cell of `c`: `Some(c - '!')` for `'!'..='~'`, the blank cell
/// for a space and for every other character.
pub fn char_to_charmap_index(c: char) -> (r: Option<usize>)
    ensures
        r == Some(glyph_cell(c) as usize),
        is_glyph_char(c) ==> r == Some((c as int - '!' as int) as usize),
        !is_glyph_char(c) ==> r == Some(CHAR_EMPTY_SPACE_INDEX as usize),
{
    if c >= '!' && c <= '~' {
        Some(c as usize - '!' as usize)
    } else {
        Some(CHAR_EMPTY_SPACE_INDEX as usize)
    }
}

/// The atlas cell of `c`, the blank cell for anything but `'!'..='~'`.
pub fn char_to_cell_index(c: char) -> (r: u32)
    ensures
        r == glyph_cell(c),
        r < CHARMAP_NROWS * CHARMAP_NCOLS,
{
    let code = c as u32;
    if code < '!' as u32 || code >= 127 {
        CHARMAP_NROWS * CHARMAP_NCOLS - 1
    } else {
        code - '!' as u32
    }
}

/// The blank cell is the last cell of the atlas, and every character that
/// is neither printable nor a space maps to it.
pub proof fn lemma_unsupported_chars_blank(c: char)
    requires
        !is_glyph_char(c),
        c != ' ',
    ensures
        glyph_cell(c) == CHARMAP_NROWS * CHARMAP_NCOLS - 1,
{
}

} // verus!
