//! Sizes of a terminal and of the picture that is drawn into it.

use vstd::prelude::*;

verus! {

/// The height, in half-block rows, of a 16:9 picture that is `width` columns
/// wide. Two rows share one character cell, so the height is rounded up to an
/// even number.
pub open spec fn picture_height(width: int) -> int {
    (width * 9 / 16 + 1) / 2 * 2
}

/// The low 16 bits of a 32-bit count: what is left of it in a `u16`.
pub open spec fn low_bits(count: u32) -> u16 {
    (count % 0x1_0000) as u16
}

/// The executable form of [`low_bits`].
fn truncate(count: u32) -> (low: u16)
    ensures
        low == low_bits(count),
{
    let low: u16 = (count % 0x1_0000) as u16;
    low
}

/// Computes [`picture_height`] of any width that a terminal can report.
pub fn target_height(width: u32) -> (height: usize)
    ensures
        height == picture_height(width as int),
{
    let rows: u64 = width as u64 * 9 / 16;
    let even: u64 = (rows + 1) / 2 * 2;
    even as usize
}

/// The size of a terminal in character cells, and the size of the picture for
/// it in half-block pixels.
#[derive(Clone, Copy, Debug, PartialEq, Eq, Structural)]
pub struct TerminalSize {
    pub width: u16,
    pub height: u16,
    pub target_width: usize,
    pub target_height: usize,
}

/// The part of a terminal that is drawn to.
#[derive(Clone, Copy, Debug, PartialEq, Eq, Structural)]
pub struct Area {
    pub x: u16,
    pub y: u16,
    pub width: u16,
    pub height: u16,
}

/// The size that belongs to a local terminal of `width` by `height` cells.
pub open spec fn size_of_cells(width: u16, height: u16) -> TerminalSize {
    TerminalSize {
        width,
        height,
        target_width: width as usize,
        target_height: picture_height(width as int) as usize,
    }
}

/// The size that belongs to a remote terminal that reports `cols` columns and
/// `rows` rows. The cell counts are cut to 16 bits; the picture keeps all the
/// columns.
pub open spec fn size_of_request(cols: u32, rows: u32) -> TerminalSize {
    TerminalSize {
        width: low_bits(cols),
        height: low_bits(rows),
        target_width: cols as usize,
        target_height: picture_height(cols as int) as usize,
    }
}

/// The size that a remote terminal is taken to have until it reports one.
pub open spec fn default_size() -> TerminalSize {
    TerminalSize { width: 80, height: 24, target_width: 80, target_height: 48 }
}

impl TerminalSize {
    /// The size of a local terminal, from its size in cells.
    pub fn from_cells(width: u16, height: u16) -> (size: TerminalSize)
        ensures
            size == size_of_cells(width, height),
    {
        TerminalSize {
            width,
            height,
            target_width: width as usize,
            target_height: target_height(width as u32),
        }
    }

    /// The size of a remote terminal, from the counts that it reports.
    pub fn from_request(cols: u32, rows: u32) -> (size: TerminalSize)
        ensures
            size == size_of_request(cols, rows),
    {
        TerminalSize {
            width: truncate(cols),
            height: truncate(rows),
            target_width: cols as usize,
            target_height: target_height(cols),
        }
    }

    /// The size of a remote terminal that has not reported one.
    pub fn initial() -> (size: TerminalSize)
        ensures
            size == default_size(),
    {
        TerminalSize { width: 80, height: 24, target_width: 80, target_height: 48 }
    }
}

impl Area {
    /// The area without cells.
    pub fn empty() -> (area: Area)
        ensures
            area == (Area { x: 0, y: 0, width: 0, height: 0 }),
    {
        Area { x: 0, y: 0, width: 0, height: 0 }
    }

    /// The whole of a remote terminal that reports `cols` columns and `rows`
    /// rows, cut to 16 bits each.
    pub fn from_request(cols: u32, rows: u32) -> (area: Area)
        ensures
            area == area_of_request(cols, rows),
    {
        Area { x: 0, y: 0, width: truncate(cols), height: truncate(rows) }
    }
}

/// The area of a remote terminal that reports `cols` columns and `rows` rows.
pub open spec fn area_of_request(cols: u32, rows: u32) -> Area {
    Area { x: 0, y: 0, width: low_bits(cols), height: low_bits(rows) }
}

/// The picture height is the least even number that is not below the rounded
/// down 16:9 height: no other even number `even` does as well.
pub proof fn law_picture_height_is_least_even(width: int, even: int)
    requires
        0 <= width,
        even % 2 == 0,
    ensures
        picture_height(width) % 2 == 0,
        width * 9 / 16 <= picture_height(width) <= width * 9 / 16 + 1,
        width * 9 / 16 <= even ==> picture_height(width) <= even,
{
}

/// A wider terminal never has a lower picture.
pub proof fn law_picture_height_is_monotone(narrow: int, wide: int)
    requires
        0 <= narrow <= wide,
    ensures
        picture_height(narrow) <= picture_height(wide),
{
}

/// A remote terminal whose counts fit in 16 bits gets the size that a local
/// terminal of the same cells gets.
pub proof fn law_remote_and_local_sizes_agree(cols: u16, rows: u16)
    ensures
        size_of_request(cols as u32, rows as u32) == size_of_cells(cols, rows),
{
}

/// The area that a remote terminal is drawn to has the cell counts of its size.
pub proof fn law_area_covers_terminal(cols: u32, rows: u32)
    ensures
        area_of_request(cols, rows).width == size_of_request(cols, rows).width,
        area_of_request(cols, rows).height == size_of_request(cols, rows).height,
{
}

} // verus!
