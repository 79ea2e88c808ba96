//! What comes of the operations on sizes.

use vstd::prelude::*;

use crate::size::{target_height, Area, TerminalSize};

verus! {

/// The height of a picture is the least even number that is not below nine
/// sixteenths of its width, rounded down: no other even number `even` is less.
pub proof fn law_target_height(width: u32, height: usize, even: int)
    requires
        call_ensures(target_height, (width,), height),
        even % 2 == 0,
        width as int * 9 / 16 <= even,
    ensures
        height % 2 == 0,
        width as int * 9 / 16 <= height <= width as int * 9 / 16 + 1,
        height <= even,
{
}

/// The size of a local terminal has the cells of the terminal, and a picture that
/// is as wide as the terminal and as high as the least even number allows that is
/// not below nine sixteenths of the width, rounded down.
pub proof fn law_local_size(width: u16, height: u16, size: TerminalSize)
    requires
        call_ensures(TerminalSize::from_cells, (width, height), size),
    ensures
        size.width == width,
        size.height == height,
        size.target_width == width,
        size.target_height % 2 == 0,
        width as int * 9 / 16 <= size.target_height <= width as int * 9 / 16 + 1,
{
}

/// The size of a remote terminal has the low 16 bits of the reported counts as its
/// cells. The picture has all the columns, and the height that belongs to them.
pub proof fn law_remote_size(cols: u32, rows: u32, size: TerminalSize)
    requires
        call_ensures(TerminalSize::from_request, (cols, rows), size),
    ensures
        (cols - size.width) % 0x1_0000 == 0,
        (rows - size.height) % 0x1_0000 == 0,
        size.target_width == cols,
        size.target_height % 2 == 0,
        cols as int * 9 / 16 <= size.target_height <= cols as int * 9 / 16 + 1,
{
}

/// The picture depends on the columns alone: terminals of the same width have the
/// same picture, however many rows they have, and however they are connected.
pub proof fn law_rows_do_not_change_the_picture(
    width: u16,
    rows: (u16, u16, u32),
    one: TerminalSize,
    two: TerminalSize,
    remote: TerminalSize,
)
    requires
        call_ensures(TerminalSize::from_cells, (width, rows.0), one),
        call_ensures(TerminalSize::from_cells, (width, rows.1), two),
        call_ensures(TerminalSize::from_request, (width as u32, rows.2), remote),
    ensures
        one.target_width == two.target_width == remote.target_width,
        one.target_height == two.target_height == remote.target_height,
{
}

/// A wider terminal never has a lower picture.
pub proof fn law_wider_is_not_lower(
    narrow: (u32, u32),
    wide: (u32, u32),
    less: TerminalSize,
    more: TerminalSize,
)
    requires
        narrow.0 <= wide.0,
        call_ensures(TerminalSize::from_request, narrow, less),
        call_ensures(TerminalSize::from_request, wide, more),
    ensures
        less.target_width <= more.target_width,
        less.target_height <= more.target_height,
{
}

/// A terminal that has not reported a size counts as one of 80 by 24 cells, with a
/// picture of 80 by 48.
pub proof fn law_initial_size(size: TerminalSize)
    requires
        call_ensures(TerminalSize::initial, (), size),
    ensures
        size.width == 80,
        size.height == 24,
        size.target_width == 80,
        size.target_height == 48,
{
}

/// A remote terminal is drawn to from its first cell on, in all of its cells: those
/// of its size.
pub proof fn law_area_is_the_whole_terminal(cols: u32, rows: u32, area: Area, size: TerminalSize)
    requires
        call_ensures(Area::from_request, (cols, rows), area),
        call_ensures(TerminalSize::from_request, (cols, rows), size),
    ensures
        area.x == 0,
        area.y == 0,
        (cols - area.width) % 0x1_0000 == 0,
        (rows - area.height) % 0x1_0000 == 0,
        area.width == size.width,
        area.height == size.height,
{
}

/// The empty area has no cells and stands at the first one.
pub proof fn law_empty_area(area: Area)
    requires
        call_ensures(Area::empty, (), area),
    ensures
        area.x == 0,
        area.y == 0,
        area.width == 0,
        area.height == 0,
{
}

} // verus!
