//! Cells: one character position of the grid, with its colors and style.

use vstd::prelude::*;

verus! {

/// The style attribute of a cell. A cell has exactly one.
#[derive(Copy, Clone, Debug, PartialEq, Eq)]
pub enum Style {
    Normal,
    Underline,
    Bold,
    Blink,
    Reverse,
}

/// The colors a cell can take.
#[derive(Copy, Clone, Debug, PartialEq, Eq)]
pub enum Color {
    Black,
    Red,
    White,
}

impl Color {
    /// The index of this color in the 256-color palette.
    pub open spec fn index(self) -> u16 {
        match self {
            Color::Black => 0,
            Color::Red => 1,
            Color::White => 7,
        }
    }

    /// The palette index as it is put on the wire: the low 8 bits of `index`.
    pub open spec fn wire_index(self) -> u8 {
        (self.index() & 0xFF) as u8
    }

    /// The index of this color in the 256-color palette.
    pub fn as_256_color(&self) -> (index: u16)
        ensures
            index == self.index(),
            *self == Color::Black ==> index == 0,
            *self == Color::Red ==> index == 1,
            *self == Color::White ==> index == 7,
    {
        match self {
            Color::Black => 0,
            Color::Red => 1,
            Color::White => 7,
        }
    }

    /// The palette index masked to its low 8 bits, as a byte.
    pub fn as_wire_index(&self) -> (index: u8)
        ensures
            index == self.wire_index(),
            index == self.index(),
    {
        let full: u16 = self.as_256_color();
        let low: u16 = full & 0xFF;
        assert(low == full) by (bit_vector)
            requires
                low == full & 0xFF,
                full <= 7,
        ;
        low as u8
    }
}

/// What one screen position shows.
#[derive(Copy, Clone, Debug, PartialEq, Eq)]
pub struct Cell {
    pub ch: char,
    pub bg: Color,
    pub fg: Color,
    pub style: Style,
}

impl Cell {
    /// The cell a fresh grid is filled with: a space, white on black, no style.
    pub open spec fn spec_blank() -> Cell {
        Cell { ch: ' ', bg: Color::Black, fg: Color::White, style: Style::Normal }
    }

    /// The cell a fresh grid is filled with: a space, white on black, no style.
    pub fn blank() -> (cell: Cell)
        ensures
            cell == Cell::spec_blank(),
    {
        Cell { ch: ' ', bg: Color::Black, fg: Color::White, style: Style::Normal }
    }
}

} // verus!
