//! The render pass: what painting a cell, and a sequence of cells, puts on
//! the wire.

use crate::cell::{Cell, Color, Style};
use crate::termcodes::{Background, Foreground, TermCode, SGR0};
use vstd::prelude::*;
use vstd::utf8::*;

verus! {

/// Appends the UTF-8 encoding of `ch` to `out`.
pub fn write_char(ch: char, out: &mut Vec<u8>)
    ensures
        final(out)@ == old(out)@ + encode_scalar(ch as u32),
{
    let scalar: u32 = ch as u32;
    if scalar <= 0x7F {
        out.push((scalar & 0x7F) as u8);
    } else if scalar <= 0x7FF {
        out.push(0xC0 | ((scalar >> 6) & 0x1F) as u8);
        out.push(0x80 | (scalar & 0x3F) as u8);
    } else if scalar <= 0xFFFF {
        out.push(0xE0 | ((scalar >> 12) & 0x0F) as u8);
        out.push(0x80 | ((scalar >> 6) & 0x3F) as u8);
        out.push(0x80 | (scalar & 0x3F) as u8);
    } else {
        out.push(0xF0 | ((scalar >> 18) & 0x7) as u8);
        out.push(0x80 | ((scalar >> 12) & 0x3F) as u8);
        out.push(0x80 | ((scalar >> 6) & 0x3F) as u8);
        out.push(0x80 | (scalar & 0x3F) as u8);
    }
    assert(out@ =~= old(out)@ + encode_scalar(ch as u32));
}

impl TermCode for Cell {
    /// Painting a cell: reset, the style unless it is `Normal`, the
    /// foreground, the background, then the character in UTF-8.
    open spec fn code(&self) -> Seq<u8> {
        SGR0.code() + self.style.code() + Foreground(self.fg.wire_index()).code() + Background(
            self.bg.wire_index(),
        ).code() + encode_scalar(self.ch as u32)
    }

    fn write_to(&self, out: &mut Vec<u8>) {
        SGR0.write_to(out);
        self.style.write_to(out);
        Foreground(self.fg.as_wire_index()).write_to(out);
        Background(self.bg.as_wire_index()).write_to(out);
        write_char(self.ch, out);
        assert(out@ =~= old(out)@ + self.code());
    }
}

/// What painting `cells` one after the other puts on the wire.
pub open spec fn stream(cells: Seq<Cell>) -> Seq<u8>
    decreases cells.len(),
{
    if cells.len() == 0 {
        Seq::empty()
    } else {
        stream(cells.drop_last()) + cells.last().code()
    }
}

/// Appends what painting `cells`, one after the other, takes to `out`.
pub fn write_cells(cells: &Vec<Cell>, out: &mut Vec<u8>)
    ensures
        final(out)@ == old(out)@ + stream(cells@),
{
    let mut x: usize = 0;
    while x < cells.len()
        invariant
            x <= cells.len(),
            out@ == old(out)@ + stream(cells@.take(x as int)),
        decreases cells.len() - x,
    {
        cells[x].write_to(out);
        proof {
            assert(cells@.take(x + 1).drop_last() =~= cells@.take(x as int));
            assert(out@ =~= old(out)@ + stream(cells@.take(x + 1)));
        }
        x = x + 1;
    }
    proof {
        assert(cells@.take(cells.len() as int) =~= cells@);
    }
}

/// The stream of a concatenation is the concatenation of the streams.
pub proof fn lemma_stream_concat(a: Seq<Cell>, b: Seq<Cell>)
    ensures
        stream(a + b) == stream(a) + stream(b),
    decreases b.len(),
{
    if b.len() == 0 {
        assert(a + b =~= a);
        assert(stream(a) + stream(b) =~= stream(a));
    } else {
        lemma_stream_concat(a, b.drop_last());
        assert((a + b).drop_last() =~= a + b.drop_last());
        assert((a + b).last() == b.last());
        assert(stream(a + b) =~= stream(a) + stream(b));
    }
}

/// Where the painting of the first `k` of `cells` ends, and that of cell
/// number `k` starts.
pub open spec fn offset(cells: Seq<Cell>, k: int) -> int {
    stream(cells.take(k)).len() as int
}

/// True when the code of cell number `k` stands in the painting of `cells`
/// right where the codes of the cells before it end.
pub open spec fn painted_at(cells: Seq<Cell>, k: int) -> bool {
    &&& 0 <= k < cells.len()
    &&& 0 <= offset(cells, k) <= offset(cells, k + 1) <= stream(cells).len()
    &&& stream(cells).subrange(offset(cells, k), offset(cells, k + 1)) == cells[k].code()
}

/// In the painting of a sequence of cells, the code of each cell stands
/// where the codes of the cells before it end, and the painting ends with
/// the code of the last.
pub proof fn lemma_stream_position(cells: Seq<Cell>, k: int)
    requires
        0 <= k < cells.len(),
    ensures
        painted_at(cells, k),
        offset(cells, k + 1) == offset(cells, k) + cells[k].code().len(),
        offset(cells, 0) == 0,
        offset(cells, cells.len() as int) == stream(cells).len(),
{
    let before = cells.take(k);
    let upto = cells.take(k + 1);
    let after = cells.skip(k + 1);
    assert(upto.drop_last() =~= before);
    assert(upto.last() == cells[k]);
    assert(cells =~= upto + after);
    lemma_stream_concat(upto, after);
    assert(stream(cells).subrange(offset(cells, k), offset(cells, k + 1)) =~= cells[k].code());
    assert(cells.take(cells.len() as int) =~= cells);
    assert(cells.take(0) =~= Seq::<Cell>::empty());
}

/// The code of a cell is, in this order: the reset, the style, the
/// foreground, the background, the character. The style takes no bytes
/// exactly when it is `Normal`, and the two colors go out under their
/// palette indices.
pub proof fn lemma_cell_layout(cell: Cell)
    ensures
        cell.code() == SGR0.code() + cell.style.code() + Foreground(cell.fg.wire_index()).code()
            + Background(cell.bg.wire_index()).code() + encode_scalar(cell.ch as u32),
        cell.style.code().len() == 0 <==> cell.style == Style::Normal,
        cell.fg.wire_index() == cell.fg.index(),
        cell.bg.wire_index() == cell.bg.index(),
        1 <= encode_scalar(cell.ch as u32).len() <= 4,
{
    lemma_wire_index(cell.fg);
    lemma_wire_index(cell.bg);
}

/// Every color has an index, the index is 0 for black, 1 for red and 7 for
/// white, and masking it to eight bits changes nothing.
pub proof fn lemma_wire_index(color: Color)
    ensures
        color == Color::Black ==> color.index() == 0,
        color == Color::Red ==> color.index() == 1,
        color == Color::White ==> color.index() == 7,
        color.index() == 0 || color.index() == 1 || color.index() == 7,
        color.wire_index() == color.index(),
        0 <= color.wire_index() <= 255,
{
    assert(0u16 & 0xFF == 0) by (bit_vector);
    assert(1u16 & 0xFF == 1) by (bit_vector);
    assert(7u16 & 0xFF == 7) by (bit_vector);
}

} // verus!
