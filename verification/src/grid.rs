//! The grid: a rectangle of cells of fixed size.

use crate::cell::Cell;
use crate::render::{lemma_stream_concat, stream, write_cells};
use crate::termcodes::TermCode;
use vstd::prelude::*;

verus! {

/// A coordinate that lies outside the grid.
#[derive(Copy, Clone, Debug, PartialEq, Eq)]
pub struct IndexOutOfBounds {
    pub x: usize,
    pub y: usize,
}

/// A rectangle of cells. Its view is the rows from top to bottom, each a
/// sequence of cells from left to right.
pub struct Grid {
    rows: Vec<Vec<Cell>>,
    width: u16,
    height: u16,
}

impl View for Grid {
    type V = Seq<Seq<Cell>>;

    closed spec fn view(&self) -> Seq<Seq<Cell>> {
        Seq::new(self.rows@.len(), |y: int| self.rows@[y]@)
    }
}

/// True when `rows` is `height` rows of `width` cells each.
pub open spec fn is_rect(rows: Seq<Seq<Cell>>, width: nat, height: nat) -> bool {
    &&& rows.len() == height
    &&& forall|y: int| 0 <= y < rows.len() ==> #[trigger] rows[y].len() == width
}

/// The cells of `rows` in row-major order: top row first, each row from left
/// to right.
pub open spec fn row_major(rows: Seq<Seq<Cell>>) -> Seq<Cell>
    decreases rows.len(),
{
    if rows.len() == 0 {
        Seq::empty()
    } else {
        row_major(rows.drop_last()) + rows.last()
    }
}

/// `height` rows of `width` blank cells each.
pub open spec fn blank_rows(width: nat, height: nat) -> Seq<Seq<Cell>> {
    Seq::new(height, |y: int| Seq::new(width, |x: int| Cell::spec_blank()))
}

impl Grid {
    /// The number of columns.
    pub closed spec fn spec_width(&self) -> u16 {
        self.width
    }

    /// The number of rows.
    pub closed spec fn spec_height(&self) -> u16 {
        self.height
    }

    /// The grid is a rectangle of the size it says it has.
    pub open spec fn wf(&self) -> bool {
        is_rect(self@, self.spec_width() as nat, self.spec_height() as nat)
    }

    /// True when column `x` of row `y` is a cell of the grid.
    pub open spec fn contains(&self, x: int, y: int) -> bool {
        0 <= x < self.spec_width() && 0 <= y < self.spec_height()
    }

    /// The number of columns.
    #[verifier::when_used_as_spec(spec_width)]
    pub fn width(&self) -> (width: u16)
        ensures
            width == self.spec_width(),
    {
        self.width
    }

    /// The number of rows.
    #[verifier::when_used_as_spec(spec_height)]
    pub fn height(&self) -> (height: u16)
        ensures
            height == self.spec_height(),
    {
        self.height
    }

    /// A grid of `width` columns and `height` rows, every cell blank.
    pub fn new(width: u16, height: u16) -> (grid: Grid)
        ensures
            grid.wf(),
            grid.spec_width() == width,
            grid.spec_height() == height,
            grid@ == blank_rows(width as nat, height as nat),
    {
        let mut rows: Vec<Vec<Cell>> = Vec::new();
        let mut y: u16 = 0;
        while y < height
            invariant
                y <= height,
                rows@.len() == y,
                forall|i: int| 0 <= i < y ==> (#[trigger] rows@[i])@ == Seq::new(
                    width as nat,
                    |x: int| Cell::spec_blank(),
                ),
            decreases height - y,
        {
            let mut row: Vec<Cell> = Vec::new();
            let mut x: u16 = 0;
            while x < width
                invariant
                    x <= width,
                    row@.len() == x,
                    forall|i: int| 0 <= i < x ==> #[trigger] row@[i] == Cell::spec_blank(),
                decreases width - x,
            {
                row.push(Cell::blank());
                x = x + 1;
            }
            assert(row@ =~= Seq::new(width as nat, |x: int| Cell::spec_blank()));
            rows.push(row);
            y = y + 1;
        }
        let grid = Grid { rows, width, height };
        assert(grid@ =~= blank_rows(width as nat, height as nat));
        grid
    }

    /// The cell at column `x` of row `y`, or nothing for a coordinate outside
    /// the grid.
    pub fn get(&self, x: usize, y: usize) -> (cell: Option<Cell>)
        requires
            self.wf(),
        ensures
            self.contains(x as int, y as int) ==> cell == Some(self@[y as int][x as int]),
            !self.contains(x as int, y as int) ==> cell is None,
    {
        if x < self.width as usize && y < self.height as usize {
            assert(self@[y as int].len() == self.width);
            Some(self.rows[y][x])
        } else {
            None
        }
    }

    /// A copy of the grid, cell for cell.
    pub fn snapshot(&self) -> (copy: Grid)
        ensures
            copy@ == self@,
            copy.spec_width() == self.spec_width(),
            copy.spec_height() == self.spec_height(),
    {
        let mut rows: Vec<Vec<Cell>> = Vec::new();
        let mut y: usize = 0;
        while y < self.rows.len()
            invariant
                y <= self.rows@.len(),
                rows@.len() == y,
                forall|i: int| 0 <= i < y ==> (#[trigger] rows@[i])@ == self.rows@[i]@,
            decreases self.rows@.len() - y,
        {
            let source = &self.rows[y];
            let mut row: Vec<Cell> = Vec::new();
            let mut x: usize = 0;
            while x < source.len()
                invariant
                    x <= source@.len(),
                    row@.len() == x,
                    forall|i: int| 0 <= i < x ==> #[trigger] row@[i] == source@[i],
                decreases source@.len() - x,
            {
                row.push(source[x]);
                x = x + 1;
            }
            assert(row@ =~= source@);
            rows.push(row);
            y = y + 1;
        }
        let copy = Grid { rows, width: self.width, height: self.height };
        assert(copy@ =~= self@);
        copy
    }

    /// Sets one cell and leaves every other as it is. A coordinate outside
    /// the grid is refused, and the grid stays as it is.
    pub fn set(&mut self, x: usize, y: usize, cell: Cell) -> (result: Result<(), IndexOutOfBounds>)
        requires
            old(self).wf(),
        ensures
            final(self).wf(),
            final(self).spec_width() == old(self).spec_width(),
            final(self).spec_height() == old(self).spec_height(),
            old(self).contains(x as int, y as int) ==> result is Ok && final(self)@ == old(self)@.update(
                y as int,
                old(self)@[y as int].update(x as int, cell),
            ),
            !old(self).contains(x as int, y as int) ==> result == Err::<(), IndexOutOfBounds>(
                IndexOutOfBounds { x, y },
            ) && final(self)@ == old(self)@,
    {
        if x < self.width as usize && y < self.height as usize {
            assert(self@[y as int].len() == self.width);
            self.rows[y][x] = cell;
            assert(self@ =~= old(self)@.update(
                y as int,
                old(self)@[y as int].update(x as int, cell),
            ));
            Ok(())
        } else {
            Err(IndexOutOfBounds { x, y })
        }
    }
}

impl TermCode for Grid {
    /// Painting a grid paints every cell, in row-major order.
    open spec fn code(&self) -> Seq<u8> {
        stream(row_major(self@))
    }

    fn write_to(&self, out: &mut Vec<u8>) {
        let mut y: usize = 0;
        while y < self.rows.len()
            invariant
                y <= self.rows@.len(),
                out@ == old(out)@ + stream(row_major(self@.take(y as int))),
            decreases self.rows@.len() - y,
        {
            write_cells(&self.rows[y], out);
            proof {
                let above = row_major(self@.take(y as int));
                assert(self@.take(y + 1).drop_last() =~= self@.take(y as int));
                assert(self@.take(y + 1).last() == self.rows@[y as int]@);
                lemma_stream_concat(above, self.rows@[y as int]@);
                assert(out@ =~= old(out)@ + stream(row_major(self@.take(y + 1))));
            }
            y = y + 1;
        }
        proof {
            assert(self@.take(self.rows@.len() as int) =~= self@);
        }
    }
}

/// Cell number `y * width + x` is one of the `width * height` cells of a
/// rectangle, for every column `x` and row `y` of it.
pub proof fn lemma_row_major_index(x: int, y: int, width: nat, height: nat)
    requires
        0 <= x < width,
        0 <= y < height,
    ensures
        0 <= y * width + x < width * height,
{
    assert(y * width + x < width * height) by (nonlinear_arith)
        requires
            0 <= x < width,
            0 <= y < height,
    ;
    assert(0 <= y * width) by (nonlinear_arith)
        requires
            0 <= y,
    ;
}

/// The cells of a rectangle in row-major order are `width` times `height`
/// cells, and the cell of column `x` and row `y` is number `y * width + x`
/// among them.
pub proof fn lemma_row_major_of_rect(rows: Seq<Seq<Cell>>, width: nat, height: nat)
    requires
        is_rect(rows, width, height),
    ensures
        row_major(rows).len() == width * height,
        forall|x: int, y: int|
            0 <= x < width && 0 <= y < height ==> #[trigger] rows[y][x] == row_major(rows)[y
                * width + x],
    decreases height,
{
    if height == 0 {
        assert(width * height == 0) by (nonlinear_arith)
            requires
                height == 0,
        ;
    } else {
        let above = rows.drop_last();
        let top = (height - 1) as nat;
        assert(is_rect(above, width, top));
        lemma_row_major_of_rect(above, width, top);
        assert(width * top + width == width * height) by (nonlinear_arith)
            requires
                top + 1 == height,
        ;
        assert forall|x: int, y: int| 0 <= x < width && 0 <= y < height implies #[trigger] rows[y][x]
            == row_major(rows)[y * width + x] by {
            if y < top {
                lemma_row_major_index(x, y, width, top);
                assert(above[y][x] == row_major(above)[y * width + x]);
            } else {
                assert(y * width == width * top) by (nonlinear_arith)
                    requires
                        y == top,
                ;
                assert(rows.last()[x] == row_major(rows)[y * width + x]);
            }
        }
    }
}

} // verus!
