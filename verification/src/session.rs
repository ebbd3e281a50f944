//! The session: a terminal taken over for drawing.
//!
//! A session starts by queueing the sequences that enter the alternate
//! screen, lives through cell writes and presents, and ends by queueing the
//! sequences that leave the alternate screen and handing back the settings
//! the terminal had before. A `RustBox` value is a session that is active;
//! `close` consumes it, so a session ends once.

use crate::cell::{Cell, Color, Style};
use crate::grid::{
    blank_rows, is_rect, lemma_row_major_index, lemma_row_major_of_rect, row_major, Grid,
    IndexOutOfBounds,
};
use crate::output::{
    after_write, first_step, next_step, BufferedFile, FlushError, FlushStep, WriteOutcome,
};
use crate::render::{lemma_stream_position, painted_at, stream};
use crate::settings::TerminalSettings;
use crate::termcodes::{
    ClearScreen, EnterCa, EnterKeypad, ExitCa, ExitKeypad, HideCursor, ShowCursor, TermCode, SGR0,
};
use vstd::prelude::*;

verus! {

/// The mathematical value of a session.
pub struct SessionView {
    /// The settings the terminal had before the session.
    pub settings: TerminalSettings,
    /// The bytes queued for the terminal and not yet written.
    pub output: Seq<u8>,
    /// The grid as it was last presented.
    pub front: Seq<Seq<Cell>>,
    /// The grid with the edits made since.
    pub back: Seq<Seq<Cell>>,
    /// The number of columns.
    pub width: u16,
    /// The number of rows.
    pub height: u16,
}

/// What is left to do once a session has ended.
pub struct Teardown {
    /// The channel, with the closing sequences queued: to be flushed.
    pub output: BufferedFile,
    /// The settings the terminal had before the session: to be put back.
    pub settings: TerminalSettings,
}

/// What a session queues when it starts: enter the alternate screen, keypad
/// to application mode, cursor off, attributes reset, screen cleared.
pub open spec fn enter_code() -> Seq<u8> {
    EnterCa.code() + EnterKeypad.code() + HideCursor.code() + SGR0.code() + ClearScreen.code()
}

/// What a session queues when it ends: cursor on, screen cleared, leave the
/// alternate screen, keypad back to numeric mode.
pub open spec fn exit_code() -> Seq<u8> {
    ShowCursor.code() + ClearScreen.code() + ExitCa.code() + ExitKeypad.code()
}

impl SessionView {
    /// Both grids are rectangles of the session's size.
    pub open spec fn wf(self) -> bool {
        &&& is_rect(self.front, self.width as nat, self.height as nat)
        &&& is_rect(self.back, self.width as nat, self.height as nat)
    }

    /// True when column `x` of row `y` is a cell of the session's grids.
    pub open spec fn contains(self, x: int, y: int) -> bool {
        0 <= x < self.width && 0 <= y < self.height
    }

    /// A session that has just started on a terminal of the given size.
    pub open spec fn opened(settings: TerminalSettings, width: u16, height: u16) -> SessionView {
        SessionView {
            settings,
            output: enter_code(),
            front: blank_rows(width as nat, height as nat),
            back: blank_rows(width as nat, height as nat),
            width,
            height,
        }
    }

    /// The session after one cell of the back grid has been set. Only that
    /// cell differs; outside the grid there is no cell to set.
    pub open spec fn printed(self, x: int, y: int, cell: Cell) -> SessionView {
        if self.contains(x, y) {
            SessionView { back: self.back.update(y, self.back[y].update(x, cell)), ..self }
        } else {
            self
        }
    }

    /// The session after a present: the back grid has become the front
    /// grid, and every cell of it has been painted, in row-major order.
    pub open spec fn presented(self) -> SessionView {
        SessionView {
            front: self.back,
            output: self.output + stream(row_major(self.back)),
            ..self
        }
    }

    /// The session after the device has answered a write.
    pub open spec fn written<E>(self, outcome: WriteOutcome<E>) -> SessionView {
        SessionView { output: after_write(self.output, outcome), ..self }
    }

    /// The session after one thing has happened to it.
    pub open spec fn after(self, op: Op) -> SessionView {
        match op {
            Op::Print { x, y, cell } => self.printed(x as int, y as int, cell),
            Op::Present => self.presented(),
            Op::Wrote(n) => self.written(WriteOutcome::<()>::Written(n)),
        }
    }

    /// The session after a run of things has happened to it, one after the
    /// other.
    pub open spec fn after_all(self, ops: Seq<Op>) -> SessionView
        decreases ops.len(),
    {
        if ops.len() == 0 {
            self
        } else {
            self.after_all(ops.drop_last()).after(ops.last())
        }
    }
}

/// One thing that happens to an active session.
pub enum Op {
    /// A cell of the back grid is set.
    Print { x: usize, y: usize, cell: Cell },
    /// The back grid is presented.
    Present,
    /// The device confirms that it has taken this many of the queued bytes.
    Wrote(usize),
}

/// A session that is active.
pub struct RustBox {
    orig_ios: TerminalSettings,
    outf: BufferedFile,
    front_buffer: Grid,
    back_buffer: Grid,
    width: u16,
    height: u16,
}

impl View for RustBox {
    type V = SessionView;

    closed spec fn view(&self) -> SessionView {
        SessionView {
            settings: self.orig_ios,
            output: self.outf@,
            front: self.front_buffer@,
            back: self.back_buffer@,
            width: self.width,
            height: self.height,
        }
    }
}

impl RustBox {
    /// The parts of the session agree with each other.
    pub closed spec fn consistent(&self) -> bool {
        &&& self.outf.wf()
        &&& self.front_buffer.spec_width() == self.width
        &&& self.front_buffer.spec_height() == self.height
        &&& self.back_buffer.spec_width() == self.width
        &&& self.back_buffer.spec_height() == self.height
    }

    /// The invariant of a session.
    pub open spec fn wf(&self) -> bool {
        self.consistent() && self@.wf()
    }

    /// Starts a session on a terminal of `width` columns and `height` rows,
    /// whose settings were `orig_ios` before it was put into raw mode. Both
    /// grids are blank, and the opening sequences are queued.
    pub fn new(orig_ios: TerminalSettings, width: u16, height: u16) -> (session: RustBox)
        ensures
            session.wf(),
            session@ == SessionView::opened(orig_ios, width, height),
    {
        let mut outf = BufferedFile::new();
        outf.emit(&EnterCa);
        outf.emit(&EnterKeypad);
        outf.emit(&HideCursor);
        outf.emit(&SGR0);
        outf.emit(&ClearScreen);
        let back_buffer = Grid::new(width, height);
        let front_buffer = back_buffer.snapshot();
        let session = RustBox { orig_ios, outf, front_buffer, back_buffer, width, height };
        assert(session@.output =~= enter_code());
        session
    }

    /// The number of columns.
    pub fn width(&self) -> (width: u16)
        ensures
            width == self@.width,
    {
        self.width
    }

    /// The number of rows.
    pub fn height(&self) -> (height: u16)
        ensures
            height == self@.height,
    {
        self.height
    }

    /// The cell at column `x` of row `y` as it was last presented, or nothing
    /// for a coordinate outside the grid.
    pub fn front_cell(&self, x: usize, y: usize) -> (cell: Option<Cell>)
        requires
            self.wf(),
        ensures
            self@.contains(x as int, y as int) ==> cell == Some(self@.front[y as int][x as int]),
            !self@.contains(x as int, y as int) ==> cell is None,
    {
        self.front_buffer.get(x, y)
    }

    /// The cell at column `x` of row `y` as the next present will show it,
    /// or nothing for a coordinate outside the grid.
    pub fn back_cell(&self, x: usize, y: usize) -> (cell: Option<Cell>)
        requires
            self.wf(),
        ensures
            self@.contains(x as int, y as int) ==> cell == Some(self@.back[y as int][x as int]),
            !self@.contains(x as int, y as int) ==> cell is None,
    {
        self.back_buffer.get(x, y)
    }

    /// Sets the cell at column `x` of row `y` of the back grid. Nothing shows
    /// before the next present. A coordinate outside the grid is refused,
    /// and the session stays as it is.
    pub fn print_char(
        &mut self,
        x: usize,
        y: usize,
        style: Style,
        fg: Color,
        bg: Color,
        ch: char,
    ) -> (result: Result<(), IndexOutOfBounds>)
        requires
            old(self).wf(),
        ensures
            final(self).wf(),
            final(self)@ == old(self)@.printed(x as int, y as int, Cell { ch, bg, fg, style }),
            old(self)@.contains(x as int, y as int) ==> result is Ok,
            !old(self)@.contains(x as int, y as int) ==> result == Err::<(), IndexOutOfBounds>(
                IndexOutOfBounds { x, y },
            ),
    {
        self.back_buffer.set(x, y, Cell { ch, bg, fg, style })
    }

    /// Makes the back grid the front grid and queues the painting of every
    /// cell of it, changed or not, in row-major order. Then the output is to
    /// be flushed: the result is the first step of that flush.
    pub fn present(&mut self) -> (step: FlushStep)
        requires
            old(self).wf(),
        ensures
            final(self).wf(),
            final(self)@ == old(self)@.presented(),
            step == first_step(final(self)@.output),
    {
        self.front_buffer = self.back_buffer.snapshot();
        self.outf.emit(&self.front_buffer);
        self.outf.begin_flush()
    }

    /// The first step of a flush of the queued output.
    pub fn begin_flush(&self) -> (step: FlushStep)
        requires
            self.wf(),
        ensures
            step == first_step(self@.output),
    {
        self.outf.begin_flush()
    }

    /// The queued bytes that are not yet written: what a `Write` step hands
    /// to the device.
    pub fn unwritten(&self) -> (bytes: &[u8])
        requires
            self.wf(),
        ensures
            bytes@ == self@.output,
    {
        self.outf.unwritten()
    }

    /// Takes the device's answer to a `Write` step and says how the flush
    /// goes on. Only the queued output changes, by what the device
    /// confirmed.
    pub fn on_write<E>(&mut self, outcome: WriteOutcome<E>) -> (next: Result<
        FlushStep,
        FlushError<E>,
    >)
        requires
            old(self).wf(),
            outcome matches WriteOutcome::Written(n) ==> n <= old(self)@.output.len(),
        ensures
            final(self).wf(),
            final(self)@ == old(self)@.written(outcome),
            next == next_step(old(self)@.output, outcome),
    {
        self.outf.on_write(outcome)
    }

    /// Ends the session. The closing sequences are queued behind what was
    /// still unwritten, and the settings the terminal had before the session
    /// come back, to be restored once the output is flushed.
    pub fn close(self) -> (teardown: Teardown)
        requires
            self.wf(),
        ensures
            teardown.output.wf(),
            teardown.output@ == self@.output + exit_code(),
            teardown.settings == self@.settings,
    {
        let mut output = self.outf;
        output.emit(&ShowCursor);
        output.emit(&ClearScreen);
        output.emit(&ExitCa);
        output.emit(&ExitKeypad);
        assert(output@ =~= self@.output + exit_code());
        Teardown { output, settings: self.orig_ios }
    }
}

/// Whatever happens to a session, its grids stay rectangles of the size it
/// started with, and the settings it holds stay the ones it started with.
pub proof fn lemma_session_invariant(start: SessionView, ops: Seq<Op>)
    requires
        start.wf(),
    ensures
        start.after_all(ops).wf(),
        start.after_all(ops).width == start.width,
        start.after_all(ops).height == start.height,
        start.after_all(ops).settings == start.settings,
    decreases ops.len(),
{
    if ops.len() > 0 {
        lemma_session_invariant(start, ops.drop_last());
    }
}

/// A session that starts with a snapshot of the terminal's settings still
/// holds exactly that snapshot after anything that can happen to it. That is
/// what `close` hands back for restoring, and `close` can be called once.
pub proof fn lemma_teardown_restores_snapshot(
    snapshot: TerminalSettings,
    width: u16,
    height: u16,
    ops: Seq<Op>,
)
    ensures
        SessionView::opened(snapshot, width, height).wf(),
        SessionView::opened(snapshot, width, height).after_all(ops).wf(),
        SessionView::opened(snapshot, width, height).after_all(ops).settings == snapshot,
{
    lemma_session_invariant(SessionView::opened(snapshot, width, height), ops);
}

/// A present paints every cell of the back grid, whatever was set since the
/// last one and whatever the front grid holds: `width * height` cells, the
/// cell of column `x` and row `y` as number `y * width + x`, the code of each
/// where the codes of those before it end.
pub proof fn lemma_present_paints_every_cell(session: SessionView)
    requires
        session.wf(),
    ensures
        session.presented().output == session.output + stream(row_major(session.back)),
        session.presented().front == session.back,
        row_major(session.back).len() == session.width * session.height,
        forall|x: int, y: int|
            session.contains(x, y) ==> #[trigger] session.back[y][x] == row_major(
                session.back,
            )[y * session.width + x] && painted_at(
                row_major(session.back),
                y * session.width + x,
            ),
        forall|other: SessionView|
            other.back == session.back && other.output == session.output
                ==> #[trigger] other.presented().output == session.presented().output,
{
    let cells = row_major(session.back);
    lemma_row_major_of_rect(session.back, session.width as nat, session.height as nat);
    assert forall|x: int, y: int| session.contains(x, y) implies #[trigger] session.back[y][x]
        == cells[y * session.width + x] && painted_at(cells, y * session.width + x) by {
        lemma_row_major_index(x, y, session.width as nat, session.height as nat);
        lemma_stream_position(cells, y * session.width + x);
    }
}

} // verus!
