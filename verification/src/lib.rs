//! A minimal terminal rendering surface: a grid of styled character cells,
//! the escape sequences that paint it, a write buffer that survives partial
//! writes, and the raw-mode settings of the terminal it is painted on.
//!
//! The library computes; it performs no device I/O itself. A caller owns the
//! terminal device, hands the library what the device reported, and carries
//! out what the library asks for.

pub mod cell;
pub mod grid;
pub mod output;
pub mod render;
pub mod session;
pub mod settings;
pub mod termcodes;

pub use cell::{Cell, Color, Style};
pub use grid::{Grid, IndexOutOfBounds};
pub use output::{BufferedFile, FlushError, FlushStep, WriteOutcome};
pub use render::{write_cells, write_char};
pub use session::{RustBox, Teardown};
pub use settings::{
    raw_mode, raw_mode_on, ControlBits, ControlSlots, InputBits, LocalBits, OutputBits, Platform,
    TerminalSettings,
};
pub use termcodes::{
    write_decimal, Background, ClearScreen, EnterCa, EnterKeypad, ExitCa, ExitKeypad,
    Foreground, HideCursor, ShowCursor, TermCode, SGR0,
};
