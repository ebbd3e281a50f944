use rustbox::{
    Cell, Color, FlushError, FlushStep, IndexOutOfBounds, RustBox, Style, TerminalSettings,
    WriteOutcome,
};

const ENTER: &[u8] = b"\x1b[?1049h\x1b[22;0;0t\x1b=\x1b[?25l\x1b[m\x0f\x1b[H\x1b[2J";
const EXIT: &[u8] = b"\x1b[?25h\x1b[H\x1b[2J\x1b[?1049l\x1b[23;0;0t\x1b>";
const BLANK: &[u8] = b"\x1b[m\x0f\x1b[38;5;7m\x1b[48;5;0m ";

fn settings() -> TerminalSettings {
    TerminalSettings {
        input_flags: 0x6d02,
        output_flags: 0x5,
        control_flags: 0x4bf,
        local_flags: 0x8a3b,
        control_chars: (0..32).collect(),
    }
}

/// Lets the device take everything that is queued.
fn drain(session: &mut RustBox) -> Vec<u8> {
    let bytes = session.unwritten().to_vec();
    if !bytes.is_empty() {
        assert_eq!(session.on_write::<()>(WriteOutcome::Written(bytes.len())), Ok(FlushStep::Sync));
    }
    bytes
}

#[test]
fn a_session_starts_by_entering_the_alternate_screen() {
    let mut session = RustBox::new(settings(), 3, 2);
    assert_eq!(session.width(), 3);
    assert_eq!(session.height(), 2);
    assert_eq!(session.begin_flush(), FlushStep::Write);
    assert_eq!(session.unwritten(), ENTER);
    assert_eq!(drain(&mut session), ENTER);
    assert_eq!(session.begin_flush(), FlushStep::Sync);
}

#[test]
fn present_of_a_3_by_2_grid_with_one_letter() {
    let mut session = RustBox::new(settings(), 3, 2);
    drain(&mut session);
    assert_eq!(session.print_char(0, 0, Style::Normal, Color::White, Color::Black, 'A'), Ok(()));
    // nothing goes out before the present
    assert_eq!(session.unwritten(), b"");
    let step = session.present();
    assert_eq!(step, FlushStep::Write);
    let mut expected = Vec::new();
    expected.extend_from_slice(b"\x1b[m\x0f");
    expected.extend_from_slice(b"\x1b[38;5;7m");
    expected.extend_from_slice(b"\x1b[48;5;0m");
    expected.extend_from_slice(b"A");
    for _ in 0..5 {
        expected.extend_from_slice(BLANK);
    }
    assert_eq!(session.unwritten(), expected);
    // the one flush that the present asks for takes all of it
    let taken = session.unwritten().len();
    assert_eq!(session.on_write::<()>(WriteOutcome::Written(taken)), Ok(FlushStep::Sync));
    assert_eq!(session.unwritten(), b"");
}

#[test]
fn present_repaints_every_cell_every_time() {
    let mut session = RustBox::new(settings(), 4, 3);
    drain(&mut session);
    session.present();
    let first = drain(&mut session);
    assert_eq!(first.len(), 12 * BLANK.len());
    // nothing was set since: all of it goes out again
    session.present();
    let second = drain(&mut session);
    assert_eq!(second, first);
    session.print_char(3, 2, Style::Blink, Color::Red, Color::White, 'z').unwrap();
    session.present();
    let third = drain(&mut session);
    let mut expected = Vec::new();
    for _ in 0..11 {
        expected.extend_from_slice(BLANK);
    }
    expected.extend_from_slice(b"\x1b[m\x0f\x1b[5m\x1b[38;5;1m\x1b[48;5;7mz");
    assert_eq!(third, expected);
}

#[test]
fn cells_come_out_row_by_row_with_style_between_reset_and_colors() {
    let mut session = RustBox::new(settings(), 2, 2);
    drain(&mut session);
    session.print_char(0, 0, Style::Underline, Color::Red, Color::Black, 'a').unwrap();
    session.print_char(1, 0, Style::Bold, Color::Black, Color::Red, 'b').unwrap();
    session.print_char(0, 1, Style::Blink, Color::White, Color::White, 'c').unwrap();
    session.print_char(1, 1, Style::Reverse, Color::Black, Color::Black, 'é').unwrap();
    session.present();
    let mut expected = Vec::new();
    expected.extend_from_slice(b"\x1b[m\x0f\x1b[4m\x1b[38;5;1m\x1b[48;5;0ma");
    expected.extend_from_slice(b"\x1b[m\x0f\x1b[1m\x1b[38;5;0m\x1b[48;5;1mb");
    expected.extend_from_slice(b"\x1b[m\x0f\x1b[5m\x1b[38;5;7m\x1b[48;5;7mc");
    expected.extend_from_slice("\x1b[m\x0f\x1b[7m\x1b[38;5;0m\x1b[48;5;0mé".as_bytes());
    assert_eq!(session.unwritten(), expected);
}

#[test]
fn the_last_write_to_a_cell_wins() {
    let mut session = RustBox::new(settings(), 1, 1);
    drain(&mut session);
    session.print_char(0, 0, Style::Bold, Color::Red, Color::Black, 'a').unwrap();
    session.print_char(0, 0, Style::Normal, Color::Black, Color::White, 'b').unwrap();
    session.present();
    assert_eq!(session.unwritten(), b"\x1b[m\x0f\x1b[38;5;0m\x1b[48;5;7mb");
}

#[test]
fn print_char_outside_the_grid_is_refused() {
    let mut session = RustBox::new(settings(), 3, 2);
    drain(&mut session);
    assert_eq!(
        session.print_char(3, 0, Style::Normal, Color::White, Color::Black, 'A'),
        Err(IndexOutOfBounds { x: 3, y: 0 })
    );
    assert_eq!(
        session.print_char(0, 2, Style::Normal, Color::White, Color::Black, 'A'),
        Err(IndexOutOfBounds { x: 0, y: 2 })
    );
    assert_eq!(
        session.print_char(usize::MAX, usize::MAX, Style::Normal, Color::White, Color::Black, 'A'),
        Err(IndexOutOfBounds { x: usize::MAX, y: usize::MAX })
    );
    // no cell was touched, nothing was clamped
    session.present();
    assert_eq!(session.unwritten(), BLANK.repeat(6));
}

#[test]
fn a_session_without_cells_presents_nothing() {
    let mut session = RustBox::new(settings(), 0, 0);
    drain(&mut session);
    assert_eq!(
        session.print_char(0, 0, Style::Normal, Color::White, Color::Black, 'A'),
        Err(IndexOutOfBounds { x: 0, y: 0 })
    );
    assert_eq!(session.present(), FlushStep::Sync);
    assert_eq!(session.unwritten(), b"");
}

#[test]
fn a_failed_flush_keeps_the_output_for_the_next() {
    let mut session = RustBox::new(settings(), 1, 1);
    assert_eq!(session.on_write::<u8>(WriteOutcome::Written(5)), Ok(FlushStep::Write));
    assert_eq!(session.on_write::<u8>(WriteOutcome::Written(0)), Err(FlushError::WriteZero));
    assert_eq!(session.on_write::<u8>(WriteOutcome::Failed(5)), Err(FlushError::Device(5)));
    assert_eq!(session.on_write::<u8>(WriteOutcome::Interrupted), Ok(FlushStep::Write));
    assert_eq!(session.unwritten(), &ENTER[5..]);
    assert_eq!(session.present(), FlushStep::Write);
    let mut expected = ENTER[5..].to_vec();
    expected.extend_from_slice(BLANK);
    assert_eq!(session.unwritten(), expected);
}

#[test]
fn close_leaves_the_alternate_screen_and_hands_back_the_settings() {
    let before = settings();
    let mut session = RustBox::new(before.clone(), 3, 2);
    drain(&mut session);
    session.print_char(1, 1, Style::Bold, Color::Red, Color::Black, 'x').unwrap();
    session.present();
    drain(&mut session);
    let teardown = session.close();
    assert_eq!(teardown.output.unwritten(), EXIT);
    assert_eq!(teardown.settings, before);
}

#[test]
fn close_queues_behind_what_was_not_yet_written() {
    let before = settings();
    let session = RustBox::new(before.clone(), 1, 1);
    let mut teardown = session.close();
    let mut expected = ENTER.to_vec();
    expected.extend_from_slice(EXIT);
    assert_eq!(teardown.output.unwritten(), expected);
    assert_eq!(teardown.settings, before);
    assert_eq!(teardown.output.begin_flush(), FlushStep::Write);
    let all = expected.len();
    assert_eq!(teardown.output.on_write::<()>(WriteOutcome::Written(all)), Ok(FlushStep::Sync));
}

#[test]
fn an_edit_shows_in_the_front_grid_only_after_a_present() {
    let mut session = RustBox::new(settings(), 2, 2);
    let edited = Cell { ch: 'k', bg: Color::White, fg: Color::Red, style: Style::Blink };
    assert_eq!(session.back_cell(1, 0), Some(Cell::blank()));
    assert_eq!(session.front_cell(1, 0), Some(Cell::blank()));
    session.print_char(1, 0, Style::Blink, Color::Red, Color::White, 'k').unwrap();
    assert_eq!(session.back_cell(1, 0), Some(edited));
    assert_eq!(session.front_cell(1, 0), Some(Cell::blank()));
    session.present();
    assert_eq!(session.back_cell(1, 0), Some(edited));
    assert_eq!(session.front_cell(1, 0), Some(edited));
    // both grids keep the size the session started with
    for (x, y) in [(2, 0), (0, 2), (2, 2)] {
        assert_eq!(session.back_cell(x, y), None);
        assert_eq!(session.front_cell(x, y), None);
    }
    assert_eq!(session.width(), 2);
    assert_eq!(session.height(), 2);
}
