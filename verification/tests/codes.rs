use rustbox::{
    write_char, write_decimal, Background, Cell, ClearScreen, Color, EnterCa, EnterKeypad, ExitCa,
    ExitKeypad, Foreground, HideCursor, ShowCursor, Style, TermCode, SGR0,
};

#[test]
fn fixed_sequences_have_their_exact_bytes() {
    assert_eq!(EnterCa.bytes(), b"\x1b[?1049h\x1b[22;0;0t".to_vec());
    assert_eq!(ExitCa.bytes(), b"\x1b[?1049l\x1b[23;0;0t".to_vec());
    assert_eq!(ClearScreen.bytes(), b"\x1b[H\x1b[2J".to_vec());
    assert_eq!(HideCursor.bytes(), b"\x1b[?25l".to_vec());
    assert_eq!(ShowCursor.bytes(), b"\x1b[?25h".to_vec());
    assert_eq!(SGR0.bytes(), b"\x1b[m\x0f".to_vec());
    assert_eq!(EnterKeypad.bytes(), b"\x1b=".to_vec());
    assert_eq!(ExitKeypad.bytes(), b"\x1b>".to_vec());
}

#[test]
fn write_to_appends_behind_what_is_there() {
    let mut out = b"abc".to_vec();
    HideCursor.write_to(&mut out);
    EnterKeypad.write_to(&mut out);
    assert_eq!(out, b"abc\x1b[?25l\x1b=".to_vec());
}

#[test]
fn styles_have_one_fragment_each_and_normal_has_none() {
    assert_eq!(Style::Normal.bytes(), Vec::<u8>::new());
    assert_eq!(Style::Underline.bytes(), b"\x1b[4m".to_vec());
    assert_eq!(Style::Bold.bytes(), b"\x1b[1m".to_vec());
    assert_eq!(Style::Blink.bytes(), b"\x1b[5m".to_vec());
    assert_eq!(Style::Reverse.bytes(), b"\x1b[7m".to_vec());
}

#[test]
fn color_indices_are_black_0_red_1_white_7() {
    assert_eq!(Color::Black.as_256_color(), 0);
    assert_eq!(Color::Red.as_256_color(), 1);
    assert_eq!(Color::White.as_256_color(), 7);
    assert_eq!(Color::Black.as_wire_index(), 0);
    assert_eq!(Color::Red.as_wire_index(), 1);
    assert_eq!(Color::White.as_wire_index(), 7);
    // the same answer on every call
    for _ in 0..3 {
        assert_eq!(Color::White.as_256_color(), 7);
    }
}

#[test]
fn color_sequences_carry_the_index_in_decimal() {
    assert_eq!(Foreground(7).bytes(), b"\x1b[38;5;7m".to_vec());
    assert_eq!(Background(0).bytes(), b"\x1b[48;5;0m".to_vec());
    assert_eq!(Foreground(10).bytes(), b"\x1b[38;5;10m".to_vec());
    assert_eq!(Foreground(99).bytes(), b"\x1b[38;5;99m".to_vec());
    assert_eq!(Background(100).bytes(), b"\x1b[48;5;100m".to_vec());
    assert_eq!(Background(255).bytes(), b"\x1b[48;5;255m".to_vec());
}

#[test]
fn decimal_agrees_with_std_for_every_byte() {
    for n in 0..=255u8 {
        let mut out = Vec::new();
        write_decimal(n, &mut out);
        assert_eq!(out, n.to_string().into_bytes());
    }
}

#[test]
fn chars_go_out_in_utf8() {
    for ch in ['A', ' ', '\u{7f}', '\u{80}', 'é', '\u{7ff}', '\u{800}', '€', '\u{ffff}', '\u{10000}', '😀', '\u{10ffff}'] {
        let mut out = Vec::new();
        write_char(ch, &mut out);
        let mut buf = [0u8; 4];
        assert_eq!(out, ch.encode_utf8(&mut buf).as_bytes().to_vec());
    }
}

#[test]
fn every_control_sequence_is_ascii() {
    let mut all = Vec::new();
    EnterCa.write_to(&mut all);
    ExitCa.write_to(&mut all);
    ClearScreen.write_to(&mut all);
    HideCursor.write_to(&mut all);
    ShowCursor.write_to(&mut all);
    SGR0.write_to(&mut all);
    EnterKeypad.write_to(&mut all);
    ExitKeypad.write_to(&mut all);
    for n in 0..=255u8 {
        Foreground(n).write_to(&mut all);
        Background(n).write_to(&mut all);
    }
    for style in [Style::Normal, Style::Underline, Style::Bold, Style::Blink, Style::Reverse] {
        style.write_to(&mut all);
    }
    assert!(all.iter().all(|b| *b < 0x80));
}

#[test]
fn a_cell_is_reset_style_foreground_background_character() {
    let cell = Cell { ch: 'A', bg: Color::Black, fg: Color::White, style: Style::Normal };
    assert_eq!(cell.bytes(), b"\x1b[m\x0f\x1b[38;5;7m\x1b[48;5;0mA".to_vec());
    let cell = Cell { ch: 'é', bg: Color::Red, fg: Color::Black, style: Style::Bold };
    assert_eq!(cell.bytes(), "\x1b[m\x0f\x1b[1m\x1b[38;5;0m\x1b[48;5;1mé".as_bytes().to_vec());
    let cell = Cell { ch: 'z', bg: Color::White, fg: Color::Red, style: Style::Reverse };
    assert_eq!(cell.bytes(), b"\x1b[m\x0f\x1b[7m\x1b[38;5;1m\x1b[48;5;7mz".to_vec());
}

#[test]
fn the_blank_cell_is_a_space_white_on_black() {
    let blank = Cell::blank();
    assert_eq!(blank, Cell { ch: ' ', bg: Color::Black, fg: Color::White, style: Style::Normal });
}
