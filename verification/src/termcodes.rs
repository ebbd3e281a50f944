//! The catalog of terminal control sequences.
//!
//! Every entry is a value that knows its exact bytes (`code`) and can append
//! them to an output (`write_to`). The fixed sequences are unit structs; the
//! per-cell sequences carry their parameter.

use crate::cell::Style;
use vstd::prelude::*;
use vstd::string::*;

verus! {

/// A terminal control sequence.
pub trait TermCode {
    /// The exact bytes of the sequence, as a terminal reads them.
    spec fn code(&self) -> Seq<u8>;

    /// Appends the sequence to `out`.
    fn write_to(&self, out: &mut Vec<u8>)
        ensures
            final(out)@ == old(out)@ + self.code(),
    ;

    /// The sequence as a fresh byte vector.
    fn bytes(&self) -> (b: Vec<u8>)
        ensures
            b@ == self.code(),
    {
        let mut b: Vec<u8> = Vec::new();
        self.write_to(&mut b);
        assert(b@ =~= self.code());
        b
    }
}

/// The bytes of a sequence of ASCII characters: one byte per character.
pub open spec fn ascii(chars: Seq<char>) -> Seq<u8> {
    Seq::new(chars.len(), |i: int| chars[i] as u8)
}

/// True when every byte is in the ASCII range.
pub open spec fn is_ascii_bytes(bytes: Seq<u8>) -> bool {
    forall|i: int| 0 <= i < bytes.len() ==> bytes[i] < 0x80
}

/// Appends an ASCII string to `out`, one byte per character.
fn write_ascii(text: &str, out: &mut Vec<u8>)
    requires
        is_ascii(text),
    ensures
        final(out)@ == old(out)@ + ascii(text@),
{
    proof {
        is_ascii_spec_bytes(text);
    }
    out.extend_from_slice(text.as_bytes());
    assert(out@ =~= old(out)@ + ascii(text@));
}

/// The decimal digits of `n`, most significant first, without leading zeros.
pub open spec fn decimal(n: nat) -> Seq<u8>
    decreases n,
{
    if n < 10 {
        seq![('0' as u8 + n) as u8]
    } else {
        decimal(n / 10).push(('0' as u8 + n % 10) as u8)
    }
}

/// Appends the decimal digits of `n` to `out`.
pub fn write_decimal(n: u8, out: &mut Vec<u8>)
    ensures
        final(out)@ == old(out)@ + decimal(n as nat),
{
    proof {
        reveal_with_fuel(decimal, 3);
    }
    if n >= 100 {
        out.push('0' as u8 + n / 100);
    }
    if n >= 10 {
        out.push('0' as u8 + (n / 10) % 10);
    }
    out.push('0' as u8 + n % 10);
    assert(out@ =~= old(out)@ + decimal(n as nat));
}

/// Switches to the alternate screen, saving the window title.
pub struct EnterCa;

/// Leaves the alternate screen, restoring the window title.
pub struct ExitCa;

/// Moves the cursor home and erases the whole screen.
pub struct ClearScreen;

/// Makes the cursor invisible.
pub struct HideCursor;

/// Makes the cursor visible.
pub struct ShowCursor;

/// Resets every graphic attribute and selects the standard character set.
pub struct SGR0;

/// Puts the keypad into application (transmit) mode.
pub struct EnterKeypad;

/// Puts the keypad back into numeric mode.
pub struct ExitKeypad;

/// Selects a foreground color by its index in the 256-color palette.
pub struct Foreground(pub u8);

/// Selects a background color by its index in the 256-color palette.
pub struct Background(pub u8);

impl TermCode for EnterCa {
    /// `ESC [ ? 1 0 4 9 h ESC [ 2 2 ; 0 ; 0 t`
    open spec fn code(&self) -> Seq<u8> {
        seq![
            '\x1b' as u8, '[' as u8, '?' as u8, '1' as u8, '0' as u8, '4' as u8, '9' as u8,
            'h' as u8, '\x1b' as u8, '[' as u8, '2' as u8, '2' as u8, ';' as u8, '0' as u8,
            ';' as u8, '0' as u8, 't' as u8,
        ]
    }

    fn write_to(&self, out: &mut Vec<u8>) {
        let text = "\x1b[?1049h\x1b[22;0;0t";
        proof {
            reveal_strlit("\x1b[?1049h\x1b[22;0;0t");
            assert(ascii(text@) =~= self.code());
        }
        write_ascii(text, out);
    }
}

impl TermCode for ExitCa {
    /// `ESC [ ? 1 0 4 9 l ESC [ 2 3 ; 0 ; 0 t`
    open spec fn code(&self) -> Seq<u8> {
        seq![
            '\x1b' as u8, '[' as u8, '?' as u8, '1' as u8, '0' as u8, '4' as u8, '9' as u8,
            'l' as u8, '\x1b' as u8, '[' as u8, '2' as u8, '3' as u8, ';' as u8, '0' as u8,
            ';' as u8, '0' as u8, 't' as u8,
        ]
    }

    fn write_to(&self, out: &mut Vec<u8>) {
        let text = "\x1b[?1049l\x1b[23;0;0t";
        proof {
            reveal_strlit("\x1b[?1049l\x1b[23;0;0t");
            assert(ascii(text@) =~= self.code());
        }
        write_ascii(text, out);
    }
}

impl TermCode for ClearScreen {
    /// `ESC [ H ESC [ 2 J`
    open spec fn code(&self) -> Seq<u8> {
        seq![
            '\x1b' as u8, '[' as u8, 'H' as u8, '\x1b' as u8, '[' as u8, '2' as u8, 'J' as u8,
        ]
    }

    fn write_to(&self, out: &mut Vec<u8>) {
        let text = "\x1b[H\x1b[2J";
        proof {
            reveal_strlit("\x1b[H\x1b[2J");
            assert(ascii(text@) =~= self.code());
        }
        write_ascii(text, out);
    }
}

impl TermCode for HideCursor {
    /// `ESC [ ? 2 5 l`
    open spec fn code(&self) -> Seq<u8> {
        seq!['\x1b' as u8, '[' as u8, '?' as u8, '2' as u8, '5' as u8, 'l' as u8]
    }

    fn write_to(&self, out: &mut Vec<u8>) {
        let text = "\x1b[?25l";
        proof {
            reveal_strlit("\x1b[?25l");
            assert(ascii(text@) =~= self.code());
        }
        write_ascii(text, out);
    }
}

impl TermCode for ShowCursor {
    /// `ESC [ ? 2 5 h`
    open spec fn code(&self) -> Seq<u8> {
        seq!['\x1b' as u8, '[' as u8, '?' as u8, '2' as u8, '5' as u8, 'h' as u8]
    }

    fn write_to(&self, out: &mut Vec<u8>) {
        let text = "\x1b[?25h";
        proof {
            reveal_strlit("\x1b[?25h");
            assert(ascii(text@) =~= self.code());
        }
        write_ascii(text, out);
    }
}

impl TermCode for SGR0 {
    /// `ESC [ m SI`
    open spec fn code(&self) -> Seq<u8> {
        seq!['\x1b' as u8, '[' as u8, 'm' as u8, '\x0f' as u8]
    }

    fn write_to(&self, out: &mut Vec<u8>) {
        let text = "\x1b[m\x0f";
        proof {
            reveal_strlit("\x1b[m\x0f");
            assert(ascii(text@) =~= self.code());
        }
        write_ascii(text, out);
    }
}

impl TermCode for EnterKeypad {
    /// `ESC =`
    open spec fn code(&self) -> Seq<u8> {
        seq!['\x1b' as u8, '=' as u8]
    }

    fn write_to(&self, out: &mut Vec<u8>) {
        let text = "\x1b=";
        proof {
            reveal_strlit("\x1b=");
            assert(ascii(text@) =~= self.code());
        }
        write_ascii(text, out);
    }
}

impl TermCode for ExitKeypad {
    /// `ESC >`
    open spec fn code(&self) -> Seq<u8> {
        seq!['\x1b' as u8, '>' as u8]
    }

    fn write_to(&self, out: &mut Vec<u8>) {
        let text = "\x1b>";
        proof {
            reveal_strlit("\x1b>");
            assert(ascii(text@) =~= self.code());
        }
        write_ascii(text, out);
    }
}

impl TermCode for Foreground {
    /// `ESC [ 3 8 ; 5 ;`, the index in decimal, `m`
    open spec fn code(&self) -> Seq<u8> {
        seq!['\x1b' as u8, '[' as u8, '3' as u8, '8' as u8, ';' as u8, '5' as u8, ';' as u8]
            + decimal(self.0 as nat) + seq!['m' as u8]
    }

    fn write_to(&self, out: &mut Vec<u8>) {
        let text = "\x1b[38;5;";
        proof {
            reveal_strlit("\x1b[38;5;");
        }
        write_ascii(text, out);
        write_decimal(self.0, out);
        out.push('m' as u8);
        assert(out@ =~= old(out)@ + self.code());
    }
}

impl TermCode for Background {
    /// `ESC [ 4 8 ; 5 ;`, the index in decimal, `m`
    open spec fn code(&self) -> Seq<u8> {
        seq!['\x1b' as u8, '[' as u8, '4' as u8, '8' as u8, ';' as u8, '5' as u8, ';' as u8]
            + decimal(self.0 as nat) + seq!['m' as u8]
    }

    fn write_to(&self, out: &mut Vec<u8>) {
        let text = "\x1b[48;5;";
        proof {
            reveal_strlit("\x1b[48;5;");
        }
        write_ascii(text, out);
        write_decimal(self.0, out);
        out.push('m' as u8);
        assert(out@ =~= old(out)@ + self.code());
    }
}

impl TermCode for Style {
    /// `ESC [`, one digit, `m`; nothing at all for `Normal`.
    open spec fn code(&self) -> Seq<u8> {
        match self {
            Style::Normal => Seq::empty(),
            Style::Underline => seq!['\x1b' as u8, '[' as u8, '4' as u8, 'm' as u8],
            Style::Bold => seq!['\x1b' as u8, '[' as u8, '1' as u8, 'm' as u8],
            Style::Blink => seq!['\x1b' as u8, '[' as u8, '5' as u8, 'm' as u8],
            Style::Reverse => seq!['\x1b' as u8, '[' as u8, '7' as u8, 'm' as u8],
        }
    }

    fn write_to(&self, out: &mut Vec<u8>) {
        proof {
            reveal_strlit("\x1b[4m");
            reveal_strlit("\x1b[1m");
            reveal_strlit("\x1b[5m");
            reveal_strlit("\x1b[7m");
        }
        match self {
            Style::Normal => {
                assert(out@ =~= old(out)@ + self.code());
            },
            Style::Underline => {
                assert(ascii("\x1b[4m"@) =~= self.code());
                write_ascii("\x1b[4m", out);
            },
            Style::Bold => {
                assert(ascii("\x1b[1m"@) =~= self.code());
                write_ascii("\x1b[1m", out);
            },
            Style::Blink => {
                assert(ascii("\x1b[5m"@) =~= self.code());
                write_ascii("\x1b[5m", out);
            },
            Style::Reverse => {
                assert(ascii("\x1b[7m"@) =~= self.code());
                write_ascii("\x1b[7m", out);
            },
        }
    }
}

/// The decimal digits of a number are digits, at least one of them.
pub proof fn lemma_decimal_is_digits(n: nat)
    ensures
        decimal(n).len() >= 1,
        forall|i: int| 0 <= i < decimal(n).len() ==> '0' as u8 <= #[trigger] decimal(n)[i] <= '9' as u8,
    decreases n,
{
    if n >= 10 {
        lemma_decimal_is_digits(n / 10);
    }
}

/// A byte takes one digit below 10, two below 100, and three from there on.
pub proof fn lemma_decimal_of_byte(n: u8)
    ensures
        n < 10 ==> decimal(n as nat) == seq![('0' as u8 + n) as u8],
        10 <= n < 100 ==> decimal(n as nat) == seq![
            ('0' as u8 + n / 10) as u8,
            ('0' as u8 + n % 10) as u8,
        ],
        100 <= n ==> decimal(n as nat) == seq![
            ('0' as u8 + n / 100) as u8,
            ('0' as u8 + (n / 10) % 10) as u8,
            ('0' as u8 + n % 10) as u8,
        ],
{
    reveal_with_fuel(decimal, 3);
    if n < 10 {
    } else if n < 100 {
        assert(decimal(n as nat) =~= seq![('0' as u8 + n / 10) as u8, ('0' as u8 + n % 10) as u8]);
    } else {
        assert(decimal(n as nat) =~= seq![
            ('0' as u8 + n / 100) as u8,
            ('0' as u8 + (n / 10) % 10) as u8,
            ('0' as u8 + n % 10) as u8,
        ]);
    }
}

/// Every fixed control sequence, and every style, is ASCII.
pub proof fn lemma_fixed_codes_are_ascii(style: Style)
    ensures
        is_ascii_bytes(EnterCa.code()),
        is_ascii_bytes(ExitCa.code()),
        is_ascii_bytes(ClearScreen.code()),
        is_ascii_bytes(HideCursor.code()),
        is_ascii_bytes(ShowCursor.code()),
        is_ascii_bytes(SGR0.code()),
        is_ascii_bytes(EnterKeypad.code()),
        is_ascii_bytes(ExitKeypad.code()),
        is_ascii_bytes(style.code()),
{
}

/// The color sequences are ASCII, whatever the index.
pub proof fn lemma_color_codes_are_ascii(index: u8)
    ensures
        is_ascii_bytes(Foreground(index).code()),
        is_ascii_bytes(Background(index).code()),
{
    lemma_decimal_is_digits(index as nat);
}

} // verus!
