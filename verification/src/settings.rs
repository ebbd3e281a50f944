//! Terminal settings and raw mode.
//!
//! A `TerminalSettings` is a snapshot of a terminal's line discipline: its
//! four flag words and its control characters. Raw mode is computed from a
//! snapshot; the snapshot itself is never changed, so that it can be put back
//! when the session ends. Which bit means what is the platform's business
//! (`Platform`).

use vstd::prelude::*;

verus! {

/// A snapshot of a terminal's line-discipline settings.
#[derive(Clone, Debug, PartialEq, Eq)]
pub struct TerminalSettings {
    pub input_flags: u64,
    pub output_flags: u64,
    pub control_flags: u64,
    pub local_flags: u64,
    pub control_chars: Vec<u8>,
}

/// The mathematical value of a `TerminalSettings`.
pub struct SettingsView {
    pub input_flags: u64,
    pub output_flags: u64,
    pub control_flags: u64,
    pub local_flags: u64,
    pub control_chars: Seq<u8>,
}

impl View for TerminalSettings {
    type V = SettingsView;

    open spec fn view(&self) -> SettingsView {
        SettingsView {
            input_flags: self.input_flags,
            output_flags: self.output_flags,
            control_flags: self.control_flags,
            local_flags: self.local_flags,
            control_chars: self.control_chars@,
        }
    }
}

/// The input-flag bits that raw mode clears.
#[derive(Copy, Clone, Debug, PartialEq, Eq)]
pub struct InputBits {
    /// Ignore a break condition.
    pub ignbrk: u64,
    /// Turn a break into an interrupt signal.
    pub brkint: u64,
    /// Mark parity and framing errors in the input.
    pub parmrk: u64,
    /// Strip the eighth bit.
    pub istrip: u64,
    /// Translate newline to carriage return.
    pub inlcr: u64,
    /// Ignore carriage return.
    pub igncr: u64,
    /// Translate carriage return to newline.
    pub icrnl: u64,
    /// Software flow control on output.
    pub ixon: u64,
}

/// The output-flag bit that raw mode clears.
#[derive(Copy, Clone, Debug, PartialEq, Eq)]
pub struct OutputBits {
    /// Post-process output.
    pub opost: u64,
}

/// The control-flag bits that raw mode touches.
#[derive(Copy, Clone, Debug, PartialEq, Eq)]
pub struct ControlBits {
    /// The character-size field.
    pub csize: u64,
    /// Parity generation and checking.
    pub parenb: u64,
    /// The character-size value for eight bits.
    pub cs8: u64,
}

/// The local-flag bits that raw mode clears.
#[derive(Copy, Clone, Debug, PartialEq, Eq)]
pub struct LocalBits {
    /// Echo input characters.
    pub echo: u64,
    /// Echo newline even without echo.
    pub echonl: u64,
    /// Canonical (line by line) input.
    pub icanon: u64,
    /// Generate signals from the interrupt, quit and suspend characters.
    pub isig: u64,
    /// Extended input processing.
    pub iexten: u64,
}

/// Where the two control values that raw mode sets live among the control
/// characters.
#[derive(Copy, Clone, Debug, PartialEq, Eq)]
pub struct ControlSlots {
    /// The slot of the minimum number of characters for a read.
    pub vmin: usize,
    /// The slot of the read timeout.
    pub vtime: usize,
}

/// How a platform lays out what raw mode touches.
#[derive(Copy, Clone, Debug, PartialEq, Eq)]
pub struct Platform {
    pub input: InputBits,
    pub output: OutputBits,
    pub control: ControlBits,
    pub local: LocalBits,
    pub slots: ControlSlots,
}

impl InputBits {
    /// All the bits together.
    pub open spec fn spec_mask(&self) -> u64 {
        self.ignbrk | self.brkint | self.parmrk | self.istrip | self.inlcr | self.igncr
            | self.icrnl | self.ixon
    }

    /// All the bits together.
    #[verifier::when_used_as_spec(spec_mask)]
    pub fn mask(&self) -> (mask: u64)
        ensures
            mask == self.spec_mask(),
    {
        self.ignbrk | self.brkint | self.parmrk | self.istrip | self.inlcr | self.igncr
            | self.icrnl | self.ixon
    }
}

impl ControlBits {
    /// The bits that raw mode clears before it selects eight-bit characters.
    pub open spec fn spec_mask(&self) -> u64 {
        self.csize | self.parenb
    }

    /// The bits that raw mode clears before it selects eight-bit characters.
    #[verifier::when_used_as_spec(spec_mask)]
    pub fn mask(&self) -> (mask: u64)
        ensures
            mask == self.spec_mask(),
    {
        self.csize | self.parenb
    }
}

impl LocalBits {
    /// All the bits together.
    pub open spec fn spec_mask(&self) -> u64 {
        self.echo | self.echonl | self.icanon | self.isig | self.iexten
    }

    /// All the bits together.
    #[verifier::when_used_as_spec(spec_mask)]
    pub fn mask(&self) -> (mask: u64)
        ensures
            mask == self.spec_mask(),
    {
        self.echo | self.echonl | self.icanon | self.isig | self.iexten
    }
}

impl Platform {
    /// True when `settings` has the two control slots of this platform.
    pub open spec fn fits(&self, settings: SettingsView) -> bool {
        self.slots.vmin < settings.control_chars.len() && self.slots.vtime
            < settings.control_chars.len()
    }
}

/// `chars` with a zero in `slot`, where it has such a slot.
pub open spec fn zero_slot(chars: Seq<u8>, slot: int) -> Seq<u8> {
    if 0 <= slot < chars.len() {
        chars.update(slot, 0u8)
    } else {
        chars
    }
}

/// The raw-mode form of `settings` on `platform`: input translation and flow
/// control off, output post-processing off, echo, canonical input, signal
/// keys and extended processing off, parity off, eight-bit characters; a
/// read returns at once with whatever is there. Everything else is kept.
pub open spec fn raw_mode_of(settings: SettingsView, platform: Platform) -> SettingsView {
    SettingsView {
        input_flags: settings.input_flags & !platform.input.spec_mask(),
        output_flags: settings.output_flags & !platform.output.opost,
        control_flags: (settings.control_flags & !platform.control.spec_mask())
            | platform.control.cs8,
        local_flags: settings.local_flags & !platform.local.spec_mask(),
        control_chars: zero_slot(
            zero_slot(settings.control_chars, platform.slots.vmin as int),
            platform.slots.vtime as int,
        ),
    }
}

/// Derives the raw-mode settings from a snapshot, on a given platform. The
/// snapshot is left as it is. A snapshot without the platform's two control
/// slots has no raw-mode form.
pub fn raw_mode_on(settings: &TerminalSettings, platform: &Platform) -> (raw: Option<
    TerminalSettings,
>)
    ensures
        platform.fits(settings@) ==> raw is Some && raw->0@ == raw_mode_of(settings@, *platform),
        !platform.fits(settings@) ==> raw is None,
{
    let count = settings.control_chars.len();
    if platform.slots.vmin < count && platform.slots.vtime < count {
        let mut control_chars = vstd::slice::slice_to_vec(settings.control_chars.as_slice());
        control_chars[platform.slots.vmin] = 0;
        control_chars[platform.slots.vtime] = 0;
        Some(
            TerminalSettings {
                input_flags: settings.input_flags & !platform.input.mask(),
                output_flags: settings.output_flags & !platform.output.opost,
                control_flags: (settings.control_flags & !platform.control.mask())
                    | platform.control.cs8,
                local_flags: settings.local_flags & !platform.local.mask(),
                control_chars,
            },
        )
    } else {
        None
    }
}

/// The input-flag bits of the target this library is built for, as `libc`
/// defines them: `IGNBRK`, `BRKINT`, `PARMRK`, `ISTRIP`, `INLCR`, `IGNCR`,
/// `ICRNL` and `IXON`. The values differ from target to target, so nothing
/// is claimed of them.
#[verifier::external_body]
fn libc_input_bits() -> (bits: InputBits) {
    InputBits {
        ignbrk: libc::IGNBRK as u64,
        brkint: libc::BRKINT as u64,
        parmrk: libc::PARMRK as u64,
        istrip: libc::ISTRIP as u64,
        inlcr: libc::INLCR as u64,
        igncr: libc::IGNCR as u64,
        icrnl: libc::ICRNL as u64,
        ixon: libc::IXON as u64,
    }
}

/// The output-flag bit `libc::OPOST` of the target. Nothing is claimed of
/// its value.
#[verifier::external_body]
fn libc_output_bits() -> (bits: OutputBits) {
    OutputBits { opost: libc::OPOST as u64 }
}

/// The control-flag bits `libc::CSIZE`, `libc::PARENB` and `libc::CS8` of the
/// target. Nothing is claimed of their values.
#[verifier::external_body]
fn libc_control_bits() -> (bits: ControlBits) {
    ControlBits {
        csize: libc::CSIZE as u64,
        parenb: libc::PARENB as u64,
        cs8: libc::CS8 as u64,
    }
}

/// The local-flag bits of the target, as `libc` defines them: `ECHO`,
/// `ECHONL`, `ICANON`, `ISIG` and `IEXTEN`. Nothing is claimed of their
/// values.
#[verifier::external_body]
fn libc_local_bits() -> (bits: LocalBits) {
    LocalBits {
        echo: libc::ECHO as u64,
        echonl: libc::ECHONL as u64,
        icanon: libc::ICANON as u64,
        isig: libc::ISIG as u64,
        iexten: libc::IEXTEN as u64,
    }
}

/// The control-character slots `libc::VMIN` and `libc::VTIME` of the target.
/// Nothing is claimed of their values.
#[verifier::external_body]
fn libc_control_slots() -> (slots: ControlSlots) {
    ControlSlots { vmin: libc::VMIN as usize, vtime: libc::VTIME as usize }
}

/// The layout of the platform this library is built for.
fn platform() -> Platform {
    Platform {
        input: libc_input_bits(),
        output: libc_output_bits(),
        control: libc_control_bits(),
        local: libc_local_bits(),
        slots: libc_control_slots(),
    }
}

/// Derives the raw-mode settings from a snapshot, on the platform this
/// library is built for. The snapshot is left as it is. The result is the
/// raw-mode form of the snapshot on some platform whose control slots the
/// snapshot has; there is none where the snapshot lacks the slots.
pub fn raw_mode(settings: &TerminalSettings) -> (raw: Option<TerminalSettings>)
    ensures
        raw matches Some(r) ==> exists|p: Platform|
            #[trigger] p.fits(settings@) && r@ == raw_mode_of(settings@, p),
        raw is None ==> exists|p: Platform| !#[trigger] p.fits(settings@),
{
    let here = platform();
    let raw = raw_mode_on(settings, &here);
    proof {
        if raw is Some {
            assert(here.fits(settings@) && raw->0@ == raw_mode_of(settings@, here));
        } else {
            assert(!here.fits(settings@));
        }
    }
    raw
}

/// Raw mode leaves none of the bits it is to clear, selects eight-bit
/// characters, and zeroes the two control values.
pub proof fn lemma_raw_mode_clears(settings: SettingsView, platform: Platform)
    ensures
        raw_mode_of(settings, platform).input_flags & platform.input.spec_mask() == 0,
        raw_mode_of(settings, platform).output_flags & platform.output.opost == 0,
        raw_mode_of(settings, platform).local_flags & platform.local.spec_mask() == 0,
        raw_mode_of(settings, platform).control_flags & platform.control.cs8
            == platform.control.cs8,
        raw_mode_of(settings, platform).control_flags & (platform.control.spec_mask()
            & !platform.control.cs8) == 0,
        platform.fits(settings) ==> raw_mode_of(settings, platform).control_chars[platform.slots.vmin as int]
            == 0 && raw_mode_of(settings, platform).control_chars[platform.slots.vtime as int]
            == 0,
{
    let input = settings.input_flags;
    let input_mask = platform.input.spec_mask();
    assert((input & !input_mask) & input_mask == 0) by (bit_vector);
    let output = settings.output_flags;
    let opost = platform.output.opost;
    assert((output & !opost) & opost == 0) by (bit_vector);
    let local = settings.local_flags;
    let local_mask = platform.local.spec_mask();
    assert((local & !local_mask) & local_mask == 0) by (bit_vector);
    let control = settings.control_flags;
    let control_mask = platform.control.spec_mask();
    let cs8 = platform.control.cs8;
    assert(((control & !control_mask) | cs8) & cs8 == cs8) by (bit_vector);
    assert(((control & !control_mask) | cs8) & (control_mask & !cs8) == 0) by (bit_vector);
}

/// Raw mode turns off each of the input, output and local features by
/// name. Where the platform keeps parity apart from the character size, it
/// turns parity off; where the eight-bit value lies within the
/// character-size field, that field holds exactly it.
pub proof fn lemma_raw_mode_turns_off_each(settings: SettingsView, platform: Platform)
    ensures
        raw_mode_of(settings, platform).input_flags & platform.input.ignbrk == 0,
        raw_mode_of(settings, platform).input_flags & platform.input.brkint == 0,
        raw_mode_of(settings, platform).input_flags & platform.input.parmrk == 0,
        raw_mode_of(settings, platform).input_flags & platform.input.istrip == 0,
        raw_mode_of(settings, platform).input_flags & platform.input.inlcr == 0,
        raw_mode_of(settings, platform).input_flags & platform.input.igncr == 0,
        raw_mode_of(settings, platform).input_flags & platform.input.icrnl == 0,
        raw_mode_of(settings, platform).input_flags & platform.input.ixon == 0,
        raw_mode_of(settings, platform).output_flags & platform.output.opost == 0,
        raw_mode_of(settings, platform).local_flags & platform.local.echo == 0,
        raw_mode_of(settings, platform).local_flags & platform.local.echonl == 0,
        raw_mode_of(settings, platform).local_flags & platform.local.icanon == 0,
        raw_mode_of(settings, platform).local_flags & platform.local.isig == 0,
        raw_mode_of(settings, platform).local_flags & platform.local.iexten == 0,
        platform.control.parenb & platform.control.cs8 == 0 ==> raw_mode_of(
            settings,
            platform,
        ).control_flags & platform.control.parenb == 0,
        platform.control.cs8 & !platform.control.csize == 0 ==> raw_mode_of(
            settings,
            platform,
        ).control_flags & platform.control.csize == platform.control.cs8,
{
    let i = platform.input;
    lemma_cleared_bits(
        settings.input_flags,
        i.ignbrk,
        i.brkint,
        i.parmrk,
        i.istrip,
        i.inlcr,
        i.igncr,
        i.icrnl,
        i.ixon,
    );
    let output = settings.output_flags;
    let opost = platform.output.opost;
    assert((output & !opost) & opost == 0) by (bit_vector);
    let l = platform.local;
    lemma_cleared_bits(settings.local_flags, l.echo, l.echonl, l.icanon, l.isig, l.iexten, 0, 0, 0);
    let five = l.echo | l.echonl | l.icanon | l.isig | l.iexten;
    assert(five | 0 | 0 | 0 == five) by (bit_vector);
    let control = settings.control_flags;
    let csize = platform.control.csize;
    let parenb = platform.control.parenb;
    let cs8 = platform.control.cs8;
    assert(parenb & cs8 == 0 ==> ((control & !(csize | parenb)) | cs8) & parenb == 0)
        by (bit_vector);
    assert(cs8 & !csize == 0 ==> ((control & !(csize | parenb)) | cs8) & csize == cs8)
        by (bit_vector);
}

/// Once a set of bits is masked out of a word, each of them is clear in it.
proof fn lemma_cleared_bits(
    word: u64,
    a: u64,
    b: u64,
    c: u64,
    d: u64,
    e: u64,
    f: u64,
    g: u64,
    h: u64,
)
    by (bit_vector)
    ensures
        (word & !(a | b | c | d | e | f | g | h)) & a == 0,
        (word & !(a | b | c | d | e | f | g | h)) & b == 0,
        (word & !(a | b | c | d | e | f | g | h)) & c == 0,
        (word & !(a | b | c | d | e | f | g | h)) & d == 0,
        (word & !(a | b | c | d | e | f | g | h)) & e == 0,
        (word & !(a | b | c | d | e | f | g | h)) & f == 0,
        (word & !(a | b | c | d | e | f | g | h)) & g == 0,
        (word & !(a | b | c | d | e | f | g | h)) & h == 0,
{
}

/// Raw mode keeps every bit that it is not to touch, and every control
/// character but the two it sets.
pub proof fn lemma_raw_mode_keeps_the_rest(settings: SettingsView, platform: Platform)
    ensures
        raw_mode_of(settings, platform).input_flags & !platform.input.spec_mask()
            == settings.input_flags & !platform.input.spec_mask(),
        raw_mode_of(settings, platform).output_flags & !platform.output.opost
            == settings.output_flags & !platform.output.opost,
        raw_mode_of(settings, platform).local_flags & !platform.local.spec_mask()
            == settings.local_flags & !platform.local.spec_mask(),
        raw_mode_of(settings, platform).control_flags & !(platform.control.spec_mask()
            | platform.control.cs8) == settings.control_flags & !(platform.control.spec_mask()
            | platform.control.cs8),
        raw_mode_of(settings, platform).control_chars.len() == settings.control_chars.len(),
        forall|i: int|
            0 <= i < settings.control_chars.len() && i != platform.slots.vmin && i
                != platform.slots.vtime ==> raw_mode_of(settings, platform).control_chars[i]
                == settings.control_chars[i],
{
    let input = settings.input_flags;
    let input_mask = platform.input.spec_mask();
    assert((input & !input_mask) & !input_mask == input & !input_mask) by (bit_vector);
    let output = settings.output_flags;
    let opost = platform.output.opost;
    assert((output & !opost) & !opost == output & !opost) by (bit_vector);
    let local = settings.local_flags;
    let local_mask = platform.local.spec_mask();
    assert((local & !local_mask) & !local_mask == local & !local_mask) by (bit_vector);
    let control = settings.control_flags;
    let control_mask = platform.control.spec_mask();
    let cs8 = platform.control.cs8;
    assert(((control & !control_mask) | cs8) & !(control_mask | cs8) == control & !(control_mask
        | cs8)) by (bit_vector);
}

/// Raw mode of raw mode is raw mode.
pub proof fn lemma_raw_mode_is_idempotent(settings: SettingsView, platform: Platform)
    ensures
        raw_mode_of(raw_mode_of(settings, platform), platform) == raw_mode_of(settings, platform),
{
    let once = raw_mode_of(settings, platform);
    let twice = raw_mode_of(once, platform);
    let input = settings.input_flags;
    let input_mask = platform.input.spec_mask();
    assert((input & !input_mask) & !input_mask == input & !input_mask) by (bit_vector);
    let output = settings.output_flags;
    let opost = platform.output.opost;
    assert((output & !opost) & !opost == output & !opost) by (bit_vector);
    let local = settings.local_flags;
    let local_mask = platform.local.spec_mask();
    assert((local & !local_mask) & !local_mask == local & !local_mask) by (bit_vector);
    let control = settings.control_flags;
    let control_mask = platform.control.spec_mask();
    let cs8 = platform.control.cs8;
    assert((((control & !control_mask) | cs8) & !control_mask) | cs8 == (control & !control_mask)
        | cs8) by (bit_vector);
    assert(twice.control_chars =~= once.control_chars);
}

} // verus!
