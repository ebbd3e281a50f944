use rustbox::{
    raw_mode, raw_mode_on, ControlBits, ControlSlots, InputBits, LocalBits, OutputBits, Platform,
    TerminalSettings,
};

/// A made-up platform, with every bit in a place of its own.
fn toy() -> Platform {
    Platform {
        input: InputBits {
            ignbrk: 0x01,
            brkint: 0x02,
            parmrk: 0x04,
            istrip: 0x08,
            inlcr: 0x10,
            igncr: 0x20,
            icrnl: 0x40,
            ixon: 0x80,
        },
        output: OutputBits { opost: 0x1 },
        control: ControlBits { csize: 0x30, parenb: 0x100, cs8: 0x30 },
        local: LocalBits { echo: 0x1, echonl: 0x2, icanon: 0x4, isig: 0x8, iexten: 0x10 },
        slots: ControlSlots { vmin: 2, vtime: 0 },
    }
}

/// The platform the tests run on, read from libc.
fn here() -> Platform {
    Platform {
        input: InputBits {
            ignbrk: libc::IGNBRK as u64,
            brkint: libc::BRKINT as u64,
            parmrk: libc::PARMRK as u64,
            istrip: libc::ISTRIP as u64,
            inlcr: libc::INLCR as u64,
            igncr: libc::IGNCR as u64,
            icrnl: libc::ICRNL as u64,
            ixon: libc::IXON as u64,
        },
        output: OutputBits { opost: libc::OPOST as u64 },
        control: ControlBits {
            csize: libc::CSIZE as u64,
            parenb: libc::PARENB as u64,
            cs8: libc::CS8 as u64,
        },
        local: LocalBits {
            echo: libc::ECHO as u64,
            echonl: libc::ECHONL as u64,
            icanon: libc::ICANON as u64,
            isig: libc::ISIG as u64,
            iexten: libc::IEXTEN as u64,
        },
        slots: ControlSlots { vmin: libc::VMIN as usize, vtime: libc::VTIME as usize },
    }
}

fn all_set(control_chars: usize) -> TerminalSettings {
    TerminalSettings {
        input_flags: u64::MAX,
        output_flags: u64::MAX,
        control_flags: u64::MAX,
        local_flags: u64::MAX,
        control_chars: vec![0xAA; control_chars],
    }
}

#[test]
fn masks_are_the_bits_together() {
    let p = toy();
    assert_eq!(p.input.mask(), 0xff);
    assert_eq!(p.control.mask(), 0x130);
    assert_eq!(p.local.mask(), 0x1f);
}

#[test]
fn raw_mode_on_a_toy_platform() {
    let settings = TerminalSettings {
        input_flags: 0x1ff,
        output_flags: 0x7,
        control_flags: 0x310,
        local_flags: 0xff,
        control_chars: vec![9, 8, 7, 6],
    };
    let raw = raw_mode_on(&settings, &toy()).unwrap();
    assert_eq!(
        raw,
        TerminalSettings {
            input_flags: 0x100,
            output_flags: 0x6,
            control_flags: 0x230,
            local_flags: 0xe0,
            control_chars: vec![0, 8, 0, 6],
        }
    );
}

#[test]
fn raw_mode_leaves_the_snapshot_alone() {
    let settings = all_set(4);
    let copy = settings.clone();
    let _ = raw_mode_on(&settings, &toy());
    let _ = raw_mode(&settings);
    assert_eq!(settings, copy);
}

#[test]
fn raw_mode_of_raw_mode_is_raw_mode() {
    let raw = raw_mode_on(&all_set(4), &toy()).unwrap();
    assert_eq!(raw_mode_on(&raw, &toy()), Some(raw.clone()));
}

#[test]
fn raw_mode_sets_eight_bits_even_from_nothing() {
    let settings = TerminalSettings {
        input_flags: 0,
        output_flags: 0,
        control_flags: 0,
        local_flags: 0,
        control_chars: vec![1, 1, 1],
    };
    let raw = raw_mode_on(&settings, &toy()).unwrap();
    assert_eq!(raw.control_flags, 0x30);
    assert_eq!(raw.input_flags, 0);
    assert_eq!(raw.output_flags, 0);
    assert_eq!(raw.local_flags, 0);
    assert_eq!(raw.control_chars, vec![0, 1, 0]);
}

#[test]
fn a_snapshot_without_the_control_slots_has_no_raw_mode() {
    assert_eq!(raw_mode_on(&all_set(2), &toy()), None);
    assert_eq!(raw_mode_on(&all_set(0), &toy()), None);
    assert!(raw_mode_on(&all_set(3), &toy()).is_some());
    assert_eq!(raw_mode(&all_set(0)), None);
}

#[test]
fn raw_mode_uses_the_bits_of_the_platform_it_runs_on() {
    let settings = all_set(libc::NCCS);
    let raw = raw_mode(&settings).unwrap();
    assert_eq!(Some(raw.clone()), raw_mode_on(&settings, &here()));
    assert_ne!(raw, settings);
    for bit in [
        libc::IGNBRK,
        libc::BRKINT,
        libc::PARMRK,
        libc::ISTRIP,
        libc::INLCR,
        libc::IGNCR,
        libc::ICRNL,
        libc::IXON,
    ] {
        assert_eq!(raw.input_flags & bit as u64, 0);
    }
    assert_eq!(raw.output_flags & libc::OPOST as u64, 0);
    for bit in [libc::ECHO, libc::ECHONL, libc::ICANON, libc::ISIG, libc::IEXTEN] {
        assert_eq!(raw.local_flags & bit as u64, 0);
    }
    assert_eq!(raw.control_flags & libc::CSIZE as u64, libc::CS8 as u64);
    assert_eq!(raw.control_flags & libc::PARENB as u64, 0);
    assert_eq!(raw.control_chars[libc::VMIN], 0);
    assert_eq!(raw.control_chars[libc::VTIME], 0);
    assert_eq!(raw.control_chars.len(), libc::NCCS);
    assert_eq!(raw.control_chars.iter().filter(|c| **c == 0xAA).count(), libc::NCCS - 2);
}
