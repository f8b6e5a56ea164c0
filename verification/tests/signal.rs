use saelient::signal::{
    Command, Parameter, Signal, U10, U12, U16, U20, U24, U28, U32, U4, U8,
};

#[test]
fn param_failed_conversion() {
    let parameter = Parameter::try_from(99);

    assert_eq!(parameter, Err(()))
}

#[test]
fn cmd_failed_conversion() {
    let command = Command::try_from(99);

    assert_eq!(command, Err(()))
}

#[test]
fn parameter_codes() {
    assert_eq!(Parameter::try_from(0), Ok(Parameter::Disabled));
    assert_eq!(Parameter::try_from(1), Ok(Parameter::Enabled));
    assert_eq!(Parameter::try_from(2), Ok(Parameter::IsError));
    assert_eq!(Parameter::try_from(3), Ok(Parameter::NotAvailable));
    for code in 4..=255u8 {
        assert_eq!(Parameter::try_from(code), Err(()));
    }
}

#[test]
fn command_codes() {
    assert_eq!(Command::try_from(0), Ok(Command::Disable));
    assert_eq!(Command::try_from(1), Ok(Command::Enable));
    assert_eq!(Command::try_from(2), Err(()));
    assert_eq!(Command::try_from(3), Ok(Command::NoAction));
    for code in 4..=255u8 {
        assert_eq!(Command::try_from(code), Err(()));
    }
}

#[test]
fn codes_come_back() {
    for parameter in [
        Parameter::Disabled,
        Parameter::Enabled,
        Parameter::IsError,
        Parameter::NotAvailable,
    ] {
        assert_eq!(Parameter::try_from(u8::from(parameter)), Ok(parameter));
    }
    for command in [Command::Disable, Command::Enable, Command::NoAction] {
        assert_eq!(Command::try_from(u8::from(command)), Ok(command));
    }
    let code: u8 = Parameter::IsError.into();
    assert_eq!(code, 2);
    let code: u8 = Command::NoAction.into();
    assert_eq!(code, 3);
    assert_eq!(u8::from(Parameter::Disabled), 0);
    assert_eq!(u8::from(Parameter::Enabled), 1);
    assert_eq!(u8::from(Parameter::NotAvailable), 3);
    assert_eq!(u8::from(Command::Disable), 0);
    assert_eq!(u8::from(Command::Enable), 1);
}

#[test]
fn defaults() {
    assert_eq!(Parameter::default(), Parameter::NotAvailable);
    assert_eq!(Command::default(), Command::NoAction);
}

fn kinds<T, S: Signal<T>>(signal: &S) -> [bool; 4] {
    [signal.is_valid(), signal.is_specific(), signal.is_error(), signal.is_not_available()]
}

const VALID: [bool; 4] = [true, false, false, false];
const SPECIFIC: [bool; 4] = [false, true, false, false];
const ERROR: [bool; 4] = [false, false, true, false];
const NOT_AVAILABLE: [bool; 4] = [false, false, false, true];
const NONE: [bool; 4] = [false, false, false, false];

#[test]
fn u8_boundaries() {
    assert!(U8(0xFA).is_valid());
    assert!(U8(0xFB).is_specific());
    assert!(U8(0xFE).is_error());
    assert!(U8(0xFF).is_not_available());
    assert!(U8(0x00).is_valid());
    assert_eq!(kinds(&U8(0x00)), VALID);
    assert_eq!(kinds(&U8(0xFA)), VALID);
    assert_eq!(kinds(&U8(0xFB)), SPECIFIC);
    assert_eq!(kinds(&U8(0xFC)), NONE);
    assert_eq!(kinds(&U8(0xFD)), NONE);
    assert_eq!(kinds(&U8(0xFE)), ERROR);
    assert_eq!(kinds(&U8(0xFF)), NOT_AVAILABLE);
}

#[test]
fn u8_every_value_is_of_at_most_one_kind() {
    for raw in 0..=255u8 {
        let count = kinds(&U8(raw)).iter().filter(|kind| **kind).count();
        if raw == 0xFC || raw == 0xFD {
            assert_eq!(count, 0);
        } else {
            assert_eq!(count, 1);
        }
    }
}

#[test]
fn u4_every_value() {
    for raw in 0..=255u8 {
        let expected = match raw {
            0x0..=0xA => VALID,
            0xB => SPECIFIC,
            0xE => ERROR,
            0xF => NOT_AVAILABLE,
            _ => NONE,
        };
        assert_eq!(kinds(&U4(raw)), expected);
    }
}

#[test]
fn u10_every_value() {
    for raw in 0..=0xFFFFu16 {
        let expected = match raw {
            0x000..=0x3FA => VALID,
            0x3FB => SPECIFIC,
            0x3FE => ERROR,
            0x3FF => NOT_AVAILABLE,
            _ => NONE,
        };
        assert_eq!(kinds(&U10(raw)), expected);
    }
}

#[test]
fn u12_every_value() {
    for raw in 0..=0xFFFFu16 {
        let expected = match raw {
            0x000..=0xFAF => VALID,
            0xFB0..=0xFBF => SPECIFIC,
            0xFE0..=0xFEF => ERROR,
            0xFF0..=0xFFF => NOT_AVAILABLE,
            _ => NONE,
        };
        assert_eq!(kinds(&U12(raw)), expected);
    }
}

#[test]
fn u16_every_value() {
    for raw in 0..=0xFFFFu16 {
        let expected = match raw {
            0x0000..=0xFAFF => VALID,
            0xFB00..=0xFBFF => SPECIFIC,
            0xFE00..=0xFEFF => ERROR,
            0xFF00..=0xFFFF => NOT_AVAILABLE,
            _ => NONE,
        };
        assert_eq!(kinds(&U16(raw)), expected);
    }
}

#[test]
fn u20_boundaries() {
    assert_eq!(kinds(&U20(0x00000)), VALID);
    assert_eq!(kinds(&U20(0xFAFFF)), VALID);
    assert_eq!(kinds(&U20(0xFB000)), SPECIFIC);
    assert_eq!(kinds(&U20(0xFBFFF)), SPECIFIC);
    assert_eq!(kinds(&U20(0xFC000)), NONE);
    assert_eq!(kinds(&U20(0xFDFFF)), NONE);
    assert_eq!(kinds(&U20(0xFE000)), ERROR);
    assert_eq!(kinds(&U20(0xFEFFF)), ERROR);
    assert_eq!(kinds(&U20(0xFF000)), NOT_AVAILABLE);
    assert_eq!(kinds(&U20(0xFFFFF)), NOT_AVAILABLE);
    assert_eq!(kinds(&U20(0x100000)), NONE);
}

#[test]
fn u24_boundaries() {
    assert_eq!(kinds(&U24(0x000000)), VALID);
    assert_eq!(kinds(&U24(0xFAFFFF)), VALID);
    assert_eq!(kinds(&U24(0xFB0000)), SPECIFIC);
    assert_eq!(kinds(&U24(0xFBFFFF)), SPECIFIC);
    assert_eq!(kinds(&U24(0xFC0000)), NONE);
    assert_eq!(kinds(&U24(0xFDFFFF)), NONE);
    assert_eq!(kinds(&U24(0xFE0000)), ERROR);
    assert_eq!(kinds(&U24(0xFEFFFF)), ERROR);
    assert_eq!(kinds(&U24(0xFF0000)), NOT_AVAILABLE);
    assert_eq!(kinds(&U24(0xFFFFFF)), NOT_AVAILABLE);
    assert_eq!(kinds(&U24(0x1000000)), NONE);
}

#[test]
fn u28_boundaries() {
    assert_eq!(kinds(&U28(0x0000000)), VALID);
    assert_eq!(kinds(&U28(0xFAFFFFF)), VALID);
    assert_eq!(kinds(&U28(0xFB00000)), SPECIFIC);
    assert_eq!(kinds(&U28(0xFBFFFFF)), SPECIFIC);
    assert_eq!(kinds(&U28(0xFC00000)), NONE);
    assert_eq!(kinds(&U28(0xFDFFFFF)), NONE);
    assert_eq!(kinds(&U28(0xFE00000)), ERROR);
    assert_eq!(kinds(&U28(0xFEFFFFF)), ERROR);
    assert_eq!(kinds(&U28(0xFF00000)), NOT_AVAILABLE);
    assert_eq!(kinds(&U28(0xFFFFFFF)), NOT_AVAILABLE);
    assert_eq!(kinds(&U28(0x10000000)), NONE);
}

#[test]
fn u32_boundaries() {
    assert_eq!(kinds(&U32(0x00000000)), VALID);
    assert_eq!(kinds(&U32(0xFAFFFFFF)), VALID);
    assert_eq!(kinds(&U32(0xFB000000)), SPECIFIC);
    assert_eq!(kinds(&U32(0xFBFFFFFF)), SPECIFIC);
    assert_eq!(kinds(&U32(0xFC000000)), NONE);
    assert_eq!(kinds(&U32(0xFDFFFFFF)), NONE);
    assert_eq!(kinds(&U32(0xFE000000)), ERROR);
    assert_eq!(kinds(&U32(0xFEFFFFFF)), ERROR);
    assert_eq!(kinds(&U32(0xFF000000)), NOT_AVAILABLE);
    assert_eq!(kinds(&U32(0xFFFFFFFF)), NOT_AVAILABLE);
}

#[test]
fn constants() {
    assert_eq!(U4::BITS, 4);
    assert_eq!(U8::BITS, 8);
    assert_eq!(U10::BITS, 10);
    assert_eq!(U12::BITS, 12);
    assert_eq!(U16::BITS, 16);
    assert_eq!(U20::BITS, 20);
    assert_eq!(U24::BITS, 24);
    assert_eq!(U28::BITS, 28);
    assert_eq!(U32::BITS, 32);
    assert_eq!(U8::VALID_RANGE, (0x00, 0xFA));
    assert_eq!(U8::SPECIFIC_RANGE, (0xFB, 0xFB));
    assert_eq!(U8::ERROR_RANGE, (0xFE, 0xFE));
    assert_eq!(U8::NOT_AVAILABLE_RANGE, (0xFF, 0xFF));
    assert_eq!(U12::SPECIFIC_RANGE, (0xFB0, 0xFBF));
    assert_eq!(U32::VALID_RANGE, (0, 0xFAFF_FFFF));
}
