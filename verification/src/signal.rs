//! Signals: what the raw value of a parameter of a given width means.
//!
//! The values of a signal of 4, 8, 10, 12, 16, 20, 24, 28 or 32 bits fall,
//! from the lowest to the highest, into the valid values, the
//! parameter-specific indicator, a reserved stretch, the error indicator and
//! the not-available indicator. A discrete parameter or a control command
//! takes two bits.

use vstd::arithmetic::power2::{lemma2_to64, pow2};
use vstd::prelude::*;

verus! {

/// Transmitted values for discrete parameters (measured).
#[derive(Clone, Copy, Debug, PartialEq, Eq, Structural)]
pub enum Parameter {
    Disabled,
    Enabled,
    IsError,
    NotAvailable,
}

impl Parameter {
    /// The 2-bit code of the value on the wire.
    pub open spec fn spec_code(self) -> u8 {
        match self {
            Parameter::Disabled => 0x0,
            Parameter::Enabled => 0x1,
            Parameter::IsError => 0x2,
            Parameter::NotAvailable => 0x3,
        }
    }

    /// The value that a code stands for, if it stands for one.
    pub open spec fn from_code(code: u8) -> Option<Parameter> {
        if code == 0x0 {
            Some(Parameter::Disabled)
        } else if code == 0x1 {
            Some(Parameter::Enabled)
        } else if code == 0x2 {
            Some(Parameter::IsError)
        } else if code == 0x3 {
            Some(Parameter::NotAvailable)
        } else {
            None
        }
    }

    /// A parameter value and its code determine each other, and the codes
    /// that stand for a value are those of two bits.
    pub proof fn lemma_code_round_trip(parameter: Parameter, code: u8)
        ensures
            Parameter::from_code(parameter.spec_code()) == Some(parameter),
            Parameter::from_code(code) == Some(parameter) <==> code == parameter.spec_code(),
            Parameter::from_code(code) is Some <==> code <= 3,
    {
    }
}

impl Default for Parameter {
    /// A parameter of which nothing is known is not available.
    fn default() -> (parameter: Self)
        ensures
            parameter == Parameter::NotAvailable,
    {
        Parameter::NotAvailable
    }
}

impl From<Parameter> for u8 {
    fn from(parameter: Parameter) -> (code: u8) {
        match parameter {
            Parameter::Disabled => 0x0,
            Parameter::Enabled => 0x1,
            Parameter::IsError => 0x2,
            Parameter::NotAvailable => 0x3,
        }
    }
}

impl vstd::std_specs::convert::FromSpecImpl<Parameter> for u8 {
    open spec fn obeys_from_spec() -> bool {
        true
    }

    open spec fn from_spec(parameter: Parameter) -> u8 {
        parameter.spec_code()
    }
}

impl TryFrom<u8> for Parameter {
    type Error = ();

    fn try_from(value: u8) -> (result: Result<Self, ()>) {
        match value {
            0x0 => Ok(Parameter::Disabled),
            0x1 => Ok(Parameter::Enabled),
            0x2 => Ok(Parameter::IsError),
            0x3 => Ok(Parameter::NotAvailable),
            _ => Err(()),
        }
    }
}

impl vstd::std_specs::convert::TryFromSpecImpl<u8> for Parameter {
    open spec fn obeys_try_from_spec() -> bool {
        true
    }

    open spec fn try_from_spec(value: u8) -> Result<Self, ()> {
        match Parameter::from_code(value) {
            Some(parameter) => Ok(parameter),
            None => Err(()),
        }
    }
}

/// Transmitted values for control commands (status).
#[derive(Clone, Copy, Debug, PartialEq, Eq, Structural)]
pub enum Command {
    Disable,
    Enable,
    NoAction,
}

impl Command {
    /// The 2-bit code of the command on the wire. The code 2 is reserved.
    pub open spec fn spec_code(self) -> u8 {
        match self {
            Command::Disable => 0x0,
            Command::Enable => 0x1,
            Command::NoAction => 0x3,
        }
    }

    /// The command that a code stands for, if it stands for one.
    pub open spec fn from_code(code: u8) -> Option<Command> {
        if code == 0x0 {
            Some(Command::Disable)
        } else if code == 0x1 {
            Some(Command::Enable)
        } else if code == 0x3 {
            Some(Command::NoAction)
        } else {
            None
        }
    }

    /// A command and its code determine each other, and the codes that stand
    /// for a command are 0, 1 and 3.
    pub proof fn lemma_code_round_trip(command: Command, code: u8)
        ensures
            Command::from_code(command.spec_code()) == Some(command),
            Command::from_code(code) == Some(command) <==> code == command.spec_code(),
            Command::from_code(code) is Some <==> code == 0 || code == 1 || code == 3,
    {
    }
}

impl From<Command> for u8 {
    fn from(command: Command) -> (code: u8) {
        match command {
            Command::Disable => 0x0,
            Command::Enable => 0x1,
            Command::NoAction => 0x3,
        }
    }
}

impl vstd::std_specs::convert::FromSpecImpl<Command> for u8 {
    open spec fn obeys_from_spec() -> bool {
        true
    }

    open spec fn from_spec(command: Command) -> u8 {
        command.spec_code()
    }
}

impl TryFrom<u8> for Command {
    type Error = ();

    fn try_from(value: u8) -> (result: Result<Self, ()>) {
        match value {
            0x0 => Ok(Command::Disable),
            0x1 => Ok(Command::Enable),
            0x3 => Ok(Command::NoAction),
            _ => Err(()),
        }
    }
}

impl vstd::std_specs::convert::TryFromSpecImpl<u8> for Command {
    open spec fn obeys_try_from_spec() -> bool {
        true
    }

    open spec fn try_from_spec(value: u8) -> Result<Self, ()> {
        match Command::from_code(value) {
            Some(command) => Ok(command),
            None => Err(()),
        }
    }
}

impl Default for Command {
    /// A command of which nothing is known asks for no action.
    fn default() -> (command: Self)
        ensures
            command == Command::NoAction,
    {
        Command::NoAction
    }
}

/// The widths, in bits, that signals come in.
pub open spec fn supported_width(bits: nat) -> bool {
    bits == 4 || bits == 8 || bits == 10 || bits == 12 || bits == 16 || bits == 20 || bits == 24
        || bits == 28 || bits == 32
}

/// Whether `value` lies between the two ends of `range`, the ends included.
pub open spec fn in_range(value: nat, range: (nat, nat)) -> bool {
    range.0 <= value <= range.1
}

/// The least and the greatest valid value of a signal of the given width;
/// no value where there is no signal of that width.
pub open spec fn valid_range(bits: nat) -> (nat, nat) {
    if bits == 4 {
        (0x0, 0xA)
    } else if bits == 8 {
        (0x00, 0xFA)
    } else if bits == 10 {
        (0x000, 0x3FA)
    } else if bits == 12 {
        (0x000, 0xFAF)
    } else if bits == 16 {
        (0x0000, 0xFAFF)
    } else if bits == 20 {
        (0x0_0000, 0xF_AFFF)
    } else if bits == 24 {
        (0x00_0000, 0xFA_FFFF)
    } else if bits == 28 {
        (0x000_0000, 0xFAF_FFFF)
    } else if bits == 32 {
        (0x0000_0000, 0xFAFF_FFFF)
    } else {
        (1, 0)
    }
}

/// The values of the parameter-specific indicator.
pub open spec fn specific_range(bits: nat) -> (nat, nat) {
    if bits == 4 {
        (0xB, 0xB)
    } else if bits == 8 {
        (0xFB, 0xFB)
    } else if bits == 10 {
        (0x3FB, 0x3FB)
    } else if bits == 12 {
        (0xFB0, 0xFBF)
    } else if bits == 16 {
        (0xFB00, 0xFBFF)
    } else if bits == 20 {
        (0xF_B000, 0xF_BFFF)
    } else if bits == 24 {
        (0xFB_0000, 0xFB_FFFF)
    } else if bits == 28 {
        (0xFB0_0000, 0xFBF_FFFF)
    } else if bits == 32 {
        (0xFB00_0000, 0xFBFF_FFFF)
    } else {
        (1, 0)
    }
}

/// The values between the parameter-specific and the error indicator, which
/// stand for nothing.
pub open spec fn reserved_range(bits: nat) -> (nat, nat) {
    if bits == 4 {
        (0xC, 0xD)
    } else if bits == 8 {
        (0xFC, 0xFD)
    } else if bits == 10 {
        (0x3FC, 0x3FD)
    } else if bits == 12 {
        (0xFC0, 0xFDF)
    } else if bits == 16 {
        (0xFC00, 0xFDFF)
    } else if bits == 20 {
        (0xF_C000, 0xF_DFFF)
    } else if bits == 24 {
        (0xFC_0000, 0xFD_FFFF)
    } else if bits == 28 {
        (0xFC0_0000, 0xFDF_FFFF)
    } else if bits == 32 {
        (0xFC00_0000, 0xFDFF_FFFF)
    } else {
        (1, 0)
    }
}

/// The values of the error indicator.
pub open spec fn error_range(bits: nat) -> (nat, nat) {
    if bits == 4 {
        (0xE, 0xE)
    } else if bits == 8 {
        (0xFE, 0xFE)
    } else if bits == 10 {
        (0x3FE, 0x3FE)
    } else if bits == 12 {
        (0xFE0, 0xFEF)
    } else if bits == 16 {
        (0xFE00, 0xFEFF)
    } else if bits == 20 {
        (0xF_E000, 0xF_EFFF)
    } else if bits == 24 {
        (0xFE_0000, 0xFE_FFFF)
    } else if bits == 28 {
        (0xFE0_0000, 0xFEF_FFFF)
    } else if bits == 32 {
        (0xFE00_0000, 0xFEFF_FFFF)
    } else {
        (1, 0)
    }
}

/// The values of the not-available indicator.
pub open spec fn not_available_range(bits: nat) -> (nat, nat) {
    if bits == 4 {
        (0xF, 0xF)
    } else if bits == 8 {
        (0xFF, 0xFF)
    } else if bits == 10 {
        (0x3FF, 0x3FF)
    } else if bits == 12 {
        (0xFF0, 0xFFF)
    } else if bits == 16 {
        (0xFF00, 0xFFFF)
    } else if bits == 20 {
        (0xF_F000, 0xF_FFFF)
    } else if bits == 24 {
        (0xFF_0000, 0xFF_FFFF)
    } else if bits == 28 {
        (0xFF0_0000, 0xFFF_FFFF)
    } else if bits == 32 {
        (0xFF00_0000, 0xFFFF_FFFF)
    } else {
        (1, 0)
    }
}

/// One for a true statement, nothing for a false one.
pub open spec fn count(holds: bool) -> nat {
    if holds {
        1
    } else {
        0
    }
}

/// How many of the four kinds of value a value of a signal belongs to.
pub open spec fn kinds_of(bits: nat, value: nat) -> nat {
    count(in_range(value, valid_range(bits))) + count(in_range(value, specific_range(bits)))
        + count(in_range(value, error_range(bits))) + count(
        in_range(value, not_available_range(bits)),
    )
}

/// The five ranges of a width follow each other without a gap, from zero to
/// the greatest value of that width.
pub proof fn lemma_ranges_adjoin(bits: nat)
    requires
        supported_width(bits),
    ensures
        valid_range(bits).0 == 0,
        valid_range(bits).1 + 1 == specific_range(bits).0,
        specific_range(bits).1 + 1 == reserved_range(bits).0,
        reserved_range(bits).1 + 1 == error_range(bits).0,
        error_range(bits).1 + 1 == not_available_range(bits).0,
        not_available_range(bits).1 + 1 == pow2(bits),
        valid_range(bits).0 <= valid_range(bits).1,
        specific_range(bits).0 <= specific_range(bits).1,
        reserved_range(bits).0 <= reserved_range(bits).1,
        error_range(bits).0 <= error_range(bits).1,
        not_available_range(bits).0 <= not_available_range(bits).1,
{
    lemma2_to64();
}

/// No value is of two kinds.
pub proof fn lemma_at_most_one_kind(bits: nat, value: nat)
    ensures
        kinds_of(bits, value) <= 1,
{
}

/// A value of a supported width that is not reserved is of exactly one kind.
pub proof fn lemma_exactly_one_kind(bits: nat, value: nat)
    requires
        supported_width(bits),
        value < pow2(bits),
        !in_range(value, reserved_range(bits)),
    ensures
        kinds_of(bits, value) == 1,
{
    lemma2_to64();
}

/// A reserved value, and one too great for its width, is of no kind.
pub proof fn lemma_no_kind(bits: nat, value: nat)
    requires
        supported_width(bits),
        in_range(value, reserved_range(bits)) || value >= pow2(bits),
    ensures
        kinds_of(bits, value) == 0,
{
    lemma2_to64();
}

/// A signal of a fixed width, held in a `T`.
pub trait Signal<T> {
    /// The size of this type in bits.
    const BITS: u8;

    /// The smallest and the largest valid value.
    const VALID_RANGE: (T, T);

    /// The ends of the parameter-specific indicator values.
    const SPECIFIC_RANGE: (T, T);

    /// The ends of the error indicator values.
    const ERROR_RANGE: (T, T);

    /// The ends of the not available/requested indicator values.
    const NOT_AVAILABLE_RANGE: (T, T);

    /// The width of the signal in bits.
    spec fn spec_bits() -> nat;

    /// What a `T` is as a number.
    spec fn number(raw: T) -> nat;

    /// The raw value of the signal as a number.
    spec fn spec_value(&self) -> nat;

    /// The constants of the type are the width and the ranges of that width.
    proof fn lemma_constants()
        ensures
            supported_width(Self::spec_bits()),
            Self::BITS == Self::spec_bits(),
            (Self::number(Self::VALID_RANGE.0), Self::number(Self::VALID_RANGE.1)) == valid_range(
                Self::spec_bits(),
            ),
            (Self::number(Self::SPECIFIC_RANGE.0), Self::number(Self::SPECIFIC_RANGE.1))
                == specific_range(Self::spec_bits()),
            (Self::number(Self::ERROR_RANGE.0), Self::number(Self::ERROR_RANGE.1)) == error_range(
                Self::spec_bits(),
            ),
            (Self::number(Self::NOT_AVAILABLE_RANGE.0), Self::number(Self::NOT_AVAILABLE_RANGE.1))
                == not_available_range(Self::spec_bits()),
    ;

    /// Value is within the valid range.
    fn is_valid(&self) -> (valid: bool)
        ensures
            valid == in_range(self.spec_value(), valid_range(Self::spec_bits())),
    ;

    /// Value is within the specific indicator range.
    fn is_specific(&self) -> (specific: bool)
        ensures
            specific == in_range(self.spec_value(), specific_range(Self::spec_bits())),
    ;

    /// Value is within the error indicator range.
    fn is_error(&self) -> (error: bool)
        ensures
            error == in_range(self.spec_value(), error_range(Self::spec_bits())),
    ;

    /// Value is within the not available indicator range.
    fn is_not_available(&self) -> (not_available: bool)
        ensures
            not_available == in_range(self.spec_value(), not_available_range(Self::spec_bits())),
    ;
}

/// A signal of 4 bits.
#[derive(Clone, Copy, Debug, PartialEq, Eq, Structural)]
pub struct U4(pub u8);

impl Signal<u8> for U4 {
    const BITS: u8 = 4;

    const VALID_RANGE: (u8, u8) = (0x0, 0xA);

    const SPECIFIC_RANGE: (u8, u8) = (0xB, 0xB);

    const ERROR_RANGE: (u8, u8) = (0xE, 0xE);

    const NOT_AVAILABLE_RANGE: (u8, u8) = (0xF, 0xF);

    open spec fn spec_bits() -> nat {
        4
    }

    open spec fn number(raw: u8) -> nat {
        raw as nat
    }

    open spec fn spec_value(&self) -> nat {
        self.0 as nat
    }

    proof fn lemma_constants() {
    }

    fn is_valid(&self) -> (valid: bool) {
        Self::VALID_RANGE.0 <= self.0 && self.0 <= Self::VALID_RANGE.1
    }

    fn is_specific(&self) -> (specific: bool) {
        Self::SPECIFIC_RANGE.0 <= self.0 && self.0 <= Self::SPECIFIC_RANGE.1
    }

    fn is_error(&self) -> (error: bool) {
        Self::ERROR_RANGE.0 <= self.0 && self.0 <= Self::ERROR_RANGE.1
    }

    fn is_not_available(&self) -> (not_available: bool) {
        Self::NOT_AVAILABLE_RANGE.0 <= self.0 && self.0 <= Self::NOT_AVAILABLE_RANGE.1
    }
}

/// A signal of 8 bits.
#[derive(Clone, Copy, Debug, PartialEq, Eq, Structural)]
pub struct U8(pub u8);

impl Signal<u8> for U8 {
    const BITS: u8 = 8;

    const VALID_RANGE: (u8, u8) = (0x00, 0xFA);

    const SPECIFIC_RANGE: (u8, u8) = (0xFB, 0xFB);

    const ERROR_RANGE: (u8, u8) = (0xFE, 0xFE);

    const NOT_AVAILABLE_RANGE: (u8, u8) = (0xFF, 0xFF);

    open spec fn spec_bits() -> nat {
        8
    }

    open spec fn number(raw: u8) -> nat {
        raw as nat
    }

    open spec fn spec_value(&self) -> nat {
        self.0 as nat
    }

    proof fn lemma_constants() {
    }

    fn is_valid(&self) -> (valid: bool) {
        Self::VALID_RANGE.0 <= self.0 && self.0 <= Self::VALID_RANGE.1
    }

    fn is_specific(&self) -> (specific: bool) {
        Self::SPECIFIC_RANGE.0 <= self.0 && self.0 <= Self::SPECIFIC_RANGE.1
    }

    fn is_error(&self) -> (error: bool) {
        Self::ERROR_RANGE.0 <= self.0 && self.0 <= Self::ERROR_RANGE.1
    }

    fn is_not_available(&self) -> (not_available: bool) {
        Self::NOT_AVAILABLE_RANGE.0 <= self.0 && self.0 <= Self::NOT_AVAILABLE_RANGE.1
    }
}

/// A signal of 10 bits.
#[derive(Clone, Copy, Debug, PartialEq, Eq, Structural)]
pub struct U10(pub u16);

impl Signal<u16> for U10 {
    const BITS: u8 = 10;

    const VALID_RANGE: (u16, u16) = (0x000, 0x3FA);

    const SPECIFIC_RANGE: (u16, u16) = (0x3FB, 0x3FB);

    const ERROR_RANGE: (u16, u16) = (0x3FE, 0x3FE);

    const NOT_AVAILABLE_RANGE: (u16, u16) = (0x3FF, 0x3FF);

    open spec fn spec_bits() -> nat {
        10
    }

    open spec fn number(raw: u16) -> nat {
        raw as nat
    }

    open spec fn spec_value(&self) -> nat {
        self.0 as nat
    }

    proof fn lemma_constants() {
    }

    fn is_valid(&self) -> (valid: bool) {
        Self::VALID_RANGE.0 <= self.0 && self.0 <= Self::VALID_RANGE.1
    }

    fn is_specific(&self) -> (specific: bool) {
        Self::SPECIFIC_RANGE.0 <= self.0 && self.0 <= Self::SPECIFIC_RANGE.1
    }

    fn is_error(&self) -> (error: bool) {
        Self::ERROR_RANGE.0 <= self.0 && self.0 <= Self::ERROR_RANGE.1
    }

    fn is_not_available(&self) -> (not_available: bool) {
        Self::NOT_AVAILABLE_RANGE.0 <= self.0 && self.0 <= Self::NOT_AVAILABLE_RANGE.1
    }
}

/// A signal of 12 bits.
#[derive(Clone, Copy, Debug, PartialEq, Eq, Structural)]
pub struct U12(pub u16);

impl Signal<u16> for U12 {
    const BITS: u8 = 12;

    const VALID_RANGE: (u16, u16) = (0x000, 0xFAF);

    const SPECIFIC_RANGE: (u16, u16) = (0xFB0, 0xFBF);

    const ERROR_RANGE: (u16, u16) = (0xFE0, 0xFEF);

    const NOT_AVAILABLE_RANGE: (u16, u16) = (0xFF0, 0xFFF);

    open spec fn spec_bits() -> nat {
        12
    }

    open spec fn number(raw: u16) -> nat {
        raw as nat
    }

    open spec fn spec_value(&self) -> nat {
        self.0 as nat
    }

    proof fn lemma_constants() {
    }

    fn is_valid(&self) -> (valid: bool) {
        Self::VALID_RANGE.0 <= self.0 && self.0 <= Self::VALID_RANGE.1
    }

    fn is_specific(&self) -> (specific: bool) {
        Self::SPECIFIC_RANGE.0 <= self.0 && self.0 <= Self::SPECIFIC_RANGE.1
    }

    fn is_error(&self) -> (error: bool) {
        Self::ERROR_RANGE.0 <= self.0 && self.0 <= Self::ERROR_RANGE.1
    }

    fn is_not_available(&self) -> (not_available: bool) {
        Self::NOT_AVAILABLE_RANGE.0 <= self.0 && self.0 <= Self::NOT_AVAILABLE_RANGE.1
    }
}

/// A signal of 16 bits.
#[derive(Clone, Copy, Debug, PartialEq, Eq, Structural)]
pub struct U16(pub u16);

impl Signal<u16> for U16 {
    const BITS: u8 = 16;

    const VALID_RANGE: (u16, u16) = (0x0000, 0xFAFF);

    const SPECIFIC_RANGE: (u16, u16) = (0xFB00, 0xFBFF);

    const ERROR_RANGE: (u16, u16) = (0xFE00, 0xFEFF);

    const NOT_AVAILABLE_RANGE: (u16, u16) = (0xFF00, 0xFFFF);

    open spec fn spec_bits() -> nat {
        16
    }

    open spec fn number(raw: u16) -> nat {
        raw as nat
    }

    open spec fn spec_value(&self) -> nat {
        self.0 as nat
    }

    proof fn lemma_constants() {
    }

    fn is_valid(&self) -> (valid: bool) {
        Self::VALID_RANGE.0 <= self.0 && self.0 <= Self::VALID_RANGE.1
    }

    fn is_specific(&self) -> (specific: bool) {
        Self::SPECIFIC_RANGE.0 <= self.0 && self.0 <= Self::SPECIFIC_RANGE.1
    }

    fn is_error(&self) -> (error: bool) {
        Self::ERROR_RANGE.0 <= self.0 && self.0 <= Self::ERROR_RANGE.1
    }

    fn is_not_available(&self) -> (not_available: bool) {
        Self::NOT_AVAILABLE_RANGE.0 <= self.0 && self.0 <= Self::NOT_AVAILABLE_RANGE.1
    }
}

/// A signal of 20 bits.
#[derive(Clone, Copy, Debug, PartialEq, Eq, Structural)]
pub struct U20(pub u32);

impl Signal<u32> for U20 {
    const BITS: u8 = 20;

    const VALID_RANGE: (u32, u32) = (0x0_0000, 0xF_AFFF);

    const SPECIFIC_RANGE: (u32, u32) = (0xF_B000, 0xF_BFFF);

    const ERROR_RANGE: (u32, u32) = (0xF_E000, 0xF_EFFF);

    const NOT_AVAILABLE_RANGE: (u32, u32) = (0xF_F000, 0xF_FFFF);

    open spec fn spec_bits() -> nat {
        20
    }

    open spec fn number(raw: u32) -> nat {
        raw as nat
    }

    open spec fn spec_value(&self) -> nat {
        self.0 as nat
    }

    proof fn lemma_constants() {
    }

    fn is_valid(&self) -> (valid: bool) {
        Self::VALID_RANGE.0 <= self.0 && self.0 <= Self::VALID_RANGE.1
    }

    fn is_specific(&self) -> (specific: bool) {
        Self::SPECIFIC_RANGE.0 <= self.0 && self.0 <= Self::SPECIFIC_RANGE.1
    }

    fn is_error(&self) -> (error: bool) {
        Self::ERROR_RANGE.0 <= self.0 && self.0 <= Self::ERROR_RANGE.1
    }

    fn is_not_available(&self) -> (not_available: bool) {
        Self::NOT_AVAILABLE_RANGE.0 <= self.0 && self.0 <= Self::NOT_AVAILABLE_RANGE.1
    }
}

/// A signal of 24 bits.
#[derive(Clone, Copy, Debug, PartialEq, Eq, Structural)]
pub struct U24(pub u32);

impl Signal<u32> for U24 {
    const BITS: u8 = 24;

    const VALID_RANGE: (u32, u32) = (0x00_0000, 0xFA_FFFF);

    const SPECIFIC_RANGE: (u32, u32) = (0xFB_0000, 0xFB_FFFF);

    const ERROR_RANGE: (u32, u32) = (0xFE_0000, 0xFE_FFFF);

    const NOT_AVAILABLE_RANGE: (u32, u32) = (0xFF_0000, 0xFF_FFFF);

    open spec fn spec_bits() -> nat {
        24
    }

    open spec fn number(raw: u32) -> nat {
        raw as nat
    }

    open spec fn spec_value(&self) -> nat {
        self.0 as nat
    }

    proof fn lemma_constants() {
    }

    fn is_valid(&self) -> (valid: bool) {
        Self::VALID_RANGE.0 <= self.0 && self.0 <= Self::VALID_RANGE.1
    }

    fn is_specific(&self) -> (specific: bool) {
        Self::SPECIFIC_RANGE.0 <= self.0 && self.0 <= Self::SPECIFIC_RANGE.1
    }

    fn is_error(&self) -> (error: bool) {
        Self::ERROR_RANGE.0 <= self.0 && self.0 <= Self::ERROR_RANGE.1
    }

    fn is_not_available(&self) -> (not_available: bool) {
        Self::NOT_AVAILABLE_RANGE.0 <= self.0 && self.0 <= Self::NOT_AVAILABLE_RANGE.1
    }
}

/// A signal of 28 bits.
#[derive(Clone, Copy, Debug, PartialEq, Eq, Structural)]
pub struct U28(pub u32);

impl Signal<u32> for U28 {
    const BITS: u8 = 28;

    const VALID_RANGE: (u32, u32) = (0x000_0000, 0xFAF_FFFF);

    const SPECIFIC_RANGE: (u32, u32) = (0xFB0_0000, 0xFBF_FFFF);

    const ERROR_RANGE: (u32, u32) = (0xFE0_0000, 0xFEF_FFFF);

    const NOT_AVAILABLE_RANGE: (u32, u32) = (0xFF0_0000, 0xFFF_FFFF);

    open spec fn spec_bits() -> nat {
        28
    }

    open spec fn number(raw: u32) -> nat {
        raw as nat
    }

    open spec fn spec_value(&self) -> nat {
        self.0 as nat
    }

    proof fn lemma_constants() {
    }

    fn is_valid(&self) -> (valid: bool) {
        Self::VALID_RANGE.0 <= self.0 && self.0 <= Self::VALID_RANGE.1
    }

    fn is_specific(&self) -> (specific: bool) {
        Self::SPECIFIC_RANGE.0 <= self.0 && self.0 <= Self::SPECIFIC_RANGE.1
    }

    fn is_error(&self) -> (error: bool) {
        Self::ERROR_RANGE.0 <= self.0 && self.0 <= Self::ERROR_RANGE.1
    }

    fn is_not_available(&self) -> (not_available: bool) {
        Self::NOT_AVAILABLE_RANGE.0 <= self.0 && self.0 <= Self::NOT_AVAILABLE_RANGE.1
    }
}

/// A signal of 32 bits.
#[derive(Clone, Copy, Debug, PartialEq, Eq, Structural)]
pub struct U32(pub u32);

impl Signal<u32> for U32 {
    const BITS: u8 = 32;

    const VALID_RANGE: (u32, u32) = (0x0000_0000, 0xFAFF_FFFF);

    const SPECIFIC_RANGE: (u32, u32) = (0xFB00_0000, 0xFBFF_FFFF);

    const ERROR_RANGE: (u32, u32) = (0xFE00_0000, 0xFEFF_FFFF);

    const NOT_AVAILABLE_RANGE: (u32, u32) = (0xFF00_0000, 0xFFFF_FFFF);

    open spec fn spec_bits() -> nat {
        32
    }

    open spec fn number(raw: u32) -> nat {
        raw as nat
    }

    open spec fn spec_value(&self) -> nat {
        self.0 as nat
    }

    proof fn lemma_constants() {
    }

    fn is_valid(&self) -> (valid: bool) {
        Self::VALID_RANGE.0 <= self.0 && self.0 <= Self::VALID_RANGE.1
    }

    fn is_specific(&self) -> (specific: bool) {
        Self::SPECIFIC_RANGE.0 <= self.0 && self.0 <= Self::SPECIFIC_RANGE.1
    }

    fn is_error(&self) -> (error: bool) {
        Self::ERROR_RANGE.0 <= self.0 && self.0 <= Self::ERROR_RANGE.1
    }

    fn is_not_available(&self) -> (not_available: bool) {
        Self::NOT_AVAILABLE_RANGE.0 <= self.0 && self.0 <= Self::NOT_AVAILABLE_RANGE.1
    }
}

} // verus!
