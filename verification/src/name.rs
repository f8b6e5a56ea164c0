//! Network management: the 64-bit NAME of a controller application.
//!
//! A NAME is one 64-bit word. Counted from the least significant bit it holds
//!
//! | bits   | width | field                     |
//! |--------|-------|---------------------------|
//! | 0..20  | 21    | identity number           |
//! | 21..31 | 11    | manufacturer code         |
//! | 32..34 | 3     | ECU instance              |
//! | 35..39 | 5     | function instance         |
//! | 40..47 | 8     | function                  |
//! | 48     | 1     | reserved                  |
//! | 49..55 | 7     | vehicle system            |
//! | 56..59 | 4     | vehicle system instance   |
//! | 60..62 | 3     | industry group            |
//! | 63     | 1     | arbitrary address capable |
//!
//! On the wire the word travels as eight bytes, least significant byte first.

use bitfield::{BitRange, BitRangeMut};
use vstd::prelude::*;

verus! {

/// The bits `lsb..=msb` of `word`, moved down to bit 0.
spec fn bit_field(word: u64, msb: usize, lsb: usize) -> u64 {
    (word >> lsb) & (0xFFFF_FFFF_FFFF_FFFFu64 >> (63 - (msb - lsb)))
}

/// `word` with its bits `lsb..=msb` replaced by the low bits of `value`.
spec fn with_bit_field(word: u64, msb: usize, lsb: usize, value: u64) -> u64 {
    let mask = (0xFFFF_FFFF_FFFF_FFFFu64 >> (63 - (msb - lsb))) << lsb;
    (word & !mask) | ((value << lsb) & mask)
}

/// `bitfield::BitRange::<u64>::bit_range` on a `u64`: the bits `lsb..=msb`
/// of the word as a number. The crate shifts by `63 - msb` and by
/// `63 - (msb - lsb)`, so both must stay below 64.
#[verifier::external_body]
fn get_bit_range(word: u64, msb: usize, lsb: usize) -> (field: u64)
    requires
        lsb <= msb < 64,
    ensures
        field == bit_field(word, msb, lsb),
{
    word.bit_range(msb, lsb)
}

/// `bitfield::BitRangeMut::<u64>::set_bit_range` on a `u64`: the bits
/// `lsb..=msb` of the word take the low bits of `value`, the others stay.
#[verifier::external_body]
fn set_bit_range(word: &mut u64, msb: usize, lsb: usize, value: u64)
    requires
        lsb <= msb < 64,
    ensures
        *final(word) == with_bit_field(*old(word), msb, lsb, value),
{
    word.set_bit_range(msb, lsb, value)
}

/// Industry group assignment.
#[derive(Clone, Copy, Debug, PartialEq, Eq, Structural)]
pub enum IndustryGroup {
    /// Global, applies to all.
    Global,
    /// On-highway equipment.
    OnHighway,
    /// Agricultural and forestry equipment.
    AgriculturalAndForestry,
    /// Construction equipment.
    Construction,
    /// Marine equipment.
    Marine,
    /// Industrial-process control-stationary (gen-sets).
    IndustrialProcess,
}

impl IndustryGroup {
    /// The 3-bit code of the group. The codes 6 and 7 are reserved.
    pub open spec fn spec_code(self) -> u8 {
        match self {
            IndustryGroup::Global => 0,
            IndustryGroup::OnHighway => 1,
            IndustryGroup::AgriculturalAndForestry => 2,
            IndustryGroup::Construction => 3,
            IndustryGroup::Marine => 4,
            IndustryGroup::IndustrialProcess => 5,
        }
    }

    /// The group that a code stands for, if it stands for one.
    pub open spec fn from_code(code: u8) -> Option<IndustryGroup> {
        if code == 0 {
            Some(IndustryGroup::Global)
        } else if code == 1 {
            Some(IndustryGroup::OnHighway)
        } else if code == 2 {
            Some(IndustryGroup::AgriculturalAndForestry)
        } else if code == 3 {
            Some(IndustryGroup::Construction)
        } else if code == 4 {
            Some(IndustryGroup::Marine)
        } else if code == 5 {
            Some(IndustryGroup::IndustrialProcess)
        } else {
            None
        }
    }

    /// The 3-bit code of the group.
    #[verifier::when_used_as_spec(spec_code)]
    pub fn code(self) -> (code: u8)
        ensures
            code == self.spec_code(),
            code < 6,
    {
        match self {
            IndustryGroup::Global => 0,
            IndustryGroup::OnHighway => 1,
            IndustryGroup::AgriculturalAndForestry => 2,
            IndustryGroup::Construction => 3,
            IndustryGroup::Marine => 4,
            IndustryGroup::IndustrialProcess => 5,
        }
    }

    /// A group and its code determine each other.
    pub proof fn lemma_code_round_trip(group: IndustryGroup, code: u8)
        ensures
            IndustryGroup::from_code(group.spec_code()) == Some(group),
            IndustryGroup::from_code(code) == Some(group) <==> code == group.spec_code(),
            IndustryGroup::from_code(code) is None <==> code >= 6,
    {
    }
}

impl TryFrom<u8> for IndustryGroup {
    type Error = ();

    /// The group of a code; the reserved codes and all above them are refused.
    fn try_from(value: u8) -> (result: Result<Self, ()>) {
        match value {
            0 => Ok(IndustryGroup::Global),
            1 => Ok(IndustryGroup::OnHighway),
            2 => Ok(IndustryGroup::AgriculturalAndForestry),
            3 => Ok(IndustryGroup::Construction),
            4 => Ok(IndustryGroup::Marine),
            5 => Ok(IndustryGroup::IndustrialProcess),
            _ => Err(()),
        }
    }
}

impl vstd::std_specs::convert::TryFromSpecImpl<u8> for IndustryGroup {
    open spec fn obeys_try_from_spec() -> bool {
        true
    }

    open spec fn try_from_spec(value: u8) -> Result<Self, ()> {
        match IndustryGroup::from_code(value) {
            Some(group) => Ok(group),
            None => Err(()),
        }
    }
}

/// The field of a NAME whose value does not fit its width.
#[derive(Clone, Copy, Debug, PartialEq, Eq, Structural)]
pub enum OutOfRange {
    /// The identity number needs more than 21 bits.
    Identity,
    /// The manufacturer code needs more than 11 bits.
    ManufacturerCode,
    /// The ECU instance needs more than 3 bits.
    EcuInstance,
    /// The function instance needs more than 5 bits.
    FunctionInstance,
    /// The vehicle system needs more than 7 bits.
    VehicleSystem,
    /// The vehicle system instance needs more than 4 bits.
    VehicleSystemInstance,
}

/// The first field, in the order of the arguments, that is too wide for its
/// place. The function, the industry group and the address flag always fit.
pub open spec fn first_out_of_range(
    identity: u32,
    manufacturer_code: u16,
    ecu_instance: u8,
    function_instance: u8,
    vehicle_system: u8,
    vehicle_system_instance: u8,
) -> Option<OutOfRange> {
    if identity >= 0x20_0000 {
        Some(OutOfRange::Identity)
    } else if manufacturer_code >= 0x800 {
        Some(OutOfRange::ManufacturerCode)
    } else if ecu_instance >= 0x8 {
        Some(OutOfRange::EcuInstance)
    } else if function_instance >= 0x20 {
        Some(OutOfRange::FunctionInstance)
    } else if vehicle_system >= 0x80 {
        Some(OutOfRange::VehicleSystem)
    } else if vehicle_system_instance >= 0x10 {
        Some(OutOfRange::VehicleSystemInstance)
    } else {
        None
    }
}

/// The word that holds each field at its place and a zero reserved bit.
pub open spec fn packed(
    identity: u32,
    manufacturer_code: u16,
    ecu_instance: u8,
    function_instance: u8,
    function: u8,
    vehicle_system: u8,
    vehicle_system_instance: u8,
    industry_group: IndustryGroup,
    arbitrary_address_capable: bool,
) -> int {
    identity as int
        + manufacturer_code as int * 0x20_0000
        + ecu_instance as int * 0x1_0000_0000
        + function_instance as int * 0x8_0000_0000
        + function as int * 0x100_0000_0000
        + vehicle_system as int * 0x2_0000_0000_0000
        + vehicle_system_instance as int * 0x100_0000_0000_0000
        + industry_group.spec_code() as int * 0x1000_0000_0000_0000
        + if arbitrary_address_capable {
            0x8000_0000_0000_0000int
        } else {
            0int
        }
}

/// Bits 0..20 of a NAME word.
pub open spec fn identity_of(word: u64) -> u32 {
    (word % 0x20_0000) as u32
}

/// Bits 21..31 of a NAME word.
pub open spec fn manufacturer_code_of(word: u64) -> u16 {
    ((word / 0x20_0000) % 0x800) as u16
}

/// Bits 32..34 of a NAME word.
pub open spec fn ecu_instance_of(word: u64) -> u8 {
    ((word / 0x1_0000_0000) % 0x8) as u8
}

/// Bits 35..39 of a NAME word.
pub open spec fn function_instance_of(word: u64) -> u8 {
    ((word / 0x8_0000_0000) % 0x20) as u8
}

/// Bits 40..47 of a NAME word.
pub open spec fn function_of(word: u64) -> u8 {
    ((word / 0x100_0000_0000) % 0x100) as u8
}

/// Bit 48 of a NAME word, which no field uses.
pub open spec fn reserved_of(word: u64) -> bool {
    (word / 0x1_0000_0000_0000) % 2 == 1
}

/// Bits 49..55 of a NAME word.
pub open spec fn vehicle_system_of(word: u64) -> u8 {
    ((word / 0x2_0000_0000_0000) % 0x80) as u8
}

/// Bits 56..59 of a NAME word.
pub open spec fn vehicle_system_instance_of(word: u64) -> u8 {
    ((word / 0x100_0000_0000_0000) % 0x10) as u8
}

/// Bits 60..62 of a NAME word.
pub open spec fn industry_group_code_of(word: u64) -> u8 {
    ((word / 0x1000_0000_0000_0000) % 0x8) as u8
}

/// Bit 63 of a NAME word.
pub open spec fn arbitrary_address_capable_of(word: u64) -> bool {
    word / 0x8000_0000_0000_0000 == 1
}

/// The eight bytes of a word, least significant first.
pub open spec fn le_bytes(word: u64) -> Seq<u8> {
    seq![
        (word % 0x100) as u8,
        ((word / 0x100) % 0x100) as u8,
        ((word / 0x1_0000) % 0x100) as u8,
        ((word / 0x100_0000) % 0x100) as u8,
        ((word / 0x1_0000_0000) % 0x100) as u8,
        ((word / 0x100_0000_0000) % 0x100) as u8,
        ((word / 0x1_0000_0000_0000) % 0x100) as u8,
        ((word / 0x100_0000_0000_0000) % 0x100) as u8,
    ]
}

/// The word that eight bytes stand for, least significant first.
pub open spec fn from_le_bytes(bytes: Seq<u8>) -> int
    recommends
        bytes.len() == 8,
{
    bytes[0] as int
        + bytes[1] as int * 0x100
        + bytes[2] as int * 0x1_0000
        + bytes[3] as int * 0x100_0000
        + bytes[4] as int * 0x1_0000_0000
        + bytes[5] as int * 0x100_0000_0000
        + bytes[6] as int * 0x1_0000_0000_0000
        + bytes[7] as int * 0x100_0000_0000_0000
}

/// What putting a fitting value into an empty place does to the number.
proof fn lemma_places_filled(word: u64, value: u64)
    by (bit_vector)
    ensures
        value < 0x20_0000 ==> with_bit_field(0, 20, 0, value) == value,
        word < 0x20_0000 && value < 0x800 ==> with_bit_field(word, 31, 21, value) == word + value
            * 0x20_0000,
        word < 0x1_0000_0000 && value < 0x8 ==> with_bit_field(word, 34, 32, value) == word
            + value * 0x1_0000_0000,
        word < 0x8_0000_0000 && value < 0x20 ==> with_bit_field(word, 39, 35, value) == word
            + value * 0x8_0000_0000,
        word < 0x100_0000_0000 && value < 0x100 ==> with_bit_field(word, 47, 40, value) == word
            + value * 0x100_0000_0000,
        word < 0x1_0000_0000_0000 && value < 0x80 ==> with_bit_field(word, 55, 49, value) == word
            + value * 0x2_0000_0000_0000,
        word < 0x100_0000_0000_0000 && value < 0x10 ==> with_bit_field(word, 59, 56, value)
            == word + value * 0x100_0000_0000_0000,
        word < 0x1000_0000_0000_0000 && value < 0x8 ==> with_bit_field(word, 62, 60, value)
            == word + value * 0x1000_0000_0000_0000,
        word < 0x8000_0000_0000_0000 && value < 0x2 ==> with_bit_field(word, 63, 63, value)
            == word + value * 0x8000_0000_0000_0000,
{
}

/// What the bits of each place are as a number.
proof fn lemma_places_read(word: u64)
    by (bit_vector)
    ensures
        bit_field(word, 20, 0) == word % 0x20_0000,
        bit_field(word, 31, 21) == (word / 0x20_0000) % 0x800,
        bit_field(word, 34, 32) == (word / 0x1_0000_0000) % 0x8,
        bit_field(word, 39, 35) == (word / 0x8_0000_0000) % 0x20,
        bit_field(word, 47, 40) == (word / 0x100_0000_0000) % 0x100,
        bit_field(word, 55, 49) == (word / 0x2_0000_0000_0000) % 0x80,
        bit_field(word, 59, 56) == (word / 0x100_0000_0000_0000) % 0x10,
        bit_field(word, 62, 60) == (word / 0x1000_0000_0000_0000) % 0x8,
        bit_field(word, 63, 63) == word / 0x8000_0000_0000_0000,
{
}

/// Fields that fit their places can be read back from their sum.
proof fn lemma_sum_read(
    word: u64,
    identity: u64,
    manufacturer_code: u64,
    ecu_instance: u64,
    function_instance: u64,
    function: u64,
    vehicle_system: u64,
    vehicle_system_instance: u64,
    industry_group: u64,
    flag: u64,
)
    by (bit_vector)
    requires
        identity < 0x20_0000,
        manufacturer_code < 0x800,
        ecu_instance < 0x8,
        function_instance < 0x20,
        function < 0x100,
        vehicle_system < 0x80,
        vehicle_system_instance < 0x10,
        industry_group < 0x8,
        flag < 0x2,
        word == identity + manufacturer_code * 0x20_0000 + ecu_instance * 0x1_0000_0000
            + function_instance * 0x8_0000_0000 + function * 0x100_0000_0000 + vehicle_system
            * 0x2_0000_0000_0000 + vehicle_system_instance * 0x100_0000_0000_0000
            + industry_group * 0x1000_0000_0000_0000 + flag * 0x8000_0000_0000_0000,
    ensures
        word % 0x20_0000 == identity,
        (word / 0x20_0000) % 0x800 == manufacturer_code,
        (word / 0x1_0000_0000) % 0x8 == ecu_instance,
        (word / 0x8_0000_0000) % 0x20 == function_instance,
        (word / 0x100_0000_0000) % 0x100 == function,
        (word / 0x1_0000_0000_0000) % 0x2 == 0,
        (word / 0x2_0000_0000_0000) % 0x80 == vehicle_system,
        (word / 0x100_0000_0000_0000) % 0x10 == vehicle_system_instance,
        (word / 0x1000_0000_0000_0000) % 0x8 == industry_group,
        word / 0x8000_0000_0000_0000 == flag,
{
}

/// A word is the sum of what stands at its ten places.
proof fn lemma_word_split(word: u64)
    by (bit_vector)
    ensures
        word == word % 0x20_0000 + ((word / 0x20_0000) % 0x800) * 0x20_0000 + ((word
            / 0x1_0000_0000) % 0x8) * 0x1_0000_0000 + ((word / 0x8_0000_0000) % 0x20)
            * 0x8_0000_0000 + ((word / 0x100_0000_0000) % 0x100) * 0x100_0000_0000 + ((word
            / 0x1_0000_0000_0000) % 0x2) * 0x1_0000_0000_0000 + ((word / 0x2_0000_0000_0000)
            % 0x80) * 0x2_0000_0000_0000 + ((word / 0x100_0000_0000_0000) % 0x10)
            * 0x100_0000_0000_0000 + ((word / 0x1000_0000_0000_0000) % 0x8)
            * 0x1000_0000_0000_0000 + (word / 0x8000_0000_0000_0000) * 0x8000_0000_0000_0000,
        (word / 0x1_0000_0000_0000) % 0x2 < 2,
        word / 0x8000_0000_0000_0000 < 2,
{
}

/// Eight bytes can be read back from the word they make.
proof fn lemma_bytes_read(
    word: u64,
    b0: u64,
    b1: u64,
    b2: u64,
    b3: u64,
    b4: u64,
    b5: u64,
    b6: u64,
    b7: u64,
)
    by (bit_vector)
    requires
        b0 < 0x100,
        b1 < 0x100,
        b2 < 0x100,
        b3 < 0x100,
        b4 < 0x100,
        b5 < 0x100,
        b6 < 0x100,
        b7 < 0x100,
        word == b0 + b1 * 0x100 + b2 * 0x1_0000 + b3 * 0x100_0000 + b4 * 0x1_0000_0000 + b5
            * 0x100_0000_0000 + b6 * 0x1_0000_0000_0000 + b7 * 0x100_0000_0000_0000,
    ensures
        word % 0x100 == b0,
        (word / 0x100) % 0x100 == b1,
        (word / 0x1_0000) % 0x100 == b2,
        (word / 0x100_0000) % 0x100 == b3,
        (word / 0x1_0000_0000) % 0x100 == b4,
        (word / 0x100_0000_0000) % 0x100 == b5,
        (word / 0x1_0000_0000_0000) % 0x100 == b6,
        (word / 0x100_0000_0000_0000) % 0x100 == b7,
{
}

/// A word is the sum of its eight bytes, each at its place.
proof fn lemma_bytes_split(word: u64)
    by (bit_vector)
    ensures
        word == word % 0x100 + ((word / 0x100) % 0x100) * 0x100 + ((word / 0x1_0000) % 0x100)
            * 0x1_0000 + ((word / 0x100_0000) % 0x100) * 0x100_0000 + ((word / 0x1_0000_0000)
            % 0x100) * 0x1_0000_0000 + ((word / 0x100_0000_0000) % 0x100) * 0x100_0000_0000 + ((
        word / 0x1_0000_0000_0000) % 0x100) * 0x1_0000_0000_0000 + ((word
            / 0x100_0000_0000_0000) % 0x100) * 0x100_0000_0000_0000,
{
}

/// Each field read from a packed word is the value that was packed there,
/// and the reserved bit of a packed word is zero.
pub proof fn lemma_fields_of_packed(
    identity: u32,
    manufacturer_code: u16,
    ecu_instance: u8,
    function_instance: u8,
    function: u8,
    vehicle_system: u8,
    vehicle_system_instance: u8,
    industry_group: IndustryGroup,
    arbitrary_address_capable: bool,
)
    requires
        first_out_of_range(
            identity,
            manufacturer_code,
            ecu_instance,
            function_instance,
            vehicle_system,
            vehicle_system_instance,
        ) is None,
    ensures
        ({
            let word = packed(
                identity,
                manufacturer_code,
                ecu_instance,
                function_instance,
                function,
                vehicle_system,
                vehicle_system_instance,
                industry_group,
                arbitrary_address_capable,
            );
            &&& 0 <= word <= u64::MAX
            &&& identity_of(word as u64) == identity
            &&& manufacturer_code_of(word as u64) == manufacturer_code
            &&& ecu_instance_of(word as u64) == ecu_instance
            &&& function_instance_of(word as u64) == function_instance
            &&& function_of(word as u64) == function
            &&& !reserved_of(word as u64)
            &&& vehicle_system_of(word as u64) == vehicle_system
            &&& vehicle_system_instance_of(word as u64) == vehicle_system_instance
            &&& IndustryGroup::from_code(industry_group_code_of(word as u64)) == Some(
                industry_group,
            )
            &&& arbitrary_address_capable_of(word as u64) == arbitrary_address_capable
        }),
{
    let word = packed(
        identity,
        manufacturer_code,
        ecu_instance,
        function_instance,
        function,
        vehicle_system,
        vehicle_system_instance,
        industry_group,
        arbitrary_address_capable,
    );
    let flag: u64 = if arbitrary_address_capable {
        1
    } else {
        0
    };
    lemma_sum_read(
        word as u64,
        identity as u64,
        manufacturer_code as u64,
        ecu_instance as u64,
        function_instance as u64,
        function as u64,
        vehicle_system as u64,
        vehicle_system_instance as u64,
        industry_group.spec_code() as u64,
        flag,
    );
}

/// A word is the sum of its fields and its reserved bit, each at its place:
/// the ten places cover the 64 bits and do not overlap.
pub proof fn lemma_word_of_fields(word: u64)
    ensures
        word == identity_of(word) as int
            + manufacturer_code_of(word) as int * 0x20_0000
            + ecu_instance_of(word) as int * 0x1_0000_0000
            + function_instance_of(word) as int * 0x8_0000_0000
            + function_of(word) as int * 0x100_0000_0000
            + (if reserved_of(word) { 0x1_0000_0000_0000int } else { 0int })
            + vehicle_system_of(word) as int * 0x2_0000_0000_0000
            + vehicle_system_instance_of(word) as int * 0x100_0000_0000_0000
            + industry_group_code_of(word) as int * 0x1000_0000_0000_0000
            + (if arbitrary_address_capable_of(word) { 0x8000_0000_0000_0000int } else { 0int }),
{
    lemma_word_split(word);
}

/// Eight bytes read as a word and written out again are the same bytes.
pub proof fn lemma_bytes_round_trip(bytes: Seq<u8>)
    requires
        bytes.len() == 8,
    ensures
        0 <= from_le_bytes(bytes) <= u64::MAX,
        le_bytes(from_le_bytes(bytes) as u64) == bytes,
{
    lemma_bytes_read(
        from_le_bytes(bytes) as u64,
        bytes[0] as u64,
        bytes[1] as u64,
        bytes[2] as u64,
        bytes[3] as u64,
        bytes[4] as u64,
        bytes[5] as u64,
        bytes[6] as u64,
        bytes[7] as u64,
    );
    assert(le_bytes(from_le_bytes(bytes) as u64) =~= bytes);
}

/// A word written out as eight bytes and read again is the same word.
pub proof fn lemma_word_round_trip(word: u64)
    ensures
        le_bytes(word).len() == 8,
        from_le_bytes(le_bytes(word)) == word,
{
    lemma_bytes_split(word);
}

/// NAME definition.
#[derive(Clone, Copy, Debug, PartialEq, Eq, Structural)]
pub struct Name(u64);

impl View for Name {
    type V = u64;

    /// The 64-bit word of the NAME.
    closed spec fn view(&self) -> u64 {
        self.0
    }
}

impl Name {
    /// Packs the nine fields into a NAME. A value that does not fit the
    /// width of its field is refused, and the first such field, in the order
    /// of the arguments, is named.
    pub fn new(
        identity: u32,
        manufacturer_code: u16,
        ecu_instance: u8,
        function_instance: u8,
        function: u8,
        vehicle_system: u8,
        vehicle_system_instance: u8,
        industry_group: IndustryGroup,
        arbitrary_address_capable: bool,
    ) -> (result: Result<Name, OutOfRange>)
        ensures
            match result {
                Ok(name) => first_out_of_range(
                    identity,
                    manufacturer_code,
                    ecu_instance,
                    function_instance,
                    vehicle_system,
                    vehicle_system_instance,
                ) is None && name@ == packed(
                    identity,
                    manufacturer_code,
                    ecu_instance,
                    function_instance,
                    function,
                    vehicle_system,
                    vehicle_system_instance,
                    industry_group,
                    arbitrary_address_capable,
                ),
                Err(field) => first_out_of_range(
                    identity,
                    manufacturer_code,
                    ecu_instance,
                    function_instance,
                    vehicle_system,
                    vehicle_system_instance,
                ) == Some(field),
            },
    {
        let mut word: u64 = 0;

        if identity < 0x20_0000 {
            proof {
                lemma_places_filled(word, identity as u64);
            }
            set_bit_range(&mut word, 20, 0, identity as u64);
        } else {
            return Err(OutOfRange::Identity);
        }

        if manufacturer_code < 0x800 {
            proof {
                lemma_places_filled(word, manufacturer_code as u64);
            }
            set_bit_range(&mut word, 31, 21, manufacturer_code as u64);
        } else {
            return Err(OutOfRange::ManufacturerCode);
        }

        if ecu_instance < 0x8 {
            proof {
                lemma_places_filled(word, ecu_instance as u64);
            }
            set_bit_range(&mut word, 34, 32, ecu_instance as u64);
        } else {
            return Err(OutOfRange::EcuInstance);
        }

        if function_instance < 0x20 {
            proof {
                lemma_places_filled(word, function_instance as u64);
            }
            set_bit_range(&mut word, 39, 35, function_instance as u64);
        } else {
            return Err(OutOfRange::FunctionInstance);
        }

        proof {
            lemma_places_filled(word, function as u64);
        }
        set_bit_range(&mut word, 47, 40, function as u64);

        if vehicle_system < 0x80 {
            proof {
                lemma_places_filled(word, vehicle_system as u64);
            }
            set_bit_range(&mut word, 55, 49, vehicle_system as u64);
        } else {
            return Err(OutOfRange::VehicleSystem);
        }

        if vehicle_system_instance < 0x10 {
            proof {
                lemma_places_filled(word, vehicle_system_instance as u64);
            }
            set_bit_range(&mut word, 59, 56, vehicle_system_instance as u64);
        } else {
            return Err(OutOfRange::VehicleSystemInstance);
        }

        let group: u8 = industry_group.code();
        proof {
            lemma_places_filled(word, group as u64);
        }
        set_bit_range(&mut word, 62, 60, group as u64);

        let flag: u64 = if arbitrary_address_capable {
            1
        } else {
            0
        };
        proof {
            lemma_places_filled(word, flag);
        }
        set_bit_range(&mut word, 63, 63, flag);

        Ok(Name(word))
    }

    /// The NAME that eight bytes of the wire stand for, least significant
    /// byte first. Every eight bytes are a NAME.
    pub fn from_raw(raw: [u8; 8]) -> (name: Name)
        ensures
            name@ == from_le_bytes(raw@),
    {
        let b0: u64 = raw[0] as u64;
        let b1: u64 = raw[1] as u64;
        let b2: u64 = raw[2] as u64;
        let b3: u64 = raw[3] as u64;
        let b4: u64 = raw[4] as u64;
        let b5: u64 = raw[5] as u64;
        let b6: u64 = raw[6] as u64;
        let b7: u64 = raw[7] as u64;
        Name(
            b0 + b1 * 0x100 + b2 * 0x1_0000 + b3 * 0x100_0000 + b4 * 0x1_0000_0000 + b5
                * 0x100_0000_0000 + b6 * 0x1_0000_0000_0000 + b7 * 0x100_0000_0000_0000,
        )
    }

    /// The eight bytes of the NAME on the wire, least significant byte first.
    pub fn as_raw(&self) -> (raw: [u8; 8])
        ensures
            raw@ == le_bytes(self@),
    {
        let word: u64 = self.0;
        let raw: [u8; 8] = [
            (word % 0x100) as u8,
            ((word / 0x100) % 0x100) as u8,
            ((word / 0x1_0000) % 0x100) as u8,
            ((word / 0x100_0000) % 0x100) as u8,
            ((word / 0x1_0000_0000) % 0x100) as u8,
            ((word / 0x100_0000_0000) % 0x100) as u8,
            ((word / 0x1_0000_0000_0000) % 0x100) as u8,
            ((word / 0x100_0000_0000_0000) % 0x100) as u8,
        ];
        assert(raw@ =~= le_bytes(word));
        raw
    }

    /// A 21-bit field assigned by the manufacturer, unique across its units.
    pub fn identity(&self) -> (identity: u32)
        ensures
            identity == identity_of(self@),
    {
        proof {
            lemma_places_read(self.0);
        }
        get_bit_range(self.0, 20, 0) as u32
    }

    /// An 11-bit field indicating the company that made the electronic
    /// control module.
    pub fn manufacturer_code(&self) -> (manufacturer_code: u16)
        ensures
            manufacturer_code == manufacturer_code_of(self@),
    {
        proof {
            lemma_places_read(self.0);
        }
        get_bit_range(self.0, 31, 21) as u16
    }

    /// A 3-bit field that tells which of a group of electronic control
    /// modules is meant.
    pub fn ecu_instance(&self) -> (ecu_instance: u8)
        ensures
            ecu_instance == ecu_instance_of(self@),
    {
        proof {
            lemma_places_read(self.0);
        }
        get_bit_range(self.0, 34, 32) as u8
    }

    /// A 5-bit field identifying the instance of a function on the same
    /// vehicle system of a network.
    pub fn function_instance(&self) -> (function_instance: u8)
        ensures
            function_instance == function_instance_of(self@),
    {
        proof {
            lemma_places_read(self.0);
        }
        get_bit_range(self.0, 39, 35) as u8
    }

    /// An 8-bit field defining the function of the controller application.
    pub fn function(&self) -> (function: u8)
        ensures
            function == function_of(self@),
    {
        proof {
            lemma_places_read(self.0);
        }
        get_bit_range(self.0, 47, 40) as u8
    }

    /// A 7-bit field identifying the vehicle system or system group that the
    /// controller application belongs to.
    pub fn vehicle_system(&self) -> (vehicle_system: u8)
        ensures
            vehicle_system == vehicle_system_of(self@),
    {
        proof {
            lemma_places_read(self.0);
        }
        get_bit_range(self.0, 55, 49) as u8
    }

    /// A 4-bit field identifying the instance of a vehicle system within a
    /// network.
    pub fn vehicle_system_instance(&self) -> (vehicle_system_instance: u8)
        ensures
            vehicle_system_instance == vehicle_system_instance_of(self@),
    {
        proof {
            lemma_places_read(self.0);
        }
        get_bit_range(self.0, 59, 56) as u8
    }

    /// A 3-bit field telling which industry group the function belongs to.
    /// The reserved codes 6 and 7 stand for no group.
    pub fn industry_group(&self) -> (industry_group: Option<IndustryGroup>)
        ensures
            industry_group == IndustryGroup::from_code(industry_group_code_of(self@)),
    {
        proof {
            lemma_places_read(self.0);
        }
        let code: u8 = get_bit_range(self.0, 62, 60) as u8;
        match IndustryGroup::try_from(code) {
            Ok(group) => Some(group),
            Err(_) => None,
        }
    }

    /// A 1-bit field telling whether the controller application can take
    /// an arbitrary source address to resolve an address claim conflict.
    pub fn arbitrary_address_capable(&self) -> (capable: bool)
        ensures
            capable == arbitrary_address_capable_of(self@),
    {
        proof {
            lemma_places_read(self.0);
        }
        get_bit_range(self.0, 63, 63) == 1
    }
}

} // verus!
