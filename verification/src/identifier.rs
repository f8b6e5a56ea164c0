//! J1939 fields of CAN identifiers.
//!
//! A standard identifier has 11 bits: the priority in bits 8..10 and the
//! source address in bits 0..7. An extended identifier has 29 bits:
//!
//! | bits   | width | field              |
//! |--------|-------|--------------------|
//! | 0..7   | 8     | source address     |
//! | 8..15  | 8     | PDU specific       |
//! | 16..23 | 8     | PDU format         |
//! | 24     | 1     | data page          |
//! | 25     | 1     | extended data page |
//! | 26..28 | 3     | priority           |
//!
//! Bits above the width of an identifier are not looked at.

use embedded_can::{ExtendedId, Id, StandardId};
use vstd::prelude::*;

verus! {

/// `embedded_can::StandardId`. What it holds is read through `as_raw` only.
#[verifier::external_type_specification]
#[verifier::external_body]
pub struct ExStandardId(StandardId);

/// `embedded_can::ExtendedId`. What it holds is read through `as_raw` only.
#[verifier::external_type_specification]
#[verifier::external_body]
pub struct ExExtendedId(ExtendedId);

/// `embedded_can::Id`, with its two variants as the crate defines them.
#[verifier::external_type_specification]
pub struct ExId(Id);

/// The raw value that a standard identifier carries.
pub uninterp spec fn standard_raw(id: StandardId) -> u16;

/// The raw value that an extended identifier carries.
pub uninterp spec fn extended_raw(id: ExtendedId) -> u32;

/// `StandardId::as_raw` hands out the raw value of the identifier. It reads
/// a field and cannot fail.
pub assume_specification[ StandardId::as_raw ](id: &StandardId) -> (raw: u16)
    ensures
        raw == standard_raw(*id),
;

/// `ExtendedId::as_raw` hands out the raw value of the identifier. It reads
/// a field and cannot fail.
pub assume_specification[ ExtendedId::as_raw ](id: &ExtendedId) -> (raw: u32)
    ensures
        raw == extended_raw(*id),
;

/// Bits 8..10 of a standard identifier.
pub open spec fn standard_priority_of(raw: u16) -> u8 {
    ((raw / 0x100) % 0x8) as u8
}

/// Bits 0..7 of a standard identifier.
pub open spec fn standard_source_address_of(raw: u16) -> u8 {
    (raw % 0x100) as u8
}

/// Bits 26..28 of an extended identifier.
pub open spec fn extended_priority_of(raw: u32) -> u8 {
    ((raw / 0x400_0000) % 0x8) as u8
}

/// Bit 25 of an extended identifier.
pub open spec fn extended_data_page_of(raw: u32) -> bool {
    (raw / 0x200_0000) % 0x2 == 1
}

/// Bit 24 of an extended identifier.
pub open spec fn data_page_of(raw: u32) -> bool {
    (raw / 0x100_0000) % 0x2 == 1
}

/// Bits 16..23 of an extended identifier.
pub open spec fn pdu_format_of(raw: u32) -> u8 {
    ((raw / 0x1_0000) % 0x100) as u8
}

/// Bits 8..15 of an extended identifier.
pub open spec fn pdu_specific_of(raw: u32) -> u8 {
    ((raw / 0x100) % 0x100) as u8
}

/// Bits 0..7 of an extended identifier.
pub open spec fn extended_source_address_of(raw: u32) -> u8 {
    (raw % 0x100) as u8
}

/// The destination address of a peer-to-peer message: the PDU specific field
/// where the PDU format is at most 239.
pub open spec fn destination_address_of(raw: u32) -> Option<u8> {
    if pdu_format_of(raw) <= 239 {
        Some(pdu_specific_of(raw))
    } else {
        None
    }
}

/// The group extension of a broadcast message: the PDU specific field where
/// the PDU format is at least 240.
pub open spec fn group_extension_of(raw: u32) -> Option<u8> {
    if pdu_format_of(raw) >= 240 {
        Some(pdu_specific_of(raw))
    } else {
        None
    }
}

/// What the shifted and masked bits of a standard identifier are as numbers.
proof fn lemma_standard_bits(raw: u16)
    by (bit_vector)
    ensures
        (raw >> 8) & 0b111 == (raw / 0x100) % 0x8,
        raw & 0xFF == raw % 0x100,
        raw <= 0x7FF ==> raw == ((raw / 0x100) % 0x8) * 0x100 + raw % 0x100,
{
}

/// What the shifted and masked bits of an extended identifier are as numbers.
proof fn lemma_extended_bits(raw: u32)
    by (bit_vector)
    ensures
        (raw >> 26) & 0b111 == (raw / 0x400_0000) % 0x8,
        (raw >> 25) & 1 == (raw / 0x200_0000) % 0x2,
        (raw >> 24) & 1 == (raw / 0x100_0000) % 0x2,
        (raw >> 16) & 0xFF == (raw / 0x1_0000) % 0x100,
        (raw >> 8) & 0xFF == (raw / 0x100) % 0x100,
        raw & 0xFF == raw % 0x100,
        raw <= 0x1FFF_FFFF ==> raw == ((raw / 0x400_0000) % 0x8) * 0x400_0000 + ((raw
            / 0x200_0000) % 0x2) * 0x200_0000 + ((raw / 0x100_0000) % 0x2) * 0x100_0000 + ((raw
            / 0x1_0000) % 0x100) * 0x1_0000 + ((raw / 0x100) % 0x100) * 0x100 + raw % 0x100,
{
}

/// A standard identifier of at most 11 bits is made of its two fields.
pub proof fn lemma_standard_fields(raw: u16)
    requires
        raw <= 0x7FF,
    ensures
        raw == standard_priority_of(raw) as int * 0x100 + standard_source_address_of(raw) as int,
{
    lemma_standard_bits(raw);
}

/// An extended identifier of at most 29 bits is made of its six fields.
pub proof fn lemma_extended_fields(raw: u32)
    requires
        raw <= 0x1FFF_FFFF,
    ensures
        raw == extended_priority_of(raw) as int * 0x400_0000 + (if extended_data_page_of(raw) {
            0x200_0000int
        } else {
            0int
        }) + (if data_page_of(raw) {
            0x100_0000int
        } else {
            0int
        }) + pdu_format_of(raw) as int * 0x1_0000 + pdu_specific_of(raw) as int * 0x100
            + extended_source_address_of(raw) as int,
{
    lemma_extended_bits(raw);
}

/// Every extended identifier has a destination address or a group extension,
/// never both, and the one it has is its PDU specific field.
pub proof fn lemma_addressing(raw: u32)
    ensures
        destination_address_of(raw) is Some <==> group_extension_of(raw) is None,
        destination_address_of(raw) is Some <==> pdu_format_of(raw) <= 239,
        destination_address_of(raw) is Some ==> destination_address_of(raw) == Some(
            pdu_specific_of(raw),
        ),
        group_extension_of(raw) is Some ==> group_extension_of(raw) == Some(
            pdu_specific_of(raw),
        ),
{
}

/// Message priority of a raw standard identifier.
pub fn standard_priority(raw: u16) -> (priority: u8)
    ensures
        priority == standard_priority_of(raw),
{
    proof {
        lemma_standard_bits(raw);
    }
    ((raw >> 8) & 0b111) as u8
}

/// Message source address of a raw standard identifier.
pub fn standard_source_address(raw: u16) -> (address: u8)
    ensures
        address == standard_source_address_of(raw),
{
    proof {
        lemma_standard_bits(raw);
    }
    (raw & 0xFF) as u8
}

/// Message priority of a raw extended identifier.
pub fn extended_priority(raw: u32) -> (priority: u8)
    ensures
        priority == extended_priority_of(raw),
{
    proof {
        lemma_extended_bits(raw);
    }
    ((raw >> 26) & 0b111) as u8
}

/// Message source address of a raw extended identifier.
pub fn extended_source_address(raw: u32) -> (address: u8)
    ensures
        address == extended_source_address_of(raw),
{
    proof {
        lemma_extended_bits(raw);
    }
    (raw & 0xFF) as u8
}

/// PDU specific field of a raw extended identifier.
pub fn pdu_specific(raw: u32) -> (specific: u8)
    ensures
        specific == pdu_specific_of(raw),
{
    proof {
        lemma_extended_bits(raw);
    }
    ((raw >> 8) & 0xFF) as u8
}

/// PDU format field of a raw extended identifier.
pub fn pdu_format(raw: u32) -> (format: u8)
    ensures
        format == pdu_format_of(raw),
{
    proof {
        lemma_extended_bits(raw);
    }
    ((raw >> 16) & 0xFF) as u8
}

/// Data page bit of a raw extended identifier.
pub fn data_page(raw: u32) -> (page: bool)
    ensures
        page == data_page_of(raw),
{
    proof {
        lemma_extended_bits(raw);
    }
    ((raw >> 24) & 1) == 1
}

/// Extended data page bit of a raw extended identifier.
pub fn extended_data_page(raw: u32) -> (page: bool)
    ensures
        page == extended_data_page_of(raw),
{
    proof {
        lemma_extended_bits(raw);
    }
    ((raw >> 25) & 1) == 1
}

/// Destination address of a raw extended identifier, if the message is
/// addressed to one node.
pub fn destination_address(raw: u32) -> (address: Option<u8>)
    ensures
        address == destination_address_of(raw),
{
    let format: u8 = pdu_format(raw);
    if format <= 239 {
        Some(pdu_specific(raw))
    } else {
        None
    }
}

/// Group extension of a raw extended identifier, if the message is a
/// broadcast.
pub fn group_extension(raw: u32) -> (extension: Option<u8>)
    ensures
        extension == group_extension_of(raw),
{
    let format: u8 = pdu_format(raw);
    if format <= 239 {
        None
    } else {
        Some(pdu_specific(raw))
    }
}

pub trait SourceAddress {
    /// The source address that the identifier holds.
    spec fn spec_source_address(&self) -> u8;

    /// Message source address.
    fn source_address(&self) -> (address: u8)
        ensures
            address == self.spec_source_address(),
    ;
}

pub trait Priority {
    /// The priority that the identifier holds.
    spec fn spec_priority(&self) -> u8;

    /// Message priority.
    fn priority(&self) -> (priority: u8)
        ensures
            priority == self.spec_priority(),
    ;
}

/// Standard 11-bit identifier.
pub trait Standard {

}

/// Extended 29-bit identifier.
pub trait Extended {
    /// The raw value whose fields the identifier holds.
    spec fn spec_raw(&self) -> u32;

    /// Destination address.
    fn destination_address(&self) -> (address: Option<u8>)
        ensures
            address == destination_address_of(self.spec_raw()),
    ;

    /// Group extension.
    fn group_extension(&self) -> (extension: Option<u8>)
        ensures
            extension == group_extension_of(self.spec_raw()),
    ;

    /// PDU specific.
    fn pdu_specific(&self) -> (specific: u8)
        ensures
            specific == pdu_specific_of(self.spec_raw()),
    ;

    /// PDU format.
    fn pdu_format(&self) -> (format: u8)
        ensures
            format == pdu_format_of(self.spec_raw()),
    ;

    /// Data page.
    fn data_page(&self) -> (page: bool)
        ensures
            page == data_page_of(self.spec_raw()),
    ;

    /// Extended data page.
    fn extended_data_page(&self) -> (page: bool)
        ensures
            page == extended_data_page_of(self.spec_raw()),
    ;
}

impl SourceAddress for StandardId {
    open spec fn spec_source_address(&self) -> u8 {
        standard_source_address_of(standard_raw(*self))
    }

    fn source_address(&self) -> (address: u8) {
        standard_source_address(self.as_raw())
    }
}

impl Priority for StandardId {
    open spec fn spec_priority(&self) -> u8 {
        standard_priority_of(standard_raw(*self))
    }

    fn priority(&self) -> (priority: u8) {
        standard_priority(self.as_raw())
    }
}

impl SourceAddress for ExtendedId {
    open spec fn spec_source_address(&self) -> u8 {
        extended_source_address_of(extended_raw(*self))
    }

    fn source_address(&self) -> (address: u8) {
        extended_source_address(self.as_raw())
    }
}

impl Priority for ExtendedId {
    open spec fn spec_priority(&self) -> u8 {
        extended_priority_of(extended_raw(*self))
    }

    fn priority(&self) -> (priority: u8) {
        extended_priority(self.as_raw())
    }
}

impl Extended for ExtendedId {
    open spec fn spec_raw(&self) -> u32 {
        extended_raw(*self)
    }

    fn destination_address(&self) -> (address: Option<u8>) {
        destination_address(self.as_raw())
    }

    fn group_extension(&self) -> (extension: Option<u8>) {
        group_extension(self.as_raw())
    }

    fn pdu_specific(&self) -> (specific: u8) {
        pdu_specific(self.as_raw())
    }

    fn pdu_format(&self) -> (format: u8) {
        pdu_format(self.as_raw())
    }

    fn data_page(&self) -> (page: bool) {
        data_page(self.as_raw())
    }

    fn extended_data_page(&self) -> (page: bool) {
        extended_data_page(self.as_raw())
    }
}

impl SourceAddress for Id {
    open spec fn spec_source_address(&self) -> u8 {
        match *self {
            Id::Standard(id) => id.spec_source_address(),
            Id::Extended(id) => id.spec_source_address(),
        }
    }

    fn source_address(&self) -> (address: u8) {
        match self {
            Id::Standard(id) => id.source_address(),
            Id::Extended(id) => id.source_address(),
        }
    }
}

impl Priority for Id {
    open spec fn spec_priority(&self) -> u8 {
        match *self {
            Id::Standard(id) => id.spec_priority(),
            Id::Extended(id) => id.spec_priority(),
        }
    }

    fn priority(&self) -> (priority: u8) {
        match self {
            Id::Standard(id) => id.priority(),
            Id::Extended(id) => id.priority(),
        }
    }
}

} // verus!
