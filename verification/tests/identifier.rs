use embedded_can::{ExtendedId, Id, StandardId};
use saelient::identifier::{
    data_page, destination_address, extended_data_page, extended_priority,
    extended_source_address, group_extension, pdu_format, pdu_specific, standard_priority,
    standard_source_address, Extended, Priority, SourceAddress,
};

#[test]
fn priority() {
    let id = Id::Standard(StandardId::new(0x755).unwrap());
    assert_eq!(id.priority(), 0b111);

    let id = Id::Standard(StandardId::new(0x555).unwrap());
    assert_eq!(id.priority(), 0b101);

    let id = Id::Extended(ExtendedId::new(0x1FFF_FFFF).unwrap());
    assert_eq!(id.priority(), 0b111);

    let id = Id::Extended(ExtendedId::new(0x17FF_FFFF).unwrap());
    assert_eq!(id.priority(), 0b101);
}

#[test]
fn std_source_address() {
    let standard = StandardId::new(0x755).unwrap();
    assert_eq!(standard.source_address(), 0x55);
}

#[test]
fn std_priority() {
    let standard = StandardId::new(0x755).unwrap();
    assert_eq!(standard.priority(), 0b111);
}

#[test]
fn ext_source_address() {
    let extended = ExtendedId::new(0x7665544).unwrap();
    assert_eq!(extended.source_address(), 0x44);
}

#[test]
fn ext_priority() {
    let extended = ExtendedId::new(0x1FFF_FFFF).unwrap();
    assert_eq!(extended.priority(), 0b111);
}

#[test]
fn ext_pdu_specific() {
    let extended = ExtendedId::new(0x7665544).unwrap();
    assert_eq!(extended.pdu_specific(), 0x55);
}

#[test]
fn ext_pdu_format() {
    let extended = ExtendedId::new(0x7665544).unwrap();
    assert_eq!(extended.pdu_format(), 0x66);
}

#[test]
fn ext_data_page() {
    let extended = ExtendedId::new(0x1FFF_FFFF).unwrap();
    assert_eq!(extended.data_page(), true);
}

#[test]
fn ext_extended_data_page() {
    let extended = ExtendedId::new(0x1FFF_FFFF).unwrap();
    assert_eq!(extended.extended_data_page(), true);
}

#[test]
fn id_source_address() {
    let id = Id::Standard(StandardId::new(0x755).unwrap());
    assert_eq!(id.source_address(), 0x55);
    let id = Id::Extended(ExtendedId::new(0x7665544).unwrap());
    assert_eq!(id.source_address(), 0x44);
}

#[test]
fn ext_peer_to_peer_has_a_destination() {
    let extended = ExtendedId::new(0x7665544).unwrap();
    assert_eq!(extended.destination_address(), Some(0x55));
    assert_eq!(extended.group_extension(), None);
}

#[test]
fn ext_broadcast_has_a_group_extension() {
    let extended = ExtendedId::new(0x18FE_F100).unwrap();
    assert_eq!(extended.pdu_format(), 0xFE);
    assert_eq!(extended.destination_address(), None);
    assert_eq!(extended.group_extension(), Some(0xF1));
}

#[test]
fn addressing_turns_at_pdu_format_240() {
    assert_eq!(destination_address(0x00EF_1200), Some(0x12));
    assert_eq!(group_extension(0x00EF_1200), None);
    assert_eq!(destination_address(0x00F0_1200), None);
    assert_eq!(group_extension(0x00F0_1200), Some(0x12));
    assert_eq!(destination_address(0), Some(0));
    assert_eq!(group_extension(0x00FF_FF00), Some(0xFF));
}

#[test]
fn exactly_one_of_destination_and_group_extension() {
    for format in 0..=255u32 {
        let raw = (format << 16) | 0xA5_00;
        let destination = destination_address(raw);
        let extension = group_extension(raw);
        assert!(destination.is_some() != extension.is_some());
        assert_eq!(destination.or(extension), Some(0xA5));
        assert_eq!(destination.is_some(), format <= 239);
    }
}

#[test]
fn raw_standard_fields() {
    assert_eq!(standard_priority(0x755), 0b111);
    assert_eq!(standard_source_address(0x755), 0x55);
    assert_eq!(standard_priority(0x0FF), 0);
    assert_eq!(standard_priority(0x100), 1);
    assert_eq!(standard_source_address(0x100), 0);
}

#[test]
fn raw_extended_fields() {
    assert_eq!(extended_priority(0x1FFF_FFFF), 0b111);
    assert_eq!(extended_priority(0x0400_0000), 1);
    assert_eq!(extended_priority(0x03FF_FFFF), 0);
    assert!(data_page(0x0100_0000));
    assert!(!data_page(0x1EFF_FFFF));
    assert!(extended_data_page(0x0200_0000));
    assert!(!extended_data_page(0x1DFF_FFFF));
    assert_eq!(pdu_format(0x0766_5544), 0x66);
    assert_eq!(pdu_specific(0x0766_5544), 0x55);
    assert_eq!(extended_source_address(0x0766_5544), 0x44);
}

#[test]
fn bits_above_the_width_are_dropped() {
    assert_eq!(standard_priority(0xFFFF), 0b111);
    assert_eq!(standard_priority(0xF8FF), 0);
    assert_eq!(standard_source_address(0xFF00), 0);
    assert_eq!(extended_priority(0xFFFF_FFFF), 0b111);
    assert_eq!(extended_priority(0xE000_0000), 0);
    assert_eq!(extended_source_address(0xFFFF_FF00), 0);
}
