use sgm41511::{device_revision, interrupt_masks, Access, Current, Register, SrcPdo, Voltage};
use sgm41511::{REGISTER_RESET, SGM41511_ADDR};

#[test]
fn revision_needs_identity_marker() {
    assert_eq!(device_revision(0b00010100), Some(0));
    assert_eq!(device_revision(0b00010111), Some(3));
    assert_eq!(device_revision(0b10010110), Some(2));
    assert_eq!(device_revision(0b11100000), None);
    assert_eq!(device_revision(0b00010000), None);
    assert_eq!(device_revision(0x00), None);
}

#[test]
fn interrupt_mask_byte() {
    assert_eq!(interrupt_masks(true, false), 0b00000010);
    assert_eq!(interrupt_masks(false, true), 0b00000001);
    assert_eq!(interrupt_masks(true, true), 0b00000011);
    assert_eq!(interrupt_masks(false, false), 0);
}

#[test]
fn register_map() {
    assert_eq!(SGM41511_ADDR, 0x6b);
    assert_eq!(REGISTER_RESET, 0x80);
    assert_eq!(Register::Reg00.address(), 0x00);
    assert_eq!(Register::Reg07.address(), 0x07);
    assert_eq!(Register::Reg0a.address(), 0x0a);
    assert_eq!(Register::Reg0b.address(), 0x0b);
    assert_eq!(Register::Reg00.access(), Access::ReadWrite);
    assert_eq!(Register::Reg08.access(), Access::ReadOnly);
    assert_eq!(Register::Reg09.access(), Access::ReadOnly);
    assert_eq!(Register::Reg0a.access(), Access::ReadWrite);
    assert_eq!(Register::Reg0b.access(), Access::ReadWrite);
}

#[test]
fn voltage_codes_and_names() {
    assert_eq!(Voltage::from(0x00), Voltage::Unattached);
    assert_eq!(Voltage::from(0x20), Voltage::_9v);
    assert_eq!(Voltage::from(0x60), Voltage::_20v);
    assert_eq!(Voltage::from(0x15), Voltage::Reserved);
    assert_eq!(Voltage::from(0x70), Voltage::Reserved);
    let name: &str = Voltage::_12v.into();
    assert_eq!(name, "12V");
    let name: &str = Voltage::Unattached.into();
    assert_eq!(name, "Unattached");
}

#[test]
fn current_codes_and_names() {
    assert_eq!(Current::from(0x00), Current::_0_5a);
    assert_eq!(Current::from(0x03), Current::_1_25a);
    assert_eq!(Current::from(0x0f), Current::_5_0a);
    let name: &str = Current::_1_25a.into();
    assert_eq!(name, "1.25A");
    let name: &str = Current::_0_7a.into();
    assert_eq!(name, "0.7A");
}

#[test]
fn src_pdo_codes_and_names() {
    assert_eq!(SrcPdo::from(0x00), SrcPdo::NotSelected);
    assert_eq!(SrcPdo::from(0x30), SrcPdo::_12v);
    assert_eq!(SrcPdo::from(0x80), SrcPdo::_15v);
    assert_eq!(SrcPdo::from(0xa0), SrcPdo::_20v);
    assert_eq!(SrcPdo::from(0x40), SrcPdo::Reserved);
    let name: &str = SrcPdo::_18v.into();
    assert_eq!(name, "18V");
    let name: &str = SrcPdo::Reserved.into();
    assert_eq!(name, "Reserved");
}

#[test]
fn register_frames() {
    assert_eq!(Register::Reg0b.read_frame(), [0x0b]);
    assert_eq!(Register::Reg03.read_frame(), [0x03]);
    assert_eq!(Register::Reg0b.write_frame(0x80), [0x0b, 0x80]);
    assert_eq!(Register::Reg00.write_frame(0b00010111), [0x00, 0b00010111]);
}

#[test]
fn voltage_and_pdo_codes() {
    assert_eq!(Voltage::_5v.code(), 0x10);
    assert_eq!(Voltage::_20v.code(), 0x60);
    assert_eq!(Voltage::Reserved.code(), 0x70);
    assert_eq!(Voltage::from(Voltage::_15v.code()), Voltage::_15v);
    assert_eq!(SrcPdo::_15v.code(), 0x80);
    assert_eq!(SrcPdo::_20v.code(), 0xa0);
    assert_eq!(SrcPdo::Reserved.code(), 0xf0);
    assert_eq!(SrcPdo::from(SrcPdo::_9v.code()), SrcPdo::_9v);
}
