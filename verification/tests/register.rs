use tmp117::register::{word_from_be_bytes, word_to_be_bytes};
use tmp117::Register;

#[test]
fn register_addresses() {
    assert_eq!(Register::TempResult.address(), 0x00);
    assert_eq!(Register::Configuration.address(), 0x01);
    assert_eq!(Register::THighLimit.address(), 0x02);
    assert_eq!(Register::TLowLimit.address(), 0x03);
    assert_eq!(Register::EepromUl.address(), 0x04);
    assert_eq!(Register::Eeprom1.address(), 0x05);
    assert_eq!(Register::Eeprom2.address(), 0x06);
    assert_eq!(Register::TempOffset.address(), 0x07);
    assert_eq!(Register::Eeprom3.address(), 0x08);
    assert_eq!(Register::DeviceId.address(), 0x0F);
}

#[test]
fn word_goes_on_the_bus_most_significant_byte_first() {
    assert_eq!(word_to_be_bytes(0x0190), [0x01, 0x90]);
    assert_eq!(word_to_be_bytes(0xFE70), [0xFE, 0x70]);
    assert_eq!(word_to_be_bytes(0x0000), [0x00, 0x00]);
    assert_eq!(word_to_be_bytes(0xFFFF), [0xFF, 0xFF]);
    assert_eq!(word_to_be_bytes(0x00FF), [0x00, 0xFF]);
    assert_eq!(word_to_be_bytes(0xFF00), [0xFF, 0x00]);
}

#[test]
fn word_comes_off_the_bus_most_significant_byte_first() {
    assert_eq!(word_from_be_bytes([0x01, 0x17]), 0x0117);
    assert_eq!(word_from_be_bytes([0xFE, 0x70]), 0xFE70);
    assert_eq!(word_from_be_bytes([0x00, 0xFF]), 0x00FF);
    assert_eq!(word_from_be_bytes([0xFF, 0x00]), 0xFF00);
}

#[test]
fn word_bytes_agree_with_the_standard_conversions() {
    for word in 0..=u16::MAX {
        assert_eq!(word_to_be_bytes(word), word.to_be_bytes());
        assert_eq!(word_from_be_bytes(word.to_be_bytes()), word);
        assert_eq!(word_from_be_bytes(word_to_be_bytes(word)), word);
    }
}
