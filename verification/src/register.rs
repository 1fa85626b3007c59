//! The register map of the sensor and the byte frames that carry a
//! register access over the bus.

use vstd::prelude::*;

verus! {

/// The registers of the sensor. Each is sixteen bits wide and is selected
/// by a one-byte address.
#[derive(Debug, Clone, Copy, PartialEq, Eq, Structural)]
pub enum Register {
    /// Temperature result (read only).
    TempResult,
    /// Configuration.
    Configuration,
    /// Temperature high limit.
    THighLimit,
    /// Temperature low limit.
    TLowLimit,
    /// EEPROM unlock.
    EepromUl,
    /// EEPROM general purpose slot 1.
    Eeprom1,
    /// EEPROM general purpose slot 2.
    Eeprom2,
    /// Temperature offset.
    TempOffset,
    /// EEPROM general purpose slot 3.
    Eeprom3,
    /// Device identification (read only).
    DeviceId,
}

impl Register {
    /// The one-byte address that selects this register.
    pub open spec fn spec_address(self) -> u8 {
        match self {
            Register::TempResult => 0x00,
            Register::Configuration => 0x01,
            Register::THighLimit => 0x02,
            Register::TLowLimit => 0x03,
            Register::EepromUl => 0x04,
            Register::Eeprom1 => 0x05,
            Register::Eeprom2 => 0x06,
            Register::TempOffset => 0x07,
            Register::Eeprom3 => 0x08,
            Register::DeviceId => 0x0F,
        }
    }

    /// Whether `byte` is the address of some register of the sensor.
    pub open spec fn defined(byte: u8) -> bool {
        exists|register: Register| register.spec_address() == byte
    }

    /// The one-byte address that selects this register.
    #[verifier::when_used_as_spec(spec_address)]
    pub fn address(self) -> (byte: u8)
        ensures
            byte == self.spec_address(),
            Register::defined(byte),
    {
        let byte: u8 = match self {
            Register::TempResult => 0x00,
            Register::Configuration => 0x01,
            Register::THighLimit => 0x02,
            Register::TLowLimit => 0x03,
            Register::EepromUl => 0x04,
            Register::Eeprom1 => 0x05,
            Register::Eeprom2 => 0x06,
            Register::TempOffset => 0x07,
            Register::Eeprom3 => 0x08,
            Register::DeviceId => 0x0F,
        };
        assert(self.spec_address() == byte);
        byte
    }

    /// The register addresses are the bytes 0 to 8 and 15, and no two
    /// registers share one.
    pub proof fn lemma_register_map(byte: u8, first: Register, second: Register)
        ensures
            Register::defined(byte) <==> (byte <= 0x08 || byte == 0x0F),
            first.address() == second.address() ==> first == second,
    {
        if byte <= 0x08 || byte == 0x0F {
            let register = if byte == 0x00 {
                Register::TempResult
            } else if byte == 0x01 {
                Register::Configuration
            } else if byte == 0x02 {
                Register::THighLimit
            } else if byte == 0x03 {
                Register::TLowLimit
            } else if byte == 0x04 {
                Register::EepromUl
            } else if byte == 0x05 {
                Register::Eeprom1
            } else if byte == 0x06 {
                Register::Eeprom2
            } else if byte == 0x07 {
                Register::TempOffset
            } else if byte == 0x08 {
                Register::Eeprom3
            } else {
                Register::DeviceId
            };
            assert(register.spec_address() == byte);
        }
    }
}

/// The two bytes of a register word in the order they travel on the bus:
/// most significant byte first.
pub open spec fn word_bytes(word: u16) -> Seq<u8> {
    seq![(word / 256) as u8, (word % 256) as u8]
}

/// The register word that two bytes from the bus make up, the first byte
/// being the most significant.
pub open spec fn bytes_word(bytes: Seq<u8>) -> u16
    recommends
        bytes.len() == 2,
{
    (bytes[0] * 256 + bytes[1]) as u16
}

/// The frame that writes `word` to `register`: the register address, then
/// the word, most significant byte first.
pub open spec fn write_frame(register: Register, word: u16) -> Seq<u8> {
    seq![register.address()] + word_bytes(word)
}

/// The frame that selects `register` for a read: its address alone.
pub open spec fn read_request(register: Register) -> Seq<u8> {
    seq![register.address()]
}

/// Splits a register word into its two bytes, most significant first.
pub fn word_to_be_bytes(word: u16) -> (bytes: [u8; 2])
    ensures
        bytes@ == word_bytes(word),
{
    let high: u16 = word >> 8;
    let low: u16 = word & 0xFF;
    assert(high == word / 256 && high < 256) by (bit_vector)
        requires
            high == word >> 8,
    ;
    assert(low == word % 256) by (bit_vector)
        requires
            low == word & 0xFF,
    ;
    let bytes: [u8; 2] = [high as u8, low as u8];
    assert(bytes@ =~= word_bytes(word));
    bytes
}

/// Joins two bytes from the bus into a register word, the first byte being
/// the most significant.
pub fn word_from_be_bytes(bytes: [u8; 2]) -> (word: u16)
    ensures
        word == bytes_word(bytes@),
        word == bytes[0] * 256 + bytes[1],
{
    let high: u16 = bytes[0] as u16;
    let low: u16 = bytes[1] as u16;
    assert((high << 8) | low == high * 256 + low) by (bit_vector)
        requires
            high < 256,
            low < 256,
    ;
    (high << 8) | low
}

/// Splitting a word into bytes and joining them again gives the word back,
/// and the other way round for any two bytes.
pub proof fn lemma_word_bytes_inverse(word: u16, bytes: Seq<u8>)
    ensures
        word_bytes(word).len() == 2,
        bytes_word(word_bytes(word)) == word,
        bytes.len() == 2 ==> word_bytes(bytes_word(bytes)) == bytes,
{
    if bytes.len() == 2 {
        assert(word_bytes(bytes_word(bytes)) =~= bytes);
    }
}

} // verus!
