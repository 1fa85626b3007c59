//! The configuration register: its fields and its sixteen-bit encoding.
//!
//! Bit 0 is the least significant bit of the register word.
//!
//! | bits  | field         |
//! |-------|---------------|
//! | 0     | `reserved`    |
//! | 1     | `soft_reset`  |
//! | 2     | `dr_alert`    |
//! | 3     | `high_alert`  |
//! | 4     | `pol`         |
//! | 5     | `t_na`        |
//! | 6-7   | `avg`         |
//! | 8-10  | `conv`        |
//! | 11-12 | `mode`        |
//! | 13    | `eeprom_busy` |
//! | 14    | `data_ready`  |
//! | 15    | `low_alert`   |

use crate::fields::{AlertSelect, Average, ConversionMode, Polarity};
use vstd::prelude::*;

verus! {

/// The register word the sensor holds after a reset.
pub const RESET_CONFIGURATION: u16 = 0x0220;

/// Contents of the configuration register, field by field.
#[derive(Debug, Clone, Copy, PartialEq, Eq, Structural)]
pub struct Configuration {
    /// Reserved bit.
    pub reserved: bool,
    /// Software reset request. The sensor clears it once it has reset.
    pub soft_reset: bool,
    /// What the ALERT pin reflects.
    pub dr_alert: AlertSelect,
    /// High alert flag.
    pub high_alert: bool,
    /// ALERT pin polarity.
    pub pol: Polarity,
    /// Alert target select.
    pub t_na: AlertSelect,
    /// Conversion averaging.
    pub avg: Average,
    /// Conversion cycle time, as the raw three-bit value.
    pub conv: u8,
    /// Conversion mode.
    pub mode: ConversionMode,
    /// EEPROM busy flag.
    pub eeprom_busy: bool,
    /// Data ready flag.
    pub data_ready: bool,
    /// Low alert flag.
    pub low_alert: bool,
}

/// The number a single-bit flag contributes to its place: 1 when set.
pub open spec fn flag(set: bool) -> int {
    if set {
        1
    } else {
        0
    }
}

impl Configuration {
    /// Whether every field fits the bits the register has for it. Only the
    /// conversion cycle can fail to: it has three bits.
    pub open spec fn wf(self) -> bool {
        self.conv <= 7
    }

    /// The register word as a number: each field times the weight of its
    /// lowest bit. Of the conversion cycle only the low three bits count.
    pub open spec fn weight(self) -> int {
        flag(self.reserved)
            + 2 * flag(self.soft_reset)
            + 4 * self.dr_alert.encode()
            + 8 * flag(self.high_alert)
            + 16 * self.pol.encode()
            + 32 * self.t_na.encode()
            + 64 * self.avg.encode()
            + 256 * (self.conv % 8)
            + 2048 * self.mode.encode()
            + 8192 * flag(self.eeprom_busy)
            + 16384 * flag(self.data_ready)
            + 32768 * flag(self.low_alert)
    }

    /// The register word that holds these fields.
    pub open spec fn encode(self) -> u16 {
        self.weight() as u16
    }

    /// The fields that a register word holds. Every word has a reading: a
    /// conversion mode pattern that stands for no mode reads as
    /// `Continuous`.
    pub open spec fn decode(word: u16) -> Configuration {
        Configuration {
            reserved: word % 2 == 1,
            soft_reset: (word / 2) % 2 == 1,
            dr_alert: AlertSelect::decode(((word / 4) % 2) as u8),
            high_alert: (word / 8) % 2 == 1,
            pol: Polarity::decode(((word / 16) % 2) as u8),
            t_na: AlertSelect::decode(((word / 32) % 2) as u8),
            avg: Average::decode(((word / 64) % 4) as u8),
            conv: ((word / 256) % 8) as u8,
            mode: ConversionMode::decode(((word / 2048) % 4) as u8),
            eeprom_busy: (word / 8192) % 2 == 1,
            data_ready: (word / 16384) % 2 == 1,
            low_alert: (word / 32768) % 2 == 1,
        }
    }

    /// The conversion mode bits of a register word.
    pub open spec fn mode_bits(word: u16) -> u8 {
        ((word / 2048) % 4) as u8
    }

    /// Reads a register word field by field. This never fails.
    pub fn from_bits(word: u16) -> (configuration: Configuration)
        ensures
            configuration == Configuration::decode(word),
            configuration.wf(),
            !ConversionMode::assigned(Configuration::mode_bits(word)) ==> configuration.mode
                == ConversionMode::Continuous,
    {
        proof {
            lemma_fields_by_shift(word);
        }
        Configuration {
            reserved: word & 1 == 1,
            soft_reset: (word >> 1) & 1 == 1,
            dr_alert: AlertSelect::from_bits(((word >> 2) & 1) as u8),
            high_alert: (word >> 3) & 1 == 1,
            pol: Polarity::from_bits(((word >> 4) & 1) as u8),
            t_na: AlertSelect::from_bits(((word >> 5) & 1) as u8),
            avg: Average::from_bits(((word >> 6) & 3) as u8),
            conv: ((word >> 8) & 7) as u8,
            mode: ConversionMode::from_bits(((word >> 11) & 3) as u8),
            eeprom_busy: (word >> 13) & 1 == 1,
            data_ready: (word >> 14) & 1 == 1,
            low_alert: (word >> 15) & 1 == 1,
        }
    }

    /// Packs the fields into the register word.
    #[verifier::rlimit(40)]
    pub fn to_bits(&self) -> (word: u16)
        ensures
            word == self.encode(),
            word == self.weight(),
    {
        let reserved: u16 = bit(self.reserved);
        let soft_reset: u16 = bit(self.soft_reset);
        let dr_alert: u16 = self.dr_alert.to_bits() as u16;
        let high_alert: u16 = bit(self.high_alert);
        let pol: u16 = self.pol.to_bits() as u16;
        let t_na: u16 = self.t_na.to_bits() as u16;
        let avg: u16 = self.avg.to_bits() as u16;
        let conv: u16 = (self.conv & 7) as u16;
        let mode: u16 = self.mode.to_bits() as u16;
        let eeprom_busy: u16 = bit(self.eeprom_busy);
        let data_ready: u16 = bit(self.data_ready);
        let low_alert: u16 = bit(self.low_alert);
        proof {
            let raw_conv = self.conv;
            assert(raw_conv & 7 == raw_conv % 8) by (bit_vector);
            assert(conv == self.conv % 8);
            assert(self.weight() == sum_of_fields(
                reserved,
                soft_reset,
                dr_alert,
                high_alert,
                pol,
                t_na,
                avg,
                conv,
                mode,
                eeprom_busy,
                data_ready,
                low_alert,
            ));
        }
        pack(
            reserved,
            soft_reset,
            dr_alert,
            high_alert,
            pol,
            t_na,
            avg,
            conv,
            mode,
            eeprom_busy,
            data_ready,
            low_alert,
        )
    }

    /// Reading back the word that fields were packed into gives the same
    /// fields, whenever they fit the register.
    #[verifier::rlimit(40)]
    pub proof fn lemma_decode_encode(configuration: Configuration)
        requires
            configuration.wf(),
        ensures
            Configuration::decode(configuration.encode()) == configuration,
    {
        let word = configuration.encode();
        let reserved = flag(configuration.reserved) as u16;
        let soft_reset = flag(configuration.soft_reset) as u16;
        let dr_alert = configuration.dr_alert.encode() as u16;
        let high_alert = flag(configuration.high_alert) as u16;
        let pol = configuration.pol.encode() as u16;
        let t_na = configuration.t_na.encode() as u16;
        let avg = configuration.avg.encode() as u16;
        let conv = configuration.conv as u16;
        let mode = configuration.mode.encode() as u16;
        let eeprom_busy = flag(configuration.eeprom_busy) as u16;
        let data_ready = flag(configuration.data_ready) as u16;
        let low_alert = flag(configuration.low_alert) as u16;
        assert(configuration.conv % 8 == configuration.conv);
        assert(configuration.weight() == sum_of_fields(
            reserved,
            soft_reset,
            dr_alert,
            high_alert,
            pol,
            t_na,
            avg,
            conv,
            mode,
            eeprom_busy,
            data_ready,
            low_alert,
        ));
        assert(word == configuration.weight());
        lemma_places_of_sum(
            word,
            reserved,
            soft_reset,
            dr_alert,
            high_alert,
            pol,
            t_na,
            avg,
            conv,
            mode,
            eeprom_busy,
            data_ready,
            low_alert,
        );
        let back = Configuration::decode(word);
        assert(back.reserved == configuration.reserved);
        assert(back.soft_reset == configuration.soft_reset);
        assert(back.dr_alert == configuration.dr_alert);
        assert(back.high_alert == configuration.high_alert);
        assert(back.pol == configuration.pol);
        assert(back.t_na == configuration.t_na);
        assert(back.avg == configuration.avg);
        assert(back.conv == configuration.conv);
        assert(back.mode == configuration.mode);
        assert(back.eeprom_busy == configuration.eeprom_busy);
        assert(back.data_ready == configuration.data_ready);
        assert(back.low_alert == configuration.low_alert);
    }

    /// Packing the fields read from a word gives the word back, unless its
    /// conversion mode bits stand for no mode: those read as `Continuous`
    /// and are packed as such.
    #[verifier::rlimit(40)]
    pub proof fn lemma_encode_decode(word: u16)
        ensures
            Configuration::decode(word).wf(),
            ConversionMode::assigned(Configuration::mode_bits(word)) ==> Configuration::decode(
                word,
            ).encode() == word,
            !ConversionMode::assigned(Configuration::mode_bits(word)) ==> Configuration::decode(
                word,
            ).encode() == word - 3 * 2048,
    {
        ConversionMode::lemma_unassigned_is_continuous(Configuration::mode_bits(word));
        lemma_sum_of_places(word);
        let fields = Configuration::decode(word);
        let mode_bits = Configuration::mode_bits(word);
        assert(flag(fields.reserved) == word % 2);
        assert(flag(fields.soft_reset) == (word / 2) % 2);
        assert(fields.dr_alert.encode() == (word / 4) % 2);
        assert(flag(fields.high_alert) == (word / 8) % 2);
        assert(fields.pol.encode() == (word / 16) % 2);
        assert(fields.t_na.encode() == (word / 32) % 2);
        assert(fields.avg.encode() == (word / 64) % 4);
        assert(fields.conv % 8 == (word / 256) % 8);
        assert(fields.mode.encode() == if mode_bits == 3 {
            0
        } else {
            (word / 2048) % 4
        });
        assert(flag(fields.eeprom_busy) == (word / 8192) % 2);
        assert(flag(fields.data_ready) == (word / 16384) % 2);
        assert(flag(fields.low_alert) == (word / 32768) % 2);
        assert(fields.weight() == if mode_bits == 3 {
            word - 3 * 2048
        } else {
            word as int
        });
    }

    /// A register word whose conversion mode bits stand for no mode reads
    /// as `Continuous`. Among the register words these are the words with
    /// both mode bits set.
    pub proof fn lemma_unassigned_mode_reads_continuous(word: u16)
        ensures
            !ConversionMode::assigned(Configuration::mode_bits(word)) ==> Configuration::decode(
                word,
            ).mode == ConversionMode::Continuous,
            ConversionMode::assigned(Configuration::mode_bits(word)) <==> Configuration::mode_bits(
                word,
            ) != 3,
    {
        ConversionMode::lemma_unassigned_is_continuous(Configuration::mode_bits(word));
    }

    /// Setting or clearing the reset request changes bit 1 of the register
    /// word and nothing else, and a word packed with the request set reads
    /// back with the request set.
    pub proof fn lemma_soft_reset_place(configuration: Configuration)
        ensures
            (Configuration { soft_reset: true, ..configuration }).encode() == (Configuration {
                soft_reset: false,
                ..configuration
            }).encode() + 2,
            Configuration::decode(
                (Configuration { soft_reset: true, ..configuration }).encode(),
            ).soft_reset,
    {
        let set = Configuration { soft_reset: true, ..configuration };
        let clear = Configuration { soft_reset: false, ..configuration };
        Configuration::lemma_weight_fits(set);
        Configuration::lemma_weight_fits(clear);
        let fitted = Configuration { conv: configuration.conv % 8, ..set };
        assert(fitted.weight() == set.weight());
        Configuration::lemma_decode_encode(fitted);
    }

    /// Changing the conversion mode changes bits 11 and 12 of the register
    /// word and nothing else.
    pub proof fn lemma_mode_place(configuration: Configuration, mode: ConversionMode)
        ensures
            (Configuration { mode, ..configuration }).encode() == configuration.encode() - 2048
                * configuration.mode.encode() + 2048 * mode.encode(),
    {
        Configuration::lemma_weight_fits(configuration);
        Configuration::lemma_weight_fits(Configuration { mode, ..configuration });
    }

    /// The weights of the fields add up to a sixteen-bit number.
    pub proof fn lemma_weight_fits(configuration: Configuration)
        ensures
            0 <= configuration.weight() <= 0xFFFF,
            configuration.encode() == configuration.weight(),
    {
    }

    /// No two sets of fields that fit the register are packed into the same
    /// word.
    pub proof fn lemma_encode_injective(first: Configuration, second: Configuration)
        requires
            first.wf(),
            second.wf(),
            first.encode() == second.encode(),
        ensures
            first == second,
    {
        Configuration::lemma_decode_encode(first);
        Configuration::lemma_decode_encode(second);
    }
}

impl Default for Configuration {
    /// The configuration the sensor has after a reset.
    fn default() -> (configuration: Configuration)
        ensures
            configuration == Configuration::decode(RESET_CONFIGURATION),
            configuration.encode() == RESET_CONFIGURATION,
            configuration.wf(),
    {
        proof {
            Configuration::lemma_encode_decode(RESET_CONFIGURATION);
            ConversionMode::lemma_decode_encode(ConversionMode::Continuous);
        }
        Configuration::from_bits(RESET_CONFIGURATION)
    }
}

/// One flag as a number: 1 when set.
fn bit(set: bool) -> (value: u16)
    ensures
        value == flag(set),
{
    if set {
        1
    } else {
        0
    }
}

/// Each field of a register word, taken out by shifting and masking, is the
/// field that division by the weight of its lowest bit gives.
proof fn lemma_fields_by_shift(word: u16)
    by (bit_vector)
    ensures
        word & 1 == word % 2,
        (word >> 1) & 1 == (word / 2) % 2,
        (word >> 2) & 1 == (word / 4) % 2,
        (word >> 3) & 1 == (word / 8) % 2,
        (word >> 4) & 1 == (word / 16) % 2,
        (word >> 5) & 1 == (word / 32) % 2,
        (word >> 6) & 3 == (word / 64) % 4,
        (word >> 8) & 7 == (word / 256) % 8,
        (word >> 11) & 3 == (word / 2048) % 4,
        (word >> 13) & 1 == (word / 8192) % 2,
        (word >> 14) & 1 == (word / 16384) % 2,
        (word >> 15) & 1 == (word / 32768) % 2,
{
}

/// The sum of twelve fields, each times the weight of its place in the
/// register word.
spec fn sum_of_fields(
    reserved: u16,
    soft_reset: u16,
    dr_alert: u16,
    high_alert: u16,
    pol: u16,
    t_na: u16,
    avg: u16,
    conv: u16,
    mode: u16,
    eeprom_busy: u16,
    data_ready: u16,
    low_alert: u16,
) -> int {
    reserved
        + 2 * soft_reset
        + 4 * dr_alert
        + 8 * high_alert
        + 16 * pol
        + 32 * t_na
        + 64 * avg
        + 256 * conv
        + 2048 * mode
        + 8192 * eeprom_busy
        + 16384 * data_ready
        + 32768 * low_alert
}

/// Shifts twelve fields to their places and joins them bit by bit.
fn pack(
    reserved: u16,
    soft_reset: u16,
    dr_alert: u16,
    high_alert: u16,
    pol: u16,
    t_na: u16,
    avg: u16,
    conv: u16,
    mode: u16,
    eeprom_busy: u16,
    data_ready: u16,
    low_alert: u16,
) -> (word: u16)
    requires
        reserved <= 1,
        soft_reset <= 1,
        dr_alert <= 1,
        high_alert <= 1,
        pol <= 1,
        t_na <= 1,
        avg <= 3,
        conv <= 7,
        mode <= 3,
        eeprom_busy <= 1,
        data_ready <= 1,
        low_alert <= 1,
    ensures
        word == sum_of_fields(
            reserved,
            soft_reset,
            dr_alert,
            high_alert,
            pol,
            t_na,
            avg,
            conv,
            mode,
            eeprom_busy,
            data_ready,
            low_alert,
        ),
{
    let word: u16 = reserved
        | (soft_reset << 1)
        | (dr_alert << 2)
        | (high_alert << 3)
        | (pol << 4)
        | (t_na << 5)
        | (avg << 6)
        | (conv << 8)
        | (mode << 11)
        | (eeprom_busy << 13)
        | (data_ready << 14)
        | (low_alert << 15);
    assert(word
        == reserved
            + 2 * soft_reset
            + 4 * dr_alert
            + 8 * high_alert
            + 16 * pol
            + 32 * t_na
            + 64 * avg
            + 256 * conv
            + 2048 * mode
            + 8192 * eeprom_busy
            + 16384 * data_ready
            + 32768 * low_alert) by (bit_vector)
        requires
            reserved <= 1,
            soft_reset <= 1,
            dr_alert <= 1,
            high_alert <= 1,
            pol <= 1,
            t_na <= 1,
            avg <= 3,
            conv <= 7,
            mode <= 3,
            eeprom_busy <= 1,
            data_ready <= 1,
            low_alert <= 1,
            word == reserved
                | (soft_reset << 1)
                | (dr_alert << 2)
                | (high_alert << 3)
                | (pol << 4)
                | (t_na << 5)
                | (avg << 6)
                | (conv << 8)
                | (mode << 11)
                | (eeprom_busy << 13)
                | (data_ready << 14)
                | (low_alert << 15),
    ;
    word
}

/// In the sum of twelve fields times the weights of their places, division
/// by a weight finds each field again.
proof fn lemma_places_of_sum(
    word: u16,
    reserved: u16,
    soft_reset: u16,
    dr_alert: u16,
    high_alert: u16,
    pol: u16,
    t_na: u16,
    avg: u16,
    conv: u16,
    mode: u16,
    eeprom_busy: u16,
    data_ready: u16,
    low_alert: u16,
)
    by (bit_vector)
    requires
        reserved <= 1,
        soft_reset <= 1,
        dr_alert <= 1,
        high_alert <= 1,
        pol <= 1,
        t_na <= 1,
        avg <= 3,
        conv <= 7,
        mode <= 3,
        eeprom_busy <= 1,
        data_ready <= 1,
        low_alert <= 1,
        word == reserved
            + 2 * soft_reset
            + 4 * dr_alert
            + 8 * high_alert
            + 16 * pol
            + 32 * t_na
            + 64 * avg
            + 256 * conv
            + 2048 * mode
            + 8192 * eeprom_busy
            + 16384 * data_ready
            + 32768 * low_alert,
    ensures
        word % 2 == reserved,
        (word / 2) % 2 == soft_reset,
        (word / 4) % 2 == dr_alert,
        (word / 8) % 2 == high_alert,
        (word / 16) % 2 == pol,
        (word / 32) % 2 == t_na,
        (word / 64) % 4 == avg,
        (word / 256) % 8 == conv,
        (word / 2048) % 4 == mode,
        (word / 8192) % 2 == eeprom_busy,
        (word / 16384) % 2 == data_ready,
        (word / 32768) % 2 == low_alert,
{
}

/// A register word is the sum of its fields times the weights of their
/// places.
proof fn lemma_sum_of_places(word: u16)
    by (bit_vector)
    ensures
        word == word % 2
            + 2 * ((word / 2) % 2)
            + 4 * ((word / 4) % 2)
            + 8 * ((word / 8) % 2)
            + 16 * ((word / 16) % 2)
            + 32 * ((word / 32) % 2)
            + 64 * ((word / 64) % 4)
            + 256 * ((word / 256) % 8)
            + 2048 * ((word / 2048) % 4)
            + 8192 * ((word / 8192) % 2)
            + 16384 * ((word / 16384) % 2)
            + 32768 * ((word / 32768) % 2),
{
}

} // verus!
