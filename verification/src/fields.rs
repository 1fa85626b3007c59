//! The enumerated sub-fields of the configuration register.
//!
//! Every field is a small group of bits. Each type here says which bit
//! pattern stands for which setting (`encode`) and which setting a bit
//! pattern is read as (`decode`).

use vstd::prelude::*;

verus! {

/// Conversion Mode.
#[derive(Debug, Clone, Copy, PartialEq, Eq, Structural)]
pub enum ConversionMode {
    /// Continuous conversion (default).
    Continuous,
    /// Shutdown.
    Shutdown,
    /// One-shot conversion.
    OneShot,
}

impl ConversionMode {
    /// The two-bit pattern that stands for this mode.
    pub open spec fn encode(self) -> u8 {
        match self {
            ConversionMode::Continuous => 0,
            ConversionMode::Shutdown => 1,
            ConversionMode::OneShot => 2,
        }
    }

    /// The mode a bit pattern is read as. A pattern that stands for no mode
    /// is read as `Continuous`.
    pub open spec fn decode(bits: u8) -> ConversionMode {
        if bits == 1 {
            ConversionMode::Shutdown
        } else if bits == 2 {
            ConversionMode::OneShot
        } else {
            ConversionMode::Continuous
        }
    }

    /// Whether some mode is written as `bits`.
    pub open spec fn assigned(bits: u8) -> bool {
        exists|mode: ConversionMode| mode.encode() == bits
    }

    /// Reads a bit pattern as a mode. This never fails: the one two-bit
    /// pattern without a mode of its own falls back to `Continuous`.
    pub fn from_bits(bits: u8) -> (mode: ConversionMode)
        ensures
            mode == ConversionMode::decode(bits),
            !ConversionMode::assigned(bits) ==> mode == ConversionMode::Continuous,
    {
        proof {
            ConversionMode::lemma_unassigned_is_continuous(bits);
        }
        match bits {
            1 => ConversionMode::Shutdown,
            2 => ConversionMode::OneShot,
            _ => ConversionMode::Continuous,
        }
    }

    /// The two-bit pattern of this mode.
    pub fn to_bits(self) -> (bits: u8)
        ensures
            bits == self.encode(),
            bits <= 2,
    {
        match self {
            ConversionMode::Continuous => 0,
            ConversionMode::Shutdown => 1,
            ConversionMode::OneShot => 2,
        }
    }

    /// Writing a mode down and reading it back gives the same mode.
    pub proof fn lemma_decode_encode(mode: ConversionMode)
        ensures
            ConversionMode::decode(mode.encode()) == mode,
            ConversionMode::assigned(mode.encode()),
    {
    }

    /// A bit pattern that stands for no mode is read as `Continuous`; among
    /// the two-bit patterns that is exactly the pattern 3.
    pub proof fn lemma_unassigned_is_continuous(bits: u8)
        ensures
            !ConversionMode::assigned(bits) ==> ConversionMode::decode(bits)
                == ConversionMode::Continuous,
            bits <= 3 ==> (ConversionMode::assigned(bits) <==> bits != 3),
    {
        if bits <= 2 {
            let mode = ConversionMode::decode(bits);
            assert(mode.encode() == bits);
        }
    }
}

/// Conversion Averaging support.
#[derive(Debug, Clone, Copy, PartialEq, Eq, Structural)]
pub enum Average {
    /// No averaging
    NoAverage,
    /// 8 averaged conversions.
    Average8,
    /// 32 averaged conversions.
    Average32,
    /// 64 averaged conversions.
    Average64,
}

impl Average {
    /// The two-bit pattern that stands for this setting.
    pub open spec fn encode(self) -> u8 {
        match self {
            Average::NoAverage => 0,
            Average::Average8 => 1,
            Average::Average32 => 2,
            Average::Average64 => 3,
        }
    }

    /// The setting that a two-bit pattern stands for.
    pub open spec fn decode(bits: u8) -> Average {
        if bits == 0 {
            Average::NoAverage
        } else if bits == 1 {
            Average::Average8
        } else if bits == 2 {
            Average::Average32
        } else {
            Average::Average64
        }
    }

    /// Reads a two-bit pattern as an averaging setting.
    pub fn from_bits(bits: u8) -> (average: Average)
        requires
            bits <= 3,
        ensures
            average == Average::decode(bits),
            average.encode() == bits,
    {
        match bits {
            0 => Average::NoAverage,
            1 => Average::Average8,
            2 => Average::Average32,
            _ => Average::Average64,
        }
    }

    /// The two-bit pattern of this setting.
    pub fn to_bits(self) -> (bits: u8)
        ensures
            bits == self.encode(),
            bits <= 3,
    {
        match self {
            Average::NoAverage => 0,
            Average::Average8 => 1,
            Average::Average32 => 2,
            Average::Average64 => 3,
        }
    }

    /// `decode` and `encode` are inverse to each other on two-bit patterns.
    pub proof fn lemma_codec_inverse(average: Average, bits: u8)
        ensures
            Average::decode(average.encode()) == average,
            bits <= 3 ==> Average::decode(bits).encode() == bits,
    {
    }
}

/// ALERT Mode Select.
#[derive(Debug, Clone, Copy, PartialEq, Eq, Structural)]
pub enum AlertMode {
    /// Alert mode (default).
    Alert,
    /// Therm mode.
    Therm,
}

impl AlertMode {
    /// The bit that stands for this mode.
    pub open spec fn encode(self) -> u8 {
        match self {
            AlertMode::Alert => 0,
            AlertMode::Therm => 1,
        }
    }

    /// The mode that a bit stands for.
    pub open spec fn decode(bits: u8) -> AlertMode {
        if bits == 0 {
            AlertMode::Alert
        } else {
            AlertMode::Therm
        }
    }

    /// Reads one bit as an alert mode.
    pub fn from_bits(bits: u8) -> (mode: AlertMode)
        requires
            bits <= 1,
        ensures
            mode == AlertMode::decode(bits),
            mode.encode() == bits,
    {
        match bits {
            0 => AlertMode::Alert,
            _ => AlertMode::Therm,
        }
    }

    /// The bit of this mode.
    pub fn to_bits(self) -> (bits: u8)
        ensures
            bits == self.encode(),
            bits <= 1,
    {
        match self {
            AlertMode::Alert => 0,
            AlertMode::Therm => 1,
        }
    }

    /// `decode` and `encode` are inverse to each other on single bits.
    pub proof fn lemma_codec_inverse(mode: AlertMode, bits: u8)
        ensures
            AlertMode::decode(mode.encode()) == mode,
            bits <= 1 ==> AlertMode::decode(bits).encode() == bits,
    {
    }
}

/// ALERT pin polarity.
#[derive(Debug, Clone, Copy, PartialEq, Eq, Structural)]
pub enum Polarity {
    /// Active low (default).
    ActiveLow,
    /// Active High.
    ActiveHigh,
}

impl Polarity {
    /// The bit that stands for this polarity.
    pub open spec fn encode(self) -> u8 {
        match self {
            Polarity::ActiveLow => 0,
            Polarity::ActiveHigh => 1,
        }
    }

    /// The polarity that a bit stands for.
    pub open spec fn decode(bits: u8) -> Polarity {
        if bits == 0 {
            Polarity::ActiveLow
        } else {
            Polarity::ActiveHigh
        }
    }

    /// Reads one bit as a polarity.
    pub fn from_bits(bits: u8) -> (polarity: Polarity)
        requires
            bits <= 1,
        ensures
            polarity == Polarity::decode(bits),
            polarity.encode() == bits,
    {
        match bits {
            0 => Polarity::ActiveLow,
            _ => Polarity::ActiveHigh,
        }
    }

    /// The bit of this polarity.
    pub fn to_bits(self) -> (bits: u8)
        ensures
            bits == self.encode(),
            bits <= 1,
    {
        match self {
            Polarity::ActiveLow => 0,
            Polarity::ActiveHigh => 1,
        }
    }

    /// `decode` and `encode` are inverse to each other on single bits.
    pub proof fn lemma_codec_inverse(polarity: Polarity, bits: u8)
        ensures
            Polarity::decode(polarity.encode()) == polarity,
            bits <= 1 ==> Polarity::decode(bits).encode() == bits,
    {
    }
}

/// ALERT pin select.
#[derive(Debug, Clone, Copy, PartialEq, Eq, Structural)]
pub enum AlertSelect {
    /// ALERT pin reflects the status of the alert flags (default).
    Alert,
    /// ALERT pin reflects the status of the data ready flag.
    DataReady,
}

impl AlertSelect {
    /// The bit that stands for this selection.
    pub open spec fn encode(self) -> u8 {
        match self {
            AlertSelect::Alert => 0,
            AlertSelect::DataReady => 1,
        }
    }

    /// The selection that a bit stands for.
    pub open spec fn decode(bits: u8) -> AlertSelect {
        if bits == 0 {
            AlertSelect::Alert
        } else {
            AlertSelect::DataReady
        }
    }

    /// Reads one bit as a pin selection.
    pub fn from_bits(bits: u8) -> (select: AlertSelect)
        requires
            bits <= 1,
        ensures
            select == AlertSelect::decode(bits),
            select.encode() == bits,
    {
        match bits {
            0 => AlertSelect::Alert,
            _ => AlertSelect::DataReady,
        }
    }

    /// The bit of this selection.
    pub fn to_bits(self) -> (bits: u8)
        ensures
            bits == self.encode(),
            bits <= 1,
    {
        match self {
            AlertSelect::Alert => 0,
            AlertSelect::DataReady => 1,
        }
    }

    /// `decode` and `encode` are inverse to each other on single bits.
    pub proof fn lemma_codec_inverse(select: AlertSelect, bits: u8)
        ensures
            AlertSelect::decode(select.encode()) == select,
            bits <= 1 ==> AlertSelect::decode(bits).encode() == bits,
    {
    }
}

} // verus!
