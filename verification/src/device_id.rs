//! The device identification register.
//!
//! The low twelve bits of the register word identify the part, the high
//! four bits give its revision.

use vstd::prelude::*;

verus! {

/// The identifier that a TMP117 reports in the low twelve bits of its
/// identification register.
pub const TMP117_DEVICE_ID: u16 = 0x0117;

/// Contents of the device identification register.
#[derive(Debug, Clone, Copy, PartialEq, Eq, Structural)]
pub struct DeviceId {
    /// Device identifier: twelve bits.
    pub did: u16,
    /// Revision number: four bits.
    pub rev: u8,
}

impl DeviceId {
    /// Whether both fields fit the bits the register has for them.
    pub open spec fn wf(self) -> bool {
        self.did <= 0x0FFF && self.rev <= 0x0F
    }

    /// The fields that a register word holds.
    pub open spec fn decode(word: u16) -> DeviceId {
        DeviceId { did: word % 4096, rev: (word / 4096) as u8 }
    }

    /// The register word that holds these fields. Of each field only the
    /// bits the register has for it count.
    pub open spec fn encode(self) -> u16 {
        (self.did % 4096 + 4096 * (self.rev % 16)) as u16
    }

    /// Reads a register word field by field. This never fails.
    pub fn from_bits(word: u16) -> (id: DeviceId)
        ensures
            id == DeviceId::decode(word),
            id.wf(),
    {
        let did: u16 = word & 0x0FFF;
        let rev: u16 = word >> 12;
        assert(did == word % 4096 && rev == word / 4096 && rev <= 0x0F) by (bit_vector)
            requires
                did == word & 0x0FFF,
                rev == word >> 12,
        ;
        DeviceId { did, rev: rev as u8 }
    }

    /// Packs the fields into the register word.
    pub fn to_bits(&self) -> (word: u16)
        ensures
            word == self.encode(),
    {
        let did: u16 = self.did & 0x0FFF;
        let rev: u16 = (self.rev & 0x0F) as u16;
        let word: u16 = did | (rev << 12);
        proof {
            let raw_did = self.did;
            let raw_rev = self.rev;
            assert(raw_did & 0x0FFF == raw_did % 4096) by (bit_vector);
            assert(raw_rev & 0x0F == raw_rev % 16) by (bit_vector);
            assert(word == did + 4096 * rev) by (bit_vector)
                requires
                    did <= 0x0FFF,
                    rev <= 0x0F,
                    word == did | (rev << 12),
            ;
        }
        word
    }

    /// Reading a word and packing the fields again gives the word back, and
    /// packing fields that fit and reading the word gives the fields back.
    pub proof fn lemma_codec_inverse(word: u16, id: DeviceId)
        ensures
            DeviceId::decode(word).wf(),
            DeviceId::decode(word).encode() == word,
            id.wf() ==> DeviceId::decode(id.encode()) == id,
    {
    }
}

} // verus!
