//! Bus addresses of the sensor and the pin strapping that selects them.

use vstd::prelude::*;
use vstd::std_specs::convert::FromSpec;

verus! {

/// Bus address the sensor answers to when ADD0 is tied to ground.
pub const ADDRESS_GROUND: u8 = 0x48;

/// Bus address the sensor answers to when ADD0 is tied to V+.
pub const ADDRESS_VPLUS: u8 = 0x49;

/// Bus address the sensor answers to when ADD0 is tied to SDA.
pub const ADDRESS_SDA: u8 = 0x4A;

/// Bus address the sensor answers to when ADD0 is tied to SCL.
pub const ADDRESS_SCL: u8 = 0x4B;

/// ADD0 pin logic level representation.
#[derive(Debug, Clone, Copy, PartialEq, Eq, Structural)]
pub enum Add0Connection {
    /// ADD0 tied to GND (default).
    Ground,
    /// ADD0 tied to V+.
    Vplus,
    /// ADD0 tied to SDA.
    Sda,
    /// ADD0 tied to SCL.
    Scl,
}

impl Add0Connection {
    /// The seven-bit bus address that this strapping selects.
    pub open spec fn address(self) -> u8 {
        match self {
            Add0Connection::Ground => ADDRESS_GROUND,
            Add0Connection::Vplus => ADDRESS_VPLUS,
            Add0Connection::Sda => ADDRESS_SDA,
            Add0Connection::Scl => ADDRESS_SCL,
        }
    }
}

/// I2C device address.
///
/// An address is only ever built from a pin strapping, so it is always one
/// of the four seven-bit values the sensor can answer to.
#[derive(Debug, Clone, Copy, PartialEq, Eq, Structural)]
pub struct Address(pub(crate) u8);

impl View for Address {
    type V = u8;

    /// The seven-bit address as a number.
    closed spec fn view(&self) -> u8 {
        self.0
    }
}

impl Address {
    #[verifier::type_invariant]
    spec fn selectable(self) -> bool {
        ADDRESS_GROUND <= self.0 <= ADDRESS_SCL
    }

    /// Two addresses with the same number are the same address.
    pub proof fn lemma_number_decides(self, other: Address)
        requires
            self@ == other@,
        ensures
            self == other,
    {
    }

    /// The address as the seven-bit number that goes on the bus.
    pub fn value(&self) -> (v: u8)
        ensures
            v == self@,
            ADDRESS_GROUND <= v <= ADDRESS_SCL,
            v <= 0x7F,
    {
        proof {
            use_type_invariant(self);
        }
        self.0
    }
}

/// Compute device address from state of ADD0 pin connection.
impl From<Add0Connection> for Address {
    fn from(connection: Add0Connection) -> (address: Self)
        ensures
            address@ == connection.address(),
    {
        match connection {
            Add0Connection::Ground => Address(ADDRESS_GROUND),
            Add0Connection::Vplus => Address(ADDRESS_VPLUS),
            Add0Connection::Sda => Address(ADDRESS_SDA),
            Add0Connection::Scl => Address(ADDRESS_SCL),
        }
    }
}

impl vstd::std_specs::convert::FromSpecImpl<Add0Connection> for Address {
    open spec fn obeys_from_spec() -> bool {
        true
    }

    closed spec fn from_spec(connection: Add0Connection) -> Self {
        Address(connection.address())
    }
}

/// Default address.
impl Default for Address {
    fn default() -> (address: Self)
        ensures
            address@ == ADDRESS_GROUND,
            address == Address::from_spec(Add0Connection::Ground),
    {
        Address::from(Add0Connection::Ground)
    }
}

} // verus!
