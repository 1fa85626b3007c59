//! The bus that carries register accesses to the sensor.

use vstd::prelude::*;

verus! {

/// A two-wire bus with seven-bit addressing, as far as the driver needs
/// it. Both operations block until the transaction has completed or
/// failed. Nothing is promised about what a bus answers.
pub trait Transport {
    /// What the bus reports when a transaction fails.
    type Error;

    /// Writes `bytes` to the device at `address` in one transaction.
    fn write(&mut self, address: u8, bytes: &[u8]) -> Result<(), Self::Error>;

    /// Writes `bytes` to the device at `address` and, without releasing the
    /// bus in between, reads two bytes from it into `buffer`.
    fn write_read(&mut self, address: u8, bytes: &[u8], buffer: &mut [u8; 2]) -> Result<
        (),
        Self::Error,
    >;
}

/// One transaction that a device handle has put on its bus, with the
/// answer of the bus.
pub enum Transaction<E> {
    /// A write of `bytes` to the device at `address`. `outcome` tells
    /// whether the bus accepted it.
    Write { address: u8, bytes: Seq<u8>, outcome: Result<(), E> },
    /// A write of `bytes` to the device at `address`, then a read from it.
    /// `reply` holds the bytes read, in the order they arrived.
    WriteRead { address: u8, bytes: Seq<u8>, reply: Result<Seq<u8>, E> },
}

impl<E> Transaction<E> {
    /// What the bus answered: the bytes that were read, none after a plain
    /// write, or the error it reported.
    pub open spec fn answer(self) -> Result<Seq<u8>, E> {
        match self {
            Transaction::Write { address, bytes, outcome } => match outcome {
                Ok(done) => Ok(Seq::empty()),
                Err(error) => Err(error),
            },
            Transaction::WriteRead { address, bytes, reply } => reply,
        }
    }
}

} // verus!
