//! The device handle: a sensor on a bus, and the operations on it.
//!
//! Every operation is one register access, or two for the pair of limits:
//! a write of three bytes, or a write of the register address followed by
//! a read of two bytes. The handle keeps a record of what it has put on
//! the bus and how the bus answered. The record exists for the contracts
//! only; it takes no space in a running program. Two private functions
//! make every call on the bus, `write_register` and `read_register`, and
//! each adds its call to the record.

use crate::address::{Add0Connection, Address, ADDRESS_GROUND};
use crate::configuration::{Configuration, RESET_CONFIGURATION};
use crate::device_id::{DeviceId, TMP117_DEVICE_ID};
use crate::fields::ConversionMode;
use crate::register::{
    bytes_word,
    read_request,
    word_from_be_bytes,
    word_to_be_bytes,
    write_frame,
    Register,
};
use crate::temperature::{raw_of_word, raw_to_word, word_of_raw, word_to_raw, Celsius};
use crate::transport::{Transaction, Transport};
use vstd::prelude::*;

verus! {

/// Whether `transaction` is one access to a register of the sensor at
/// bus address `address`: a write of a register address and one word, or a
/// write of a register address followed by a read, of one word if it
/// succeeded.
pub open spec fn register_access<E>(transaction: Transaction<E>, address: u8) -> bool {
    match transaction {
        Transaction::Write { address: target, bytes, outcome } => {
            &&& target == address
            &&& bytes.len() == 3
            &&& Register::defined(bytes[0])
        },
        Transaction::WriteRead { address: target, bytes, reply } => {
            &&& target == address
            &&& bytes.len() == 1
            &&& Register::defined(bytes[0])
            &&& reply matches Ok(word) ==> word.len() == 2
        },
    }
}

/// The register word in the answer to a read.
spec fn reply_word<E>(answer: Result<Seq<u8>, E>) -> Result<u16, E> {
    match answer {
        Ok(reply) => Ok(bytes_word(reply)),
        Err(error) => Err(error),
    }
}

/// The device identifier in the answer to a read of the identification
/// register: the low twelve bits of the word.
pub open spec fn reply_identifier<E>(answer: Result<Seq<u8>, E>) -> Result<u16, E> {
    match answer {
        Ok(reply) => Ok(DeviceId::decode(bytes_word(reply)).did),
        Err(error) => Err(error),
    }
}

/// Whether `result` is the temperature in the answer to a read of a
/// temperature register: the counts in the word times 1/128 degree, or the
/// error of the bus.
pub open spec fn reply_temperature<E>(
    answer: Result<Seq<u8>, E>,
    result: Result<Celsius, E>,
) -> bool {
    match answer {
        Ok(reply) => result matches Ok(celsius) && celsius.is_counts(
            raw_of_word(bytes_word(reply)) as int,
        ),
        Err(error) => result == Err::<Celsius, E>(error),
    }
}

/// What a handle knows of its sensor: where it is, how it was last
/// configured, and what has been put on the bus for it.
struct Session<E> {
    /// The I2C address.
    address: Address,
    /// Configuration register contents
    config: Configuration,
    /// Every transaction put on the bus so far, oldest first.
    issued: Ghost<Seq<Transaction<E>>>,
}

impl<E> Session<E> {
    #[verifier::type_invariant]
    spec fn sound(self) -> bool {
        &&& self.config.wf()
        &&& forall|i: int|
            0 <= i < self.issued@.len() ==> register_access(
                #[trigger] self.issued@[i],
                self.address@,
            )
    }
}

/// TMP117 device driver.
pub struct Tmp117<I2C: Transport> {
    /// The concrete I2C device implementation.
    i2c: I2C,
    /// The sensor as this handle knows it.
    session: Session<I2C::Error>,
}

impl<I2C: Transport> Tmp117<I2C> {
    /// The bus the handle owns.
    pub closed spec fn transport(&self) -> I2C {
        self.i2c
    }

    /// The address of the sensor on the bus.
    pub closed spec fn spec_address(&self) -> Address {
        self.session.address
    }

    /// The configuration that the handle last sent to the sensor, or the
    /// reset configuration if it has sent none.
    pub closed spec fn spec_configuration(&self) -> Configuration {
        self.session.config
    }

    /// Every transaction the handle has put on its bus, oldest first.
    pub closed spec fn transactions(&self) -> Seq<Transaction<I2C::Error>> {
        self.session.issued@
    }

    /// Whether all that the handle has put on its bus are accesses to
    /// registers of the sensor at its address.
    pub open spec fn on_register_map(&self) -> bool {
        forall|i: int|
            0 <= i < self.transactions().len() ==> register_access(
                #[trigger] self.transactions()[i],
                self.address()@,
            )
    }

    /// Whether the handle is at the address it was at `before` and has put
    /// one more transaction on the bus: a write of `word` to `register`,
    /// which the bus answered with `outcome`.
    pub open spec fn wrote(
        &self,
        before: &Self,
        register: Register,
        word: u16,
        outcome: Result<(), I2C::Error>,
    ) -> bool {
        &&& self.address() == before.address()
        &&& self.transactions() == before.transactions().push(
            Transaction::Write {
                address: before.address()@,
                bytes: write_frame(register, word),
                outcome,
            },
        )
    }

    /// Whether the transaction at `position` is a read of `register` from
    /// the sensor.
    pub open spec fn read_at(&self, position: int, register: Register) -> bool {
        &&& 0 <= position < self.transactions().len()
        &&& self.transactions()[position] == Transaction::WriteRead {
            address: self.address()@,
            bytes: read_request(register),
            reply: self.transactions()[position].answer(),
        }
    }

    /// Whether the handle has the address and the configuration it had at
    /// `before` and has put one more transaction on the bus: a read of
    /// `register`.
    pub open spec fn read(&self, before: &Self, register: Register) -> bool {
        &&& self.address() == before.address()
        &&& self.configuration() == before.configuration()
        &&& self.transactions().len() == before.transactions().len() + 1
        &&& self.transactions().drop_last() == before.transactions()
        &&& self.read_at(before.transactions().len() as int, register)
    }

    /// The address of the sensor on the bus.
    #[verifier::when_used_as_spec(spec_address)]
    pub fn address(&self) -> (address: Address)
        ensures
            address == self.spec_address(),
    {
        self.session.address
    }

    /// The configuration that the handle last sent to the sensor, or the
    /// reset configuration if it has sent none. The sensor may hold
    /// another one when a write has failed, or when something else has
    /// written to it.
    #[verifier::when_used_as_spec(spec_configuration)]
    pub fn configuration(&self) -> (configuration: Configuration)
        ensures
            configuration == self.spec_configuration(),
            configuration.wf(),
    {
        proof {
            use_type_invariant(&self.session);
        }
        self.session.config
    }

    /// Create a new instance of TMP117 device with default address.
    pub fn new(i2c: I2C) -> (device: Self)
        ensures
            device.transport() == i2c,
            device.address()@ == ADDRESS_GROUND,
            device.configuration() == Configuration::decode(RESET_CONFIGURATION),
            device.transactions() == Seq::<Transaction<I2C::Error>>::empty(),
    {
        let address = Address::default();
        let config = Configuration::default();
        Self::build_instance(i2c, address, config)
    }

    /// Create a new instance of TMP117 device with given state of ADD0 pin.
    pub fn new_with_add0_connection(i2c: I2C, connection: Add0Connection) -> (device: Self)
        ensures
            device.transport() == i2c,
            device.address()@ == connection.address(),
            device.configuration() == Configuration::decode(RESET_CONFIGURATION),
            device.transactions() == Seq::<Transaction<I2C::Error>>::empty(),
    {
        let address = Address::from(connection);
        let config = Configuration::default();
        Self::build_instance(i2c, address, config)
    }

    /// Create a new instance of TMP117 device with given address.
    pub fn new_with_address(i2c: I2C, address: Address) -> (device: Self)
        ensures
            device.transport() == i2c,
            device.address() == address,
            device.configuration() == Configuration::decode(RESET_CONFIGURATION),
            device.transactions() == Seq::<Transaction<I2C::Error>>::empty(),
    {
        let config = Configuration::default();
        Self::build_instance(i2c, address, config)
    }

    /// Destroy driver instance, return I2C bus instance.
    pub fn destroy(self) -> (i2c: I2C)
        ensures
            i2c == self.transport(),
    {
        self.i2c
    }

    /// Enable the sensor (default state).
    ///
    /// The handle takes the new configuration down before it writes. When
    /// the write fails, the sensor and the handle may disagree.
    pub fn enable(&mut self) -> (result: Result<(), I2C::Error>)
        ensures
            final(self).configuration() == (Configuration {
                mode: ConversionMode::Continuous,
                ..old(self).configuration()
            }),
            final(self).wrote(
                old(self),
                Register::Configuration,
                final(self).configuration().encode(),
                result,
            ),
            final(self).on_register_map(),
    {
        proof {
            use_type_invariant(&self.session);
        }
        self.session.config.mode = ConversionMode::Continuous;
        let contents = word_to_be_bytes(self.session.config.to_bits());
        self.write_register(Register::Configuration, contents)
    }

    /// Disable the sensor.
    ///
    /// The handle takes the new configuration down before it writes. When
    /// the write fails, the sensor and the handle may disagree.
    pub fn disable(&mut self) -> (result: Result<(), I2C::Error>)
        ensures
            final(self).configuration() == (Configuration {
                mode: ConversionMode::Shutdown,
                ..old(self).configuration()
            }),
            final(self).wrote(
                old(self),
                Register::Configuration,
                final(self).configuration().encode(),
                result,
            ),
            final(self).on_register_map(),
    {
        proof {
            use_type_invariant(&self.session);
        }
        self.session.config.mode = ConversionMode::Shutdown;
        let contents = word_to_be_bytes(self.session.config.to_bits());
        self.write_register(Register::Configuration, contents)
    }

    /// Reset the sensor
    ///
    /// The word on the bus has the reset bit set. The handle keeps the
    /// configuration with the bit clear, as the sensor clears it once it
    /// has reset.
    pub fn reset(&mut self) -> (result: Result<(), I2C::Error>)
        ensures
            final(self).configuration() == (Configuration {
                soft_reset: false,
                ..old(self).configuration()
            }),
            final(self).wrote(
                old(self),
                Register::Configuration,
                (Configuration { soft_reset: true, ..old(self).configuration() }).encode(),
                result,
            ),
            final(self).on_register_map(),
    {
        proof {
            use_type_invariant(&self.session);
        }
        self.session.config.soft_reset = true;
        let contents = word_to_be_bytes(self.session.config.to_bits());
        self.session.config.soft_reset = false;
        self.write_register(Register::Configuration, contents)
    }

    /// Set Temperature High Limit
    ///
    /// The limit register takes the whole counts of 1/128 degree in
    /// `limit`, rounded toward zero, or the nearest end of its range.
    pub fn set_thigh_limit(&mut self, limit: Celsius) -> (result: Result<(), I2C::Error>)
        ensures
            final(self).configuration() == old(self).configuration(),
            final(self).wrote(old(self), Register::THighLimit, word_of_raw(limit.raw()), result),
            final(self).on_register_map(),
    {
        let temp = raw_to_word(limit.to_raw());
        let contents = word_to_be_bytes(temp);
        self.write_register(Register::THighLimit, contents)
    }

    /// Set Temperature Low Limit
    ///
    /// The limit register takes the whole counts of 1/128 degree in
    /// `limit`, rounded toward zero, or the nearest end of its range.
    pub fn set_tlow_limit(&mut self, limit: Celsius) -> (result: Result<(), I2C::Error>)
        ensures
            final(self).configuration() == old(self).configuration(),
            final(self).wrote(old(self), Register::TLowLimit, word_of_raw(limit.raw()), result),
            final(self).on_register_map(),
    {
        let temp = raw_to_word(limit.to_raw());
        let contents = word_to_be_bytes(temp);
        self.write_register(Register::TLowLimit, contents)
    }

    fn write_register(&mut self, register: Register, contents: [u8; 2]) -> (result: Result<
        (),
        I2C::Error,
    >)
        ensures
            final(self).configuration() == old(self).configuration(),
            final(self).wrote(old(self), register, bytes_word(contents@), result),
            final(self).on_register_map(),
    {
        let data: [u8; 3] = [register.address(), contents[0], contents[1]];
        let result = self.i2c.write(self.session.address.value(), data.as_slice());
        proof {
            use_type_invariant(&self.session);
            crate::register::lemma_word_bytes_inverse(0, contents@);
            assert(data@ =~= write_frame(register, bytes_word(contents@)));
            self.session.issued@ = self.session.issued@.push(
                Transaction::Write { address: self.session.address@, bytes: data@, outcome: result },
            );
        }
        result
    }

    /// Identify a TMP117 device.
    ///
    /// Builds a handle for the default address and reads the device
    /// identifier once. Gives the handle if the read succeeds and the
    /// identifier is that of a TMP117, and nothing otherwise.
    pub fn identify(i2c: I2C) -> (found: Option<Self>)
        ensures
            exists|probe: Self| #[trigger]
                probe.probed() && probe.address()@ == ADDRESS_GROUND && found == probe.accepted(),
    {
        let address = Address::default();
        let config = Configuration::default();
        Self::validate(i2c, address, config)
    }

    /// Identify a TMP117 device with given state of ADD0 pin.
    ///
    /// Builds a handle for the address of the pin and reads the device
    /// identifier once. Gives the handle if the read succeeds and the
    /// identifier is that of a TMP117, and nothing otherwise.
    pub fn identify_with_add0_connection(i2c: I2C, connection: Add0Connection) -> (found: Option<
        Self,
    >)
        ensures
            exists|probe: Self| #[trigger]
                probe.probed() && probe.address()@ == connection.address() && found
                    == probe.accepted(),
    {
        let address = Address::from(connection);
        let config = Configuration::default();
        Self::validate(i2c, address, config)
    }

    /// Identify TMP117 device with given address.
    ///
    /// Builds a handle for the address and reads the device identifier
    /// once. Gives the handle if the read succeeds and the identifier is
    /// that of a TMP117, and nothing otherwise.
    pub fn identify_with_address(i2c: I2C, address: Address) -> (found: Option<Self>)
        ensures
            exists|probe: Self| #[trigger]
                probe.probed() && probe.address() == address && found == probe.accepted(),
    {
        let config = Configuration::default();
        Self::validate(i2c, address, config)
    }

    /// Whether the handle has asked its sensor for the device identifier
    /// and done nothing else: it holds the reset configuration, and all it
    /// has put on the bus is one read of the identification register.
    pub open spec fn probed(&self) -> bool {
        &&& self.configuration() == Configuration::decode(RESET_CONFIGURATION)
        &&& self.transactions().len() == 1
        &&& self.read_at(0, Register::DeviceId)
        &&& self.on_register_map()
    }

    /// Whether the handle has asked its sensor for the device identifier,
    /// done nothing else, and got the identifier of a TMP117 for an
    /// answer.
    pub open spec fn identified(&self) -> bool {
        &&& self.probed()
        &&& reply_identifier(self.transactions()[0].answer()) == Ok::<u16, I2C::Error>(
            TMP117_DEVICE_ID,
        )
    }

    /// What an identification gives for a handle that has asked its sensor
    /// for the device identifier: the handle if the answer is the
    /// identifier of a TMP117, and nothing if it is another one or the
    /// read has failed.
    pub open spec fn accepted(self) -> Option<Self> {
        if self.identified() {
            Some(self)
        } else {
            None
        }
    }

    /// Read Device ID Register
    ///
    /// Gives the device identifier, the low twelve bits of the register,
    /// without the revision.
    pub fn device_id(&mut self) -> (result: Result<u16, I2C::Error>)
        ensures
            final(self).read(old(self), Register::DeviceId),
            result == reply_identifier(final(self).transactions().last().answer()),
            final(self).on_register_map(),
    {
        match self.read_register(Register::DeviceId) {
            Ok(bytes) => {
                let id = DeviceId::from_bits(bytes);
                Ok(id.did)
            },
            Err(error) => Err(error),
        }
    }

    /// Read temperature in Celsius
    pub fn read_temperature(&mut self) -> (result: Result<Celsius, I2C::Error>)
        ensures
            final(self).read(old(self), Register::TempResult),
            reply_temperature(final(self).transactions().last().answer(), result),
            final(self).on_register_map(),
    {
        match self.read_register(Register::TempResult) {
            Ok(bytes) => Ok(Celsius::from_raw(word_to_raw(bytes))),
            Err(error) => Err(error),
        }
    }

    /// Read temperature limits
    ///
    /// Reads the high limit, then the low limit, and gives them in this
    /// order. These are two transactions: the limits may change between
    /// them. When the first read fails there is no second.
    pub fn read_temperature_limits(&mut self) -> (result: Result<(Celsius, Celsius), I2C::Error>)
        ensures
            final(self).address() == old(self).address(),
            final(self).configuration() == old(self).configuration(),
            final(self).on_register_map(),
            ({
                let before = old(self).transactions();
                let after = final(self).transactions();
                let first = before.len() as int;
                &&& final(self).read_at(first, Register::THighLimit)
                &&& match after[first].answer() {
                    Err(error) => {
                        &&& after == before.push(after[first])
                        &&& result == Err::<(Celsius, Celsius), I2C::Error>(error)
                    },
                    Ok(high_reply) => {
                        &&& after == before.push(after[first]).push(after[first + 1])
                        &&& final(self).read_at(first + 1, Register::TLowLimit)
                        &&& match after[first + 1].answer() {
                            Err(error) => result == Err::<(Celsius, Celsius), I2C::Error>(error),
                            Ok(low_reply) => {
                                &&& result matches Ok(limits)
                                &&& limits.0.is_counts(raw_of_word(bytes_word(high_reply)) as int)
                                &&& limits.1.is_counts(raw_of_word(bytes_word(low_reply)) as int)
                            },
                        }
                    },
                }
            }),
    {
        let bytes = match self.read_register(Register::THighLimit) {
            Ok(bytes) => bytes,
            Err(error) => {
                proof {
                    let after = self.transactions();
                    assert(after =~= after.drop_last().push(after.last()));
                }
                return Err(error);
            },
        };
        let high = Celsius::from_raw(word_to_raw(bytes));
        let ghost middle = self.transactions();
        let bytes = match self.read_register(Register::TLowLimit) {
            Ok(bytes) => bytes,
            Err(error) => {
                proof {
                    let after = self.transactions();
                    assert(middle =~= middle.drop_last().push(middle.last()));
                    assert(after =~= after.drop_last().push(after.last()));
                }
                return Err(error);
            },
        };
        let low = Celsius::from_raw(word_to_raw(bytes));
        proof {
            let after = self.transactions();
            assert(middle =~= middle.drop_last().push(middle.last()));
            assert(after =~= after.drop_last().push(after.last()));
        }
        Ok((high, low))
    }

    /// Decides whether a handle stands for a TMP117, from the answer to a
    /// read of its device identifier: it does if the read succeeded and
    /// gave the identifier of the part.
    pub fn confirm(self, id: Result<u16, I2C::Error>) -> (found: Option<Self>)
        ensures
            found == (if id == Ok::<u16, I2C::Error>(TMP117_DEVICE_ID) {
                Some(self)
            } else {
                None
            }),
    {
        match id {
            Ok(id) => {
                if id != TMP117_DEVICE_ID {
                    None
                } else {
                    Some(self)
                }
            },
            Err(_) => None,
        }
    }

    fn validate(i2c: I2C, address: Address, config: Configuration) -> (found: Option<Self>)
        requires
            config == Configuration::decode(RESET_CONFIGURATION),
        ensures
            exists|probe: Self| #[trigger]
                probe.probed() && probe.address() == address && found == probe.accepted(),
    {
        proof {
            Configuration::lemma_encode_decode(RESET_CONFIGURATION);
        }
        let mut tmp = Self::build_instance(i2c, address, config);
        let id = tmp.device_id();
        proof {
            assert(tmp.transactions().last() == tmp.transactions()[0]);
            assert(tmp.probed());
        }
        tmp.confirm(id)
    }

    fn read_register(&mut self, register: Register) -> (result: Result<u16, I2C::Error>)
        ensures
            final(self).read(old(self), register),
            result == reply_word(final(self).transactions().last().answer()),
            final(self).on_register_map(),
    {
        let mut bytes: [u8; 2] = [0, 0];
        let request: [u8; 1] = [register.address()];
        let answer = self.i2c.write_read(
            self.session.address.value(),
            request.as_slice(),
            &mut bytes,
        );
        let ghost reply: Result<Seq<u8>, I2C::Error> = if answer is Ok {
            Ok(bytes@)
        } else {
            Err(answer->Err_0)
        };
        proof {
            use_type_invariant(&self.session);
            assert(request@ =~= read_request(register));
            self.session.issued@ = self.session.issued@.push(
                Transaction::WriteRead {
                    address: self.session.address@,
                    bytes: request@,
                    reply,
                },
            );
            assert(self.session.issued@.drop_last() =~= old(self).session.issued@);
        }
        match answer {
            Ok(()) => Ok(word_from_be_bytes(bytes)),
            Err(error) => Err(error),
        }
    }

    fn build_instance(i2c: I2C, address: Address, config: Configuration) -> (device: Self)
        requires
            config.wf(),
        ensures
            device.transport() == i2c,
            device.address() == address,
            device.configuration() == config,
            device.transactions() == Seq::<Transaction<I2C::Error>>::empty(),
    {
        Tmp117 { i2c, session: Session { address, config, issued: Ghost(Seq::empty()) } }
    }
}

impl<I2C: Transport + Default> Default for Tmp117<I2C> {
    /// A handle on the default bus, for a sensor at the default address.
    fn default() -> (device: Self)
        ensures
            device.address()@ == ADDRESS_GROUND,
            device.configuration() == Configuration::decode(RESET_CONFIGURATION),
            device.transactions() == Seq::<Transaction<I2C::Error>>::empty(),
    {
        Tmp117::new(I2C::default())
    }
}

} // verus!
