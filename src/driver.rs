//! The driver: reads and writes the charger's registers over an I2C bus, one bus
//! transaction per operation.
use vstd::prelude::*;
use crate::register::{Register, REGISTER_RESET, SGM41511_ADDR};
use crate::types::{
    Reg00Values, Reg01Values, Reg02Values, Reg03Values, Reg04Values, Reg05Values, Reg06Values,
    Reg07Values, Reg08Values, Reg09Values, Reg0aValues,
};

verus! {


/// One transaction that the driver handed to its bus: the device address, the bytes
/// written, the bytes read back (none for a plain write) and what the bus returned.
pub struct BusTransaction<E> {
    pub address: u8,
    pub written: Seq<u8>,
    pub read: Seq<u8>,
    pub outcome: Result<(), E>,
}

/// An I2C bus controller in blocking mode, as the driver uses it. Each call is one bus
/// transaction.
pub trait I2cBus {
    /// The bus's error type, handed to the driver's callers unchanged.
    type Error;

    /// Writes `bytes` to the device at seven-bit `address`, in one transaction.
    fn write(&mut self, address: u8, bytes: &[u8]) -> Result<(), Self::Error>;

    /// Writes `bytes` to the device at seven-bit `address`, then reads enough bytes to fill
    /// `buffer`, in one transaction.
    fn write_read(&mut self, address: u8, bytes: &[u8], buffer: &mut [u8])
        -> Result<(), Self::Error>;
}

/// `after` is `before` with one more transaction at its end.
pub open spec fn adds_one_transaction<E>(
    before: Seq<BusTransaction<E>>,
    after: Seq<BusTransaction<E>>,
) -> bool {
    after == before.push(after.last())
}

/// `t` reads `register`: the charger's address, the register's address written, then
/// one byte read back.
pub open spec fn is_register_read<E>(t: BusTransaction<E>, register: Register) -> bool {
    &&& t.address == SGM41511_ADDR
    &&& t.written == seq![register.spec_address()]
    &&& t.read.len() == 1
}

/// `t` writes `value` to `register`: the charger's address, then the register's address
/// and the value, with nothing read.
pub open spec fn is_register_write<E>(t: BusTransaction<E>, register: Register, value: u8) -> bool {
    &&& t.address == SGM41511_ADDR
    &&& t.written == seq![register.spec_address(), value]
    &&& t.read.len() == 0
}

/// What a one-byte read returns: the byte read, or the bus's error unchanged.
pub open spec fn read_outcome<E>(t: BusTransaction<E>) -> Result<u8, E> {
    match t.outcome {
        Ok(_) => Ok(t.read[0]),
        Err(e) => Err(e),
    }
}


/// The revision that an identity byte (REG0B) reports: bits 1:0, when bits 6:2 hold
/// the marker 0b00101, and none otherwise.
pub open spec fn spec_device_revision(identity: u8) -> Option<u8> {
    if identity & 0x7c == 0x14 {
        Some(identity & 0x03)
    } else {
        None
    }
}

/// Reads the device revision out of an identity byte (REG0B).
pub fn device_revision(identity: u8) -> (r: Option<u8>)
    ensures
        r == spec_device_revision(identity),
        r is Some <==> (identity >> 2) & 0x1f == 0b00101,
        r matches Some(n) ==> n <= 3,
{
    assert(identity & 0x03 <= 3 && (identity & 0x7c == 0x14 <==> (identity >> 2) & 0x1f == 0b00101))
        by (bit_vector);
    if identity & 0x7c == 0x14 {
        Some(identity & 0x03)
    } else {
        None
    }
}

/// The REG0B byte that sets the VINDPM (bit 1) and IINDPM (bit 0) interrupt masks.
pub open spec fn spec_interrupt_masks(vindpm: bool, iindpm: bool) -> u8 {
    (if vindpm { 0x02u8 } else { 0u8 }) | (if iindpm { 0x01u8 } else { 0u8 })
}

/// The REG0B byte that sets the VINDPM and IINDPM interrupt masks; every other bit is
/// left clear.
pub fn interrupt_masks(vindpm: bool, iindpm: bool) -> (r: u8)
    ensures
        r == spec_interrupt_masks(vindpm, iindpm),
{
    (if vindpm { 0x02u8 } else { 0u8 }) | (if iindpm { 0x01u8 } else { 0u8 })
}

/// Driver for the charger, owning the bus it is reached through.
pub struct SGM41511<I2C: I2cBus> {
    i2c: I2C,
    issued: Ghost<Seq<BusTransaction<I2C::Error>>>,
}

impl<I2C: I2cBus> SGM41511<I2C> {
    /// The bus that the driver owns.
    pub closed spec fn bus(&self) -> I2C {
        self.i2c
    }

    /// The transactions that the driver has handed to its bus, oldest first, each with
    /// what the bus returned for it. Each one is recorded beside the bus call that makes it.
    pub closed spec fn transactions(&self) -> Seq<BusTransaction<I2C::Error>> {
        self.issued@
    }

    /// A driver for the charger on `i2c`; nothing is sent on the bus.
    pub fn new(i2c: I2C) -> (r: Self)
        ensures
            r.bus() == i2c,
            r.transactions() == Seq::<BusTransaction<I2C::Error>>::empty(),
    {
        SGM41511 { i2c, issued: Ghost(Seq::empty()) }
    }

    /// Reads one register: writes its address, then reads one byte back, in one
    /// transaction.
    pub fn read_register(&mut self, register: Register) -> (r: Result<u8, I2C::Error>)
        ensures
            adds_one_transaction(old(self).transactions(), final(self).transactions()),
            is_register_read(final(self).transactions().last(), register),
            r == read_outcome(final(self).transactions().last()),
    {
        let mut data = [0u8; 1];
        let frame = register.read_frame();
        let outcome = self.i2c.write_read(SGM41511_ADDR, &frame, &mut data);
        let ghost t = BusTransaction {
            address: SGM41511_ADDR,
            written: frame@,
            read: data@,
            outcome,
        };
        self.issued = Ghost(self.issued@.push(t));
        match outcome {
            Ok(()) => Ok(data[0]),
            Err(e) => Err(e),
        }
    }

    /// Writes one register: its address, then `value`, in one transaction.
    pub fn write_register(&mut self, register: Register, value: u8) -> (r: Result<(), I2C::Error>)
        ensures
            adds_one_transaction(old(self).transactions(), final(self).transactions()),
            is_register_write(final(self).transactions().last(), register, value),
            r == final(self).transactions().last().outcome,
    {
        let frame = register.write_frame(value);
        let outcome = self.i2c.write(SGM41511_ADDR, &frame);
        let ghost t = BusTransaction {
            address: SGM41511_ADDR,
            written: frame@,
            read: Seq::empty(),
            outcome,
        };
        self.issued = Ghost(self.issued@.push(t));
        outcome
    }

    /// Reads the device revision from REG0B: none when its identity marker does not
    /// match.
    pub fn get_device_revision(&mut self) -> (r: Result<Option<u8>, I2C::Error>)
        ensures
            adds_one_transaction(old(self).transactions(), final(self).transactions()),
            is_register_read(final(self).transactions().last(), Register::Reg0b),
            r == (match read_outcome(final(self).transactions().last()) {
                Ok(b) => Ok(spec_device_revision(b)),
                Err(e) => Err(e),
            }),
            r matches Ok(Some(n)) ==> n <= 3,
    {
        let data = self.read_register(Register::Reg0b)?;
        Ok(device_revision(data))
    }

    /// Reads REG00 and splits it into its fields.
    pub fn get_reg00(&mut self) -> (r: Result<Reg00Values, I2C::Error>)
        ensures
            adds_one_transaction(old(self).transactions(), final(self).transactions()),
            is_register_read(final(self).transactions().last(), Register::Reg00),
            r == (match read_outcome(final(self).transactions().last()) {
                Ok(b) => Ok(Reg00Values::decode(b)),
                Err(e) => Err(e),
            }),
    {
        let data = self.read_register(Register::Reg00)?;
        Ok(Reg00Values::from(data))
    }

    /// Writes `value` to REG00 as one whole byte, with no read before it.
    pub fn set_reg00(&mut self, value: Reg00Values) -> (r: Result<(), I2C::Error>)
        ensures
            adds_one_transaction(old(self).transactions(), final(self).transactions()),
            is_register_write(final(self).transactions().last(), Register::Reg00, value.encode()),
            r == final(self).transactions().last().outcome,
    {
        self.write_register(Register::Reg00, u8::from(value))
    }

    /// Reads REG01 and splits it into its fields.
    pub fn get_reg01(&mut self) -> (r: Result<Reg01Values, I2C::Error>)
        ensures
            adds_one_transaction(old(self).transactions(), final(self).transactions()),
            is_register_read(final(self).transactions().last(), Register::Reg01),
            r == (match read_outcome(final(self).transactions().last()) {
                Ok(b) => Ok(Reg01Values::decode(b)),
                Err(e) => Err(e),
            }),
    {
        let data = self.read_register(Register::Reg01)?;
        Ok(Reg01Values::from(data))
    }

    /// Writes `value` to REG01 as one whole byte, with no read before it.
    pub fn set_reg01(&mut self, value: Reg01Values) -> (r: Result<(), I2C::Error>)
        ensures
            adds_one_transaction(old(self).transactions(), final(self).transactions()),
            is_register_write(final(self).transactions().last(), Register::Reg01, value.encode()),
            r == final(self).transactions().last().outcome,
    {
        self.write_register(Register::Reg01, u8::from(value))
    }

    /// Reads REG02 and splits it into its fields.
    pub fn get_reg02(&mut self) -> (r: Result<Reg02Values, I2C::Error>)
        ensures
            adds_one_transaction(old(self).transactions(), final(self).transactions()),
            is_register_read(final(self).transactions().last(), Register::Reg02),
            r == (match read_outcome(final(self).transactions().last()) {
                Ok(b) => Ok(Reg02Values::decode(b)),
                Err(e) => Err(e),
            }),
    {
        let data = self.read_register(Register::Reg02)?;
        Ok(Reg02Values::from(data))
    }

    /// Writes `value` to REG02 as one whole byte, with no read before it.
    pub fn set_reg02(&mut self, value: Reg02Values) -> (r: Result<(), I2C::Error>)
        ensures
            adds_one_transaction(old(self).transactions(), final(self).transactions()),
            is_register_write(final(self).transactions().last(), Register::Reg02, value.encode()),
            r == final(self).transactions().last().outcome,
    {
        self.write_register(Register::Reg02, u8::from(value))
    }

    /// Reads REG03 and splits it into its fields.
    pub fn get_reg03(&mut self) -> (r: Result<Reg03Values, I2C::Error>)
        ensures
            adds_one_transaction(old(self).transactions(), final(self).transactions()),
            is_register_read(final(self).transactions().last(), Register::Reg03),
            r == (match read_outcome(final(self).transactions().last()) {
                Ok(b) => Ok(Reg03Values::decode(b)),
                Err(e) => Err(e),
            }),
    {
        let data = self.read_register(Register::Reg03)?;
        Ok(Reg03Values::from(data))
    }

    /// Writes `value` to REG03 as one whole byte, with no read before it.
    pub fn set_reg03(&mut self, value: Reg03Values) -> (r: Result<(), I2C::Error>)
        ensures
            adds_one_transaction(old(self).transactions(), final(self).transactions()),
            is_register_write(final(self).transactions().last(), Register::Reg03, value.encode()),
            r == final(self).transactions().last().outcome,
    {
        self.write_register(Register::Reg03, u8::from(value))
    }

    /// Reads REG04 and splits it into its fields.
    pub fn get_reg04(&mut self) -> (r: Result<Reg04Values, I2C::Error>)
        ensures
            adds_one_transaction(old(self).transactions(), final(self).transactions()),
            is_register_read(final(self).transactions().last(), Register::Reg04),
            r == (match read_outcome(final(self).transactions().last()) {
                Ok(b) => Ok(Reg04Values::decode(b)),
                Err(e) => Err(e),
            }),
    {
        let data = self.read_register(Register::Reg04)?;
        Ok(Reg04Values::from(data))
    }

    /// Writes `value` to REG04 as one whole byte, with no read before it.
    pub fn set_reg04(&mut self, value: Reg04Values) -> (r: Result<(), I2C::Error>)
        ensures
            adds_one_transaction(old(self).transactions(), final(self).transactions()),
            is_register_write(final(self).transactions().last(), Register::Reg04, value.encode()),
            r == final(self).transactions().last().outcome,
    {
        self.write_register(Register::Reg04, u8::from(value))
    }

    /// Reads REG05 and splits it into its fields.
    pub fn get_reg05(&mut self) -> (r: Result<Reg05Values, I2C::Error>)
        ensures
            adds_one_transaction(old(self).transactions(), final(self).transactions()),
            is_register_read(final(self).transactions().last(), Register::Reg05),
            r == (match read_outcome(final(self).transactions().last()) {
                Ok(b) => Ok(Reg05Values::decode(b)),
                Err(e) => Err(e),
            }),
    {
        let data = self.read_register(Register::Reg05)?;
        Ok(Reg05Values::from(data))
    }

    /// Writes `value` to REG05 as one whole byte, with no read before it.
    pub fn set_reg05(&mut self, value: Reg05Values) -> (r: Result<(), I2C::Error>)
        ensures
            adds_one_transaction(old(self).transactions(), final(self).transactions()),
            is_register_write(final(self).transactions().last(), Register::Reg05, value.encode()),
            r == final(self).transactions().last().outcome,
    {
        self.write_register(Register::Reg05, u8::from(value))
    }

    /// Reads REG06 and splits it into its fields.
    pub fn get_reg06(&mut self) -> (r: Result<Reg06Values, I2C::Error>)
        ensures
            adds_one_transaction(old(self).transactions(), final(self).transactions()),
            is_register_read(final(self).transactions().last(), Register::Reg06),
            r == (match read_outcome(final(self).transactions().last()) {
                Ok(b) => Ok(Reg06Values::decode(b)),
                Err(e) => Err(e),
            }),
    {
        let data = self.read_register(Register::Reg06)?;
        Ok(Reg06Values::from(data))
    }

    /// Writes `value` to REG06 as one whole byte, with no read before it.
    pub fn set_reg06(&mut self, value: Reg06Values) -> (r: Result<(), I2C::Error>)
        ensures
            adds_one_transaction(old(self).transactions(), final(self).transactions()),
            is_register_write(final(self).transactions().last(), Register::Reg06, value.encode()),
            r == final(self).transactions().last().outcome,
    {
        self.write_register(Register::Reg06, u8::from(value))
    }

    /// Reads REG07 and splits it into its fields.
    pub fn get_reg07(&mut self) -> (r: Result<Reg07Values, I2C::Error>)
        ensures
            adds_one_transaction(old(self).transactions(), final(self).transactions()),
            is_register_read(final(self).transactions().last(), Register::Reg07),
            r == (match read_outcome(final(self).transactions().last()) {
                Ok(b) => Ok(Reg07Values::decode(b)),
                Err(e) => Err(e),
            }),
    {
        let data = self.read_register(Register::Reg07)?;
        Ok(Reg07Values::from(data))
    }

    /// Writes `value` to REG07 as one whole byte, with no read before it.
    pub fn set_reg07(&mut self, value: Reg07Values) -> (r: Result<(), I2C::Error>)
        ensures
            adds_one_transaction(old(self).transactions(), final(self).transactions()),
            is_register_write(final(self).transactions().last(), Register::Reg07, value.encode()),
            r == final(self).transactions().last().outcome,
    {
        self.write_register(Register::Reg07, u8::from(value))
    }

    /// Reads REG08 and splits it into its fields.
    pub fn get_reg08(&mut self) -> (r: Result<Reg08Values, I2C::Error>)
        ensures
            adds_one_transaction(old(self).transactions(), final(self).transactions()),
            is_register_read(final(self).transactions().last(), Register::Reg08),
            r == (match read_outcome(final(self).transactions().last()) {
                Ok(b) => Ok(Reg08Values::decode(b)),
                Err(e) => Err(e),
            }),
    {
        let data = self.read_register(Register::Reg08)?;
        Ok(Reg08Values::from(data))
    }

    /// Reads REG09 and splits it into its fields.
    pub fn get_reg09(&mut self) -> (r: Result<Reg09Values, I2C::Error>)
        ensures
            adds_one_transaction(old(self).transactions(), final(self).transactions()),
            is_register_read(final(self).transactions().last(), Register::Reg09),
            r == (match read_outcome(final(self).transactions().last()) {
                Ok(b) => Ok(Reg09Values::decode(b)),
                Err(e) => Err(e),
            }),
    {
        let data = self.read_register(Register::Reg09)?;
        Ok(Reg09Values::from(data))
    }

    /// Reads REG0A and splits it into its fields.
    pub fn get_reg0a(&mut self) -> (r: Result<Reg0aValues, I2C::Error>)
        ensures
            adds_one_transaction(old(self).transactions(), final(self).transactions()),
            is_register_read(final(self).transactions().last(), Register::Reg0a),
            r == (match read_outcome(final(self).transactions().last()) {
                Ok(b) => Ok(Reg0aValues::decode(b)),
                Err(e) => Err(e),
            }),
    {
        let data = self.read_register(Register::Reg0a)?;
        Ok(Reg0aValues::from(data))
    }

    /// Writes `value` to REG0A as one whole byte, with no read before it.
    pub fn set_reg0a(&mut self, value: Reg0aValues) -> (r: Result<(), I2C::Error>)
        ensures
            adds_one_transaction(old(self).transactions(), final(self).transactions()),
            is_register_write(final(self).transactions().last(), Register::Reg0a, value.encode()),
            r == final(self).transactions().last().outcome,
    {
        self.write_register(Register::Reg0a, u8::from(value))
    }

    /// Writes the VINDPM and IINDPM interrupt masks to REG0B.
    pub fn set_interrupt_masks(&mut self, vindpm: bool, iindpm: bool) -> (r: Result<(), I2C::Error>)
        ensures
            adds_one_transaction(old(self).transactions(), final(self).transactions()),
            is_register_write(
                final(self).transactions().last(),
                Register::Reg0b,
                spec_interrupt_masks(vindpm, iindpm),
            ),
            r == final(self).transactions().last().outcome,
    {
        self.write_register(Register::Reg0b, interrupt_masks(vindpm, iindpm))
    }

    /// Resets every register to its default, by writing the reset control byte to REG0B.
    pub fn reset_register(&mut self) -> (r: Result<(), I2C::Error>)
        ensures
            adds_one_transaction(old(self).transactions(), final(self).transactions()),
            is_register_write(final(self).transactions().last(), Register::Reg0b, REGISTER_RESET),
            r == final(self).transactions().last().outcome,
    {
        self.write_register(Register::Reg0b, REGISTER_RESET)
    }
}

} // verus!
