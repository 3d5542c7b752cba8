//! The register map: the charger's bus address, its registers' addresses and
//! which of them can be written.
use vstd::prelude::*;

verus! {

/// Seven-bit bus address of the charger.
pub const SGM41511_ADDR: u8 = 0x6b;

/// Control byte that, written to REG0B, resets every register to its default.
pub const REGISTER_RESET: u8 = 0x80;

/// Whether a register can be written.
#[derive(Clone, Copy, Debug, PartialEq, Eq, Structural)]
pub enum Access {
    /// Read and written as a whole byte.
    ReadWrite,
    /// Status or fault bits, read only.
    ReadOnly,
}

/// The charger's registers, each one byte wide.
#[derive(Clone, Copy, Debug, PartialEq, Eq, Structural)]
pub enum Register {
    /// Input current limit control.
    Reg00,
    /// Charger control.
    Reg01,
    /// Charge current control.
    Reg02,
    /// Pre-charge and termination current.
    Reg03,
    /// Charge voltage control.
    Reg04,
    /// Charge termination and timer control.
    Reg05,
    /// Input and boost voltage control.
    Reg06,
    /// Input detection and BATFET control.
    Reg07,
    /// Status bits, read only.
    Reg08,
    /// Fault bits, read only.
    Reg09,
    /// Input status and interrupt masks.
    Reg0a,
    /// Interrupt masks, register reset and device identity.
    Reg0b,
}

impl Register {
    /// The register's address: `Reg00` is at 0x00 and each next register at the next
    /// address, up to `Reg0b` at 0x0b.
    pub open spec fn spec_address(self) -> u8 {
        self as u8
    }

    /// The register's address.
    #[verifier::when_used_as_spec(spec_address)]
    pub fn address(self) -> (r: u8)
        ensures
            r == self.spec_address(),
            r <= 0x0b,
    {
        self as u8
    }

    /// The bytes that select the register for a read: its address alone.
    pub fn read_frame(self) -> (r: [u8; 1])
        ensures
            r@ == seq![self.spec_address()],
    {
        [self as u8]
    }

    /// The bytes that write `value` to the register: its address, then the value.
    pub fn write_frame(self, value: u8) -> (r: [u8; 2])
        ensures
            r@ == seq![self.spec_address(), value],
    {
        [self as u8, value]
    }

    /// REG08 and REG09 are read only; every other register can be written.
    pub open spec fn spec_access(self) -> Access {
        match self {
            Register::Reg08 | Register::Reg09 => Access::ReadOnly,
            _ => Access::ReadWrite,
        }
    }

    /// Whether the register can be written.
    #[verifier::when_used_as_spec(spec_access)]
    pub fn access(self) -> (r: Access)
        ensures
            r == self.spec_access(),
    {
        match self {
            Register::Reg08 | Register::Reg09 => Access::ReadOnly,
            _ => Access::ReadWrite,
        }
    }
}

/// Distinct registers have distinct addresses.
pub proof fn lemma_address_injective(a: Register, b: Register)
    requires
        a.address() == b.address(),
    ensures
        a == b,
{
}

} // verus!
