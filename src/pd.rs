//! Power delivery values: the source voltage, current and PDO selection codes,
//! with their display names.
use vstd::prelude::*;
use vstd::std_specs::convert::FromSpecImpl;

verus! {

/// Negotiated source voltage, as coded in the upper nibble of a status byte.
#[derive(Clone, Copy, Debug, PartialEq, Eq, Structural)]
pub enum Voltage {
    /// No source attached (code 0x00).
    Unattached,
    /// 5 V (code 0x10).
    _5v,
    /// 9 V (code 0x20).
    _9v,
    /// 12 V (code 0x30).
    _12v,
    /// 15 V (code 0x40).
    _15v,
    /// 18 V (code 0x50).
    _18v,
    /// 20 V (code 0x60).
    _20v,
    /// Any other code (written as 0x70).
    Reserved,
}

impl Voltage {
    /// The voltage that a code names; every other code is `Reserved`.
    pub open spec fn of_code(value: u8) -> Self {
        if value == 0x00 {
            Voltage::Unattached
        } else if value == 0x10 {
            Voltage::_5v
        } else if value == 0x20 {
            Voltage::_9v
        } else if value == 0x30 {
            Voltage::_12v
        } else if value == 0x40 {
            Voltage::_15v
        } else if value == 0x50 {
            Voltage::_18v
        } else if value == 0x60 {
            Voltage::_20v
        } else {
            Voltage::Reserved
        }
    }
}

impl Voltage {
    /// The code of this voltage; `Reserved` stands for every other code and takes 0x70.
    pub open spec fn spec_code(self) -> u8 {
        match self {
            Voltage::Unattached => 0x00,
            Voltage::_5v => 0x10,
            Voltage::_9v => 0x20,
            Voltage::_12v => 0x30,
            Voltage::_15v => 0x40,
            Voltage::_18v => 0x50,
            Voltage::_20v => 0x60,
            Voltage::Reserved => 0x70,
        }
    }

    /// The code of this voltage, which decodes to it again.
    #[verifier::when_used_as_spec(spec_code)]
    pub fn code(self) -> (r: u8)
        ensures
            r == self.spec_code(),
            Self::of_code(r) == self,
    {
        match self {
            Voltage::Unattached => 0x00,
            Voltage::_5v => 0x10,
            Voltage::_9v => 0x20,
            Voltage::_12v => 0x30,
            Voltage::_15v => 0x40,
            Voltage::_18v => 0x50,
            Voltage::_20v => 0x60,
            Voltage::Reserved => 0x70,
        }
    }
}

impl From<u8> for Voltage {
    /// Decodes a voltage code; codes that name no voltage give `Reserved`.
    fn from(value: u8) -> (r: Self) {
        match value {
            0x00 => Voltage::Unattached,
            0x10 => Voltage::_5v,
            0x20 => Voltage::_9v,
            0x30 => Voltage::_12v,
            0x40 => Voltage::_15v,
            0x50 => Voltage::_18v,
            0x60 => Voltage::_20v,
            _ => Voltage::Reserved,
        }
    }
}

impl FromSpecImpl<u8> for Voltage {
    open spec fn obeys_from_spec() -> bool {
        true
    }

    open spec fn from_spec(v: u8) -> Self {
        Self::of_code(v)
    }
}

impl Voltage {
    /// The display name of the voltage.
    pub open spec fn label(self) -> &'static str {
        match self {
            Voltage::Unattached => "Unattached",
            Voltage::_5v => "5V",
            Voltage::_9v => "9V",
            Voltage::_12v => "12V",
            Voltage::_15v => "15V",
            Voltage::_18v => "18V",
            Voltage::_20v => "20V",
            Voltage::Reserved => "Reserved",
        }
    }
}

impl<'a> From<Voltage> for &'a str {
    /// The display name of a value.
    fn from(value: Voltage) -> (r: &'a str) {
        match value {
            Voltage::Unattached => "Unattached",
            Voltage::_5v => "5V",
            Voltage::_9v => "9V",
            Voltage::_12v => "12V",
            Voltage::_15v => "15V",
            Voltage::_18v => "18V",
            Voltage::_20v => "20V",
            Voltage::Reserved => "Reserved",
        }
    }
}

impl<'a> FromSpecImpl<Voltage> for &'a str {
    open spec fn obeys_from_spec() -> bool {
        true
    }

    open spec fn from_spec(v: Voltage) -> &'a str {
        v.label()
    }
}

/// Negotiated source current, a four-bit code.
#[derive(Clone, Copy, Debug, PartialEq, Eq, Structural)]
pub enum Current {
    /// 0.5 A (code 0x00).
    _0_5a,
    /// 0.7 A (code 0x01).
    _0_7a,
    /// 1.0 A (code 0x02).
    _1_0a,
    /// 1.25 A (code 0x03).
    _1_25a,
    /// 1.5 A (code 0x04).
    _1_5a,
    /// 1.75 A (code 0x05).
    _1_75a,
    /// 2.0 A (code 0x06).
    _2_0a,
    /// 2.25 A (code 0x07).
    _2_25a,
    /// 2.5 A (code 0x08).
    _2_5a,
    /// 2.75 A (code 0x09).
    _2_75a,
    /// 3.0 A (code 0x0a).
    _3_0a,
    /// 3.25 A (code 0x0b).
    _3_25a,
    /// 3.5 A (code 0x0c).
    _3_5a,
    /// 4.0 A (code 0x0d).
    _4_0a,
    /// 4.5 A (code 0x0e).
    _4_5a,
    /// 5.0 A (code 0x0f).
    _5_0a,
}

impl Current {
    /// The four-bit code of this current.
    pub open spec fn code(self) -> u8 {
        self as u8
    }

    /// The current with the given code (one exists for codes up to 0x0f).
    pub open spec fn of_code(value: u8) -> Self {
        choose|c: Self| #[trigger] c.code() == value
    }

    /// Each current has a four-bit code, and that code selects it again.
    pub proof fn lemma_code(self)
        ensures
            self.code() <= 0x0f,
            Self::of_code(self.code()) == self,
    {
    }

    /// Decodes a four-bit code; larger codes name no current and are not accepted.
    pub fn from(value: u8) -> (r: Self)
        requires
            value <= 0x0f,
        ensures
            r.code() == value,
            r == Self::of_code(value),
    {
        let r = match value {
            0x00 => Current::_0_5a,
            0x01 => Current::_0_7a,
            0x02 => Current::_1_0a,
            0x03 => Current::_1_25a,
            0x04 => Current::_1_5a,
            0x05 => Current::_1_75a,
            0x06 => Current::_2_0a,
            0x07 => Current::_2_25a,
            0x08 => Current::_2_5a,
            0x09 => Current::_2_75a,
            0x0a => Current::_3_0a,
            0x0b => Current::_3_25a,
            0x0c => Current::_3_5a,
            0x0d => Current::_4_0a,
            0x0e => Current::_4_5a,
            _ => Current::_5_0a,
        };
        proof {
            r.lemma_code();
        }
        r
    }
}

impl Current {
    /// The display name of the current.
    pub open spec fn label(self) -> &'static str {
        match self {
            Current::_0_5a => "0.5A",
            Current::_0_7a => "0.7A",
            Current::_1_0a => "1.0A",
            Current::_1_25a => "1.25A",
            Current::_1_5a => "1.5A",
            Current::_1_75a => "1.75A",
            Current::_2_0a => "2.0A",
            Current::_2_25a => "2.25A",
            Current::_2_5a => "2.5A",
            Current::_2_75a => "2.75A",
            Current::_3_0a => "3.0A",
            Current::_3_25a => "3.25A",
            Current::_3_5a => "3.5A",
            Current::_4_0a => "4.0A",
            Current::_4_5a => "4.5A",
            Current::_5_0a => "5.0A",
        }
    }
}

impl<'a> From<Current> for &'a str {
    /// The display name of a value.
    fn from(value: Current) -> (r: &'a str) {
        match value {
            Current::_0_5a => "0.5A",
            Current::_0_7a => "0.7A",
            Current::_1_0a => "1.0A",
            Current::_1_25a => "1.25A",
            Current::_1_5a => "1.5A",
            Current::_1_75a => "1.75A",
            Current::_2_0a => "2.0A",
            Current::_2_25a => "2.25A",
            Current::_2_5a => "2.5A",
            Current::_2_75a => "2.75A",
            Current::_3_0a => "3.0A",
            Current::_3_25a => "3.25A",
            Current::_3_5a => "3.5A",
            Current::_4_0a => "4.0A",
            Current::_4_5a => "4.5A",
            Current::_5_0a => "5.0A",
        }
    }
}

impl<'a> FromSpecImpl<Current> for &'a str {
    open spec fn obeys_from_spec() -> bool {
        true
    }

    open spec fn from_spec(v: Current) -> &'a str {
        v.label()
    }
}

/// Selected source PDO, as coded in a status byte.
#[derive(Clone, Copy, Debug, PartialEq, Eq, Structural)]
pub enum SrcPdo {
    /// No PDO selected (code 0x00).
    NotSelected,
    /// 5 V (code 0x10).
    _5v,
    /// 9 V (code 0x20).
    _9v,
    /// 12 V (code 0x30).
    _12v,
    /// 15 V (code 0x80).
    _15v,
    /// 18 V (code 0x90).
    _18v,
    /// 20 V (code 0xa0).
    _20v,
    /// Any other code (written as 0xf0).
    Reserved,
}

impl SrcPdo {
    /// The PDO that a code names; every other code is `Reserved`.
    pub open spec fn of_code(value: u8) -> Self {
        if value == 0x00 {
            SrcPdo::NotSelected
        } else if value == 0x10 {
            SrcPdo::_5v
        } else if value == 0x20 {
            SrcPdo::_9v
        } else if value == 0x30 {
            SrcPdo::_12v
        } else if value == 0x80 {
            SrcPdo::_15v
        } else if value == 0x90 {
            SrcPdo::_18v
        } else if value == 0xa0 {
            SrcPdo::_20v
        } else {
            SrcPdo::Reserved
        }
    }
}

impl SrcPdo {
    /// The code of this PDO; `Reserved` stands for every other code and takes 0xf0.
    pub open spec fn spec_code(self) -> u8 {
        match self {
            SrcPdo::NotSelected => 0x00,
            SrcPdo::_5v => 0x10,
            SrcPdo::_9v => 0x20,
            SrcPdo::_12v => 0x30,
            SrcPdo::_15v => 0x80,
            SrcPdo::_18v => 0x90,
            SrcPdo::_20v => 0xa0,
            SrcPdo::Reserved => 0xf0,
        }
    }

    /// The code of this PDO, which decodes to it again.
    #[verifier::when_used_as_spec(spec_code)]
    pub fn code(self) -> (r: u8)
        ensures
            r == self.spec_code(),
            Self::of_code(r) == self,
    {
        match self {
            SrcPdo::NotSelected => 0x00,
            SrcPdo::_5v => 0x10,
            SrcPdo::_9v => 0x20,
            SrcPdo::_12v => 0x30,
            SrcPdo::_15v => 0x80,
            SrcPdo::_18v => 0x90,
            SrcPdo::_20v => 0xa0,
            SrcPdo::Reserved => 0xf0,
        }
    }
}

impl From<u8> for SrcPdo {
    /// Decodes a PDO code; codes that name no PDO give `Reserved`.
    fn from(value: u8) -> (r: Self) {
        match value {
            0x00 => SrcPdo::NotSelected,
            0x10 => SrcPdo::_5v,
            0x20 => SrcPdo::_9v,
            0x30 => SrcPdo::_12v,
            0x80 => SrcPdo::_15v,
            0x90 => SrcPdo::_18v,
            0xa0 => SrcPdo::_20v,
            _ => SrcPdo::Reserved,
        }
    }
}

impl FromSpecImpl<u8> for SrcPdo {
    open spec fn obeys_from_spec() -> bool {
        true
    }

    open spec fn from_spec(v: u8) -> Self {
        Self::of_code(v)
    }
}

impl SrcPdo {
    /// The display name of the PDO.
    pub open spec fn label(self) -> &'static str {
        match self {
            SrcPdo::NotSelected => "NotSelected",
            SrcPdo::_5v => "5V",
            SrcPdo::_9v => "9V",
            SrcPdo::_12v => "12V",
            SrcPdo::_15v => "15V",
            SrcPdo::_18v => "18V",
            SrcPdo::_20v => "20V",
            SrcPdo::Reserved => "Reserved",
        }
    }
}

impl<'a> From<SrcPdo> for &'a str {
    /// The display name of a value.
    fn from(value: SrcPdo) -> (r: &'a str) {
        match value {
            SrcPdo::NotSelected => "NotSelected",
            SrcPdo::_5v => "5V",
            SrcPdo::_9v => "9V",
            SrcPdo::_12v => "12V",
            SrcPdo::_15v => "15V",
            SrcPdo::_18v => "18V",
            SrcPdo::_20v => "20V",
            SrcPdo::Reserved => "Reserved",
        }
    }
}

impl<'a> FromSpecImpl<SrcPdo> for &'a str {
    open spec fn obeys_from_spec() -> bool {
        true
    }

    open spec fn from_spec(v: SrcPdo) -> &'a str {
        v.label()
    }
}

} // verus!
