//! Field codecs of the charger's registers: each register value splits into named
//! fields and packs back into one byte.
use vstd::prelude::*;
use vstd::std_specs::convert::FromSpecImpl;

verus! {

/// `value`, limited to `max`: the code that a field with a hardware maximum takes.
pub open spec fn clamped(value: u8, max: u8) -> u8 {
    if value <= max {
        value
    } else {
        max
    }
}

/// Input current limit (IINDPM), 100 mA to 3200 mA in 100 mA steps.
#[derive(Clone, Copy, Debug, PartialEq, Eq, Structural)]
pub enum InputCurrentLimit {
    /// 100 mA (code 0x00).
    _100mA,
    /// 200 mA (code 0x01).
    _200mA,
    /// 300 mA (code 0x02).
    _300mA,
    /// 400 mA (code 0x03).
    _400mA,
    /// 500 mA (code 0x04).
    _500mA,
    /// 600 mA (code 0x05).
    _600mA,
    /// 700 mA (code 0x06).
    _700mA,
    /// 800 mA (code 0x07).
    _800mA,
    /// 900 mA (code 0x08).
    _900mA,
    /// 1000 mA (code 0x09).
    _1000mA,
    /// 1100 mA (code 0x0a).
    _1100mA,
    /// 1200 mA (code 0x0b).
    _1200mA,
    /// 1300 mA (code 0x0c).
    _1300mA,
    /// 1400 mA (code 0x0d).
    _1400mA,
    /// 1500 mA (code 0x0e).
    _1500mA,
    /// 1600 mA (code 0x0f).
    _1600mA,
    /// 1700 mA (code 0x10).
    _1700mA,
    /// 1800 mA (code 0x11).
    _1800mA,
    /// 1900 mA (code 0x12).
    _1900mA,
    /// 2000 mA (code 0x13).
    _2000mA,
    /// 2100 mA (code 0x14).
    _2100mA,
    /// 2200 mA (code 0x15).
    _2200mA,
    /// 2300 mA (code 0x16).
    _2300mA,
    /// 2400 mA (code 0x17).
    _2400mA,
    /// 2500 mA (code 0x18).
    _2500mA,
    /// 2600 mA (code 0x19).
    _2600mA,
    /// 2700 mA (code 0x1a).
    _2700mA,
    /// 2800 mA (code 0x1b).
    _2800mA,
    /// 2900 mA (code 0x1c).
    _2900mA,
    /// 3000 mA (code 0x1d).
    _3000mA,
    /// 3100 mA (code 0x1e).
    _3100mA,
    /// 3200 mA (code 0x1f).
    _3200mA,
}

impl InputCurrentLimit {
    /// The code of this setting in its register field.
    pub open spec fn code(self) -> u8 {
        self as u8
    }

    /// The setting that a raw code selects: codes above 0x1f select the largest one.
    pub open spec fn of_code(value: u8) -> Self {
        choose|c: Self| #[trigger] c.code() == clamped(value, 0x1f)
    }

    /// Each setting has a code within the field, and that code selects it again.
    pub proof fn lemma_code(self)
        ensures
            self.code() <= 0x1f,
            Self::of_code(self.code()) == self,
    {
    }
}

impl From<u8> for InputCurrentLimit {
    /// Decodes a field code; codes above 0x1f are clamped to the largest setting.
    fn from(value: u8) -> (r: Self)
        ensures
            r.code() == clamped(value, 0x1f),
            value >= 0x1f ==> r == InputCurrentLimit::_3200mA,
    {
        let r = match value {
            0x00 => InputCurrentLimit::_100mA,
            0x01 => InputCurrentLimit::_200mA,
            0x02 => InputCurrentLimit::_300mA,
            0x03 => InputCurrentLimit::_400mA,
            0x04 => InputCurrentLimit::_500mA,
            0x05 => InputCurrentLimit::_600mA,
            0x06 => InputCurrentLimit::_700mA,
            0x07 => InputCurrentLimit::_800mA,
            0x08 => InputCurrentLimit::_900mA,
            0x09 => InputCurrentLimit::_1000mA,
            0x0a => InputCurrentLimit::_1100mA,
            0x0b => InputCurrentLimit::_1200mA,
            0x0c => InputCurrentLimit::_1300mA,
            0x0d => InputCurrentLimit::_1400mA,
            0x0e => InputCurrentLimit::_1500mA,
            0x0f => InputCurrentLimit::_1600mA,
            0x10 => InputCurrentLimit::_1700mA,
            0x11 => InputCurrentLimit::_1800mA,
            0x12 => InputCurrentLimit::_1900mA,
            0x13 => InputCurrentLimit::_2000mA,
            0x14 => InputCurrentLimit::_2100mA,
            0x15 => InputCurrentLimit::_2200mA,
            0x16 => InputCurrentLimit::_2300mA,
            0x17 => InputCurrentLimit::_2400mA,
            0x18 => InputCurrentLimit::_2500mA,
            0x19 => InputCurrentLimit::_2600mA,
            0x1a => InputCurrentLimit::_2700mA,
            0x1b => InputCurrentLimit::_2800mA,
            0x1c => InputCurrentLimit::_2900mA,
            0x1d => InputCurrentLimit::_3000mA,
            0x1e => InputCurrentLimit::_3100mA,
            _ => InputCurrentLimit::_3200mA,
        };
        proof {
            r.lemma_code();
        }
        r
    }
}

impl FromSpecImpl<u8> for InputCurrentLimit {
    open spec fn obeys_from_spec() -> bool {
        true
    }

    open spec fn from_spec(v: u8) -> Self {
        Self::of_code(v)
    }
}

/// REG00: input current limit control.
#[derive(Clone, Copy, Debug, PartialEq, Eq, Structural)]
pub struct Reg00Values {
    /// HIZ mode: VBUS is disconnected from the internal circuit (some leakage may remain).
    pub en_hiz: bool,
    /// STAT pin (charge status indicator) enabled; on exactly when bits 6:5 are both clear.
    pub en_ichg_mon: bool,
    /// Input current limit, 100 mA to 3200 mA.
    pub input_milliamps_limit: InputCurrentLimit,
}

impl Reg00Values {
    /// The fields that a register byte holds.
    pub open spec fn decode(value: u8) -> Self {
        Reg00Values {
            en_hiz: value & 0x80 != 0,
            en_ichg_mon: value & 0x60 == 0,
            input_milliamps_limit: InputCurrentLimit::of_code(value & 0x1f),
        }
    }

    /// The register byte that holds these fields.
    pub open spec fn encode(self) -> u8 {
        (if self.en_hiz { 0x80u8 } else { 0u8 }) | (if self.en_ichg_mon { 0u8 } else { 0x60u8 })
            | self.input_milliamps_limit.code()
    }

    /// Decoding the byte that encodes a value gives the value back.
    pub proof fn lemma_round_trip(self)
        ensures
            Self::decode(self.encode()) == self,
    {
        self.input_milliamps_limit.lemma_code();
        let (a, b, c) = (self.en_hiz, self.en_ichg_mon, self.input_milliamps_limit.code());
        let v = self.encode();
        assert((v & 0x80 != 0 <==> a) && (v & 0x60 == 0 <==> b) && v & 0x1f == c) by (bit_vector)
            requires
                v == (if a { 0x80u8 } else { 0u8 }) | (if b { 0u8 } else { 0x60u8 }) | c,
                c <= 0x1f,
        ;
    }
}

impl From<u8> for Reg00Values {
    /// Splits a register byte into its fields.
    fn from(value: u8) -> (r: Self)
        ensures
            r == Self::decode(value),
    {
        Reg00Values {
            en_hiz: value & 0x80 != 0,
            en_ichg_mon: value & 0x60 == 0,
            input_milliamps_limit: InputCurrentLimit::from(value & 0x1f),
        }
    }
}

impl FromSpecImpl<u8> for Reg00Values {
    open spec fn obeys_from_spec() -> bool {
        true
    }

    open spec fn from_spec(v: u8) -> Self {
        Self::decode(v)
    }
}

impl From<Reg00Values> for u8 {
    /// Packs the fields into a register byte.
    fn from(value: Reg00Values) -> (r: u8)
        ensures
            r == value.encode(),
    {
        (if value.en_hiz { 0x80u8 } else { 0u8 }) | (if value.en_ichg_mon { 0u8 } else { 0x60u8 })
            | value.input_milliamps_limit as u8
    }
}

impl FromSpecImpl<Reg00Values> for u8 {
    open spec fn obeys_from_spec() -> bool {
        true
    }

    open spec fn from_spec(v: Reg00Values) -> u8 {
        v.encode()
    }
}

/// Minimum system voltage (SYS_MIN).
#[derive(Clone, Copy, Debug, PartialEq, Eq, Structural)]
pub enum MinSystemVoltage {
    /// 2.6 V (code 0x00).
    _2_6V,
    /// 2.8 V (code 0x01).
    _2_8V,
    /// 3.0 V (code 0x02).
    _3_0V,
    /// 3.2 V (code 0x03).
    _3_2V,
    /// 3.4 V (code 0x04).
    _3_4V,
    /// 3.5 V (code 0x05).
    _3_5V,
    /// 3.6 V (code 0x06).
    _3_6V,
    /// 3.7 V (code 0x07).
    _3_7V,
}

impl MinSystemVoltage {
    /// The code of this setting in its register field.
    pub open spec fn code(self) -> u8 {
        self as u8
    }

    /// The setting with the given code (one exists for codes up to 0x07).
    pub open spec fn of_code(value: u8) -> Self {
        choose|c: Self| #[trigger] c.code() == value
    }

    /// Each setting has a code within the field, and that code selects it again.
    pub proof fn lemma_code(self)
        ensures
            self.code() <= 0x07,
            Self::of_code(self.code()) == self,
    {
    }
}

/// Minimum battery voltage for boost (OTG) mode.
#[derive(Clone, Copy, Debug, PartialEq, Eq, Structural)]
pub enum MinBatteryVoltageForOtG {
    /// 2.95 V (code 0x00).
    _2_95V,
    /// 2.6 V (code 0x01).
    _2_6V,
}

impl MinBatteryVoltageForOtG {
    /// The code of this setting in its register field.
    pub open spec fn code(self) -> u8 {
        self as u8
    }

    /// The setting with the given code (one exists for codes up to 0x01).
    pub open spec fn of_code(value: u8) -> Self {
        choose|c: Self| #[trigger] c.code() == value
    }

    /// Each setting has a code within the field, and that code selects it again.
    pub proof fn lemma_code(self)
        ensures
            self.code() <= 0x01,
            Self::of_code(self.code()) == self,
    {
    }
}

/// REG01: charger control.
#[derive(Clone, Copy, Debug, PartialEq, Eq, Structural)]
pub struct Reg01Values {
    /// PFM mode disabled in light load.
    pub pfm_disabled: bool,
    /// I2C watchdog timer reset.
    pub watchdog_reset: bool,
    /// Boost (OTG) mode enabled.
    pub otg_enabled: bool,
    /// Charging enabled.
    pub charge_enabled: bool,
    /// Minimum system voltage.
    pub sys_min_voltage: MinSystemVoltage,
    /// Minimum battery voltage for OTG mode.
    pub min_bat_sel: MinBatteryVoltageForOtG,
}

impl Reg01Values {
    /// The fields that a register byte holds.
    pub open spec fn decode(value: u8) -> Self {
        Reg01Values {
            pfm_disabled: value & 0x80 != 0,
            watchdog_reset: value & 0x40 != 0,
            otg_enabled: value & 0x20 != 0,
            charge_enabled: value & 0x10 != 0,
            sys_min_voltage: MinSystemVoltage::of_code((value >> 1) & 0x07),
            min_bat_sel: MinBatteryVoltageForOtG::of_code(value & 0x01),
        }
    }

    /// The register byte that holds these fields.
    pub open spec fn encode(self) -> u8 {
        (if self.pfm_disabled { 0x80u8 } else { 0u8 })
            | (if self.watchdog_reset { 0x40u8 } else { 0u8 })
            | (if self.otg_enabled { 0x20u8 } else { 0u8 })
            | (if self.charge_enabled { 0x10u8 } else { 0u8 }) | (self.sys_min_voltage.code() << 1)
            | self.min_bat_sel.code()
    }

    /// Decoding the byte that encodes a value gives the value back.
    pub proof fn lemma_round_trip(self)
        ensures
            Self::decode(self.encode()) == self,
    {
        self.sys_min_voltage.lemma_code();
        self.min_bat_sel.lemma_code();
        let x_pfm_disabled = self.pfm_disabled;
        let x_watchdog_reset = self.watchdog_reset;
        let x_otg_enabled = self.otg_enabled;
        let x_charge_enabled = self.charge_enabled;
        let x_sys_min_voltage = self.sys_min_voltage.code();
        let x_min_bat_sel = self.min_bat_sel.code();
        let v = self.encode();
        assert(
            (v & 0x80 != 0 <==> x_pfm_disabled)
                && (v & 0x40 != 0 <==> x_watchdog_reset)
                && (v & 0x20 != 0 <==> x_otg_enabled)
                && (v & 0x10 != 0 <==> x_charge_enabled)
                && (v >> 1) & 0x07 == x_sys_min_voltage
                && v & 0x01 == x_min_bat_sel
        ) by (bit_vector)
            requires
                v == (if x_pfm_disabled { 0x80u8 } else { 0u8 })
                    | (if x_watchdog_reset { 0x40u8 } else { 0u8 })
                    | (if x_otg_enabled { 0x20u8 } else { 0u8 })
                    | (if x_charge_enabled { 0x10u8 } else { 0u8 }) | (x_sys_min_voltage << 1)
                    | x_min_bat_sel,
                x_sys_min_voltage <= 0x07,
                x_min_bat_sel <= 0x01,
        ;
    }
}

impl From<u8> for Reg01Values {
    /// Splits a register byte into its fields.
    fn from(value: u8) -> (r: Self)
        ensures
            r == Self::decode(value),
    {
        assert((value >> 1) & 0x07 <= 0x07 && value & 0x01 <= 0x01) by (bit_vector);
        let sys_min_voltage = match (value >> 1) & 0x07 {
            0x00 => MinSystemVoltage::_2_6V,
            0x01 => MinSystemVoltage::_2_8V,
            0x02 => MinSystemVoltage::_3_0V,
            0x03 => MinSystemVoltage::_3_2V,
            0x04 => MinSystemVoltage::_3_4V,
            0x05 => MinSystemVoltage::_3_5V,
            0x06 => MinSystemVoltage::_3_6V,
            _ => MinSystemVoltage::_3_7V,
        };
        let min_bat_sel = match value & 0x01 {
            0x00 => MinBatteryVoltageForOtG::_2_95V,
            _ => MinBatteryVoltageForOtG::_2_6V,
        };
        proof {
            sys_min_voltage.lemma_code();
            min_bat_sel.lemma_code();
        }
        Reg01Values {
            pfm_disabled: value & 0x80 != 0,
            watchdog_reset: value & 0x40 != 0,
            otg_enabled: value & 0x20 != 0,
            charge_enabled: value & 0x10 != 0,
            sys_min_voltage,
            min_bat_sel,
        }
    }
}

impl FromSpecImpl<u8> for Reg01Values {
    open spec fn obeys_from_spec() -> bool {
        true
    }

    open spec fn from_spec(v: u8) -> Self {
        Self::decode(v)
    }
}

impl From<Reg01Values> for u8 {
    /// Packs the fields into a register byte.
    fn from(value: Reg01Values) -> (r: u8)
        ensures
            r == value.encode(),
    {
        (if value.pfm_disabled { 0x80u8 } else { 0u8 })
            | (if value.watchdog_reset { 0x40u8 } else { 0u8 })
            | (if value.otg_enabled { 0x20u8 } else { 0u8 })
            | (if value.charge_enabled { 0x10u8 } else { 0u8 })
            | ((value.sys_min_voltage as u8) << 1) | (value.min_bat_sel as u8)
    }
}

impl FromSpecImpl<Reg01Values> for u8 {
    open spec fn obeys_from_spec() -> bool {
        true
    }

    open spec fn from_spec(v: Reg01Values) -> u8 {
        v.encode()
    }
}

/// Boost mode current limit.
#[derive(Clone, Copy, Debug, PartialEq, Eq, Structural)]
pub enum BoostCurrentLimit {
    /// 0.5 A (code 0x00).
    _0_5A,
    /// 1.25 A (code 0x01).
    _1_25A,
}

impl BoostCurrentLimit {
    /// The code of this setting in its register field.
    pub open spec fn code(self) -> u8 {
        self as u8
    }

    /// The setting with the given code (one exists for codes up to 0x01).
    pub open spec fn of_code(value: u8) -> Self {
        choose|c: Self| #[trigger] c.code() == value
    }

    /// Each setting has a code within the field, and that code selects it again.
    pub proof fn lemma_code(self)
        ensures
            self.code() <= 0x01,
            Self::of_code(self.code()) == self,
    {
    }
}

/// Q1 (RBFET) drive mode.
#[derive(Clone, Copy, Debug, PartialEq, Eq, Structural)]
pub enum Q1FullOnMode {
    /// Higher R_DSON while I_INDPM < 750 mA, for better accuracy (code 0x00).
    Accuracy,
    /// Lower R_DSON always, fully on for better efficiency (code 0x01).
    Efficiency,
}

impl Q1FullOnMode {
    /// The code of this setting in its register field.
    pub open spec fn code(self) -> u8 {
        self as u8
    }

    /// The setting with the given code (one exists for codes up to 0x01).
    pub open spec fn of_code(value: u8) -> Self {
        choose|c: Self| #[trigger] c.code() == value
    }

    /// Each setting has a code within the field, and that code selects it again.
    pub proof fn lemma_code(self)
        ensures
            self.code() <= 0x01,
            Self::of_code(self.code()) == self,
    {
    }
}

/// Fast charge current (ICHG), 0 mA to 3000 mA in 60 mA steps.
#[derive(Clone, Copy, Debug, PartialEq, Eq, Structural)]
pub enum ChargeCurrent {
    /// 0 mA (code 0x00).
    _0mA,
    /// 60 mA (code 0x01).
    _60mA,
    /// 120 mA (code 0x02).
    _120mA,
    /// 180 mA (code 0x03).
    _180mA,
    /// 240 mA (code 0x04).
    _240mA,
    /// 300 mA (code 0x05).
    _300mA,
    /// 360 mA (code 0x06).
    _360mA,
    /// 420 mA (code 0x07).
    _420mA,
    /// 480 mA (code 0x08).
    _480mA,
    /// 540 mA (code 0x09).
    _540mA,
    /// 600 mA (code 0x0a).
    _600mA,
    /// 660 mA (code 0x0b).
    _660mA,
    /// 720 mA (code 0x0c).
    _720mA,
    /// 780 mA (code 0x0d).
    _780mA,
    /// 840 mA (code 0x0e).
    _840mA,
    /// 900 mA (code 0x0f).
    _900mA,
    /// 960 mA (code 0x10).
    _960mA,
    /// 1020 mA (code 0x11).
    _1020mA,
    /// 1080 mA (code 0x12).
    _1080mA,
    /// 1140 mA (code 0x13).
    _1140mA,
    /// 1200 mA (code 0x14).
    _1200mA,
    /// 1260 mA (code 0x15).
    _1260mA,
    /// 1320 mA (code 0x16).
    _1320mA,
    /// 1380 mA (code 0x17).
    _1380mA,
    /// 1440 mA (code 0x18).
    _1440mA,
    /// 1500 mA (code 0x19).
    _1500mA,
    /// 1560 mA (code 0x1a).
    _1560mA,
    /// 1620 mA (code 0x1b).
    _1620mA,
    /// 1680 mA (code 0x1c).
    _1680mA,
    /// 1740 mA (code 0x1d).
    _1740mA,
    /// 1800 mA (code 0x1e).
    _1800mA,
    /// 1860 mA (code 0x1f).
    _1860mA,
    /// 1920 mA (code 0x20).
    _1920mA,
    /// 1980 mA (code 0x21).
    _1980mA,
    /// 2040 mA (code 0x22).
    _2040mA,
    /// 2100 mA (code 0x23).
    _2100mA,
    /// 2160 mA (code 0x24).
    _2160mA,
    /// 2220 mA (code 0x25).
    _2220mA,
    /// 2280 mA (code 0x26).
    _2280mA,
    /// 2340 mA (code 0x27).
    _2340mA,
    /// 2400 mA (code 0x28).
    _2400mA,
    /// 2460 mA (code 0x29).
    _2460mA,
    /// 2520 mA (code 0x2a).
    _2520mA,
    /// 2580 mA (code 0x2b).
    _2580mA,
    /// 2640 mA (code 0x2c).
    _2640mA,
    /// 2700 mA (code 0x2d).
    _2700mA,
    /// 2760 mA (code 0x2e).
    _2760mA,
    /// 2820 mA (code 0x2f).
    _2820mA,
    /// 2880 mA (code 0x30).
    _2880mA,
    /// 2940 mA (code 0x31).
    _2940mA,
    /// 3000 mA (code 0x32).
    _3000mA,
}

impl ChargeCurrent {
    /// The code of this setting in its register field.
    pub open spec fn code(self) -> u8 {
        self as u8
    }

    /// The setting that a raw code selects: the code is read from the low six bits, and
    /// codes above 0x32 select the largest setting.
    pub open spec fn of_code(value: u8) -> Self {
        choose|c: Self| #[trigger] c.code() == clamped(value & 0x3f, 0x32)
    }

    /// Each setting has a code within the field, and that code selects it again.
    pub proof fn lemma_code(self)
        ensures
            self.code() <= 0x32,
            Self::of_code(self.code()) == self,
    {
        let c = self.code();
        assert(c & 0x3f == c) by (bit_vector)
            requires
                c <= 0x32,
        ;
    }
}

impl From<u8> for ChargeCurrent {
    /// Decodes the low six bits of `value`; codes above 0x32 are clamped to the largest setting.
    fn from(value: u8) -> (r: Self)
        ensures
            r.code() == clamped(value & 0x3f, 0x32),
            (value & 0x3f) >= 0x32 ==> r == ChargeCurrent::_3000mA,
    {
        let r = match value & 0x3f {
            0x00 => ChargeCurrent::_0mA,
            0x01 => ChargeCurrent::_60mA,
            0x02 => ChargeCurrent::_120mA,
            0x03 => ChargeCurrent::_180mA,
            0x04 => ChargeCurrent::_240mA,
            0x05 => ChargeCurrent::_300mA,
            0x06 => ChargeCurrent::_360mA,
            0x07 => ChargeCurrent::_420mA,
            0x08 => ChargeCurrent::_480mA,
            0x09 => ChargeCurrent::_540mA,
            0x0a => ChargeCurrent::_600mA,
            0x0b => ChargeCurrent::_660mA,
            0x0c => ChargeCurrent::_720mA,
            0x0d => ChargeCurrent::_780mA,
            0x0e => ChargeCurrent::_840mA,
            0x0f => ChargeCurrent::_900mA,
            0x10 => ChargeCurrent::_960mA,
            0x11 => ChargeCurrent::_1020mA,
            0x12 => ChargeCurrent::_1080mA,
            0x13 => ChargeCurrent::_1140mA,
            0x14 => ChargeCurrent::_1200mA,
            0x15 => ChargeCurrent::_1260mA,
            0x16 => ChargeCurrent::_1320mA,
            0x17 => ChargeCurrent::_1380mA,
            0x18 => ChargeCurrent::_1440mA,
            0x19 => ChargeCurrent::_1500mA,
            0x1a => ChargeCurrent::_1560mA,
            0x1b => ChargeCurrent::_1620mA,
            0x1c => ChargeCurrent::_1680mA,
            0x1d => ChargeCurrent::_1740mA,
            0x1e => ChargeCurrent::_1800mA,
            0x1f => ChargeCurrent::_1860mA,
            0x20 => ChargeCurrent::_1920mA,
            0x21 => ChargeCurrent::_1980mA,
            0x22 => ChargeCurrent::_2040mA,
            0x23 => ChargeCurrent::_2100mA,
            0x24 => ChargeCurrent::_2160mA,
            0x25 => ChargeCurrent::_2220mA,
            0x26 => ChargeCurrent::_2280mA,
            0x27 => ChargeCurrent::_2340mA,
            0x28 => ChargeCurrent::_2400mA,
            0x29 => ChargeCurrent::_2460mA,
            0x2a => ChargeCurrent::_2520mA,
            0x2b => ChargeCurrent::_2580mA,
            0x2c => ChargeCurrent::_2640mA,
            0x2d => ChargeCurrent::_2700mA,
            0x2e => ChargeCurrent::_2760mA,
            0x2f => ChargeCurrent::_2820mA,
            0x30 => ChargeCurrent::_2880mA,
            0x31 => ChargeCurrent::_2940mA,
            _ => ChargeCurrent::_3000mA,
        };
        proof {
            r.lemma_code();
        }
        r
    }
}

impl FromSpecImpl<u8> for ChargeCurrent {
    open spec fn obeys_from_spec() -> bool {
        true
    }

    open spec fn from_spec(v: u8) -> Self {
        Self::of_code(v)
    }
}

/// REG02: charge current control.
#[derive(Clone, Copy, Debug, PartialEq, Eq, Structural)]
pub struct Reg02Values {
    /// Boost mode current limit.
    pub boost_current_limit: BoostCurrentLimit,
    /// Q1 drive mode.
    pub q1_full_on: Q1FullOnMode,
    /// Fast charge current.
    pub charge_current: ChargeCurrent,
}

impl Reg02Values {
    /// The fields that a register byte holds.
    pub open spec fn decode(value: u8) -> Self {
        Reg02Values {
            boost_current_limit: BoostCurrentLimit::of_code((value >> 7) & 0x01),
            q1_full_on: Q1FullOnMode::of_code((value >> 6) & 0x01),
            charge_current: ChargeCurrent::of_code(value & 0x3f),
        }
    }

    /// The register byte that holds these fields.
    pub open spec fn encode(self) -> u8 {
        (self.boost_current_limit.code() << 7) | (self.q1_full_on.code() << 6)
            | self.charge_current.code()
    }

    /// Decoding the byte that encodes a value gives the value back.
    pub proof fn lemma_round_trip(self)
        ensures
            Self::decode(self.encode()) == self,
    {
        self.boost_current_limit.lemma_code();
        self.q1_full_on.lemma_code();
        self.charge_current.lemma_code();
        let x_boost_current_limit = self.boost_current_limit.code();
        let x_q1_full_on = self.q1_full_on.code();
        let x_charge_current = self.charge_current.code();
        let v = self.encode();
        assert(
            (v >> 7) & 0x01 == x_boost_current_limit
                && (v >> 6) & 0x01 == x_q1_full_on
                && v & 0x3f == x_charge_current
        ) by (bit_vector)
            requires
                v == (x_boost_current_limit << 7) | (x_q1_full_on << 6) | x_charge_current,
                x_boost_current_limit <= 0x01,
                x_q1_full_on <= 0x01,
                x_charge_current <= 0x32,
        ;
    }
}

impl From<u8> for Reg02Values {
    /// Splits a register byte into its fields.
    fn from(value: u8) -> (r: Self)
        ensures
            r == Self::decode(value),
    {
        assert((value >> 7) & 0x01 <= 0x01 && (value >> 6) & 0x01 <= 0x01) by (bit_vector);
        let boost_current_limit = match (value >> 7) & 0x01 {
            0x00 => BoostCurrentLimit::_0_5A,
            _ => BoostCurrentLimit::_1_25A,
        };
        let q1_full_on = match (value >> 6) & 0x01 {
            0x00 => Q1FullOnMode::Accuracy,
            _ => Q1FullOnMode::Efficiency,
        };
        proof {
            boost_current_limit.lemma_code();
            q1_full_on.lemma_code();
        }
        Reg02Values {
            boost_current_limit,
            q1_full_on,
            charge_current: ChargeCurrent::from(value & 0x3f),
        }
    }
}

impl FromSpecImpl<u8> for Reg02Values {
    open spec fn obeys_from_spec() -> bool {
        true
    }

    open spec fn from_spec(v: u8) -> Self {
        Self::decode(v)
    }
}

impl From<Reg02Values> for u8 {
    /// Packs the fields into a register byte.
    fn from(value: Reg02Values) -> (r: u8)
        ensures
            r == value.encode(),
    {
        ((value.boost_current_limit as u8) << 7) | ((value.q1_full_on as u8) << 6)
            | (value.charge_current as u8)
    }
}

impl FromSpecImpl<Reg02Values> for u8 {
    open spec fn obeys_from_spec() -> bool {
        true
    }

    open spec fn from_spec(v: Reg02Values) -> u8 {
        v.encode()
    }
}

/// Pre-charge current (IPRECHG), 60 mA to 780 mA in 60 mA steps.
#[derive(Clone, Copy, Debug, PartialEq, Eq, Structural)]
pub enum PreChargeCurrent {
    /// 60 mA (code 0x00).
    _60mA,
    /// 120 mA (code 0x01).
    _120mA,
    /// 180 mA (code 0x02).
    _180mA,
    /// 240 mA (code 0x03).
    _240mA,
    /// 300 mA (code 0x04).
    _300mA,
    /// 360 mA (code 0x05).
    _360mA,
    /// 420 mA (code 0x06).
    _420mA,
    /// 480 mA (code 0x07).
    _480mA,
    /// 540 mA (code 0x08).
    _540mA,
    /// 600 mA (code 0x09).
    _600mA,
    /// 660 mA (code 0x0a).
    _660mA,
    /// 720 mA (code 0x0b).
    _720mA,
    /// 780 mA (code 0x0c).
    _780mA,
}

impl PreChargeCurrent {
    /// The code of this setting in its register field.
    pub open spec fn code(self) -> u8 {
        self as u8
    }

    /// The setting that a raw code selects: codes above 0x0c select the largest one.
    pub open spec fn of_code(value: u8) -> Self {
        choose|c: Self| #[trigger] c.code() == clamped(value, 0x0c)
    }

    /// Each setting has a code within the field, and that code selects it again.
    pub proof fn lemma_code(self)
        ensures
            self.code() <= 0x0c,
            Self::of_code(self.code()) == self,
    {
    }
}

impl From<u8> for PreChargeCurrent {
    /// Decodes a field code; codes above 0x0c are clamped to the largest setting.
    fn from(value: u8) -> (r: Self)
        ensures
            r.code() == clamped(value, 0x0c),
            value >= 0x0c ==> r == PreChargeCurrent::_780mA,
    {
        let r = match value {
            0x00 => PreChargeCurrent::_60mA,
            0x01 => PreChargeCurrent::_120mA,
            0x02 => PreChargeCurrent::_180mA,
            0x03 => PreChargeCurrent::_240mA,
            0x04 => PreChargeCurrent::_300mA,
            0x05 => PreChargeCurrent::_360mA,
            0x06 => PreChargeCurrent::_420mA,
            0x07 => PreChargeCurrent::_480mA,
            0x08 => PreChargeCurrent::_540mA,
            0x09 => PreChargeCurrent::_600mA,
            0x0a => PreChargeCurrent::_660mA,
            0x0b => PreChargeCurrent::_720mA,
            _ => PreChargeCurrent::_780mA,
        };
        proof {
            r.lemma_code();
        }
        r
    }
}

impl FromSpecImpl<u8> for PreChargeCurrent {
    open spec fn obeys_from_spec() -> bool {
        true
    }

    open spec fn from_spec(v: u8) -> Self {
        Self::of_code(v)
    }
}

/// Termination current (ITERM), 60 mA to 900 mA in 60 mA steps.
#[derive(Clone, Copy, Debug, PartialEq, Eq, Structural)]
pub enum TermChargeCurrent {
    /// 60 mA (code 0x00).
    _60mA,
    /// 120 mA (code 0x01).
    _120mA,
    /// 180 mA (code 0x02).
    _180mA,
    /// 240 mA (code 0x03).
    _240mA,
    /// 300 mA (code 0x04).
    _300mA,
    /// 360 mA (code 0x05).
    _360mA,
    /// 420 mA (code 0x06).
    _420mA,
    /// 480 mA (code 0x07).
    _480mA,
    /// 540 mA (code 0x08).
    _540mA,
    /// 600 mA (code 0x09).
    _600mA,
    /// 660 mA (code 0x0a).
    _660mA,
    /// 720 mA (code 0x0b).
    _720mA,
    /// 780 mA (code 0x0c).
    _780mA,
    /// 840 mA (code 0x0d).
    _840mA,
    /// 900 mA (code 0x0e).
    _900mA,
}

impl TermChargeCurrent {
    /// The code of this setting in its register field.
    pub open spec fn code(self) -> u8 {
        self as u8
    }

    /// The setting that a raw code selects: codes above 0x0e select the largest one.
    pub open spec fn of_code(value: u8) -> Self {
        choose|c: Self| #[trigger] c.code() == clamped(value, 0x0e)
    }

    /// Each setting has a code within the field, and that code selects it again.
    pub proof fn lemma_code(self)
        ensures
            self.code() <= 0x0e,
            Self::of_code(self.code()) == self,
    {
    }
}

impl From<u8> for TermChargeCurrent {
    /// Decodes a field code; codes above 0x0e are clamped to the largest setting.
    fn from(value: u8) -> (r: Self)
        ensures
            r.code() == clamped(value, 0x0e),
            value >= 0x0e ==> r == TermChargeCurrent::_900mA,
    {
        let r = match value {
            0x00 => TermChargeCurrent::_60mA,
            0x01 => TermChargeCurrent::_120mA,
            0x02 => TermChargeCurrent::_180mA,
            0x03 => TermChargeCurrent::_240mA,
            0x04 => TermChargeCurrent::_300mA,
            0x05 => TermChargeCurrent::_360mA,
            0x06 => TermChargeCurrent::_420mA,
            0x07 => TermChargeCurrent::_480mA,
            0x08 => TermChargeCurrent::_540mA,
            0x09 => TermChargeCurrent::_600mA,
            0x0a => TermChargeCurrent::_660mA,
            0x0b => TermChargeCurrent::_720mA,
            0x0c => TermChargeCurrent::_780mA,
            0x0d => TermChargeCurrent::_840mA,
            _ => TermChargeCurrent::_900mA,
        };
        proof {
            r.lemma_code();
        }
        r
    }
}

impl FromSpecImpl<u8> for TermChargeCurrent {
    open spec fn obeys_from_spec() -> bool {
        true
    }

    open spec fn from_spec(v: u8) -> Self {
        Self::of_code(v)
    }
}

/// REG03: pre-charge and termination current.
#[derive(Clone, Copy, Debug, PartialEq, Eq, Structural)]
pub struct Reg03Values {
    /// Pre-charge current.
    pub pre_charge_current: PreChargeCurrent,
    /// Termination current.
    pub term_charge_current: TermChargeCurrent,
}

impl Reg03Values {
    /// The fields that a register byte holds.
    pub open spec fn decode(value: u8) -> Self {
        Reg03Values {
            pre_charge_current: PreChargeCurrent::of_code(value >> 4),
            term_charge_current: TermChargeCurrent::of_code(value & 0x0f),
        }
    }

    /// The register byte that holds these fields.
    pub open spec fn encode(self) -> u8 {
        (self.pre_charge_current.code() << 4) | self.term_charge_current.code()
    }

    /// Decoding the byte that encodes a value gives the value back.
    pub proof fn lemma_round_trip(self)
        ensures
            Self::decode(self.encode()) == self,
    {
        self.pre_charge_current.lemma_code();
        self.term_charge_current.lemma_code();
        let x_pre_charge_current = self.pre_charge_current.code();
        let x_term_charge_current = self.term_charge_current.code();
        let v = self.encode();
        assert(
            v >> 4 == x_pre_charge_current
                && v & 0x0f == x_term_charge_current
        ) by (bit_vector)
            requires
                v == (x_pre_charge_current << 4) | x_term_charge_current,
                x_pre_charge_current <= 0x0c,
                x_term_charge_current <= 0x0e,
        ;
    }
}

impl From<u8> for Reg03Values {
    /// Splits a register byte into its fields.
    fn from(value: u8) -> (r: Self)
        ensures
            r == Self::decode(value),
    {
        Reg03Values {
            pre_charge_current: PreChargeCurrent::from(value >> 4),
            term_charge_current: TermChargeCurrent::from(value & 0x0f),
        }
    }
}

impl FromSpecImpl<u8> for Reg03Values {
    open spec fn obeys_from_spec() -> bool {
        true
    }

    open spec fn from_spec(v: u8) -> Self {
        Self::decode(v)
    }
}

impl From<Reg03Values> for u8 {
    /// Packs the fields into a register byte.
    fn from(value: Reg03Values) -> (r: u8)
        ensures
            r == value.encode(),
    {
        ((value.pre_charge_current as u8) << 4) | (value.term_charge_current as u8)
    }
}

impl FromSpecImpl<Reg03Values> for u8 {
    open spec fn obeys_from_spec() -> bool {
        true
    }

    open spec fn from_spec(v: Reg03Values) -> u8 {
        v.encode()
    }
}

/// Charge voltage limit (VREG), 3.856 V to 4.624 V in 32 mV steps; code 0x0f is 4.352 V.
#[derive(Clone, Copy, Debug, PartialEq, Eq, Structural)]
pub enum ChargeVoltageLimit {
    /// 3.856 V (code 0x00).
    _3_856V,
    /// 3.888 V (code 0x01).
    _3_888V,
    /// 3.920 V (code 0x02).
    _3_920V,
    /// 3.952 V (code 0x03).
    _3_952V,
    /// 3.984 V (code 0x04).
    _3_984V,
    /// 4.016 V (code 0x05).
    _4_016V,
    /// 4.048 V (code 0x06).
    _4_048V,
    /// 4.080 V (code 0x07).
    _4_080V,
    /// 4.112 V (code 0x08).
    _4_112V,
    /// 4.144 V (code 0x09).
    _4_144V,
    /// 4.176 V (code 0x0a).
    _4_176V,
    /// 4.208 V (code 0x0b).
    _4_208V,
    /// 4.240 V (code 0x0c).
    _4_240V,
    /// 4.272 V (code 0x0d).
    _4_272V,
    /// 4.304 V (code 0x0e).
    _4_304V,
    /// 4.352 V (code 0x0f).
    _4_352V,
    /// 4.368 V (code 0x10).
    _4_368V,
    /// 4.400 V (code 0x11).
    _4_400V,
    /// 4.432 V (code 0x12).
    _4_432V,
    /// 4.464 V (code 0x13).
    _4_464V,
    /// 4.496 V (code 0x14).
    _4_496V,
    /// 4.528 V (code 0x15).
    _4_528V,
    /// 4.560 V (code 0x16).
    _4_560V,
    /// 4.592 V (code 0x17).
    _4_592V,
    /// 4.624 V (code 0x18).
    _4_624V,
}

impl ChargeVoltageLimit {
    /// The code of this setting in its register field.
    pub open spec fn code(self) -> u8 {
        self as u8
    }

    /// The setting that a raw code selects: codes above 0x18 select the largest one.
    pub open spec fn of_code(value: u8) -> Self {
        choose|c: Self| #[trigger] c.code() == clamped(value, 0x18)
    }

    /// Each setting has a code within the field, and that code selects it again.
    pub proof fn lemma_code(self)
        ensures
            self.code() <= 0x18,
            Self::of_code(self.code()) == self,
    {
    }
}

impl From<u8> for ChargeVoltageLimit {
    /// Decodes a field code; codes above 0x18 are clamped to the largest setting.
    fn from(value: u8) -> (r: Self)
        ensures
            r.code() == clamped(value, 0x18),
            value >= 0x18 ==> r == ChargeVoltageLimit::_4_624V,
    {
        let r = match value {
            0x00 => ChargeVoltageLimit::_3_856V,
            0x01 => ChargeVoltageLimit::_3_888V,
            0x02 => ChargeVoltageLimit::_3_920V,
            0x03 => ChargeVoltageLimit::_3_952V,
            0x04 => ChargeVoltageLimit::_3_984V,
            0x05 => ChargeVoltageLimit::_4_016V,
            0x06 => ChargeVoltageLimit::_4_048V,
            0x07 => ChargeVoltageLimit::_4_080V,
            0x08 => ChargeVoltageLimit::_4_112V,
            0x09 => ChargeVoltageLimit::_4_144V,
            0x0a => ChargeVoltageLimit::_4_176V,
            0x0b => ChargeVoltageLimit::_4_208V,
            0x0c => ChargeVoltageLimit::_4_240V,
            0x0d => ChargeVoltageLimit::_4_272V,
            0x0e => ChargeVoltageLimit::_4_304V,
            0x0f => ChargeVoltageLimit::_4_352V,
            0x10 => ChargeVoltageLimit::_4_368V,
            0x11 => ChargeVoltageLimit::_4_400V,
            0x12 => ChargeVoltageLimit::_4_432V,
            0x13 => ChargeVoltageLimit::_4_464V,
            0x14 => ChargeVoltageLimit::_4_496V,
            0x15 => ChargeVoltageLimit::_4_528V,
            0x16 => ChargeVoltageLimit::_4_560V,
            0x17 => ChargeVoltageLimit::_4_592V,
            _ => ChargeVoltageLimit::_4_624V,
        };
        proof {
            r.lemma_code();
        }
        r
    }
}

impl FromSpecImpl<u8> for ChargeVoltageLimit {
    open spec fn obeys_from_spec() -> bool {
        true
    }

    open spec fn from_spec(v: u8) -> Self {
        Self::of_code(v)
    }
}

/// Top-off timer.
#[derive(Clone, Copy, Debug, PartialEq, Eq, Structural)]
pub enum TopOffTimer {
    /// Disabled (code 0x00).
    Disabled,
    /// 15 minutes (code 0x01).
    _15Minutes,
    /// 30 minutes (code 0x02).
    _30Minutes,
    /// 45 minutes (code 0x03).
    _45Minutes,
}

impl TopOffTimer {
    /// The code of this setting in its register field.
    pub open spec fn code(self) -> u8 {
        self as u8
    }

    /// The setting with the given code (one exists for codes up to 0x03).
    pub open spec fn of_code(value: u8) -> Self {
        choose|c: Self| #[trigger] c.code() == value
    }

    /// Each setting has a code within the field, and that code selects it again.
    pub proof fn lemma_code(self)
        ensures
            self.code() <= 0x03,
            Self::of_code(self.code()) == self,
    {
    }

    /// Decodes a field code; codes above 0x03 name no setting and are not accepted.
    pub fn from(value: u8) -> (r: Self)
        requires
            value <= 0x03,
        ensures
            r.code() == value,
            r == Self::of_code(value),
    {
        let r = match value {
            0x00 => TopOffTimer::Disabled,
            0x01 => TopOffTimer::_15Minutes,
            0x02 => TopOffTimer::_30Minutes,
            _ => TopOffTimer::_45Minutes,
        };
        proof {
            r.lemma_code();
        }
        r
    }
}

/// Recharge threshold below the charge voltage limit (VRECHG).
#[derive(Clone, Copy, Debug, PartialEq, Eq, Structural)]
pub enum BatteryRechargeThreshold {
    /// 100 mV below VREG (code 0x00).
    _100mV,
    /// 200 mV below VREG (code 0x01).
    _200mV,
}

impl BatteryRechargeThreshold {
    /// The code of this setting in its register field.
    pub open spec fn code(self) -> u8 {
        self as u8
    }

    /// The setting with the given code (one exists for codes up to 0x01).
    pub open spec fn of_code(value: u8) -> Self {
        choose|c: Self| #[trigger] c.code() == value
    }

    /// Each setting has a code within the field, and that code selects it again.
    pub proof fn lemma_code(self)
        ensures
            self.code() <= 0x01,
            Self::of_code(self.code()) == self,
    {
    }

    /// Decodes a field code; codes above 0x01 name no setting and are not accepted.
    pub fn from(value: u8) -> (r: Self)
        requires
            value <= 0x01,
        ensures
            r.code() == value,
            r == Self::of_code(value),
    {
        let r = match value {
            0x00 => BatteryRechargeThreshold::_100mV,
            _ => BatteryRechargeThreshold::_200mV,
        };
        proof {
            r.lemma_code();
        }
        r
    }
}

/// REG04: charge voltage control.
#[derive(Clone, Copy, Debug, PartialEq, Eq, Structural)]
pub struct Reg04Values {
    /// Charge voltage limit.
    pub charge_voltage_limit: ChargeVoltageLimit,
    /// Top-off timer.
    pub top_off_timer: TopOffTimer,
    /// Recharge threshold.
    pub battery_recharge_threshold: BatteryRechargeThreshold,
}

impl Reg04Values {
    /// The fields that a register byte holds.
    pub open spec fn decode(value: u8) -> Self {
        Reg04Values {
            charge_voltage_limit: ChargeVoltageLimit::of_code(value >> 3),
            top_off_timer: TopOffTimer::of_code((value >> 1) & 0x03),
            battery_recharge_threshold: BatteryRechargeThreshold::of_code(value & 0x01),
        }
    }

    /// The register byte that holds these fields.
    pub open spec fn encode(self) -> u8 {
        (self.charge_voltage_limit.code() << 3) | (self.top_off_timer.code() << 1)
            | self.battery_recharge_threshold.code()
    }

    /// Decoding the byte that encodes a value gives the value back.
    pub proof fn lemma_round_trip(self)
        ensures
            Self::decode(self.encode()) == self,
    {
        self.charge_voltage_limit.lemma_code();
        self.top_off_timer.lemma_code();
        self.battery_recharge_threshold.lemma_code();
        let x_charge_voltage_limit = self.charge_voltage_limit.code();
        let x_top_off_timer = self.top_off_timer.code();
        let x_battery_recharge_threshold = self.battery_recharge_threshold.code();
        let v = self.encode();
        assert(
            v >> 3 == x_charge_voltage_limit
                && (v >> 1) & 0x03 == x_top_off_timer
                && v & 0x01 == x_battery_recharge_threshold
        ) by (bit_vector)
            requires
                v == (x_charge_voltage_limit << 3) | (x_top_off_timer << 1)
                    | x_battery_recharge_threshold,
                x_charge_voltage_limit <= 0x18,
                x_top_off_timer <= 0x03,
                x_battery_recharge_threshold <= 0x01,
        ;
    }
}

impl From<u8> for Reg04Values {
    /// Splits a register byte into its fields.
    fn from(value: u8) -> (r: Self)
        ensures
            r == Self::decode(value),
    {
        assert((value >> 1) & 0x03 <= 0x03 && value & 0x01 <= 0x01) by (bit_vector);
        Reg04Values {
            charge_voltage_limit: ChargeVoltageLimit::from(value >> 3),
            top_off_timer: TopOffTimer::from((value >> 1) & 0x03),
            battery_recharge_threshold: BatteryRechargeThreshold::from(value & 0x01),
        }
    }
}

impl FromSpecImpl<u8> for Reg04Values {
    open spec fn obeys_from_spec() -> bool {
        true
    }

    open spec fn from_spec(v: u8) -> Self {
        Self::decode(v)
    }
}

impl From<Reg04Values> for u8 {
    /// Packs the fields into a register byte.
    fn from(value: Reg04Values) -> (r: u8)
        ensures
            r == value.encode(),
    {
        ((value.charge_voltage_limit as u8) << 3) | ((value.top_off_timer as u8) << 1)
            | (value.battery_recharge_threshold as u8)
    }
}

impl FromSpecImpl<Reg04Values> for u8 {
    open spec fn obeys_from_spec() -> bool {
        true
    }

    open spec fn from_spec(v: Reg04Values) -> u8 {
        v.encode()
    }
}

/// Watchdog timer setting.
#[derive(Clone, Copy, Debug, PartialEq, Eq, Structural)]
pub enum WatchDogTimerSetting {
    /// Disabled (code 0x00).
    Disabled,
    /// 40 s (code 0x01).
    _40Seconds,
    /// 80 s (code 0x02).
    _80Seconds,
    /// 160 s (code 0x03).
    _160Seconds,
}

impl WatchDogTimerSetting {
    /// The code of this setting in its register field.
    pub open spec fn code(self) -> u8 {
        self as u8
    }

    /// The setting with the given code (one exists for codes up to 0x03).
    pub open spec fn of_code(value: u8) -> Self {
        choose|c: Self| #[trigger] c.code() == value
    }

    /// Each setting has a code within the field, and that code selects it again.
    pub proof fn lemma_code(self)
        ensures
            self.code() <= 0x03,
            Self::of_code(self.code()) == self,
    {
    }

    /// Decodes a field code; codes above 0x03 name no setting and are not accepted.
    pub fn from(value: u8) -> (r: Self)
        requires
            value <= 0x03,
        ensures
            r.code() == value,
            r == Self::of_code(value),
    {
        let r = match value {
            0x00 => WatchDogTimerSetting::Disabled,
            0x01 => WatchDogTimerSetting::_40Seconds,
            0x02 => WatchDogTimerSetting::_80Seconds,
            _ => WatchDogTimerSetting::_160Seconds,
        };
        proof {
            r.lemma_code();
        }
        r
    }
}

impl From<WatchDogTimerSetting> for u8 {
    /// The field code of a watchdog setting.
    fn from(value: WatchDogTimerSetting) -> (r: u8)
        ensures
            r == value.code(),
    {
        value as u8
    }
}

impl FromSpecImpl<WatchDogTimerSetting> for u8 {
    open spec fn obeys_from_spec() -> bool {
        true
    }

    open spec fn from_spec(v: WatchDogTimerSetting) -> u8 {
        v.code()
    }
}

/// Fast charge safety timer.
#[derive(Clone, Copy, Debug, PartialEq, Eq, Structural)]
pub enum ChargeTimerSetting {
    /// 4 hours (code 0x00).
    _4Hours,
    /// 6 hours (code 0x01).
    _6Hours,
}

impl ChargeTimerSetting {
    /// The code of this setting in its register field.
    pub open spec fn code(self) -> u8 {
        self as u8
    }

    /// The setting with the given code (one exists for codes up to 0x01).
    pub open spec fn of_code(value: u8) -> Self {
        choose|c: Self| #[trigger] c.code() == value
    }

    /// Each setting has a code within the field, and that code selects it again.
    pub proof fn lemma_code(self)
        ensures
            self.code() <= 0x01,
            Self::of_code(self.code()) == self,
    {
    }

    /// Decodes a field code; codes above 0x01 name no setting and are not accepted.
    pub fn from(value: u8) -> (r: Self)
        requires
            value <= 0x01,
        ensures
            r.code() == value,
            r == Self::of_code(value),
    {
        let r = match value {
            0x00 => ChargeTimerSetting::_4Hours,
            _ => ChargeTimerSetting::_6Hours,
        };
        proof {
            r.lemma_code();
        }
        r
    }
}

/// Thermal regulation threshold.
#[derive(Clone, Copy, Debug, PartialEq, Eq, Structural)]
pub enum ThermalRegulationThreshold {
    /// 80 degrees C (code 0x00).
    _80DegreeC,
    /// 120 degrees C (code 0x01).
    _120DegreeC,
}

impl ThermalRegulationThreshold {
    /// The code of this setting in its register field.
    pub open spec fn code(self) -> u8 {
        self as u8
    }

    /// The setting with the given code (one exists for codes up to 0x01).
    pub open spec fn of_code(value: u8) -> Self {
        choose|c: Self| #[trigger] c.code() == value
    }

    /// Each setting has a code within the field, and that code selects it again.
    pub proof fn lemma_code(self)
        ensures
            self.code() <= 0x01,
            Self::of_code(self.code()) == self,
    {
    }

    /// Decodes a field code; codes above 0x01 name no setting and are not accepted.
    pub fn from(value: u8) -> (r: Self)
        requires
            value <= 0x01,
        ensures
            r.code() == value,
            r == Self::of_code(value),
    {
        let r = match value {
            0x00 => ThermalRegulationThreshold::_80DegreeC,
            _ => ThermalRegulationThreshold::_120DegreeC,
        };
        proof {
            r.lemma_code();
        }
        r
    }
}

/// JEITA charge current in the cool range, as a share of ICHG.
#[derive(Clone, Copy, Debug, PartialEq, Eq, Structural)]
pub enum JEITAChargingCurrent {
    /// 50 % of ICHG (code 0x00).
    _50Percent,
    /// 20 % of ICHG (code 0x01).
    _20Percent,
}

impl JEITAChargingCurrent {
    /// The code of this setting in its register field.
    pub open spec fn code(self) -> u8 {
        self as u8
    }

    /// The setting with the given code (one exists for codes up to 0x01).
    pub open spec fn of_code(value: u8) -> Self {
        choose|c: Self| #[trigger] c.code() == value
    }

    /// Each setting has a code within the field, and that code selects it again.
    pub proof fn lemma_code(self)
        ensures
            self.code() <= 0x01,
            Self::of_code(self.code()) == self,
    {
    }

    /// Decodes a field code; codes above 0x01 name no setting and are not accepted.
    pub fn from(value: u8) -> (r: Self)
        requires
            value <= 0x01,
        ensures
            r.code() == value,
            r == Self::of_code(value),
    {
        let r = match value {
            0x00 => JEITAChargingCurrent::_50Percent,
            _ => JEITAChargingCurrent::_20Percent,
        };
        proof {
            r.lemma_code();
        }
        r
    }
}

/// REG05: charge termination and timer control.
#[derive(Clone, Copy, Debug, PartialEq, Eq, Structural)]
pub struct Reg05Values {
    /// Charge termination enabled.
    pub term_enabled: bool,
    /// Watchdog timer setting.
    pub watchdog_timer_setting: WatchDogTimerSetting,
    /// Fast charge safety timer enabled.
    pub timer_enabled: bool,
    /// Fast charge safety timer.
    pub charge_timer_setting: ChargeTimerSetting,
    /// Thermal regulation threshold.
    pub thermal_regulation_threshold: ThermalRegulationThreshold,
    /// JEITA charge current in the cool range.
    pub jeita_charging_current: JEITAChargingCurrent,
}

impl Reg05Values {
    /// The fields that a register byte holds.
    pub open spec fn decode(value: u8) -> Self {
        Reg05Values {
            term_enabled: value & 0x80 != 0,
            watchdog_timer_setting: WatchDogTimerSetting::of_code((value >> 4) & 0x03),
            timer_enabled: value & 0x08 != 0,
            charge_timer_setting: ChargeTimerSetting::of_code((value >> 2) & 0x01),
            thermal_regulation_threshold: ThermalRegulationThreshold::of_code((value >> 1) & 0x01),
            jeita_charging_current: JEITAChargingCurrent::of_code(value & 0x01),
        }
    }

    /// The register byte that holds these fields.
    pub open spec fn encode(self) -> u8 {
        (if self.term_enabled { 0x80u8 } else { 0u8 })
            | (self.watchdog_timer_setting.code() << 4)
            | (if self.timer_enabled { 0x08u8 } else { 0u8 })
            | (self.charge_timer_setting.code() << 2)
            | (self.thermal_regulation_threshold.code() << 1) | self.jeita_charging_current.code()
    }

    /// Decoding the byte that encodes a value gives the value back.
    pub proof fn lemma_round_trip(self)
        ensures
            Self::decode(self.encode()) == self,
    {
        self.watchdog_timer_setting.lemma_code();
        self.charge_timer_setting.lemma_code();
        self.thermal_regulation_threshold.lemma_code();
        self.jeita_charging_current.lemma_code();
        let x_term_enabled = self.term_enabled;
        let x_watchdog_timer_setting = self.watchdog_timer_setting.code();
        let x_timer_enabled = self.timer_enabled;
        let x_charge_timer_setting = self.charge_timer_setting.code();
        let x_thermal_regulation_threshold = self.thermal_regulation_threshold.code();
        let x_jeita_charging_current = self.jeita_charging_current.code();
        let v = self.encode();
        assert(
            (v & 0x80 != 0 <==> x_term_enabled)
                && (v >> 4) & 0x03 == x_watchdog_timer_setting
                && (v & 0x08 != 0 <==> x_timer_enabled)
                && (v >> 2) & 0x01 == x_charge_timer_setting
                && (v >> 1) & 0x01 == x_thermal_regulation_threshold
                && v & 0x01 == x_jeita_charging_current
        ) by (bit_vector)
            requires
                v == (if x_term_enabled { 0x80u8 } else { 0u8 }) | (x_watchdog_timer_setting << 4)
                    | (if x_timer_enabled { 0x08u8 } else { 0u8 }) | (x_charge_timer_setting << 2)
                    | (x_thermal_regulation_threshold << 1) | x_jeita_charging_current,
                x_watchdog_timer_setting <= 0x03,
                x_charge_timer_setting <= 0x01,
                x_thermal_regulation_threshold <= 0x01,
                x_jeita_charging_current <= 0x01,
        ;
    }
}

impl From<u8> for Reg05Values {
    /// Splits a register byte into its fields.
    fn from(value: u8) -> (r: Self)
        ensures
            r == Self::decode(value),
    {
        assert(
            (value >> 4) & 0x03 <= 0x03
                && (value >> 2) & 0x01 <= 0x01
                && (value >> 1) & 0x01 <= 0x01
                && value & 0x01 <= 0x01
        ) by (bit_vector);
        Reg05Values {
            term_enabled: value & 0x80 != 0,
            watchdog_timer_setting: WatchDogTimerSetting::from((value >> 4) & 0x03),
            timer_enabled: value & 0x08 != 0,
            charge_timer_setting: ChargeTimerSetting::from((value >> 2) & 0x01),
            thermal_regulation_threshold: ThermalRegulationThreshold::from((value >> 1) & 0x01),
            jeita_charging_current: JEITAChargingCurrent::from(value & 0x01),
        }
    }
}

impl FromSpecImpl<u8> for Reg05Values {
    open spec fn obeys_from_spec() -> bool {
        true
    }

    open spec fn from_spec(v: u8) -> Self {
        Self::decode(v)
    }
}

impl From<Reg05Values> for u8 {
    /// Packs the fields into a register byte.
    fn from(value: Reg05Values) -> (r: u8)
        ensures
            r == value.encode(),
    {
        (if value.term_enabled { 0x80u8 } else { 0u8 })
            | ((value.watchdog_timer_setting as u8) << 4)
            | (if value.timer_enabled { 0x08u8 } else { 0u8 })
            | ((value.charge_timer_setting as u8) << 2)
            | ((value.thermal_regulation_threshold as u8) << 1)
            | (value.jeita_charging_current as u8)
    }
}

impl FromSpecImpl<Reg05Values> for u8 {
    open spec fn obeys_from_spec() -> bool {
        true
    }

    open spec fn from_spec(v: Reg05Values) -> u8 {
        v.encode()
    }
}

/// VAC over-voltage protection threshold.
#[derive(Clone, Copy, Debug, PartialEq, Eq, Structural)]
pub enum OVPThreshold {
    /// 5.5 V (code 0x00).
    _5_5V,
    /// 6.5 V (5 V input) (code 0x01).
    _6_5V,
    /// 10.5 V (9 V input) (code 0x02).
    _10_5V,
    /// 14 V (12 V input) (code 0x03).
    _14V,
}

impl OVPThreshold {
    /// The code of this setting in its register field.
    pub open spec fn code(self) -> u8 {
        self as u8
    }

    /// The setting with the given code (one exists for codes up to 0x03).
    pub open spec fn of_code(value: u8) -> Self {
        choose|c: Self| #[trigger] c.code() == value
    }

    /// Each setting has a code within the field, and that code selects it again.
    pub proof fn lemma_code(self)
        ensures
            self.code() <= 0x03,
            Self::of_code(self.code()) == self,
    {
    }

    /// Decodes a field code; codes above 0x03 name no setting and are not accepted.
    pub fn from(value: u8) -> (r: Self)
        requires
            value <= 0x03,
        ensures
            r.code() == value,
            r == Self::of_code(value),
    {
        let r = match value {
            0x00 => OVPThreshold::_5_5V,
            0x01 => OVPThreshold::_6_5V,
            0x02 => OVPThreshold::_10_5V,
            _ => OVPThreshold::_14V,
        };
        proof {
            r.lemma_code();
        }
        r
    }
}

/// Boost mode regulation voltage (BOOSTV).
#[derive(Clone, Copy, Debug, PartialEq, Eq, Structural)]
pub enum BoostModeVoltage {
    /// 4.85 V (code 0x00).
    _4_85V,
    /// 5.00 V (code 0x01).
    _5_00V,
    /// 5.15 V (code 0x02).
    _5_15V,
    /// 5.30 V (code 0x03).
    _5_30V,
}

impl BoostModeVoltage {
    /// The code of this setting in its register field.
    pub open spec fn code(self) -> u8 {
        self as u8
    }

    /// The setting with the given code (one exists for codes up to 0x03).
    pub open spec fn of_code(value: u8) -> Self {
        choose|c: Self| #[trigger] c.code() == value
    }

    /// Each setting has a code within the field, and that code selects it again.
    pub proof fn lemma_code(self)
        ensures
            self.code() <= 0x03,
            Self::of_code(self.code()) == self,
    {
    }

    /// Decodes a field code; codes above 0x03 name no setting and are not accepted.
    pub fn from(value: u8) -> (r: Self)
        requires
            value <= 0x03,
        ensures
            r.code() == value,
            r == Self::of_code(value),
    {
        let r = match value {
            0x00 => BoostModeVoltage::_4_85V,
            0x01 => BoostModeVoltage::_5_00V,
            0x02 => BoostModeVoltage::_5_15V,
            _ => BoostModeVoltage::_5_30V,
        };
        proof {
            r.lemma_code();
        }
        r
    }
}

/// Input voltage limit (VINDPM), 3.9 V to 5.4 V in 100 mV steps.
#[derive(Clone, Copy, Debug, PartialEq, Eq, Structural)]
pub enum VINDPMThreshold {
    /// 3.9 V (code 0x00).
    _3_9V,
    /// 4.0 V (code 0x01).
    _4_0V,
    /// 4.1 V (code 0x02).
    _4_1V,
    /// 4.2 V (code 0x03).
    _4_2V,
    /// 4.3 V (code 0x04).
    _4_3V,
    /// 4.4 V (code 0x05).
    _4_4V,
    /// 4.5 V (code 0x06).
    _4_5V,
    /// 4.6 V (code 0x07).
    _4_6V,
    /// 4.7 V (code 0x08).
    _4_7V,
    /// 4.8 V (code 0x09).
    _4_8V,
    /// 4.9 V (code 0x0a).
    _4_9V,
    /// 5.0 V (code 0x0b).
    _5_0V,
    /// 5.1 V (code 0x0c).
    _5_1V,
    /// 5.2 V (code 0x0d).
    _5_2V,
    /// 5.3 V (code 0x0e).
    _5_3V,
    /// 5.4 V (code 0x0f).
    _5_4V,
}

impl VINDPMThreshold {
    /// The code of this setting in its register field.
    pub open spec fn code(self) -> u8 {
        self as u8
    }

    /// The setting with the given code (one exists for codes up to 0x0f).
    pub open spec fn of_code(value: u8) -> Self {
        choose|c: Self| #[trigger] c.code() == value
    }

    /// Each setting has a code within the field, and that code selects it again.
    pub proof fn lemma_code(self)
        ensures
            self.code() <= 0x0f,
            Self::of_code(self.code()) == self,
    {
    }

    /// Decodes a field code; codes above 0x0f name no setting and are not accepted.
    pub fn from(value: u8) -> (r: Self)
        requires
            value <= 0x0f,
        ensures
            r.code() == value,
            r == Self::of_code(value),
    {
        let r = match value {
            0x00 => VINDPMThreshold::_3_9V,
            0x01 => VINDPMThreshold::_4_0V,
            0x02 => VINDPMThreshold::_4_1V,
            0x03 => VINDPMThreshold::_4_2V,
            0x04 => VINDPMThreshold::_4_3V,
            0x05 => VINDPMThreshold::_4_4V,
            0x06 => VINDPMThreshold::_4_5V,
            0x07 => VINDPMThreshold::_4_6V,
            0x08 => VINDPMThreshold::_4_7V,
            0x09 => VINDPMThreshold::_4_8V,
            0x0a => VINDPMThreshold::_4_9V,
            0x0b => VINDPMThreshold::_5_0V,
            0x0c => VINDPMThreshold::_5_1V,
            0x0d => VINDPMThreshold::_5_2V,
            0x0e => VINDPMThreshold::_5_3V,
            _ => VINDPMThreshold::_5_4V,
        };
        proof {
            r.lemma_code();
        }
        r
    }
}

/// REG06: input and boost voltage control.
#[derive(Clone, Copy, Debug, PartialEq, Eq, Structural)]
pub struct Reg06Values {
    /// VAC over-voltage protection threshold.
    pub ovp_threshold: OVPThreshold,
    /// Boost mode voltage (BOOSTV).
    pub boost_mode_voltage: BoostModeVoltage,
    /// Input voltage limit.
    pub vindpm_threshold: VINDPMThreshold,
}

impl Reg06Values {
    /// The fields that a register byte holds.
    pub open spec fn decode(value: u8) -> Self {
        Reg06Values {
            ovp_threshold: OVPThreshold::of_code(value >> 6),
            boost_mode_voltage: BoostModeVoltage::of_code((value >> 4) & 0x03),
            vindpm_threshold: VINDPMThreshold::of_code(value & 0x0f),
        }
    }

    /// The register byte that holds these fields.
    pub open spec fn encode(self) -> u8 {
        (self.ovp_threshold.code() << 6) | (self.boost_mode_voltage.code() << 4)
            | self.vindpm_threshold.code()
    }

    /// Decoding the byte that encodes a value gives the value back.
    pub proof fn lemma_round_trip(self)
        ensures
            Self::decode(self.encode()) == self,
    {
        self.ovp_threshold.lemma_code();
        self.boost_mode_voltage.lemma_code();
        self.vindpm_threshold.lemma_code();
        let x_ovp_threshold = self.ovp_threshold.code();
        let x_boost_mode_voltage = self.boost_mode_voltage.code();
        let x_vindpm_threshold = self.vindpm_threshold.code();
        let v = self.encode();
        assert(
            v >> 6 == x_ovp_threshold
                && (v >> 4) & 0x03 == x_boost_mode_voltage
                && v & 0x0f == x_vindpm_threshold
        ) by (bit_vector)
            requires
                v == (x_ovp_threshold << 6) | (x_boost_mode_voltage << 4) | x_vindpm_threshold,
                x_ovp_threshold <= 0x03,
                x_boost_mode_voltage <= 0x03,
                x_vindpm_threshold <= 0x0f,
        ;
    }
}

impl From<u8> for Reg06Values {
    /// Splits a register byte into its fields.
    fn from(value: u8) -> (r: Self)
        ensures
            r == Self::decode(value),
    {
        assert(
            value >> 6 <= 0x03
                && (value >> 4) & 0x03 <= 0x03
                && value & 0x0f <= 0x0f
        ) by (bit_vector);
        Reg06Values {
            ovp_threshold: OVPThreshold::from(value >> 6),
            boost_mode_voltage: BoostModeVoltage::from((value >> 4) & 0x03),
            vindpm_threshold: VINDPMThreshold::from(value & 0x0f),
        }
    }
}

impl FromSpecImpl<u8> for Reg06Values {
    open spec fn obeys_from_spec() -> bool {
        true
    }

    open spec fn from_spec(v: u8) -> Self {
        Self::decode(v)
    }
}

impl From<Reg06Values> for u8 {
    /// Packs the fields into a register byte.
    fn from(value: Reg06Values) -> (r: u8)
        ensures
            r == value.encode(),
    {
        ((value.ovp_threshold as u8) << 6) | ((value.boost_mode_voltage as u8) << 4)
            | (value.vindpm_threshold as u8)
    }
}

impl FromSpecImpl<Reg06Values> for u8 {
    open spec fn obeys_from_spec() -> bool {
        true
    }

    open spec fn from_spec(v: Reg06Values) -> u8 {
        v.encode()
    }
}

/// JEITA charge voltage in the warm range (45 to 60 degrees C).
#[derive(Clone, Copy, Debug, PartialEq, Eq, Structural)]
pub enum JEITAVoltageSetting {
    /// The lower of 4.1 V and VREG (code 0x00).
    LowerOf4_1V,
    /// VREG (code 0x01).
    VReg,
}

impl JEITAVoltageSetting {
    /// The code of this setting in its register field.
    pub open spec fn code(self) -> u8 {
        self as u8
    }

    /// The setting with the given code (one exists for codes up to 0x01).
    pub open spec fn of_code(value: u8) -> Self {
        choose|c: Self| #[trigger] c.code() == value
    }

    /// Each setting has a code within the field, and that code selects it again.
    pub proof fn lemma_code(self)
        ensures
            self.code() <= 0x01,
            Self::of_code(self.code()) == self,
    {
    }

    /// Decodes a field code; codes above 0x01 name no setting and are not accepted.
    pub fn from(value: u8) -> (r: Self)
        requires
            value <= 0x01,
        ensures
            r.code() == value,
            r == Self::of_code(value),
    {
        let r = match value {
            0x00 => JEITAVoltageSetting::LowerOf4_1V,
            _ => JEITAVoltageSetting::VReg,
        };
        proof {
            r.lemma_code();
        }
        r
    }
}

/// Dynamic VINDPM tracking of the battery voltage.
#[derive(Clone, Copy, Debug, PartialEq, Eq, Structural)]
pub enum VDPMBatteryVoltageTracking {
    /// Disabled, VINDPM set by register (code 0x00).
    Disabled,
    /// VBAT + 200 mV (code 0x01).
    _200mV,
    /// VBAT + 250 mV (code 0x02).
    _250mV,
    /// VBAT + 300 mV (code 0x03).
    _300mV,
}

impl VDPMBatteryVoltageTracking {
    /// The code of this setting in its register field.
    pub open spec fn code(self) -> u8 {
        self as u8
    }

    /// The setting with the given code (one exists for codes up to 0x03).
    pub open spec fn of_code(value: u8) -> Self {
        choose|c: Self| #[trigger] c.code() == value
    }

    /// Each setting has a code within the field, and that code selects it again.
    pub proof fn lemma_code(self)
        ensures
            self.code() <= 0x03,
            Self::of_code(self.code()) == self,
    {
    }

    /// Decodes a field code; codes above 0x03 name no setting and are not accepted.
    pub fn from(value: u8) -> (r: Self)
        requires
            value <= 0x03,
        ensures
            r.code() == value,
            r == Self::of_code(value),
    {
        let r = match value {
            0x00 => VDPMBatteryVoltageTracking::Disabled,
            0x01 => VDPMBatteryVoltageTracking::_200mV,
            0x02 => VDPMBatteryVoltageTracking::_250mV,
            _ => VDPMBatteryVoltageTracking::_300mV,
        };
        proof {
            r.lemma_code();
        }
        r
    }
}

/// REG07: input detection and BATFET control.
#[derive(Clone, Copy, Debug, PartialEq, Eq, Structural)]
pub struct Reg07Values {
    /// Input current limit detection enabled.
    pub iindet_enabled: bool,
    /// Half clock rate safety timer enabled.
    pub tmr2x_enabled: bool,
    /// BATFET turned off.
    pub batfet_disabled: bool,
    /// JEITA charge voltage (45 to 60 degrees C).
    pub jeita_voltage_setting: JEITAVoltageSetting,
    /// BATFET turn-off delay.
    pub batfet_delay: bool,
    /// BATFET reset enabled.
    pub batfet_reset_enabled: bool,
    /// Dynamic VINDPM tracking.
    pub vdpm_battery_tracking: VDPMBatteryVoltageTracking,
}

impl Reg07Values {
    /// The fields that a register byte holds.
    pub open spec fn decode(value: u8) -> Self {
        Reg07Values {
            iindet_enabled: value & 0x80 != 0,
            tmr2x_enabled: value & 0x40 != 0,
            batfet_disabled: value & 0x20 != 0,
            jeita_voltage_setting: JEITAVoltageSetting::of_code((value >> 4) & 0x01),
            batfet_delay: value & 0x08 != 0,
            batfet_reset_enabled: value & 0x04 != 0,
            vdpm_battery_tracking: VDPMBatteryVoltageTracking::of_code(value & 0x03),
        }
    }

    /// The register byte that holds these fields.
    pub open spec fn encode(self) -> u8 {
        (if self.iindet_enabled { 0x80u8 } else { 0u8 })
            | (if self.tmr2x_enabled { 0x40u8 } else { 0u8 })
            | (if self.batfet_disabled { 0x20u8 } else { 0u8 })
            | (self.jeita_voltage_setting.code() << 4)
            | (if self.batfet_delay { 0x08u8 } else { 0u8 })
            | (if self.batfet_reset_enabled { 0x04u8 } else { 0u8 })
            | self.vdpm_battery_tracking.code()
    }

    /// Decoding the byte that encodes a value gives the value back.
    pub proof fn lemma_round_trip(self)
        ensures
            Self::decode(self.encode()) == self,
    {
        self.jeita_voltage_setting.lemma_code();
        self.vdpm_battery_tracking.lemma_code();
        let x_iindet_enabled = self.iindet_enabled;
        let x_tmr2x_enabled = self.tmr2x_enabled;
        let x_batfet_disabled = self.batfet_disabled;
        let x_jeita_voltage_setting = self.jeita_voltage_setting.code();
        let x_batfet_delay = self.batfet_delay;
        let x_batfet_reset_enabled = self.batfet_reset_enabled;
        let x_vdpm_battery_tracking = self.vdpm_battery_tracking.code();
        let v = self.encode();
        assert(
            (v & 0x80 != 0 <==> x_iindet_enabled)
                && (v & 0x40 != 0 <==> x_tmr2x_enabled)
                && (v & 0x20 != 0 <==> x_batfet_disabled)
                && (v >> 4) & 0x01 == x_jeita_voltage_setting
                && (v & 0x08 != 0 <==> x_batfet_delay)
                && (v & 0x04 != 0 <==> x_batfet_reset_enabled)
                && v & 0x03 == x_vdpm_battery_tracking
        ) by (bit_vector)
            requires
                v == (if x_iindet_enabled { 0x80u8 } else { 0u8 })
                    | (if x_tmr2x_enabled { 0x40u8 } else { 0u8 })
                    | (if x_batfet_disabled { 0x20u8 } else { 0u8 })
                    | (x_jeita_voltage_setting << 4) | (if x_batfet_delay { 0x08u8 } else { 0u8 })
                    | (if x_batfet_reset_enabled { 0x04u8 } else { 0u8 }) | x_vdpm_battery_tracking,
                x_jeita_voltage_setting <= 0x01,
                x_vdpm_battery_tracking <= 0x03,
        ;
    }
}

impl From<u8> for Reg07Values {
    /// Splits a register byte into its fields.
    fn from(value: u8) -> (r: Self)
        ensures
            r == Self::decode(value),
    {
        assert((value >> 4) & 0x01 <= 0x01 && value & 0x03 <= 0x03) by (bit_vector);
        Reg07Values {
            iindet_enabled: value & 0x80 != 0,
            tmr2x_enabled: value & 0x40 != 0,
            batfet_disabled: value & 0x20 != 0,
            jeita_voltage_setting: JEITAVoltageSetting::from((value >> 4) & 0x01),
            batfet_delay: value & 0x08 != 0,
            batfet_reset_enabled: value & 0x04 != 0,
            vdpm_battery_tracking: VDPMBatteryVoltageTracking::from(value & 0x03),
        }
    }
}

impl FromSpecImpl<u8> for Reg07Values {
    open spec fn obeys_from_spec() -> bool {
        true
    }

    open spec fn from_spec(v: u8) -> Self {
        Self::decode(v)
    }
}

impl From<Reg07Values> for u8 {
    /// Packs the fields into a register byte.
    fn from(value: Reg07Values) -> (r: u8)
        ensures
            r == value.encode(),
    {
        (if value.iindet_enabled { 0x80u8 } else { 0u8 })
            | (if value.tmr2x_enabled { 0x40u8 } else { 0u8 })
            | (if value.batfet_disabled { 0x20u8 } else { 0u8 })
            | ((value.jeita_voltage_setting as u8) << 4)
            | (if value.batfet_delay { 0x08u8 } else { 0u8 })
            | (if value.batfet_reset_enabled { 0x04u8 } else { 0u8 })
            | (value.vdpm_battery_tracking as u8)
    }
}

impl FromSpecImpl<Reg07Values> for u8 {
    open spec fn obeys_from_spec() -> bool {
        true
    }

    open spec fn from_spec(v: Reg07Values) -> u8 {
        v.encode()
    }
}

/// VBUS status.
#[derive(Clone, Copy, Debug, PartialEq, Eq, Structural)]
pub enum VBUSStatus {
    /// No input (code 0x00).
    NoInput,
    /// USB host SDP (500 mA) (code 0x01).
    USBHostSDP,
    /// Adapter (2.4 A) (code 0x02).
    Adaptor2_4A,
    /// OTG (code 0x03).
    OTG,
}

impl VBUSStatus {
    /// The code of this setting in its register field.
    pub open spec fn code(self) -> u8 {
        self as u8
    }

    /// The setting that a raw code selects: codes above 0x03 select the largest one.
    pub open spec fn of_code(value: u8) -> Self {
        choose|c: Self| #[trigger] c.code() == clamped(value, 0x03)
    }

    /// Each setting has a code within the field, and that code selects it again.
    pub proof fn lemma_code(self)
        ensures
            self.code() <= 0x03,
            Self::of_code(self.code()) == self,
    {
    }
}

impl From<u8> for VBUSStatus {
    /// Decodes a field code; codes above 0x03 are clamped to the largest setting.
    fn from(value: u8) -> (r: Self)
        ensures
            r.code() == clamped(value, 0x03),
            value >= 0x03 ==> r == VBUSStatus::OTG,
    {
        let r = match value {
            0x00 => VBUSStatus::NoInput,
            0x01 => VBUSStatus::USBHostSDP,
            0x02 => VBUSStatus::Adaptor2_4A,
            _ => VBUSStatus::OTG,
        };
        proof {
            r.lemma_code();
        }
        r
    }
}

impl FromSpecImpl<u8> for VBUSStatus {
    open spec fn obeys_from_spec() -> bool {
        true
    }

    open spec fn from_spec(v: u8) -> Self {
        Self::of_code(v)
    }
}

/// Charge status.
#[derive(Clone, Copy, Debug, PartialEq, Eq, Structural)]
pub enum ChargeStatus {
    /// Not charging (code 0x00).
    Disabled,
    /// Pre-charge (code 0x01).
    Pre,
    /// Fast charging (code 0x02).
    Fast,
    /// Charge terminated (code 0x03).
    Terminated,
}

impl ChargeStatus {
    /// The code of this setting in its register field.
    pub open spec fn code(self) -> u8 {
        self as u8
    }

    /// The setting with the given code (one exists for codes up to 0x03).
    pub open spec fn of_code(value: u8) -> Self {
        choose|c: Self| #[trigger] c.code() == value
    }

    /// Each setting has a code within the field, and that code selects it again.
    pub proof fn lemma_code(self)
        ensures
            self.code() <= 0x03,
            Self::of_code(self.code()) == self,
    {
    }

    /// Decodes a field code; codes above 0x03 name no setting and are not accepted.
    pub fn from(value: u8) -> (r: Self)
        requires
            value <= 0x03,
        ensures
            r.code() == value,
            r == Self::of_code(value),
    {
        let r = match value {
            0x00 => ChargeStatus::Disabled,
            0x01 => ChargeStatus::Pre,
            0x02 => ChargeStatus::Fast,
            _ => ChargeStatus::Terminated,
        };
        proof {
            r.lemma_code();
        }
        r
    }
}

/// REG08: status bits, read only.
#[derive(Clone, Copy, Debug, PartialEq, Eq, Structural)]
pub struct Reg08Values {
    /// VBUS status, from bits 7:5.
    pub vbus_status: VBUSStatus,
    /// Charge status.
    pub charge_status: ChargeStatus,
    /// Input power good (VBUS in range and not poor).
    pub pg_status: bool,
    /// In thermal regulation.
    pub therm_status: bool,
    /// In system voltage regulation (VSYSMIN).
    pub vsys_status: bool,
}

impl Reg08Values {
    /// The fields that a register byte holds.
    pub open spec fn decode(value: u8) -> Self {
        Reg08Values {
            vbus_status: VBUSStatus::of_code(value >> 5),
            charge_status: ChargeStatus::of_code((value >> 3) & 0x03),
            pg_status: value & 0x04 != 0,
            therm_status: value & 0x02 != 0,
            vsys_status: value & 0x01 != 0,
        }
    }

    /// The register byte that holds these fields.
    pub open spec fn encode(self) -> u8 {
        (self.vbus_status.code() << 5) | (self.charge_status.code() << 3)
            | (if self.pg_status { 0x04u8 } else { 0u8 })
            | (if self.therm_status { 0x02u8 } else { 0u8 })
            | (if self.vsys_status { 0x01u8 } else { 0u8 })
    }

    /// Decoding the byte that encodes a value gives the value back.
    pub proof fn lemma_round_trip(self)
        ensures
            Self::decode(self.encode()) == self,
    {
        self.vbus_status.lemma_code();
        self.charge_status.lemma_code();
        let x_vbus_status = self.vbus_status.code();
        let x_charge_status = self.charge_status.code();
        let x_pg_status = self.pg_status;
        let x_therm_status = self.therm_status;
        let x_vsys_status = self.vsys_status;
        let v = self.encode();
        assert(
            v >> 5 == x_vbus_status
                && (v >> 3) & 0x03 == x_charge_status
                && (v & 0x04 != 0 <==> x_pg_status)
                && (v & 0x02 != 0 <==> x_therm_status)
                && (v & 0x01 != 0 <==> x_vsys_status)
        ) by (bit_vector)
            requires
                v == (x_vbus_status << 5) | (x_charge_status << 3)
                    | (if x_pg_status { 0x04u8 } else { 0u8 })
                    | (if x_therm_status { 0x02u8 } else { 0u8 })
                    | (if x_vsys_status { 0x01u8 } else { 0u8 }),
                x_vbus_status <= 0x03,
                x_charge_status <= 0x03,
        ;
    }
}

impl From<u8> for Reg08Values {
    /// Splits a register byte into its fields.
    fn from(value: u8) -> (r: Self)
        ensures
            r == Self::decode(value),
    {
        assert((value >> 3) & 0x03 <= 0x03) by (bit_vector);
        Reg08Values {
            vbus_status: VBUSStatus::from(value >> 5),
            charge_status: ChargeStatus::from((value >> 3) & 0x03),
            pg_status: value & 0x04 != 0,
            therm_status: value & 0x02 != 0,
            vsys_status: value & 0x01 != 0,
        }
    }
}

impl FromSpecImpl<u8> for Reg08Values {
    open spec fn obeys_from_spec() -> bool {
        true
    }

    open spec fn from_spec(v: u8) -> Self {
        Self::decode(v)
    }
}

impl From<Reg08Values> for u8 {
    /// Packs the fields into a register byte.
    fn from(value: Reg08Values) -> (r: u8)
        ensures
            r == value.encode(),
    {
        ((value.vbus_status as u8) << 5) | ((value.charge_status as u8) << 3)
            | (if value.pg_status { 0x04u8 } else { 0u8 })
            | (if value.therm_status { 0x02u8 } else { 0u8 })
            | (if value.vsys_status { 0x01u8 } else { 0u8 })
    }
}

impl FromSpecImpl<Reg08Values> for u8 {
    open spec fn obeys_from_spec() -> bool {
        true
    }

    open spec fn from_spec(v: Reg08Values) -> u8 {
        v.encode()
    }
}

/// Charge fault status.
#[derive(Clone, Copy, Debug, PartialEq, Eq, Structural)]
pub enum ChargeFault {
    /// Normal (code 0x00).
    Normal,
    /// Input fault (VAC OVP or VBAT < VBUS < 3.8 V) (code 0x01).
    InputFault,
    /// Thermal shutdown (code 0x02).
    ThermalShutdown,
    /// Charge safety timer expired (code 0x03).
    ChhargeSafetyTimerExpired,
}

impl ChargeFault {
    /// The code of this setting in its register field.
    pub open spec fn code(self) -> u8 {
        self as u8
    }

    /// The setting with the given code (one exists for codes up to 0x03).
    pub open spec fn of_code(value: u8) -> Self {
        choose|c: Self| #[trigger] c.code() == value
    }

    /// Each setting has a code within the field, and that code selects it again.
    pub proof fn lemma_code(self)
        ensures
            self.code() <= 0x03,
            Self::of_code(self.code()) == self,
    {
    }

    /// Decodes a field code; codes above 0x03 name no setting and are not accepted.
    pub fn from(value: u8) -> (r: Self)
        requires
            value <= 0x03,
        ensures
            r.code() == value,
            r == Self::of_code(value),
    {
        let r = match value {
            0x00 => ChargeFault::Normal,
            0x01 => ChargeFault::InputFault,
            0x02 => ChargeFault::ThermalShutdown,
            _ => ChargeFault::ChhargeSafetyTimerExpired,
        };
        proof {
            r.lemma_code();
        }
        r
    }
}

/// NTC (battery temperature) fault status.
#[derive(Clone, Copy, Debug, PartialEq, Eq, Structural)]
pub enum NtcFault {
    /// Normal
    Normal,
    /// Warm
    Warm,
    /// Cool (buck mode only)
    Cool,
    /// Cold
    Cold,
    /// Hot
    Hot,
}

impl NtcFault {
    /// The code of this status in its register field.
    pub open spec fn code(self) -> u8 {
        match self {
            NtcFault::Normal => 0x00,
            NtcFault::Warm => 0x02,
            NtcFault::Cool => 0x03,
            NtcFault::Cold => 0x05,
            NtcFault::Hot => 0x06,
        }
    }

    /// The status that a raw code selects: codes that name no status select the
    /// highest-valued one, `Hot`.
    pub open spec fn of_code(value: u8) -> Self {
        if value == 0x00 {
            NtcFault::Normal
        } else if value == 0x02 {
            NtcFault::Warm
        } else if value == 0x03 {
            NtcFault::Cool
        } else if value == 0x05 {
            NtcFault::Cold
        } else {
            NtcFault::Hot
        }
    }

    /// Each status has a code within the field, and that code selects it again.
    pub proof fn lemma_code(self)
        ensures
            self.code() <= 0x07,
            Self::of_code(self.code()) == self,
    {
    }

    /// The code of this status in its register field.
    pub fn to_code(self) -> (r: u8)
        ensures
            r == self.code(),
    {
        match self {
            NtcFault::Normal => 0x00,
            NtcFault::Warm => 0x02,
            NtcFault::Cool => 0x03,
            NtcFault::Cold => 0x05,
            NtcFault::Hot => 0x06,
        }
    }
}

impl From<u8> for NtcFault {
    /// Decodes a field code; codes that name no status decode to `Hot`.
    fn from(value: u8) -> (r: Self)
        ensures
            r == Self::of_code(value),
    {
        match value {
            0x00 => NtcFault::Normal,
            0x02 => NtcFault::Warm,
            0x03 => NtcFault::Cool,
            0x05 => NtcFault::Cold,
            _ => NtcFault::Hot,
        }
    }
}

impl FromSpecImpl<u8> for NtcFault {
    open spec fn obeys_from_spec() -> bool {
        true
    }

    open spec fn from_spec(v: u8) -> Self {
        Self::of_code(v)
    }
}

/// REG09: fault bits, read only.
#[derive(Clone, Copy, Debug, PartialEq, Eq, Structural)]
pub struct Reg09Values {
    /// Watchdog timer expired.
    pub watchdog_fault: bool,
    /// Boost could not start or was stopped (VBUS overloaded or over-voltage, or battery too low).
    pub boost_fault: bool,
    /// Charge fault status.
    pub charge_fault: ChargeFault,
    /// Battery over-voltage (BATOVP).
    pub bat_fault: bool,
    /// NTC fault status.
    pub ntc_fault: NtcFault,
}

impl Reg09Values {
    /// The fields that a register byte holds.
    pub open spec fn decode(value: u8) -> Self {
        Reg09Values {
            watchdog_fault: value & 0x80 != 0,
            boost_fault: value & 0x40 != 0,
            charge_fault: ChargeFault::of_code((value >> 4) & 0x03),
            bat_fault: value & 0x08 != 0,
            ntc_fault: NtcFault::of_code(value & 0x07),
        }
    }

    /// The register byte that holds these fields.
    pub open spec fn encode(self) -> u8 {
        (if self.watchdog_fault { 0x80u8 } else { 0u8 })
            | (if self.boost_fault { 0x40u8 } else { 0u8 }) | (self.charge_fault.code() << 4)
            | (if self.bat_fault { 0x08u8 } else { 0u8 }) | self.ntc_fault.code()
    }

    /// Decoding the byte that encodes a value gives the value back.
    pub proof fn lemma_round_trip(self)
        ensures
            Self::decode(self.encode()) == self,
    {
        self.charge_fault.lemma_code();
        self.ntc_fault.lemma_code();
        let x_watchdog_fault = self.watchdog_fault;
        let x_boost_fault = self.boost_fault;
        let x_charge_fault = self.charge_fault.code();
        let x_bat_fault = self.bat_fault;
        let x_ntc_fault = self.ntc_fault.code();
        let v = self.encode();
        assert(
            (v & 0x80 != 0 <==> x_watchdog_fault)
                && (v & 0x40 != 0 <==> x_boost_fault)
                && (v >> 4) & 0x03 == x_charge_fault
                && (v & 0x08 != 0 <==> x_bat_fault)
                && v & 0x07 == x_ntc_fault
        ) by (bit_vector)
            requires
                v == (if x_watchdog_fault { 0x80u8 } else { 0u8 })
                    | (if x_boost_fault { 0x40u8 } else { 0u8 }) | (x_charge_fault << 4)
                    | (if x_bat_fault { 0x08u8 } else { 0u8 }) | x_ntc_fault,
                x_charge_fault <= 0x03,
                x_ntc_fault <= 0x06,
        ;
    }
}

impl From<u8> for Reg09Values {
    /// Splits a register byte into its fields.
    fn from(value: u8) -> (r: Self)
        ensures
            r == Self::decode(value),
    {
        assert((value >> 4) & 0x03 <= 0x03) by (bit_vector);
        Reg09Values {
            watchdog_fault: value & 0x80 != 0,
            boost_fault: value & 0x40 != 0,
            charge_fault: ChargeFault::from((value >> 4) & 0x03),
            bat_fault: value & 0x08 != 0,
            ntc_fault: NtcFault::from(value & 0x07),
        }
    }
}

impl FromSpecImpl<u8> for Reg09Values {
    open spec fn obeys_from_spec() -> bool {
        true
    }

    open spec fn from_spec(v: u8) -> Self {
        Self::decode(v)
    }
}

impl From<Reg09Values> for u8 {
    /// Packs the fields into a register byte.
    fn from(value: Reg09Values) -> (r: u8)
        ensures
            r == value.encode(),
    {
        (if value.watchdog_fault { 0x80u8 } else { 0u8 })
            | (if value.boost_fault { 0x40u8 } else { 0u8 }) | ((value.charge_fault as u8) << 4)
            | (if value.bat_fault { 0x08u8 } else { 0u8 }) | value.ntc_fault.to_code()
    }
}

impl FromSpecImpl<Reg09Values> for u8 {
    open spec fn obeys_from_spec() -> bool {
        true
    }

    open spec fn from_spec(v: Reg09Values) -> u8 {
        v.encode()
    }
}

/// REG0A: input status and interrupt masks.
#[derive(Clone, Copy, Debug, PartialEq, Eq, Structural)]
pub struct Reg0aValues {
    /// Good input source detected.
    pub vbus_gd: bool,
    /// In input voltage regulation (VINDPM).
    pub vindpm_status: bool,
    /// In input current regulation (IINDPM).
    pub iindpm_status: bool,
    /// Input current limit detection.
    pub iindet_enabled: bool,
    /// Top-off timer counting.
    pub topoff_active: bool,
    /// Input over-voltage (AC adaptor is the input source).
    pub acov_status: bool,
    /// VINDPM event interrupt masked.
    pub vindpm_int_mask: bool,
    /// IINDPM event interrupt masked.
    pub iindpm_int_mask: bool,
}

impl Reg0aValues {
    /// The fields that a register byte holds.
    pub open spec fn decode(value: u8) -> Self {
        Reg0aValues {
            vbus_gd: value & 0x80 != 0,
            vindpm_status: value & 0x40 != 0,
            iindpm_status: value & 0x20 != 0,
            iindet_enabled: value & 0x10 != 0,
            topoff_active: value & 0x08 != 0,
            acov_status: value & 0x04 != 0,
            vindpm_int_mask: value & 0x02 != 0,
            iindpm_int_mask: value & 0x01 != 0,
        }
    }

    /// The register byte that holds these fields.
    pub open spec fn encode(self) -> u8 {
        (if self.vbus_gd { 0x80u8 } else { 0u8 })
            | (if self.vindpm_status { 0x40u8 } else { 0u8 })
            | (if self.iindpm_status { 0x20u8 } else { 0u8 })
            | (if self.iindet_enabled { 0x10u8 } else { 0u8 })
            | (if self.topoff_active { 0x08u8 } else { 0u8 })
            | (if self.acov_status { 0x04u8 } else { 0u8 })
            | (if self.vindpm_int_mask { 0x02u8 } else { 0u8 })
            | (if self.iindpm_int_mask { 0x01u8 } else { 0u8 })
    }

    /// Decoding the byte that encodes a value gives the value back.
    pub proof fn lemma_round_trip(self)
        ensures
            Self::decode(self.encode()) == self,
    {
        let x_vbus_gd = self.vbus_gd;
        let x_vindpm_status = self.vindpm_status;
        let x_iindpm_status = self.iindpm_status;
        let x_iindet_enabled = self.iindet_enabled;
        let x_topoff_active = self.topoff_active;
        let x_acov_status = self.acov_status;
        let x_vindpm_int_mask = self.vindpm_int_mask;
        let x_iindpm_int_mask = self.iindpm_int_mask;
        let v = self.encode();
        assert(
            (v & 0x80 != 0 <==> x_vbus_gd)
                && (v & 0x40 != 0 <==> x_vindpm_status)
                && (v & 0x20 != 0 <==> x_iindpm_status)
                && (v & 0x10 != 0 <==> x_iindet_enabled)
                && (v & 0x08 != 0 <==> x_topoff_active)
                && (v & 0x04 != 0 <==> x_acov_status)
                && (v & 0x02 != 0 <==> x_vindpm_int_mask)
                && (v & 0x01 != 0 <==> x_iindpm_int_mask)
        ) by (bit_vector)
            requires
                v == (if x_vbus_gd { 0x80u8 } else { 0u8 })
                    | (if x_vindpm_status { 0x40u8 } else { 0u8 })
                    | (if x_iindpm_status { 0x20u8 } else { 0u8 })
                    | (if x_iindet_enabled { 0x10u8 } else { 0u8 })
                    | (if x_topoff_active { 0x08u8 } else { 0u8 })
                    | (if x_acov_status { 0x04u8 } else { 0u8 })
                    | (if x_vindpm_int_mask { 0x02u8 } else { 0u8 })
                    | (if x_iindpm_int_mask { 0x01u8 } else { 0u8 }),
        ;
    }
}

impl From<u8> for Reg0aValues {
    /// Splits a register byte into its fields.
    fn from(value: u8) -> (r: Self)
        ensures
            r == Self::decode(value),
    {
        Reg0aValues {
            vbus_gd: value & 0x80 != 0,
            vindpm_status: value & 0x40 != 0,
            iindpm_status: value & 0x20 != 0,
            iindet_enabled: value & 0x10 != 0,
            topoff_active: value & 0x08 != 0,
            acov_status: value & 0x04 != 0,
            vindpm_int_mask: value & 0x02 != 0,
            iindpm_int_mask: value & 0x01 != 0,
        }
    }
}

impl FromSpecImpl<u8> for Reg0aValues {
    open spec fn obeys_from_spec() -> bool {
        true
    }

    open spec fn from_spec(v: u8) -> Self {
        Self::decode(v)
    }
}

impl From<Reg0aValues> for u8 {
    /// Packs the fields into a register byte.
    fn from(value: Reg0aValues) -> (r: u8)
        ensures
            r == value.encode(),
    {
        (if value.vbus_gd { 0x80u8 } else { 0u8 })
            | (if value.vindpm_status { 0x40u8 } else { 0u8 })
            | (if value.iindpm_status { 0x20u8 } else { 0u8 })
            | (if value.iindet_enabled { 0x10u8 } else { 0u8 })
            | (if value.topoff_active { 0x08u8 } else { 0u8 })
            | (if value.acov_status { 0x04u8 } else { 0u8 })
            | (if value.vindpm_int_mask { 0x02u8 } else { 0u8 })
            | (if value.iindpm_int_mask { 0x01u8 } else { 0u8 })
    }
}

impl FromSpecImpl<Reg0aValues> for u8 {
    open spec fn obeys_from_spec() -> bool {
        true
    }

    open spec fn from_spec(v: Reg0aValues) -> u8 {
        v.encode()
    }
}

} // verus!
