use sgm41511::types::{
    BatteryRechargeThreshold, BoostCurrentLimit, BoostModeVoltage, ChargeCurrent, ChargeFault,
    ChargeStatus, ChargeTimerSetting, ChargeVoltageLimit, InputCurrentLimit, JEITAChargingCurrent,
    JEITAVoltageSetting, MinBatteryVoltageForOtG, MinSystemVoltage, NtcFault, OVPThreshold,
    PreChargeCurrent, Q1FullOnMode, Reg00Values, Reg01Values, Reg02Values, Reg03Values,
    Reg04Values, Reg05Values, Reg06Values, Reg07Values, Reg08Values, Reg09Values, Reg0aValues,
    TermChargeCurrent, ThermalRegulationThreshold, TopOffTimer, VBUSStatus,
    VDPMBatteryVoltageTracking, VINDPMThreshold, WatchDogTimerSetting,
};

#[test]
fn reg00_decode_fixtures() {
    assert_eq!(
        Reg00Values::from(0b00010111),
        Reg00Values { en_hiz: false, en_ichg_mon: true, input_milliamps_limit: InputCurrentLimit::_2400mA }
    );
    assert_eq!(
        Reg00Values::from(0b11111111),
        Reg00Values { en_hiz: true, en_ichg_mon: false, input_milliamps_limit: InputCurrentLimit::_3200mA }
    );
    assert_eq!(
        Reg00Values::from(0b00000000),
        Reg00Values { en_hiz: false, en_ichg_mon: true, input_milliamps_limit: InputCurrentLimit::_100mA }
    );
}

#[test]
fn reg00_monitor_flag_reads_both_bits() {
    assert!(!Reg00Values::from(0b00100000).en_ichg_mon);
    assert!(!Reg00Values::from(0b01000000).en_ichg_mon);
}

#[test]
fn reg00_encode_fixtures() {
    let v: u8 = Reg00Values { en_hiz: false, en_ichg_mon: true, input_milliamps_limit: InputCurrentLimit::_2400mA }.into();
    assert_eq!(v, 0b00010111);
    let v: u8 = Reg00Values { en_hiz: true, en_ichg_mon: false, input_milliamps_limit: InputCurrentLimit::_3200mA }.into();
    assert_eq!(v, 0b11111111);
    let v: u8 = Reg00Values { en_hiz: false, en_ichg_mon: true, input_milliamps_limit: InputCurrentLimit::_100mA }.into();
    assert_eq!(v, 0b00000000);
}

#[test]
fn reg01_fixtures() {
    let a = Reg01Values {
        pfm_disabled: false,
        watchdog_reset: false,
        otg_enabled: false,
        charge_enabled: true,
        sys_min_voltage: MinSystemVoltage::_3_5V,
        min_bat_sel: MinBatteryVoltageForOtG::_2_95V,
    };
    let b = Reg01Values {
        pfm_disabled: true,
        watchdog_reset: true,
        otg_enabled: true,
        charge_enabled: true,
        sys_min_voltage: MinSystemVoltage::_3_7V,
        min_bat_sel: MinBatteryVoltageForOtG::_2_6V,
    };
    let c = Reg01Values {
        pfm_disabled: false,
        watchdog_reset: false,
        otg_enabled: false,
        charge_enabled: false,
        sys_min_voltage: MinSystemVoltage::_2_6V,
        min_bat_sel: MinBatteryVoltageForOtG::_2_95V,
    };
    assert_eq!(Reg01Values::from(0b00011010), a);
    assert_eq!(Reg01Values::from(0b11111111), b);
    assert_eq!(Reg01Values::from(0b00000000), c);
    assert_eq!(u8::from(a), 0b00011010);
    assert_eq!(u8::from(b), 0b11111111);
    assert_eq!(u8::from(c), 0b00000000);
}

#[test]
fn reg02_fixtures() {
    let a = Reg02Values {
        boost_current_limit: BoostCurrentLimit::_1_25A,
        q1_full_on: Q1FullOnMode::Accuracy,
        charge_current: ChargeCurrent::_2040mA,
    };
    let b = Reg02Values {
        boost_current_limit: BoostCurrentLimit::_0_5A,
        q1_full_on: Q1FullOnMode::Accuracy,
        charge_current: ChargeCurrent::_0mA,
    };
    let c = Reg02Values {
        boost_current_limit: BoostCurrentLimit::_1_25A,
        q1_full_on: Q1FullOnMode::Efficiency,
        charge_current: ChargeCurrent::_3000mA,
    };
    assert_eq!(Reg02Values::from(0b10100010), a);
    assert_eq!(Reg02Values::from(0b00000000), b);
    assert_eq!(Reg02Values::from(0b11110010), c);
    assert_eq!(u8::from(a), 0b10100010);
    assert_eq!(u8::from(b), 0b00000000);
    assert_eq!(u8::from(c), 0b11110010);
}

#[test]
fn reg02_q1_mode_is_bit_six_only() {
    let v = Reg02Values {
        boost_current_limit: BoostCurrentLimit::_0_5A,
        q1_full_on: Q1FullOnMode::Efficiency,
        charge_current: ChargeCurrent::_60mA,
    };
    assert_eq!(u8::from(v), 0b01000001);
    assert_eq!(Reg02Values::from(u8::from(v)), v);
}

#[test]
fn reg03_fixtures() {
    let v = Reg03Values {
        pre_charge_current: PreChargeCurrent::_180mA,
        term_charge_current: TermChargeCurrent::_180mA,
    };
    assert_eq!(Reg03Values::from(0b00100010), v);
    assert_eq!(u8::from(v), 0b00100010);
    let top = Reg03Values::from(0xff);
    assert_eq!(top.pre_charge_current, PreChargeCurrent::_780mA);
    assert_eq!(top.term_charge_current, TermChargeCurrent::_900mA);
}

#[test]
fn reg04_fixtures() {
    let cases = [
        (ChargeVoltageLimit::_4_208V, TopOffTimer::Disabled, BatteryRechargeThreshold::_100mV, 0b01011000u8),
        (ChargeVoltageLimit::_3_856V, TopOffTimer::Disabled, BatteryRechargeThreshold::_100mV, 0b00000000u8),
        (ChargeVoltageLimit::_4_624V, TopOffTimer::_45Minutes, BatteryRechargeThreshold::_200mV, 0b11000111u8),
        (ChargeVoltageLimit::_4_352V, TopOffTimer::Disabled, BatteryRechargeThreshold::_100mV, 0b01111000u8),
    ];
    for (cvl, top, rech, byte) in cases {
        let v = Reg04Values { charge_voltage_limit: cvl, top_off_timer: top, battery_recharge_threshold: rech };
        assert_eq!(u8::from(v), byte);
        assert_eq!(Reg04Values::from(byte), v);
    }
}

#[test]
fn reg05_fixtures() {
    let a = Reg05Values {
        term_enabled: true,
        watchdog_timer_setting: WatchDogTimerSetting::_40Seconds,
        timer_enabled: true,
        charge_timer_setting: ChargeTimerSetting::_6Hours,
        thermal_regulation_threshold: ThermalRegulationThreshold::_120DegreeC,
        jeita_charging_current: JEITAChargingCurrent::_20Percent,
    };
    let b = Reg05Values {
        term_enabled: false,
        watchdog_timer_setting: WatchDogTimerSetting::Disabled,
        timer_enabled: false,
        charge_timer_setting: ChargeTimerSetting::_4Hours,
        thermal_regulation_threshold: ThermalRegulationThreshold::_80DegreeC,
        jeita_charging_current: JEITAChargingCurrent::_50Percent,
    };
    let c = Reg05Values {
        term_enabled: true,
        watchdog_timer_setting: WatchDogTimerSetting::_160Seconds,
        timer_enabled: true,
        charge_timer_setting: ChargeTimerSetting::_6Hours,
        thermal_regulation_threshold: ThermalRegulationThreshold::_120DegreeC,
        jeita_charging_current: JEITAChargingCurrent::_20Percent,
    };
    assert_eq!(Reg05Values::from(0b10011111), a);
    assert_eq!(Reg05Values::from(0b00000000), b);
    assert_eq!(Reg05Values::from(0b11111111), c);
    assert_eq!(u8::from(a), 0b10011111);
    assert_eq!(u8::from(b), 0b00000000);
    assert_eq!(u8::from(c), 0b10111111);
}

#[test]
fn reg05_timer_flag_is_bit_three() {
    let v = Reg05Values {
        term_enabled: false,
        watchdog_timer_setting: WatchDogTimerSetting::Disabled,
        timer_enabled: true,
        charge_timer_setting: ChargeTimerSetting::_4Hours,
        thermal_regulation_threshold: ThermalRegulationThreshold::_80DegreeC,
        jeita_charging_current: JEITAChargingCurrent::_50Percent,
    };
    assert_eq!(u8::from(v), 0b00001000);
    assert_eq!(Reg05Values::from(0b00001000), v);
    assert!(!Reg05Values::from(0b00110000).timer_enabled);
}

#[test]
fn reg06_fixtures() {
    let cases = [
        (OVPThreshold::_6_5V, BoostModeVoltage::_5_15V, VINDPMThreshold::_4_5V, 0b01100110u8),
        (OVPThreshold::_5_5V, BoostModeVoltage::_4_85V, VINDPMThreshold::_3_9V, 0b00000000u8),
        (OVPThreshold::_14V, BoostModeVoltage::_5_30V, VINDPMThreshold::_5_4V, 0b11111111u8),
    ];
    for (ovp, boost, vindpm, byte) in cases {
        let v = Reg06Values { ovp_threshold: ovp, boost_mode_voltage: boost, vindpm_threshold: vindpm };
        assert_eq!(Reg06Values::from(byte), v);
        assert_eq!(u8::from(v), byte);
    }
}

#[test]
fn reg07_fixtures() {
    let a = Reg07Values {
        iindet_enabled: false,
        tmr2x_enabled: true,
        batfet_disabled: false,
        jeita_voltage_setting: JEITAVoltageSetting::LowerOf4_1V,
        batfet_delay: true,
        batfet_reset_enabled: true,
        vdpm_battery_tracking: VDPMBatteryVoltageTracking::Disabled,
    };
    let b = Reg07Values {
        iindet_enabled: false,
        tmr2x_enabled: false,
        batfet_disabled: false,
        jeita_voltage_setting: JEITAVoltageSetting::LowerOf4_1V,
        batfet_delay: false,
        batfet_reset_enabled: false,
        vdpm_battery_tracking: VDPMBatteryVoltageTracking::Disabled,
    };
    let c = Reg07Values {
        iindet_enabled: true,
        tmr2x_enabled: true,
        batfet_disabled: true,
        jeita_voltage_setting: JEITAVoltageSetting::VReg,
        batfet_delay: true,
        batfet_reset_enabled: true,
        vdpm_battery_tracking: VDPMBatteryVoltageTracking::_300mV,
    };
    assert_eq!(Reg07Values::from(0b01001100), a);
    assert_eq!(Reg07Values::from(0b00000000), b);
    assert_eq!(Reg07Values::from(0b11111111), c);
    assert_eq!(u8::from(a), 0b01001100);
    assert_eq!(u8::from(b), 0b00000000);
    assert_eq!(u8::from(c), 0b11111111);
}

#[test]
fn reg08_fixtures() {
    let a = Reg08Values {
        vbus_status: VBUSStatus::USBHostSDP,
        charge_status: ChargeStatus::Pre,
        pg_status: false,
        therm_status: true,
        vsys_status: false,
    };
    let b = Reg08Values {
        vbus_status: VBUSStatus::Adaptor2_4A,
        charge_status: ChargeStatus::Fast,
        pg_status: true,
        therm_status: false,
        vsys_status: true,
    };
    assert_eq!(Reg08Values::from(0b00101010), a);
    assert_eq!(Reg08Values::from(0b01010101), b);
    assert_eq!(u8::from(Reg08Values::from(0b00101010)), 0b00101010);
    assert_eq!(u8::from(Reg08Values::from(0b01010101)), 0b01010101);
}

#[test]
fn reg08_vbus_status_clamps_to_otg() {
    assert_eq!(Reg08Values::from(0b01100000).vbus_status, VBUSStatus::OTG);
    assert_eq!(Reg08Values::from(0b11100000).vbus_status, VBUSStatus::OTG);
    assert_eq!(Reg08Values::from(0b10000000).vbus_status, VBUSStatus::OTG);
}

#[test]
fn reg09_fixtures() {
    let a = Reg09Values {
        watchdog_fault: true,
        boost_fault: true,
        charge_fault: ChargeFault::ChhargeSafetyTimerExpired,
        bat_fault: true,
        ntc_fault: NtcFault::Hot,
    };
    let b = Reg09Values {
        watchdog_fault: false,
        boost_fault: false,
        charge_fault: ChargeFault::Normal,
        bat_fault: false,
        ntc_fault: NtcFault::Normal,
    };
    let c = Reg09Values {
        watchdog_fault: true,
        boost_fault: false,
        charge_fault: ChargeFault::ThermalShutdown,
        bat_fault: true,
        ntc_fault: NtcFault::Warm,
    };
    assert_eq!(Reg09Values::from(0b11111110), a);
    assert_eq!(Reg09Values::from(0b00000000), b);
    assert_eq!(Reg09Values::from(0b10101010), c);
    assert_eq!(u8::from(a), 0b11111110);
    assert_eq!(u8::from(b), 0b00000000);
    assert_eq!(u8::from(c), 0b10101010);
}

#[test]
fn reg09_ntc_codes() {
    assert_eq!(Reg09Values::from(0b00000011).ntc_fault, NtcFault::Cool);
    assert_eq!(Reg09Values::from(0b00000101).ntc_fault, NtcFault::Cold);
    assert_eq!(Reg09Values::from(0b00000001).ntc_fault, NtcFault::Hot);
    assert_eq!(Reg09Values::from(0b00000100).ntc_fault, NtcFault::Hot);
    assert_eq!(Reg09Values::from(0b00000111).ntc_fault, NtcFault::Hot);
    assert_eq!(u8::from(Reg09Values::from(0b00000101)), 0b00000101);
}

#[test]
fn reg0a_fixtures() {
    let a = Reg0aValues {
        vbus_gd: true,
        vindpm_status: false,
        iindpm_status: true,
        iindet_enabled: false,
        topoff_active: true,
        acov_status: false,
        vindpm_int_mask: true,
        iindpm_int_mask: false,
    };
    let b = Reg0aValues {
        vbus_gd: false,
        vindpm_status: true,
        iindpm_status: false,
        iindet_enabled: true,
        topoff_active: false,
        acov_status: true,
        vindpm_int_mask: false,
        iindpm_int_mask: true,
    };
    assert_eq!(Reg0aValues::from(0b10101010), a);
    assert_eq!(Reg0aValues::from(0b01010101), b);
    assert_eq!(u8::from(a), 0b10101010);
    assert_eq!(u8::from(b), 0b01010101);
}

#[test]
fn round_trip_over_sample_values() {
    for byte in 0..=255u8 {
        let r0 = Reg00Values::from(byte);
        assert_eq!(Reg00Values::from(u8::from(r0)), r0);
        let r1 = Reg01Values::from(byte);
        assert_eq!(Reg01Values::from(u8::from(r1)), r1);
        let r2 = Reg02Values::from(byte);
        assert_eq!(Reg02Values::from(u8::from(r2)), r2);
        let r3 = Reg03Values::from(byte);
        assert_eq!(Reg03Values::from(u8::from(r3)), r3);
        let r4 = Reg04Values::from(byte);
        assert_eq!(Reg04Values::from(u8::from(r4)), r4);
        let r5 = Reg05Values::from(byte);
        assert_eq!(Reg05Values::from(u8::from(r5)), r5);
        let r6 = Reg06Values::from(byte);
        assert_eq!(Reg06Values::from(u8::from(r6)), r6);
        let r7 = Reg07Values::from(byte);
        assert_eq!(Reg07Values::from(u8::from(r7)), r7);
        let r8 = Reg08Values::from(byte);
        assert_eq!(Reg08Values::from(u8::from(r8)), r8);
        let r9 = Reg09Values::from(byte);
        assert_eq!(Reg09Values::from(u8::from(r9)), r9);
        let ra = Reg0aValues::from(byte);
        assert_eq!(Reg0aValues::from(u8::from(ra)), ra);
    }
}

#[test]
fn clamped_fields_take_their_largest_setting() {
    assert_eq!(InputCurrentLimit::from(0x1f), InputCurrentLimit::_3200mA);
    assert_eq!(InputCurrentLimit::from(0x20), InputCurrentLimit::_3200mA);
    assert_eq!(InputCurrentLimit::from(0xff), InputCurrentLimit::_3200mA);
    assert_eq!(ChargeCurrent::from(0x32), ChargeCurrent::_3000mA);
    assert_eq!(ChargeCurrent::from(0x33), ChargeCurrent::_3000mA);
    assert_eq!(ChargeCurrent::from(0x3f), ChargeCurrent::_3000mA);
    assert_eq!(ChargeCurrent::from(0x41), ChargeCurrent::_60mA);
    assert_eq!(PreChargeCurrent::from(0x0d), PreChargeCurrent::_780mA);
    assert_eq!(TermChargeCurrent::from(0x0f), TermChargeCurrent::_900mA);
    assert_eq!(ChargeVoltageLimit::from(0x19), ChargeVoltageLimit::_4_624V);
    assert_eq!(ChargeVoltageLimit::from(0x0f), ChargeVoltageLimit::_4_352V);
    assert_eq!(VBUSStatus::from(0x05), VBUSStatus::OTG);
    assert_eq!(Reg02Values::from(0b00111111).charge_current, ChargeCurrent::_3000mA);
    assert_eq!(Reg04Values::from(0b11111000).charge_voltage_limit, ChargeVoltageLimit::_4_624V);
}

#[test]
fn defined_codes_decode_exactly() {
    assert_eq!(InputCurrentLimit::from(0x00), InputCurrentLimit::_100mA);
    assert_eq!(InputCurrentLimit::from(0x1e), InputCurrentLimit::_3100mA);
    assert_eq!(ChargeCurrent::from(0x31), ChargeCurrent::_2940mA);
    assert_eq!(PreChargeCurrent::from(0x0c), PreChargeCurrent::_780mA);
    assert_eq!(PreChargeCurrent::from(0x0b), PreChargeCurrent::_720mA);
    assert_eq!(TermChargeCurrent::from(0x0d), TermChargeCurrent::_840mA);
    assert_eq!(TopOffTimer::from(0x02), TopOffTimer::_30Minutes);
    assert_eq!(BatteryRechargeThreshold::from(0x01), BatteryRechargeThreshold::_200mV);
    assert_eq!(WatchDogTimerSetting::from(0x03), WatchDogTimerSetting::_160Seconds);
    assert_eq!(ChargeTimerSetting::from(0x00), ChargeTimerSetting::_4Hours);
    assert_eq!(ThermalRegulationThreshold::from(0x01), ThermalRegulationThreshold::_120DegreeC);
    assert_eq!(JEITAChargingCurrent::from(0x00), JEITAChargingCurrent::_50Percent);
    assert_eq!(OVPThreshold::from(0x02), OVPThreshold::_10_5V);
    assert_eq!(BoostModeVoltage::from(0x01), BoostModeVoltage::_5_00V);
    assert_eq!(VINDPMThreshold::from(0x0a), VINDPMThreshold::_4_9V);
    assert_eq!(JEITAVoltageSetting::from(0x01), JEITAVoltageSetting::VReg);
    assert_eq!(VDPMBatteryVoltageTracking::from(0x02), VDPMBatteryVoltageTracking::_250mV);
    assert_eq!(ChargeStatus::from(0x03), ChargeStatus::Terminated);
    assert_eq!(ChargeFault::from(0x01), ChargeFault::InputFault);
    assert_eq!(NtcFault::from(0x06), NtcFault::Hot);
    assert_eq!(NtcFault::from(0x02), NtcFault::Warm);
    assert_eq!(NtcFault::Cold.to_code(), 0x05);
}
