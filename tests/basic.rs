use embedded_hal::i2c::{ErrorKind, I2c};
use embedded_hal_mock::eh1::i2c::{Mock, Transaction};
use sgm41511::types::{
    BoostCurrentLimit, ChargeCurrent, Q1FullOnMode, Reg02Values, Reg05Values, ChargeTimerSetting,
    JEITAChargingCurrent, ThermalRegulationThreshold, WatchDogTimerSetting,
};
use sgm41511::{I2cBus, Register, SGM41511, SGM41511_ADDR};

/// The mock bus, seen through the driver's bus trait.
struct MockBus(Mock);

impl I2cBus for MockBus {
    type Error = ErrorKind;

    fn write(&mut self, address: u8, bytes: &[u8]) -> Result<(), ErrorKind> {
        self.0.write(address, bytes)
    }

    fn write_read(&mut self, address: u8, bytes: &[u8], buffer: &mut [u8]) -> Result<(), ErrorKind> {
        self.0.write_read(address, bytes, buffer)
    }
}

#[test]
fn test_get_device_revision() {
    let expectations = [Transaction::write_read(
        SGM41511_ADDR,
        vec![Register::Reg0b as u8],
        vec![0b00010100],
    )];

    let mut i2c = Mock::new(&expectations);

    let mut device = SGM41511::new(MockBus(i2c.clone()));
    let revision = device.get_device_revision().unwrap();

    i2c.done();

    assert_eq!(revision, Some(0));
}

#[test]
fn device_revision_absent_when_marker_differs() {
    let expectations = [Transaction::write_read(SGM41511_ADDR, vec![0x0b], vec![0b11100000])];
    let mut i2c = Mock::new(&expectations);
    let mut device = SGM41511::new(MockBus(i2c.clone()));
    assert_eq!(device.get_device_revision().unwrap(), None);
    i2c.done();
}

#[test]
fn set_interrupt_masks_writes_one_byte() {
    let expectations = [Transaction::write(SGM41511_ADDR, vec![0x0b, 0b00000010])];
    let mut i2c = Mock::new(&expectations);
    let mut device = SGM41511::new(MockBus(i2c.clone()));
    device.set_interrupt_masks(true, false).unwrap();
    i2c.done();
}

#[test]
fn reset_register_writes_reset_code() {
    let expectations = [Transaction::write(SGM41511_ADDR, vec![0x0b, 0x80])];
    let mut i2c = Mock::new(&expectations);
    let mut device = SGM41511::new(MockBus(i2c.clone()));
    device.reset_register().unwrap();
    i2c.done();
}

#[test]
fn get_reg05_reads_and_decodes() {
    let expectations = [Transaction::write_read(SGM41511_ADDR, vec![0x05], vec![0b10011111])];
    let mut i2c = Mock::new(&expectations);
    let mut device = SGM41511::new(MockBus(i2c.clone()));
    let values = device.get_reg05().unwrap();
    i2c.done();
    assert_eq!(
        values,
        Reg05Values {
            term_enabled: true,
            watchdog_timer_setting: WatchDogTimerSetting::_40Seconds,
            timer_enabled: true,
            charge_timer_setting: ChargeTimerSetting::_6Hours,
            thermal_regulation_threshold: ThermalRegulationThreshold::_120DegreeC,
            jeita_charging_current: JEITAChargingCurrent::_20Percent,
        }
    );
}

#[test]
fn set_reg02_writes_encoded_byte() {
    let expectations = [Transaction::write(SGM41511_ADDR, vec![0x02, 0b11110010])];
    let mut i2c = Mock::new(&expectations);
    let mut device = SGM41511::new(MockBus(i2c.clone()));
    device
        .set_reg02(Reg02Values {
            boost_current_limit: BoostCurrentLimit::_1_25A,
            q1_full_on: Q1FullOnMode::Efficiency,
            charge_current: ChargeCurrent::_3000mA,
        })
        .unwrap();
    i2c.done();
}

#[test]
fn read_and_write_register_use_one_transaction_each() {
    let expectations = [
        Transaction::write_read(SGM41511_ADDR, vec![0x0a], vec![0x5a]),
        Transaction::write(SGM41511_ADDR, vec![0x07, 0x4c]),
    ];
    let mut i2c = Mock::new(&expectations);
    let mut device = SGM41511::new(MockBus(i2c.clone()));
    assert_eq!(device.read_register(Register::Reg0a).unwrap(), 0x5a);
    device.write_register(Register::Reg07, 0x4c).unwrap();
    i2c.done();
}

#[test]
fn bus_error_is_passed_on() {
    let expectations = [
        Transaction::write_read(SGM41511_ADDR, vec![0x00], vec![0x00]).with_error(ErrorKind::Other),
        Transaction::write(SGM41511_ADDR, vec![0x0b, 0x80]).with_error(ErrorKind::Overrun),
    ];
    let mut i2c = Mock::new(&expectations);
    let mut device = SGM41511::new(MockBus(i2c.clone()));
    assert_eq!(device.get_reg00(), Err(ErrorKind::Other));
    assert_eq!(device.reset_register(), Err(ErrorKind::Overrun));
    i2c.done();
}
