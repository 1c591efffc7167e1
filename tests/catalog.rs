use renogy_rs::alarm::{CellVoltageAlarm, CellTemperatureAlarm, CellTemperatureAlarms, CellVoltageAlarms, Status1};
use renogy_rs::error::RenogyError;
use renogy_rs::registers::{ElectricCurrent, ElectricPotential, Register, ThermodynamicTemperature, Value};

#[test]
fn voltage_decode() {
    assert_eq!(
        Register::CellVoltage(1).parse_value(&[0x00, 0x21]),
        Value::ElectricPotential(ElectricPotential { millivolts: 3300 })
    );
}

#[test]
fn capacity_decode() {
    assert_eq!(
        Register::RemainingCapacity.parse_value(&[0x00, 0x00, 0xC3, 0x50]),
        Value::ElectricCurrent(ElectricCurrent { milliamps: 50_000 })
    );
}

#[test]
fn integer_and_words_decode() {
    assert_eq!(Register::CellCount.parse_registers(&[16]), Value::Integer(16));
    assert_eq!(Register::UniqueIdentificationCode.parse_registers(&[0x0001, 0x0002]), Value::Integer(0x0001_0002));
}

#[test]
fn signed_decodes() {
    assert_eq!(
        Register::Current.parse_value(&[0xFF, 0x9C]),
        Value::ElectricCurrent(ElectricCurrent { milliamps: -1000 })
    );
    assert_eq!(
        Register::ChargeLowTemperatureLimit.parse_value(&[0xFF, 0xCE]),
        Value::ThermodynamicTemperature(ThermodynamicTemperature { millidegrees_celsius: -5000 })
    );
    assert_eq!(
        Register::CellTemperature(3).parse_value(&[0x00, 0xFA]),
        Value::ThermodynamicTemperature(ThermodynamicTemperature { millidegrees_celsius: 25_000 })
    );
}

#[test]
fn cell_voltage_alarm_over_dominates() {
    let bits = (1u32 << 16) | 1;
    let alarms = CellVoltageAlarms::from_bits(bits);
    assert_eq!(alarms.alarms[0], CellVoltageAlarm::OverVoltage);
    assert!(alarms.alarms[1..].iter().all(|a| *a == CellVoltageAlarm::Normal));
}

#[test]
fn bit_mapped_alarm_decode() {
    let value = Register::CellVoltageAlarmInfo.parse_value(&[0x00, 0x01, 0x00, 0x01]);
    let mut expected = [CellVoltageAlarm::Normal; 16];
    expected[0] = CellVoltageAlarm::OverVoltage;
    assert_eq!(value, Value::CellVoltageAlarms(CellVoltageAlarms { alarms: expected }));
    let temps = CellTemperatureAlarms::from_bits(0x0000_0002);
    assert_eq!(temps.alarms[1], CellTemperatureAlarm::UnderTemperature);
}

#[test]
fn status1_decode() {
    let value = Register::Status1.parse_value(&[0x80, 0x05]);
    let Value::Status1(s) = value else { panic!("not a status word") };
    assert!(s.contains(Status1::MODULE_UNDER_VOLTAGE));
    assert!(s.contains(Status1::DISCHARGE_MOSFET));
    assert!(s.contains(Status1::SHORT_CIRCUIT));
    assert!(!s.contains(Status1::CHARGE_MOSFET));
    assert_eq!(s.bits(), 0x8005);
}

#[test]
fn reserved_bits_are_kept() {
    let Value::ChargeDischargeStatus(s) = Register::ChargeDischargeStatus.parse_value(&[0x00, 0x01]) else {
        panic!("not a status word")
    };
    assert_eq!(s.bits(), 0x0001);
}

#[test]
fn text_decode_is_lossy() {
    let value = Register::SoftwareVersion.parse_value(&[b'V', b'1', 0xFF, 0x00]);
    assert_eq!(value, Value::String("V1\u{FFFD}\0".to_string()));
}

#[test]
fn catalog_lookups() {
    assert_eq!(Register::CellCount.address(), 5000);
    assert_eq!(Register::CellVoltage(16).address(), 5016);
    assert_eq!(Register::HeaterTemperature(2).address(), 5041);
    assert_eq!(Register::AcpShake.address(), 61442);
    assert_eq!(Register::SnNumber.quantity(), 8);
    assert_eq!(Register::ManufacturerName.quantity(), 10);
    assert_eq!(Register::SoftwareVersion.quantity(), 2);
    assert_eq!(Register::Status1.quantity(), 1);
    assert!(Register::ChargeVoltageLimit.is_writable());
    assert!(Register::LockControl.is_writable());
    assert!(!Register::CellCount.is_writable());
    assert!(!Register::Status2.is_writable());
}

#[test]
fn write_then_read_within_one_step() {
    let cases = [
        (Register::CellOverVoltageLimit, Value::ElectricPotential(ElectricPotential { millivolts: 3650 })),
        (Register::ChargeCurrentLimit, Value::ElectricCurrent(ElectricCurrent { milliamps: 50_005 })),
        (Register::DischargeCurrentLimit, Value::ElectricCurrent(ElectricCurrent { milliamps: 100_000 })),
        (
            Register::ChargeLowTemperatureLimit,
            Value::ThermodynamicTemperature(ThermodynamicTemperature { millidegrees_celsius: -4950 }),
        ),
        (Register::ChargePowerSetting, Value::Integer(80)),
        (Register::UniqueIdentificationCode, Value::Integer(0xDEAD_BEEF)),
    ];
    for (reg, value) in cases {
        let bytes = reg.serialize_value(&value).unwrap();
        assert_eq!(bytes.len(), 2 * reg.quantity() as usize);
        let back = reg.parse_value(&bytes);
        let (a, b, step) = match (&back, &value) {
            (Value::ElectricPotential(x), Value::ElectricPotential(y)) => (x.millivolts, y.millivolts, 100),
            (Value::ElectricCurrent(x), Value::ElectricCurrent(y)) => (x.milliamps, y.milliamps, 10),
            (Value::ThermodynamicTemperature(x), Value::ThermodynamicTemperature(y)) => {
                (x.millidegrees_celsius, y.millidegrees_celsius, 100)
            }
            (Value::Integer(x), Value::Integer(y)) => (*x as i64, *y as i64, 1),
            _ => panic!("kind changed"),
        };
        assert!((a - b).abs() < step, "{reg:?}: {a} vs {b}");
    }
}

#[test]
fn serialize_exact_bytes() {
    let v = Value::ElectricPotential(ElectricPotential { millivolts: 14_299 });
    assert_eq!(Register::ChargeVoltageLimit.serialize_value(&v), Ok(vec![0x00, 0x8E]));
    let t = Value::ThermodynamicTemperature(ThermodynamicTemperature { millidegrees_celsius: -5000 });
    assert_eq!(Register::DischargeLowTemperatureLimit.serialize_value(&t), Ok(vec![0xFF, 0xCE]));
    let neg = Value::ElectricPotential(ElectricPotential { millivolts: -500 });
    assert_eq!(Register::CellLowVoltageLimit.serialize_value(&neg), Ok(vec![0x00, 0x00]));
}

#[test]
fn serialize_rejects_mismatch_and_read_only() {
    let v = Value::ElectricPotential(ElectricPotential { millivolts: 3300 });
    assert_eq!(Register::ChargeCurrentLimit.serialize_value(&v), Err(RenogyError::UnsupportedOperation));
    assert_eq!(Register::ModuleVoltage.serialize_value(&v), Err(RenogyError::UnsupportedOperation));
    assert_eq!(
        Register::CycleNumber.serialize_value(&Value::Integer(3)),
        Err(RenogyError::UnsupportedOperation)
    );
}

#[test]
fn signed_current_limit_writes_twos_complement() {
    let v = Value::ElectricCurrent(ElectricCurrent { milliamps: -1000 });
    let bytes = Register::DischargeCurrentLimit.serialize_value(&v).unwrap();
    assert_eq!(bytes, vec![0xFF, 0x9C]);
    assert_eq!(Register::DischargeCurrentLimit.parse_value(&bytes), v);
    let low = Value::ElectricCurrent(ElectricCurrent { milliamps: -400_000 });
    assert_eq!(Register::DischargeCurrentLimit.serialize_value(&low), Ok(vec![0x80, 0x00]));
    let unsigned = Value::ElectricCurrent(ElectricCurrent { milliamps: -1000 });
    assert_eq!(Register::ChargeCurrentLimit.serialize_value(&unsigned), Ok(vec![0x00, 0x00]));
}
