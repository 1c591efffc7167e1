use renogy_rs::alarm::{Status1, Status2};
use renogy_rs::buffer::SampleBuffer;
use renogy_rs::device::{AcpConfig, DeviceCommand, PowerSettings};
use renogy_rs::error::RenogyError;
use renogy_rs::pdu::FunctionCode;
use renogy_rs::query::BatteryInfo;
use renogy_rs::summary::{SystemAlarms, SystemSummary};
use renogy_rs::transport::{default_scan_range, Discovery, TransportType};
use renogy_rs::writer::{requeue_after_failure, take_batch, write_url, Backoff};

fn battery(serial: &str) -> BatteryInfo {
    let mut b = BatteryInfo::blank();
    b.serial = serial.to_string();
    b
}

fn serials(v: &[BatteryInfo]) -> Vec<String> {
    v.iter().map(|b| b.serial.clone()).collect()
}

#[test]
fn device_command_frames() {
    let p = DeviceCommand::Lock.create_pdu(0x30);
    assert_eq!(p.function_code, FunctionCode::WriteSingleRegister);
    assert_eq!(p.payload, vec![0x14, 0x68, 0x5A, 0x5A]);
    let p = DeviceCommand::Unlock.create_pdu(0x30);
    assert_eq!(p.payload, vec![0x14, 0x68, 0xA5, 0xA5]);
    let p = DeviceCommand::Shutdown.create_pdu(1);
    assert_eq!(p.payload, vec![0x14, 0x66, 0x00, 0x01]);
    let p = DeviceCommand::TestBegin.create_pdu(1);
    assert_eq!(p.payload, vec![0x14, 0x69, 0x5A, 0x5A]);
    let p = DeviceCommand::TestEnd.create_pdu(1);
    assert_eq!(p.payload, vec![0x14, 0x69, 0xA5, 0xA5]);
    let p = DeviceCommand::RestoreFactoryDefault.create_pdu(1);
    assert_eq!(p.function_code, FunctionCode::RestoreFactoryDefault);
    assert_eq!(p.payload, vec![0, 0, 0, 1]);
    let p = DeviceCommand::ClearHistory.create_pdu(1);
    assert_eq!(p.function_code, FunctionCode::ClearHistory);
}

#[test]
fn unlock_bracketing() {
    assert!(DeviceCommand::ClearHistory.requires_unlock());
    assert!(!DeviceCommand::Shutdown.requires_unlock());
    assert_eq!(
        DeviceCommand::RestoreFactoryDefault.sequence(),
        vec![DeviceCommand::Unlock, DeviceCommand::RestoreFactoryDefault, DeviceCommand::Lock]
    );
    assert_eq!(DeviceCommand::TestBegin.sequence(), vec![DeviceCommand::TestBegin]);
}

#[test]
fn configuration_ranges() {
    assert!(PowerSettings::new(100, 0).is_ok());
    assert_eq!(PowerSettings::new(101, 50), Err(RenogyError::InvalidRegisterRange));
    assert!(AcpConfig::new(1, 254, 100).is_ok());
    assert_eq!(AcpConfig::new(0, 10, 10), Err(RenogyError::InvalidRegisterRange));
    assert_eq!(AcpConfig::new(10, 10, 255), Err(RenogyError::InvalidRegisterRange));
    assert!(PowerSettings::is_valid_percent(100));
    assert!(!AcpConfig::is_valid_acp_value(255));
}

#[test]
fn buffer_keeps_newest_at_capacity() {
    let mut buf = SampleBuffer::new(3);
    assert!(!buf.push(battery("a")));
    buf.push(battery("b"));
    buf.push(battery("c"));
    assert!(buf.push(battery("d")));
    assert!(!buf.push(battery("e")));
    assert_eq!(serials(&buf.drain_all()), vec!["c", "d", "e"]);
    assert!(buf.is_empty());
    buf.push(battery("f"));
    buf.push(battery("g"));
    buf.push(battery("h"));
    assert!(buf.push(battery("i")));
}

#[test]
fn buffer_minimum_capacity_is_one() {
    let mut buf = SampleBuffer::new(0);
    assert_eq!(buf.capacity(), 1);
    buf.push(battery("a"));
    buf.push(battery("b"));
    assert_eq!(serials(&buf.drain_all()), vec!["b"]);
    assert_eq!(SampleBuffer::for_window(600, 60).capacity(), 10);
    assert_eq!(SampleBuffer::for_window(601, 60).capacity(), 11);
    assert_eq!(SampleBuffer::for_window(0, 60).capacity(), 1);
}

#[test]
fn extend_front_over_capacity_drops_tail() {
    let mut buf = SampleBuffer::new(3);
    buf.push(battery("x"));
    let batch = vec![battery("a"), battery("b"), battery("c"), battery("d")];
    buf.extend_front(batch);
    assert_eq!(serials(&buf.drain_all()), vec!["a", "b", "c"]);
    let mut buf = SampleBuffer::new(4);
    buf.push(battery("x"));
    buf.push(battery("y"));
    buf.extend_front(vec![battery("a"), battery("b"), battery("c")]);
    assert_eq!(serials(&buf.drain_all()), vec!["a", "b", "c", "x"]);
}

#[test]
fn writer_backoff_sequence() {
    let mut buf = SampleBuffer::new(10);
    let mut backoff = Backoff::new();
    buf.push(battery("a"));
    buf.push(battery("b"));
    let mut sleeps = Vec::new();
    for _ in 0..3 {
        let batch = take_batch(&mut buf).unwrap();
        sleeps.push(requeue_after_failure(&mut buf, batch, &mut backoff));
    }
    assert_eq!(sleeps, vec![1, 2, 4]);
    let batch = take_batch(&mut buf).unwrap();
    assert_eq!(serials(&batch), vec!["a", "b"]);
    backoff.on_success();
    assert_eq!(backoff.secs, 1);
    assert!(take_batch(&mut buf).is_none());
}

#[test]
fn backoff_caps_at_a_minute() {
    let mut backoff = Backoff::new();
    let sleeps: Vec<u64> = (0..9).map(|_| backoff.on_failure()).collect();
    assert_eq!(sleeps, vec![1, 2, 4, 8, 16, 32, 60, 60, 60]);
}

#[test]
fn write_url_trims_slashes() {
    assert_eq!(write_url("http://db:8428/"), "http://db:8428/write");
    assert_eq!(write_url("http://db:8428"), "http://db:8428/write");
    assert_eq!(write_url("http://db//"), "http://db/write");
}

#[test]
fn discovery_stops_at_first_gap() {
    let (first, last) = default_scan_range(TransportType::Serial);
    assert_eq!((first, last), (0x01, 0x10));
    assert_eq!(default_scan_range(TransportType::Bt2), (0x30, 0x3F));
    let present = [0x01u8, 0x02, 0x03, 0x05];
    let mut d = Discovery::new(first, last);
    let mut probed = Vec::new();
    while let Some(addr) = d.next_address() {
        probed.push(addr);
        d.record(present.contains(&addr));
    }
    assert_eq!(probed, vec![1, 2, 3, 4]);
    assert_eq!(d.into_found(), vec![1, 2, 3]);
}

#[test]
fn discovery_whole_band() {
    let mut d = Discovery::new(0x30, 0x32);
    while d.next_address().is_some() {
        d.record(true);
    }
    assert_eq!(d.into_found(), vec![0x30, 0x31, 0x32]);
}

#[test]
fn rollup_of_nothing_is_empty() {
    let s = SystemSummary::new(&[], 7);
    assert_eq!(s.battery_count, 0);
    assert_eq!(s.total_current, 0);
    assert_eq!(s.total_remaining_capacity, 0);
    assert_eq!(s.total_capacity, 0);
    assert_eq!(s.average_soc, 0);
    assert_eq!(s.average_voltage, 0);
    assert_eq!(s.average_temperature, None);
    assert_eq!(s.status1.bits(), 0);
    assert_eq!(s.status2.bits(), 0);
    assert_eq!(s.alarms().bits(), 0);
}

#[test]
fn rollup_totals_and_status() {
    let mut a = battery("a");
    a.current = -1500;
    a.remaining_capacity = 50_000;
    a.total_capacity = 100_000;
    a.module_voltage = 13_300;
    a.cell_temperatures = vec![20_000, 22_000];
    a.status1 = Some(Status1::from_bits(Status1::CELL_OVER_VOLTAGE | Status1::CHARGE_MOSFET));
    let mut b = battery("b");
    b.current = 500;
    b.remaining_capacity = 25_000;
    b.total_capacity = 100_000;
    b.module_voltage = 13_200;
    b.cell_temperatures = vec![-3_000];
    b.status1 = Some(Status1::from_bits(Status1::SHORT_CIRCUIT));
    b.status2 = Some(Status2::from_bits(Status2::HEATER_ON));
    let one = SystemSummary::new(&[a.clone()], 0);
    let s = SystemSummary::new(&[a, b], 0);
    assert_eq!(s.battery_count, 2);
    assert_eq!(s.total_current, -1000);
    assert_eq!(s.total_remaining_capacity, 75_000);
    assert_eq!(s.total_capacity, 200_000);
    assert_eq!(s.average_soc, 3750);
    assert_eq!(s.average_voltage, 13_250);
    assert_eq!(s.average_temperature, Some(13_000));
    assert_eq!(s.status1.bits() & one.status1.bits(), one.status1.bits());
    assert_eq!(s.status1.bits(), Status1::CELL_OVER_VOLTAGE | Status1::CHARGE_MOSFET | Status1::SHORT_CIRCUIT);
    let alarms = s.alarms();
    assert!(alarms.contains(SystemAlarms::OVER_VOLTAGE));
    assert!(alarms.contains(SystemAlarms::SHORT_CIRCUIT));
    assert!(alarms.contains(SystemAlarms::HEATER_ON));
    assert!(!alarms.contains(SystemAlarms::UNDER_VOLTAGE));
    assert_eq!(alarms.to_aprs_binary_string(), "10000110");
}

#[test]
fn negative_mean_truncates_toward_zero() {
    let mut a = battery("a");
    a.cell_temperatures = vec![-1, -2];
    let s = SystemSummary::new(&[a], 0);
    assert_eq!(s.average_temperature, Some(-1));
}

#[test]
fn system_alarm_bits() {
    let s1 = Status1::from_bits(Status1::CHARGE_OVER_CURRENT2 | Status1::DISCHARGE_UNDER_TEMP);
    let s2 = Status2::from_bits(Status2::FULLY_CHARGED);
    let a = SystemAlarms::from_status(s1, s2);
    assert_eq!(a.bits(), SystemAlarms::OVER_CURRENT | SystemAlarms::UNDER_TEMP | SystemAlarms::FULLY_CHARGED);
    assert_eq!(a.to_aprs_binary_string(), "00101001");
}
