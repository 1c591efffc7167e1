use renogy_rs::alarm::{OtherAlarmInfo, Status1, Status2, Status3};
use renogy_rs::alarm_names::{collect_alarms, has_alarms};
use renogy_rs::ble::{device_path, is_bt2_name, select_characteristics};
use renogy_rs::dashboard::{merge_series, select_next, select_previous, DataPoint, History, RollUp};
use renogy_rs::error::RenogyError;
use renogy_rs::query::BatteryInfo;
use renogy_rs::remote::{snapshot_from_samples, RemoteSample};

fn battery(serial: &str) -> BatteryInfo {
    let mut b = BatteryInfo::blank();
    b.serial = serial.to_string();
    b
}

fn sample(name: &str, index: Option<u32>, value_milli: i64) -> RemoteSample {
    RemoteSample { name: name.to_string(), index, value_milli }
}

#[test]
fn alarm_names_skip_states() {
    let mut b = battery("a");
    assert!(!has_alarms(&b));
    b.status1 = Some(Status1::from_bits(
        Status1::CHARGE_MOSFET | Status1::DISCHARGE_MOSFET | Status1::CELL_OVER_VOLTAGE | Status1::SHORT_CIRCUIT,
    ));
    b.status2 = Some(Status2::from_bits(Status2::HEATER_ON | Status2::BUZZER));
    b.status3 = Some(Status3::from_bits(Status3::CELL_2_VOLTAGE_ERROR));
    b.other_alarm_info = Some(OtherAlarmInfo::from_bits(OtherAlarmInfo::DISCHARGE_OVER_CURRENT));
    assert_eq!(
        collect_alarms(&b),
        vec!["CELL_OVER_VOLTAGE", "SHORT_CIRCUIT", "BUZZER", "CELL_2_VOLTAGE_ERROR", "DISCHARGE_OVER_CURRENT"]
    );
    assert!(has_alarms(&b));
    let mut quiet = battery("b");
    quiet.status1 = Some(Status1::from_bits(Status1::CHARGE_MOSFET));
    assert!(!has_alarms(&quiet));
}

#[test]
fn remote_snapshot_rebuild() {
    let samples = vec![
        sample("renogy_cell_voltage_value", Some(2), 3400),
        sample("renogy_cell_voltage_value", Some(1), 3300),
        sample("renogy_cell_voltage_value", None, 9999),
        sample("renogy_module_voltage_value", None, 13_300),
        sample("renogy_soc_percent_value", None, 55_550),
        sample("renogy_cycle_count_value", None, 12_000),
        sample("renogy_status1_value", None, 6_000),
        sample("renogy_heater_temperature_value", Some(1), 10_000),
        sample("renogy_unknown_value", None, 1),
        sample("renogy_current_value", None, -1500),
        sample("renogy_current_value", None, -2500),
    ];
    let info = snapshot_from_samples("SN1", &samples, 5).unwrap();
    assert_eq!(info.serial, "SN1");
    assert_eq!(info.timestamp_nanos, 5);
    assert_eq!(info.cell_voltages, vec![3300, 3400]);
    assert_eq!(info.cell_count, 2);
    assert_eq!(info.module_voltage, 13_300);
    assert_eq!(info.current, -2500);
    assert_eq!(info.soc_hundredths_percent, 5555);
    assert_eq!(info.cycle_count, 12);
    assert_eq!(info.status1.map(|s| s.bits), Some(6));
    assert_eq!(info.heater_temperatures, vec![10_000]);
    assert_eq!(info.charge_voltage_limit, None);
    assert!(snapshot_from_samples("SN1", &[sample("renogy_current_value", None, 1)], 0).is_none());
    assert!(snapshot_from_samples("SN1", &[], 0).is_none());
}

#[test]
fn dashboard_rollup() {
    let mut a = battery("a");
    a.current = 1000;
    a.remaining_capacity = 30_000;
    a.total_capacity = 100_000;
    a.cell_temperatures = vec![21_000, 19_000];
    let mut b = battery("b");
    b.current = -3000;
    b.remaining_capacity = 10_000;
    b.total_capacity = 100_000;
    b.cell_temperatures = vec![25_000];
    let r = RollUp::from_batteries(&[(1, Some(a)), (2, None), (3, Some(b))]);
    assert_eq!(r.battery_count, 3);
    assert_eq!(r.responding_count, 2);
    assert_eq!(r.total_current, -2000);
    assert_eq!(r.total_remaining_capacity, 40_000);
    assert_eq!(r.total_capacity, 200_000);
    assert_eq!(r.average_soc, 2000);
    assert_eq!(r.min_temperature, Some(19_000));
    assert_eq!(r.max_temperature, Some(25_000));
    let mut h = History::new(2);
    h.push(&r, 100);
    h.push(&r, 115);
    h.push(&r, 130);
    assert_eq!(h.len(), 2);
    assert_eq!(h.time_range(), Some((115, 130)));
    assert_eq!(h.duration(), 15);
    h.replace(vec![
        DataPoint { timestamp_secs: 1, current: 0, soc: 0, temp_avg: Some(22_000) },
        DataPoint { timestamp_secs: 2, current: 0, soc: 0, temp_avg: None },
        DataPoint { timestamp_secs: 3, current: 0, soc: 0, temp_avg: None },
    ]);
    assert_eq!(h.oldest_timestamp(), Some(1));
    assert_eq!(h.newest_timestamp(), Some(2));
    let empty = RollUp::from_batteries(&[]);
    assert_eq!(empty.min_temperature, None);
    assert_eq!(empty.average_soc, 0);
}

#[test]
fn history_midpoint_temperature() {
    let mut a = battery("a");
    a.cell_temperatures = vec![-3, 0];
    let r = RollUp::from_batteries(&[(1, Some(a))]);
    let mut h = History::new(4);
    h.push(&r, 7);
    assert!(!h.is_empty());
    assert_eq!(h.newest_timestamp(), Some(7));
}

#[test]
fn list_selection_wraps() {
    assert_eq!(select_next(Some(2), 3), Some(0));
    assert_eq!(select_next(Some(0), 3), Some(1));
    assert_eq!(select_next(None, 3), Some(0));
    assert_eq!(select_next(Some(1), 0), Some(1));
    assert_eq!(select_previous(Some(0), 3), Some(2));
    assert_eq!(select_previous(Some(2), 3), Some(1));
    assert_eq!(select_previous(None, 3), Some(0));
}

#[test]
fn bridge_names_and_paths() {
    assert!(is_bt2_name("BT-TH-1A2B3C"));
    assert!(!is_bt2_name("BT-2"));
    assert_eq!(device_path("hci0", "aa:bb:cc:dd:ee:ff"), "/org/bluez/hci0/dev_AA_BB_CC_DD_EE_FF");
}

#[test]
fn characteristic_selection() {
    let dev = "/org/bluez/hci0/dev_AA";
    let objects = vec![
        ("/org/bluez/hci0/dev_BB/service1/char1".to_string(), "0000ffd1-0000-1000-8000-00805f9b34fb".to_string()),
        ("/org/bluez/hci0/dev_AA/service1/char2".to_string(), "0000FFF1-0000-1000-8000-00805F9B34FB".to_string()),
        ("/org/bluez/hci0/dev_AA/service1/char3".to_string(), "0000ffd1-0000-1000-8000-00805f9b34fb".to_string()),
    ];
    assert_eq!(
        select_characteristics(&objects, dev),
        Ok((
            "/org/bluez/hci0/dev_AA/service1/char3".to_string(),
            "/org/bluez/hci0/dev_AA/service1/char2".to_string()
        ))
    );
    assert_eq!(
        select_characteristics(&objects[..2].to_vec(), dev),
        Err(RenogyError::Bluetooth("BT-2 characteristics not found".to_string()))
    );
}

#[test]
fn merged_graph_points() {
    let current = vec![(30u64, -1500i64), (10, 2000), (30, -1000)];
    let soc = vec![(20u64, 55_550i64)];
    let temp = vec![(10u64, 21_000i64)];
    let points = merge_series(&current, &soc, &temp);
    assert_eq!(
        points,
        vec![
            DataPoint { timestamp_secs: 10, current: 2000, soc: 0, temp_avg: Some(21_000) },
            DataPoint { timestamp_secs: 20, current: 0, soc: 5555, temp_avg: None },
            DataPoint { timestamp_secs: 30, current: -1000, soc: 0, temp_avg: None },
        ]
    );
}
