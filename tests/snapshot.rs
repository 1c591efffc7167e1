use renogy_rs::address::parse_address;
use renogy_rs::error::{ModbusExceptionCode, RenogyError};
use renogy_rs::transport::{default_scan_range, discover_batteries, query_battery, Transport, TransportType};
use renogy_rs::metrics::batch_measurements;
use renogy_rs::query::BatteryQuery;
use renogy_rs::registers::Register;
use renogy_rs::view::{calculate_step_for_duration, GraphViewState, Tab};

/// Answers reads like a battery with four cells whose third voltage read fails.
fn device(addr: u16, quantity: u16) -> Option<Vec<u16>> {
    let text = |s: &str, words: usize| {
        let mut bytes = s.as_bytes().to_vec();
        bytes.resize(words * 2, 0);
        bytes.chunks(2).map(|c| u16::from_be_bytes([c[0], c[1]])).collect::<Vec<u16>>()
    };
    let words = match addr {
        5110 => text("SN123", 8),
        5122 => text("RBT100", 8),
        5130 => text("V1", 2),
        5132 => text("Renogy", 10),
        5000 => vec![4],
        5001 => vec![33],
        5002 => vec![34],
        5004 => vec![32],
        5043 => vec![133],
        5042 => vec![0xFF9C],
        5044 => vec![0, 50_000],
        5046 => vec![1, 34_464],
        5048 => vec![12],
        5017 => vec![2],
        5018 => vec![250],
        5019 => vec![260],
        5035 => vec![300],
        5036 => vec![0],
        5039 => vec![5],
        5040 => vec![100],
        5041 => vec![110],
        5106 => vec![0x0006],
        5107 => vec![0x2000],
        5109 => vec![0x00C0],
        _ => return None,
    };
    assert_eq!(words.len(), quantity as usize);
    Some(words)
}

#[test]
fn snapshot_assembly() {
    let mut q = BatteryQuery::new(1);
    let mut reads = 0;
    while let Some((slave, addr, quantity)) = q.request() {
        assert_eq!(slave, 1);
        q.record(device(addr, quantity), 1_000_000 + reads);
        reads += 1;
    }
    let info = q.finish().unwrap();
    assert_eq!(info.timestamp_nanos, 1_000_000);
    assert_eq!(info.serial, "SN123");
    assert_eq!(info.model, "RBT100");
    assert_eq!(info.software_version, "V1");
    assert_eq!(info.manufacturer, "Renogy");
    assert_eq!(info.cell_count, 4);
    assert_eq!(info.cell_voltages, vec![3300, 3400, 3200]);
    assert_eq!(info.module_voltage, 13_300);
    assert_eq!(info.current, -1000);
    assert_eq!(info.remaining_capacity, 50_000);
    assert_eq!(info.total_capacity, 100_000);
    assert_eq!(info.soc_hundredths_percent, 5000);
    assert_eq!(info.cycle_count, 12);
    assert_eq!(info.cell_temperatures, vec![25_000, 26_000]);
    assert_eq!(info.bms_temperature, Some(30_000));
    assert!(info.environment_temperatures.is_empty());
    assert_eq!(info.heater_temperatures, vec![10_000, 11_000]);
    assert_eq!(info.charge_voltage_limit, None);
    assert_eq!(info.status1.map(|s| s.bits), Some(0x0006));
    assert_eq!(info.status3, None);
    assert_eq!(info.charge_discharge_status.map(|s| s.bits), Some(0x00C0));
}

#[test]
fn snapshot_needs_serial_and_count() {
    let mut q = BatteryQuery::new(9);
    q.record(None, 0);
    assert!(q.is_done());
    assert!(q.finish().is_none());
    let mut q = BatteryQuery::new(9);
    while let Some((_, addr, quantity)) = q.request() {
        let reply = if addr == Register::CellCount.address() { None } else { device(addr, quantity) };
        q.record(reply, 0);
    }
    assert!(q.finish().is_none());
}

#[test]
fn short_reply_counts_as_failed() {
    let mut q = BatteryQuery::new(1);
    q.record(Some(vec![0x4142]), 0);
    assert!(q.finish().is_none());
}

#[test]
fn measurements_of_a_snapshot() {
    let mut q = BatteryQuery::new(1);
    while let Some((_, addr, quantity)) = q.request() {
        q.record(device(addr, quantity), 42);
    }
    let info = q.finish().unwrap();
    let ms = batch_measurements(&[info]);
    assert_eq!(ms[0].name, "renogy_cell_voltage");
    assert_eq!(ms[0].label, Some(("cell", 1)));
    assert_eq!(ms[0].value_milli, 3300);
    assert_eq!(ms[0].battery, "SN123");
    assert_eq!(ms[0].timestamp_nanos, 42);
    assert_eq!(ms[2].label, Some(("cell", 3)));
    let soc = ms.iter().find(|m| m.name == "renogy_soc_percent").unwrap();
    assert_eq!(soc.value_milli, 50_000);
    let heater = ms.iter().filter(|m| m.name == "renogy_heater_temperature").collect::<Vec<_>>();
    assert_eq!(heater[1].label, Some(("sensor", 2)));
    let mosfet = ms.iter().find(|m| m.name == "renogy_charge_mosfet_on").unwrap();
    assert_eq!(mosfet.value_milli, 1000);
    let heater_on = ms.iter().find(|m| m.name == "renogy_heater_on").unwrap();
    assert_eq!(heater_on.value_milli, 1000);
    let enabled = ms.iter().find(|m| m.name == "renogy_discharge_enabled").unwrap();
    assert_eq!(enabled.value_milli, 1000);
    assert!(ms.iter().all(|m| m.name != "renogy_status3"));
    assert_eq!(ms.last().unwrap().name, "renogy_discharge_enabled");
}

#[test]
fn address_parsing() {
    assert_eq!(parse_address("0x30"), Ok(0x30));
    assert_eq!(parse_address(" 0X3f "), Ok(0x3F));
    assert_eq!(parse_address("16"), Ok(16));
    assert_eq!(parse_address("+7"), Ok(7));
    assert!(parse_address("256").is_err());
    assert!(parse_address("0x").is_err());
    assert!(parse_address("abc").is_err());
}

#[test]
fn graph_view_navigation() {
    let mut v = GraphViewState::default();
    assert_eq!(v.zoom_window_secs(), 900);
    assert_eq!(v.zoom_label(), "15 min");
    v.zoom_in();
    v.zoom_in();
    v.zoom_in();
    assert_eq!(v.zoom_window_secs(), 60);
    for _ in 0..10 {
        v.zoom_out();
    }
    assert_eq!(v.zoom_window_secs(), 172_800);
    v.scroll_back(100, 150);
    v.scroll_back(100, 150);
    assert_eq!(v.scroll_offset_secs, 150);
    v.scroll_forward(200);
    assert_eq!(v.scroll_offset_secs, 0);
    v.zoom_in();
    v.jump_to_oldest(100_000);
    assert_eq!(v.scroll_offset_secs, 100_000 - 86_400);
    v.jump_to_newest();
    assert_eq!(v.scroll_offset_secs, 0);
    assert_eq!(Tab::Overview.next(), Tab::Graphs);
}

#[test]
fn query_steps() {
    assert_eq!(calculate_step_for_duration(0), 15);
    assert_eq!(calculate_step_for_duration(3600), 15);
    assert_eq!(calculate_step_for_duration(3601), 60);
    assert_eq!(calculate_step_for_duration(86_400), 300);
    assert_eq!(calculate_step_for_duration(86_401), 1800);
}

/// A link that answers from the simulated device, with writes refused.
struct FakeLink {
    reads: usize,
    present: Vec<u8>,
}

impl Transport for FakeLink {
    fn read_holding_registers(&mut self, slave: u8, addr: u16, quantity: u16) -> Result<Vec<u16>, RenogyError> {
        self.reads += 1;
        if !self.present.contains(&slave) {
            return Err(RenogyError::Io("no answer".to_string()));
        }
        device(addr, quantity).ok_or(RenogyError::ModbusException(ModbusExceptionCode::IllegalDataAddress))
    }

    fn write_single_register(&mut self, _slave: u8, _addr: u16, _value: u16) -> Result<(), RenogyError> {
        Err(RenogyError::WriteOperationFailed)
    }

    fn write_multiple_registers(&mut self, _slave: u8, _addr: u16, _values: &[u16]) -> Result<(), RenogyError> {
        Err(RenogyError::WriteOperationFailed)
    }

    fn send_custom(&mut self, _slave: u8, _function_code: u8, _data: &[u8]) -> Result<Vec<u8>, RenogyError> {
        Err(RenogyError::UnsupportedOperation)
    }

    fn transport_type(&self) -> TransportType {
        TransportType::Serial
    }
}

#[test]
fn query_through_a_transport() {
    let mut link = FakeLink { reads: 0, present: vec![1, 2, 4] };
    let info = query_battery(&mut link, 1, 77).unwrap();
    assert_eq!(info.serial, "SN123");
    assert_eq!(info.timestamp_nanos, 77);
    assert_eq!(info.cell_voltages, vec![3300, 3400, 3200]);
    assert!(query_battery(&mut link, 3, 77).is_none());
    let (first, last) = default_scan_range(link.transport_type());
    assert_eq!(discover_batteries(&mut link, first, last, 0), vec![1, 2]);
}

#[test]
fn cell_count_is_held_to_sixteen() {
    let mut q = BatteryQuery::new(1);
    while let Some((_, addr, quantity)) = q.request() {
        let reply = if addr == 5000 {
            Some(vec![20])
        } else if (5001..=5020).contains(&addr) {
            Some(vec![33])
        } else {
            device(addr, quantity)
        };
        q.record(reply, 0);
    }
    let info = q.finish().unwrap();
    assert_eq!(info.cell_count, 16);
    assert_eq!(info.cell_voltages.len(), 16);
}

#[test]
fn only_trailing_nuls_are_trimmed() {
    let mut q = BatteryQuery::new(1);
    let (_, addr, quantity) = q.request().unwrap();
    let mut words = vec![0x0041u16, 0x4200];
    words.resize(quantity as usize, 0);
    assert_eq!(addr, 5110);
    q.record(Some(words), 0);
    assert_eq!(q.info.serial, "\0AB");
}
