//! Battery snapshots and the sequence of register reads that assembles one.
//!
//! A [`BatteryQuery`] decides which register to read next and folds each reply
//! into the snapshot; whoever owns the transport performs the reads, in the
//! order the query asks for them, and hands each reply back.
use crate::alarm::{
    CellTemperatureAlarm, CellTemperatureAlarms, CellVoltageAlarm, CellVoltageAlarms,
    ChargeDischargeStatus, OtherAlarmInfo, Status1, Status2, Status3,
};
use crate::registers::{address_of, decode_value, quantity_of, word_bytes, Register, Value, ValueView};
use crate::summary::snapshot_wf;
use crate::text::{trim_nuls_end, trim_trailing_nuls};
use vstd::prelude::*;

verus! {

/// At most this many cell voltages and cell temperatures are read.
pub const MAX_CELLS: u8 = 16;

/// At most this many environment and heater temperatures are read.
pub const MAX_AUX_SENSORS: u8 = 2;

/// One battery's state at one instant. Voltages are in millivolts, currents in
/// milliamps, capacities in milliamp-hours, temperatures in thousandths of a
/// degree Celsius and the state of charge in hundredths of a percent.
#[derive(Debug, Clone, PartialEq)]
pub struct BatteryInfo {
    /// When the serial number was read, in nanoseconds since the Unix epoch.
    pub timestamp_nanos: i64,
    pub serial: String,
    pub model: String,
    pub software_version: String,
    pub manufacturer: String,
    pub cell_count: u32,
    pub cell_voltages: Vec<i64>,
    pub cell_temperatures: Vec<i64>,
    pub bms_temperature: Option<i64>,
    pub environment_temperatures: Vec<i64>,
    pub heater_temperatures: Vec<i64>,
    pub module_voltage: i64,
    pub current: i64,
    pub remaining_capacity: i64,
    pub total_capacity: i64,
    pub soc_hundredths_percent: i64,
    pub cycle_count: u32,
    pub charge_voltage_limit: Option<i64>,
    pub discharge_voltage_limit: Option<i64>,
    pub charge_current_limit: Option<i64>,
    pub discharge_current_limit: Option<i64>,
    pub status1: Option<Status1>,
    pub status2: Option<Status2>,
    pub status3: Option<Status3>,
    pub other_alarm_info: Option<OtherAlarmInfo>,
    pub cell_voltage_alarms: Option<CellVoltageAlarms>,
    pub cell_temperature_alarms: Option<CellTemperatureAlarms>,
    pub charge_discharge_status: Option<ChargeDischargeStatus>,
}

/// The mathematical value of a [`BatteryInfo`].
pub struct BatteryInfoView {
    pub timestamp_nanos: i64,
    pub serial: Seq<char>,
    pub model: Seq<char>,
    pub software_version: Seq<char>,
    pub manufacturer: Seq<char>,
    pub cell_count: u32,
    pub cell_voltages: Seq<i64>,
    pub cell_temperatures: Seq<i64>,
    pub bms_temperature: Option<i64>,
    pub environment_temperatures: Seq<i64>,
    pub heater_temperatures: Seq<i64>,
    pub module_voltage: i64,
    pub current: i64,
    pub remaining_capacity: i64,
    pub total_capacity: i64,
    pub soc_hundredths_percent: i64,
    pub cycle_count: u32,
    pub charge_voltage_limit: Option<i64>,
    pub discharge_voltage_limit: Option<i64>,
    pub charge_current_limit: Option<i64>,
    pub discharge_current_limit: Option<i64>,
    pub status1: Option<Status1>,
    pub status2: Option<Status2>,
    pub status3: Option<Status3>,
    pub other_alarm_info: Option<OtherAlarmInfo>,
    pub cell_voltage_alarms: Option<Seq<CellVoltageAlarm>>,
    pub cell_temperature_alarms: Option<Seq<CellTemperatureAlarm>>,
    pub charge_discharge_status: Option<ChargeDischargeStatus>,
}

impl View for BatteryInfo {
    type V = BatteryInfoView;

    open spec fn view(&self) -> BatteryInfoView {
        BatteryInfoView {
            timestamp_nanos: self.timestamp_nanos,
            serial: self.serial@,
            model: self.model@,
            software_version: self.software_version@,
            manufacturer: self.manufacturer@,
            cell_count: self.cell_count,
            cell_voltages: self.cell_voltages@,
            cell_temperatures: self.cell_temperatures@,
            bms_temperature: self.bms_temperature,
            environment_temperatures: self.environment_temperatures@,
            heater_temperatures: self.heater_temperatures@,
            module_voltage: self.module_voltage,
            current: self.current,
            remaining_capacity: self.remaining_capacity,
            total_capacity: self.total_capacity,
            soc_hundredths_percent: self.soc_hundredths_percent,
            cycle_count: self.cycle_count,
            charge_voltage_limit: self.charge_voltage_limit,
            discharge_voltage_limit: self.discharge_voltage_limit,
            charge_current_limit: self.charge_current_limit,
            discharge_current_limit: self.discharge_current_limit,
            status1: self.status1,
            status2: self.status2,
            status3: self.status3,
            other_alarm_info: self.other_alarm_info,
            cell_voltage_alarms: match self.cell_voltage_alarms {
                Some(a) => Some(a.alarms@),
                None => None,
            },
            cell_temperature_alarms: match self.cell_temperature_alarms {
                Some(a) => Some(a.alarms@),
                None => None,
            },
            charge_discharge_status: self.charge_discharge_status,
        }
    }
}

/// A snapshot with nothing read yet: empty text and series, zero scalars and
/// no optional field.
pub open spec fn blank_info() -> BatteryInfoView {
    BatteryInfoView {
        timestamp_nanos: 0,
        serial: Seq::empty(),
        model: Seq::empty(),
        software_version: Seq::empty(),
        manufacturer: Seq::empty(),
        cell_count: 0,
        cell_voltages: Seq::empty(),
        cell_temperatures: Seq::empty(),
        bms_temperature: None,
        environment_temperatures: Seq::empty(),
        heater_temperatures: Seq::empty(),
        module_voltage: 0,
        current: 0,
        remaining_capacity: 0,
        total_capacity: 0,
        soc_hundredths_percent: 0,
        cycle_count: 0,
        charge_voltage_limit: None,
        discharge_voltage_limit: None,
        charge_current_limit: None,
        discharge_current_limit: None,
        status1: None,
        status2: None,
        status3: None,
        other_alarm_info: None,
        cell_voltage_alarms: None,
        cell_temperature_alarms: None,
        charge_discharge_status: None,
    }
}

impl BatteryInfo {
    /// A snapshot with nothing read yet.
    pub fn blank() -> (r: BatteryInfo)
        ensures
            r@ == blank_info(),
    {
        BatteryInfo {
            timestamp_nanos: 0,
            serial: String::new(),
            model: String::new(),
            software_version: String::new(),
            manufacturer: String::new(),
            cell_count: 0,
            cell_voltages: Vec::new(),
            cell_temperatures: Vec::new(),
            bms_temperature: None,
            environment_temperatures: Vec::new(),
            heater_temperatures: Vec::new(),
            module_voltage: 0,
            current: 0,
            remaining_capacity: 0,
            total_capacity: 0,
            soc_hundredths_percent: 0,
            cycle_count: 0,
            charge_voltage_limit: None,
            discharge_voltage_limit: None,
            charge_current_limit: None,
            discharge_current_limit: None,
            status1: None,
            status2: None,
            status3: None,
            other_alarm_info: None,
            cell_voltage_alarms: None,
            cell_temperature_alarms: None,
            charge_discharge_status: None,
        }
    }
}

/// The words of a reply, or `None` for a failed read.
pub open spec fn reply_view(reply: Option<Vec<u16>>) -> Option<Seq<u16>> {
    match reply {
        Some(w) => Some(w@),
        None => None,
    }
}

/// The value a reply carries for register `r`: none for a failed read or one
/// with fewer words than the register spans.
pub open spec fn reading(r: Register, reply: Option<Seq<u16>>) -> Option<ValueView> {
    match reply {
        Some(w) => if w.len() >= quantity_of(r) {
            Some(decode_value(r, word_bytes(w)))
        } else {
            None
        },
        None => None,
    }
}

pub open spec fn text_of(v: Option<ValueView>) -> Option<Seq<char>> {
    match v {
        Some(ValueView::String(s)) => Some(trim_nuls_end(s)),
        _ => None,
    }
}

pub open spec fn integer_of(v: Option<ValueView>) -> Option<u32> {
    match v {
        Some(ValueView::Integer(n)) => Some(n),
        _ => None,
    }
}

pub open spec fn voltage_of(v: Option<ValueView>) -> Option<i64> {
    match v {
        Some(ValueView::ElectricPotential(p)) => Some(p.millivolts),
        _ => None,
    }
}

pub open spec fn current_of(v: Option<ValueView>) -> Option<i64> {
    match v {
        Some(ValueView::ElectricCurrent(c)) => Some(c.milliamps),
        _ => None,
    }
}

pub open spec fn temperature_of(v: Option<ValueView>) -> Option<i64> {
    match v {
        Some(ValueView::ThermodynamicTemperature(t)) => Some(t.millidegrees_celsius),
        _ => None,
    }
}

pub open spec fn or_empty(t: Option<Seq<char>>) -> Seq<char> {
    match t {
        Some(s) => s,
        None => Seq::empty(),
    }
}

pub open spec fn or_zero(x: Option<i64>) -> i64 {
    match x {
        Some(v) => v,
        None => 0,
    }
}

/// `s` with `x` appended when present.
pub open spec fn push_some(s: Seq<i64>, x: Option<i64>) -> Seq<i64> {
    match x {
        Some(v) => s.push(v),
        None => s,
    }
}

/// State of charge in hundredths of a percent: remaining over total capacity,
/// or zero when the total is not positive.
pub open spec fn soc_of(remaining: int, total: int) -> int {
    if total > 0 {
        remaining * 10000 / total
    } else {
        0
    }
}

/// The snapshot after the read of register `r` gave `v` at time `now`.
/// Identity text is trimmed of trailing NUL padding and defaults to empty; scalars
/// default to zero; optional fields are present iff their read succeeded; a
/// series starts empty when its count is read and gains one element per
/// successful read. The cell count is held to sixteen, the most cells read.
pub open spec fn absorb(r: Register, info: BatteryInfoView, v: Option<ValueView>, now: i64) -> BatteryInfoView {
    match r {
        Register::SnNumber => match text_of(v) {
            Some(s) => BatteryInfoView { serial: s, timestamp_nanos: now, ..info },
            None => info,
        },
        Register::BatteryName => BatteryInfoView { model: or_empty(text_of(v)), ..info },
        Register::SoftwareVersion => BatteryInfoView { software_version: or_empty(text_of(v)), ..info },
        Register::ManufacturerName => BatteryInfoView { manufacturer: or_empty(text_of(v)), ..info },
        Register::CellCount => match integer_of(v) {
            Some(n) => BatteryInfoView { cell_count: capped(n, 16) as u32, cell_voltages: Seq::empty(), ..info },
            None => info,
        },
        Register::CellVoltage(_) => BatteryInfoView {
            cell_voltages: push_some(info.cell_voltages, voltage_of(v)),
            ..info
        },
        Register::ModuleVoltage => BatteryInfoView { module_voltage: or_zero(voltage_of(v)), ..info },
        Register::Current => BatteryInfoView { current: or_zero(current_of(v)), ..info },
        Register::RemainingCapacity => BatteryInfoView { remaining_capacity: or_zero(current_of(v)), ..info },
        Register::TotalCapacity => BatteryInfoView {
            total_capacity: or_zero(current_of(v)),
            soc_hundredths_percent: soc_of(info.remaining_capacity as int, or_zero(current_of(v)) as int) as i64,
            ..info
        },
        Register::CycleNumber => BatteryInfoView {
            cycle_count: match integer_of(v) {
                Some(n) => n,
                None => 0,
            },
            ..info
        },
        Register::CellTemperatureCount => BatteryInfoView { cell_temperatures: Seq::empty(), ..info },
        Register::CellTemperature(_) => BatteryInfoView {
            cell_temperatures: push_some(info.cell_temperatures, temperature_of(v)),
            ..info
        },
        Register::BmsTemperature => BatteryInfoView { bms_temperature: temperature_of(v), ..info },
        Register::EnvironmentTemperatureCount => BatteryInfoView {
            environment_temperatures: Seq::empty(),
            ..info
        },
        Register::EnvironmentTemperature(_) => BatteryInfoView {
            environment_temperatures: push_some(info.environment_temperatures, temperature_of(v)),
            ..info
        },
        Register::HeaterTemperatureCount => BatteryInfoView { heater_temperatures: Seq::empty(), ..info },
        Register::HeaterTemperature(_) => BatteryInfoView {
            heater_temperatures: push_some(info.heater_temperatures, temperature_of(v)),
            ..info
        },
        Register::ChargeVoltageLimit => BatteryInfoView { charge_voltage_limit: voltage_of(v), ..info },
        Register::DischargeVoltageLimit => BatteryInfoView { discharge_voltage_limit: voltage_of(v), ..info },
        Register::ChargeCurrentLimit => BatteryInfoView { charge_current_limit: current_of(v), ..info },
        Register::DischargeCurrentLimit => BatteryInfoView { discharge_current_limit: current_of(v), ..info },
        Register::Status1 => BatteryInfoView {
            status1: match v {
                Some(ValueView::Status1(s)) => Some(s),
                _ => None,
            },
            ..info
        },
        Register::Status2 => BatteryInfoView {
            status2: match v {
                Some(ValueView::Status2(s)) => Some(s),
                _ => None,
            },
            ..info
        },
        Register::Status3 => BatteryInfoView {
            status3: match v {
                Some(ValueView::Status3(s)) => Some(s),
                _ => None,
            },
            ..info
        },
        Register::OtherAlarmInfo => BatteryInfoView {
            other_alarm_info: match v {
                Some(ValueView::OtherAlarmInfo(s)) => Some(s),
                _ => None,
            },
            ..info
        },
        Register::CellVoltageAlarmInfo => BatteryInfoView {
            cell_voltage_alarms: match v {
                Some(ValueView::CellVoltageAlarms(s)) => Some(s),
                _ => None,
            },
            ..info
        },
        Register::CellTemperatureAlarmInfo => BatteryInfoView {
            cell_temperature_alarms: match v {
                Some(ValueView::CellTemperatureAlarms(s)) => Some(s),
                _ => None,
            },
            ..info
        },
        Register::ChargeDischargeStatus => BatteryInfoView {
            charge_discharge_status: match v {
                Some(ValueView::ChargeDischargeStatus(s)) => Some(s),
                _ => None,
            },
            ..info
        },
        _ => info,
    }
}

/// The register read after `r`, given how many cells, cell temperatures,
/// environment and heater sensors are to be read; `None` after the last.
pub open spec fn next_read(r: Register, cells: u8, temps: u8, envs: u8, heaters: u8) -> Option<Register> {
    match r {
        Register::SnNumber => Some(Register::BatteryName),
        Register::BatteryName => Some(Register::SoftwareVersion),
        Register::SoftwareVersion => Some(Register::ManufacturerName),
        Register::ManufacturerName => Some(Register::CellCount),
        Register::CellCount => if cells >= 1 {
            Some(Register::CellVoltage(1))
        } else {
            Some(Register::ModuleVoltage)
        },
        Register::CellVoltage(i) => if i < cells {
            Some(Register::CellVoltage((i + 1) as u8))
        } else {
            Some(Register::ModuleVoltage)
        },
        Register::ModuleVoltage => Some(Register::Current),
        Register::Current => Some(Register::RemainingCapacity),
        Register::RemainingCapacity => Some(Register::TotalCapacity),
        Register::TotalCapacity => Some(Register::CycleNumber),
        Register::CycleNumber => Some(Register::CellTemperatureCount),
        Register::CellTemperatureCount => if temps >= 1 {
            Some(Register::CellTemperature(1))
        } else {
            Some(Register::BmsTemperature)
        },
        Register::CellTemperature(i) => if i < temps {
            Some(Register::CellTemperature((i + 1) as u8))
        } else {
            Some(Register::BmsTemperature)
        },
        Register::BmsTemperature => Some(Register::EnvironmentTemperatureCount),
        Register::EnvironmentTemperatureCount => if envs >= 1 {
            Some(Register::EnvironmentTemperature(1))
        } else {
            Some(Register::HeaterTemperatureCount)
        },
        Register::EnvironmentTemperature(i) => if i < envs {
            Some(Register::EnvironmentTemperature((i + 1) as u8))
        } else {
            Some(Register::HeaterTemperatureCount)
        },
        Register::HeaterTemperatureCount => if heaters >= 1 {
            Some(Register::HeaterTemperature(1))
        } else {
            Some(Register::ChargeVoltageLimit)
        },
        Register::HeaterTemperature(i) => if i < heaters {
            Some(Register::HeaterTemperature((i + 1) as u8))
        } else {
            Some(Register::ChargeVoltageLimit)
        },
        Register::ChargeVoltageLimit => Some(Register::DischargeVoltageLimit),
        Register::DischargeVoltageLimit => Some(Register::ChargeCurrentLimit),
        Register::ChargeCurrentLimit => Some(Register::DischargeCurrentLimit),
        Register::DischargeCurrentLimit => Some(Register::Status1),
        Register::Status1 => Some(Register::Status2),
        Register::Status2 => Some(Register::Status3),
        Register::Status3 => Some(Register::OtherAlarmInfo),
        Register::OtherAlarmInfo => Some(Register::CellVoltageAlarmInfo),
        Register::CellVoltageAlarmInfo => Some(Register::CellTemperatureAlarmInfo),
        Register::CellTemperatureAlarmInfo => Some(Register::ChargeDischargeStatus),
        _ => None,
    }
}

/// How far along the read sequence register `r` stands; series reads add
/// their index.
pub open spec fn progress_of(r: Register) -> int {
    match r {
        Register::SnNumber => 0,
        Register::BatteryName => 32,
        Register::SoftwareVersion => 64,
        Register::ManufacturerName => 96,
        Register::CellCount => 128,
        Register::CellVoltage(i) => 160 + i,
        Register::ModuleVoltage => 192,
        Register::Current => 224,
        Register::RemainingCapacity => 256,
        Register::TotalCapacity => 288,
        Register::CycleNumber => 320,
        Register::CellTemperatureCount => 352,
        Register::CellTemperature(i) => 384 + i,
        Register::BmsTemperature => 416,
        Register::EnvironmentTemperatureCount => 448,
        Register::EnvironmentTemperature(i) => 480 + i,
        Register::HeaterTemperatureCount => 512,
        Register::HeaterTemperature(i) => 544 + i,
        Register::ChargeVoltageLimit => 576,
        Register::DischargeVoltageLimit => 608,
        Register::ChargeCurrentLimit => 640,
        Register::DischargeCurrentLimit => 672,
        Register::Status1 => 704,
        Register::Status2 => 736,
        Register::Status3 => 768,
        Register::OtherAlarmInfo => 800,
        Register::CellVoltageAlarmInfo => 832,
        Register::CellTemperatureAlarmInfo => 864,
        Register::ChargeDischargeStatus => 896,
        _ => 928,
    }
}

/// How many steps of progress are left: zero once the query is over.
pub open spec fn reads_left(pending: Option<Register>) -> nat {
    match pending {
        Some(r) => (1000 - progress_of(r)) as nat,
        None => 0,
    }
}

/// Each read moves the query forward.
proof fn lemma_next_read_progresses(r: Register, cells: u8, temps: u8, envs: u8, heaters: u8)
    requires
        cells <= 16,
        temps <= 16,
        envs <= 2,
        heaters <= 2,
        match r {
            Register::CellVoltage(i) => 1 <= i <= cells,
            Register::CellTemperature(i) => 1 <= i <= temps,
            Register::EnvironmentTemperature(i) => 1 <= i <= envs,
            Register::HeaterTemperature(i) => 1 <= i <= heaters,
            _ => true,
        },
    ensures
        reads_left(next_read(r, cells, temps, envs, heaters)) < reads_left(Some(r)),
{
}

/// `min(n, cap)` as a byte.
pub open spec fn capped(n: u32, cap: u8) -> u8 {
    if n < cap {
        n as u8
    } else {
        cap
    }
}

/// Whether a failed read of `r` abandons the snapshot: the serial number and
/// the cell count are required.
pub open spec fn read_required(r: Register) -> bool {
    r == Register::SnNumber || r == Register::CellCount
}

/// The reads that assemble one snapshot of the battery at `slave`.
pub struct BatteryQuery {
    pub slave: u8,
    /// The register to read next; `None` once the query is over.
    pub pending: Option<Register>,
    /// Whether a required read failed.
    pub abandoned: bool,
    pub info: BatteryInfo,
    /// How many cell voltages are read: the cell count, at most sixteen.
    pub cells: u8,
    /// How many cell temperatures are read, at most sixteen.
    pub temperatures: u8,
    /// How many environment temperatures are read, at most two.
    pub environment_sensors: u8,
    /// How many heater temperatures are read, at most two.
    pub heater_sensors: u8,
}

/// Reads `i` (1-based) of a series counted by `limit` are still to come.
pub open spec fn index_ok(i: u8, limit: u8, done: nat) -> bool {
    1 <= i <= limit && done < i
}

impl BatteryQuery {
    /// Series never hold more readings than their counts allow, and a pending
    /// series read has a valid index.
    pub open spec fn wf(&self) -> bool {
        &&& self.cells <= 16
        &&& self.info.cell_count == self.cells as u32
        &&& self.temperatures <= 16
        &&& self.environment_sensors <= 2
        &&& self.heater_sensors <= 2
        &&& self.info.cell_voltages@.len() <= self.cells
        &&& self.info.cell_temperatures@.len() <= self.temperatures
        &&& self.info.environment_temperatures@.len() <= self.environment_sensors
        &&& self.info.heater_temperatures@.len() <= self.heater_sensors
        &&& 0 <= self.info.remaining_capacity <= u32::MAX
        &&& 0 <= self.info.total_capacity <= u32::MAX
        &&& self.abandoned ==> self.pending is None
        &&& match self.pending {
            Some(Register::CellVoltage(i)) => index_ok(i, self.cells, self.info.cell_voltages@.len()),
            Some(Register::CellTemperature(i)) => index_ok(
                i,
                self.temperatures,
                self.info.cell_temperatures@.len(),
            ),
            Some(Register::EnvironmentTemperature(i)) => index_ok(
                i,
                self.environment_sensors,
                self.info.environment_temperatures@.len(),
            ),
            Some(Register::HeaterTemperature(i)) => index_ok(
                i,
                self.heater_sensors,
                self.info.heater_temperatures@.len(),
            ),
            _ => true,
        }
    }

    /// A query that starts with the serial number.
    pub fn new(slave: u8) -> (r: BatteryQuery)
        ensures
            r.wf(),
            r.slave == slave,
            r.pending == Some(Register::SnNumber),
            !r.abandoned,
            r.info@ == blank_info(),
    {
        BatteryQuery {
            slave,
            pending: Some(Register::SnNumber),
            abandoned: false,
            info: BatteryInfo::blank(),
            cells: 0,
            temperatures: 0,
            environment_sensors: 0,
            heater_sensors: 0,
        }
    }

    /// The read to perform next, as slave, start address and word count.
    pub fn request(&self) -> (r: Option<(u8, u16, u16)>)
        ensures
            match self.pending {
                Some(reg) => r == Some((self.slave, address_of(reg), quantity_of(reg))),
                None => r is None,
            },
    {
        match self.pending {
            Some(reg) => Some((self.slave, reg.address(), reg.quantity())),
            None => None,
        }
    }

    pub fn is_done(&self) -> (r: bool)
        ensures
            r == self.pending is None,
    {
        self.pending.is_none()
    }

    /// Folds the reply to the pending read into the snapshot, taken at `now`
    /// (nanoseconds since the Unix epoch), and moves on to the next read. A
    /// failed read of the serial number or the cell count ends the query
    /// without a snapshot; any other failed read leaves its field at its
    /// default.
    pub fn record(&mut self, reply: Option<Vec<u16>>, now_nanos: i64)
        requires
            old(self).wf(),
            old(self).pending is Some,
        ensures
            final(self).wf(),
            final(self).slave == old(self).slave,
            reads_left(final(self).pending) < reads_left(old(self).pending),
            ({
                let reg = old(self).pending->Some_0;
                let v = reading(reg, reply_view(reply));
                &&& final(self).info@ == absorb(reg, old(self).info@, v, now_nanos)
                &&& final(self).cells == (if reg == Register::CellCount && integer_of(v) is Some {
                    capped(integer_of(v)->Some_0, 16)
                } else {
                    old(self).cells
                })
                &&& final(self).temperatures == (if reg == Register::CellTemperatureCount {
                    match integer_of(v) {
                        Some(n) => capped(n, 16),
                        None => 0,
                    }
                } else {
                    old(self).temperatures
                })
                &&& final(self).environment_sensors == (if reg == Register::EnvironmentTemperatureCount {
                    match integer_of(v) {
                        Some(n) => capped(n, 2),
                        None => 0,
                    }
                } else {
                    old(self).environment_sensors
                })
                &&& final(self).heater_sensors == (if reg == Register::HeaterTemperatureCount {
                    match integer_of(v) {
                        Some(n) => capped(n, 2),
                        None => 0,
                    }
                } else {
                    old(self).heater_sensors
                })
                &&& if read_required(reg) && (if reg == Register::SnNumber {
                    text_of(v) is None
                } else {
                    integer_of(v) is None
                }) {
                    final(self).abandoned && final(self).pending is None
                } else {
                    !final(self).abandoned && final(self).pending == next_read(
                        reg,
                        final(self).cells,
                        final(self).temperatures,
                        final(self).environment_sensors,
                        final(self).heater_sensors,
                    )
                }
            }),
    {
        let reg = match self.pending {
            Some(r) => r,
            None => {
                return ;
            },
        };
        let value: Option<Value> = match reply {
            Some(words) => if words.len() >= reg.quantity() as usize {
                Some(reg.parse_registers(words.as_slice()))
            } else {
                None
            },
            None => None,
        };
        let ghost v = reading(reg, reply_view(reply));
        assert(match value {
            Some(x) => v == Some(x@),
            None => v is None,
        });
        let text: Option<String> = match &value {
            Some(Value::String(s)) => Some(trim_trailing_nuls(s.as_str())),
            _ => None,
        };
        let integer: Option<u32> = match &value {
            Some(Value::Integer(n)) => Some(*n),
            _ => None,
        };
        let voltage: Option<i64> = match &value {
            Some(Value::ElectricPotential(p)) => Some(p.millivolts),
            _ => None,
        };
        let current: Option<i64> = match &value {
            Some(Value::ElectricCurrent(c)) => Some(c.milliamps),
            _ => None,
        };
        let temperature: Option<i64> = match &value {
            Some(Value::ThermodynamicTemperature(t)) => Some(t.millidegrees_celsius),
            _ => None,
        };
        match reg {
            Register::SnNumber => {
                match text {
                    Some(s) => {
                        self.info.serial = s;
                        self.info.timestamp_nanos = now_nanos;
                    },
                    None => {
                        self.abandoned = true;
                        self.pending = None;
                        return ;
                    },
                }
            },
            Register::BatteryName => {
                self.info.model = match text {
                    Some(s) => s,
                    None => String::new(),
                };
            },
            Register::SoftwareVersion => {
                self.info.software_version = match text {
                    Some(s) => s,
                    None => String::new(),
                };
            },
            Register::ManufacturerName => {
                self.info.manufacturer = match text {
                    Some(s) => s,
                    None => String::new(),
                };
            },
            Register::CellCount => {
                match integer {
                    Some(n) => {
                        self.cells = if n < 16 { n as u8 } else { 16 };
                        self.info.cell_count = self.cells as u32;
                        self.info.cell_voltages = Vec::new();
                    },
                    None => {
                        self.abandoned = true;
                        self.pending = None;
                        return ;
                    },
                }
            },
            Register::CellVoltage(_) => {
                if let Some(x) = voltage {
                    self.info.cell_voltages.push(x);
                }
            },
            Register::ModuleVoltage => {
                self.info.module_voltage = match voltage {
                    Some(x) => x,
                    None => 0,
                };
            },
            Register::Current => {
                self.info.current = match current {
                    Some(x) => x,
                    None => 0,
                };
            },
            Register::RemainingCapacity => {
                self.info.remaining_capacity = match current {
                    Some(x) => x,
                    None => 0,
                };
            },
            Register::TotalCapacity => {
                let total = match current {
                    Some(x) => x,
                    None => 0,
                };
                self.info.total_capacity = total;
                self.info.soc_hundredths_percent = soc(self.info.remaining_capacity, total);
            },
            Register::CycleNumber => {
                self.info.cycle_count = match integer {
                    Some(n) => n,
                    None => 0,
                };
            },
            Register::CellTemperatureCount => {
                self.info.cell_temperatures = Vec::new();
                self.temperatures = match integer {
                    Some(n) => if n < 16 { n as u8 } else { 16 },
                    None => 0,
                };
            },
            Register::CellTemperature(_) => {
                if let Some(x) = temperature {
                    self.info.cell_temperatures.push(x);
                }
            },
            Register::BmsTemperature => {
                self.info.bms_temperature = temperature;
            },
            Register::EnvironmentTemperatureCount => {
                self.info.environment_temperatures = Vec::new();
                self.environment_sensors = match integer {
                    Some(n) => if n < 2 { n as u8 } else { 2 },
                    None => 0,
                };
            },
            Register::EnvironmentTemperature(_) => {
                if let Some(x) = temperature {
                    self.info.environment_temperatures.push(x);
                }
            },
            Register::HeaterTemperatureCount => {
                self.info.heater_temperatures = Vec::new();
                self.heater_sensors = match integer {
                    Some(n) => if n < 2 { n as u8 } else { 2 },
                    None => 0,
                };
            },
            Register::HeaterTemperature(_) => {
                if let Some(x) = temperature {
                    self.info.heater_temperatures.push(x);
                }
            },
            Register::ChargeVoltageLimit => {
                self.info.charge_voltage_limit = voltage;
            },
            Register::DischargeVoltageLimit => {
                self.info.discharge_voltage_limit = voltage;
            },
            Register::ChargeCurrentLimit => {
                self.info.charge_current_limit = current;
            },
            Register::DischargeCurrentLimit => {
                self.info.discharge_current_limit = current;
            },
            Register::Status1 => {
                self.info.status1 = match value {
                    Some(Value::Status1(s)) => Some(s),
                    _ => None,
                };
            },
            Register::Status2 => {
                self.info.status2 = match value {
                    Some(Value::Status2(s)) => Some(s),
                    _ => None,
                };
            },
            Register::Status3 => {
                self.info.status3 = match value {
                    Some(Value::Status3(s)) => Some(s),
                    _ => None,
                };
            },
            Register::OtherAlarmInfo => {
                self.info.other_alarm_info = match value {
                    Some(Value::OtherAlarmInfo(s)) => Some(s),
                    _ => None,
                };
            },
            Register::CellVoltageAlarmInfo => {
                self.info.cell_voltage_alarms = match value {
                    Some(Value::CellVoltageAlarms(s)) => Some(s),
                    _ => None,
                };
            },
            Register::CellTemperatureAlarmInfo => {
                self.info.cell_temperature_alarms = match value {
                    Some(Value::CellTemperatureAlarms(s)) => Some(s),
                    _ => None,
                };
            },
            Register::ChargeDischargeStatus => {
                self.info.charge_discharge_status = match value {
                    Some(Value::ChargeDischargeStatus(s)) => Some(s),
                    _ => None,
                };
            },
            _ => {},
        }
        proof {
            lemma_next_read_progresses(
                reg,
                self.cells,
                self.temperatures,
                self.environment_sensors,
                self.heater_sensors,
            );
        }
        self.pending = next_register(
            reg,
            self.cells,
            self.temperatures,
            self.environment_sensors,
            self.heater_sensors,
        );
    }

    /// The snapshot, or `None` when a required read failed.
    pub fn finish(self) -> (r: Option<BatteryInfo>)
        requires
            self.wf(),
            self.pending is None,
        ensures
            self.abandoned ==> r is None,
            !self.abandoned ==> r is Some && r->Some_0@ == self.info@,
            r is Some ==> snapshot_wf(r->Some_0@),
    {
        if self.abandoned {
            None
        } else {
            Some(self.info)
        }
    }
}

/// State of charge in hundredths of a percent.
fn soc(remaining: i64, total: i64) -> (r: i64)
    requires
        0 <= remaining <= u32::MAX,
    ensures
        r == soc_of(remaining as int, total as int),
{
    if total > 0 {
        let scaled: u64 = remaining as u64 * 10000;
        let q: u64 = scaled / (total as u64);
        assert(q <= scaled) by (nonlinear_arith)
            requires
                q == scaled / (total as u64),
                total > 0,
        ;
        q as i64
    } else {
        0
    }
}

fn next_register(r: Register, cells: u8, temps: u8, envs: u8, heaters: u8) -> (n: Option<Register>)
    requires
        cells <= 16,
        temps <= 16,
        envs <= 2,
        heaters <= 2,
    ensures
        n == next_read(r, cells, temps, envs, heaters),
{
    match r {
        Register::SnNumber => Some(Register::BatteryName),
        Register::BatteryName => Some(Register::SoftwareVersion),
        Register::SoftwareVersion => Some(Register::ManufacturerName),
        Register::ManufacturerName => Some(Register::CellCount),
        Register::CellCount => if cells >= 1 {
            Some(Register::CellVoltage(1))
        } else {
            Some(Register::ModuleVoltage)
        },
        Register::CellVoltage(i) => if i < cells {
            Some(Register::CellVoltage(i + 1))
        } else {
            Some(Register::ModuleVoltage)
        },
        Register::ModuleVoltage => Some(Register::Current),
        Register::Current => Some(Register::RemainingCapacity),
        Register::RemainingCapacity => Some(Register::TotalCapacity),
        Register::TotalCapacity => Some(Register::CycleNumber),
        Register::CycleNumber => Some(Register::CellTemperatureCount),
        Register::CellTemperatureCount => if temps >= 1 {
            Some(Register::CellTemperature(1))
        } else {
            Some(Register::BmsTemperature)
        },
        Register::CellTemperature(i) => if i < temps {
            Some(Register::CellTemperature(i + 1))
        } else {
            Some(Register::BmsTemperature)
        },
        Register::BmsTemperature => Some(Register::EnvironmentTemperatureCount),
        Register::EnvironmentTemperatureCount => if envs >= 1 {
            Some(Register::EnvironmentTemperature(1))
        } else {
            Some(Register::HeaterTemperatureCount)
        },
        Register::EnvironmentTemperature(i) => if i < envs {
            Some(Register::EnvironmentTemperature(i + 1))
        } else {
            Some(Register::HeaterTemperatureCount)
        },
        Register::HeaterTemperatureCount => if heaters >= 1 {
            Some(Register::HeaterTemperature(1))
        } else {
            Some(Register::ChargeVoltageLimit)
        },
        Register::HeaterTemperature(i) => if i < heaters {
            Some(Register::HeaterTemperature(i + 1))
        } else {
            Some(Register::ChargeVoltageLimit)
        },
        Register::ChargeVoltageLimit => Some(Register::DischargeVoltageLimit),
        Register::DischargeVoltageLimit => Some(Register::ChargeCurrentLimit),
        Register::ChargeCurrentLimit => Some(Register::DischargeCurrentLimit),
        Register::DischargeCurrentLimit => Some(Register::Status1),
        Register::Status1 => Some(Register::Status2),
        Register::Status2 => Some(Register::Status3),
        Register::Status3 => Some(Register::OtherAlarmInfo),
        Register::OtherAlarmInfo => Some(Register::CellVoltageAlarmInfo),
        Register::CellVoltageAlarmInfo => Some(Register::CellTemperatureAlarmInfo),
        Register::CellTemperatureAlarmInfo => Some(Register::ChargeDischargeStatus),
        _ => None,
    }
}

} // verus!
