//! Alarm and status bitfields. Each bitfield keeps its raw word, reserved bits
//! included; the named flags are masks over that word.
use vstd::prelude::*;

verus! {

/// Alarm state of one cell's voltage.
#[derive(Debug, Default, PartialEq, Eq, Clone, Copy, Structural)]
pub enum CellVoltageAlarm {
    #[default]
    Normal,
    OverVoltage,
    UnderVoltage,
}

/// Alarm state of one cell's temperature.
#[derive(Debug, Default, PartialEq, Eq, Clone, Copy, Structural)]
pub enum CellTemperatureAlarm {
    #[default]
    Normal,
    OverTemperature,
    UnderTemperature,
}

/// Read state of one cell's voltage measurement.
#[derive(Debug, Default, PartialEq, Eq, Clone, Copy, Structural)]
pub enum CellVoltageError {
    #[default]
    Normal,
    Error,
}

/// Whether bit `i` of `v` is set.
pub open spec fn bit32(v: u32, i: u32) -> bool {
    (v >> i) & 1u32 == 1u32
}

/// Whether bit `i` of `v` is set.
pub open spec fn bit16(v: u16, i: u16) -> bool {
    (v >> i) & 1u16 == 1u16
}

/// Cell `i` (0-based) of a cell-voltage alarm word: bit `i + 16` is over-voltage,
/// bit `i` under-voltage, and over-voltage wins when both are set.
pub open spec fn voltage_alarm_of(bits: u32, i: u32) -> CellVoltageAlarm {
    if bit32(bits, (i + 16) as u32) {
        CellVoltageAlarm::OverVoltage
    } else if bit32(bits, i) {
        CellVoltageAlarm::UnderVoltage
    } else {
        CellVoltageAlarm::Normal
    }
}

/// Cell `i` (0-based) of a cell-temperature alarm word, with the layout of
/// the voltage alarms.
pub open spec fn temperature_alarm_of(bits: u32, i: u32) -> CellTemperatureAlarm {
    if bit32(bits, (i + 16) as u32) {
        CellTemperatureAlarm::OverTemperature
    } else if bit32(bits, i) {
        CellTemperatureAlarm::UnderTemperature
    } else {
        CellTemperatureAlarm::Normal
    }
}

/// Cell `i` (0-based) of a voltage-read error word.
pub open spec fn voltage_error_of(bits: u16, i: u16) -> CellVoltageError {
    if bit16(bits, i) {
        CellVoltageError::Error
    } else {
        CellVoltageError::Normal
    }
}

fn voltage_alarm_at(bits: u32, i: u32) -> (r: CellVoltageAlarm)
    requires
        i < 16,
    ensures
        r == voltage_alarm_of(bits, i),
{
    if (bits >> (i + 16)) & 1 == 1 {
        CellVoltageAlarm::OverVoltage
    } else if (bits >> i) & 1 == 1 {
        CellVoltageAlarm::UnderVoltage
    } else {
        CellVoltageAlarm::Normal
    }
}

fn temperature_alarm_at(bits: u32, i: u32) -> (r: CellTemperatureAlarm)
    requires
        i < 16,
    ensures
        r == temperature_alarm_of(bits, i),
{
    if (bits >> (i + 16)) & 1 == 1 {
        CellTemperatureAlarm::OverTemperature
    } else if (bits >> i) & 1 == 1 {
        CellTemperatureAlarm::UnderTemperature
    } else {
        CellTemperatureAlarm::Normal
    }
}

fn voltage_error_at(bits: u16, i: u16) -> (r: CellVoltageError)
    requires
        i < 16,
    ensures
        r == voltage_error_of(bits, i),
{
    if (bits >> i) & 1 == 1 {
        CellVoltageError::Error
    } else {
        CellVoltageError::Normal
    }
}

/// Per-cell voltage alarms of all sixteen cells.
#[derive(Debug, PartialEq, Eq, Clone, Copy)]
pub struct CellVoltageAlarms {
    pub alarms: [CellVoltageAlarm; 16],
}

impl CellVoltageAlarms {
    pub fn from_bits(value: u32) -> (r: CellVoltageAlarms)
        ensures
            forall|i: int| 0 <= i < 16 ==> #[trigger] r.alarms@[i] == voltage_alarm_of(value, i as u32),
    {
        let alarms = [
            voltage_alarm_at(value, 0),
            voltage_alarm_at(value, 1),
            voltage_alarm_at(value, 2),
            voltage_alarm_at(value, 3),
            voltage_alarm_at(value, 4),
            voltage_alarm_at(value, 5),
            voltage_alarm_at(value, 6),
            voltage_alarm_at(value, 7),
            voltage_alarm_at(value, 8),
            voltage_alarm_at(value, 9),
            voltage_alarm_at(value, 10),
            voltage_alarm_at(value, 11),
            voltage_alarm_at(value, 12),
            voltage_alarm_at(value, 13),
            voltage_alarm_at(value, 14),
            voltage_alarm_at(value, 15),
        ];
        CellVoltageAlarms { alarms }
    }
}

/// Per-cell temperature alarms of all sixteen cells.
#[derive(Debug, PartialEq, Eq, Clone, Copy)]
pub struct CellTemperatureAlarms {
    pub alarms: [CellTemperatureAlarm; 16],
}

impl CellTemperatureAlarms {
    pub fn from_bits(value: u32) -> (r: CellTemperatureAlarms)
        ensures
            forall|i: int| 0 <= i < 16 ==> #[trigger] r.alarms@[i] == temperature_alarm_of(value, i as u32),
    {
        let alarms = [
            temperature_alarm_at(value, 0),
            temperature_alarm_at(value, 1),
            temperature_alarm_at(value, 2),
            temperature_alarm_at(value, 3),
            temperature_alarm_at(value, 4),
            temperature_alarm_at(value, 5),
            temperature_alarm_at(value, 6),
            temperature_alarm_at(value, 7),
            temperature_alarm_at(value, 8),
            temperature_alarm_at(value, 9),
            temperature_alarm_at(value, 10),
            temperature_alarm_at(value, 11),
            temperature_alarm_at(value, 12),
            temperature_alarm_at(value, 13),
            temperature_alarm_at(value, 14),
            temperature_alarm_at(value, 15),
        ];
        CellTemperatureAlarms { alarms }
    }
}

/// Per-cell voltage-read errors of all sixteen cells.
#[derive(Debug, PartialEq, Eq, Clone, Copy)]
pub struct CellVoltageErrors {
    pub errors: [CellVoltageError; 16],
}

impl CellVoltageErrors {
    #[verifier::rlimit(50)]
    pub fn from_bits(value: u16) -> (r: CellVoltageErrors)
        ensures
            forall|i: int| 0 <= i < 16 ==> #[trigger] r.errors@[i] == voltage_error_of(value, i as u16),
    {
        let errors = [
            voltage_error_at(value, 0),
            voltage_error_at(value, 1),
            voltage_error_at(value, 2),
            voltage_error_at(value, 3),
            voltage_error_at(value, 4),
            voltage_error_at(value, 5),
            voltage_error_at(value, 6),
            voltage_error_at(value, 7),
            voltage_error_at(value, 8),
            voltage_error_at(value, 9),
            voltage_error_at(value, 10),
            voltage_error_at(value, 11),
            voltage_error_at(value, 12),
            voltage_error_at(value, 13),
            voltage_error_at(value, 14),
            voltage_error_at(value, 15),
        ];
        CellVoltageErrors { errors }
    }
}

/// Other alarms: BMS, environment and heater temperatures, charge and discharge over-current.
#[derive(Debug, PartialEq, Eq, Clone, Copy, Structural)]
pub struct OtherAlarmInfo {
    pub bits: u32,
}

impl OtherAlarmInfo {
    pub const BMS_OVER_TEMPERATURE: u32 = 0x80000000;
    pub const BMS_UNDER_TEMPERATURE: u32 = 0x40000000;
    pub const ENV_OVER_TEMPERATURE: u32 = 0x20000000;
    pub const ENV_UNDER_TEMPERATURE: u32 = 0x10000000;
    pub const HEATER_OVER_TEMPERATURE: u32 = 0x8000000;
    pub const HEATER_UNDER_TEMPERATURE: u32 = 0x4000000;
    pub const CHARGE_OVER_CURRENT: u32 = 0x200000;
    pub const DISCHARGE_OVER_CURRENT: u32 = 0x80000;

    /// The word as read, reserved bits included.
    pub fn from_bits(bits: u32) -> (r: OtherAlarmInfo)
        ensures
            r.bits == bits,
    {
        OtherAlarmInfo { bits }
    }

    pub fn empty() -> (r: OtherAlarmInfo)
        ensures
            r.bits == 0,
    {
        OtherAlarmInfo { bits: 0 }
    }

    pub fn bits(&self) -> (r: u32)
        ensures
            r == self.bits,
    {
        self.bits
    }

    /// Whether every bit of `mask` is set.
    pub fn contains(&self, mask: u32) -> (r: bool)
        ensures
            r == (self.bits & mask == mask),
    {
        self.bits & mask == mask
    }

    /// Whether some bit of `mask` is set.
    pub fn intersects(&self, mask: u32) -> (r: bool)
        ensures
            r == (self.bits & mask != 0),
    {
        self.bits & mask != 0
    }

    /// The bits set in either word.
    pub fn union(&self, other: OtherAlarmInfo) -> (r: OtherAlarmInfo)
        ensures
            r.bits == self.bits | other.bits,
    {
        OtherAlarmInfo { bits: self.bits | other.bits }
    }
}

/// Protection status: voltage, temperature and current protections, MOSFET states, short circuit.
#[derive(Debug, PartialEq, Eq, Clone, Copy, Structural)]
pub struct Status1 {
    pub bits: u16,
}

impl Status1 {
    pub const MODULE_UNDER_VOLTAGE: u16 = 0x8000;
    pub const CHARGE_OVER_TEMP: u16 = 0x4000;
    pub const CHARGE_UNDER_TEMP: u16 = 0x2000;
    pub const DISCHARGE_OVER_TEMP: u16 = 0x1000;
    pub const DISCHARGE_UNDER_TEMP: u16 = 0x800;
    pub const DISCHARGE_OVER_CURRENT1: u16 = 0x400;
    pub const CHARGE_OVER_CURRENT1: u16 = 0x200;
    pub const CELL_OVER_VOLTAGE: u16 = 0x100;
    pub const CELL_UNDER_VOLTAGE: u16 = 0x80;
    pub const MODULE_OVER_VOLTAGE: u16 = 0x40;
    pub const DISCHARGE_OVER_CURRENT2: u16 = 0x20;
    pub const CHARGE_OVER_CURRENT2: u16 = 0x10;
    pub const USING_BATTERY_MODULE_POWER: u16 = 0x8;
    pub const DISCHARGE_MOSFET: u16 = 0x4;
    pub const CHARGE_MOSFET: u16 = 0x2;
    pub const SHORT_CIRCUIT: u16 = 0x1;

    /// The word as read, reserved bits included.
    pub fn from_bits(bits: u16) -> (r: Status1)
        ensures
            r.bits == bits,
    {
        Status1 { bits }
    }

    pub fn empty() -> (r: Status1)
        ensures
            r.bits == 0,
    {
        Status1 { bits: 0 }
    }

    pub fn bits(&self) -> (r: u16)
        ensures
            r == self.bits,
    {
        self.bits
    }

    /// Whether every bit of `mask` is set.
    pub fn contains(&self, mask: u16) -> (r: bool)
        ensures
            r == (self.bits & mask == mask),
    {
        self.bits & mask == mask
    }

    /// Whether some bit of `mask` is set.
    pub fn intersects(&self, mask: u16) -> (r: bool)
        ensures
            r == (self.bits & mask != 0),
    {
        self.bits & mask != 0
    }

    /// The bits set in either word.
    pub fn union(&self, other: Status1) -> (r: Status1)
        ensures
            r.bits == self.bits | other.bits,
    {
        Status1 { bits: self.bits | other.bits }
    }
}

/// Warning status: warning-level mirrors, effective current direction, heater, full charge, buzzer.
#[derive(Debug, PartialEq, Eq, Clone, Copy, Structural)]
pub struct Status2 {
    pub bits: u16,
}

impl Status2 {
    pub const EFFECTIVE_CHARGE_CURRENT: u16 = 0x8000;
    pub const EFFECTIVE_DISCHARGE_CURRENT: u16 = 0x4000;
    pub const HEATER_ON: u16 = 0x2000;
    pub const FULLY_CHARGED: u16 = 0x800;
    pub const BUZZER: u16 = 0x100;
    pub const DISCHARGE_HIGH_TEMP_WARN: u16 = 0x80;
    pub const DISCHARGE_LOW_TEMP_WARN: u16 = 0x40;
    pub const CHARGE_HIGH_TEMP_WARN: u16 = 0x20;
    pub const CHARGE_LOW_TEMP_WARN: u16 = 0x10;
    pub const MODULE_HIGH_VOLTAGE_WARN: u16 = 0x8;
    pub const MODULE_LOW_VOLTAGE_WARN: u16 = 0x4;
    pub const CELL_HIGH_VOLTAGE_WARN: u16 = 0x2;
    pub const CELL_LOW_VOLTAGE_WARN: u16 = 0x1;

    /// The word as read, reserved bits included.
    pub fn from_bits(bits: u16) -> (r: Status2)
        ensures
            r.bits == bits,
    {
        Status2 { bits }
    }

    pub fn empty() -> (r: Status2)
        ensures
            r.bits == 0,
    {
        Status2 { bits: 0 }
    }

    pub fn bits(&self) -> (r: u16)
        ensures
            r == self.bits,
    {
        self.bits
    }

    /// Whether every bit of `mask` is set.
    pub fn contains(&self, mask: u16) -> (r: bool)
        ensures
            r == (self.bits & mask == mask),
    {
        self.bits & mask == mask
    }

    /// Whether some bit of `mask` is set.
    pub fn intersects(&self, mask: u16) -> (r: bool)
        ensures
            r == (self.bits & mask != 0),
    {
        self.bits & mask != 0
    }

    /// The bits set in either word.
    pub fn union(&self, other: Status2) -> (r: Status2)
        ensures
            r.bits == self.bits | other.bits,
    {
        Status2 { bits: self.bits | other.bits }
    }
}

/// Voltage-read errors of the sixteen cells, cell `n` at bit `n - 1`.
#[derive(Debug, PartialEq, Eq, Clone, Copy, Structural)]
pub struct Status3 {
    pub bits: u16,
}

impl Status3 {
    pub const CELL_1_VOLTAGE_ERROR: u16 = 0x1;
    pub const CELL_2_VOLTAGE_ERROR: u16 = 0x2;
    pub const CELL_3_VOLTAGE_ERROR: u16 = 0x4;
    pub const CELL_4_VOLTAGE_ERROR: u16 = 0x8;
    pub const CELL_5_VOLTAGE_ERROR: u16 = 0x10;
    pub const CELL_6_VOLTAGE_ERROR: u16 = 0x20;
    pub const CELL_7_VOLTAGE_ERROR: u16 = 0x40;
    pub const CELL_8_VOLTAGE_ERROR: u16 = 0x80;
    pub const CELL_9_VOLTAGE_ERROR: u16 = 0x100;
    pub const CELL_10_VOLTAGE_ERROR: u16 = 0x200;
    pub const CELL_11_VOLTAGE_ERROR: u16 = 0x400;
    pub const CELL_12_VOLTAGE_ERROR: u16 = 0x800;
    pub const CELL_13_VOLTAGE_ERROR: u16 = 0x1000;
    pub const CELL_14_VOLTAGE_ERROR: u16 = 0x2000;
    pub const CELL_15_VOLTAGE_ERROR: u16 = 0x4000;
    pub const CELL_16_VOLTAGE_ERROR: u16 = 0x8000;

    /// The word as read, reserved bits included.
    pub fn from_bits(bits: u16) -> (r: Status3)
        ensures
            r.bits == bits,
    {
        Status3 { bits }
    }

    pub fn empty() -> (r: Status3)
        ensures
            r.bits == 0,
    {
        Status3 { bits: 0 }
    }

    pub fn bits(&self) -> (r: u16)
        ensures
            r == self.bits,
    {
        self.bits
    }

    /// Whether every bit of `mask` is set.
    pub fn contains(&self, mask: u16) -> (r: bool)
        ensures
            r == (self.bits & mask == mask),
    {
        self.bits & mask == mask
    }

    /// Whether some bit of `mask` is set.
    pub fn intersects(&self, mask: u16) -> (r: bool)
        ensures
            r == (self.bits & mask != 0),
    {
        self.bits & mask != 0
    }

    /// The bits set in either word.
    pub fn union(&self, other: Status3) -> (r: Status3)
        ensures
            r.bits == self.bits | other.bits,
    {
        Status3 { bits: self.bits | other.bits }
    }
}

/// Charge and discharge control state.
#[derive(Debug, PartialEq, Eq, Clone, Copy, Structural)]
pub struct ChargeDischargeStatus {
    pub bits: u16,
}

impl ChargeDischargeStatus {
    pub const CHARGE_ENABLE: u16 = 0x80;
    pub const DISCHARGE_ENABLE: u16 = 0x40;
    pub const CHARGE_IMMEDIATE: u16 = 0x20;
    pub const CHARGE_IMMEDIATE2: u16 = 0x10;
    pub const FULL_CHARGE_REQUEST: u16 = 0x8;

    /// The word as read, reserved bits included.
    pub fn from_bits(bits: u16) -> (r: ChargeDischargeStatus)
        ensures
            r.bits == bits,
    {
        ChargeDischargeStatus { bits }
    }

    pub fn empty() -> (r: ChargeDischargeStatus)
        ensures
            r.bits == 0,
    {
        ChargeDischargeStatus { bits: 0 }
    }

    pub fn bits(&self) -> (r: u16)
        ensures
            r == self.bits,
    {
        self.bits
    }

    /// Whether every bit of `mask` is set.
    pub fn contains(&self, mask: u16) -> (r: bool)
        ensures
            r == (self.bits & mask == mask),
    {
        self.bits & mask == mask
    }

    /// Whether some bit of `mask` is set.
    pub fn intersects(&self, mask: u16) -> (r: bool)
        ensures
            r == (self.bits & mask != 0),
    {
        self.bits & mask != 0
    }

    /// The bits set in either word.
    pub fn union(&self, other: ChargeDischargeStatus) -> (r: ChargeDischargeStatus)
        ensures
            r.bits == self.bits | other.bits,
    {
        ChargeDischargeStatus { bits: self.bits | other.bits }
    }
}

} // verus!
