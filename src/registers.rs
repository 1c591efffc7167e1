//! The register catalog: where each quantity lives, how many words it spans,
//! how its raw words scale into engineering values, and which registers
//! accept writes.
//!
//! Engineering values are integers in thousandths of their unit: millivolts,
//! milliamps (milliamp-hours for capacities) and thousandths of a degree
//! Celsius.
use crate::alarm::{
    temperature_alarm_of, voltage_alarm_of, CellTemperatureAlarm, CellTemperatureAlarms,
    CellVoltageAlarm, CellVoltageAlarms, CellVoltageError, CellVoltageErrors,
    ChargeDischargeStatus, OtherAlarmInfo, Status1, Status2, Status3,
};
use crate::error::RenogyError;
use vstd::prelude::*;

verus! {

/// The text that lossy UTF-8 decoding makes of a byte sequence.
pub uninterp spec fn utf8_lossy(bytes: Seq<u8>) -> Seq<char>;

/// Relies on `String::from_utf8_lossy`: the text depends on the bytes alone.
#[verifier::external_body]
fn decode_utf8_lossy(bytes: &[u8]) -> (r: String)
    ensures
        r@ == utf8_lossy(bytes@),
{
    String::from_utf8_lossy(bytes).into_owned()
}

/// A voltage in millivolts.
#[derive(Debug, Clone, Copy, PartialEq, Eq, Structural)]
pub struct ElectricPotential {
    pub millivolts: i64,
}

/// A current in milliamps; capacities use it for milliamp-hours.
#[derive(Debug, Clone, Copy, PartialEq, Eq, Structural)]
pub struct ElectricCurrent {
    pub milliamps: i64,
}

/// A temperature in thousandths of a degree Celsius.
#[derive(Debug, Clone, Copy, PartialEq, Eq, Structural)]
pub struct ThermodynamicTemperature {
    pub millidegrees_celsius: i64,
}

/// A typed register value.
#[derive(Debug, Clone, PartialEq)]
pub enum Value {
    ElectricPotential(ElectricPotential),
    ElectricCurrent(ElectricCurrent),
    ThermodynamicTemperature(ThermodynamicTemperature),
    Integer(u32),
    CellVoltageAlarms(CellVoltageAlarms),
    CellTemperatureAlarms(CellTemperatureAlarms),
    OtherAlarmInfo(OtherAlarmInfo),
    Status1(Status1),
    Status2(Status2),
    Status3(Status3),
    CellVoltageErrors(CellVoltageErrors),
    ChargeDischargeStatus(ChargeDischargeStatus),
    String(String),
}

/// The mathematical value of a [`Value`].
pub enum ValueView {
    ElectricPotential(ElectricPotential),
    ElectricCurrent(ElectricCurrent),
    ThermodynamicTemperature(ThermodynamicTemperature),
    Integer(u32),
    CellVoltageAlarms(Seq<CellVoltageAlarm>),
    CellTemperatureAlarms(Seq<CellTemperatureAlarm>),
    OtherAlarmInfo(OtherAlarmInfo),
    Status1(Status1),
    Status2(Status2),
    Status3(Status3),
    CellVoltageErrors(Seq<CellVoltageError>),
    ChargeDischargeStatus(ChargeDischargeStatus),
    String(Seq<char>),
}

impl View for Value {
    type V = ValueView;

    open spec fn view(&self) -> ValueView {
        match self {
            Value::ElectricPotential(v) => ValueView::ElectricPotential(*v),
            Value::ElectricCurrent(v) => ValueView::ElectricCurrent(*v),
            Value::ThermodynamicTemperature(v) => ValueView::ThermodynamicTemperature(*v),
            Value::Integer(v) => ValueView::Integer(*v),
            Value::CellVoltageAlarms(v) => ValueView::CellVoltageAlarms(v.alarms@),
            Value::CellTemperatureAlarms(v) => ValueView::CellTemperatureAlarms(v.alarms@),
            Value::OtherAlarmInfo(v) => ValueView::OtherAlarmInfo(*v),
            Value::Status1(v) => ValueView::Status1(*v),
            Value::Status2(v) => ValueView::Status2(*v),
            Value::Status3(v) => ValueView::Status3(*v),
            Value::CellVoltageErrors(v) => ValueView::CellVoltageErrors(v.errors@),
            Value::ChargeDischargeStatus(v) => ValueView::ChargeDischargeStatus(*v),
            Value::String(s) => ValueView::String(s@),
        }
    }
}

impl Value {
    pub fn as_string(&self) -> (r: Option<&str>)
        ensures
            match self {
                Value::String(s) => r is Some && r->Some_0@ == s@,
                _ => r is None,
            },
    {
        match self {
            Value::String(s) => Some(s.as_str()),
            _ => None,
        }
    }

    pub fn as_integer(&self) -> (r: Option<u32>)
        ensures
            match self {
                Value::Integer(n) => r == Some(*n),
                _ => r is None,
            },
    {
        match self {
            Value::Integer(n) => Some(*n),
            _ => None,
        }
    }

    pub fn as_voltage(&self) -> (r: Option<ElectricPotential>)
        ensures
            match self {
                Value::ElectricPotential(v) => r == Some(*v),
                _ => r is None,
            },
    {
        match self {
            Value::ElectricPotential(v) => Some(*v),
            _ => None,
        }
    }

    pub fn as_current(&self) -> (r: Option<ElectricCurrent>)
        ensures
            match self {
                Value::ElectricCurrent(v) => r == Some(*v),
                _ => r is None,
            },
    {
        match self {
            Value::ElectricCurrent(v) => Some(*v),
            _ => None,
        }
    }

    pub fn as_temperature(&self) -> (r: Option<ThermodynamicTemperature>)
        ensures
            match self {
                Value::ThermodynamicTemperature(v) => r == Some(*v),
                _ => r is None,
            },
    {
        match self {
            Value::ThermodynamicTemperature(v) => Some(*v),
            _ => None,
        }
    }
}

/// How the raw words of a register are read.
#[derive(Debug, Clone, Copy, PartialEq, Eq, Structural)]
pub enum RegisterKind {
    /// One unsigned word.
    Integer,
    /// One unsigned word, 0.1 V per step.
    Voltage,
    /// One unsigned word, 0.1 degree Celsius per step.
    Temperature,
    /// One two's-complement word, 0.1 degree Celsius per step.
    SignedTemperature,
    /// One two's-complement word, 0.01 A per step.
    SignedCurrent,
    /// One unsigned word, 0.01 A per step.
    Current,
    /// Two words, high word first, 0.001 Ah per step.
    Capacity,
    /// ASCII text, two bytes per word.
    Text,
    CellVoltageAlarms,
    CellTemperatureAlarms,
    OtherAlarms,
    Status1,
    Status2,
    Status3,
    ChargeDischargeStatus,
    /// Two words, high word first.
    Integer32,
}

/// A symbolic holding register. Parameterised registers take a 1-based
/// cell or sensor index.
#[derive(Debug, Clone, Copy, PartialEq, Eq, Hash, Structural)]
pub enum Register {
    CellCount,
    CellVoltage(u8),
    CellTemperatureCount,
    CellTemperature(u8),
    BmsTemperature,
    EnvironmentTemperatureCount,
    EnvironmentTemperature(u8),
    HeaterTemperatureCount,
    HeaterTemperature(u8),
    Current,
    ModuleVoltage,
    RemainingCapacity,
    TotalCapacity,
    CycleNumber,
    ChargeVoltageLimit,
    DischargeVoltageLimit,
    ChargeCurrentLimit,
    DischargeCurrentLimit,
    CellVoltageAlarmInfo,
    CellTemperatureAlarmInfo,
    OtherAlarmInfo,
    Status1,
    Status2,
    Status3,
    ChargeDischargeStatus,
    SnNumber,
    ManufactureVersion,
    MainlineVersion,
    CommunicationProtocolVersion,
    BatteryName,
    SoftwareVersion,
    ManufacturerName,
    CellOverVoltageLimit,
    CellHighVoltageLimit,
    CellLowVoltageLimit,
    CellUnderVoltageLimit,
    ChargeOverTemperatureLimit,
    ChargeHighTemperatureLimit,
    ChargeLowTemperatureLimit,
    ChargeUnderTemperatureLimit,
    ChargeOver2CurrentLimit,
    ChargeOver1CurrentLimit,
    ChargeHighCurrentLimit,
    ModuleOverVoltageLimit,
    ModuleHighVoltageLimit,
    ModuleLowVoltageLimit,
    ModuleUnderVoltageLimit,
    DischargeOverTemperatureLimit,
    DischargeHighTemperatureLimit,
    DischargeLowTemperatureLimit,
    DischargeUnderTemperatureLimit,
    DischargeOver2CurrentLimit,
    DischargeOver1CurrentLimit,
    DischargeHighCurrentLimit,
    ShutdownCommand,
    DeviceId,
    LockControl,
    TestReady,
    UniqueIdentificationCode,
    ChargePowerSetting,
    DischargePowerSetting,
    AcpBroadcast,
    AcpConfigure,
    AcpShake,
}

/// The holding-register address of `r`.
pub open spec fn address_of(r: Register) -> u16 {
    match r {
            Register::CellCount => 5000,
            Register::CellVoltage(n) => (5000 + n) as u16,
            Register::CellTemperatureCount => 5017,
            Register::CellTemperature(n) => (5017 + n) as u16,
            Register::BmsTemperature => 5035,
            Register::EnvironmentTemperatureCount => 5036,
            Register::EnvironmentTemperature(n) => (5036 + n) as u16,
            Register::HeaterTemperatureCount => 5039,
            Register::HeaterTemperature(n) => (5039 + n) as u16,
            Register::Current => 5042,
            Register::ModuleVoltage => 5043,
            Register::RemainingCapacity => 5044,
            Register::TotalCapacity => 5046,
            Register::CycleNumber => 5048,
            Register::ChargeVoltageLimit => 5049,
            Register::DischargeVoltageLimit => 5050,
            Register::ChargeCurrentLimit => 5051,
            Register::DischargeCurrentLimit => 5052,
            Register::CellVoltageAlarmInfo => 5100,
            Register::CellTemperatureAlarmInfo => 5102,
            Register::OtherAlarmInfo => 5104,
            Register::Status1 => 5106,
            Register::Status2 => 5107,
            Register::Status3 => 5108,
            Register::ChargeDischargeStatus => 5109,
            Register::SnNumber => 5110,
            Register::ManufactureVersion => 5118,
            Register::MainlineVersion => 5119,
            Register::CommunicationProtocolVersion => 5121,
            Register::BatteryName => 5122,
            Register::SoftwareVersion => 5130,
            Register::ManufacturerName => 5132,
            Register::CellOverVoltageLimit => 5200,
            Register::CellHighVoltageLimit => 5201,
            Register::CellLowVoltageLimit => 5202,
            Register::CellUnderVoltageLimit => 5203,
            Register::ChargeOverTemperatureLimit => 5204,
            Register::ChargeHighTemperatureLimit => 5205,
            Register::ChargeLowTemperatureLimit => 5206,
            Register::ChargeUnderTemperatureLimit => 5207,
            Register::ChargeOver2CurrentLimit => 5208,
            Register::ChargeOver1CurrentLimit => 5209,
            Register::ChargeHighCurrentLimit => 5210,
            Register::ModuleOverVoltageLimit => 5211,
            Register::ModuleHighVoltageLimit => 5212,
            Register::ModuleLowVoltageLimit => 5213,
            Register::ModuleUnderVoltageLimit => 5214,
            Register::DischargeOverTemperatureLimit => 5215,
            Register::DischargeHighTemperatureLimit => 5216,
            Register::DischargeLowTemperatureLimit => 5217,
            Register::DischargeUnderTemperatureLimit => 5218,
            Register::DischargeOver2CurrentLimit => 5219,
            Register::DischargeOver1CurrentLimit => 5220,
            Register::DischargeHighCurrentLimit => 5221,
            Register::ShutdownCommand => 5222,
            Register::DeviceId => 5223,
            Register::LockControl => 5224,
            Register::TestReady => 5225,
            Register::UniqueIdentificationCode => 5226,
            Register::ChargePowerSetting => 5228,
            Register::DischargePowerSetting => 5229,
            Register::AcpBroadcast => 61440,
            Register::AcpConfigure => 61441,
            Register::AcpShake => 61442,
    }
}

/// The number of words `r` spans.
pub open spec fn quantity_of(r: Register) -> u16 {
    match r {
            Register::RemainingCapacity
            | Register::TotalCapacity
            | Register::CellVoltageAlarmInfo
            | Register::CellTemperatureAlarmInfo
            | Register::OtherAlarmInfo
            | Register::MainlineVersion
            | Register::SoftwareVersion
            | Register::UniqueIdentificationCode => 2,
            Register::SnNumber
            | Register::BatteryName => 8,
            Register::ManufacturerName => 10,
            _ => 1,
    }
}

/// How the words of `r` are read.
pub open spec fn kind_of(r: Register) -> RegisterKind {
    match r {
            Register::CellCount
            | Register::CellTemperatureCount
            | Register::EnvironmentTemperatureCount
            | Register::HeaterTemperatureCount
            | Register::CycleNumber
            | Register::ShutdownCommand
            | Register::DeviceId
            | Register::LockControl
            | Register::TestReady
            | Register::ChargePowerSetting
            | Register::DischargePowerSetting
            | Register::AcpBroadcast
            | Register::AcpConfigure
            | Register::AcpShake => RegisterKind::Integer,
            Register::CellVoltage(_)
            | Register::ModuleVoltage
            | Register::ChargeVoltageLimit
            | Register::DischargeVoltageLimit
            | Register::CellOverVoltageLimit
            | Register::CellHighVoltageLimit
            | Register::CellLowVoltageLimit
            | Register::CellUnderVoltageLimit
            | Register::ModuleOverVoltageLimit
            | Register::ModuleHighVoltageLimit
            | Register::ModuleLowVoltageLimit
            | Register::ModuleUnderVoltageLimit => RegisterKind::Voltage,
            Register::CellTemperature(_)
            | Register::BmsTemperature
            | Register::EnvironmentTemperature(_)
            | Register::HeaterTemperature(_) => RegisterKind::Temperature,
            Register::ChargeOverTemperatureLimit
            | Register::ChargeHighTemperatureLimit
            | Register::ChargeLowTemperatureLimit
            | Register::ChargeUnderTemperatureLimit
            | Register::DischargeOverTemperatureLimit
            | Register::DischargeHighTemperatureLimit
            | Register::DischargeLowTemperatureLimit
            | Register::DischargeUnderTemperatureLimit => RegisterKind::SignedTemperature,
            Register::Current
            | Register::DischargeCurrentLimit => RegisterKind::SignedCurrent,
            Register::ChargeCurrentLimit
            | Register::ChargeOver2CurrentLimit
            | Register::ChargeOver1CurrentLimit
            | Register::ChargeHighCurrentLimit
            | Register::DischargeOver2CurrentLimit
            | Register::DischargeOver1CurrentLimit
            | Register::DischargeHighCurrentLimit => RegisterKind::Current,
            Register::RemainingCapacity
            | Register::TotalCapacity => RegisterKind::Capacity,
            Register::SnNumber
            | Register::ManufactureVersion
            | Register::MainlineVersion
            | Register::CommunicationProtocolVersion
            | Register::BatteryName
            | Register::SoftwareVersion
            | Register::ManufacturerName => RegisterKind::Text,
            Register::CellVoltageAlarmInfo => RegisterKind::CellVoltageAlarms,
            Register::CellTemperatureAlarmInfo => RegisterKind::CellTemperatureAlarms,
            Register::OtherAlarmInfo => RegisterKind::OtherAlarms,
            Register::Status1 => RegisterKind::Status1,
            Register::Status2 => RegisterKind::Status2,
            Register::Status3 => RegisterKind::Status3,
            Register::ChargeDischargeStatus => RegisterKind::ChargeDischargeStatus,
            Register::UniqueIdentificationCode => RegisterKind::Integer32,
    }
}

/// Whether `r` accepts writes: the in-band limits, the configuration and
/// control block and the ACP triple.
pub open spec fn writable(r: Register) -> bool {
    match r {
            Register::ChargeVoltageLimit
            | Register::DischargeVoltageLimit
            | Register::ChargeCurrentLimit
            | Register::DischargeCurrentLimit
            | Register::CellOverVoltageLimit
            | Register::CellHighVoltageLimit
            | Register::CellLowVoltageLimit
            | Register::CellUnderVoltageLimit
            | Register::ChargeOverTemperatureLimit
            | Register::ChargeHighTemperatureLimit
            | Register::ChargeLowTemperatureLimit
            | Register::ChargeUnderTemperatureLimit
            | Register::ChargeOver2CurrentLimit
            | Register::ChargeOver1CurrentLimit
            | Register::ChargeHighCurrentLimit
            | Register::ModuleOverVoltageLimit
            | Register::ModuleHighVoltageLimit
            | Register::ModuleLowVoltageLimit
            | Register::ModuleUnderVoltageLimit
            | Register::DischargeOverTemperatureLimit
            | Register::DischargeHighTemperatureLimit
            | Register::DischargeLowTemperatureLimit
            | Register::DischargeUnderTemperatureLimit
            | Register::DischargeOver2CurrentLimit
            | Register::DischargeOver1CurrentLimit
            | Register::DischargeHighCurrentLimit
            | Register::ShutdownCommand
            | Register::DeviceId
            | Register::LockControl
            | Register::TestReady
            | Register::UniqueIdentificationCode
            | Register::ChargePowerSetting
            | Register::DischargePowerSetting
            | Register::AcpBroadcast
            | Register::AcpConfigure
            | Register::AcpShake => true,
            _ => false,
    }
}

/// The big-endian word at byte `i`.
pub open spec fn be16(d: Seq<u8>, i: int) -> int {
    d[i] as int * 256 + d[i + 1] as int
}

/// The big-endian double word at the start of `d`.
pub open spec fn be32(d: Seq<u8>) -> int {
    be16(d, 0) * 65536 + be16(d, 2)
}

/// The two's-complement reading of a word.
pub open spec fn signed16(u: int) -> int {
    if u >= 32768 {
        u - 65536
    } else {
        u
    }
}

/// Division that truncates toward zero.
pub open spec fn trunc_div(a: int, d: int) -> int {
    if a >= 0 {
        a / d
    } else {
        -((-a) / d)
    }
}

pub open spec fn clamp(x: int, lo: int, hi: int) -> int {
    if x < lo {
        lo
    } else if x > hi {
        hi
    } else {
        x
    }
}

/// The word that holds a value in `-32768..=32767` in two's complement.
pub open spec fn word_of_signed(x: int) -> int {
    if x < 0 {
        x + 65536
    } else {
        x
    }
}

/// The big-endian bytes of a word.
pub open spec fn be16_bytes(x: int) -> Seq<u8> {
    seq![(x / 256) as u8, (x % 256) as u8]
}

/// The big-endian bytes of a double word.
pub open spec fn be32_bytes(x: int) -> Seq<u8> {
    be16_bytes(x / 65536) + be16_bytes(x % 65536)
}

/// The bytes of a word sequence, each word high byte first.
pub open spec fn word_bytes(w: Seq<u16>) -> Seq<u8> {
    Seq::new(
        2 * w.len(),
        |i: int|
            if i % 2 == 0 {
                (w[i / 2] / 256) as u8
            } else {
                (w[i / 2] % 256) as u8
            },
    )
}

/// The value that the bytes `d` of register `r` hold.
pub open spec fn decode_value(r: Register, d: Seq<u8>) -> ValueView {
    match kind_of(r) {
        RegisterKind::Integer => ValueView::Integer(be16(d, 0) as u32),
        RegisterKind::Voltage => ValueView::ElectricPotential(
            ElectricPotential { millivolts: (100 * be16(d, 0)) as i64 },
        ),
        RegisterKind::Temperature => ValueView::ThermodynamicTemperature(
            ThermodynamicTemperature { millidegrees_celsius: (100 * be16(d, 0)) as i64 },
        ),
        RegisterKind::SignedTemperature => ValueView::ThermodynamicTemperature(
            ThermodynamicTemperature { millidegrees_celsius: (100 * signed16(be16(d, 0))) as i64 },
        ),
        RegisterKind::SignedCurrent => ValueView::ElectricCurrent(
            ElectricCurrent { milliamps: (10 * signed16(be16(d, 0))) as i64 },
        ),
        RegisterKind::Current => ValueView::ElectricCurrent(
            ElectricCurrent { milliamps: (10 * be16(d, 0)) as i64 },
        ),
        RegisterKind::Capacity => ValueView::ElectricCurrent(
            ElectricCurrent { milliamps: be32(d) as i64 },
        ),
        RegisterKind::Text => ValueView::String(utf8_lossy(d)),
        RegisterKind::CellVoltageAlarms => ValueView::CellVoltageAlarms(
            Seq::new(16, |i: int| voltage_alarm_of(be32(d) as u32, i as u32)),
        ),
        RegisterKind::CellTemperatureAlarms => ValueView::CellTemperatureAlarms(
            Seq::new(16, |i: int| temperature_alarm_of(be32(d) as u32, i as u32)),
        ),
        RegisterKind::OtherAlarms => ValueView::OtherAlarmInfo(OtherAlarmInfo { bits: be32(d) as u32 }),
        RegisterKind::Status1 => ValueView::Status1(Status1 { bits: be16(d, 0) as u16 }),
        RegisterKind::Status2 => ValueView::Status2(Status2 { bits: be16(d, 0) as u16 }),
        RegisterKind::Status3 => ValueView::Status3(Status3 { bits: be16(d, 0) as u16 }),
        RegisterKind::ChargeDischargeStatus => ValueView::ChargeDischargeStatus(
            ChargeDischargeStatus { bits: be16(d, 0) as u16 },
        ),
        RegisterKind::Integer32 => ValueView::Integer(be32(d) as u32),
    }
}

/// The bytes that writing `v` to `r` sends, or `None` where `r` is read-only
/// or `v` is not of the kind `r` holds. Scaled values are truncated toward
/// zero and then held to the range of the register's word.
pub open spec fn encode_value(r: Register, v: ValueView) -> Option<Seq<u8>> {
    if !writable(r) {
        None
    } else {
        match (kind_of(r), v) {
            (RegisterKind::Voltage, ValueView::ElectricPotential(p)) => Some(
                be16_bytes(clamp(trunc_div(p.millivolts as int, 100), 0, 65535)),
            ),
            (RegisterKind::Current, ValueView::ElectricCurrent(c)) => Some(
                be16_bytes(clamp(trunc_div(c.milliamps as int, 10), 0, 65535)),
            ),
            (RegisterKind::SignedCurrent, ValueView::ElectricCurrent(c)) => Some(
                be16_bytes(word_of_signed(clamp(trunc_div(c.milliamps as int, 10), -32768, 32767))),
            ),
            (RegisterKind::SignedTemperature, ValueView::ThermodynamicTemperature(t)) => Some(
                be16_bytes(
                    word_of_signed(
                        clamp(trunc_div(t.millidegrees_celsius as int, 100), -32768, 32767),
                    ),
                ),
            ),
            (RegisterKind::Integer, ValueView::Integer(n)) => Some(be16_bytes(n as int % 65536)),
            (RegisterKind::Integer32, ValueView::Integer(n)) => Some(be32_bytes(n as int)),
            _ => None,
        }
    }
}

/// The size of one step of a register kind, in the value's units.
pub open spec fn step_of(k: RegisterKind) -> int {
    match k {
        RegisterKind::Voltage => 100,
        RegisterKind::Temperature => 100,
        RegisterKind::SignedTemperature => 100,
        RegisterKind::Current => 10,
        RegisterKind::SignedCurrent => 10,
        _ => 1,
    }
}

/// Whether `v` is of the kind that writable register `r` holds and within the
/// range its word can carry.
pub open spec fn fits_register(r: Register, v: ValueView) -> bool {
    match (kind_of(r), v) {
        (RegisterKind::Voltage, ValueView::ElectricPotential(p)) => 0 <= p.millivolts <= 6553599,
        (RegisterKind::Current, ValueView::ElectricCurrent(c)) => 0 <= c.milliamps <= 655359,
        (RegisterKind::SignedCurrent, ValueView::ElectricCurrent(c)) => -327689 <= c.milliamps <= 327679,
        (RegisterKind::SignedTemperature, ValueView::ThermodynamicTemperature(t)) => -3276899
            <= t.millidegrees_celsius <= 3276799,
        (RegisterKind::Integer, ValueView::Integer(n)) => n < 65536,
        (RegisterKind::Integer32, ValueView::Integer(_)) => true,
        _ => false,
    }
}

/// Whether `a` and `b` are values of one kind that differ by less than `step`.
pub open spec fn within_step(a: ValueView, b: ValueView, step: int) -> bool {
    match (a, b) {
        (ValueView::ElectricPotential(x), ValueView::ElectricPotential(y)) => -step < x.millivolts
            - y.millivolts < step,
        (ValueView::ElectricCurrent(x), ValueView::ElectricCurrent(y)) => -step < x.milliamps
            - y.milliamps < step,
        (ValueView::ThermodynamicTemperature(x), ValueView::ThermodynamicTemperature(y)) => -step
            < x.millidegrees_celsius - y.millidegrees_celsius < step,
        (ValueView::Integer(x), ValueView::Integer(y)) => -step < x - y < step,
        _ => false,
    }
}

fn read_u16(d: &[u8], i: usize) -> (r: u16)
    requires
        i + 1 < d@.len(),
    ensures
        r as int == be16(d@, i as int),
{
    d[i] as u16 * 256 + d[i + 1] as u16
}

fn read_u32(d: &[u8]) -> (r: u32)
    requires
        4 <= d@.len(),
    ensures
        r as int == be32(d@),
{
    read_u16(d, 0) as u32 * 65536 + read_u16(d, 2) as u32
}

/// Appends the big-endian bytes of a word.
pub fn word_to_bytes(x: u16, out: &mut Vec<u8>)
    ensures
        final(out)@ == old(out)@ + be16_bytes(x as int),
{
    out.push((x / 256) as u8);
    out.push((x % 256) as u8);
    assert(final(out)@ =~= old(out)@ + be16_bytes(x as int));
}

/// `clamp(trunc_div(v, d), 0, hi)` for the divisors the catalog uses.
fn scale_unsigned(v: i64, d: u64) -> (r: u16)
    requires
        d == 10 || d == 100,
    ensures
        r as int == clamp(trunc_div(v as int, d as int), 0, 65535),
{
    if v <= 0 {
        0
    } else {
        let q = (v as u64) / d;
        if q > 65535 {
            65535
        } else {
            q as u16
        }
    }
}

/// The word of `clamp(trunc_div(v, d), -32768, 32767)` for the divisors
/// the catalog uses.
fn scale_signed(v: i64, d: u64) -> (r: u16)
    requires
        d == 10 || d == 100,
    ensures
        r as int == word_of_signed(clamp(trunc_div(v as int, d as int), -32768, 32767)),
{
    if v >= 0 {
        let q = (v as u64) / d;
        if q > 32767 {
            32767
        } else {
            q as u16
        }
    } else if v <= 0 - 32768 * (d as i64) {
        32768
    } else {
        let m = (0 - v) as u64;
        let q = m / d;
        if q == 0 {
            0
        } else {
            (65536 - q) as u16
        }
    }
}

impl Register {
    pub fn address(&self) -> (r: u16)
        ensures
            r == address_of(*self),
    {
        match self {
            Register::CellCount => 5000,
            Register::CellVoltage(n) => 5000 + *n as u16,
            Register::CellTemperatureCount => 5017,
            Register::CellTemperature(n) => 5017 + *n as u16,
            Register::BmsTemperature => 5035,
            Register::EnvironmentTemperatureCount => 5036,
            Register::EnvironmentTemperature(n) => 5036 + *n as u16,
            Register::HeaterTemperatureCount => 5039,
            Register::HeaterTemperature(n) => 5039 + *n as u16,
            Register::Current => 5042,
            Register::ModuleVoltage => 5043,
            Register::RemainingCapacity => 5044,
            Register::TotalCapacity => 5046,
            Register::CycleNumber => 5048,
            Register::ChargeVoltageLimit => 5049,
            Register::DischargeVoltageLimit => 5050,
            Register::ChargeCurrentLimit => 5051,
            Register::DischargeCurrentLimit => 5052,
            Register::CellVoltageAlarmInfo => 5100,
            Register::CellTemperatureAlarmInfo => 5102,
            Register::OtherAlarmInfo => 5104,
            Register::Status1 => 5106,
            Register::Status2 => 5107,
            Register::Status3 => 5108,
            Register::ChargeDischargeStatus => 5109,
            Register::SnNumber => 5110,
            Register::ManufactureVersion => 5118,
            Register::MainlineVersion => 5119,
            Register::CommunicationProtocolVersion => 5121,
            Register::BatteryName => 5122,
            Register::SoftwareVersion => 5130,
            Register::ManufacturerName => 5132,
            Register::CellOverVoltageLimit => 5200,
            Register::CellHighVoltageLimit => 5201,
            Register::CellLowVoltageLimit => 5202,
            Register::CellUnderVoltageLimit => 5203,
            Register::ChargeOverTemperatureLimit => 5204,
            Register::ChargeHighTemperatureLimit => 5205,
            Register::ChargeLowTemperatureLimit => 5206,
            Register::ChargeUnderTemperatureLimit => 5207,
            Register::ChargeOver2CurrentLimit => 5208,
            Register::ChargeOver1CurrentLimit => 5209,
            Register::ChargeHighCurrentLimit => 5210,
            Register::ModuleOverVoltageLimit => 5211,
            Register::ModuleHighVoltageLimit => 5212,
            Register::ModuleLowVoltageLimit => 5213,
            Register::ModuleUnderVoltageLimit => 5214,
            Register::DischargeOverTemperatureLimit => 5215,
            Register::DischargeHighTemperatureLimit => 5216,
            Register::DischargeLowTemperatureLimit => 5217,
            Register::DischargeUnderTemperatureLimit => 5218,
            Register::DischargeOver2CurrentLimit => 5219,
            Register::DischargeOver1CurrentLimit => 5220,
            Register::DischargeHighCurrentLimit => 5221,
            Register::ShutdownCommand => 5222,
            Register::DeviceId => 5223,
            Register::LockControl => 5224,
            Register::TestReady => 5225,
            Register::UniqueIdentificationCode => 5226,
            Register::ChargePowerSetting => 5228,
            Register::DischargePowerSetting => 5229,
            Register::AcpBroadcast => 61440,
            Register::AcpConfigure => 61441,
            Register::AcpShake => 61442,
        }
    }

    pub fn quantity(&self) -> (r: u16)
        ensures
            r == quantity_of(*self),
            1 <= r <= 10,
    {
        match self {
            Register::RemainingCapacity
            | Register::TotalCapacity
            | Register::CellVoltageAlarmInfo
            | Register::CellTemperatureAlarmInfo
            | Register::OtherAlarmInfo
            | Register::MainlineVersion
            | Register::SoftwareVersion
            | Register::UniqueIdentificationCode => 2,
            Register::SnNumber
            | Register::BatteryName => 8,
            Register::ManufacturerName => 10,
            _ => 1,
        }
    }

    pub fn kind(&self) -> (r: RegisterKind)
        ensures
            r == kind_of(*self),
    {
        match self {
            Register::CellCount
            | Register::CellTemperatureCount
            | Register::EnvironmentTemperatureCount
            | Register::HeaterTemperatureCount
            | Register::CycleNumber
            | Register::ShutdownCommand
            | Register::DeviceId
            | Register::LockControl
            | Register::TestReady
            | Register::ChargePowerSetting
            | Register::DischargePowerSetting
            | Register::AcpBroadcast
            | Register::AcpConfigure
            | Register::AcpShake => RegisterKind::Integer,
            Register::CellVoltage(_)
            | Register::ModuleVoltage
            | Register::ChargeVoltageLimit
            | Register::DischargeVoltageLimit
            | Register::CellOverVoltageLimit
            | Register::CellHighVoltageLimit
            | Register::CellLowVoltageLimit
            | Register::CellUnderVoltageLimit
            | Register::ModuleOverVoltageLimit
            | Register::ModuleHighVoltageLimit
            | Register::ModuleLowVoltageLimit
            | Register::ModuleUnderVoltageLimit => RegisterKind::Voltage,
            Register::CellTemperature(_)
            | Register::BmsTemperature
            | Register::EnvironmentTemperature(_)
            | Register::HeaterTemperature(_) => RegisterKind::Temperature,
            Register::ChargeOverTemperatureLimit
            | Register::ChargeHighTemperatureLimit
            | Register::ChargeLowTemperatureLimit
            | Register::ChargeUnderTemperatureLimit
            | Register::DischargeOverTemperatureLimit
            | Register::DischargeHighTemperatureLimit
            | Register::DischargeLowTemperatureLimit
            | Register::DischargeUnderTemperatureLimit => RegisterKind::SignedTemperature,
            Register::Current
            | Register::DischargeCurrentLimit => RegisterKind::SignedCurrent,
            Register::ChargeCurrentLimit
            | Register::ChargeOver2CurrentLimit
            | Register::ChargeOver1CurrentLimit
            | Register::ChargeHighCurrentLimit
            | Register::DischargeOver2CurrentLimit
            | Register::DischargeOver1CurrentLimit
            | Register::DischargeHighCurrentLimit => RegisterKind::Current,
            Register::RemainingCapacity
            | Register::TotalCapacity => RegisterKind::Capacity,
            Register::SnNumber
            | Register::ManufactureVersion
            | Register::MainlineVersion
            | Register::CommunicationProtocolVersion
            | Register::BatteryName
            | Register::SoftwareVersion
            | Register::ManufacturerName => RegisterKind::Text,
            Register::CellVoltageAlarmInfo => RegisterKind::CellVoltageAlarms,
            Register::CellTemperatureAlarmInfo => RegisterKind::CellTemperatureAlarms,
            Register::OtherAlarmInfo => RegisterKind::OtherAlarms,
            Register::Status1 => RegisterKind::Status1,
            Register::Status2 => RegisterKind::Status2,
            Register::Status3 => RegisterKind::Status3,
            Register::ChargeDischargeStatus => RegisterKind::ChargeDischargeStatus,
            Register::UniqueIdentificationCode => RegisterKind::Integer32,
        }
    }

    pub fn is_writable(&self) -> (r: bool)
        ensures
            r == writable(*self),
    {
        match self {
            Register::ChargeVoltageLimit
            | Register::DischargeVoltageLimit
            | Register::ChargeCurrentLimit
            | Register::DischargeCurrentLimit
            | Register::CellOverVoltageLimit
            | Register::CellHighVoltageLimit
            | Register::CellLowVoltageLimit
            | Register::CellUnderVoltageLimit
            | Register::ChargeOverTemperatureLimit
            | Register::ChargeHighTemperatureLimit
            | Register::ChargeLowTemperatureLimit
            | Register::ChargeUnderTemperatureLimit
            | Register::ChargeOver2CurrentLimit
            | Register::ChargeOver1CurrentLimit
            | Register::ChargeHighCurrentLimit
            | Register::ModuleOverVoltageLimit
            | Register::ModuleHighVoltageLimit
            | Register::ModuleLowVoltageLimit
            | Register::ModuleUnderVoltageLimit
            | Register::DischargeOverTemperatureLimit
            | Register::DischargeHighTemperatureLimit
            | Register::DischargeLowTemperatureLimit
            | Register::DischargeUnderTemperatureLimit
            | Register::DischargeOver2CurrentLimit
            | Register::DischargeOver1CurrentLimit
            | Register::DischargeHighCurrentLimit
            | Register::ShutdownCommand
            | Register::DeviceId
            | Register::LockControl
            | Register::TestReady
            | Register::UniqueIdentificationCode
            | Register::ChargePowerSetting
            | Register::DischargePowerSetting
            | Register::AcpBroadcast
            | Register::AcpConfigure
            | Register::AcpShake => true,
            _ => false,
        }
    }

    /// Reads the value of this register from its words as a transport
    /// returns them.
    pub fn parse_registers(&self, registers: &[u16]) -> (r: Value)
        requires
            registers@.len() >= quantity_of(*self),
        ensures
            r@ == decode_value(*self, word_bytes(registers@)),
    {
        let mut data: Vec<u8> = Vec::new();
        let mut i: usize = 0;
        while i < registers.len()
            invariant
                i <= registers@.len(),
                data@ =~= word_bytes(registers@.subrange(0, i as int)),
            decreases registers@.len() - i,
        {
            word_to_bytes(registers[i], &mut data);
            assert(data@ =~= word_bytes(registers@.subrange(0, i + 1)));
            i = i + 1;
        }
        assert(registers@.subrange(0, i as int) =~= registers@);
        self.parse_value(data.as_slice())
    }

    /// Reads the value of this register from its bytes, each word high byte
    /// first.
    pub fn parse_value(&self, data: &[u8]) -> (r: Value)
        requires
            data@.len() >= 2 * quantity_of(*self),
        ensures
            r@ == decode_value(*self, data@),
    {
        match self.kind() {
            RegisterKind::Integer => Value::Integer(read_u16(data, 0) as u32),
            RegisterKind::Voltage => Value::ElectricPotential(
                ElectricPotential { millivolts: 100 * read_u16(data, 0) as i64 },
            ),
            RegisterKind::Temperature => Value::ThermodynamicTemperature(
                ThermodynamicTemperature { millidegrees_celsius: 100 * read_u16(data, 0) as i64 },
            ),
            RegisterKind::SignedTemperature => {
                let u = read_u16(data, 0) as i64;
                let s: i64 = if u >= 32768 { u - 65536 } else { u };
                Value::ThermodynamicTemperature(
                    ThermodynamicTemperature { millidegrees_celsius: 100 * s },
                )
            },
            RegisterKind::SignedCurrent => {
                let u = read_u16(data, 0) as i64;
                let s: i64 = if u >= 32768 { u - 65536 } else { u };
                Value::ElectricCurrent(ElectricCurrent { milliamps: 10 * s })
            },
            RegisterKind::Current => Value::ElectricCurrent(
                ElectricCurrent { milliamps: 10 * read_u16(data, 0) as i64 },
            ),
            RegisterKind::Capacity => Value::ElectricCurrent(
                ElectricCurrent { milliamps: read_u32(data) as i64 },
            ),
            RegisterKind::Text => Value::String(decode_utf8_lossy(data)),
            RegisterKind::CellVoltageAlarms => {
                let bits = read_u32(data);
                let a = CellVoltageAlarms::from_bits(bits);
                assert(a.alarms@ =~= Seq::new(16, |i: int| voltage_alarm_of(bits, i as u32)));
                Value::CellVoltageAlarms(a)
            },
            RegisterKind::CellTemperatureAlarms => {
                let bits = read_u32(data);
                let a = CellTemperatureAlarms::from_bits(bits);
                assert(a.alarms@ =~= Seq::new(16, |i: int| temperature_alarm_of(bits, i as u32)));
                Value::CellTemperatureAlarms(a)
            },
            RegisterKind::OtherAlarms => Value::OtherAlarmInfo(OtherAlarmInfo::from_bits(read_u32(data))),
            RegisterKind::Status1 => Value::Status1(Status1::from_bits(read_u16(data, 0))),
            RegisterKind::Status2 => Value::Status2(Status2::from_bits(read_u16(data, 0))),
            RegisterKind::Status3 => Value::Status3(Status3::from_bits(read_u16(data, 0))),
            RegisterKind::ChargeDischargeStatus => Value::ChargeDischargeStatus(
                ChargeDischargeStatus::from_bits(read_u16(data, 0)),
            ),
            RegisterKind::Integer32 => Value::Integer(read_u32(data)),
        }
    }

    /// The bytes that write `value` to this register. A read-only register,
    /// or a value of another kind than the register holds, is
    /// `UnsupportedOperation`.
    pub fn serialize_value(&self, value: &Value) -> (r: Result<Vec<u8>, RenogyError>)
        ensures
            match r {
                Ok(bytes) => encode_value(*self, value@) == Some(bytes@),
                Err(e) => encode_value(*self, value@) is None && e == RenogyError::UnsupportedOperation,
            },
    {
        if !self.is_writable() {
            return Err(RenogyError::UnsupportedOperation);
        }
        let mut data: Vec<u8> = Vec::new();
        match (self.kind(), value) {
            (RegisterKind::Voltage, Value::ElectricPotential(p)) => {
                word_to_bytes(scale_unsigned(p.millivolts, 100), &mut data);
            },
            (RegisterKind::Current, Value::ElectricCurrent(c)) => {
                word_to_bytes(scale_unsigned(c.milliamps, 10), &mut data);
            },
            (RegisterKind::SignedCurrent, Value::ElectricCurrent(c)) => {
                word_to_bytes(scale_signed(c.milliamps, 10), &mut data);
            },
            (RegisterKind::SignedTemperature, Value::ThermodynamicTemperature(t)) => {
                word_to_bytes(scale_signed(t.millidegrees_celsius, 100), &mut data);
            },
            (RegisterKind::Integer, Value::Integer(n)) => {
                word_to_bytes((*n % 65536) as u16, &mut data);
            },
            (RegisterKind::Integer32, Value::Integer(n)) => {
                word_to_bytes((*n / 65536) as u16, &mut data);
                word_to_bytes((*n % 65536) as u16, &mut data);
                assert(data@ =~= be32_bytes(*n as int));
            },
            _ => {
                return Err(RenogyError::UnsupportedOperation);
            },
        }
        Ok(data)
    }
}

/// Writing a value that fits a writable register and reading the register
/// back gives the value again, to within one step of the register's scale.
pub proof fn lemma_write_read_round_trip(r: Register, v: ValueView)
    requires
        writable(r),
        fits_register(r, v),
    ensures
        encode_value(r, v) is Some,
        within_step(decode_value(r, encode_value(r, v)->Some_0), v, step_of(kind_of(r))),
{
    let bytes = encode_value(r, v)->Some_0;
    match (kind_of(r), v) {
        (RegisterKind::Voltage, ValueView::ElectricPotential(p)) => {
            let q = p.millivolts as int / 100;
            assert(be16(bytes, 0) == q);
        },
        (RegisterKind::Current, ValueView::ElectricCurrent(c)) => {
            let q = c.milliamps as int / 10;
            assert(be16(bytes, 0) == q);
        },
        (RegisterKind::SignedCurrent, ValueView::ElectricCurrent(c)) => {
            let q = trunc_div(c.milliamps as int, 10);
            assert(-32768 <= q <= 32767);
            assert(be16(bytes, 0) == word_of_signed(q));
            assert(signed16(be16(bytes, 0)) == q);
        },
        (RegisterKind::SignedTemperature, ValueView::ThermodynamicTemperature(t)) => {
            let q = trunc_div(t.millidegrees_celsius as int, 100);
            assert(-32768 <= q <= 32767);
            assert(be16(bytes, 0) == word_of_signed(q));
            assert(signed16(be16(bytes, 0)) == q);
        },
        (RegisterKind::Integer, ValueView::Integer(n)) => {
            assert(be16(bytes, 0) == n);
        },
        (RegisterKind::Integer32, ValueView::Integer(n)) => {
            assert(be32(bytes) == n);
        },
        _ => {},
    }
}

} // verus!
