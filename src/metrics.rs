//! The measurements exported for each snapshot, in export order. Values are
//! fixed-point with three decimals: `value_milli` is the value times 1000 in
//! the unit of the metric (volts, amps, amp-hours, degrees Celsius, percent,
//! counts, raw words, or 0/1 gauges).
use crate::alarm::{ChargeDischargeStatus, Status1, Status2};
use crate::query::{BatteryInfo, BatteryInfoView};
use crate::summary::views;
use vstd::prelude::*;

verus! {

/// Label set of a per-battery metric.
#[derive(Debug, Clone, PartialEq, Eq, Hash)]
pub struct BatteryLabels {
    pub battery: String,
}

/// Label set of a per-cell metric; the cell number is 1-based.
#[derive(Debug, Clone, PartialEq, Eq, Hash)]
pub struct CellLabels {
    pub battery: String,
    pub cell: String,
}

/// Label set of a per-sensor metric; the sensor number is 1-based.
#[derive(Debug, Clone, PartialEq, Eq, Hash)]
pub struct SensorLabels {
    pub battery: String,
    pub sensor: String,
}

/// One exported sample of one metric.
#[derive(Debug, Clone, PartialEq, Eq)]
pub struct Measurement {
    pub name: &'static str,
    /// The `battery` tag: the serial number.
    pub battery: String,
    /// The `cell` or `sensor` tag and its 1-based index, for per-cell and
    /// per-sensor metrics.
    pub label: Option<(&'static str, u32)>,
    pub value_milli: i128,
    pub timestamp_nanos: i64,
}

/// The mathematical value of a [`Measurement`].
pub struct MeasurementView {
    pub name: Seq<char>,
    pub battery: Seq<char>,
    pub label: Option<(Seq<char>, u32)>,
    pub value_milli: int,
    pub timestamp_nanos: i64,
}

impl View for Measurement {
    type V = MeasurementView;

    open spec fn view(&self) -> MeasurementView {
        MeasurementView {
            name: self.name@,
            battery: self.battery@,
            label: match self.label {
                Some((t, i)) => Some((t@, i)),
                None => None,
            },
            value_milli: self.value_milli as int,
            timestamp_nanos: self.timestamp_nanos,
        }
    }
}

pub open spec fn mviews(s: Seq<Measurement>) -> Seq<MeasurementView> {
    s.map_values(|m: Measurement| m@)
}

pub open spec fn single(name: Seq<char>, b: BatteryInfoView, value: int) -> MeasurementView {
    MeasurementView { name, battery: b.serial, label: None, value_milli: value, timestamp_nanos: b.timestamp_nanos }
}

/// One measurement per element of `xs`, tagged `tag` with 1-based indexes.
pub open spec fn series(name: Seq<char>, b: BatteryInfoView, tag: Seq<char>, xs: Seq<i64>) -> Seq<MeasurementView> {
    Seq::new(
        xs.len(),
        |i: int|
            MeasurementView {
                name,
                battery: b.serial,
                label: Some((tag, (i + 1) as u32)),
                value_milli: xs[i] as int,
                timestamp_nanos: b.timestamp_nanos,
            },
    )
}

/// A measurement when the value is present, none otherwise.
pub open spec fn optional(name: Seq<char>, b: BatteryInfoView, x: Option<i64>) -> Seq<MeasurementView> {
    match x {
        Some(v) => seq![single(name, b, v as int)],
        None => Seq::empty(),
    }
}

pub open spec fn gauge(on: bool) -> int {
    if on {
        1000
    } else {
        0
    }
}

pub open spec fn series_part(b: BatteryInfoView) -> Seq<MeasurementView> {
    series("renogy_cell_voltage"@, b, "cell"@, b.cell_voltages)
        + series("renogy_cell_temperature"@, b, "cell"@, b.cell_temperatures)
        + optional("renogy_bms_temperature"@, b, b.bms_temperature)
        + series("renogy_environment_temperature"@, b, "sensor"@, b.environment_temperatures)
        + series("renogy_heater_temperature"@, b, "sensor"@, b.heater_temperatures)
}

pub open spec fn scalar_part(b: BatteryInfoView) -> Seq<MeasurementView> {
    seq![
        single("renogy_module_voltage"@, b, b.module_voltage as int),
        single("renogy_current"@, b, b.current as int),
        single("renogy_remaining_capacity_ah"@, b, b.remaining_capacity as int),
        single("renogy_total_capacity_ah"@, b, b.total_capacity as int),
        single("renogy_soc_percent"@, b, 10 * b.soc_hundredths_percent),
        single("renogy_cycle_count"@, b, 1000 * b.cycle_count),
    ]
}

pub open spec fn limit_part(b: BatteryInfoView) -> Seq<MeasurementView> {
    optional("renogy_charge_voltage_limit"@, b, b.charge_voltage_limit)
        + optional("renogy_discharge_voltage_limit"@, b, b.discharge_voltage_limit)
        + optional("renogy_charge_current_limit"@, b, b.charge_current_limit)
        + optional("renogy_discharge_current_limit"@, b, b.discharge_current_limit)
}

pub open spec fn status1_part(b: BatteryInfoView) -> Seq<MeasurementView> {
    match b.status1 {
        Some(s) => seq![
            single("renogy_status1"@, b, 1000 * s.bits),
            single("renogy_charge_mosfet_on"@, b, gauge(s.bits & Status1::CHARGE_MOSFET == Status1::CHARGE_MOSFET)),
            single(
                "renogy_discharge_mosfet_on"@,
                b,
                gauge(s.bits & Status1::DISCHARGE_MOSFET == Status1::DISCHARGE_MOSFET),
            ),
        ],
        None => Seq::empty(),
    }
}

pub open spec fn status2_part(b: BatteryInfoView) -> Seq<MeasurementView> {
    match b.status2 {
        Some(s) => seq![
            single("renogy_status2"@, b, 1000 * s.bits),
            single("renogy_fully_charged"@, b, gauge(s.bits & Status2::FULLY_CHARGED == Status2::FULLY_CHARGED)),
            single("renogy_heater_on"@, b, gauge(s.bits & Status2::HEATER_ON == Status2::HEATER_ON)),
        ],
        None => Seq::empty(),
    }
}

pub open spec fn word_part(b: BatteryInfoView) -> Seq<MeasurementView> {
    (match b.status3 {
        Some(s) => seq![single("renogy_status3"@, b, 1000 * s.bits)],
        None => Seq::empty(),
    }) + (match b.other_alarm_info {
        Some(s) => seq![single("renogy_other_alarm_info"@, b, 1000 * s.bits)],
        None => Seq::empty(),
    })
}

pub open spec fn control_part(b: BatteryInfoView) -> Seq<MeasurementView> {
    match b.charge_discharge_status {
        Some(s) => seq![
            single(
                "renogy_charge_enabled"@,
                b,
                gauge(s.bits & ChargeDischargeStatus::CHARGE_ENABLE == ChargeDischargeStatus::CHARGE_ENABLE),
            ),
            single(
                "renogy_discharge_enabled"@,
                b,
                gauge(
                    s.bits & ChargeDischargeStatus::DISCHARGE_ENABLE == ChargeDischargeStatus::DISCHARGE_ENABLE,
                ),
            ),
        ],
        None => Seq::empty(),
    }
}

/// Every measurement of one snapshot, in export order: cell voltages and
/// temperatures, BMS, environment and heater temperatures, the pack scalars,
/// the in-band limits, then the status words with the gauges derived from
/// them.
pub open spec fn measurements_of(b: BatteryInfoView) -> Seq<MeasurementView> {
    series_part(b) + scalar_part(b) + limit_part(b) + status1_part(b) + status2_part(b) + word_part(b)
        + control_part(b)
}

/// The measurements of a batch, snapshot after snapshot.
pub open spec fn batch_measurements_of(s: Seq<BatteryInfoView>) -> Seq<MeasurementView>
    decreases s.len(),
{
    if s.len() == 0 {
        Seq::empty()
    } else {
        batch_measurements_of(s.drop_last()) + measurements_of(s.last())
    }
}

fn push_one(out: &mut Vec<Measurement>, name: &'static str, info: &BatteryInfo, value: i128)
    ensures
        mviews(final(out)@) == mviews(old(out)@).push(single(name@, info@, value as int)),
{
    out.push(
        Measurement {
            name,
            battery: info.serial.clone(),
            label: None,
            value_milli: value,
            timestamp_nanos: info.timestamp_nanos,
        },
    );
    assert(mviews(final(out)@) =~= mviews(old(out)@).push(single(name@, info@, value as int)));
}

fn push_optional(out: &mut Vec<Measurement>, name: &'static str, info: &BatteryInfo, x: Option<i64>)
    ensures
        mviews(final(out)@) == mviews(old(out)@) + optional(name@, info@, x),
{
    match x {
        Some(v) => {
            push_one(out, name, info, v as i128);
        },
        None => {},
    }
    assert(mviews(final(out)@) =~= mviews(old(out)@) + optional(name@, info@, x));
}

fn push_series(
    out: &mut Vec<Measurement>,
    name: &'static str,
    info: &BatteryInfo,
    tag: &'static str,
    xs: &Vec<i64>,
)
    requires
        xs@.len() < u32::MAX,
    ensures
        mviews(final(out)@) == mviews(old(out)@) + series(name@, info@, tag@, xs@),
{
    let mut i: usize = 0;
    while i < xs.len()
        invariant
            i <= xs@.len() < u32::MAX,
            mviews(out@) == mviews(old(out)@) + series(name@, info@, tag@, xs@.subrange(0, i as int)),
        decreases xs@.len() - i,
    {
        let ghost before = out@;
        out.push(
            Measurement {
                name,
                battery: info.serial.clone(),
                label: Some((tag, (i + 1) as u32)),
                value_milli: xs[i] as i128,
                timestamp_nanos: info.timestamp_nanos,
            },
        );
        assert(mviews(out@) =~= mviews(before).push(out@.last()@));
        assert(mviews(out@) =~= mviews(old(out)@) + series(name@, info@, tag@, xs@.subrange(0, i + 1)));
        i = i + 1;
    }
    assert(xs@.subrange(0, i as int) =~= xs@);
}

fn gauge_value(on: bool) -> (r: i128)
    ensures
        r == gauge(on),
{
    if on {
        1000
    } else {
        0
    }
}

fn push_series_part(out: &mut Vec<Measurement>, info: &BatteryInfo)
    requires
        info.cell_voltages@.len() < u32::MAX,
        info.cell_temperatures@.len() < u32::MAX,
        info.environment_temperatures@.len() < u32::MAX,
        info.heater_temperatures@.len() < u32::MAX,
    ensures
        mviews(final(out)@) == mviews(old(out)@) + series_part(info@),
{
    push_series(out, "renogy_cell_voltage", info, "cell", &info.cell_voltages);
    push_series(out, "renogy_cell_temperature", info, "cell", &info.cell_temperatures);
    push_optional(out, "renogy_bms_temperature", info, info.bms_temperature);
    push_series(out, "renogy_environment_temperature", info, "sensor", &info.environment_temperatures);
    push_series(out, "renogy_heater_temperature", info, "sensor", &info.heater_temperatures);
    assert(mviews(final(out)@) =~= mviews(old(out)@) + series_part(info@));
}

fn push_scalar_part(out: &mut Vec<Measurement>, info: &BatteryInfo)
    ensures
        mviews(final(out)@) == mviews(old(out)@) + scalar_part(info@),
{
    push_one(out, "renogy_module_voltage", info, info.module_voltage as i128);
    push_one(out, "renogy_current", info, info.current as i128);
    push_one(out, "renogy_remaining_capacity_ah", info, info.remaining_capacity as i128);
    push_one(out, "renogy_total_capacity_ah", info, info.total_capacity as i128);
    push_one(out, "renogy_soc_percent", info, 10 * info.soc_hundredths_percent as i128);
    push_one(out, "renogy_cycle_count", info, 1000 * info.cycle_count as i128);
    assert(mviews(final(out)@) =~= mviews(old(out)@) + scalar_part(info@));
}

fn push_limit_part(out: &mut Vec<Measurement>, info: &BatteryInfo)
    ensures
        mviews(final(out)@) == mviews(old(out)@) + limit_part(info@),
{
    push_optional(out, "renogy_charge_voltage_limit", info, info.charge_voltage_limit);
    push_optional(out, "renogy_discharge_voltage_limit", info, info.discharge_voltage_limit);
    push_optional(out, "renogy_charge_current_limit", info, info.charge_current_limit);
    push_optional(out, "renogy_discharge_current_limit", info, info.discharge_current_limit);
    assert(mviews(final(out)@) =~= mviews(old(out)@) + limit_part(info@));
}

fn push_status1_part(out: &mut Vec<Measurement>, info: &BatteryInfo)
    ensures
        mviews(final(out)@) == mviews(old(out)@) + status1_part(info@),
{
    if let Some(s) = info.status1 {
        push_one(out, "renogy_status1", info, 1000 * s.bits as i128);
        push_one(out, "renogy_charge_mosfet_on", info, gauge_value(s.contains(Status1::CHARGE_MOSFET)));
        push_one(out, "renogy_discharge_mosfet_on", info, gauge_value(s.contains(Status1::DISCHARGE_MOSFET)));
    }
    assert(mviews(final(out)@) =~= mviews(old(out)@) + status1_part(info@));
}

fn push_status2_part(out: &mut Vec<Measurement>, info: &BatteryInfo)
    ensures
        mviews(final(out)@) == mviews(old(out)@) + status2_part(info@),
{
    if let Some(s) = info.status2 {
        push_one(out, "renogy_status2", info, 1000 * s.bits as i128);
        push_one(out, "renogy_fully_charged", info, gauge_value(s.contains(Status2::FULLY_CHARGED)));
        push_one(out, "renogy_heater_on", info, gauge_value(s.contains(Status2::HEATER_ON)));
    }
    assert(mviews(final(out)@) =~= mviews(old(out)@) + status2_part(info@));
}

fn push_word_part(out: &mut Vec<Measurement>, info: &BatteryInfo)
    ensures
        mviews(final(out)@) == mviews(old(out)@) + word_part(info@),
{
    if let Some(s) = info.status3 {
        push_one(out, "renogy_status3", info, 1000 * s.bits as i128);
    }
    if let Some(s) = info.other_alarm_info {
        push_one(out, "renogy_other_alarm_info", info, 1000 * s.bits as i128);
    }
    assert(mviews(final(out)@) =~= mviews(old(out)@) + word_part(info@));
}

fn push_control_part(out: &mut Vec<Measurement>, info: &BatteryInfo)
    ensures
        mviews(final(out)@) == mviews(old(out)@) + control_part(info@),
{
    if let Some(s) = info.charge_discharge_status {
        push_one(out, "renogy_charge_enabled", info, gauge_value(s.contains(ChargeDischargeStatus::CHARGE_ENABLE)));
        push_one(
            out,
            "renogy_discharge_enabled",
            info,
            gauge_value(s.contains(ChargeDischargeStatus::DISCHARGE_ENABLE)),
        );
    }
    assert(mviews(final(out)@) =~= mviews(old(out)@) + control_part(info@));
}

/// Appends the measurements of one snapshot to `out`.
pub fn push_measurements(out: &mut Vec<Measurement>, info: &BatteryInfo)
    requires
        info.cell_voltages@.len() < u32::MAX,
        info.cell_temperatures@.len() < u32::MAX,
        info.environment_temperatures@.len() < u32::MAX,
        info.heater_temperatures@.len() < u32::MAX,
    ensures
        mviews(final(out)@) == mviews(old(out)@) + measurements_of(info@),
{
    push_series_part(out, info);
    push_scalar_part(out, info);
    push_limit_part(out, info);
    push_status1_part(out, info);
    push_status2_part(out, info);
    push_word_part(out, info);
    push_control_part(out, info);
    assert(mviews(final(out)@) =~= mviews(old(out)@) + measurements_of(info@));
}

/// The measurements of a batch of snapshots, snapshot after snapshot.
pub fn batch_measurements(samples: &[BatteryInfo]) -> (r: Vec<Measurement>)
    requires
        forall|i: int|
            0 <= i < samples@.len() ==> {
                &&& (#[trigger] samples@[i]).cell_voltages@.len() < u32::MAX
                &&& samples@[i].cell_temperatures@.len() < u32::MAX
                &&& samples@[i].environment_temperatures@.len() < u32::MAX
                &&& samples@[i].heater_temperatures@.len() < u32::MAX
            },
    ensures
        mviews(r@) == batch_measurements_of(views(samples@)),
{
    let mut out: Vec<Measurement> = Vec::new();
    let mut i: usize = 0;
    while i < samples.len()
        invariant
            i <= samples@.len(),
            forall|j: int|
                0 <= j < samples@.len() ==> {
                    &&& (#[trigger] samples@[j]).cell_voltages@.len() < u32::MAX
                    &&& samples@[j].cell_temperatures@.len() < u32::MAX
                    &&& samples@[j].environment_temperatures@.len() < u32::MAX
                    &&& samples@[j].heater_temperatures@.len() < u32::MAX
                },
            mviews(out@) == batch_measurements_of(views(samples@).subrange(0, i as int)),
        decreases samples@.len() - i,
    {
        push_measurements(&mut out, &samples[i]);
        assert(views(samples@).subrange(0, i + 1).drop_last() =~= views(samples@).subrange(0, i as int));
        i = i + 1;
    }
    assert(views(samples@).subrange(0, i as int) =~= views(samples@));
    out
}

} // verus!
