//! Names of the alarm flags that are set in a snapshot.
use crate::query::{BatteryInfo, BatteryInfoView};
use vstd::prelude::*;

verus! {

/// The names of the flags of `table` whose bits are all set in `bits`, in
/// table order.
pub open spec fn named_flags(bits: u32, table: Seq<(u32, &'static str)>) -> Seq<&'static str>
    decreases table.len(),
{
    if table.len() == 0 {
        Seq::empty()
    } else {
        let rest = named_flags(bits, table.drop_last());
        if bits & table.last().0 == table.last().0 {
            rest.push(table.last().1)
        } else {
            rest
        }
    }
}

/// Status1 flags that are alarms, in declaration order; MOSFET states and the module-power flag are not alarms.
pub open spec fn status1_alarm_table() -> Seq<(u32, &'static str)> {
    seq![
        (0x8000u32, "MODULE_UNDER_VOLTAGE"),
        (0x4000u32, "CHARGE_OVER_TEMP"),
        (0x2000u32, "CHARGE_UNDER_TEMP"),
        (0x1000u32, "DISCHARGE_OVER_TEMP"),
        (0x800u32, "DISCHARGE_UNDER_TEMP"),
        (0x400u32, "DISCHARGE_OVER_CURRENT1"),
        (0x200u32, "CHARGE_OVER_CURRENT1"),
        (0x100u32, "CELL_OVER_VOLTAGE"),
        (0x80u32, "CELL_UNDER_VOLTAGE"),
        (0x40u32, "MODULE_OVER_VOLTAGE"),
        (0x20u32, "DISCHARGE_OVER_CURRENT2"),
        (0x10u32, "CHARGE_OVER_CURRENT2"),
        (0x1u32, "SHORT_CIRCUIT"),
    ]
}

fn status1_alarm_flags() -> (r: Vec<(u32, &'static str)>)
    ensures
        r@ == status1_alarm_table(),
{
    let r = vec![
        (0x8000u32, "MODULE_UNDER_VOLTAGE"),
        (0x4000u32, "CHARGE_OVER_TEMP"),
        (0x2000u32, "CHARGE_UNDER_TEMP"),
        (0x1000u32, "DISCHARGE_OVER_TEMP"),
        (0x800u32, "DISCHARGE_UNDER_TEMP"),
        (0x400u32, "DISCHARGE_OVER_CURRENT1"),
        (0x200u32, "CHARGE_OVER_CURRENT1"),
        (0x100u32, "CELL_OVER_VOLTAGE"),
        (0x80u32, "CELL_UNDER_VOLTAGE"),
        (0x40u32, "MODULE_OVER_VOLTAGE"),
        (0x20u32, "DISCHARGE_OVER_CURRENT2"),
        (0x10u32, "CHARGE_OVER_CURRENT2"),
        (0x1u32, "SHORT_CIRCUIT"),
    ];
    assert(r@ =~= status1_alarm_table());
    r
}

/// Status2 flags that are alarms; current direction, heater and full charge are not.
pub open spec fn status2_alarm_table() -> Seq<(u32, &'static str)> {
    seq![
        (0x100u32, "BUZZER"),
        (0x80u32, "DISCHARGE_HIGH_TEMP_WARN"),
        (0x40u32, "DISCHARGE_LOW_TEMP_WARN"),
        (0x20u32, "CHARGE_HIGH_TEMP_WARN"),
        (0x10u32, "CHARGE_LOW_TEMP_WARN"),
        (0x8u32, "MODULE_HIGH_VOLTAGE_WARN"),
        (0x4u32, "MODULE_LOW_VOLTAGE_WARN"),
        (0x2u32, "CELL_HIGH_VOLTAGE_WARN"),
        (0x1u32, "CELL_LOW_VOLTAGE_WARN"),
    ]
}

fn status2_alarm_flags() -> (r: Vec<(u32, &'static str)>)
    ensures
        r@ == status2_alarm_table(),
{
    let r = vec![
        (0x100u32, "BUZZER"),
        (0x80u32, "DISCHARGE_HIGH_TEMP_WARN"),
        (0x40u32, "DISCHARGE_LOW_TEMP_WARN"),
        (0x20u32, "CHARGE_HIGH_TEMP_WARN"),
        (0x10u32, "CHARGE_LOW_TEMP_WARN"),
        (0x8u32, "MODULE_HIGH_VOLTAGE_WARN"),
        (0x4u32, "MODULE_LOW_VOLTAGE_WARN"),
        (0x2u32, "CELL_HIGH_VOLTAGE_WARN"),
        (0x1u32, "CELL_LOW_VOLTAGE_WARN"),
    ];
    assert(r@ =~= status2_alarm_table());
    r
}

/// Status3 flags: the per-cell voltage-read errors.
pub open spec fn status3_alarm_table() -> Seq<(u32, &'static str)> {
    seq![
        (0x1u32, "CELL_1_VOLTAGE_ERROR"),
        (0x2u32, "CELL_2_VOLTAGE_ERROR"),
        (0x4u32, "CELL_3_VOLTAGE_ERROR"),
        (0x8u32, "CELL_4_VOLTAGE_ERROR"),
        (0x10u32, "CELL_5_VOLTAGE_ERROR"),
        (0x20u32, "CELL_6_VOLTAGE_ERROR"),
        (0x40u32, "CELL_7_VOLTAGE_ERROR"),
        (0x80u32, "CELL_8_VOLTAGE_ERROR"),
        (0x100u32, "CELL_9_VOLTAGE_ERROR"),
        (0x200u32, "CELL_10_VOLTAGE_ERROR"),
        (0x400u32, "CELL_11_VOLTAGE_ERROR"),
        (0x800u32, "CELL_12_VOLTAGE_ERROR"),
        (0x1000u32, "CELL_13_VOLTAGE_ERROR"),
        (0x2000u32, "CELL_14_VOLTAGE_ERROR"),
        (0x4000u32, "CELL_15_VOLTAGE_ERROR"),
        (0x8000u32, "CELL_16_VOLTAGE_ERROR"),
    ]
}

fn status3_alarm_flags() -> (r: Vec<(u32, &'static str)>)
    ensures
        r@ == status3_alarm_table(),
{
    let r = vec![
        (0x1u32, "CELL_1_VOLTAGE_ERROR"),
        (0x2u32, "CELL_2_VOLTAGE_ERROR"),
        (0x4u32, "CELL_3_VOLTAGE_ERROR"),
        (0x8u32, "CELL_4_VOLTAGE_ERROR"),
        (0x10u32, "CELL_5_VOLTAGE_ERROR"),
        (0x20u32, "CELL_6_VOLTAGE_ERROR"),
        (0x40u32, "CELL_7_VOLTAGE_ERROR"),
        (0x80u32, "CELL_8_VOLTAGE_ERROR"),
        (0x100u32, "CELL_9_VOLTAGE_ERROR"),
        (0x200u32, "CELL_10_VOLTAGE_ERROR"),
        (0x400u32, "CELL_11_VOLTAGE_ERROR"),
        (0x800u32, "CELL_12_VOLTAGE_ERROR"),
        (0x1000u32, "CELL_13_VOLTAGE_ERROR"),
        (0x2000u32, "CELL_14_VOLTAGE_ERROR"),
        (0x4000u32, "CELL_15_VOLTAGE_ERROR"),
        (0x8000u32, "CELL_16_VOLTAGE_ERROR"),
    ];
    assert(r@ =~= status3_alarm_table());
    r
}

/// Other-alarm flags.
pub open spec fn other_alarm_table() -> Seq<(u32, &'static str)> {
    seq![
        (0x80000000u32, "BMS_OVER_TEMPERATURE"),
        (0x40000000u32, "BMS_UNDER_TEMPERATURE"),
        (0x20000000u32, "ENV_OVER_TEMPERATURE"),
        (0x10000000u32, "ENV_UNDER_TEMPERATURE"),
        (0x8000000u32, "HEATER_OVER_TEMPERATURE"),
        (0x4000000u32, "HEATER_UNDER_TEMPERATURE"),
        (0x200000u32, "CHARGE_OVER_CURRENT"),
        (0x80000u32, "DISCHARGE_OVER_CURRENT"),
    ]
}

fn other_alarm_flags() -> (r: Vec<(u32, &'static str)>)
    ensures
        r@ == other_alarm_table(),
{
    let r = vec![
        (0x80000000u32, "BMS_OVER_TEMPERATURE"),
        (0x40000000u32, "BMS_UNDER_TEMPERATURE"),
        (0x20000000u32, "ENV_OVER_TEMPERATURE"),
        (0x10000000u32, "ENV_UNDER_TEMPERATURE"),
        (0x8000000u32, "HEATER_OVER_TEMPERATURE"),
        (0x4000000u32, "HEATER_UNDER_TEMPERATURE"),
        (0x200000u32, "CHARGE_OVER_CURRENT"),
        (0x80000u32, "DISCHARGE_OVER_CURRENT"),
    ];
    assert(r@ =~= other_alarm_table());
    r
}

/// The names of the alarms set in a snapshot: Status1, Status2, Status3,
/// then the other-alarm word, each present only when its read succeeded.
pub open spec fn alarm_names(b: BatteryInfoView) -> Seq<&'static str> {
    (match b.status1 {
        Some(s) => named_flags(s.bits as u32, status1_alarm_table()),
        None => Seq::empty(),
    }) + (match b.status2 {
        Some(s) => named_flags(s.bits as u32, status2_alarm_table()),
        None => Seq::empty(),
    }) + (match b.status3 {
        Some(s) => named_flags(s.bits as u32, status3_alarm_table()),
        None => Seq::empty(),
    }) + (match b.other_alarm_info {
        Some(s) => named_flags(s.bits, other_alarm_table()),
        None => Seq::empty(),
    })
}

fn push_named(out: &mut Vec<&'static str>, bits: u32, table: &Vec<(u32, &'static str)>)
    ensures
        final(out)@ == old(out)@ + named_flags(bits, table@),
{
    let mut i: usize = 0;
    while i < table.len()
        invariant
            i <= table@.len(),
            out@ == old(out)@ + named_flags(bits, table@.subrange(0, i as int)),
        decreases table@.len() - i,
    {
        let (mask, name) = table[i];
        assert(table@.subrange(0, i + 1).drop_last() =~= table@.subrange(0, i as int));
        if bits & mask == mask {
            out.push(name);
        }
        assert(out@ =~= old(out)@ + named_flags(bits, table@.subrange(0, i + 1)));
        i = i + 1;
    }
    assert(table@.subrange(0, i as int) =~= table@);
}

/// The names of the alarms set in `battery`.
pub fn collect_alarms(battery: &BatteryInfo) -> (r: Vec<&'static str>)
    ensures
        r@ == alarm_names(battery@),
{
    let mut alarms: Vec<&'static str> = Vec::new();
    if let Some(s) = battery.status1 {
        push_named(&mut alarms, s.bits as u32, &status1_alarm_flags());
    }
    let ghost a1 = alarms@;
    if let Some(s) = battery.status2 {
        push_named(&mut alarms, s.bits as u32, &status2_alarm_flags());
    }
    let ghost a2 = alarms@;
    if let Some(s) = battery.status3 {
        push_named(&mut alarms, s.bits as u32, &status3_alarm_flags());
    }
    let ghost a3 = alarms@;
    if let Some(s) = battery.other_alarm_info {
        push_named(&mut alarms, s.bits, &other_alarm_flags());
    }
    assert(alarms@ =~= alarm_names(battery@));
    alarms
}

/// Whether any alarm is set in `battery`.
pub fn has_alarms(battery: &BatteryInfo) -> (r: bool)
    ensures
        r == (alarm_names(battery@).len() > 0),
{
    collect_alarms(battery).len() > 0
}

} // verus!
