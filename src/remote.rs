//! Snapshots rebuilt from the latest samples of a time-series database.
//!
//! The database is queried for every `renogy_*_value` series of one battery;
//! each sample arrives as its metric name, its `cell` or `sensor` index when
//! it has one, and its value times 1000.
use crate::query::{BatteryInfo, BatteryInfoView};
use crate::alarm::{Status1, Status2};
use vstd::prelude::*;

verus! {

/// One sample of a query result.
#[derive(Debug, Clone, PartialEq, Eq)]
pub struct RemoteSample {
    /// The metric name, such as `renogy_current_value`.
    pub name: String,
    /// The `cell` or `sensor` label as a number, when present and numeric.
    pub index: Option<u32>,
    /// The sample value times 1000.
    pub value_milli: i64,
}

/// Whether two strings hold the same characters.
pub fn str_eq(a: &str, b: &str) -> (r: bool)
    ensures
        r == (a@ == b@),
{
    let n = a.unicode_len();
    if n != b.unicode_len() {
        return false;
    }
    let mut i: usize = 0;
    while i < n
        invariant
            i <= n,
            n == a@.len(),
            n == b@.len(),
            a@.subrange(0, i as int) == b@.subrange(0, i as int),
        decreases n - i,
    {
        if a.get_char(i) != b.get_char(i) {
            return false;
        }
        assert(a@.subrange(0, i + 1) =~= a@.subrange(0, i as int).push(a@[i as int]));
        assert(b@.subrange(0, i + 1) =~= b@.subrange(0, i as int).push(b@[i as int]));
        i = i + 1;
    }
    assert(a@ =~= a@.subrange(0, n as int));
    assert(b@ =~= b@.subrange(0, n as int));
    true
}

/// The value of the last sample named `name`.
pub open spec fn last_value(s: Seq<RemoteSample>, name: Seq<char>) -> Option<i64>
    decreases s.len(),
{
    if s.len() == 0 {
        None
    } else if s.last().name@ == name {
        Some(s.last().value_milli)
    } else {
        last_value(s.drop_last(), name)
    }
}

/// The indexed samples named `name`, in arrival order.
pub open spec fn indexed_values(s: Seq<RemoteSample>, name: Seq<char>) -> Seq<(u32, i64)>
    decreases s.len(),
{
    if s.len() == 0 {
        Seq::empty()
    } else {
        let rest = indexed_values(s.drop_last(), name);
        if s.last().name@ == name && s.last().index is Some {
            rest.push((s.last().index->Some_0, s.last().value_milli))
        } else {
            rest
        }
    }
}

/// `x` inserted into `s` after every element whose index is not greater.
pub open spec fn insert_by_index(s: Seq<(u32, i64)>, x: (u32, i64)) -> Seq<(u32, i64)>
    decreases s.len(),
{
    if s.len() == 0 {
        seq![x]
    } else if s[0].0 > x.0 {
        seq![x] + s
    } else {
        seq![s[0]] + insert_by_index(s.drop_first(), x)
    }
}

/// The pairs ordered by index, pairs of equal index in arrival order.
pub open spec fn sort_by_index(s: Seq<(u32, i64)>) -> Seq<(u32, i64)>
    decreases s.len(),
{
    if s.len() == 0 {
        Seq::empty()
    } else {
        insert_by_index(sort_by_index(s.drop_last()), s.last())
    }
}

/// The values of a series, ordered by index.
pub open spec fn series_values(s: Seq<RemoteSample>, name: Seq<char>) -> Seq<i64> {
    sort_by_index(indexed_values(s, name)).map_values(|p: (u32, i64)| p.1)
}

/// Division by 1000 truncated toward zero, held to `0..=hi`.
pub open spec fn whole_units(v: i64, hi: int) -> int {
    if v < 1000 {
        0
    } else if v / 1000 > hi {
        hi
    } else {
        v / 1000
    }
}

/// Division by ten truncated toward zero.
pub open spec fn tenths(v: i64) -> int {
    if v >= 0 {
        v / 10
    } else {
        -((-v) / 10)
    }
}

proof fn lemma_insert_split(s: Seq<(u32, i64)>, x: (u32, i64), j: int)
    requires
        0 <= j <= s.len(),
        forall|k: int| 0 <= k < j ==> s[k].0 <= x.0,
        j < s.len() ==> s[j].0 > x.0,
    ensures
        insert_by_index(s, x) == s.subrange(0, j) + seq![x] + s.subrange(j, s.len() as int),
    decreases s.len(),
{
    if s.len() == 0 {
        assert(s.subrange(0, j) + seq![x] + s.subrange(j, s.len() as int) =~= seq![x]);
    } else if j == 0 {
        assert(s.subrange(0, j) + seq![x] + s.subrange(j, s.len() as int) =~= seq![x] + s);
    } else {
        let t = s.drop_first();
        assert forall|k: int| 0 <= k < j - 1 implies t[k].0 <= x.0 by {
            assert(t[k] == s[k + 1]);
        }
        lemma_insert_split(t, x, j - 1);
        assert(s.subrange(0, j) + seq![x] + s.subrange(j, s.len() as int) =~= seq![s[0]] + (t.subrange(
            0,
            j - 1,
        ) + seq![x] + t.subrange(j - 1, t.len() as int)));
    }
}

fn sorted_values(pairs: Vec<(u32, i64)>) -> (r: Vec<i64>)
    ensures
        r@ == sort_by_index(pairs@).map_values(|p: (u32, i64)| p.1),
{
    let mut sorted: Vec<(u32, i64)> = Vec::new();
    let mut i: usize = 0;
    while i < pairs.len()
        invariant
            i <= pairs@.len(),
            sorted@ == sort_by_index(pairs@.subrange(0, i as int)),
        decreases pairs@.len() - i,
    {
        let x = pairs[i];
        let mut j: usize = 0;
        while j < sorted.len() && sorted[j].0 <= x.0
            invariant
                j <= sorted@.len(),
                forall|k: int| 0 <= k < j ==> sorted@[k].0 <= x.0,
            decreases sorted@.len() - j,
        {
            j = j + 1;
        }
        proof {
            lemma_insert_split(sorted@, x, j as int);
            assert(pairs@.subrange(0, i + 1).drop_last() =~= pairs@.subrange(0, i as int));
        }
        sorted.insert(j, x);
        assert(sorted@ =~= sort_by_index(pairs@.subrange(0, i + 1)));
        i = i + 1;
    }
    assert(pairs@.subrange(0, i as int) =~= pairs@);
    let mut r: Vec<i64> = Vec::new();
    let mut k: usize = 0;
    while k < sorted.len()
        invariant
            k <= sorted@.len(),
            r@ == sorted@.subrange(0, k as int).map_values(|p: (u32, i64)| p.1),
        decreases sorted@.len() - k,
    {
        r.push(sorted[k].1);
        assert(r@ =~= sorted@.subrange(0, k + 1).map_values(|p: (u32, i64)| p.1));
        k = k + 1;
    }
    assert(sorted@.subrange(0, k as int) =~= sorted@);
    r
}

fn to_whole_units(v: i64, hi: u64) -> (r: u64)
    requires
        hi <= u32::MAX,
    ensures
        r == whole_units(v, hi as int),
{
    if v < 1000 {
        0
    } else if (v as u64) / 1000 > hi {
        hi
    } else {
        (v as u64) / 1000
    }
}

fn to_tenths(v: i64) -> (r: i64)
    ensures
        r == tenths(v),
{
    if v >= 0 {
        ((v as u64) / 10) as i64
    } else if v == i64::MIN {
        -922337203685477580
    } else {
        0 - (((0 - v) as u64) / 10) as i64
    }
}

/// The snapshot of battery `serial` that the latest samples describe, taken
/// at `now_nanos`; `None` when neither a module voltage nor a state of charge
/// is among them. For each scalar the last sample of its metric counts; each
/// series holds the indexed samples of its metric ordered by index. Identity
/// text other than the serial, the BMS temperature and the alarm words other
/// than Status1 and Status2 are not exported, and stay empty.
pub open spec fn rebuilt_snapshot(serial: Seq<char>, s: Seq<RemoteSample>, now_nanos: i64) -> Option<BatteryInfoView> {
    let mv = last_value(s, "renogy_module_voltage_value"@);
    let soc = last_value(s, "renogy_soc_percent_value"@);
    if mv is None && soc is None {
        None
    } else {
        let cells = series_values(s, "renogy_cell_voltage_value"@);
        Some(
            BatteryInfoView {
                timestamp_nanos: now_nanos,
                serial,
                model: Seq::empty(),
                software_version: Seq::empty(),
                manufacturer: Seq::empty(),
                cell_count: cells.len() as u32,
                cell_voltages: cells,
                cell_temperatures: series_values(s, "renogy_cell_temperature_value"@),
                bms_temperature: None,
                environment_temperatures: series_values(s, "renogy_environment_temperature_value"@),
                heater_temperatures: series_values(s, "renogy_heater_temperature_value"@),
                module_voltage: match mv {
                    Some(v) => v,
                    None => 0,
                },
                current: match last_value(s, "renogy_current_value"@) {
                    Some(v) => v,
                    None => 0,
                },
                remaining_capacity: match last_value(s, "renogy_remaining_capacity_ah_value"@) {
                    Some(v) => v,
                    None => 0,
                },
                total_capacity: match last_value(s, "renogy_total_capacity_ah_value"@) {
                    Some(v) => v,
                    None => 0,
                },
                soc_hundredths_percent: match soc {
                    Some(v) => tenths(v) as i64,
                    None => 0,
                },
                cycle_count: match last_value(s, "renogy_cycle_count_value"@) {
                    Some(v) => whole_units(v, u32::MAX as int) as u32,
                    None => 0,
                },
                charge_voltage_limit: last_value(s, "renogy_charge_voltage_limit_value"@),
                discharge_voltage_limit: last_value(s, "renogy_discharge_voltage_limit_value"@),
                charge_current_limit: last_value(s, "renogy_charge_current_limit_value"@),
                discharge_current_limit: last_value(s, "renogy_discharge_current_limit_value"@),
                status1: match last_value(s, "renogy_status1_value"@) {
                    Some(v) => Some(Status1 { bits: whole_units(v, 65535) as u16 }),
                    None => None,
                },
                status2: match last_value(s, "renogy_status2_value"@) {
                    Some(v) => Some(Status2 { bits: whole_units(v, 65535) as u16 }),
                    None => None,
                },
                status3: None,
                other_alarm_info: None,
                cell_voltage_alarms: None,
                cell_temperature_alarms: None,
                charge_discharge_status: None,
            },
        )
    }
}

/// Rebuilds the snapshot of battery `serial` from its latest samples.
pub fn snapshot_from_samples(serial: &str, samples: &[RemoteSample], now_nanos: i64) -> (r: Option<BatteryInfo>)
    requires
        samples@.len() <= u32::MAX,
    ensures
        match rebuilt_snapshot(serial@, samples@, now_nanos) {
            Some(v) => r is Some && r->Some_0@ == v,
            None => r is None,
        },
{
    let mut module_voltage: Option<i64> = None;
    let mut current: Option<i64> = None;
    let mut soc: Option<i64> = None;
    let mut remaining: Option<i64> = None;
    let mut total: Option<i64> = None;
    let mut cycles: Option<i64> = None;
    let mut charge_voltage_limit: Option<i64> = None;
    let mut discharge_voltage_limit: Option<i64> = None;
    let mut charge_current_limit: Option<i64> = None;
    let mut discharge_current_limit: Option<i64> = None;
    let mut status1: Option<i64> = None;
    let mut status2: Option<i64> = None;
    let mut cells: Vec<(u32, i64)> = Vec::new();
    let mut cell_temps: Vec<(u32, i64)> = Vec::new();
    let mut env_temps: Vec<(u32, i64)> = Vec::new();
    let mut heater_temps: Vec<(u32, i64)> = Vec::new();
    let mut i: usize = 0;
    while i < samples.len()
        invariant
            i <= samples@.len() <= u32::MAX,
            module_voltage == last_value(samples@.subrange(0, i as int), "renogy_module_voltage_value"@),
            current == last_value(samples@.subrange(0, i as int), "renogy_current_value"@),
            soc == last_value(samples@.subrange(0, i as int), "renogy_soc_percent_value"@),
            remaining == last_value(samples@.subrange(0, i as int), "renogy_remaining_capacity_ah_value"@),
            total == last_value(samples@.subrange(0, i as int), "renogy_total_capacity_ah_value"@),
            cycles == last_value(samples@.subrange(0, i as int), "renogy_cycle_count_value"@),
            charge_voltage_limit == last_value(samples@.subrange(0, i as int), "renogy_charge_voltage_limit_value"@),
            discharge_voltage_limit == last_value(samples@.subrange(0, i as int), "renogy_discharge_voltage_limit_value"@),
            charge_current_limit == last_value(samples@.subrange(0, i as int), "renogy_charge_current_limit_value"@),
            discharge_current_limit == last_value(samples@.subrange(0, i as int), "renogy_discharge_current_limit_value"@),
            status1 == last_value(samples@.subrange(0, i as int), "renogy_status1_value"@),
            status2 == last_value(samples@.subrange(0, i as int), "renogy_status2_value"@),
            cells@ == indexed_values(samples@.subrange(0, i as int), "renogy_cell_voltage_value"@),
            cell_temps@ == indexed_values(samples@.subrange(0, i as int), "renogy_cell_temperature_value"@),
            env_temps@ == indexed_values(samples@.subrange(0, i as int), "renogy_environment_temperature_value"@),
            heater_temps@ == indexed_values(samples@.subrange(0, i as int), "renogy_heater_temperature_value"@),
            cells@.len() <= i,
        decreases samples@.len() - i,
    {
        let s = &samples[i];
        assert(samples@.subrange(0, i + 1).drop_last() =~= samples@.subrange(0, i as int));
        assert(samples@.subrange(0, i + 1).last() == *s);
        if str_eq(s.name.as_str(), "renogy_module_voltage_value") {
            module_voltage = Some(s.value_milli);
        }
        if str_eq(s.name.as_str(), "renogy_current_value") {
            current = Some(s.value_milli);
        }
        if str_eq(s.name.as_str(), "renogy_soc_percent_value") {
            soc = Some(s.value_milli);
        }
        if str_eq(s.name.as_str(), "renogy_remaining_capacity_ah_value") {
            remaining = Some(s.value_milli);
        }
        if str_eq(s.name.as_str(), "renogy_total_capacity_ah_value") {
            total = Some(s.value_milli);
        }
        if str_eq(s.name.as_str(), "renogy_cycle_count_value") {
            cycles = Some(s.value_milli);
        }
        if str_eq(s.name.as_str(), "renogy_charge_voltage_limit_value") {
            charge_voltage_limit = Some(s.value_milli);
        }
        if str_eq(s.name.as_str(), "renogy_discharge_voltage_limit_value") {
            discharge_voltage_limit = Some(s.value_milli);
        }
        if str_eq(s.name.as_str(), "renogy_charge_current_limit_value") {
            charge_current_limit = Some(s.value_milli);
        }
        if str_eq(s.name.as_str(), "renogy_discharge_current_limit_value") {
            discharge_current_limit = Some(s.value_milli);
        }
        if str_eq(s.name.as_str(), "renogy_status1_value") {
            status1 = Some(s.value_milli);
        }
        if str_eq(s.name.as_str(), "renogy_status2_value") {
            status2 = Some(s.value_milli);
        }
        if str_eq(s.name.as_str(), "renogy_cell_voltage_value") {
            if let Some(k) = s.index {
                cells.push((k, s.value_milli));
            }
        }
        if str_eq(s.name.as_str(), "renogy_cell_temperature_value") {
            if let Some(k) = s.index {
                cell_temps.push((k, s.value_milli));
            }
        }
        if str_eq(s.name.as_str(), "renogy_environment_temperature_value") {
            if let Some(k) = s.index {
                env_temps.push((k, s.value_milli));
            }
        }
        if str_eq(s.name.as_str(), "renogy_heater_temperature_value") {
            if let Some(k) = s.index {
                heater_temps.push((k, s.value_milli));
            }
        }
        i = i + 1;
    }
    assert(samples@.subrange(0, i as int) =~= samples@);
    if module_voltage.is_none() && soc.is_none() {
        return None;
    }
    let cell_voltages = sorted_values(cells);
    let mut info = BatteryInfo::blank();
    info.timestamp_nanos = now_nanos;
    info.serial = String::from_str(serial);
    info.cell_count = cell_voltages.len() as u32;
    info.cell_voltages = cell_voltages;
    info.cell_temperatures = sorted_values(cell_temps);
    info.environment_temperatures = sorted_values(env_temps);
    info.heater_temperatures = sorted_values(heater_temps);
    info.module_voltage = match module_voltage {
        Some(v) => v,
        None => 0,
    };
    info.current = match current {
        Some(v) => v,
        None => 0,
    };
    info.remaining_capacity = match remaining {
        Some(v) => v,
        None => 0,
    };
    info.total_capacity = match total {
        Some(v) => v,
        None => 0,
    };
    info.soc_hundredths_percent = match soc {
        Some(v) => to_tenths(v),
        None => 0,
    };
    info.cycle_count = match cycles {
        Some(v) => to_whole_units(v, 0xFFFF_FFFF) as u32,
        None => 0,
    };
    info.charge_voltage_limit = charge_voltage_limit;
    info.discharge_voltage_limit = discharge_voltage_limit;
    info.charge_current_limit = charge_current_limit;
    info.discharge_current_limit = discharge_current_limit;
    info.status1 = match status1 {
        Some(v) => Some(Status1::from_bits(to_whole_units(v, 65535) as u16)),
        None => None,
    };
    info.status2 = match status2 {
        Some(v) => Some(Status2::from_bits(to_whole_units(v, 65535) as u16)),
        None => None,
    };
    Some(info)
}

} // verus!
