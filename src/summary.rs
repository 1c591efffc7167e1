//! Fleet roll-up: totals and averages over a set of snapshots, the bitwise OR
//! of their status words, and the system alarm word derived from it.
use crate::alarm::{Status1, Status2};
use crate::query::{soc_of, BatteryInfo, BatteryInfoView};
use crate::registers::trunc_div;
use vstd::prelude::*;

verus! {

/// The stated bounds of a snapshot: no more cell voltages than cells and at
/// most sixteen cells, at most sixteen cell temperatures, at most two environment and heater temperatures, and
/// capacities that a double word holds.
pub open spec fn snapshot_wf(b: BatteryInfoView) -> bool {
    &&& b.cell_voltages.len() <= b.cell_count <= 16
    &&& b.cell_temperatures.len() <= 16
    &&& b.environment_temperatures.len() <= 2
    &&& b.heater_temperatures.len() <= 2
    &&& 0 <= b.remaining_capacity <= u32::MAX
    &&& 0 <= b.total_capacity <= u32::MAX
}

/// The views of a slice of snapshots.
pub open spec fn views(s: Seq<BatteryInfo>) -> Seq<BatteryInfoView> {
    s.map_values(|b: BatteryInfo| b@)
}

/// The sum of `f` over the snapshots.
pub open spec fn sum_by(s: Seq<BatteryInfoView>, f: spec_fn(BatteryInfoView) -> int) -> int
    decreases s.len(),
{
    if s.len() == 0 {
        0
    } else {
        sum_by(s.drop_last(), f) + f(s.last())
    }
}

/// The sum of a sequence of integers.
pub open spec fn seq_sum(s: Seq<i64>) -> int
    decreases s.len(),
{
    if s.len() == 0 {
        0
    } else {
        seq_sum(s.drop_last()) + s.last()
    }
}

/// The OR of the Status1 words present in the snapshots.
pub open spec fn status1_of_all(s: Seq<BatteryInfoView>) -> u16
    decreases s.len(),
{
    if s.len() == 0 {
        0
    } else {
        status1_of_all(s.drop_last()) | match s.last().status1 {
            Some(w) => w.bits,
            None => 0u16,
        }
    }
}

/// The OR of the Status2 words present in the snapshots.
pub open spec fn status2_of_all(s: Seq<BatteryInfoView>) -> u16
    decreases s.len(),
{
    if s.len() == 0 {
        0
    } else {
        status2_of_all(s.drop_last()) | match s.last().status2 {
            Some(w) => w.bits,
            None => 0u16,
        }
    }
}

pub open spec fn battery_current(b: BatteryInfoView) -> int {
    b.current as int
}

pub open spec fn battery_remaining(b: BatteryInfoView) -> int {
    b.remaining_capacity as int
}

pub open spec fn battery_capacity(b: BatteryInfoView) -> int {
    b.total_capacity as int
}

pub open spec fn battery_voltage(b: BatteryInfoView) -> int {
    b.module_voltage as int
}

pub open spec fn temperature_sum_of(b: BatteryInfoView) -> int {
    seq_sum(b.cell_temperatures)
}

pub open spec fn temperature_count_of(b: BatteryInfoView) -> int {
    b.cell_temperatures.len() as int
}

/// Total current of the snapshots.
pub open spec fn total_current_of(s: Seq<BatteryInfoView>) -> int {
    sum_by(s, |b: BatteryInfoView| battery_current(b))
}

/// Total remaining capacity of the snapshots.
pub open spec fn total_remaining_of(s: Seq<BatteryInfoView>) -> int {
    sum_by(s, |b: BatteryInfoView| battery_remaining(b))
}

/// Total full capacity of the snapshots.
pub open spec fn total_capacity_of(s: Seq<BatteryInfoView>) -> int {
    sum_by(s, |b: BatteryInfoView| battery_capacity(b))
}

/// Sum of the module voltages of the snapshots.
pub open spec fn voltage_sum_of(s: Seq<BatteryInfoView>) -> int {
    sum_by(s, |b: BatteryInfoView| battery_voltage(b))
}

/// Sum of every cell-temperature sample of the snapshots.
pub open spec fn temperature_sum_all(s: Seq<BatteryInfoView>) -> int {
    sum_by(s, |b: BatteryInfoView| temperature_sum_of(b))
}

/// Number of cell-temperature samples of the snapshots.
pub open spec fn temperature_count_all(s: Seq<BatteryInfoView>) -> int {
    sum_by(s, |b: BatteryInfoView| temperature_count_of(b))
}

/// Totals and averages over a fleet. Currents are in milliamps, capacities
/// in milliamp-hours, voltages in millivolts, temperatures in thousandths of
/// a degree Celsius and the state of charge in hundredths of a percent.
#[derive(Debug, Clone, PartialEq, Eq)]
pub struct SystemSummary {
    pub timestamp_nanos: i64,
    pub battery_count: usize,
    pub total_current: i128,
    pub total_remaining_capacity: i128,
    pub total_capacity: i128,
    /// Total remaining over total capacity, or zero without capacity.
    pub average_soc: i128,
    /// Mean module voltage, truncated toward zero; zero without batteries.
    pub average_voltage: i128,
    /// Mean over every cell-temperature sample, truncated toward zero.
    pub average_temperature: Option<i128>,
    pub status1: Status1,
    pub status2: Status2,
}

impl SystemSummary {
    /// Rolls up `batteries`; `timestamp_nanos` is when the roll-up was made.
    pub fn new(batteries: &[BatteryInfo], timestamp_nanos: i64) -> (r: SystemSummary)
        requires
            batteries@.len() <= u32::MAX,
            forall|i: int| 0 <= i < batteries@.len() ==> snapshot_wf(#[trigger] batteries@[i]@),
        ensures
            ({
                let s = views(batteries@);
                let temps = temperature_count_all(s);
                &&& r.timestamp_nanos == timestamp_nanos
                &&& r.battery_count == batteries@.len()
                &&& r.total_current == total_current_of(s)
                &&& r.total_remaining_capacity == total_remaining_of(s)
                &&& r.total_capacity == total_capacity_of(s)
                &&& r.average_soc == soc_of(r.total_remaining_capacity as int, r.total_capacity as int)
                &&& r.average_voltage == (if s.len() > 0 {
                    trunc_div(voltage_sum_of(s), s.len() as int)
                } else {
                    0
                })
                &&& r.average_temperature == (if temps > 0 {
                    Some(trunc_div(temperature_sum_all(s), temps) as i128)
                } else {
                    None::<i128>
                })
                &&& r.status1.bits == status1_of_all(s)
                &&& r.status2.bits == status2_of_all(s)
            }),
    {
        let ghost s = views(batteries@);
        let mut total_current: i128 = 0;
        let mut total_remaining: i128 = 0;
        let mut total_capacity: i128 = 0;
        let mut voltage_sum: i128 = 0;
        let mut temp_sum: i128 = 0;
        let mut temp_count: u64 = 0;
        let mut status1: u16 = 0;
        let mut status2: u16 = 0;
        let mut i: usize = 0;
        let limit: i128 = 0x8000_0000_0000_0000;
        while i < batteries.len()
            invariant
                i <= batteries@.len() <= u32::MAX,
                s == views(batteries@),
                forall|j: int| 0 <= j < batteries@.len() ==> snapshot_wf(#[trigger] batteries@[j]@),
                total_current == total_current_of(s.subrange(0, i as int)),
                total_remaining == total_remaining_of(s.subrange(0, i as int)),
                total_capacity == total_capacity_of(s.subrange(0, i as int)),
                voltage_sum == voltage_sum_of(s.subrange(0, i as int)),
                temp_sum == temperature_sum_all(s.subrange(0, i as int)),
                temp_count == temperature_count_all(s.subrange(0, i as int)),
                status1 == status1_of_all(s.subrange(0, i as int)),
                status2 == status2_of_all(s.subrange(0, i as int)),
                -(i as int) * limit <= total_current <= (i as int) * limit,
                0 <= total_remaining <= (i as int) * 0x1_0000_0000,
                0 <= total_capacity <= (i as int) * 0x1_0000_0000,
                -(i as int) * limit <= voltage_sum <= (i as int) * limit,
                -(temp_count as int) * limit <= temp_sum <= (temp_count as int) * limit,
                temp_count <= 16 * i,
                limit == 0x8000_0000_0000_0000,
            decreases batteries@.len() - i,
        {
            let b = &batteries[i];
            let ghost prefix = s.subrange(0, i as int);
            let ghost next = s.subrange(0, i + 1);
            assert(next.drop_last() =~= prefix);
            assert(next.last() == b@);
            total_current = total_current + b.current as i128;
            total_remaining = total_remaining + b.remaining_capacity as i128;
            total_capacity = total_capacity + b.total_capacity as i128;
            voltage_sum = voltage_sum + b.module_voltage as i128;
            let mut j: usize = 0;
            let ghost temp_sum0 = temp_sum;
            let ghost temp_count0 = temp_count;
            while j < b.cell_temperatures.len()
                invariant
                    j <= b.cell_temperatures@.len() <= 16,
                    temp_sum == temp_sum0 + seq_sum(b.cell_temperatures@.subrange(0, j as int)),
                    temp_count == temp_count0 + j,
                    temp_count0 <= 16 * i,
                    -(temp_count0 as int) * limit <= temp_sum0 <= (temp_count0 as int) * limit,
                    -(temp_count as int) * limit <= temp_sum <= (temp_count as int) * limit,
                    limit == 0x8000_0000_0000_0000,
                    i < batteries@.len() <= u32::MAX,
                decreases b.cell_temperatures@.len() - j,
            {
                assert(b.cell_temperatures@.subrange(0, j + 1).drop_last() =~= b.cell_temperatures@.subrange(
                    0,
                    j as int,
                ));
                temp_sum = temp_sum + b.cell_temperatures[j] as i128;
                temp_count = temp_count + 1;
                j = j + 1;
            }
            assert(b.cell_temperatures@.subrange(0, j as int) =~= b.cell_temperatures@);
            status1 = status1 | match b.status1 {
                Some(w) => w.bits,
                None => 0,
            };
            status2 = status2 | match b.status2 {
                Some(w) => w.bits,
                None => 0,
            };
            i = i + 1;
        }
        assert(s.subrange(0, i as int) =~= s);
        let n = batteries.len();
        let average_soc = if total_capacity > 0 {
            assert(n as int * 0x1_0000_0000 * 10000 <= 0x1_0000_0000_0000_0000 * 0x1_0000_0000 * 10000) by (nonlinear_arith)
                requires
                    n < 0x1_0000_0000_0000_0000,
            ;
            assert(total_remaining * 10000 <= n as int * 0x1_0000_0000 * 10000) by (nonlinear_arith)
                requires
                    total_remaining <= n as int * 0x1_0000_0000,
            ;
            let scaled: u128 = total_remaining as u128 * 10000;
            let q: u128 = scaled / (total_capacity as u128);
            assert(q <= scaled) by (nonlinear_arith)
                requires
                    q == scaled / (total_capacity as u128),
                    total_capacity > 0,
            ;
            q as i128
        } else {
            0
        };
        let average_voltage = if n > 0 {
            truncated_mean(voltage_sum, n as u64)
        } else {
            0
        };
        let average_temperature = if temp_count > 0 {
            Some(truncated_mean(temp_sum, temp_count))
        } else {
            None
        };
        SystemSummary {
            timestamp_nanos,
            battery_count: n,
            total_current,
            total_remaining_capacity: total_remaining,
            total_capacity,
            average_soc,
            average_voltage,
            average_temperature,
            status1: Status1::from_bits(status1),
            status2: Status2::from_bits(status2),
        }
    }

    pub fn alarms(&self) -> (r: SystemAlarms)
        ensures
            r.bits == system_alarm_bits(self.status1, self.status2),
    {
        SystemAlarms::from_status(self.status1, self.status2)
    }
}

/// `trunc_div(sum, n)` for a sum of `n` values that each fit an `i64`.
fn truncated_mean(sum: i128, n: u64) -> (r: i128)
    requires
        n > 0,
        -(n as int) * 0x8000_0000_0000_0000 <= sum <= (n as int) * 0x8000_0000_0000_0000,
    ensures
        r == trunc_div(sum as int, n as int),
{
    assert(n as int * 0x8000_0000_0000_0000 <= 0x8000_0000_0000_0000 * 0x1_0000_0000_0000_0000) by (nonlinear_arith)
        requires
            n < 0x1_0000_0000_0000_0000,
    ;
    if sum >= 0 {
        (sum as u128 / n as u128) as i128
    } else {
        let m: u128 = (0 - sum) as u128;
        assert(m / (n as u128) <= m) by (nonlinear_arith)
            requires
                n > 0,
        ;
        0 - (m / n as u128) as i128
    }
}

/// Fleet alarms derived from the rolled-up status words.
#[derive(Debug, Clone, Copy, Default, PartialEq, Eq, Structural)]
pub struct SystemAlarms {
    pub bits: u8,
}

/// Each alarm's bit when `cond` holds.
pub open spec fn flag(cond: bool, bit: u8) -> int {
    if cond {
        bit as int
    } else {
        0
    }
}

/// The system alarm word: over-voltage from cell or module over-voltage,
/// under-voltage likewise, over-current from any of the four over-current
/// bits, over- and under-temperature from the charge and discharge
/// temperature bits, then short circuit, heater on and fully charged.
pub open spec fn system_alarm_bits(s1: Status1, s2: Status2) -> u8 {
    (flag(s1.bits & (Status1::CELL_OVER_VOLTAGE | Status1::MODULE_OVER_VOLTAGE) != 0, 1) + flag(
        s1.bits & (Status1::CELL_UNDER_VOLTAGE | Status1::MODULE_UNDER_VOLTAGE) != 0,
        2,
    ) + flag(
        s1.bits & (Status1::CHARGE_OVER_CURRENT1 | Status1::CHARGE_OVER_CURRENT2
            | Status1::DISCHARGE_OVER_CURRENT1 | Status1::DISCHARGE_OVER_CURRENT2) != 0,
        4,
    ) + flag(s1.bits & (Status1::CHARGE_OVER_TEMP | Status1::DISCHARGE_OVER_TEMP) != 0, 8) + flag(
        s1.bits & (Status1::CHARGE_UNDER_TEMP | Status1::DISCHARGE_UNDER_TEMP) != 0,
        16,
    ) + flag(s1.bits & Status1::SHORT_CIRCUIT == Status1::SHORT_CIRCUIT, 32) + flag(
        s2.bits & Status2::HEATER_ON == Status2::HEATER_ON,
        64,
    ) + flag(s2.bits & Status2::FULLY_CHARGED == Status2::FULLY_CHARGED, 128)) as u8
}

/// The character at position `i` of an alarm word's binary form.
pub open spec fn bit_char(bits: u8, i: u8) -> char {
    if (bits >> i) & 1u8 == 1u8 {
        '1'
    } else {
        '0'
    }
}

impl SystemAlarms {
    pub const OVER_VOLTAGE: u8 = 0x01;
    pub const UNDER_VOLTAGE: u8 = 0x02;
    pub const OVER_CURRENT: u8 = 0x04;
    pub const OVER_TEMP: u8 = 0x08;
    pub const UNDER_TEMP: u8 = 0x10;
    pub const SHORT_CIRCUIT: u8 = 0x20;
    pub const HEATER_ON: u8 = 0x40;
    pub const FULLY_CHARGED: u8 = 0x80;

    pub fn from_status(status1: Status1, status2: Status2) -> (r: SystemAlarms)
        ensures
            r.bits == system_alarm_bits(status1, status2),
    {
        let mut bits: u8 = 0;
        if status1.intersects(Status1::CELL_OVER_VOLTAGE | Status1::MODULE_OVER_VOLTAGE) {
            bits = bits + Self::OVER_VOLTAGE;
        }
        if status1.intersects(Status1::CELL_UNDER_VOLTAGE | Status1::MODULE_UNDER_VOLTAGE) {
            bits = bits + Self::UNDER_VOLTAGE;
        }
        if status1.intersects(
            Status1::CHARGE_OVER_CURRENT1 | Status1::CHARGE_OVER_CURRENT2
                | Status1::DISCHARGE_OVER_CURRENT1 | Status1::DISCHARGE_OVER_CURRENT2,
        ) {
            bits = bits + Self::OVER_CURRENT;
        }
        if status1.intersects(Status1::CHARGE_OVER_TEMP | Status1::DISCHARGE_OVER_TEMP) {
            bits = bits + Self::OVER_TEMP;
        }
        if status1.intersects(Status1::CHARGE_UNDER_TEMP | Status1::DISCHARGE_UNDER_TEMP) {
            bits = bits + Self::UNDER_TEMP;
        }
        if status1.contains(Status1::SHORT_CIRCUIT) {
            bits = bits + Self::SHORT_CIRCUIT;
        }
        if status2.contains(Status2::HEATER_ON) {
            bits = bits + Self::HEATER_ON;
        }
        if status2.contains(Status2::FULLY_CHARGED) {
            bits = bits + Self::FULLY_CHARGED;
        }
        SystemAlarms { bits }
    }

    pub fn bits(&self) -> (r: u8)
        ensures
            r == self.bits,
    {
        self.bits
    }

    pub fn contains(&self, mask: u8) -> (r: bool)
        ensures
            r == (self.bits & mask == mask),
    {
        self.bits & mask == mask
    }

    /// Eight characters, `'1'` or `'0'`, bit 0 first.
    pub fn to_aprs_binary_string(&self) -> (r: String)
        ensures
            r@.len() == 8,
            forall|i: int| 0 <= i < 8 ==> #[trigger] r@[i] == bit_char(self.bits, i as u8),
    {
        let mut out = String::new();
        let mut i: u8 = 0;
        while i < 8
            invariant
                i <= 8,
                out@.len() == i,
                forall|k: int| 0 <= k < i ==> #[trigger] out@[k] == bit_char(self.bits, k as u8),
            decreases 8 - i,
        {
            proof {
                reveal_strlit("1");
                reveal_strlit("0");
            }
            if (self.bits >> i) & 1 == 1 {
                out.append("1");
            } else {
                out.append("0");
            }
            i = i + 1;
        }
        out
    }
}

/// With no snapshots the roll-up has zero totals and empty status words.
pub proof fn lemma_rollup_empty()
    ensures
        status1_of_all(Seq::empty()) == 0,
        status2_of_all(Seq::empty()) == 0,
        total_current_of(Seq::empty()) == 0,
        total_remaining_of(Seq::empty()) == 0,
        total_capacity_of(Seq::empty()) == 0,
        temperature_count_all(Seq::empty()) == 0,
{
}

/// Adding a snapshot never clears a rolled-up status bit.
pub proof fn lemma_rollup_monotone(s: Seq<BatteryInfoView>, b: BatteryInfoView)
    ensures
        status1_of_all(s) & status1_of_all(s.push(b)) == status1_of_all(s),
        status2_of_all(s) & status2_of_all(s.push(b)) == status2_of_all(s),
{
    assert(s.push(b).drop_last() =~= s);
    let a1 = status1_of_all(s);
    let x1: u16 = match b.status1 {
        Some(w) => w.bits,
        None => 0u16,
    };
    let a2 = status2_of_all(s);
    let x2: u16 = match b.status2 {
        Some(w) => w.bits,
        None => 0u16,
    };
    assert(a1 & (a1 | x1) == a1) by (bit_vector);
    assert(a2 & (a2 | x2) == a2) by (bit_vector);
}

} // verus!
