//! State behind the dashboard: the roll-up of the batteries shown, which one
//! is selected, and a bounded history of roll-up points.
use crate::query::{soc_of, BatteryInfo};
use crate::summary::snapshot_wf;
use std::collections::VecDeque;
use vstd::prelude::*;

verus! {

/// The snapshots of the batteries that responded.
pub open spec fn responding(s: Seq<(u8, Option<BatteryInfo>)>) -> Seq<BatteryInfo>
    decreases s.len(),
{
    if s.len() == 0 {
        Seq::empty()
    } else {
        let rest = responding(s.drop_last());
        match s.last().1 {
            Some(b) => rest.push(b),
            None => rest,
        }
    }
}

/// The sum of `f` over snapshots.
pub open spec fn total(s: Seq<BatteryInfo>, f: spec_fn(BatteryInfo) -> int) -> int
    decreases s.len(),
{
    if s.len() == 0 {
        0
    } else {
        total(s.drop_last(), f) + f(s.last())
    }
}

/// Every cell temperature of the snapshots, battery after battery.
pub open spec fn all_temperatures(s: Seq<BatteryInfo>) -> Seq<i64>
    decreases s.len(),
{
    if s.len() == 0 {
        Seq::empty()
    } else {
        all_temperatures(s.drop_last()) + s.last().cell_temperatures@
    }
}

/// The least element, if any.
pub open spec fn least(s: Seq<i64>) -> Option<i64>
    decreases s.len(),
{
    if s.len() == 0 {
        None
    } else {
        match least(s.drop_last()) {
            Some(m) => Some(if s.last() < m { s.last() } else { m }),
            None => Some(s.last()),
        }
    }
}

/// The greatest element, if any.
pub open spec fn greatest(s: Seq<i64>) -> Option<i64>
    decreases s.len(),
{
    if s.len() == 0 {
        None
    } else {
        match greatest(s.drop_last()) {
            Some(m) => Some(if s.last() > m { s.last() } else { m }),
            None => Some(s.last()),
        }
    }
}

pub open spec fn current_in(b: BatteryInfo) -> int {
    b.current as int
}

pub open spec fn remaining_in(b: BatteryInfo) -> int {
    b.remaining_capacity as int
}

pub open spec fn capacity_in(b: BatteryInfo) -> int {
    b.total_capacity as int
}

pub open spec fn fleet_current(s: Seq<BatteryInfo>) -> int {
    total(s, |b: BatteryInfo| current_in(b))
}

pub open spec fn fleet_remaining(s: Seq<BatteryInfo>) -> int {
    total(s, |b: BatteryInfo| remaining_in(b))
}

pub open spec fn fleet_capacity(s: Seq<BatteryInfo>) -> int {
    total(s, |b: BatteryInfo| capacity_in(b))
}

/// Totals over the batteries shown, counting only those that responded.
/// Units as in [`BatteryInfo`].
#[derive(Debug, Clone, PartialEq, Eq)]
pub struct RollUp {
    pub battery_count: usize,
    pub responding_count: usize,
    pub total_current: i128,
    pub total_remaining_capacity: i128,
    pub total_capacity: i128,
    pub average_soc: i128,
    pub min_temperature: Option<i64>,
    pub max_temperature: Option<i64>,
}

fn lesser(a: Option<i64>, x: i64) -> (r: Option<i64>)
    ensures
        r == Some(
            match a {
                Some(m) => if x < m {
                    x
                } else {
                    m
                },
                None => x,
            },
        ),
{
    match a {
        Some(m) => Some(if x < m { x } else { m }),
        None => Some(x),
    }
}

fn greater(a: Option<i64>, x: i64) -> (r: Option<i64>)
    ensures
        r == Some(
            match a {
                Some(m) => if x > m {
                    x
                } else {
                    m
                },
                None => x,
            },
        ),
{
    match a {
        Some(m) => Some(if x > m { x } else { m }),
        None => Some(x),
    }
}

impl RollUp {
    pub fn from_batteries(batteries: &[(u8, Option<BatteryInfo>)]) -> (r: RollUp)
        requires
            batteries@.len() <= u32::MAX,
            forall|i: int|
                0 <= i < batteries@.len() && (#[trigger] batteries@[i]).1 is Some ==> snapshot_wf(
                    batteries@[i].1->Some_0@,
                ),
        ensures
            ({
                let s = responding(batteries@);
                &&& r.battery_count == batteries@.len()
                &&& r.responding_count == s.len()
                &&& r.total_current == fleet_current(s)
                &&& r.total_remaining_capacity == fleet_remaining(s)
                &&& r.total_capacity == fleet_capacity(s)
                &&& r.average_soc == soc_of(fleet_remaining(s), fleet_capacity(s))
                &&& r.min_temperature == least(all_temperatures(s))
                &&& r.max_temperature == greatest(all_temperatures(s))
            }),
    {
        let mut total_current: i128 = 0;
        let mut total_remaining: i128 = 0;
        let mut total_capacity: i128 = 0;
        let mut min_temp: Option<i64> = None;
        let mut max_temp: Option<i64> = None;
        let mut count: usize = 0;
        let mut i: usize = 0;
        while i < batteries.len()
            invariant
                i <= batteries@.len() <= u32::MAX,
                forall|k: int|
                    0 <= k < batteries@.len() && (#[trigger] batteries@[k]).1 is Some ==> snapshot_wf(
                        batteries@[k].1->Some_0@,
                    ),
                count == responding(batteries@.subrange(0, i as int)).len(),
                count <= i,
                total_current == fleet_current(responding(batteries@.subrange(0, i as int))),
                total_remaining == fleet_remaining(responding(batteries@.subrange(0, i as int))),
                total_capacity == fleet_capacity(responding(batteries@.subrange(0, i as int))),
                min_temp == least(all_temperatures(responding(batteries@.subrange(0, i as int)))),
                max_temp == greatest(all_temperatures(responding(batteries@.subrange(0, i as int)))),
                -(count as int) * 0x8000_0000_0000_0000 <= total_current <= (count as int) * 0x8000_0000_0000_0000,
                0 <= total_remaining <= (count as int) * 0x1_0000_0000,
                0 <= total_capacity <= (count as int) * 0x1_0000_0000,
            decreases batteries@.len() - i,
        {
            let ghost prefix = batteries@.subrange(0, i as int);
            assert(batteries@.subrange(0, i + 1).drop_last() =~= prefix);
            if let Some(b) = &batteries[i].1 {
                let ghost before = responding(prefix);
                let ghost after = before.push(*b);
                assert(after.drop_last() =~= before);
                total_current = total_current + b.current as i128;
                total_remaining = total_remaining + b.remaining_capacity as i128;
                total_capacity = total_capacity + b.total_capacity as i128;
                count = count + 1;
                let ghost base = all_temperatures(before);
                let mut j: usize = 0;
                while j < b.cell_temperatures.len()
                    invariant
                        j <= b.cell_temperatures@.len(),
                        min_temp == least(base + b.cell_temperatures@.subrange(0, j as int)),
                        max_temp == greatest(base + b.cell_temperatures@.subrange(0, j as int)),
                    decreases b.cell_temperatures@.len() - j,
                {
                    let t = b.cell_temperatures[j];
                    assert((base + b.cell_temperatures@.subrange(0, j + 1)).drop_last() =~= base
                        + b.cell_temperatures@.subrange(0, j as int));
                    min_temp = lesser(min_temp, t);
                    max_temp = greater(max_temp, t);
                    j = j + 1;
                }
                assert(b.cell_temperatures@.subrange(0, j as int) =~= b.cell_temperatures@);
            }
            i = i + 1;
        }
        assert(batteries@.subrange(0, i as int) =~= batteries@);
        let average_soc = if total_capacity > 0 {
            assert(count as int * 0x1_0000_0000 * 10000 <= 0x1_0000_0000 * 0x1_0000_0000 * 10000) by (nonlinear_arith)
                requires
                    count <= u32::MAX,
            ;
            assert(total_remaining * 10000 <= count as int * 0x1_0000_0000 * 10000) by (nonlinear_arith)
                requires
                    total_remaining <= count as int * 0x1_0000_0000,
            ;
            let scaled: u128 = total_remaining as u128 * 10000;
            let q: u128 = scaled / (total_capacity as u128);
            assert(q <= scaled) by (nonlinear_arith)
                requires
                    q == scaled / (total_capacity as u128),
                    total_capacity > 0,
            ;
            q as i128
        } else {
            0
        };
        RollUp {
            battery_count: batteries.len(),
            responding_count: count,
            total_current,
            total_remaining_capacity: total_remaining,
            total_capacity,
            average_soc,
            min_temperature: min_temp,
            max_temperature: max_temp,
        }
    }
}

/// The selection after moving down a list of `len` entries: wraps to the
/// top, and starts at the top when nothing is selected.
pub open spec fn next_selection(selected: Option<usize>, len: usize) -> Option<usize> {
    if len == 0 {
        selected
    } else {
        match selected {
            Some(i) => Some(((i + 1) % (len as int)) as usize),
            None => Some(0),
        }
    }
}

/// The selection after moving up: wraps to the bottom from the top.
pub open spec fn previous_selection(selected: Option<usize>, len: usize) -> Option<usize> {
    if len == 0 {
        selected
    } else {
        match selected {
            Some(i) => Some(if i >= 1 { (i - 1) as usize } else { (len - 1) as usize }),
            None => Some(0),
        }
    }
}

pub fn select_next(selected: Option<usize>, len: usize) -> (r: Option<usize>)
    ensures
        r == next_selection(selected, len),
{
    if len == 0 {
        return selected;
    }
    match selected {
        Some(i) => {
            let j = i % len;
            assert((i + 1) % (len as int) == if j + 1 == len { 0 } else { j + 1 }) by (nonlinear_arith)
                requires
                    len > 0,
                    j == i % len,
            ;
            Some(if j + 1 == len { 0 } else { j + 1 })
        },
        None => Some(0),
    }
}

pub fn select_previous(selected: Option<usize>, len: usize) -> (r: Option<usize>)
    ensures
        r == previous_selection(selected, len),
{
    if len == 0 {
        return selected;
    }
    match selected {
        Some(i) => Some(if i >= 1 { i - 1 } else { len - 1 }),
        None => Some(0),
    }
}

/// One point of the history graph: fleet current in milliamps, state of
/// charge in hundredths of a percent, and the middle of the temperature range.
#[derive(Debug, Clone, Copy, PartialEq, Eq, Structural)]
pub struct DataPoint {
    pub timestamp_secs: u64,
    pub current: i128,
    pub soc: i128,
    pub temp_avg: Option<i64>,
}

/// The middle of a temperature range, truncated toward zero, or the one
/// bound that is known.
pub open spec fn midpoint(min: Option<i64>, max: Option<i64>) -> Option<i64> {
    match (min, max) {
        (Some(a), Some(b)) => Some(
            (if a + b >= 0 {
                (a + b) / 2
            } else {
                -((-(a + b)) / 2)
            }) as i64,
        ),
        (Some(t), None) => Some(t),
        (None, Some(t)) => Some(t),
        (None, None) => None,
    }
}

fn mid(min: Option<i64>, max: Option<i64>) -> (r: Option<i64>)
    ensures
        r == midpoint(min, max),
{
    match (min, max) {
        (Some(a), Some(b)) => {
            let s: i128 = a as i128 + b as i128;
            let h: i128 = if s >= 0 {
                (s as u128 / 2) as i128
            } else {
                0 - ((0 - s) as u128 / 2) as i128
            };
            assert(i64::MIN <= h <= i64::MAX);
            Some(h as i64)
        },
        (Some(t), None) => Some(t),
        (None, Some(t)) => Some(t),
        (None, None) => None,
    }
}

/// Roll-up points, oldest first, at most `max_points` of them.
pub struct History {
    data: VecDeque<DataPoint>,
    max_points: usize,
}

/// The default number of points: 48 hours at one point per 15 seconds.
pub const DEFAULT_MAX_POINTS: usize = 11_520;

impl History {
    pub closed spec fn points(&self) -> Seq<DataPoint> {
        self.data@
    }

    pub closed spec fn limit(&self) -> nat {
        self.max_points as nat
    }

    pub open spec fn wf(&self) -> bool {
        self.points().len() <= self.limit()
    }

    pub fn new(max_points: usize) -> (r: History)
        ensures
            r.wf(),
            r.points() == Seq::<DataPoint>::empty(),
            r.limit() == max_points,
    {
        History { data: VecDeque::new(), max_points }
    }

    /// Records a roll-up taken at `timestamp_secs`, dropping the oldest point
    /// when full.
    pub fn push(&mut self, rollup: &RollUp, timestamp_secs: u64)
        requires
            old(self).wf(),
            old(self).limit() >= 1,
        ensures
            final(self).wf(),
            final(self).limit() == old(self).limit(),
            ({
                let p = DataPoint {
                    timestamp_secs,
                    current: rollup.total_current,
                    soc: rollup.average_soc,
                    temp_avg: midpoint(rollup.min_temperature, rollup.max_temperature),
                };
                final(self).points() == if old(self).points().len() == old(self).limit() {
                    old(self).points().drop_first().push(p)
                } else {
                    old(self).points().push(p)
                }
            }),
    {
        let point = DataPoint {
            timestamp_secs,
            current: rollup.total_current,
            soc: rollup.average_soc,
            temp_avg: mid(rollup.min_temperature, rollup.max_temperature),
        };
        if self.data.len() >= self.max_points {
            let _ = self.data.pop_front();
        }
        self.data.push_back(point);
    }

    /// Replaces the points with the first `limit()` of `points`.
    pub fn replace(&mut self, points: Vec<DataPoint>)
        ensures
            final(self).wf(),
            final(self).limit() == old(self).limit(),
            final(self).points() == if points@.len() > old(self).limit() {
                points@.subrange(0, old(self).limit() as int)
            } else {
                points@
            },
    {
        self.data = VecDeque::new();
        let mut i: usize = 0;
        while i < points.len() && self.data.len() < self.max_points
            invariant
                i <= points@.len(),
                self.max_points == old(self).max_points,
                self.data@ == points@.subrange(0, i as int),
                i <= self.max_points,
            decreases points@.len() - i,
        {
            self.data.push_back(points[i]);
            assert(self.data@ =~= points@.subrange(0, i + 1));
            i = i + 1;
        }
        assert(points@.len() <= self.max_points ==> points@.subrange(0, i as int) =~= points@);
    }

    pub fn len(&self) -> (r: usize)
        ensures
            r == self.points().len(),
    {
        self.data.len()
    }

    pub fn is_empty(&self) -> (r: bool)
        ensures
            r == (self.points().len() == 0),
    {
        self.data.len() == 0
    }

    pub fn oldest_timestamp(&self) -> (r: Option<u64>)
        ensures
            self.points().len() == 0 ==> r is None,
            self.points().len() > 0 ==> r == Some(self.points()[0].timestamp_secs),
    {
        if self.data.len() == 0 {
            None
        } else {
            Some(self.data[0].timestamp_secs)
        }
    }

    pub fn newest_timestamp(&self) -> (r: Option<u64>)
        ensures
            self.points().len() == 0 ==> r is None,
            self.points().len() > 0 ==> r == Some(self.points().last().timestamp_secs),
    {
        let n = self.data.len();
        if n == 0 {
            None
        } else {
            Some(self.data[n - 1].timestamp_secs)
        }
    }

    /// The oldest and newest timestamps.
    pub fn time_range(&self) -> (r: Option<(u64, u64)>)
        ensures
            self.points().len() == 0 ==> r is None,
            self.points().len() > 0 ==> r == Some(
                (self.points()[0].timestamp_secs, self.points().last().timestamp_secs),
            ),
    {
        match (self.oldest_timestamp(), self.newest_timestamp()) {
            (Some(a), Some(b)) => Some((a, b)),
            _ => None,
        }
    }

    /// How many seconds the history spans.
    pub fn duration(&self) -> (r: u64)
        ensures
            self.points().len() == 0 ==> r == 0,
            self.points().len() > 0 ==> r == if self.points().last().timestamp_secs
                > self.points()[0].timestamp_secs {
                (self.points().last().timestamp_secs - self.points()[0].timestamp_secs) as u64
            } else {
                0
            },
    {
        match self.time_range() {
            Some((oldest, newest)) => if newest > oldest { newest - oldest } else { 0 },
            None => 0,
        }
    }
}

/// The value of the last sample at time `t`, if any.
pub open spec fn value_at(s: Seq<(u64, i64)>, t: u64) -> Option<i64>
    decreases s.len(),
{
    if s.len() == 0 {
        None
    } else if s.last().0 == t {
        Some(s.last().1)
    } else {
        value_at(s.drop_last(), t)
    }
}

/// Whether some sample of `s` is at time `t`.
pub open spec fn has_time(s: Seq<(u64, i64)>, t: u64) -> bool {
    exists|i: int| 0 <= i < s.len() && (#[trigger] s[i]).0 == t
}

/// Whether `s` is strictly increasing.
pub open spec fn increasing(s: Seq<u64>) -> bool {
    forall|i: int, j: int| 0 <= i < j < s.len() ==> s[i] < s[j]
}

/// The graph point at time `t` of three aggregated series: current and state
/// of charge default to zero, the temperature to none. Values arrive times
/// 1000 in amps, percent and degrees Celsius.
pub open spec fn point_at(t: u64, current: Seq<(u64, i64)>, soc: Seq<(u64, i64)>, temp: Seq<(u64, i64)>) -> DataPoint {
    DataPoint {
        timestamp_secs: t,
        current: match value_at(current, t) {
            Some(v) => v as i128,
            None => 0,
        },
        soc: match value_at(soc, t) {
            Some(v) => (if v >= 0 {
                v / 10
            } else {
                -((-v) / 10)
            }) as i128,
            None => 0,
        },
        temp_avg: value_at(temp, t),
    }
}

fn lookup(s: &Vec<(u64, i64)>, t: u64) -> (r: Option<i64>)
    ensures
        r == value_at(s@, t),
{
    let mut r: Option<i64> = None;
    let mut i: usize = 0;
    while i < s.len()
        invariant
            i <= s@.len(),
            r == value_at(s@.subrange(0, i as int), t),
        decreases s@.len() - i,
    {
        assert(s@.subrange(0, i + 1).drop_last() =~= s@.subrange(0, i as int));
        if s[i].0 == t {
            r = Some(s[i].1);
        }
        i = i + 1;
    }
    assert(s@.subrange(0, i as int) =~= s@);
    r
}

/// Adds the times of `s` to the strictly increasing `times`.
fn add_times(times: &mut Vec<u64>, s: &Vec<(u64, i64)>)
    requires
        increasing(old(times)@),
    ensures
        increasing(final(times)@),
        forall|t: u64| #[trigger] final(times)@.contains(t) <==> (old(times)@.contains(t) || has_time(s@, t)),
{
    let mut i: usize = 0;
    while i < s.len()
        invariant
            i <= s@.len(),
            increasing(times@),
            forall|t: u64| times@.contains(t) <==> (old(times)@.contains(t) || has_time(s@.subrange(0, i as int), t)),
        decreases s@.len() - i,
    {
        let t = s[i].0;
        let mut j: usize = 0;
        while j < times.len() && times[j] < t
            invariant
                j <= times@.len(),
                forall|k: int| 0 <= k < j ==> times@[k] < t,
            decreases times@.len() - j,
        {
            j = j + 1;
        }
        let ghost before = times@;
        if j < times.len() && times[j] == t {
        } else {
            times.insert(j, t);
            assert forall|a: int, b: int| 0 <= a < b < times@.len() implies times@[a] < times@[b] by {
                if b < j {
                } else if b == j {
                } else if a < j {
                    assert(times@[b] == before[b - 1]);
                } else if a == j {
                    assert(times@[b] == before[b - 1]);
                    assert(before[j as int] > t);
                    assert(before[j as int] <= before[b - 1]);
                } else {
                    assert(times@[a] == before[a - 1]);
                    assert(times@[b] == before[b - 1]);
                }
            }
            assert(times@ =~= before.insert(j as int, t));
        }
        assert forall|u: u64| times@.contains(u) <==> (old(times)@.contains(u) || has_time(
            s@.subrange(0, i + 1),
            u,
        )) by {
            if has_time(s@.subrange(0, i + 1), u) && !has_time(s@.subrange(0, i as int), u) {
                let w = choose|w: int| 0 <= w < i + 1 && #[trigger] s@.subrange(0, i + 1)[w].0 == u;
                if w < i {
                    assert(s@.subrange(0, i as int)[w].0 == u);
                }
                assert(u == t);
                if j < before.len() && before[j as int] == t {
                    assert(times@[j as int] == t);
                } else {
                    assert(times@[j as int] == t);
                }
            }
            if has_time(s@.subrange(0, i as int), u) {
                let w = choose|w: int| 0 <= w < i && #[trigger] s@.subrange(0, i as int)[w].0 == u;
                assert(s@.subrange(0, i + 1)[w].0 == u);
            }
            if times@.contains(u) && !before.contains(u) {
                let w = choose|w: int| 0 <= w < times@.len() && #[trigger] times@[w] == u;
                assert(u == t);
                assert(s@.subrange(0, i + 1)[i as int].0 == u);
            }
            if before.contains(u) {
                let w = choose|w: int| 0 <= w < before.len() && #[trigger] before[w] == u;
                if !(j < before.len() && before[j as int] == t) {
                    if w < j {
                        assert(times@[w] == u);
                    } else {
                        assert(times@[w + 1] == u);
                    }
                }
            }
        }
        i = i + 1;
    }
    assert(s@.subrange(0, i as int) =~= s@);
}

/// The times of a sequence of points.
pub open spec fn times_of(r: Seq<DataPoint>) -> Seq<u64> {
    r.map_values(|p: DataPoint| p.timestamp_secs)
}

/// The graph points of three aggregated series: one per distinct time of any
/// series, in increasing time.
pub fn merge_series(current: &Vec<(u64, i64)>, soc: &Vec<(u64, i64)>, temp: &Vec<(u64, i64)>) -> (r: Vec<DataPoint>)
    ensures
        increasing(times_of(r@)),
        forall|t: u64|
            times_of(r@).contains(t) <==> (has_time(current@, t) || has_time(
                soc@,
                t,
            ) || has_time(temp@, t)),
        forall|k: int|
            0 <= k < r@.len() ==> #[trigger] r@[k] == point_at(r@[k].timestamp_secs, current@, soc@, temp@),
{
    let mut times: Vec<u64> = Vec::new();
    let ghost t0 = times@;
    add_times(&mut times, current);
    let ghost t1 = times@;
    add_times(&mut times, soc);
    let ghost t2 = times@;
    add_times(&mut times, temp);
    assert forall|t: u64| times@.contains(t) <==> (has_time(current@, t) || has_time(soc@, t) || has_time(temp@, t)) by {
        assert(!t0.contains(t));
        assert(t1.contains(t) <==> (t0.contains(t) || has_time(current@, t)));
        assert(t2.contains(t) <==> (t1.contains(t) || has_time(soc@, t)));
        assert(times@.contains(t) <==> (t2.contains(t) || has_time(temp@, t)));
    }
    let mut r: Vec<DataPoint> = Vec::new();
    let mut i: usize = 0;
    while i < times.len()
        invariant
            i <= times@.len(),
            times_of(r@) == times@.subrange(0, i as int),
            forall|k: int|
                0 <= k < r@.len() ==> #[trigger] r@[k] == point_at(r@[k].timestamp_secs, current@, soc@, temp@),
        decreases times@.len() - i,
    {
        let t = times[i];
        let soc_value = match lookup(soc, t) {
            Some(v) => Some(
                if v >= 0 {
                    ((v as u64) / 10) as i128
                } else {
                    0 - ((0 - (v as i128)) as u128 / 10) as i128
                },
            ),
            None => None,
        };
        let point = DataPoint {
            timestamp_secs: t,
            current: match lookup(current, t) {
                Some(v) => v as i128,
                None => 0,
            },
            soc: match soc_value {
                Some(v) => v,
                None => 0,
            },
            temp_avg: lookup(temp, t),
        };
        let ghost before = r@;
        r.push(point);
        assert(times_of(r@) =~= times_of(before).push(t));
        assert(times_of(r@) =~= times@.subrange(0, i + 1));
        i = i + 1;
    }
    assert(times@.subrange(0, i as int) =~= times@);
    assert(times_of(r@) == times@);
    r
}

} // verus!
