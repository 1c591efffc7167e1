//! A bounded FIFO of snapshots: the newest are kept when it overflows, and a
//! batch can be put back at the front without reordering.
use crate::query::BatteryInfo;
use std::collections::VecDeque;
use vstd::prelude::*;

verus! {

/// The last `n` elements of `s`, or all of them when there are fewer.
pub open spec fn keep_last<T>(s: Seq<T>, n: nat) -> Seq<T> {
    if s.len() > n {
        s.subrange(s.len() - n, s.len() as int)
    } else {
        s
    }
}

/// The first `n` elements of `s`, or all of them when there are fewer.
pub open spec fn keep_first<T>(s: Seq<T>, n: nat) -> Seq<T> {
    if s.len() > n {
        s.subrange(0, n as int)
    } else {
        s
    }
}

/// The buffer's capacity for a window and a poll interval: the number of
/// polls in the window, rounded up, and at least one.
pub open spec fn capacity_for(window_secs: u64, poll_interval_secs: u64) -> nat {
    let n = (window_secs + poll_interval_secs - 1) / poll_interval_secs as int;
    if n < 1 {
        1
    } else {
        n as nat
    }
}

/// Snapshots waiting to be delivered, oldest first.
pub struct SampleBuffer {
    samples: VecDeque<BatteryInfo>,
    max_samples: usize,
    overflow_logged: bool,
}

impl SampleBuffer {
    /// The snapshots held, oldest first.
    pub closed spec fn contents(&self) -> Seq<BatteryInfo> {
        self.samples@
    }

    /// How many snapshots the buffer holds at most.
    pub closed spec fn cap(&self) -> nat {
        self.max_samples as nat
    }

    /// Whether an overflow has been reported since the last drain.
    pub closed spec fn overflow_reported(&self) -> bool {
        self.overflow_logged
    }

    pub closed spec fn wf(&self) -> bool {
        1 <= self.max_samples && self.samples@.len() <= self.max_samples
    }

    /// An empty buffer for at most `max_samples` snapshots (at least one).
    pub fn new(max_samples: usize) -> (r: SampleBuffer)
        ensures
            r.wf(),
            r.contents() == Seq::<BatteryInfo>::empty(),
            r.cap() == if max_samples < 1 { 1 } else { max_samples as nat },
            !r.overflow_reported(),
    {
        SampleBuffer {
            samples: VecDeque::new(),
            max_samples: if max_samples < 1 { 1 } else { max_samples },
            overflow_logged: false,
        }
    }

    /// A buffer sized for `window_secs` of polls every `poll_interval_secs`.
    pub fn for_window(window_secs: u64, poll_interval_secs: u64) -> (r: SampleBuffer)
        requires
            poll_interval_secs >= 1,
            window_secs as int + poll_interval_secs <= u64::MAX,
            capacity_for(window_secs, poll_interval_secs) <= usize::MAX,
        ensures
            r.wf(),
            r.contents() == Seq::<BatteryInfo>::empty(),
            r.cap() == capacity_for(window_secs, poll_interval_secs),
            !r.overflow_reported(),
    {
        let n = (window_secs + poll_interval_secs - 1) / poll_interval_secs;
        Self::new(if n < 1 { 1 } else { n as usize })
    }

    /// Appends `sample`, evicting the oldest snapshot when full. Returns true
    /// when this push overflowed and no overflow has been reported since the
    /// last drain, so that the caller warns once.
    pub fn push(&mut self, sample: BatteryInfo) -> (warn: bool)
        requires
            old(self).wf(),
        ensures
            final(self).wf(),
            final(self).cap() == old(self).cap(),
            final(self).contents() == keep_last(old(self).contents().push(sample), old(self).cap()),
            warn == (old(self).contents().len() == old(self).cap() && !old(self).overflow_reported()),
            final(self).overflow_reported() == (old(self).overflow_reported() || old(self).contents().len()
                == old(self).cap()),
    {
        let mut warn = false;
        if self.samples.len() >= self.max_samples {
            let _ = self.samples.pop_front();
            if !self.overflow_logged {
                warn = true;
            }
            self.overflow_logged = true;
        }
        self.samples.push_back(sample);
        assert(self.samples@ =~= keep_last(old(self).samples@.push(sample), old(self).max_samples as nat));
        warn
    }

    /// Puts `batch` back in front of the held snapshots, in its order, then
    /// drops from the back whatever exceeds the capacity.
    pub fn extend_front(&mut self, batch: Vec<BatteryInfo>)
        requires
            old(self).wf(),
        ensures
            final(self).wf(),
            final(self).cap() == old(self).cap(),
            final(self).overflow_reported() == old(self).overflow_reported(),
            final(self).contents() == keep_first(batch@ + old(self).contents(), old(self).cap()),
    {
        let mut batch = batch;
        let ghost all = batch@;
        let ghost held = self.samples@;
        let ghost cap = self.max_samples as nat;
        while batch.len() > 0
            invariant
                self.wf(),
                self.max_samples as nat == cap,
                self.overflow_logged == old(self).overflow_logged,
                held == old(self).samples@,
                batch@ == all.subrange(0, batch@.len() as int),
                all.len() >= batch@.len(),
                self.samples@ == keep_first(all.subrange(batch@.len() as int, all.len() as int) + held, cap),
            decreases batch@.len(),
        {
            let ghost k = batch@.len() as int;
            let ghost rest = all.subrange(k, all.len() as int) + held;
            let x = batch.pop().unwrap();
            assert(x == all[k - 1]);
            assert(all.subrange(k - 1, all.len() as int) + held =~= seq![x] + rest);
            if self.samples.len() >= self.max_samples {
                let _ = self.samples.pop_back();
            }
            self.samples.push_front(x);
            assert(self.samples@ =~= keep_first(seq![x] + rest, cap));
        }
        assert(all.subrange(0, all.len() as int) =~= all);
    }

    /// Takes every held snapshot, oldest first, and rearms the overflow
    /// warning.
    pub fn drain_all(&mut self) -> (r: Vec<BatteryInfo>)
        requires
            old(self).wf(),
        ensures
            final(self).wf(),
            final(self).cap() == old(self).cap(),
            r@ == old(self).contents(),
            final(self).contents() == Seq::<BatteryInfo>::empty(),
            !final(self).overflow_reported(),
    {
        self.overflow_logged = false;
        let mut out: Vec<BatteryInfo> = Vec::new();
        while self.samples.len() > 0
            invariant
                self.wf(),
                self.max_samples == old(self).max_samples,
                !self.overflow_logged,
                out@ + self.samples@ == old(self).samples@,
            decreases self.samples@.len(),
        {
            let ghost before = self.samples@;
            let x = self.samples.pop_front().unwrap();
            assert(before =~= seq![x] + self.samples@);
            out.push(x);
            assert(out@ + self.samples@ =~= old(self).samples@);
        }
        assert(out@ =~= old(self).samples@);
        out
    }

    pub fn is_empty(&self) -> (r: bool)
        ensures
            r == (self.contents().len() == 0),
    {
        self.samples.len() == 0
    }

    pub fn len(&self) -> (r: usize)
        ensures
            r == self.contents().len(),
    {
        self.samples.len()
    }

    pub fn capacity(&self) -> (r: usize)
        ensures
            r == self.cap(),
    {
        self.max_samples
    }
}

/// A full buffer keeps exactly the newest `cap` snapshots after a push.
pub proof fn lemma_push_keeps_newest(held: Seq<BatteryInfo>, s: BatteryInfo, cap: nat)
    requires
        cap >= 1,
        held.len() == cap,
    ensures
        keep_last(held.push(s), cap).len() == cap,
        keep_last(held.push(s), cap) == held.subrange(1, cap as int).push(s),
{
    assert(keep_last(held.push(s), cap) =~= held.subrange(1, cap as int).push(s));
}

/// Putting a batch back in front of a buffer whose capacity it exceeds keeps
/// the batch's first `cap` snapshots, in order, and nothing held before.
pub proof fn lemma_extend_front_overflow(batch: Seq<BatteryInfo>, held: Seq<BatteryInfo>, cap: nat)
    requires
        batch.len() > cap,
    ensures
        keep_first(batch + held, cap) == batch.subrange(0, cap as int),
{
    assert(keep_first(batch + held, cap) =~= batch.subrange(0, cap as int));
}

/// Draining a buffer and putting the batch back, with nothing pushed in
/// between, loses no snapshot and keeps their order.
pub proof fn lemma_requeue_keeps_batch(batch: Seq<BatteryInfo>, cap: nat)
    requires
        batch.len() <= cap,
    ensures
        keep_first(batch + Seq::<BatteryInfo>::empty(), cap) == batch,
{
    assert(batch + Seq::<BatteryInfo>::empty() =~= batch);
}

} // verus!
