//! Decisions of the remote writer: what to post on each tick, what to do
//! when a post fails, and how long to back off.
use crate::buffer::{keep_first, SampleBuffer};
use crate::query::BatteryInfo;
use vstd::prelude::*;

verus! {

pub const INITIAL_BACKOFF_SECS: u64 = 1;
pub const MAX_BACKOFF_SECS: u64 = 60;

/// The backoff after a failure with backoff `secs`: doubled, at most a minute.
pub open spec fn next_backoff(secs: u64) -> u64 {
    if 2 * secs > 60 {
        60
    } else {
        (2 * secs) as u64
    }
}

/// Two to the power `k`.
pub open spec fn pow2(k: nat) -> nat
    decreases k,
{
    if k == 0 {
        1
    } else {
        2 * pow2((k - 1) as nat)
    }
}

/// The delay after `k` consecutive failures from a fresh or just-reset
/// backoff.
pub open spec fn backoff_after_failures(k: nat) -> u64
    decreases k,
{
    if k == 0 {
        INITIAL_BACKOFF_SECS
    } else {
        next_backoff(backoff_after_failures((k - 1) as nat))
    }
}

/// The delay doubles with each consecutive failure up to a minute: after `k`
/// failures it is `min(2^k, 60)` seconds, so the sleep after the `k`-th
/// failure (1-based) is `min(2^(k-1), 60)`.
pub proof fn lemma_backoff_doubles(k: nat)
    ensures
        backoff_after_failures(k) == if pow2(k) < 60 {
            pow2(k)
        } else {
            60
        },
    decreases k,
{
    if k > 0 {
        lemma_backoff_doubles((k - 1) as nat);
        assert(pow2(k) == 2 * pow2((k - 1) as nat));
    }
}

/// Retry delay of the writer, in seconds.
#[derive(Debug, Clone, Copy, PartialEq, Eq, Structural)]
pub struct Backoff {
    pub secs: u64,
}

impl Backoff {
    pub open spec fn wf(&self) -> bool {
        1 <= self.secs <= 60
    }

    pub fn new() -> (r: Backoff)
        ensures
            r.wf(),
            r.secs == 1,
    {
        Backoff { secs: INITIAL_BACKOFF_SECS }
    }

    /// A successful post resets the delay to one second.
    pub fn on_success(&mut self)
        ensures
            final(self).wf(),
            final(self).secs == 1,
    {
        self.secs = INITIAL_BACKOFF_SECS;
    }

    /// A failed post: returns how long to sleep, the current delay, and
    /// doubles the delay up to a minute.
    pub fn on_failure(&mut self) -> (sleep_secs: u64)
        requires
            old(self).wf(),
        ensures
            final(self).wf(),
            sleep_secs == old(self).secs,
            final(self).secs == next_backoff(old(self).secs),
    {
        let sleep_secs = self.secs;
        self.secs = if 2 * self.secs > MAX_BACKOFF_SECS { MAX_BACKOFF_SECS } else { 2 * self.secs };
        sleep_secs
    }
}

/// The batch to post on a tick: everything buffered, or `None` when the
/// buffer is empty and the tick is skipped.
pub fn take_batch(buffer: &mut SampleBuffer) -> (r: Option<Vec<BatteryInfo>>)
    requires
        old(buffer).wf(),
    ensures
        final(buffer).wf(),
        final(buffer).cap() == old(buffer).cap(),
        old(buffer).contents().len() == 0 ==> r is None && final(buffer).contents() == old(buffer).contents(),
        old(buffer).contents().len() > 0 ==> r is Some && r->Some_0@ == old(buffer).contents()
            && final(buffer).contents().len() == 0,
{
    if buffer.is_empty() {
        None
    } else {
        Some(buffer.drain_all())
    }
}

/// After a failed post: puts the batch back in front of whatever was
/// buffered meanwhile, in its order, and returns how long to sleep.
pub fn requeue_after_failure(buffer: &mut SampleBuffer, batch: Vec<BatteryInfo>, backoff: &mut Backoff) -> (sleep_secs: u64)
    requires
        old(buffer).wf(),
        old(backoff).wf(),
    ensures
        final(buffer).wf(),
        final(buffer).cap() == old(buffer).cap(),
        final(buffer).contents() == keep_first(batch@ + old(buffer).contents(), old(buffer).cap()),
        final(backoff).wf(),
        sleep_secs == old(backoff).secs,
        final(backoff).secs == next_backoff(old(backoff).secs),
{
    buffer.extend_front(batch);
    backoff.on_failure()
}

/// `s` without its trailing slashes.
pub open spec fn trim_slashes_end(s: Seq<char>) -> Seq<char>
    decreases s.len(),
{
    if s.len() > 0 && s.last() == '/' {
        trim_slashes_end(s.drop_last())
    } else {
        s
    }
}

/// The write endpoint of a time-series database at `base`.
pub fn write_url(base: &str) -> (r: String)
    ensures
        r@ == trim_slashes_end(base@) + "/write"@,
{
    let n = base.unicode_len();
    let mut end: usize = n;
    assert(base@.subrange(0, n as int) =~= base@);
    while end > 0 && base.get_char(end - 1) == '/'
        invariant
            end <= n,
            n == base@.len(),
            trim_slashes_end(base@) == trim_slashes_end(base@.subrange(0, end as int)),
        decreases end,
    {
        assert(base@.subrange(0, end as int).drop_last() =~= base@.subrange(0, end - 1));
        end = end - 1;
    }
    let mut url = String::from_str(base.substring_char(0, end));
    url.append("/write");
    url
}

} // verus!
