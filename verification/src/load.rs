//! When the device counts as under load.
//!
//! The device is under load while more handshake messages wait than it can
//! work off. The UDP worker notes the moment whenever the counter of pending
//! messages stands above the threshold; the state lapses once that moment
//! lies further back than the under-load duration.

use vstd::prelude::*;
use crate::constants::DURATION_UNDER_LOAD;
use crate::constants::THRESHOLD_UNDER_LOAD;
use crate::constants::TIME_HORIZON;

verus! {

/// What the pending counter holds once a message that found it at `previous`
/// has been counted. The counter wraps like the machine word it is.
pub open spec fn counted(previous: usize) -> usize {
    if previous == usize::MAX {
        0
    } else {
        (previous + 1) as usize
    }
}

/// Whether a moment `last` lies more than the under-load duration before
/// `now`, both in milliseconds of one monotonic clock.
pub open spec fn aged(last: u64, now: u64) -> bool {
    now - last > DURATION_UNDER_LOAD
}

/// Whether a device whose flag reads `flag`, last raised at `last`, is still
/// under load at `now`.
pub open spec fn still_under_load(flag: bool, last: u64, now: u64) -> bool {
    flag && !aged(last, now)
}

/// What one handshake message tells the UDP worker about the load.
#[derive(Clone, Copy, Debug, PartialEq, Eq, Structural)]
pub enum LoadSignal {
    /// The counter stands above the threshold: the device is under load as of now.
    Raise,
    /// The counter is within the threshold and the last time it was not lies
    /// further back than the under-load duration.
    Quiet,
    /// The counter is within the threshold, but was not until recently.
    Recent,
}

/// The signal that a message gives which found the counter at `previous`,
/// when the threshold was last exceeded at `last` and the clock reads `now`.
pub open spec fn signal_of(last: u64, previous: usize, now: u64) -> LoadSignal {
    if counted(previous) > THRESHOLD_UNDER_LOAD {
        LoadSignal::Raise
    } else if aged(last, now) {
        LoadSignal::Quiet
    } else {
        LoadSignal::Recent
    }
}

/// The UDP worker's own record of when the device was last under load.
#[derive(Clone, Copy, Debug)]
pub struct LoadWatch {
    last_under_load: u64,
}

impl LoadWatch {
    /// The moment at which the threshold was last seen exceeded.
    pub closed spec fn last(self) -> u64 {
        self.last_under_load
    }

    /// A record that starts out far in the past: a full time horizon before
    /// `now`.
    pub fn new(now: u64) -> (watch: Self)
        requires
            now >= TIME_HORIZON,
        ensures
            watch.last() == now - TIME_HORIZON,
    {
        LoadWatch { last_under_load: now - TIME_HORIZON }
    }

    /// The moment at which the threshold was last seen exceeded.
    pub fn last_under_load(&self) -> (last: u64)
        ensures
            last == self.last(),
    {
        self.last_under_load
    }

    /// Takes note of one handshake message: `previous` is what the pending
    /// counter held before the message was counted. Above the threshold the
    /// record moves to `now`; otherwise it stays.
    pub fn observe(&mut self, previous: usize, now: u64) -> (signal: LoadSignal)
        ensures
            signal == signal_of(old(self).last(), previous, now),
            final(self).last() == if signal == LoadSignal::Raise {
                now
            } else {
                old(self).last()
            },
    {
        let pending: usize = previous.wrapping_add(1);
        if pending > THRESHOLD_UNDER_LOAD {
            self.last_under_load = now;
            LoadSignal::Raise
        } else if now.saturating_sub(self.last_under_load) > DURATION_UNDER_LOAD {
            LoadSignal::Quiet
        } else {
            LoadSignal::Recent
        }
    }
}

/// Decides whether the device is still under load at `now`.
pub fn settle(flag: bool, last: u64, now: u64) -> (under_load: bool)
    ensures
        under_load == still_under_load(flag, last, now),
{
    flag && now.saturating_sub(last) <= DURATION_UNDER_LOAD
}

/// Without drain the counter counts the messages: the `n`-th of them finds
/// it at `n - 1` and leaves it at `n`, and gives the signal to raise exactly
/// when `n` is above the threshold.
pub proof fn lemma_counter_counts(n: nat, last: u64, now: u64)
    requires
        0 < n <= usize::MAX,
    ensures
        counted((n - 1) as usize) == n,
        signal_of(last, (n - 1) as usize, now) == LoadSignal::Raise <==> n > THRESHOLD_UNDER_LOAD,
{
}

} // verus!
