//! The state that the workers of one device share.

use vstd::prelude::*;
use std::sync::atomic::AtomicBool;
use std::sync::atomic::AtomicU64;
use std::sync::atomic::AtomicUsize;
use std::sync::atomic::Ordering;
use crate::load::settle;

verus! {

/// The device-wide under-load state: a flag, and the moment it was last
/// raised. The UDP workers raise it; the handshake workers let it lapse.
pub struct UnderLoad {
    flag: AtomicBool,
    last: AtomicU64,
}

impl UnderLoad {
    /// A device that is not under load.
    pub fn new() -> Self {
        UnderLoad { flag: AtomicBool::new(false), last: AtomicU64::new(0) }
    }

    /// Whether the flag is up.
    pub fn is_set(&self) -> bool {
        self.flag.load(Ordering::SeqCst)
    }

    /// Puts the device under load as of `now`.
    pub(crate) fn raise(&self, now: u64) {
        self.last.store(now, Ordering::SeqCst);
        self.flag.store(true, Ordering::SeqCst);
    }

    /// Lets the flag lapse if it was last raised too long before `now`, and
    /// says whether the device is still under load.
    pub(crate) fn lapse(&self, now: u64) -> bool {
        let flag: bool = self.flag.load(Ordering::SeqCst);
        let last: u64 = self.last.load(Ordering::SeqCst);
        let under_load: bool = settle(flag, last, now);
        if flag && !under_load {
            self.flag.store(false, Ordering::SeqCst);
        }
        under_load
    }
}

/// Counts one more pending handshake message and returns what the counter
/// held before.
pub(crate) fn count_pending(pending: &AtomicUsize) -> usize {
    pending.fetch_add(1, Ordering::SeqCst)
}

/// Counts one pending handshake message less.
pub(crate) fn drain_pending(pending: &AtomicUsize) {
    pending.fetch_sub(1, Ordering::SeqCst);
}

} // verus!
