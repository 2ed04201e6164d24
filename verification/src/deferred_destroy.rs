//! End-of-fixed-step deferred destruction requests (native AI handler +0x12C).

use fxhash::FxHashSet;
use vstd::prelude::*;

use crate::collections::{fx_set_contains, fx_set_drain, fx_set_insert};

verus! {

/// Keys of live AI instances whose destruction was requested during the current
/// fixed step. A request does not unlink anything by itself; the host flushes the
/// whole set at the end of the step.
pub struct NativeSerializedAiDeferredDestroyRuntime {
    pending: FxHashSet<u64>,
}

impl NativeSerializedAiDeferredDestroyRuntime {
    /// The keys that await destruction.
    pub closed spec fn pending_keys(&self) -> Set<u64> {
        self.pending@
    }

    /// Requests destruction of `key`; requesting it again changes nothing.
    pub fn mark(&mut self, key: u64)
        ensures
            final(self).pending_keys() == old(self).pending_keys().insert(key),
    {
        let _ = fx_set_insert(&mut self.pending, key);
    }

    /// Whether destruction of `key` has been requested and not yet flushed.
    pub fn is_pending(&self, key: u64) -> (pending: bool)
        ensures
            pending == self.pending_keys().contains(key),
    {
        fx_set_contains(&self.pending, key)
    }

    /// Hands out every pending key exactly once and forgets them all.
    pub fn take_all(&mut self) -> (keys: Vec<u64>)
        ensures
            keys@.to_set() == old(self).pending_keys(),
            keys@.no_duplicates(),
            final(self).pending_keys() == Set::<u64>::empty(),
    {
        fx_set_drain(&mut self.pending)
    }

    /// Drops every pending request.
    pub fn clear(&mut self)
        ensures
            final(self).pending_keys() == Set::<u64>::empty(),
    {
        self.pending.clear();
    }
}

impl Default for NativeSerializedAiDeferredDestroyRuntime {
    /// No pending request.
    fn default() -> (runtime: Self)
        ensures
            runtime.pending_keys() == Set::<u64>::empty(),
    {
        NativeSerializedAiDeferredDestroyRuntime { pending: FxHashSet::default() }
    }
}

} // verus!
