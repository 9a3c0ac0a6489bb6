use std::sync::Arc;
use vstd::prelude::*;
use vstd::rwlock::{RwLock, RwLockPredicate};
use crate::query::{current_result, unavailable_message};
use crate::refresher::{Action, CycleFailure, Phase, Refresher};
use crate::store::{CachedResult, ResultStore};

verus! {

/// What the lock admits: any state of the store. The lock moves whole
/// stores in and out, so there is nothing partial for it to rule out.
pub struct AnyState;

impl<R> RwLockPredicate<ResultStore<R>> for AnyState {
    open spec fn inv(self, s: ResultStore<R>) -> bool {
        true
    }
}

/// A result store shared between the refresh loop and any number of readers.
///
/// Every operation holds the lock only to move or copy a pointer-sized
/// entry, so no reader waits on a measurement, and each reader gets either
/// the entry from before a write or the one from after it, never a mix.
pub struct SharedStore<R> {
    lock: RwLock<ResultStore<R>, AnyState>,
}

impl<R> SharedStore<R> {
    /// A shared store that has never been filled.
    pub fn new() -> (s: Self) {
        SharedStore { lock: RwLock::new(ResultStore::new(), Ghost(AnyState)) }
    }

    /// A snapshot of the cached result, if there is one, taken under the read lock.
    pub fn get(&self) -> (r: Option<CachedResult<R>>) {
        let handle = self.lock.acquire_read();
        let r = handle.borrow().get();
        handle.release_read();
        r
    }

    /// Replaces the cached result under the write lock.
    pub fn set(&self, report: Arc<R>, captured_at: u64) {
        let (mut inner, handle) = self.lock.acquire_write();
        inner.set(report, captured_at);
        handle.release_write(inner);
    }

    /// Empties the store under the write lock.
    pub fn clear(&self) {
        let (mut inner, handle) = self.lock.acquire_write();
        inner.clear();
        handle.release_write(inner);
    }

    /// The cached report, or a message saying that none is available yet.
    pub fn current_result(&self) -> (r: Result<Arc<R>, String>)
        ensures
            r is Err ==> r->Err_0@ == unavailable_message(),
    {
        current_result(self.get())
    }

    /// Ends the cycle whose output was parsed into `parsed`: a report is
    /// stored under the write lock, accepted at `now`; a parse error leaves
    /// the store untouched and takes no lock.
    pub fn finish_cycle(
        &self,
        refresher: &mut Refresher,
        parsed: Result<Arc<R>, String>,
        now: u64,
    ) -> (a: Action)
        requires
            old(refresher).spec_phase() == Phase::Parsing,
        ensures
            final(refresher).spec_phase() == Phase::Waiting,
            final(refresher).spec_interval_secs() == old(refresher).spec_interval_secs(),
            match parsed {
                Ok(_) => a == Action::Committed,
                Err(e) => a == Action::Failed(CycleFailure::Parse(e)),
            },
    {
        match parsed {
            Ok(report) => {
                let (mut inner, handle) = self.lock.acquire_write();
                let a = refresher.on_parsed(&mut inner, Ok(report), now);
                handle.release_write(inner);
                a
            },
            Err(e) => {
                let mut untouched: ResultStore<R> = ResultStore::new();
                refresher.on_parsed(&mut untouched, Err(e), now)
            },
        }
    }
}

} // verus!
