use std::sync::Arc;
use vstd::prelude::*;
use crate::store::{CachedResult, ResultStore};

verus! {

/// What a read answers while no report has ever been stored.
pub open spec fn unavailable_message() -> Seq<char> {
    "Iperf3 result not available yet."@
}

/// The cached report, if any.
pub fn get_last_result<R>(store: &ResultStore<R>) -> (r: Option<Arc<R>>)
    ensures
        r == match store@ {
            Some(c) => Some(c.report),
            None => None::<Arc<R>>,
        },
{
    match store.get() {
        Some(c) => Some(c.report),
        None => None,
    }
}

/// Stores `result` as if a cycle had just accepted it at `captured_at`.
pub fn set_last_result_for_test<R>(store: &mut ResultStore<R>, result: Arc<R>, captured_at: u64)
    ensures
        final(store)@ == Some(CachedResult { report: result, captured_at }),
{
    store.set(result, captured_at);
}

/// Empties the store, as if no report had ever been stored.
pub fn clear_last_result_for_test<R>(store: &mut ResultStore<R>)
    ensures
        final(store)@ is None,
{
    store.clear();
}

/// The answer to a read of the current report: the cached report, or a
/// message saying that none is available yet.
pub fn current_result<R>(cached: Option<CachedResult<R>>) -> (r: Result<Arc<R>, String>)
    ensures
        match cached {
            Some(c) => r == Ok::<Arc<R>, String>(c.report),
            None => r is Err && r->Err_0@ == unavailable_message(),
        },
{
    match cached {
        Some(c) => Ok(c.report),
        None => {
            let msg = String::from_str("Iperf3 result not available yet.");
            proof {
                reveal_strlit("Iperf3 result not available yet.");
            }
            Err(msg)
        },
    }
}

/// The cached report, or a message saying that none is available yet.
pub fn get_cached_iperf3_result<R>(store: &ResultStore<R>) -> (r: Result<Arc<R>, String>)
    ensures
        match store@ {
            Some(c) => r == Ok::<Arc<R>, String>(c.report),
            None => r is Err && r->Err_0@ == unavailable_message(),
        },
{
    current_result(store.get())
}

} // verus!
