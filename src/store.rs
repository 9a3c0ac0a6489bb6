use std::sync::Arc;
use vstd::prelude::*;

verus! {

/// Relies on `Arc::clone`: the new handle points to the same value.
#[verifier::external_body]
fn share<R>(a: &Arc<R>) -> (r: Arc<R>)
    ensures
        r == *a,
{
    Arc::clone(a)
}

/// One accepted report and the instant it was accepted.
///
/// The report sits behind an `Arc`: handing it out copies a pointer, so a
/// reader holds a whole report no matter what the store does afterwards.
pub struct CachedResult<R> {
    pub report: Arc<R>,
    pub captured_at: u64,
}

impl<R> CachedResult<R> {
    /// Another handle on the same report and capture time.
    pub fn snapshot(&self) -> (r: Self)
        ensures
            r == *self,
    {
        CachedResult { report: share(&self.report), captured_at: self.captured_at }
    }
}

/// A change made to the store.
pub enum StoreOp<R> {
    /// Replace the contents by a report accepted at an instant.
    Put(Arc<R>, u64),
    /// Empty the store.
    Clear,
}

/// The contents after one change.
pub open spec fn apply_op<R>(s: Option<CachedResult<R>>, op: StoreOp<R>) -> Option<CachedResult<R>> {
    match op {
        StoreOp::Put(report, captured_at) => Some(CachedResult { report, captured_at }),
        StoreOp::Clear => None,
    }
}

/// The contents after a sequence of changes, first to last.
pub open spec fn apply_ops<R>(s: Option<CachedResult<R>>, ops: Seq<StoreOp<R>>) -> Option<
    CachedResult<R>,
>
    decreases ops.len(),
{
    if ops.len() == 0 {
        s
    } else {
        apply_ops(apply_op(s, ops[0]), ops.drop_first())
    }
}

/// The single slot: empty, or exactly one cached result.
pub struct ResultStore<R> {
    slot: Option<CachedResult<R>>,
}

impl<R> View for ResultStore<R> {
    type V = Option<CachedResult<R>>;

    closed spec fn view(&self) -> Option<CachedResult<R>> {
        self.slot
    }
}

impl<R> ResultStore<R> {
    /// A store that has never been filled.
    pub fn new() -> (s: Self)
        ensures
            s@ is None,
    {
        ResultStore { slot: None }
    }

    /// A snapshot of the cached result, if there is one. The store is not changed.
    pub fn get(&self) -> (r: Option<CachedResult<R>>)
        ensures
            r == self@,
    {
        match &self.slot {
            Some(c) => Some(c.snapshot()),
            None => None,
        }
    }

    /// Replaces whatever was cached by `report`, accepted at `captured_at`.
    pub fn set(&mut self, report: Arc<R>, captured_at: u64)
        ensures
            final(self)@ == apply_op(old(self)@, StoreOp::Put(report, captured_at)),
            final(self)@ == Some(CachedResult { report, captured_at }),
    {
        self.slot = Some(CachedResult { report, captured_at });
    }

    /// Empties the store.
    pub fn clear(&mut self)
        ensures
            final(self)@ == apply_op(old(self)@, StoreOp::Clear),
            final(self)@ is None,
    {
        self.slot = None;
    }

    /// Whether a result is cached.
    pub fn is_populated(&self) -> (b: bool)
        ensures
            b == self@ is Some,
    {
        self.slot.is_some()
    }
}

/// Applying two sequences of changes one after the other is applying their
/// concatenation.
pub proof fn lemma_apply_ops_concat<R>(
    s: Option<CachedResult<R>>,
    first: Seq<StoreOp<R>>,
    then: Seq<StoreOp<R>>,
)
    ensures
        apply_ops(s, first + then) == apply_ops(apply_ops(s, first), then),
    decreases first.len(),
{
    if first.len() == 0 {
        assert(first + then == then);
    } else {
        assert((first + then).drop_first() == first.drop_first() + then);
        lemma_apply_ops_concat(apply_op(s, first[0]), first.drop_first(), then);
    }
}

/// Only clears, from any state, leave the store empty once there was at least one.
proof fn lemma_clears_empty<R>(s: Option<CachedResult<R>>, ops: Seq<StoreOp<R>>)
    requires
        forall|i: int| 0 <= i < ops.len() ==> (#[trigger] ops[i]) is Clear,
        ops.len() > 0 || s is None,
    ensures
        apply_ops(s, ops) is None,
    decreases ops.len(),
{
    if ops.len() > 0 {
        assert forall|i: int| 0 <= i < ops.drop_first().len() implies (#[trigger] ops.drop_first()[i]) is Clear by {
            assert(ops.drop_first()[i] == ops[i + 1]);
        }
        lemma_clears_empty(apply_op(s, ops[0]), ops.drop_first());
    }
}

/// Once cleared, the store stays empty, so reads report that nothing is
/// available, until the next set; right after that set it holds the set
/// report and capture time.
pub proof fn lemma_clear_then_unavailable<R>(
    s: Option<CachedResult<R>>,
    ops: Seq<StoreOp<R>>,
    report: Arc<R>,
    captured_at: u64,
)
    requires
        forall|i: int| 0 <= i < ops.len() ==> (#[trigger] ops[i]) is Clear,
    ensures
        apply_ops(s, seq![StoreOp::Clear] + ops) is None,
        apply_ops(s, seq![StoreOp::Clear] + ops + seq![StoreOp::Put(report, captured_at)]) == Some(
            CachedResult { report, captured_at },
        ),
{
    let cleared = seq![StoreOp::Clear] + ops;
    assert forall|i: int| 0 <= i < cleared.len() implies (#[trigger] cleared[i]) is Clear by {
        if i > 0 {
            assert(cleared[i] == ops[i - 1]);
        }
    }
    lemma_clears_empty(s, cleared);
    let put = seq![StoreOp::Put(report, captured_at)];
    lemma_apply_ops_concat(s, cleared, put);
    assert(put.drop_first() == Seq::<StoreOp<R>>::empty());
    let set = Some(CachedResult { report, captured_at });
    assert(apply_ops(set, put.drop_first()) == set);
    assert(apply_ops(apply_ops(s, cleared), put) == set);
}

/// A second set replaces the first one whole: what is left is the second
/// report with the second capture time.
pub proof fn lemma_set_replaces<R>(
    s: Option<CachedResult<R>>,
    a: Arc<R>,
    captured_a: u64,
    b: Arc<R>,
    captured_b: u64,
)
    ensures
        apply_ops(s, seq![StoreOp::Put(a, captured_a), StoreOp::Put(b, captured_b)]) == Some(
            CachedResult { report: b, captured_at: captured_b },
        ),
{
    let ops = seq![StoreOp::Put(a, captured_a), StoreOp::Put(b, captured_b)];
    assert(ops.drop_first() == seq![StoreOp::Put(b, captured_b)]);
    assert(ops.drop_first().drop_first() == Seq::<StoreOp<R>>::empty());
    let rest = ops.drop_first();
    let last = Some(CachedResult { report: b, captured_at: captured_b });
    assert(apply_ops(last, rest.drop_first()) == last);
    assert(apply_ops(apply_op(s, ops[0]), rest) == last);
}

} // verus!
