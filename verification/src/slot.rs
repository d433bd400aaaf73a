//! The slot: a holder for one vector, replaced as a whole on every write.

use vstd::prelude::*;

verus! {

/// Holds the most recently written vector. A fresh slot holds the empty
/// vector. Elements are stored and handed back unchanged, so the slot is
/// generic in their type.
pub struct TestModel<T> {
    values: Vec<T>,
}

impl<T> View for TestModel<T> {
    type V = Seq<T>;

    closed spec fn view(&self) -> Seq<T> {
        self.values@
    }
}

/// What a slot holds before anything was written to it.
pub open spec fn initial_contents<T>() -> Seq<T> {
    Seq::empty()
}

/// What a slot holding `before` holds after `v` was written to it.
pub open spec fn written<T>(before: Seq<T>, v: Seq<T>) -> Seq<T> {
    v
}

/// What a slot holding `before` holds after `v` was offered as weights.
pub open spec fn weights_loaded<T>(before: Seq<T>, v: Seq<T>) -> Seq<T> {
    before
}

impl<T> TestModel<T> {
    /// A slot in its initial state.
    pub fn new() -> (model: Self)
        ensures
            model@ == initial_contents::<T>(),
    {
        TestModel { values: Vec::new() }
    }
}

/// Replaces the contents of the slot with `v`, whatever its length.
pub fn put_vector<T>(model: &mut TestModel<T>, v: Vec<T>)
    ensures
        final(model)@ == written(old(model)@, v@),
{
    model.values = v;
}

/// Accepts weights and does nothing with them: loading is not offered yet,
/// and the slot keeps what it holds.
pub fn load_weights<T>(model: &mut TestModel<T>, v: Vec<T>)
    ensures
        final(model)@ == weights_loaded(old(model)@, v@),
{
}

/// A copy of what the slot holds.
pub fn read_vector<T: Copy>(model: &TestModel<T>) -> (v: Vec<T>)
    ensures
        v@ == model@,
{
    let mut copy: Vec<T> = Vec::new();
    let n: usize = model.values.len();
    let mut i: usize = 0;
    while i < n
        invariant
            n == model.values@.len(),
            i <= n,
            copy@ == model.values@.take(i as int),
        decreases n - i,
    {
        copy.push(model.values[i]);
        i = i + 1;
    }
    copy
}

/// A slot that was never written to reads as the empty vector.
pub proof fn lemma_fresh_slot_is_empty<T>()
    ensures
        initial_contents::<T>().len() == 0,
{
}

/// Reading after a write gives exactly what was written, element for
/// element, whatever the slot held before.
pub proof fn lemma_write_then_read<T>(before: Seq<T>, v: Seq<T>)
    ensures
        written(before, v) == v,
{
}

/// Writing the same vector a second time changes nothing.
pub proof fn lemma_write_is_idempotent<T>(before: Seq<T>, v: Seq<T>)
    ensures
        written(written(before, v), v) == written(before, v),
{
}

/// Offering weights leaves the slot as it was.
pub proof fn lemma_load_weights_changes_nothing<T>(before: Seq<T>, v: Seq<T>)
    ensures
        weights_loaded(before, v) == before,
{
}

} // verus!
