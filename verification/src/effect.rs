//! The lifetime-changing requests that this crate hands to its driver.

use vstd::prelude::*;

verus! {

/// One step that the driver has to carry out on the native side. The steps
/// that an operation returns are carried out in the order given.
#[derive(Clone, Copy, Debug, PartialEq, Eq, Structural)]
pub enum Effect {
    /// Add one to the retain count of the object at this address.
    Retain(usize),
    /// Tell the server or client at this address to stop.
    Stop(usize),
    /// Give up one reference to the object at this address, or destroy it
    /// where the object is not counted.
    Release(usize),
    /// Free the callback storage at this address.
    DropCallback(usize),
}

impl Effect {
    /// The address that the step acts on.
    pub open spec fn target(self) -> usize {
        match self {
            Effect::Retain(a) => a,
            Effect::Stop(a) => a,
            Effect::Release(a) => a,
            Effect::DropCallback(a) => a,
        }
    }

    /// The address that the step acts on.
    pub fn address(&self) -> (a: usize)
        ensures
            a == self.target(),
    {
        match self {
            Effect::Retain(a) => *a,
            Effect::Stop(a) => *a,
            Effect::Release(a) => *a,
            Effect::DropCallback(a) => *a,
        }
    }
}

/// How many steps of `trace` are the step `e`.
pub open spec fn occurrences(trace: Seq<Effect>, e: Effect) -> nat
    decreases trace.len(),
{
    if trace.len() == 0 {
        0
    } else if trace.last() == e {
        occurrences(trace.drop_last(), e) + 1
    } else {
        occurrences(trace.drop_last(), e)
    }
}

/// How many steps of `trace` retain the object at `addr`.
pub open spec fn retains(trace: Seq<Effect>, addr: usize) -> nat {
    occurrences(trace, Effect::Retain(addr))
}

/// How many steps of `trace` release the object at `addr`.
pub open spec fn releases(trace: Seq<Effect>, addr: usize) -> nat {
    occurrences(trace, Effect::Release(addr))
}

/// The steps of an optional step: itself, or none.
pub open spec fn steps_of(e: Option<Effect>) -> Seq<Effect> {
    match e {
        Some(e) => seq![e],
        None => Seq::empty(),
    }
}

/// Counting goes along with joining traces.
pub proof fn lemma_occurrences_add(a: Seq<Effect>, b: Seq<Effect>, e: Effect)
    ensures
        occurrences(a + b, e) == occurrences(a, e) + occurrences(b, e),
    decreases b.len(),
{
    if b.len() == 0 {
        assert(a + b == a);
    } else {
        assert((a + b).drop_last() == a + b.drop_last());
        lemma_occurrences_add(a, b.drop_last(), e);
    }
}

/// A trace of one step counts that step once and no other.
pub proof fn lemma_occurrences_one(step: Effect, e: Effect)
    ensures
        occurrences(seq![step], e) == (if step == e { 1nat } else { 0nat }),
{
    assert(seq![step].drop_last() == Seq::<Effect>::empty());
    assert(occurrences(Seq::<Effect>::empty(), e) == 0);
}

/// What a trace of at most one step counts.
pub proof fn lemma_occurrences_steps(step: Option<Effect>, e: Effect)
    ensures
        occurrences(steps_of(step), e) == (if step == Some(e) { 1nat } else { 0nat }),
{
    if let Some(s) = step {
        lemma_occurrences_one(s, e);
    }
}

} // verus!
