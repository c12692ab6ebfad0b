//! A non-null native address with one owner and one release.

use vstd::prelude::*;
use crate::effect::{
    lemma_occurrences_add, lemma_occurrences_steps, occurrences, releases, steps_of, Effect,
};

verus! {

/// What is known of a [`Handle`]: the address it wraps, and whether the
/// native object behind it has been released through this handle.
pub struct HandleView {
    /// The address of the native object. It is not null.
    pub addr: usize,
    /// Whether the native object has not been released through the handle.
    pub live: bool,
}

/// The single owner of one native object.
///
/// A handle is never null. It hands out its address only while it is live,
/// and asks for the release of its object once.
pub struct Handle {
    addr: usize,
    live: bool,
}

impl View for Handle {
    type V = HandleView;

    closed spec fn view(&self) -> HandleView {
        HandleView { addr: self.addr, live: self.live }
    }
}

impl Handle {
    #[verifier::type_invariant]
    spec fn nonnull(self) -> bool {
        self.addr != 0
    }

    /// Wraps what a native constructor returned. A null pointer is a failed
    /// construction and gives no handle.
    pub fn new(raw: usize) -> (h: Option<Handle>)
        ensures
            h is None <==> raw == 0,
            h matches Some(h) ==> h@ == (HandleView { addr: raw, live: true }),
    {
        if raw == 0 {
            None
        } else {
            Some(Handle { addr: raw, live: true })
        }
    }

    /// The address to pass to a native function, as long as the object has not
    /// been released.
    pub fn as_ptr(&self) -> (p: Option<usize>)
        ensures
            p == (if self@.live { Some(self@.addr) } else { None }),
            self@.addr != 0,
    {
        proof {
            use_type_invariant(self);
        }
        if self.live {
            Some(self.addr)
        } else {
            None
        }
    }

    /// Gives up the native object. The first call asks for its release, every
    /// later call asks for nothing.
    pub fn release(&mut self) -> (e: Option<Effect>)
        ensures
            e == release_step(old(self)@),
            final(self)@ == released(old(self)@),
    {
        proof {
            use_type_invariant(&*self);
        }
        if self.live {
            self.live = false;
            Some(Effect::Release(self.addr))
        } else {
            None
        }
    }
}

/// What a handle asks for when it is released: the release of its object
/// while it is live, and nothing after.
pub open spec fn release_step(v: HandleView) -> Option<Effect> {
    if v.live {
        Some(Effect::Release(v.addr))
    } else {
        None
    }
}

/// The handle after it was released.
pub open spec fn released(v: HandleView) -> HandleView {
    HandleView { addr: v.addr, live: false }
}

/// All steps that `n` releases of a handle ask for, one after the other.
pub open spec fn release_trace(v: HandleView, n: nat) -> Seq<Effect>
    decreases n,
{
    if n == 0 {
        Seq::empty()
    } else {
        steps_of(release_step(v)) + release_trace(released(v), (n - 1) as nat)
    }
}

/// After its release a handle asks for nothing, and stays released.
pub proof fn lemma_released_asks_nothing(v: HandleView)
    ensures
        release_step(released(v)) is None,
        released(released(v)) == released(v),
{
}

/// A handle asks for the release of its object once: however often it is
/// released, the first release of a live handle asks for it, and none that
/// follows does.
pub proof fn lemma_release_once(v: HandleView, n: nat)
    ensures
        releases(release_trace(v, n), v.addr) == (if v.live && n > 0 { 1nat } else { 0nat }),
        releases(release_trace(v, n), v.addr) <= 1,
    decreases n,
{
    let e = Effect::Release(v.addr);
    if n == 0 {
        assert(occurrences(Seq::<Effect>::empty(), e) == 0);
    } else {
        lemma_release_once(released(v), (n - 1) as nat);
        lemma_occurrences_steps(release_step(v), e);
        lemma_occurrences_add(
            steps_of(release_step(v)),
            release_trace(released(v), (n - 1) as nat),
            e,
        );
    }
}

/// The address of a graphics context or device that a server or client
/// draws with. Its user does not own it and never frees it. It is never null.
pub struct ContextRef {
    addr: usize,
}

impl View for ContextRef {
    type V = usize;

    closed spec fn view(&self) -> usize {
        self.addr
    }
}

impl ContextRef {
    #[verifier::type_invariant]
    spec fn nonnull(self) -> bool {
        self.addr != 0
    }

    /// Wraps the address of a context or device. A null pointer is none.
    pub fn new(raw: usize) -> (c: Option<ContextRef>)
        ensures
            c is None <==> raw == 0,
            c matches Some(c) ==> c@ == raw,
    {
        if raw == 0 {
            None
        } else {
            Some(ContextRef { addr: raw })
        }
    }

    /// The address.
    pub fn as_ptr(&self) -> (p: usize)
        ensures
            p == self@,
            p != 0,
    {
        proof {
            use_type_invariant(self);
        }
        self.addr
    }
}

} // verus!
