//! Server descriptions and their retain counts.
//!
//! A description names one server. The native side counts the references to
//! it. A borrowed description holds none of them and is good only until the
//! directory it came from is refreshed. An owned description holds one, and
//! gives it back when it is disposed of.

use vstd::prelude::*;
use crate::effect::{
    lemma_occurrences_add, lemma_occurrences_steps, releases, retains, steps_of, Effect,
};
use crate::text::{chars_view, text_in_reply, text_of_reply};

verus! {

/// What is known of a [`ServerDescription`].
pub struct DescriptionView {
    /// The address of the native description.
    pub addr: usize,
    /// Whether the description holds a reference of its own.
    pub owned: bool,
    /// Whether the description has not been disposed of.
    pub live: bool,
}

/// A description as a directory listing hands it out: not retained.
pub open spec fn borrowed_at(addr: usize) -> DescriptionView {
    DescriptionView { addr, owned: false, live: true }
}

/// A description that holds a reference of its own.
pub open spec fn owned_at(addr: usize) -> DescriptionView {
    DescriptionView { addr, owned: true, live: true }
}

/// Whether a description can still be read when the directory listing that
/// was current at its making is gone.
pub open spec fn outlives_snapshot(v: DescriptionView) -> bool {
    v.live && v.owned
}

/// The step that disposing of a description asks for: the release of its own
/// reference, if it holds one.
pub open spec fn dispose_step(v: DescriptionView) -> Option<Effect> {
    if v.live && v.owned {
        Some(Effect::Release(v.addr))
    } else {
        None
    }
}

/// The name, application name and identity of one server.
pub struct ServerDescription {
    addr: usize,
    owned: bool,
    live: bool,
}

impl View for ServerDescription {
    type V = DescriptionView;

    closed spec fn view(&self) -> DescriptionView {
        DescriptionView { addr: self.addr, owned: self.owned, live: self.live }
    }
}

impl ServerDescription {
    #[verifier::type_invariant]
    spec fn nonnull(self) -> bool {
        self.addr != 0
    }

    /// Wraps a description that the native side handed out without retaining
    /// it. A null pointer gives nothing.
    pub fn borrowed(raw: usize) -> (d: Option<ServerDescription>)
        ensures
            d is None <==> raw == 0,
            d matches Some(d) ==> d@ == borrowed_at(raw),
    {
        if raw == 0 {
            None
        } else {
            Some(ServerDescription { addr: raw, owned: false, live: true })
        }
    }

    /// Wraps a description that the native side retained for the caller. A
    /// null pointer gives nothing.
    pub fn owned(raw: usize) -> (d: Option<ServerDescription>)
        ensures
            d is None <==> raw == 0,
            d matches Some(d) ==> d@ == owned_at(raw),
    {
        if raw == 0 {
            None
        } else {
            Some(ServerDescription { addr: raw, owned: true, live: true })
        }
    }

    /// Whether the description holds a reference of its own.
    pub fn is_owned(&self) -> (b: bool)
        ensures
            b == self@.owned,
    {
        self.owned
    }

    /// The address for a native call, until the description is disposed of.
    pub fn as_ptr(&self) -> (p: Option<usize>)
        ensures
            p == (if self@.live { Some(self@.addr) } else { None }),
            self@.addr != 0,
    {
        proof {
            use_type_invariant(self);
        }
        if self.live {
            Some(self.addr)
        } else {
            None
        }
    }

    /// Whether two descriptions name the same native object. Descriptions
    /// with equal names need not.
    pub fn same_server(&self, other: &ServerDescription) -> (b: bool)
        ensures
            b == (self@.addr == other@.addr),
    {
        self.addr == other.addr
    }

    /// The identity of the server, from the bytes that the native side gave
    /// for it. Absent where it gave none or no well-formed text.
    pub fn uuid(&self, reply: Option<&[u8]>) -> (text: Option<String>)
        ensures
            chars_view(text) == (if self@.live { text_in_reply(reply) } else { None }),
    {
        if self.live {
            text_of_reply(reply)
        } else {
            None
        }
    }

    /// The name of the server, from the bytes that the native side gave for
    /// it. Absent where it gave none or no well-formed text.
    pub fn name(&self, reply: Option<&[u8]>) -> (text: Option<String>)
        ensures
            chars_view(text) == (if self@.live { text_in_reply(reply) } else { None }),
    {
        if self.live {
            text_of_reply(reply)
        } else {
            None
        }
    }

    /// The name of the application that runs the server, from the bytes that
    /// the native side gave for it. Absent where it gave none or no
    /// well-formed text.
    pub fn app_name(&self, reply: Option<&[u8]>) -> (text: Option<String>)
        ensures
            chars_view(text) == (if self@.live { text_in_reply(reply) } else { None }),
    {
        if self.live {
            text_of_reply(reply)
        } else {
            None
        }
    }

    /// Asks for one more reference on the native side. The description itself
    /// stays as it is: who retains by hand releases by hand.
    pub fn retain(&self) -> (e: Option<Effect>)
        ensures
            e == (if self@.live { Some(Effect::Retain(self@.addr)) } else { None }),
    {
        if self.live {
            Some(Effect::Retain(self.addr))
        } else {
            None
        }
    }

    /// Asks for one reference less on the native side. The description itself
    /// stays as it is.
    pub fn release(&self) -> (e: Option<Effect>)
        ensures
            e == (if self@.live { Some(Effect::Release(self@.addr)) } else { None }),
    {
        if self.live {
            Some(Effect::Release(self.addr))
        } else {
            None
        }
    }

    /// A second description of the same server, which holds a reference of
    /// its own whether or not this one does, and the retain that pays for it.
    pub fn retained_clone(&self) -> (c: Option<(ServerDescription, Effect)>)
        ensures
            c is Some <==> self@.live,
            c matches Some((d, e)) ==> d@ == owned_at(self@.addr) && e == Effect::Retain(
                self@.addr,
            ),
    {
        proof {
            use_type_invariant(self);
        }
        if self.live {
            Some(
                (
                    ServerDescription { addr: self.addr, owned: true, live: true },
                    Effect::Retain(self.addr),
                ),
            )
        } else {
            None
        }
    }

    /// Lets go of the description. An owned one gives its reference back,
    /// once; a borrowed one has none to give.
    pub fn dispose(&mut self) -> (e: Option<Effect>)
        ensures
            e == dispose_step(old(self)@),
            final(self)@ == disposed(old(self)@),
    {
        proof {
            use_type_invariant(&*self);
        }
        let step: Option<Effect> = if self.live && self.owned {
            Some(Effect::Release(self.addr))
        } else {
            None
        };
        self.live = false;
        step
    }
}

/// A clone can be read after the listing that its source came from is gone:
/// it is owned, whatever it was cloned from, and names the same server.
pub proof fn lemma_clone_outlives_snapshot(source: DescriptionView)
    requires
        source.live,
    ensures
        outlives_snapshot(owned_at(source.addr)),
        owned_at(source.addr).addr == source.addr,
        !source.owned ==> !outlives_snapshot(source) && dispose_step(source) is None,
{
}

/// What is done to one description out of several.
pub enum Handling {
    /// The description at this place is cloned; the clone joins the others.
    Clone(int),
    /// The description at this place is disposed of.
    Dispose(int),
}

/// Whether a description holds a reference to the object at `addr`.
pub open spec fn holds(v: DescriptionView, addr: usize) -> bool {
    v.live && v.owned && v.addr == addr
}

/// How many references to the object at `addr` the descriptions hold
/// between them.
pub open spec fn held(pool: Seq<DescriptionView>, addr: usize) -> nat
    decreases pool.len(),
{
    if pool.len() == 0 {
        0
    } else if holds(pool.last(), addr) {
        held(pool.drop_last(), addr) + 1
    } else {
        held(pool.drop_last(), addr)
    }
}

/// A description after it was disposed of.
pub open spec fn disposed(v: DescriptionView) -> DescriptionView {
    DescriptionView { live: false, ..v }
}

/// The descriptions after one of them was handled. Only a live description
/// can be cloned, and nothing is done at a place where there is none.
pub open spec fn handled(pool: Seq<DescriptionView>, h: Handling) -> Seq<DescriptionView> {
    match h {
        Handling::Clone(i) => if 0 <= i < pool.len() && pool[i].live {
            pool.push(owned_at(pool[i].addr))
        } else {
            pool
        },
        Handling::Dispose(i) => if 0 <= i < pool.len() {
            pool.update(i, disposed(pool[i]))
        } else {
            pool
        },
    }
}

/// The steps that one handling asks of the driver.
pub open spec fn handling_steps(pool: Seq<DescriptionView>, h: Handling) -> Seq<Effect> {
    match h {
        Handling::Clone(i) => if 0 <= i < pool.len() && pool[i].live {
            seq![Effect::Retain(pool[i].addr)]
        } else {
            Seq::empty()
        },
        Handling::Dispose(i) => if 0 <= i < pool.len() {
            steps_of(dispose_step(pool[i]))
        } else {
            Seq::empty()
        },
    }
}

/// The descriptions after a run of handlings.
pub open spec fn handled_all(pool: Seq<DescriptionView>, hs: Seq<Handling>) -> Seq<
    DescriptionView,
>
    decreases hs.len(),
{
    if hs.len() == 0 {
        pool
    } else {
        handled(handled_all(pool, hs.drop_last()), hs.last())
    }
}

/// All steps that a run of handlings asks of the driver, in order.
pub open spec fn handling_trace(pool: Seq<DescriptionView>, hs: Seq<Handling>) -> Seq<Effect>
    decreases hs.len(),
{
    if hs.len() == 0 {
        Seq::empty()
    } else {
        handling_trace(pool, hs.drop_last()) + handling_steps(
            handled_all(pool, hs.drop_last()),
            hs.last(),
        )
    }
}

/// What replacing one description does to the count of references held.
pub proof fn lemma_held_update(pool: Seq<DescriptionView>, i: int, v: DescriptionView, addr: usize)
    requires
        0 <= i < pool.len(),
    ensures
        held(pool.update(i, v), addr) + (if holds(pool[i], addr) { 1nat } else { 0nat }) == held(
            pool,
            addr,
        ) + (if holds(v, addr) { 1nat } else { 0nat }),
    decreases pool.len(),
{
    let next = pool.update(i, v);
    if i == pool.len() - 1 {
        assert(next.drop_last() == pool.drop_last());
    } else {
        assert(next.drop_last() == pool.drop_last().update(i, v));
        lemma_held_update(pool.drop_last(), i, v, addr);
    }
}

/// One handling keeps the books: what the descriptions hold afterwards, and
/// what was released, is what they held before, and what was retained.
pub proof fn lemma_handling_is_balanced(pool: Seq<DescriptionView>, h: Handling, addr: usize)
    ensures
        held(handled(pool, h), addr) + releases(handling_steps(pool, h), addr) == held(pool, addr)
            + retains(handling_steps(pool, h), addr),
{
    lemma_occurrences_steps(None, Effect::Release(addr));
    lemma_occurrences_steps(None, Effect::Retain(addr));
    match h {
        Handling::Clone(i) => {
            if 0 <= i < pool.len() && pool[i].live {
                let next = pool.push(owned_at(pool[i].addr));
                assert(next.drop_last() == pool);
                assert(handling_steps(pool, h) == steps_of(Some(Effect::Retain(pool[i].addr))));
                lemma_occurrences_steps(Some(Effect::Retain(pool[i].addr)), Effect::Retain(addr));
                lemma_occurrences_steps(
                    Some(Effect::Retain(pool[i].addr)),
                    Effect::Release(addr),
                );
            }
        },
        Handling::Dispose(i) => {
            if 0 <= i < pool.len() {
                lemma_held_update(pool, i, disposed(pool[i]), addr);
                lemma_occurrences_steps(dispose_step(pool[i]), Effect::Release(addr));
                lemma_occurrences_steps(dispose_step(pool[i]), Effect::Retain(addr));
            }
        },
    }
}

/// However descriptions of a server are cloned and disposed of, no reference
/// is lost and none is given back twice: what the descriptions hold in the
/// end, and what was released, is what they held at first, and what was
/// retained.
pub proof fn lemma_references_are_conserved(
    pool: Seq<DescriptionView>,
    hs: Seq<Handling>,
    addr: usize,
)
    ensures
        held(handled_all(pool, hs), addr) + releases(handling_trace(pool, hs), addr) == held(
            pool,
            addr,
        ) + retains(handling_trace(pool, hs), addr),
        releases(handling_trace(pool, hs), addr) <= held(pool, addr) + retains(
            handling_trace(pool, hs),
            addr,
        ),
    decreases hs.len(),
{
    if hs.len() > 0 {
        let head = hs.drop_last();
        let before = handled_all(pool, head);
        lemma_references_are_conserved(pool, head, addr);
        lemma_handling_is_balanced(before, hs.last(), addr);
        lemma_occurrences_add(
            handling_trace(pool, head),
            handling_steps(before, hs.last()),
            Effect::Release(addr),
        );
        lemma_occurrences_add(
            handling_trace(pool, head),
            handling_steps(before, hs.last()),
            Effect::Retain(addr),
        );
    }
}

/// A description is released through disposal at most once.
pub proof fn lemma_dispose_once(v: DescriptionView)
    ensures
        dispose_step(disposed(v)) is None,
        disposed(disposed(v)) == disposed(v),
{
}

} // verus!
