//! The lifecycle that servers and clients share: created, running, stopped,
//! released.
//!
//! To let go of a server or client is to stop it and then to release it,
//! whether or not it was stopped before; the storage of a client's callback
//! is freed after both. Whatever its owner asks for, and in whatever order,
//! the native side sees at most one release of it, a stop directly before
//! that release, and no call but a stop once it has been stopped.

use vstd::prelude::*;
use crate::callback::{registered, registered_callback};
use crate::effect::{
    lemma_occurrences_add, lemma_occurrences_one, occurrences, releases, steps_of, Effect,
};

verus! {

/// Where a server or client stands in its life.
#[derive(Clone, Copy, Debug, PartialEq, Eq, Structural)]
pub enum Phase {
    /// Constructed. No frame has been published or fetched.
    Created,
    /// Publishing, or listening for frames.
    Running,
    /// Stopped. Nothing is left to do but to stop again and to release the
    /// object.
    Stopped,
    /// Released. The address must not be used again.
    Released,
}

/// What an owner may ask of a server or client, as far as its lifecycle is
/// concerned.
#[derive(Clone, Copy, Debug, PartialEq, Eq, Structural)]
pub enum Request {
    /// Read or set something that is not a frame.
    Query,
    /// Publish a frame, or fetch one.
    Exchange,
    /// Stop.
    Stop,
    /// Let go of the object for good.
    Dispose,
}

/// What is known of an [`Endpoint`].
pub struct EndpointView {
    /// The address of the native server or client.
    pub addr: usize,
    /// Its phase.
    pub phase: Phase,
    /// The address of the callback storage that lives as long as it does.
    pub callback: Option<usize>,
}

/// Whether a request leads to a native call in this phase. A stopped object
/// can be stopped again and released, and takes no other call; a released
/// object takes none.
pub open spec fn permits(phase: Phase, req: Request) -> bool {
    match req {
        Request::Stop | Request::Dispose => phase != Phase::Released,
        _ => phase == Phase::Created || phase == Phase::Running,
    }
}

/// The phase that follows a request.
pub open spec fn phase_after(phase: Phase, req: Request) -> Phase {
    if !permits(phase, req) {
        phase
    } else {
        match req {
            Request::Query => phase,
            Request::Exchange => Phase::Running,
            Request::Stop => Phase::Stopped,
            Request::Dispose => Phase::Released,
        }
    }
}

/// The state that follows a request.
pub open spec fn after(v: EndpointView, req: Request) -> EndpointView {
    EndpointView { addr: v.addr, phase: phase_after(v.phase, req), callback: v.callback }
}

/// The steps that free the callback storage, if there is any.
pub open spec fn drop_callback(callback: Option<usize>) -> Seq<Effect> {
    match callback {
        Some(c) => seq![Effect::DropCallback(c)],
        None => Seq::empty(),
    }
}

/// The steps that let go of an object: its stop, its release, and then the
/// freeing of its callback storage.
pub open spec fn teardown(addr: usize, callback: Option<usize>) -> Seq<Effect> {
    seq![Effect::Stop(addr), Effect::Release(addr)] + drop_callback(callback)
}

/// The steps that a request asks of the driver. Queries and exchanges ask
/// for none: the driver makes their native call itself where they are
/// permitted. A stop asks for the native stop as long as the object has not
/// been released. To let go of an object asks for its whole teardown in
/// every phase but the last: the stop is made again where the object was
/// stopped before.
pub open spec fn effects_of(v: EndpointView, req: Request) -> Seq<Effect> {
    match req {
        Request::Stop => if v.phase != Phase::Released {
            seq![Effect::Stop(v.addr)]
        } else {
            Seq::empty()
        },
        Request::Dispose => if v.phase != Phase::Released {
            teardown(v.addr, v.callback)
        } else {
            Seq::empty()
        },
        _ => Seq::empty(),
    }
}

/// The state after a run of requests.
pub open spec fn run(v: EndpointView, reqs: Seq<Request>) -> EndpointView
    decreases reqs.len(),
{
    if reqs.len() == 0 {
        v
    } else {
        after(run(v, reqs.drop_last()), reqs.last())
    }
}

/// All steps that a run of requests asks of the driver, in order.
pub open spec fn trace(v: EndpointView, reqs: Seq<Request>) -> Seq<Effect>
    decreases reqs.len(),
{
    if reqs.len() == 0 {
        Seq::empty()
    } else {
        trace(v, reqs.drop_last()) + effects_of(run(v, reqs.drop_last()), reqs.last())
    }
}

/// Whether every release of `addr` in `t` comes directly after a stop of
/// it.
pub open spec fn release_follows_stop(t: Seq<Effect>, addr: usize) -> bool {
    forall|i: int|
        0 <= i < t.len() && #[trigger] t[i] == Effect::Release(addr) ==> i >= 1 && t[i - 1]
            == Effect::Stop(addr)
}

/// Whether every release of `addr` in `t` comes after a stop of it.
pub open spec fn stop_precedes_release(t: Seq<Effect>, addr: usize) -> bool {
    forall|i: int|
        0 <= i < t.len() && #[trigger] t[i] == Effect::Release(addr) ==> exists|j: int|
            0 <= j < i && #[trigger] t[j] == Effect::Stop(addr)
}

/// Whether the callback storage `c` is freed in `t` only directly after the
/// stop and the release of `addr`, in this order.
pub open spec fn callback_outlives(t: Seq<Effect>, addr: usize, c: usize) -> bool {
    forall|i: int|
        0 <= i < t.len() && #[trigger] t[i] == Effect::DropCallback(c) ==> i >= 2 && t[i - 2]
            == Effect::Stop(addr) && t[i - 1] == Effect::Release(addr)
}

/// A server or client as its lifecycle sees it.
pub struct Endpoint {
    addr: usize,
    phase: Phase,
    callback: Option<usize>,
}

impl View for Endpoint {
    type V = EndpointView;

    closed spec fn view(&self) -> EndpointView {
        EndpointView { addr: self.addr, phase: self.phase, callback: self.callback }
    }
}

/// The steps that let go of an object, see [`teardown`].
pub fn teardown_steps(addr: usize, callback: Option<usize>) -> (steps: Vec<Effect>)
    ensures
        steps@ == teardown(addr, callback),
{
    let mut steps: Vec<Effect> = Vec::new();
    steps.push(Effect::Stop(addr));
    steps.push(Effect::Release(addr));
    match callback {
        Some(c) => {
            steps.push(Effect::DropCallback(c));
        },
        None => {},
    }
    steps
}

impl Endpoint {
    #[verifier::type_invariant]
    spec fn nonnull(self) -> bool {
        self.addr != 0
    }

    /// Wraps what a native constructor returned, together with the callback
    /// storage that was registered with it. A null pointer is a failed
    /// construction and gives nothing. Callback storage without an address
    /// is none.
    pub fn new(raw: usize, callback: Option<usize>) -> (e: Option<Endpoint>)
        ensures
            e is None <==> raw == 0,
            e matches Some(e) ==> e@ == (EndpointView {
                addr: raw,
                phase: Phase::Created,
                callback: registered(callback),
            }),
    {
        if raw == 0 {
            None
        } else {
            Some(
                Endpoint {
                    addr: raw,
                    phase: Phase::Created,
                    callback: registered_callback(callback),
                },
            )
        }
    }

    /// The phase.
    pub fn phase(&self) -> (p: Phase)
        ensures
            p == self@.phase,
    {
        self.phase
    }

    /// The address of the callback storage, if there is any.
    pub fn callback(&self) -> (c: Option<usize>)
        ensures
            c == self@.callback,
    {
        self.callback
    }

    /// The address for a native call that reads or sets something. Once the
    /// object has been stopped there is none.
    pub fn as_ptr(&self) -> (p: Option<usize>)
        ensures
            p == (if permits(self@.phase, Request::Query) {
                Some(self@.addr)
            } else {
                None
            }),
            self@.addr != 0,
    {
        proof {
            use_type_invariant(self);
        }
        match self.phase {
            Phase::Created | Phase::Running => Some(self.addr),
            _ => None,
        }
    }

    /// The address for a native call that publishes or fetches a frame. Once
    /// the object has been stopped there is none. A permitted call leaves the
    /// object running.
    pub fn exchange(&mut self) -> (p: Option<usize>)
        ensures
            p == (if permits(old(self)@.phase, Request::Exchange) {
                Some(old(self)@.addr)
            } else {
                None
            }),
            final(self)@ == after(old(self)@, Request::Exchange),
            p matches Some(a) ==> a != 0,
        no_unwind
    {
        proof {
            use_type_invariant(&*self);
        }
        match self.phase {
            Phase::Created | Phase::Running => {
                self.phase = Phase::Running;
                Some(self.addr)
            },
            _ => None,
        }
    }

    /// Stops the object. Every stop of an object that has not been released
    /// reaches the native side, where stopping a stopped object changes
    /// nothing.
    pub fn stop(&mut self) -> (e: Option<Effect>)
        ensures
            e == (if old(self)@.phase != Phase::Released {
                Some(Effect::Stop(old(self)@.addr))
            } else {
                None
            }),
            steps_of(e) == effects_of(old(self)@, Request::Stop),
            final(self)@ == after(old(self)@, Request::Stop),
        no_unwind
    {
        proof {
            use_type_invariant(&*self);
        }
        match self.phase {
            Phase::Released => None,
            _ => {
                self.phase = Phase::Stopped;
                Some(Effect::Stop(self.addr))
            },
        }
    }

    /// Marks the object as released. Where it was not released before, the
    /// answer is what its teardown acts on: its address and its callback
    /// storage.
    pub(crate) fn retire(&mut self) -> (gone: Option<(usize, Option<usize>)>)
        ensures
            gone == (if old(self)@.phase != Phase::Released {
                Some((old(self)@.addr, old(self)@.callback))
            } else {
                None
            }),
            final(self)@ == after(old(self)@, Request::Dispose),
        no_unwind
    {
        proof {
            use_type_invariant(&*self);
        }
        match self.phase {
            Phase::Released => None,
            _ => {
                self.phase = Phase::Released;
                Some((self.addr, self.callback))
            },
        }
    }

    /// Lets go of the object: stops it, whether or not it was stopped
    /// before, releases it, and then frees its callback storage. A second
    /// call asks for nothing.
    pub fn dispose(&mut self) -> (steps: Vec<Effect>)
        ensures
            steps@ == effects_of(old(self)@, Request::Dispose),
            final(self)@ == after(old(self)@, Request::Dispose),
    {
        match self.retire() {
            Some((addr, callback)) => teardown_steps(addr, callback),
            None => Vec::new(),
        }
    }
}

/// How often one request asks for the release of the object: once where it
/// lets go of an object that was not released before, else never.
pub proof fn lemma_releases_of_request(v: EndpointView, req: Request)
    ensures
        releases(effects_of(v, req), v.addr) == (if req == Request::Dispose && v.phase
            != Phase::Released {
            1nat
        } else {
            0nat
        }),
{
    let e = Effect::Release(v.addr);
    let stop = seq![Effect::Stop(v.addr)];
    let release = seq![Effect::Release(v.addr)];
    let tail = drop_callback(v.callback);
    assert(occurrences(Seq::<Effect>::empty(), e) == 0);
    if let Some(c) = v.callback {
        lemma_occurrences_one(Effect::DropCallback(c), e);
    }
    lemma_occurrences_one(Effect::Stop(v.addr), e);
    lemma_occurrences_one(Effect::Release(v.addr), e);
    if req == Request::Dispose && v.phase != Phase::Released {
        assert(effects_of(v, req) == stop + release + tail);
        lemma_occurrences_add(stop, release, e);
        lemma_occurrences_add(stop + release, tail, e);
    }
}

/// Whatever is asked of a server or client, and in whatever order, its
/// release is asked for at most once: once it has been released, and never
/// before.
pub proof fn lemma_release_at_most_once(v: EndpointView, reqs: Seq<Request>)
    requires
        v.phase != Phase::Released,
    ensures
        releases(trace(v, reqs), v.addr) == (if run(v, reqs).phase == Phase::Released {
            1nat
        } else {
            0nat
        }),
        releases(trace(v, reqs), v.addr) <= 1,
        run(v, reqs).addr == v.addr,
    decreases reqs.len(),
{
    if reqs.len() > 0 {
        let before = run(v, reqs.drop_last());
        lemma_release_at_most_once(v, reqs.drop_last());
        lemma_releases_of_request(before, reqs.last());
        lemma_occurrences_add(
            trace(v, reqs.drop_last()),
            effects_of(before, reqs.last()),
            Effect::Release(v.addr),
        );
    } else {
        assert(occurrences(Seq::<Effect>::empty(), Effect::Release(v.addr)) == 0);
    }
}

/// Whatever is asked of a server or client, and in whatever order, it is
/// never released before it has been stopped: every release comes directly
/// after a stop.
pub proof fn lemma_stop_precedes_release(v: EndpointView, reqs: Seq<Request>)
    ensures
        release_follows_stop(trace(v, reqs), v.addr),
        stop_precedes_release(trace(v, reqs), v.addr),
        run(v, reqs).addr == v.addr,
    decreases reqs.len(),
{
    if reqs.len() > 0 {
        let head = reqs.drop_last();
        let before = run(v, head);
        let t0 = trace(v, head);
        let step = effects_of(before, reqs.last());
        let t = trace(v, reqs);
        let n = t0.len() as int;
        lemma_stop_precedes_release(v, head);
        assert(t == t0 + step);
        assert forall|i: int| 0 <= i < t.len() && #[trigger] t[i] == Effect::Release(
            v.addr,
        ) implies i >= 1 && t[i - 1] == Effect::Stop(v.addr) by {
            if i < n {
                assert(t0[i] == t[i]);
                assert(t0[i - 1] == t[i - 1]);
            } else {
                assert(step[i - n] == t[i]);
                assert(step == teardown(before.addr, before.callback));
                assert(i == n + 1);
                assert(t[n] == step[0]);
            }
        }
    }
    let t = trace(v, reqs);
    assert forall|i: int| 0 <= i < t.len() && #[trigger] t[i] == Effect::Release(
        v.addr,
    ) implies exists|j: int| 0 <= j < i && #[trigger] t[j] == Effect::Stop(v.addr) by {
        assert(t[i - 1] == Effect::Stop(v.addr));
    }
}

/// A second stop leaves the object as the first left it, asks for the same
/// native stop and for nothing else, and no stop ever asks for a release.
pub proof fn lemma_stop_idempotent(v: EndpointView)
    ensures
        after(after(v, Request::Stop), Request::Stop) == after(v, Request::Stop),
        effects_of(after(v, Request::Stop), Request::Stop) == effects_of(v, Request::Stop),
        releases(effects_of(v, Request::Stop), v.addr) == 0,
        releases(effects_of(after(v, Request::Stop), Request::Stop), v.addr) == 0,
{
    lemma_releases_of_request(v, Request::Stop);
    lemma_releases_of_request(after(v, Request::Stop), Request::Stop);
}

/// Once stopped, an object takes no call but a stop and its release: every
/// other request is answered with nothing and leaves it as it is. To let go
/// of it still asks for the stop and then for the release.
pub proof fn lemma_stopped_takes_stop_and_release_only(v: EndpointView, req: Request)
    requires
        v.phase == Phase::Stopped,
    ensures
        permits(v.phase, req) <==> req == Request::Stop || req == Request::Dispose,
        !permits(v.phase, req) ==> effects_of(v, req) == Seq::<Effect>::empty() && after(v, req)
            == v,
        effects_of(v, Request::Dispose) == teardown(v.addr, v.callback),
{
}

/// To let go of an object asks for the same steps in every phase but the
/// last: the stop, the release, and then the freeing of the callback
/// storage.
pub proof fn lemma_dispose_stops_then_releases(v: EndpointView)
    requires
        v.phase != Phase::Released,
    ensures
        effects_of(v, Request::Dispose) == seq![Effect::Stop(v.addr), Effect::Release(v.addr)]
            + drop_callback(v.callback),
        v.callback is None ==> effects_of(v, Request::Dispose) == seq![
            Effect::Stop(v.addr),
            Effect::Release(v.addr),
        ],
        after(v, Request::Dispose).phase == Phase::Released,
{
}

/// Once released, an object answers every request with nothing and stays as
/// it is.
pub proof fn lemma_released_is_final(v: EndpointView, req: Request)
    requires
        v.phase == Phase::Released,
    ensures
        !permits(v.phase, req),
        effects_of(v, req) == Seq::<Effect>::empty(),
        after(v, req) == v,
{
}

/// Whatever is asked of a client, and in whatever order, its callback
/// storage is freed only directly after the client has been stopped and
/// then released.
pub proof fn lemma_callback_outlives_stop(v: EndpointView, c: usize, reqs: Seq<Request>)
    requires
        v.callback == Some(c),
    ensures
        callback_outlives(trace(v, reqs), v.addr, c),
    decreases reqs.len(),
{
    if reqs.len() > 0 {
        let head = reqs.drop_last();
        let before = run(v, head);
        let t0 = trace(v, head);
        let step = effects_of(before, reqs.last());
        let t = trace(v, reqs);
        let n = t0.len() as int;
        lemma_callback_outlives_stop(v, c, head);
        lemma_callback_kept(v, head);
        assert(t == t0 + step);
        assert forall|i: int| 0 <= i < t.len() && #[trigger] t[i] == Effect::DropCallback(
            c,
        ) implies i >= 2 && t[i - 2] == Effect::Stop(v.addr) && t[i - 1] == Effect::Release(
            v.addr,
        ) by {
            if i < n {
                assert(t0[i] == t[i]);
                assert(t0[i - 1] == t[i - 1]);
                assert(t0[i - 2] == t[i - 2]);
            } else {
                assert(step[i - n] == t[i]);
                assert(step == seq![
                    Effect::Stop(v.addr),
                    Effect::Release(v.addr),
                    Effect::DropCallback(c),
                ]);
                assert(i == n + 2);
                assert(t[n] == step[0]);
                assert(t[n + 1] == step[1]);
            }
        }
    }
}

/// Whatever is asked of a server or client, the steps act on the object
/// itself or on its callback storage. The context or device that it draws
/// with is never stopped, released or freed through it.
pub proof fn lemma_effects_stay_home(v: EndpointView, req: Request, i: int)
    requires
        0 <= i < effects_of(v, req).len(),
    ensures
        effects_of(v, req)[i].target() == v.addr || v.callback == Some(
            effects_of(v, req)[i].target(),
        ),
{
}

/// No request changes the address or the callback storage of an object.
pub proof fn lemma_callback_kept(v: EndpointView, reqs: Seq<Request>)
    ensures
        run(v, reqs).addr == v.addr,
        run(v, reqs).callback == v.callback,
    decreases reqs.len(),
{
    if reqs.len() > 0 {
        lemma_callback_kept(v, reqs.drop_last());
    }
}

} // verus!
