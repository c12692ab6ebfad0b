//! Servers, clients and frame textures of the Metal flavour.

use std::collections::HashMap;
use vstd::prelude::*;
use crate::callback::registered;
use crate::description::{owned_at, ServerDescription};
use crate::effect::{steps_of, Effect};
use crate::handle::{release_step, released, ContextRef, Handle, HandleView};
use crate::lifecycle::{
    after, effects_of, permits, teardown_steps, Endpoint, EndpointView, Phase, Request,
};
use crate::options::SyphonOptions;
use crate::request::{
    can_serve, client_request, client_request_for, options_ptr, server_request, ClientRequest,
    NamedCall, ServerRequest,
};
use crate::text::{bytes_view, c_name, c_name_of, chars_view, text_in_reply, text_of_reply};

verus! {

/// What is known of a [`MetalServer`].
pub struct MetalServerView {
    /// Its lifecycle.
    pub endpoint: EndpointView,
    /// The address of the device it draws with.
    pub device: usize,
}

/// What is known of a [`MetalClient`].
pub struct MetalClientView {
    /// Its lifecycle.
    pub endpoint: EndpointView,
    /// The address of the device it draws with.
    pub device: usize,
}

/// Whether a server may publish a frame from this texture with this command
/// buffer: it has not been stopped, and neither address is null.
pub open spec fn may_publish(v: MetalServerView, texture: usize, command_buffer: usize) -> bool {
    permits(v.endpoint.phase, Request::Exchange) && texture != 0 && command_buffer != 0
}

/// A server that publishes frames from Metal textures.
pub struct MetalServer {
    endpoint: Endpoint,
    device: ContextRef,
}

impl View for MetalServer {
    type V = MetalServerView;

    closed spec fn view(&self) -> MetalServerView {
        MetalServerView { endpoint: self.endpoint@, device: self.device@ }
    }
}

/// A client that receives the frames of one server as Metal textures.
pub struct MetalClient {
    endpoint: Endpoint,
    device: ContextRef,
}

impl View for MetalClient {
    type V = MetalClientView;

    closed spec fn view(&self) -> MetalClientView {
        MetalClientView { endpoint: self.endpoint@, device: self.device@ }
    }
}

/// One frame as a Metal texture. It is released as soon as it has been
/// drawn.
pub struct MetalTexture {
    handle: Handle,
}

impl View for MetalTexture {
    type V = HandleView;

    closed spec fn view(&self) -> HandleView {
        self.handle@
    }
}

impl MetalServer {
    #[verifier::type_invariant]
    spec fn no_callback(self) -> bool {
        self.endpoint@.callback is None
    }

    /// The arguments for the native construction of a server. There are none
    /// where the device is null or the options have been released: no
    /// construction is attempted then.
    pub fn request(name: Option<&str>, device: usize, options: Option<&SyphonOptions>) -> (r:
        Option<ServerRequest>)
        ensures
            r is Some <==> can_serve(device, options),
            r matches Some(q) ==> q.context == device && q.options == options_ptr(options)
                && bytes_view(q.name) == c_name_of(name),
    {
        server_request(name, device, options)
    }

    /// The server that the native side constructed on `request`. A null
    /// pointer is a failed construction and gives no server.
    pub fn new(request: ServerRequest, raw: usize) -> (s: Option<MetalServer>)
        ensures
            s is Some <==> raw != 0 && request.context != 0,
            s matches Some(s) ==> s@ == (MetalServerView {
                endpoint: EndpointView { addr: raw, phase: Phase::Created, callback: None },
                device: request.context,
            }),
    {
        match ContextRef::new(request.context) {
            Some(device) => match Endpoint::new(raw, None) {
                Some(endpoint) => Some(MetalServer { endpoint, device }),
                None => None,
            },
            None => None,
        }
    }

    /// The address of the device that the server draws with. The server does
    /// not own the device, and it is never null.
    pub fn device(&self) -> (d: usize)
        ensures
            d == self@.device,
            d != 0,
    {
        self.device.as_ptr()
    }

    /// The phase of the server.
    pub fn phase(&self) -> (p: Phase)
        ensures
            p == self@.endpoint.phase,
    {
        self.endpoint.phase()
    }

    /// The address for a native call that reads or sets something. Once the
    /// server has been stopped there is none.
    pub fn as_ptr(&self) -> (p: Option<usize>)
        ensures
            p == (if permits(self@.endpoint.phase, Request::Query) {
                Some(self@.endpoint.addr)
            } else {
                None
            }),
            self@.endpoint.addr != 0,
    {
        self.endpoint.as_ptr()
    }

    /// The name of the server, from the bytes that the native side gave for
    /// it. Absent where it gave none or no well-formed text.
    pub fn name(&self, reply: Option<&[u8]>) -> (text: Option<String>)
        ensures
            chars_view(text) == (if permits(self@.endpoint.phase, Request::Query) {
                text_in_reply(reply)
            } else {
                None
            }),
    {
        match self.endpoint.as_ptr() {
            Some(_) => text_of_reply(reply),
            None => None,
        }
    }

    /// The arguments of the native call that renames the server. An absent
    /// name, and one that has no C string, go out as null.
    pub fn set_name(&self, name: Option<&str>) -> (call: Option<NamedCall>)
        ensures
            call is Some <==> permits(self@.endpoint.phase, Request::Query),
            call matches Some(c) ==> c.object != 0 && c.object == self@.endpoint.addr
                && bytes_view(c.name) == c_name_of(name),
    {
        match self.endpoint.as_ptr() {
            Some(object) => Some(NamedCall { object, name: c_name(name) }),
            None => None,
        }
    }

    /// Whether clients are attached to the server, as the native side answered
    /// just now. A stopped server has none.
    pub fn has_clients(&self, reply: bool) -> (answer: bool)
        ensures
            answer == (if permits(self@.endpoint.phase, Request::Query) { reply } else { false }),
    {
        match self.endpoint.as_ptr() {
            Some(_) => reply,
            None => false,
        }
    }

    /// The description of this server that the native side returned. It is
    /// owned, whatever the directory does. A null pointer gives nothing.
    pub fn server_description(&self, raw: usize) -> (d: Option<ServerDescription>)
        ensures
            d is Some <==> raw != 0 && permits(self@.endpoint.phase, Request::Query),
            d matches Some(d) ==> d@ == owned_at(raw),
    {
        match self.endpoint.as_ptr() {
            Some(_) => ServerDescription::owned(raw),
            None => None,
        }
    }

    /// The address for the native call that publishes a frame from a texture
    /// of the caller, to be encoded into a command buffer of the caller.
    /// There is none once the server has been stopped, nor where the texture
    /// or the command buffer is null. The call leaves the server running.
    pub fn publish_frame(&mut self, texture: usize, command_buffer: usize) -> (p: Option<usize>)
        ensures
            p == (if may_publish(old(self)@, texture, command_buffer) {
                Some(old(self)@.endpoint.addr)
            } else {
                None
            }),
            final(self)@ == (if may_publish(old(self)@, texture, command_buffer) {
                MetalServerView {
                    endpoint: after(old(self)@.endpoint, Request::Exchange),
                    ..old(self)@
                }
            } else {
                old(self)@
            }),
            p matches Some(a) ==> a != 0,
    {
        proof {
            use_type_invariant(&*self);
        }
        if texture == 0 || command_buffer == 0 {
            None
        } else {
            self.endpoint.exchange()
        }
    }

    /// The address for the native call that fetches the frame that the
    /// server put out last. There is none once the server has been stopped.
    pub fn new_frame_image_request(&mut self) -> (p: Option<usize>)
        ensures
            p == (if permits(old(self)@.endpoint.phase, Request::Exchange) {
                Some(old(self)@.endpoint.addr)
            } else {
                None
            }),
            final(self)@ == (MetalServerView {
                endpoint: after(old(self)@.endpoint, Request::Exchange),
                ..old(self)@
            }),
            p matches Some(a) ==> a != 0,
    {
        proof {
            use_type_invariant(&*self);
        }
        self.endpoint.exchange()
    }

    /// The frame texture that the native side returned. A null pointer gives
    /// nothing.
    pub fn new_frame_image(&self, raw: usize) -> (texture: Option<MetalTexture>)
        ensures
            texture is Some <==> raw != 0 && permits(self@.endpoint.phase, Request::Query),
            texture matches Some(t) ==> t@ == (HandleView { addr: raw, live: true }),
    {
        match self.endpoint.as_ptr() {
            Some(_) => MetalTexture::new(raw),
            None => None,
        }
    }

    /// Stops the server. Every stop of a server that has not been released
    /// reaches the native side.
    pub fn stop(&mut self) -> (e: Option<Effect>)
        ensures
            e == (if permits(old(self)@.endpoint.phase, Request::Stop) {
                Some(Effect::Stop(old(self)@.endpoint.addr))
            } else {
                None
            }),
            steps_of(e) == effects_of(old(self)@.endpoint, Request::Stop),
            final(self)@ == (MetalServerView {
                endpoint: after(old(self)@.endpoint, Request::Stop),
                ..old(self)@
            }),
    {
        proof {
            use_type_invariant(&*self);
        }
        self.endpoint.stop()
    }

    /// Lets go of the server: stops it, whether or not it was stopped before,
    /// and then releases it. These two steps are all that is asked for: a
    /// server holds no callback storage, and the device stays untouched. A
    /// second call asks for nothing.
    pub fn dispose(&mut self) -> (steps: Vec<Effect>)
        ensures
            old(self)@.endpoint.callback is None,
            steps@ == effects_of(old(self)@.endpoint, Request::Dispose),
            steps@ == (if old(self)@.endpoint.phase != Phase::Released {
                seq![
                    Effect::Stop(old(self)@.endpoint.addr),
                    Effect::Release(old(self)@.endpoint.addr),
                ]
            } else {
                Seq::empty()
            }),
            final(self)@ == (MetalServerView {
                endpoint: after(old(self)@.endpoint, Request::Dispose),
                ..old(self)@
            }),
    {
        proof {
            use_type_invariant(&*self);
        }
        match self.endpoint.retire() {
            Some((addr, callback)) => teardown_steps(addr, callback),
            None => Vec::new(),
        }
    }
}

impl MetalClient {
    /// The arguments for the native construction of a client of the server
    /// that `description` names. There are none where the device is null or
    /// the description has been disposed of: no construction is attempted
    /// then. The options are not passed on. `callback` is the address of the
    /// storage of the callback for new frames.
    pub fn request(
        description: &ServerDescription,
        device: usize,
        options: Option<&HashMap<String, String>>,
        callback: Option<usize>,
    ) -> (r: Option<ClientRequest>)
        ensures
            r == client_request_for(description@, device, callback),
    {
        client_request(description, device, callback)
    }

    /// The client that the native side constructed on `request`. A null
    /// pointer is a failed construction and gives no client: the callback
    /// storage of the request is then freed at once, see
    /// [`ClientRequest::abandon`].
    pub fn new(request: ClientRequest, raw: usize) -> (c: Option<MetalClient>)
        ensures
            c is Some <==> raw != 0 && request.context != 0,
            c matches Some(c) ==> c@ == (MetalClientView {
                endpoint: EndpointView {
                    addr: raw,
                    phase: Phase::Created,
                    callback: registered(request.callback),
                },
                device: request.context,
            }),
    {
        match ContextRef::new(request.context) {
            Some(device) => match Endpoint::new(raw, request.callback) {
                Some(endpoint) => Some(MetalClient { endpoint, device }),
                None => None,
            },
            None => None,
        }
    }

    /// The address of the device that the client draws with. The client does
    /// not own the device, and it is never null.
    pub fn device(&self) -> (d: usize)
        ensures
            d == self@.device,
            d != 0,
    {
        self.device.as_ptr()
    }

    /// The phase of the client.
    pub fn phase(&self) -> (p: Phase)
        ensures
            p == self@.endpoint.phase,
    {
        self.endpoint.phase()
    }

    /// The address of the callback storage that the client keeps alive.
    pub fn callback(&self) -> (c: Option<usize>)
        ensures
            c == self@.endpoint.callback,
    {
        self.endpoint.callback()
    }

    /// The address for a native call that reads or sets something. Once the
    /// client has been stopped there is none.
    pub fn as_ptr(&self) -> (p: Option<usize>)
        ensures
            p == (if permits(self@.endpoint.phase, Request::Query) {
                Some(self@.endpoint.addr)
            } else {
                None
            }),
            self@.endpoint.addr != 0,
    {
        self.endpoint.as_ptr()
    }

    /// Whether the connection to the server can still be used, as the native
    /// side answered just now. That of a stopped client cannot.
    pub fn is_valid(&self, reply: bool) -> (answer: bool)
        ensures
            answer == (if permits(self@.endpoint.phase, Request::Query) { reply } else { false }),
    {
        match self.endpoint.as_ptr() {
            Some(_) => reply,
            None => false,
        }
    }

    /// Whether a frame has arrived that was not fetched yet, as the native
    /// side answered just now. A stopped client has none.
    pub fn has_new_frame(&self, reply: bool) -> (answer: bool)
        ensures
            answer == (if permits(self@.endpoint.phase, Request::Query) { reply } else { false }),
    {
        match self.endpoint.as_ptr() {
            Some(_) => reply,
            None => false,
        }
    }

    /// The description of the server that the client is attached to, as the
    /// native side returned it. It is owned. A null pointer gives nothing.
    pub fn server_description(&self, raw: usize) -> (d: Option<ServerDescription>)
        ensures
            d is Some <==> raw != 0 && permits(self@.endpoint.phase, Request::Query),
            d matches Some(d) ==> d@ == owned_at(raw),
    {
        match self.endpoint.as_ptr() {
            Some(_) => ServerDescription::owned(raw),
            None => None,
        }
    }

    /// The address for the native call that fetches the current frame. There
    /// is none once the client has been stopped. The call leaves the client
    /// running.
    pub fn new_frame_image_request(&mut self) -> (p: Option<usize>)
        ensures
            p == (if permits(old(self)@.endpoint.phase, Request::Exchange) {
                Some(old(self)@.endpoint.addr)
            } else {
                None
            }),
            final(self)@ == (MetalClientView {
                endpoint: after(old(self)@.endpoint, Request::Exchange),
                ..old(self)@
            }),
            p matches Some(a) ==> a != 0,
    {
        self.endpoint.exchange()
    }

    /// The frame texture that the native side returned. A null pointer gives
    /// nothing.
    pub fn new_frame_image(&self, raw: usize) -> (texture: Option<MetalTexture>)
        ensures
            texture is Some <==> raw != 0 && permits(self@.endpoint.phase, Request::Query),
            texture matches Some(t) ==> t@ == (HandleView { addr: raw, live: true }),
    {
        match self.endpoint.as_ptr() {
            Some(_) => MetalTexture::new(raw),
            None => None,
        }
    }

    /// Stops the client. Every stop of a client that has not been released
    /// reaches the native side.
    pub fn stop(&mut self) -> (e: Option<Effect>)
        ensures
            e == (if permits(old(self)@.endpoint.phase, Request::Stop) {
                Some(Effect::Stop(old(self)@.endpoint.addr))
            } else {
                None
            }),
            steps_of(e) == effects_of(old(self)@.endpoint, Request::Stop),
            final(self)@ == (MetalClientView {
                endpoint: after(old(self)@.endpoint, Request::Stop),
                ..old(self)@
            }),
    {
        self.endpoint.stop()
    }

    /// Lets go of the client: stops it, whether or not it was stopped before,
    /// releases it, and only then frees the storage of its callback. The
    /// device stays untouched. A second call asks for nothing.
    pub fn dispose(&mut self) -> (steps: Vec<Effect>)
        ensures
            steps@ == effects_of(old(self)@.endpoint, Request::Dispose),
            final(self)@ == (MetalClientView {
                endpoint: after(old(self)@.endpoint, Request::Dispose),
                ..old(self)@
            }),
    {
        self.endpoint.dispose()
    }
}

impl MetalTexture {
    /// Wraps the frame texture that the native side returned. A null pointer
    /// gives nothing.
    pub fn new(raw: usize) -> (texture: Option<MetalTexture>)
        ensures
            texture is None <==> raw == 0,
            texture matches Some(t) ==> t@ == (HandleView { addr: raw, live: true }),
    {
        match Handle::new(raw) {
            Some(handle) => Some(MetalTexture { handle }),
            None => None,
        }
    }

    /// The address of the texture, until it has been released.
    pub fn as_ptr(&self) -> (p: Option<usize>)
        ensures
            p == (if self@.live { Some(self@.addr) } else { None }),
            self@.addr != 0,
    {
        self.handle.as_ptr()
    }

    /// Lets go of the texture. The first call asks for its release, a later
    /// call for nothing.
    pub fn dispose(&mut self) -> (e: Option<Effect>)
        ensures
            e == release_step(old(self)@),
            final(self)@ == released(old(self)@),
    {
        self.handle.release()
    }
}

} // verus!
