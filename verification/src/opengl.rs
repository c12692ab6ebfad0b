//! Servers, clients and frame images of the OpenGL flavour.

use std::collections::HashMap;
use vstd::prelude::*;
use crate::callback::registered;
use crate::description::{owned_at, ServerDescription};
use crate::effect::{steps_of, Effect};
use crate::handle::{release_step, released, ContextRef, Handle, HandleView};
use crate::lifecycle::{
    after, effects_of, permits, teardown_steps, Endpoint, EndpointView, Phase, Request,
};
use crate::options::SyphonOptions;
use crate::request::{
    can_serve, client_request, client_request_for, options_ptr, server_request, ClientRequest,
    NamedCall, ServerRequest,
};
use crate::text::{bytes_view, c_name, c_name_of, chars_view, text_in_reply, text_of_reply};

verus! {

/// What is known of an [`OpenGLServer`].
pub struct OpenGLServerView {
    /// Its lifecycle.
    pub endpoint: EndpointView,
    /// The address of the graphics context it draws with.
    pub context: usize,
    /// Whether its render target is bound for drawing a frame.
    pub drawing: bool,
}

/// What is known of an [`OpenGLClient`].
pub struct OpenGLClientView {
    /// Its lifecycle.
    pub endpoint: EndpointView,
    /// The address of the graphics context it draws with.
    pub context: usize,
}

/// Whether a server may publish a frame from a texture, or bind its render
/// target: it has not been stopped, and its render target is not bound.
pub open spec fn may_draw(v: OpenGLServerView) -> bool {
    permits(v.endpoint.phase, Request::Exchange) && !v.drawing
}

/// A server that publishes frames from OpenGL textures.
pub struct OpenGLServer {
    endpoint: Endpoint,
    context: ContextRef,
    drawing: bool,
}

impl View for OpenGLServer {
    type V = OpenGLServerView;

    closed spec fn view(&self) -> OpenGLServerView {
        OpenGLServerView {
            endpoint: self.endpoint@,
            context: self.context@,
            drawing: self.drawing && permits(self.endpoint@.phase, Request::Exchange),
        }
    }
}

/// A client that receives the frames of one server as OpenGL textures.
pub struct OpenGLClient {
    endpoint: Endpoint,
    context: ContextRef,
}

impl View for OpenGLClient {
    type V = OpenGLClientView;

    closed spec fn view(&self) -> OpenGLClientView {
        OpenGLClientView { endpoint: self.endpoint@, context: self.context@ }
    }
}

/// One frame as an OpenGL texture. It is released as soon as it has been
/// drawn.
pub struct OpenGLImage {
    handle: Handle,
}

impl View for OpenGLImage {
    type V = HandleView;

    closed spec fn view(&self) -> HandleView {
        self.handle@
    }
}

impl OpenGLServer {
    #[verifier::type_invariant]
    spec fn no_callback(self) -> bool {
        self.endpoint@.callback is None
    }

    /// The arguments for the native construction of a server. There are none
    /// where the context is null or the options have been released: no
    /// construction is attempted then.
    pub fn request(name: Option<&str>, context: usize, options: Option<&SyphonOptions>) -> (r:
        Option<ServerRequest>)
        ensures
            r is Some <==> can_serve(context, options),
            r matches Some(q) ==> q.context == context && q.options == options_ptr(options)
                && bytes_view(q.name) == c_name_of(name),
    {
        server_request(name, context, options)
    }

    /// The server that the native side constructed on `request`. A null
    /// pointer is a failed construction and gives no server.
    pub fn new(request: ServerRequest, raw: usize) -> (s: Option<OpenGLServer>)
        ensures
            s is Some <==> raw != 0 && request.context != 0,
            s matches Some(s) ==> s@ == (OpenGLServerView {
                endpoint: EndpointView { addr: raw, phase: Phase::Created, callback: None },
                context: request.context,
                drawing: false,
            }),
    {
        match ContextRef::new(request.context) {
            Some(context) => match Endpoint::new(raw, None) {
                Some(endpoint) => Some(OpenGLServer { endpoint, context, drawing: false }),
                None => None,
            },
            None => None,
        }
    }

    /// The address of the graphics context that the server draws with. The
    /// server does not own the context, and it is never null.
    pub fn context(&self) -> (c: usize)
        ensures
            c == self@.context,
            c != 0,
    {
        self.context.as_ptr()
    }

    /// The phase of the server.
    pub fn phase(&self) -> (p: Phase)
        ensures
            p == self@.endpoint.phase,
    {
        self.endpoint.phase()
    }

    /// Whether the render target of the server is bound for drawing. That of
    /// a stopped server never is.
    pub fn is_drawing(&self) -> (b: bool)
        ensures
            b == self@.drawing,
            b ==> permits(self@.endpoint.phase, Request::Exchange),
    {
        self.drawing && match self.endpoint.phase() {
            Phase::Created | Phase::Running => true,
            _ => false,
        }
    }

    /// The address for a native call that reads or sets something. Once the
    /// server has been stopped there is none.
    pub fn as_ptr(&self) -> (p: Option<usize>)
        ensures
            p == (if permits(self@.endpoint.phase, Request::Query) {
                Some(self@.endpoint.addr)
            } else {
                None
            }),
            self@.endpoint.addr != 0,
    {
        self.endpoint.as_ptr()
    }

    /// The name of the server, from the bytes that the native side gave for
    /// it. Absent where it gave none or no well-formed text.
    pub fn name(&self, reply: Option<&[u8]>) -> (text: Option<String>)
        ensures
            chars_view(text) == (if permits(self@.endpoint.phase, Request::Query) {
                text_in_reply(reply)
            } else {
                None
            }),
    {
        match self.endpoint.as_ptr() {
            Some(_) => text_of_reply(reply),
            None => None,
        }
    }

    /// The arguments of the native call that renames the server. An absent
    /// name, and one that has no C string, go out as null.
    pub fn set_name(&self, name: Option<&str>) -> (call: Option<NamedCall>)
        ensures
            call is Some <==> permits(self@.endpoint.phase, Request::Query),
            call matches Some(c) ==> c.object != 0 && c.object == self@.endpoint.addr
                && bytes_view(c.name) == c_name_of(name),
    {
        match self.endpoint.as_ptr() {
            Some(object) => Some(NamedCall { object, name: c_name(name) }),
            None => None,
        }
    }

    /// Whether clients are attached to the server, as the native side answered
    /// just now. A stopped server has none.
    pub fn has_clients(&self, reply: bool) -> (answer: bool)
        ensures
            answer == (if permits(self@.endpoint.phase, Request::Query) { reply } else { false }),
    {
        match self.endpoint.as_ptr() {
            Some(_) => reply,
            None => false,
        }
    }

    /// The description of this server that the native side returned. It is
    /// owned, whatever the directory does. A null pointer gives nothing.
    pub fn server_description(&self, raw: usize) -> (d: Option<ServerDescription>)
        ensures
            d is Some <==> raw != 0 && permits(self@.endpoint.phase, Request::Query),
            d matches Some(d) ==> d@ == owned_at(raw),
    {
        match self.endpoint.as_ptr() {
            Some(_) => ServerDescription::owned(raw),
            None => None,
        }
    }

    /// The address for the native call that publishes a frame from a texture
    /// of the caller. There is none once the server has been stopped, nor
    /// while its render target is bound. The call leaves the server running.
    pub fn publish_frame(&mut self) -> (p: Option<usize>)
        ensures
            p == (if may_draw(old(self)@) { Some(old(self)@.endpoint.addr) } else { None }),
            final(self)@ == (if may_draw(old(self)@) {
                OpenGLServerView {
                    endpoint: after(old(self)@.endpoint, Request::Exchange),
                    ..old(self)@
                }
            } else {
                old(self)@
            }),
            p matches Some(a) ==> a != 0,
    {
        proof {
            use_type_invariant(&*self);
        }
        if self.is_drawing() {
            None
        } else {
            self.endpoint.exchange()
        }
    }

    /// The address for the native call that binds the render target of the
    /// server, where it may be bound, see [`may_draw`].
    pub fn bind_to_draw_frame_request(&self) -> (p: Option<usize>)
        ensures
            p == (if may_draw(self@) { Some(self@.endpoint.addr) } else { None }),
            p matches Some(a) ==> a != 0,
    {
        if self.is_drawing() {
            None
        } else {
            match self.endpoint.phase() {
                Phase::Created | Phase::Running => self.endpoint.as_ptr(),
                _ => None,
            }
        }
    }

    /// Takes note of what the native side answered to the binding of the
    /// render target. Where it was bound, the server is drawing until
    /// [`OpenGLServer::unbind_and_publish`].
    pub fn bind_to_draw_frame(&mut self, bound: bool) -> (drawing: bool)
        ensures
            drawing == (bound && may_draw(old(self)@)),
            final(self)@ == (OpenGLServerView {
                drawing: old(self)@.drawing || drawing,
                ..old(self)@
            }),
    {
        proof {
            use_type_invariant(&*self);
        }
        if bound && !self.is_drawing() {
            match self.endpoint.phase() {
                Phase::Created | Phase::Running => {
                    self.drawing = true;
                    true
                },
                _ => false,
            }
        } else {
            false
        }
    }

    /// The address for the native call that ends drawing and publishes the
    /// frame drawn. There is none unless the render target is bound. The
    /// call leaves the server running.
    pub fn unbind_and_publish(&mut self) -> (p: Option<usize>)
        ensures
            p == (if old(self)@.drawing { Some(old(self)@.endpoint.addr) } else { None }),
            final(self)@ == (if old(self)@.drawing {
                OpenGLServerView {
                    endpoint: after(old(self)@.endpoint, Request::Exchange),
                    drawing: false,
                    ..old(self)@
                }
            } else {
                old(self)@
            }),
            p matches Some(a) ==> a != 0,
    {
        proof {
            use_type_invariant(&*self);
        }
        if self.is_drawing() {
            self.drawing = false;
            self.endpoint.exchange()
        } else {
            None
        }
    }

    /// The address for the native call that fetches the frame that the
    /// server put out last. There is none once the server has been stopped.
    pub fn new_frame_image_request(&mut self) -> (p: Option<usize>)
        ensures
            p == (if permits(old(self)@.endpoint.phase, Request::Exchange) {
                Some(old(self)@.endpoint.addr)
            } else {
                None
            }),
            final(self)@ == (OpenGLServerView {
                endpoint: after(old(self)@.endpoint, Request::Exchange),
                ..old(self)@
            }),
            p matches Some(a) ==> a != 0,
    {
        proof {
            use_type_invariant(&*self);
        }
        self.endpoint.exchange()
    }

    /// The frame image that the native side returned. A null pointer gives
    /// nothing.
    pub fn new_frame_image(&self, raw: usize) -> (image: Option<OpenGLImage>)
        ensures
            image is Some <==> raw != 0 && permits(self@.endpoint.phase, Request::Query),
            image matches Some(i) ==> i@ == (HandleView { addr: raw, live: true }),
    {
        match self.endpoint.as_ptr() {
            Some(_) => OpenGLImage::new(raw),
            None => None,
        }
    }

    /// Stops the server, and gives up what was being drawn. Every stop of a
    /// server that has not been released reaches the native side.
    pub fn stop(&mut self) -> (e: Option<Effect>)
        ensures
            e == (if permits(old(self)@.endpoint.phase, Request::Stop) {
                Some(Effect::Stop(old(self)@.endpoint.addr))
            } else {
                None
            }),
            steps_of(e) == effects_of(old(self)@.endpoint, Request::Stop),
            final(self)@ == (OpenGLServerView {
                endpoint: after(old(self)@.endpoint, Request::Stop),
                drawing: false,
                ..old(self)@
            }),
    {
        proof {
            use_type_invariant(&*self);
        }
        self.drawing = false;
        self.endpoint.stop()
    }

    /// Lets go of the server: stops it, whether or not it was stopped before,
    /// and then releases it. These two steps are all that is asked for: a
    /// server holds no callback storage, and the context stays untouched. A
    /// second call asks for nothing.
    pub fn dispose(&mut self) -> (steps: Vec<Effect>)
        ensures
            old(self)@.endpoint.callback is None,
            steps@ == effects_of(old(self)@.endpoint, Request::Dispose),
            steps@ == (if old(self)@.endpoint.phase != Phase::Released {
                seq![
                    Effect::Stop(old(self)@.endpoint.addr),
                    Effect::Release(old(self)@.endpoint.addr),
                ]
            } else {
                Seq::empty()
            }),
            final(self)@ == (OpenGLServerView {
                endpoint: after(old(self)@.endpoint, Request::Dispose),
                drawing: false,
                ..old(self)@
            }),
    {
        proof {
            use_type_invariant(&*self);
        }
        self.drawing = false;
        match self.endpoint.retire() {
            Some((addr, callback)) => teardown_steps(addr, callback),
            None => Vec::new(),
        }
    }
}

impl OpenGLClient {
    /// The arguments for the native construction of a client of the server
    /// that `description` names. There are none where the context is null or
    /// the description has been disposed of: no construction is attempted
    /// then. The options are not passed on. `callback` is the address of the
    /// storage of the callback for new frames.
    pub fn request(
        description: &ServerDescription,
        context: usize,
        options: Option<&HashMap<String, String>>,
        callback: Option<usize>,
    ) -> (r: Option<ClientRequest>)
        ensures
            r == client_request_for(description@, context, callback),
    {
        client_request(description, context, callback)
    }

    /// The client that the native side constructed on `request`. A null
    /// pointer is a failed construction and gives no client: the callback
    /// storage of the request is then freed at once, see
    /// [`ClientRequest::abandon`].
    pub fn new(request: ClientRequest, raw: usize) -> (c: Option<OpenGLClient>)
        ensures
            c is Some <==> raw != 0 && request.context != 0,
            c matches Some(c) ==> c@ == (OpenGLClientView {
                endpoint: EndpointView {
                    addr: raw,
                    phase: Phase::Created,
                    callback: registered(request.callback),
                },
                context: request.context,
            }),
    {
        match ContextRef::new(request.context) {
            Some(context) => match Endpoint::new(raw, request.callback) {
                Some(endpoint) => Some(OpenGLClient { endpoint, context }),
                None => None,
            },
            None => None,
        }
    }

    /// The address of the graphics context that the client draws with. The
    /// client does not own the context, and it is never null.
    pub fn context(&self) -> (c: usize)
        ensures
            c == self@.context,
            c != 0,
    {
        self.context.as_ptr()
    }

    /// The phase of the client.
    pub fn phase(&self) -> (p: Phase)
        ensures
            p == self@.endpoint.phase,
    {
        self.endpoint.phase()
    }

    /// The address of the callback storage that the client keeps alive.
    pub fn callback(&self) -> (c: Option<usize>)
        ensures
            c == self@.endpoint.callback,
    {
        self.endpoint.callback()
    }

    /// The address for a native call that reads or sets something. Once the
    /// client has been stopped there is none.
    pub fn as_ptr(&self) -> (p: Option<usize>)
        ensures
            p == (if permits(self@.endpoint.phase, Request::Query) {
                Some(self@.endpoint.addr)
            } else {
                None
            }),
            self@.endpoint.addr != 0,
    {
        self.endpoint.as_ptr()
    }

    /// Whether the connection to the server can still be used, as the native
    /// side answered just now. That of a stopped client cannot.
    pub fn is_valid(&self, reply: bool) -> (answer: bool)
        ensures
            answer == (if permits(self@.endpoint.phase, Request::Query) { reply } else { false }),
    {
        match self.endpoint.as_ptr() {
            Some(_) => reply,
            None => false,
        }
    }

    /// Whether a frame has arrived that was not fetched yet, as the native
    /// side answered just now. A stopped client has none.
    pub fn has_new_frame(&self, reply: bool) -> (answer: bool)
        ensures
            answer == (if permits(self@.endpoint.phase, Request::Query) { reply } else { false }),
    {
        match self.endpoint.as_ptr() {
            Some(_) => reply,
            None => false,
        }
    }

    /// The description of the server that the client is attached to, as the
    /// native side returned it. It is owned. A null pointer gives nothing.
    pub fn server_description(&self, raw: usize) -> (d: Option<ServerDescription>)
        ensures
            d is Some <==> raw != 0 && permits(self@.endpoint.phase, Request::Query),
            d matches Some(d) ==> d@ == owned_at(raw),
    {
        match self.endpoint.as_ptr() {
            Some(_) => ServerDescription::owned(raw),
            None => None,
        }
    }

    /// The address for the native call that fetches the current frame. There
    /// is none once the client has been stopped. The call leaves the client
    /// running.
    pub fn new_frame_image_request(&mut self) -> (p: Option<usize>)
        ensures
            p == (if permits(old(self)@.endpoint.phase, Request::Exchange) {
                Some(old(self)@.endpoint.addr)
            } else {
                None
            }),
            final(self)@ == (OpenGLClientView {
                endpoint: after(old(self)@.endpoint, Request::Exchange),
                ..old(self)@
            }),
            p matches Some(a) ==> a != 0,
    {
        self.endpoint.exchange()
    }

    /// The frame image that the native side returned. A null pointer gives
    /// nothing.
    pub fn new_frame_image(&self, raw: usize) -> (image: Option<OpenGLImage>)
        ensures
            image is Some <==> raw != 0 && permits(self@.endpoint.phase, Request::Query),
            image matches Some(i) ==> i@ == (HandleView { addr: raw, live: true }),
    {
        match self.endpoint.as_ptr() {
            Some(_) => OpenGLImage::new(raw),
            None => None,
        }
    }

    /// Stops the client. Every stop of a client that has not been released
    /// reaches the native side.
    pub fn stop(&mut self) -> (e: Option<Effect>)
        ensures
            e == (if permits(old(self)@.endpoint.phase, Request::Stop) {
                Some(Effect::Stop(old(self)@.endpoint.addr))
            } else {
                None
            }),
            steps_of(e) == effects_of(old(self)@.endpoint, Request::Stop),
            final(self)@ == (OpenGLClientView {
                endpoint: after(old(self)@.endpoint, Request::Stop),
                ..old(self)@
            }),
    {
        self.endpoint.stop()
    }

    /// Lets go of the client: stops it, whether or not it was stopped before,
    /// releases it, and only then frees the storage of its callback. The
    /// context stays untouched. A second call asks for nothing.
    pub fn dispose(&mut self) -> (steps: Vec<Effect>)
        ensures
            steps@ == effects_of(old(self)@.endpoint, Request::Dispose),
            final(self)@ == (OpenGLClientView {
                endpoint: after(old(self)@.endpoint, Request::Dispose),
                ..old(self)@
            }),
    {
        self.endpoint.dispose()
    }
}

impl OpenGLImage {
    /// Wraps the frame image that the native side returned. A null pointer
    /// gives nothing.
    pub fn new(raw: usize) -> (image: Option<OpenGLImage>)
        ensures
            image is None <==> raw == 0,
            image matches Some(i) ==> i@ == (HandleView { addr: raw, live: true }),
    {
        match Handle::new(raw) {
            Some(handle) => Some(OpenGLImage { handle }),
            None => None,
        }
    }

    /// The address for a native call, until the image has been released.
    pub fn as_ptr(&self) -> (p: Option<usize>)
        ensures
            p == (if self@.live { Some(self@.addr) } else { None }),
            self@.addr != 0,
    {
        self.handle.as_ptr()
    }

    /// The name of the texture that holds the frame, as the native side
    /// answered. A released image has the name zero, which names no texture.
    pub fn texture_name(&self, reply: u32) -> (name: u32)
        ensures
            name == (if self@.live { reply } else { 0 }),
    {
        match self.handle.as_ptr() {
            Some(_) => reply,
            None => 0,
        }
    }

    /// Lets go of the image. The first call asks for its release, a later
    /// call for nothing.
    pub fn dispose(&mut self) -> (e: Option<Effect>)
        ensures
            e == release_step(old(self)@),
            final(self)@ == released(old(self)@),
    {
        self.handle.release()
    }
}

} // verus!
