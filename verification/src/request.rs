//! The arguments of native calls that take more than the address of their
//! object.

use vstd::prelude::*;
use crate::callback::{registered, registered_callback};
use crate::description::{owned_at, DescriptionView, ServerDescription};
use crate::effect::Effect;
use crate::lifecycle::teardown;
use crate::options::SyphonOptions;
use crate::text::{bytes_view, c_name, c_name_of};

verus! {

/// The arguments of the native construction of a server.
#[derive(Debug, PartialEq, Eq)]
pub struct ServerRequest {
    /// The C string of the server's name, or null for a server without name.
    pub name: Option<Vec<u8>>,
    /// The address of the graphics context or device that the server draws
    /// with. The server does not own it.
    pub context: usize,
    /// The address of the options, or null.
    pub options: usize,
}

/// The arguments of the native construction of a client.
#[derive(Clone, Copy, Debug, PartialEq, Eq)]
pub struct ClientRequest {
    /// The address of the description of the server to attach to.
    pub description: usize,
    /// The address of the graphics context or device that the client draws
    /// with. The client does not own it.
    pub context: usize,
    /// The address of the options: always null.
    pub options: usize,
    /// The address of the storage of the callback for new frames, if there is
    /// a callback.
    pub callback: Option<usize>,
}

/// The arguments of a native call that takes an object and a name.
#[derive(Debug, PartialEq, Eq)]
pub struct NamedCall {
    /// The address of the object.
    pub object: usize,
    /// The C string of the name, or null.
    pub name: Option<Vec<u8>>,
}

/// The address of an optional options object as a native call takes it: null
/// where there are no options.
pub open spec fn options_ptr(options: Option<&SyphonOptions>) -> usize {
    match options {
        Some(o) => o@.addr,
        None => 0,
    }
}

/// Whether a server can be constructed from these arguments: the context is
/// not null, and the options, if there are any, have not been released.
pub open spec fn can_serve(context: usize, options: Option<&SyphonOptions>) -> bool {
    context != 0 && match options {
        Some(o) => o@.live,
        None => true,
    }
}

/// The arguments for the construction of a client of the server that `d`
/// describes. There are none where the context is null or the description
/// has been disposed of. The options of a client are always null.
pub open spec fn client_request_for(
    d: DescriptionView,
    context: usize,
    callback: Option<usize>,
) -> Option<ClientRequest> {
    if context != 0 && d.live {
        Some(
            ClientRequest {
                description: d.addr,
                context,
                options: 0,
                callback: registered(callback),
            },
        )
    } else {
        None
    }
}

/// The step that a request asks for where its native construction failed:
/// the callback storage that was made for the client is freed at once, as no
/// client will keep it.
pub open spec fn abandon_step(callback: Option<usize>) -> Option<Effect> {
    match registered(callback) {
        Some(c) => Some(Effect::DropCallback(c)),
        None => None,
    }
}

impl ClientRequest {
    /// The step to take where the native side constructed no client on this
    /// request: to free the callback storage, if there is any. Nothing was
    /// registered that could still call it.
    pub fn abandon(&self) -> (e: Option<Effect>)
        ensures
            e == abandon_step(self.callback),
    {
        match registered_callback(self.callback) {
            Some(c) => Some(Effect::DropCallback(c)),
            None => None,
        }
    }


    /// The user data to register with the native side: the address of the
    /// callback storage, or null.
    pub fn userdata(&self) -> (p: usize)
        ensures
            p == (match registered(self.callback) {
                Some(c) => c,
                None => 0,
            }),
    {
        match registered_callback(self.callback) {
            Some(c) => c,
            None => 0,
        }
    }

    /// Whether a function is registered with the native side to be called
    /// for each new frame: exactly where there is a callback to invoke.
    pub fn registers_callback(&self) -> (b: bool)
        ensures
            b == (registered(self.callback) is Some),
    {
        registered_callback(self.callback).is_some()
    }
}

/// The arguments for the construction of a server, or nothing where none may
/// be attempted, see [`can_serve`].
pub fn server_request(name: Option<&str>, context: usize, options: Option<&SyphonOptions>) -> (r:
    Option<ServerRequest>)
    ensures
        r is Some <==> can_serve(context, options),
        r matches Some(q) ==> q.context == context && q.options == options_ptr(options)
            && bytes_view(q.name) == c_name_of(name),
{
    if context == 0 {
        return None;
    }
    let options: usize = match options {
        Some(o) => match o.as_ptr() {
            Some(p) => p,
            None => {
                return None;
            },
        },
        None => 0,
    };
    Some(ServerRequest { name: c_name(name), context, options })
}

/// The arguments for the construction of a client, see
/// [`client_request_for`].
pub fn client_request(
    description: &ServerDescription,
    context: usize,
    callback: Option<usize>,
) -> (r: Option<ClientRequest>)
    ensures
        r == client_request_for(description@, context, callback),
{
    if context == 0 {
        return None;
    }
    match description.as_ptr() {
        Some(description) => Some(
            ClientRequest {
                description,
                context,
                options: 0,
                callback: registered_callback(callback),
            },
        ),
        None => None,
    }
}

/// The callback storage of a request is freed by one step, whether or not a
/// client was made of it: where none was made, by the step that abandons the
/// request, and where one was made, by the last step of its teardown, after
/// its stop and its release.
pub proof fn lemma_callback_storage_is_freed(callback: Option<usize>, addr: usize, c: usize)
    requires
        registered(callback) == Some(c),
    ensures
        abandon_step(callback) == Some(Effect::DropCallback(c)),
        teardown(addr, registered(callback)) == seq![
            Effect::Stop(addr),
            Effect::Release(addr),
            Effect::DropCallback(c),
        ],
        abandon_step(None) is None,
{
}

/// A client is attached to the very object that its description names,
/// whether the description is borrowed or owned: the description that a
/// server gives of itself leads a client to that server, and to no other.
pub proof fn lemma_client_attaches_to_described(
    d: DescriptionView,
    context: usize,
    callback: Option<usize>,
)
    requires
        d.live,
        context != 0,
    ensures
        client_request_for(d, context, callback) matches Some(q) && q.description == d.addr
            && q.context == context,
        client_request_for(owned_at(d.addr), context, callback) == client_request_for(
            d,
            context,
            callback,
        ),
{
}

} // verus!
