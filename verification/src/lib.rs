//! Ownership and lifecycle rules for handles of the Syphon and Spout
//! frame-sharing frameworks.
//!
//! The native frameworks hand out opaque pointers and expect them back under
//! manual rules: retain and release counts, stop before release, one destroy
//! for each create. This crate holds those rules and nothing else. It never
//! calls native code: a driver does, and asks this crate before and after.
//!
//! - Before a native call the driver asks for its arguments. An operation
//!   that may go out answers with the address to call on, or with the
//!   arguments that had to be worked out: names as C strings, lengths that
//!   the native side can take. An operation that may not go out answers
//!   with nothing, and the driver makes no call.
//! - After a native call the driver hands over what came back. A null
//!   pointer becomes an absent value, bytes become text where they are
//!   well-formed, and a live object passes the answer on.
//! - Where the lifetime of a native object changes, the crate returns the
//!   steps to take, as [`Effect`]s in the order to take them.
//!
//! Addresses travel as `usize`, native strings as bytes. The address that
//! the crate gives for a call to go out on is never null: it is one that the
//! native side gave, for an object that the crate has not yet let go of.

pub mod callback;
pub mod description;
pub mod directory;
pub mod effect;
pub mod gl;
pub mod handle;
pub mod lifecycle;
pub mod metal;
pub mod opengl;
pub mod options;
pub mod pixels;
pub mod request;
pub mod spout;
pub mod text;

pub use crate::callback::callback_target;
pub use crate::description::ServerDescription;
pub use crate::directory::{
    notification_name_server_announce, notification_name_server_retire,
    notification_name_server_update, MatchQuery, ServerDirectory, ServerDirectoryMatch,
};
pub use crate::effect::Effect;
pub use crate::gl::{
    cgl_create_headless_context, cgl_destroy_context, gl_create_texture_rectangle_rgba8,
    gl_delete_texture, gl_read_texture_rectangle_rgba8, GL_TEXTURE_RECTANGLE,
};
pub use crate::handle::{ContextRef, Handle};
pub use crate::lifecycle::{Endpoint, Phase, Request};
pub use crate::metal::{MetalClient, MetalServer, MetalTexture};
pub use crate::opengl::{OpenGLClient, OpenGLImage, OpenGLServer};
pub use crate::options::{OptionWrite, SyphonOptions};
pub use crate::request::{ClientRequest, NamedCall, ServerRequest};
pub use crate::spout::{BufferCall, Role, Spout, SpoutSenderInfo};
