//! The Spout handle: one native object that serves as a sender or as a
//! receiver, never as both.
//!
//! The first call that only a sender or only a receiver makes settles the
//! role of the handle. From then on the calls of the other role are refused.
//! Whatever the role, the handle is destroyed once.

use vstd::prelude::*;
use crate::effect::Effect;
use crate::handle::Handle;
use crate::pixels::{fits_image, image_len};
use crate::request::NamedCall;
use crate::text::{
    bytes_view, c_name, c_name_of, c_string, c_string_for, c_text, chars_view, text_in,
    text_in_reply, text_of, text_of_reply,
};

verus! {

/// The OpenGL pixel format of three bytes in the order red, green, blue.
pub const GL_RGB: u32 = 0x1907;

/// The OpenGL pixel format of four bytes in the order red, green, blue,
/// alpha.
pub const GL_RGBA: u32 = 0x1908;

/// The OpenGL pixel format of three bytes in the order blue, green, red.
pub const GL_BGR: u32 = 0x80E0;

/// The OpenGL pixel format of four bytes in the order blue, green, red,
/// alpha.
pub const GL_BGRA: u32 = 0x80E1;

/// The length in bytes of the buffer that the native side fills with a
/// sender's name.
pub const NAME_BUFFER_LEN: usize = 256;

/// The role that a handle has taken.
#[derive(Clone, Copy, Debug, PartialEq, Eq, Structural)]
pub enum Role {
    /// None yet.
    Unassigned,
    /// The handle publishes frames.
    Sender,
    /// The handle receives frames.
    Receiver,
}

/// What is known of a [`Spout`] handle.
pub struct SpoutView {
    /// The address of the native object.
    pub addr: usize,
    /// Whether the native object has not been destroyed.
    pub live: bool,
    /// The role that the handle has taken.
    pub role: Role,
}

/// What discovery tells of one sender.
#[derive(Clone, Copy, Debug)]
pub struct SpoutSenderInfo {
    /// The width of its frames in pixels.
    pub width: u32,
    /// The height of its frames in pixels.
    pub height: u32,
    /// The address of the handle that its texture is shared by.
    pub share_handle: usize,
    /// The format of its texture.
    pub format: u32,
}

/// The arguments of a native call that moves bytes through the shared buffer
/// of a sender.
#[derive(Debug, PartialEq, Eq)]
pub struct BufferCall {
    /// The address of the Spout object.
    pub object: usize,
    /// The C string of the sender's name.
    pub name: Vec<u8>,
    /// The number of bytes to move at most.
    pub length: i32,
}

/// The number of bytes of one pixel in a format that images are exchanged
/// in. Other formats are not exchanged.
pub open spec fn bytes_per_pixel_of(gl_format: u32) -> Option<usize> {
    if gl_format == GL_RGBA || gl_format == GL_BGRA {
        Some(4usize)
    } else if gl_format == GL_RGB || gl_format == GL_BGR {
        Some(3usize)
    } else {
        None
    }
}

/// Whether a buffer of `len` bytes holds an image of this size and format.
pub open spec fn holds_image(len: int, width: u32, height: u32, gl_format: u32) -> bool {
    match bytes_per_pixel_of(gl_format) {
        Some(b) => image_len(width as int, height as int, b as int) <= len,
        None => false,
    }
}

/// Whether a handle may make a call that belongs to `role`: it is live, and
/// has not taken the other role.
pub open spec fn can_act(v: SpoutView, role: Role) -> bool {
    v.live && (v.role == Role::Unassigned || v.role == role)
}

/// The handle after a call that settles its role.
pub open spec fn acting(v: SpoutView, role: Role) -> SpoutView {
    SpoutView { role, ..v }
}

/// The handle after a call of `role` that is made only where `permitted`.
pub open spec fn after_call(v: SpoutView, role: Role, permitted: bool) -> SpoutView {
    if permitted {
        acting(v, role)
    } else {
        v
    }
}

/// The address for a call that is made only where `permitted`.
pub open spec fn target_if(v: SpoutView, permitted: bool) -> Option<usize> {
    if permitted {
        Some(v.addr)
    } else {
        None
    }
}

/// The length of a buffer as the native side takes it. A buffer too long to
/// say so is not handed over.
pub open spec fn length_arg(len: int) -> Option<i32> {
    if len <= i32::MAX {
        Some(len as i32)
    } else {
        None
    }
}

/// The text that the native side wrote into a buffer, where the call was
/// permitted and the native side said that it wrote one; an empty text
/// counts.
pub open spec fn text_if(permitted: bool, ok: bool, buf: Seq<u8>) -> Option<Seq<char>> {
    if permitted && ok {
        text_in(buf)
    } else {
        None
    }
}

/// The number of bytes that a read from a shared buffer gave: what the native
/// side counted, and nothing where it counted none or failed.
pub open spec fn bytes_read(n: i32) -> usize {
    if n <= 0 {
        0
    } else {
        n as usize
    }
}

/// The number of bytes of one pixel, see [`bytes_per_pixel_of`].
pub fn bytes_per_pixel(gl_format: u32) -> (b: Option<usize>)
    ensures
        b == bytes_per_pixel_of(gl_format),
{
    if gl_format == GL_RGBA || gl_format == GL_BGRA {
        Some(4)
    } else if gl_format == GL_RGB || gl_format == GL_BGR {
        Some(3)
    } else {
        None
    }
}

/// Whether `pixels` holds an image of this size and format, see
/// [`holds_image`].
pub fn buffer_holds_image(pixels: &[u8], width: u32, height: u32, gl_format: u32) -> (b: bool)
    ensures
        b == holds_image(pixels@.len() as int, width, height, gl_format),
{
    match bytes_per_pixel(gl_format) {
        Some(b) => fits_image(pixels.len(), width as usize, height as usize, b).is_some(),
        None => false,
    }
}

/// A Spout object.
pub struct Spout {
    handle: Handle,
    role: Role,
}

impl View for Spout {
    type V = SpoutView;

    closed spec fn view(&self) -> SpoutView {
        SpoutView { addr: self.handle@.addr, live: self.handle@.live, role: self.role }
    }
}

impl Spout {
    /// Wraps the Spout object that the native side created. A null pointer
    /// means that Spout is not to be had, and gives nothing.
    pub fn new(raw: usize) -> (s: Option<Spout>)
        ensures
            s is None <==> raw == 0,
            s matches Some(s) ==> s@ == (SpoutView {
                addr: raw,
                live: true,
                role: Role::Unassigned,
            }),
    {
        match Handle::new(raw) {
            Some(handle) => Some(Spout { handle, role: Role::Unassigned }),
            None => None,
        }
    }

    /// The role that the handle has taken.
    pub fn role(&self) -> (r: Role)
        ensures
            r == self@.role,
    {
        self.role
    }

    /// The address for a native call of either role, until the object has
    /// been destroyed.
    pub fn as_ptr(&self) -> (p: Option<usize>)
        ensures
            p == target_if(self@, self@.live),
            self@.addr != 0,
    {
        self.handle.as_ptr()
    }

    /// The address for a native query about the sender that this handle is.
    /// There is none where the handle is a receiver.
    pub fn as_sender(&self) -> (p: Option<usize>)
        ensures
            p == target_if(self@, can_act(self@, Role::Sender)),
            p matches Some(a) ==> a != 0,
    {
        match self.role {
            Role::Receiver => None,
            _ => self.handle.as_ptr(),
        }
    }

    /// The address for a native query about the receiver that this handle
    /// is. There is none where the handle is a sender.
    pub fn as_receiver(&self) -> (p: Option<usize>)
        ensures
            p == target_if(self@, can_act(self@, Role::Receiver)),
            p matches Some(a) ==> a != 0,
    {
        match self.role {
            Role::Sender => None,
            _ => self.handle.as_ptr(),
        }
    }

    fn act_as(&mut self, role: Role) -> (p: Option<usize>)
        ensures
            p == target_if(old(self)@, can_act(old(self)@, role)),
            final(self)@ == after_call(old(self)@, role, can_act(old(self)@, role)),
            p matches Some(a) ==> a != 0,
    {
        if self.role == Role::Unassigned || self.role == role {
            match self.handle.as_ptr() {
                Some(p) => {
                    self.role = role;
                    Some(p)
                },
                None => None,
            }
        } else {
            None
        }
    }

    /// The arguments of the native call that names the sender. The call
    /// makes the handle a sender.
    pub fn sender_set_name(&mut self, name: Option<&str>) -> (call: Option<NamedCall>)
        ensures
            call is Some <==> can_act(old(self)@, Role::Sender),
            call matches Some(c) ==> c.object != 0 && c.object == old(self)@.addr
                && bytes_view(c.name) == c_name_of(name),
            final(self)@ == after_call(old(self)@, Role::Sender, call is Some),
    {
        match self.act_as(Role::Sender) {
            Some(object) => Some(NamedCall { object, name: c_name(name) }),
            None => None,
        }
    }

    /// The address for the native call that sets the texture format of the
    /// sender. The call makes the handle a sender.
    pub fn sender_set_format(&mut self) -> (p: Option<usize>)
        ensures
            p == target_if(old(self)@, can_act(old(self)@, Role::Sender)),
            final(self)@ == after_call(old(self)@, Role::Sender, p is Some),
            p matches Some(a) ==> a != 0,
    {
        self.act_as(Role::Sender)
    }

    /// The address for the native call that sends a texture. The call makes
    /// the handle a sender.
    pub fn sender_send_texture(&mut self) -> (p: Option<usize>)
        ensures
            p == target_if(old(self)@, can_act(old(self)@, Role::Sender)),
            final(self)@ == after_call(old(self)@, Role::Sender, p is Some),
            p matches Some(a) ==> a != 0,
    {
        self.act_as(Role::Sender)
    }

    /// The address for the native call that sends what the bound framebuffer
    /// holds. The call makes the handle a sender.
    pub fn sender_send_fbo(&mut self) -> (p: Option<usize>)
        ensures
            p == target_if(old(self)@, can_act(old(self)@, Role::Sender)),
            final(self)@ == after_call(old(self)@, Role::Sender, p is Some),
            p matches Some(a) ==> a != 0,
    {
        self.act_as(Role::Sender)
    }

    /// The address for the native call that sends an image from `pixels`.
    /// There is none, and nothing is sent, where `pixels` is shorter than the
    /// image or the format is not one that images are exchanged in. The call
    /// makes the handle a sender.
    pub fn sender_send_image(
        &mut self,
        pixels: &[u8],
        width: u32,
        height: u32,
        gl_format: u32,
    ) -> (p: Option<usize>)
        ensures
            p == target_if(
                old(self)@,
                can_act(old(self)@, Role::Sender) && holds_image(
                    pixels@.len() as int,
                    width,
                    height,
                    gl_format,
                ),
            ),
            final(self)@ == after_call(old(self)@, Role::Sender, p is Some),
            p matches Some(a) ==> a != 0,
    {
        if buffer_holds_image(pixels, width, height, gl_format) {
            self.act_as(Role::Sender)
        } else {
            None
        }
    }

    /// The address for the native call that releases the sender and frees what
    /// it holds. There is none where the handle is a receiver.
    pub fn sender_release(&self) -> (p: Option<usize>)
        ensures
            p == target_if(self@, can_act(self@, Role::Sender)),
            p matches Some(a) ==> a != 0,
    {
        self.as_sender()
    }

    /// Whether the sender is initialized, as the native side answered. A
    /// receiver is no initialized sender.
    pub fn sender_is_initialized(&self, reply: bool) -> (answer: bool)
        ensures
            answer == (if can_act(self@, Role::Sender) { reply } else { false }),
    {
        match self.as_sender() {
            Some(_) => reply,
            None => false,
        }
    }

    /// The width of the sender's frames, as the native side answered. A
    /// receiver sends no frames: zero.
    pub fn sender_width(&self, reply: u32) -> (answer: u32)
        ensures
            answer == (if can_act(self@, Role::Sender) { reply } else { 0 }),
    {
        match self.as_sender() {
            Some(_) => reply,
            None => 0,
        }
    }

    /// The height of the sender's frames, as the native side answered. A
    /// receiver sends no frames: zero.
    pub fn sender_height(&self, reply: u32) -> (answer: u32)
        ensures
            answer == (if can_act(self@, Role::Sender) { reply } else { 0 }),
    {
        match self.as_sender() {
            Some(_) => reply,
            None => 0,
        }
    }

    /// The texture format of the sender, as the native side answered. A
    /// receiver has none: zero.
    pub fn sender_format(&self, reply: u32) -> (answer: u32)
        ensures
            answer == (if can_act(self@, Role::Sender) { reply } else { 0 }),
    {
        match self.as_sender() {
            Some(_) => reply,
            None => 0,
        }
    }

    /// The number of the frame that the sender sent last, as the native side
    /// answered. A receiver has sent none: zero.
    pub fn sender_frame(&self, reply: i64) -> (answer: i64)
        ensures
            answer == (if can_act(self@, Role::Sender) { reply } else { 0 }),
    {
        match self.as_sender() {
            Some(_) => reply,
            None => 0,
        }
    }

    /// The name of the sender, from the bytes that the native side gave for
    /// it. Absent where it gave none or no well-formed text. A receiver has
    /// no name as a sender.
    pub fn sender_name(&self, reply: Option<&[u8]>) -> (text: Option<String>)
        ensures
            chars_view(text) == (if can_act(self@, Role::Sender) {
                text_in_reply(reply)
            } else {
                None
            }),
    {
        match self.as_sender() {
            Some(_) => text_of_reply(reply),
            None => None,
        }
    }

    /// The arguments of the native call that names the sender to receive
    /// from; a null name stands for the active sender. The call makes the
    /// handle a receiver.
    pub fn receiver_set_name(&mut self, sender_name: Option<&str>) -> (call: Option<NamedCall>)
        ensures
            call is Some <==> can_act(old(self)@, Role::Receiver),
            call matches Some(c) ==> c.object != 0 && c.object == old(self)@.addr
                && bytes_view(c.name) == c_name_of(sender_name),
            final(self)@ == after_call(old(self)@, Role::Receiver, call is Some),
    {
        match self.act_as(Role::Receiver) {
            Some(object) => Some(NamedCall { object, name: c_name(sender_name) }),
            None => None,
        }
    }

    /// The address for the native call that receives into a texture. The
    /// call makes the handle a receiver.
    pub fn receiver_receive_texture(&mut self) -> (p: Option<usize>)
        ensures
            p == target_if(old(self)@, can_act(old(self)@, Role::Receiver)),
            final(self)@ == after_call(old(self)@, Role::Receiver, p is Some),
            p matches Some(a) ==> a != 0,
    {
        self.act_as(Role::Receiver)
    }

    /// The address for the native call that receives an image into `pixels`
    /// from a sender whose frames have the given size. There is none, and
    /// nothing is received, where `pixels` is shorter than the image or the
    /// format is not one that images are exchanged in. The call makes the
    /// handle a receiver.
    pub fn receiver_receive_image(
        &mut self,
        pixels: &[u8],
        sender_width: u32,
        sender_height: u32,
        gl_format: u32,
    ) -> (p: Option<usize>)
        ensures
            p == target_if(
                old(self)@,
                can_act(old(self)@, Role::Receiver) && holds_image(
                    pixels@.len() as int,
                    sender_width,
                    sender_height,
                    gl_format,
                ),
            ),
            final(self)@ == after_call(old(self)@, Role::Receiver, p is Some),
            p matches Some(a) ==> a != 0,
    {
        if buffer_holds_image(pixels, sender_width, sender_height, gl_format) {
            self.act_as(Role::Receiver)
        } else {
            None
        }
    }

    /// The address for the native call that releases the receiver. There is
    /// none where the handle is a sender.
    pub fn receiver_release(&self) -> (p: Option<usize>)
        ensures
            p == target_if(self@, can_act(self@, Role::Receiver)),
            p matches Some(a) ==> a != 0,
    {
        self.as_receiver()
    }

    /// Whether the frame received last is a new one, as the native side
    /// answered. A sender receives none.
    pub fn receiver_is_frame_new(&self, reply: bool) -> (answer: bool)
        ensures
            answer == (if can_act(self@, Role::Receiver) { reply } else { false }),
    {
        match self.as_receiver() {
            Some(_) => reply,
            None => false,
        }
    }

    /// Whether the sender that is received from has changed its size or its
    /// connection, as the native side answered. A sender receives from none.
    pub fn receiver_is_updated(&self, reply: bool) -> (answer: bool)
        ensures
            answer == (if can_act(self@, Role::Receiver) { reply } else { false }),
    {
        match self.as_receiver() {
            Some(_) => reply,
            None => false,
        }
    }

    /// Whether the receiver is connected to a sender, as the native side
    /// answered. A sender is not.
    pub fn receiver_is_connected(&self, reply: bool) -> (answer: bool)
        ensures
            answer == (if can_act(self@, Role::Receiver) { reply } else { false }),
    {
        match self.as_receiver() {
            Some(_) => reply,
            None => false,
        }
    }

    /// The width of the frames of the sender that is received from, as the
    /// native side answered. A sender receives from none: zero.
    pub fn receiver_sender_width(&self, reply: u32) -> (answer: u32)
        ensures
            answer == (if can_act(self@, Role::Receiver) { reply } else { 0 }),
    {
        match self.as_receiver() {
            Some(_) => reply,
            None => 0,
        }
    }

    /// The height of the frames of the sender that is received from, as the
    /// native side answered. A sender receives from none: zero.
    pub fn receiver_sender_height(&self, reply: u32) -> (answer: u32)
        ensures
            answer == (if can_act(self@, Role::Receiver) { reply } else { 0 }),
    {
        match self.as_receiver() {
            Some(_) => reply,
            None => 0,
        }
    }

    /// The texture format of the sender that is received from, as the native
    /// side answered. A sender receives from none: zero.
    pub fn receiver_sender_format(&self, reply: u32) -> (answer: u32)
        ensures
            answer == (if can_act(self@, Role::Receiver) { reply } else { 0 }),
    {
        match self.as_receiver() {
            Some(_) => reply,
            None => 0,
        }
    }

    /// The number of the frame received last, as the native side answered. A
    /// sender has received none: zero.
    pub fn receiver_sender_frame(&self, reply: i64) -> (answer: i64)
        ensures
            answer == (if can_act(self@, Role::Receiver) { reply } else { 0 }),
    {
        match self.as_receiver() {
            Some(_) => reply,
            None => 0,
        }
    }

    fn name_in(permitted: bool, ok: bool, buf: &[u8]) -> (text: Option<String>)
        ensures
            chars_view(text) == text_if(permitted, ok, buf@),
    {
        if permitted && ok {
            text_of(buf)
        } else {
            None
        }
    }

    /// The name of the sender that is received from, out of the buffer that
    /// the native side filled. `ok` is what the native call returned. A
    /// sender receives from none.
    pub fn receiver_sender_name(&self, ok: bool, buf: &[u8]) -> (text: Option<String>)
        ensures
            chars_view(text) == text_if(can_act(self@, Role::Receiver), ok, buf@),
    {
        Self::name_in(self.as_receiver().is_some(), ok, buf)
    }

    /// The address for the native call that binds the shared texture for
    /// reading.
    pub fn bind_shared_texture(&self) -> (p: Option<usize>)
        ensures
            p == target_if(self@, self@.live),
            p matches Some(a) ==> a != 0,
    {
        self.handle.as_ptr()
    }

    /// The address for the native call that unbinds the shared texture.
    pub fn unbind_shared_texture(&self) -> (p: Option<usize>)
        ensures
            p == target_if(self@, self@.live),
            p matches Some(a) ==> a != 0,
    {
        self.handle.as_ptr()
    }

    /// The address for the native call that switches frame sync on or off.
    pub fn enable_frame_sync(&self) -> (p: Option<usize>)
        ensures
            p == target_if(self@, self@.live),
            p matches Some(a) ==> a != 0,
    {
        self.handle.as_ptr()
    }

    /// The address for the native call that closes what frame sync holds.
    pub fn close_frame_sync(&self) -> (p: Option<usize>)
        ensures
            p == target_if(self@, self@.live),
            p matches Some(a) ==> a != 0,
    {
        self.handle.as_ptr()
    }

    /// The address for the native call that switches the buffering of frames
    /// on or off.
    pub fn set_buffer_mode(&self) -> (p: Option<usize>)
        ensures
            p == target_if(self@, self@.live),
            p matches Some(a) ==> a != 0,
    {
        self.handle.as_ptr()
    }

    /// The address for the native call that sets the number of frame buffers.
    pub fn set_buffers(&self) -> (p: Option<usize>)
        ensures
            p == target_if(self@, self@.live),
            p matches Some(a) ==> a != 0,
    {
        self.handle.as_ptr()
    }

    /// The address for the native call that switches sharing through the CPU
    /// on or off.
    pub fn set_cpu_mode(&self) -> (p: Option<usize>)
        ensures
            p == target_if(self@, self@.live),
            p matches Some(a) ==> a != 0,
    {
        self.handle.as_ptr()
    }

    /// The name of the shared texture, as the native side answered. A
    /// destroyed object shares none: zero.
    pub fn shared_texture_id(&self, reply: u32) -> (answer: u32)
        ensures
            answer == (if self@.live { reply } else { 0 }),
    {
        match self.handle.as_ptr() {
            Some(_) => reply,
            None => 0,
        }
    }

    /// The number of senders that are known, as the native side counted them
    /// just now. A destroyed object knows none.
    pub fn sender_count(&self, reply: i32) -> (answer: i32)
        ensures
            answer == (if self@.live { reply } else { 0 }),
    {
        match self.handle.as_ptr() {
            Some(_) => reply,
            None => 0,
        }
    }

    /// Whether frame sync is enabled, as the native side answered. For a
    /// destroyed object it is not.
    pub fn is_frame_sync_enabled(&self, reply: bool) -> (answer: bool)
        ensures
            answer == (if self@.live { reply } else { false }),
    {
        match self.handle.as_ptr() {
            Some(_) => reply,
            None => false,
        }
    }

    /// The largest number of senders that can be registered, as the native
    /// side answered. A destroyed object registers none.
    pub fn max_senders(&self, reply: i32) -> (answer: i32)
        ensures
            answer == (if self@.live { reply } else { 0 }),
    {
        match self.handle.as_ptr() {
            Some(_) => reply,
            None => 0,
        }
    }

    /// Whether frames are buffered, as the native side answered. For a
    /// destroyed object they are not.
    pub fn buffer_mode(&self, reply: bool) -> (answer: bool)
        ensures
            answer == (if self@.live { reply } else { false }),
    {
        match self.handle.as_ptr() {
            Some(_) => reply,
            None => false,
        }
    }

    /// The number of frame buffers, as the native side answered. A destroyed
    /// object has none.
    pub fn buffers(&self, reply: i32) -> (answer: i32)
        ensures
            answer == (if self@.live { reply } else { 0 }),
    {
        match self.handle.as_ptr() {
            Some(_) => reply,
            None => 0,
        }
    }

    /// Whether frames are shared through the CPU, as the native side answered.
    /// For a destroyed object they are not.
    pub fn cpu_mode(&self, reply: bool) -> (answer: bool)
        ensures
            answer == (if self@.live { reply } else { false }),
    {
        match self.handle.as_ptr() {
            Some(_) => reply,
            None => false,
        }
    }

    /// The name of the sender at one index of the list of senders, out of
    /// the buffer that the native side filled. `ok` is what the native call
    /// returned: false where the index is out of range.
    pub fn sender_name_at(&self, ok: bool, buf: &[u8]) -> (text: Option<String>)
        ensures
            chars_view(text) == text_if(self@.live, ok, buf@),
    {
        Self::name_in(self.handle.as_ptr().is_some(), ok, buf)
    }

    /// The arguments of the native call that looks a sender up by name. A
    /// name that has no C string goes out as null.
    pub fn find_sender_name(&self, sendername: &str) -> (call: Option<NamedCall>)
        ensures
            call is Some <==> self@.live,
            call matches Some(c) ==> c.object != 0 && c.object == self@.addr
                && bytes_view(c.name) == c_string_for(sendername),
    {
        match self.handle.as_ptr() {
            Some(object) => Some(NamedCall { object, name: c_string(sendername) }),
            None => None,
        }
    }

    /// The name of the active sender, out of the buffer that the native side
    /// filled. `ok` is what the native call returned. An empty name means
    /// that there is none.
    pub fn active_sender(&self, ok: bool, buf: &[u8]) -> (text: Option<String>)
        ensures
            chars_view(text) == (if c_text(buf@).len() == 0 {
                None
            } else {
                text_if(self@.live, ok, buf@)
            }),
    {
        if buf.len() == 0 || buf[0] == 0 {
            proof {
                crate::text::lemma_text_len_unique(buf@, 0);
            }
            None
        } else {
            proof {
                if c_text(buf@).len() == 0 {
                    crate::text::lemma_text_len_is(buf@);
                }
            }
            Self::name_in(self.handle.as_ptr().is_some(), ok, buf)
        }
    }

    /// The arguments of the native call that makes a sender the active one.
    /// An absent name, and one that has no C string, go out as null.
    pub fn set_active_sender(&self, sendername: Option<&str>) -> (call: Option<NamedCall>)
        ensures
            call is Some <==> self@.live,
            call matches Some(c) ==> c.object != 0 && c.object == self@.addr
                && bytes_view(c.name) == c_name_of(sendername),
    {
        match self.handle.as_ptr() {
            Some(object) => Some(NamedCall { object, name: c_name(sendername) }),
            None => None,
        }
    }

    /// The arguments of the native call that asks for the size, share handle
    /// and format of a sender. There are none for a name that has no C
    /// string: no sender has such a name.
    pub fn sender_info_request(&self, sendername: &str) -> (call: Option<NamedCall>)
        ensures
            call is Some <==> self@.live && c_string_for(sendername) is Some,
            call matches Some(c) ==> c.object != 0 && c.object == self@.addr
                && bytes_view(c.name) == c_string_for(sendername),
    {
        match self.handle.as_ptr() {
            Some(object) => match c_string(sendername) {
                Some(name) => Some(NamedCall { object, name: Some(name) }),
                None => None,
            },
            None => None,
        }
    }

    /// What the native side told of a sender. `ok` is what the native call
    /// returned: false where there is no such sender.
    pub fn sender_info(
        &self,
        ok: bool,
        width: u32,
        height: u32,
        share_handle: usize,
        format: u32,
    ) -> (info: Option<SpoutSenderInfo>)
        ensures
            info is Some <==> ok && self@.live,
            info matches Some(i) ==> i.width == width && i.height == height && i.share_handle
                == share_handle && i.format == format,
    {
        match self.handle.as_ptr() {
            Some(_) => if ok {
                Some(SpoutSenderInfo { width, height, share_handle, format })
            } else {
                None
            },
            None => None,
        }
    }

    /// The arguments of the native call that signals the frame sync event of
    /// a sender. An absent name, and one that has no C string, go out as
    /// null.
    pub fn set_frame_sync(&self, sendername: Option<&str>) -> (call: Option<NamedCall>)
        ensures
            call is Some <==> self@.live,
            call matches Some(c) ==> c.object != 0 && c.object == self@.addr
                && bytes_view(c.name) == c_name_of(sendername),
    {
        self.set_active_sender(sendername)
    }

    /// The arguments of the native call that waits for the frame sync event
    /// of a sender. An absent name, and one that has no C string, go out as
    /// null.
    pub fn wait_frame_sync(&self, sendername: Option<&str>) -> (call: Option<NamedCall>)
        ensures
            call is Some <==> self@.live,
            call matches Some(c) ==> c.object != 0 && c.object == self@.addr
                && bytes_view(c.name) == c_name_of(sendername),
    {
        self.set_active_sender(sendername)
    }

    fn buffer_call(&self, sendername: &str, len: usize) -> (call: Option<BufferCall>)
        ensures
            call is Some <==> self@.live && c_string_for(sendername) is Some
                && length_arg(len as int) is Some,
            call matches Some(c) ==> c.object != 0 && c.object == self@.addr && Some(c.name@)
                == c_string_for(sendername) && Some(c.length) == length_arg(len as int),
    {
        if len > 0x7fff_ffff {
            return None;
        }
        match self.handle.as_ptr() {
            Some(object) => match c_string(sendername) {
                Some(name) => Some(BufferCall { object, name, length: len as i32 }),
                None => None,
            },
            None => None,
        }
    }

    /// The arguments of the native call that writes `data` to the shared
    /// buffer of a sender. There are none, and nothing is written, for a
    /// name that has no C string and for more bytes than the native side can
    /// be told of.
    pub fn write_memory_buffer(&self, sendername: &str, data: &[u8]) -> (call: Option<BufferCall>)
        ensures
            call is Some <==> self@.live && c_string_for(sendername) is Some
                && length_arg(data@.len() as int) is Some,
            call matches Some(c) ==> c.object != 0 && c.object == self@.addr && Some(c.name@)
                == c_string_for(sendername) && Some(c.length) == length_arg(data@.len() as int),
    {
        self.buffer_call(sendername, data.len())
    }

    /// The arguments of the native call that reads from the shared buffer of
    /// a sender into `out`. There are none, and nothing is read, for a name
    /// that has no C string and for a buffer longer than the native side can
    /// be told of.
    pub fn read_memory_buffer_request(&self, sendername: &str, out: &[u8]) -> (call: Option<
        BufferCall,
    >)
        ensures
            call is Some <==> self@.live && c_string_for(sendername) is Some
                && length_arg(out@.len() as int) is Some,
            call matches Some(c) ==> c.object != 0 && c.object == self@.addr && Some(c.name@)
                == c_string_for(sendername) && Some(c.length) == length_arg(out@.len() as int),
    {
        self.buffer_call(sendername, out.len())
    }

    /// The number of bytes read from a shared buffer, from what the native
    /// call returned, see [`bytes_read`].
    pub fn read_memory_buffer(&self, n: i32) -> (count: usize)
        ensures
            count == bytes_read(n),
    {
        if n <= 0 {
            0
        } else {
            n as usize
        }
    }

    /// Lets go of the handle. The first call asks for the destruction of the
    /// native object, whatever role it had; a later call asks for nothing.
    pub fn dispose(&mut self) -> (e: Option<Effect>)
        ensures
            e == (if old(self)@.live { Some(Effect::Release(old(self)@.addr)) } else { None }),
            final(self)@ == (SpoutView { live: false, ..old(self)@ }),
    {
        self.handle.release()
    }
}

/// A buffer that is shorter than the image never reaches native code,
/// whatever the handle and its role: there is no call, and the handle stays
/// as it was. The same holds for a format that images are not exchanged in.
pub proof fn lemma_undersized_is_refused(
    v: SpoutView,
    role: Role,
    len: int,
    width: u32,
    height: u32,
    gl_format: u32,
)
    requires
        forall|bytes: usize|
            bytes_per_pixel_of(gl_format) == Some(bytes) ==> len < image_len(
                width as int,
                height as int,
                bytes as int,
            ),
    ensures
        !holds_image(len, width, height, gl_format),
        target_if(v, can_act(v, role) && holds_image(len, width, height, gl_format)) is None,
        after_call(v, role, can_act(v, role) && holds_image(len, width, height, gl_format)) == v,
{
}

/// A call that moves an image is made only with a buffer that holds the
/// whole image.
pub proof fn lemma_image_call_fits(
    v: SpoutView,
    role: Role,
    len: int,
    width: u32,
    height: u32,
    gl_format: u32,
)
    requires
        target_if(v, can_act(v, role) && holds_image(len, width, height, gl_format)) is Some,
    ensures
        bytes_per_pixel_of(gl_format) matches Some(bytes) && image_len(
            width as int,
            height as int,
            bytes as int,
        ) <= len,
{
}

/// The handle after a run of calls, each of which belongs to a role.
pub open spec fn after_calls(v: SpoutView, roles: Seq<Role>) -> SpoutView
    decreases roles.len(),
{
    if roles.len() == 0 {
        v
    } else {
        let before = after_calls(v, roles.drop_last());
        after_call(before, roles.last(), can_act(before, roles.last()))
    }
}

/// The roles of those calls of a run that were made, in order.
pub open spec fn calls_made(v: SpoutView, roles: Seq<Role>) -> Seq<Role>
    decreases roles.len(),
{
    if roles.len() == 0 {
        Seq::empty()
    } else {
        let before = after_calls(v, roles.drop_last());
        if can_act(before, roles.last()) {
            calls_made(v, roles.drop_last()).push(roles.last())
        } else {
            calls_made(v, roles.drop_last())
        }
    }
}

/// Whatever calls are tried on a handle, and in whatever order, all that are
/// made belong to one role: the role that the handle has from then on.
pub proof fn lemma_one_role(v: SpoutView, roles: Seq<Role>)
    requires
        forall|i: int| 0 <= i < roles.len() ==> roles[i] != Role::Unassigned,
    ensures
        forall|i: int|
            0 <= i < calls_made(v, roles).len() ==> #[trigger] calls_made(v, roles)[i]
                == after_calls(v, roles).role,
        forall|i: int, j: int|
            0 <= i < calls_made(v, roles).len() && 0 <= j < calls_made(v, roles).len()
                ==> calls_made(v, roles)[i] == calls_made(v, roles)[j],
        v.role != Role::Unassigned ==> after_calls(v, roles).role == v.role,
        calls_made(v, roles).len() == 0 ==> after_calls(v, roles).role == v.role,
    decreases roles.len(),
{
    if roles.len() > 0 {
        let head = roles.drop_last();
        assert forall|i: int| 0 <= i < head.len() implies head[i] != Role::Unassigned by {
            assert(head[i] == roles[i]);
        }
        lemma_one_role(v, head);
    }
}

/// A handle never takes both roles: once it acts as one, the calls of the
/// other are refused for good.
pub proof fn lemma_roles_exclude(v: SpoutView, first: Role, other: Role)
    requires
        first != Role::Unassigned,
        other != Role::Unassigned,
        other != first,
        can_act(v, first),
    ensures
        !can_act(acting(v, first), other),
        can_act(acting(v, first), first),
        acting(acting(v, first), first) == acting(v, first),
{
}

} // verus!
