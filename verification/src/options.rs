//! Options for the construction of a server.
//!
//! The options object is written to and never read. It is handed to a server
//! at construction and released on its own, whether or not the construction
//! succeeded.

use vstd::prelude::*;
use crate::effect::Effect;
use crate::handle::{release_step, released, Handle, HandleView};

verus! {

/// One write to an options object: the arguments of the native setter.
#[derive(Clone, Copy, Debug, PartialEq, Eq, Structural)]
pub enum OptionWrite {
    /// Set a boolean option.
    Bool { options: usize, key: usize, flag: bool },
    /// Set an unsigned option.
    UnsignedLong { options: usize, key: usize, number: u64 },
}

/// The write of a boolean under a key that the native side named. A null key
/// names no option, and a released options object takes no write.
pub open spec fn bool_write(v: HandleView, key: usize, value: bool) -> Option<OptionWrite> {
    if v.live && key != 0 {
        Some(OptionWrite::Bool { options: v.addr, key, flag: value })
    } else {
        None
    }
}

/// The write of an unsigned number under a key that the native side named.
/// A null key names no option, and a released options object takes no write.
pub open spec fn unsigned_write(v: HandleView, key: usize, value: u32) -> Option<OptionWrite> {
    if v.live && key != 0 {
        Some(OptionWrite::UnsignedLong { options: v.addr, key, number: value as u64 })
    } else {
        None
    }
}

/// The options that a server is constructed with.
pub struct SyphonOptions {
    handle: Handle,
}

impl View for SyphonOptions {
    type V = HandleView;

    closed spec fn view(&self) -> HandleView {
        self.handle@
    }
}

impl SyphonOptions {
    /// Wraps the empty options object that the native side returned. A null
    /// pointer gives nothing.
    pub fn new(raw: usize) -> (o: Option<SyphonOptions>)
        ensures
            o is None <==> raw == 0,
            o matches Some(o) ==> o@ == (HandleView { addr: raw, live: true }),
    {
        match Handle::new(raw) {
            Some(handle) => Some(SyphonOptions { handle }),
            None => None,
        }
    }

    /// The address for a native call, until the options have been released.
    pub fn as_ptr(&self) -> (p: Option<usize>)
        ensures
            p == (if self@.live { Some(self@.addr) } else { None }),
            self@.addr != 0,
    {
        self.handle.as_ptr()
    }

    fn write_unsigned(&self, key: usize, value: u32) -> (w: Option<OptionWrite>)
        ensures
            w == unsigned_write(self@, key, value),
    {
        match self.handle.as_ptr() {
            Some(options) => if key != 0 {
                Some(OptionWrite::UnsignedLong { options, key, number: value as u64 })
            } else {
                None
            },
            None => None,
        }
    }

    /// Makes the server invisible to the directory. `key` is the address of
    /// the key that the native side names this option by.
    pub fn set_is_private(&self, key: usize, value: bool) -> (w: Option<OptionWrite>)
        ensures
            w == bool_write(self@, key, value),
    {
        match self.handle.as_ptr() {
            Some(options) => if key != 0 {
                Some(OptionWrite::Bool { options, key, flag: value })
            } else {
                None
            },
            None => None,
        }
    }

    /// Sets the number of samples for antialiasing. `key` is the address of
    /// the key that the native side names this option by.
    pub fn set_antialias_sample_count(&self, key: usize, count: u32) -> (w: Option<OptionWrite>)
        ensures
            w == unsigned_write(self@, key, count),
    {
        self.write_unsigned(key, count)
    }

    /// Sets the resolution of the depth buffer in bits. `key` is the address
    /// of the key that the native side names this option by.
    pub fn set_depth_buffer_resolution(&self, key: usize, bits: u32) -> (w: Option<OptionWrite>)
        ensures
            w == unsigned_write(self@, key, bits),
    {
        self.write_unsigned(key, bits)
    }

    /// Sets the resolution of the stencil buffer in bits. `key` is the
    /// address of the key that the native side names this option by.
    pub fn set_stencil_buffer_resolution(&self, key: usize, bits: u32) -> (w: Option<
        OptionWrite,
    >)
        ensures
            w == unsigned_write(self@, key, bits),
    {
        self.write_unsigned(key, bits)
    }

    /// Lets go of the options. The first call asks for their release, a later
    /// call for nothing.
    pub fn dispose(&mut self) -> (e: Option<Effect>)
        ensures
            e == release_step(old(self)@),
            final(self)@ == released(old(self)@),
    {
        self.handle.release()
    }
}

} // verus!
