//! Helpers for contexts and rectangle textures.
//!
//! Each decides whether its native call is made at all: a null context is not
//! destroyed, the texture name zero is not deleted, and pixels move only
//! through a buffer that is long enough for the image.

use vstd::prelude::*;
use crate::pixels::{fits_image, image_in};

verus! {

/// The OpenGL texture target of rectangle textures.
pub const GL_TEXTURE_RECTANGLE: u32 = 0x84F5;

/// The number of bytes of one RGBA8 pixel.
pub const RGBA8_BYTES: usize = 4;

/// The headless context that the native side created. A null pointer means
/// that it created none.
pub fn cgl_create_headless_context(raw: usize) -> (context: Option<usize>)
    ensures
        context == (if raw != 0 { Some(raw) } else { None }),
{
    if raw != 0 {
        Some(raw)
    } else {
        None
    }
}

/// The context for the native call that destroys a context. There is none
/// for a null context.
pub fn cgl_destroy_context(context: usize) -> (target: Option<usize>)
    ensures
        target == (if context != 0 { Some(context) } else { None }),
{
    if context != 0 {
        Some(context)
    } else {
        None
    }
}

/// The number of bytes that the native side reads of `rgba` to make a
/// rectangle texture of `width` by `height` RGBA8 pixels. Where `rgba` is
/// shorter than that, there is no native call and no texture.
pub fn gl_create_texture_rectangle_rgba8(width: usize, height: usize, rgba: &[u8]) -> (upload:
    Option<usize>)
    ensures
        upload == image_in(rgba@.len() as int, width as int, height as int, 4),
{
    fits_image(rgba.len(), width, height, RGBA8_BYTES)
}

/// The number of bytes that the native side writes to `out_rgba` when it
/// reads back a rectangle texture of `width` by `height` RGBA8 pixels. Where
/// `out_rgba` is shorter than that, there is no native call and nothing is
/// written.
pub fn gl_read_texture_rectangle_rgba8(
    tex_id: u32,
    width: usize,
    height: usize,
    out_rgba: &[u8],
) -> (download: Option<usize>)
    ensures
        download == image_in(out_rgba@.len() as int, width as int, height as int, 4),
{
    fits_image(out_rgba.len(), width, height, RGBA8_BYTES)
}

/// The texture for the native call that deletes a texture. There is none for
/// the name zero, which names no texture.
pub fn gl_delete_texture(tex_id: u32) -> (target: Option<u32>)
    ensures
        target == (if tex_id != 0 { Some(tex_id) } else { None }),
{
    if tex_id != 0 {
        Some(tex_id)
    } else {
        None
    }
}

} // verus!
