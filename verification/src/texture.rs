use vstd::prelude::*;
use crate::call::{FilterMode, GlCall, TextureFilter};

verus! {

/// The texture unit that the atlas is bound to.
pub const ATLAS_UNIT: u32 = 0;

/// Bytes of one pixel of the atlas: red, green, blue and alpha.
pub const PIXEL_SIZE: usize = 4;

/// Bytes that the pixels of an atlas of `width` by `height` pixels take.
pub open spec fn atlas_len(width: u32, height: u32) -> int {
    width * height * PIXEL_SIZE
}

/// Counts the bytes that the upload of an atlas of `width` by `height`
/// pixels reads, or nothing where a `usize` does not hold the count.
pub fn atlas_bytes(width: u32, height: u32) -> (bytes: Option<usize>)
    ensures
        bytes == if atlas_len(width, height) <= usize::MAX {
            Some(atlas_len(width, height) as usize)
        } else {
            None::<usize>
        },
{
    assert(0 <= width * height) by (nonlinear_arith);
    match (width as usize).checked_mul(height as usize) {
        Some(pixels) => pixels.checked_mul(PIXEL_SIZE),
        None => None,
    }
}

/// The calls that upload the font atlas, `width` by `height` pixels, where
/// the graphics API answers the generating call with the name `texture`: the
/// texture is bound to the atlas unit, sampled without interpolation in both
/// directions, filled with the pixels and unbound again.
pub open spec fn texture_setup(texture: u32, width: u32, height: u32) -> Seq<GlCall> {
    seq![
        GlCall::GenTexture,
        GlCall::ActiveTexture { unit: ATLAS_UNIT },
        GlCall::BindTexture { texture },
        GlCall::TexParameter { filter: TextureFilter::Minify, mode: FilterMode::Nearest },
        GlCall::TexParameter { filter: TextureFilter::Magnify, mode: FilterMode::Nearest },
        GlCall::TexImage2D { width, height },
        GlCall::BindTexture { texture: 0 },
    ]
}

/// Number of calls in [`texture_setup`].
pub const TEXTURE_SETUP_LEN: usize = 7;

/// Plans the upload of the font atlas for the name that the graphics API
/// gave to its texture.
pub fn init_texture(texture: u32, width: u32, height: u32) -> (calls: Vec<GlCall>)
    ensures
        calls@ == texture_setup(texture, width, height),
        calls@.len() == TEXTURE_SETUP_LEN,
{
    let mut calls: Vec<GlCall> = Vec::new();
    calls.push(GlCall::GenTexture);
    calls.push(GlCall::ActiveTexture { unit: ATLAS_UNIT });
    calls.push(GlCall::BindTexture { texture });
    calls.push(GlCall::TexParameter { filter: TextureFilter::Minify, mode: FilterMode::Nearest });
    calls.push(GlCall::TexParameter { filter: TextureFilter::Magnify, mode: FilterMode::Nearest });
    calls.push(GlCall::TexImage2D { width, height });
    calls.push(GlCall::BindTexture { texture: 0 });
    assert(calls@ =~= texture_setup(texture, width, height));
    calls
}

} // verus!
