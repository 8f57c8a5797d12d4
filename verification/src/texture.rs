//! Texture ingestion: turn raw PNG-encoded image bytes into the host-side
//! description of a GPU texture.
//!
//! Decoding and channel normalization are done by the `image` crate, with
//! the format pinned to PNG; the result is validated against the 16-bit
//! texture-size limit and packaged as a [`TextureHandle`] holding exactly
//! `width * height * 4` RGBA8 bytes.  The surrounding application uploads
//! the buffer to the device in one operation.

use vstd::prelude::*;

use crate::error::FlowError;

verus! {

/// Greatest width or height a texture may have: dimensions are carried in the
/// 16-bit fields of the texture descriptor.
pub const MAX_TEXTURE_DIM: u32 = 65535;

/// What the PNG decoder yields for a byte sequence: `None` when the bytes
/// are not a valid PNG image, otherwise the width, the height and the
/// normalized RGBA8 pixel buffer of the decoded image.  With the format
/// pinned, decoding is a function of the bytes alone.
pub uninterp spec fn decoded_rgba(bytes: Seq<u8>) -> Option<(u32, u32, Seq<u8>)>;

/// Relies on `image::load_from_memory_with_format` with the format pinned
/// to PNG (a built-in format, so no process-global decoding hook is
/// consulted and the result is a function of the byte sequence alone),
/// `DynamicImage::to_rgba8` (every source channel layout is normalized to
/// RGBA8, so the buffer holds exactly `width * height * 4` bytes; a missing
/// alpha channel comes back fully opaque) and
/// `ImageBuffer::{dimensions, into_raw}`.
#[verifier::external_body]
fn decode_rgba(data: &[u8]) -> (r: Result<(u32, u32, Vec<u8>), String>)
    ensures
        match r {
            Ok(d) => decoded_rgba(data@) == Some((d.0, d.1, d.2@))
                && d.2@.len() == 4 * (d.0 as nat) * (d.1 as nat),
            Err(_) => decoded_rgba(data@) is None,
        },
{
    match image::load_from_memory_with_format(data, image::ImageFormat::Png) {
        Ok(img) => {
            let rgba = img.to_rgba8();
            let (w, h) = rgba.dimensions();
            Ok((w, h, rgba.into_raw()))
        }
        Err(e) => Err(e.to_string()),
    }
}

/// The host-side description of a static 2D RGBA8 texture: dimensions in the
/// 16-bit range and the pixel buffer to upload.  Created once at startup and
/// never mutated afterwards.
pub struct TextureHandle {
    pub width: u16,
    pub height: u16,
    pub pixels: Vec<u8>,
}

impl TextureHandle {
    /// The pixel buffer holds exactly four bytes per texel.
    pub open spec fn wf(self) -> bool {
        self.pixels@.len() == 4 * (self.width as nat) * (self.height as nat)
    }
}

/// Decode `encoded` as a PNG image and package it as a texture.
///
/// Fails with `DecodeError` exactly when the bytes are not a valid PNG
/// image, and with `DimensionError` exactly when the decoded width or height
/// exceeds [`MAX_TEXTURE_DIM`]; otherwise the handle reports the decoded
/// dimensions and holds the full normalized pixel buffer.
pub fn load(encoded: &[u8]) -> (r: Result<TextureHandle, FlowError>)
    ensures
        match r {
            Ok(t) => {
                &&& t.wf()
                &&& decoded_rgba(encoded@) matches Some(d)
                    && t.width as u32 == d.0 && t.height as u32 == d.1 && t.pixels@ == d.2
            },
            Err(e) => match e {
                FlowError::DecodeError(_) => decoded_rgba(encoded@) is None,
                FlowError::DimensionError(w, h) => decoded_rgba(encoded@) matches Some(d)
                    && d.0 == w && d.1 == h && (w > MAX_TEXTURE_DIM || h > MAX_TEXTURE_DIM),
                _ => false,
            },
        },
{
    match decode_rgba(encoded) {
        Ok((w, h, pixels)) => {
            if w > MAX_TEXTURE_DIM || h > MAX_TEXTURE_DIM {
                Err(FlowError::DimensionError(w, h))
            } else {
                Ok(TextureHandle { width: w as u16, height: h as u16, pixels })
            }
        },
        Err(msg) => Err(FlowError::DecodeError(msg)),
    }
}

} // verus!
