//! The error taxonomy of the engine.
//!
//! Every error here is fatal for the process: startup errors abort before the
//! render loop begins, and a draw failure terminates the loop immediately.

use vstd::prelude::*;

verus! {

/// A fatal engine error.
///
/// `DecodeError` and `DimensionError` come from texture ingestion,
/// `NoCompatibleVariantError` from shader tier selection and
/// `BindingMismatchError` from drawable assembly.  `CompileError`,
/// `LinkError`, `ResourceError` and `DrawError` carry the diagnostic text of a
/// graphics-backend failure; the surrounding application raises them at the
/// device call that failed.
#[derive(Debug)]
pub enum FlowError {
    /// The encoded bytes are not a valid or supported image.
    DecodeError(String),
    /// The decoded image exceeds the 16-bit addressable texture size;
    /// carries the offending width and height.
    DimensionError(u32, u32),
    /// No shader source tier is present in both variant sets and supported by
    /// the backend.
    NoCompatibleVariantError,
    /// The selected shader source failed to compile on the backend.
    CompileError(String),
    /// The compiled shader stages failed to link on the backend.
    LinkError(String),
    /// The declared slots of the program do not match the five parameter
    /// binding slots.
    BindingMismatchError,
    /// A GPU resource allocation failed.
    ResourceError(String),
    /// A draw-call submission failed during the loop.
    DrawError(String),
}

} // verus!
