//! Errors of texture import.
use vstd::prelude::*;

verus! {

/// Why a client buffer could not be turned into a texture.
#[derive(Clone, Copy, Debug, PartialEq, Eq, Structural)]
pub enum RatatuiError {
    /// The width or height does not fit a 16-bit terminal coordinate.
    TextureTooBig(i32, i32),
    /// A shared-memory format code that names none of the supported layouts.
    UnsupportedWlPixelFormat(u32),
    /// A DRM FourCC code that names none of the supported layouts.
    UnsupportedPixelFormat(u32),
    /// The buffer's memory layout modifier cannot be read linearly.
    DmaBufImportNotSupported,
    /// The described pixels do not lie inside the mapped memory.
    BufferAccessError,
}

} // verus!
