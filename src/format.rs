//! Packed 32-bit pixel layouts and their decoding into channels.
use vstd::prelude::*;

verus! {

/// The packed pixel layouts that can be imported, named by their DRM FourCC.
///
/// Each layout is little-endian: the first letter names the most significant
/// byte of the 32-bit word.
#[derive(Clone, Copy, Debug, PartialEq, Eq, Structural)]
pub enum Fourcc {
    Argb8888,
    Xrgb8888,
    Rgba8888,
    Rgbx8888,
    Abgr8888,
    Xbgr8888,
    Bgra8888,
    Bgrx8888,
}

/// DRM FourCC code of `AR24`.
pub const FOURCC_ARGB8888: u32 = 0x3432_5241;
/// DRM FourCC code of `XR24`.
pub const FOURCC_XRGB8888: u32 = 0x3432_5258;
/// DRM FourCC code of `RA24`.
pub const FOURCC_RGBA8888: u32 = 0x3432_4152;
/// DRM FourCC code of `RX24`.
pub const FOURCC_RGBX8888: u32 = 0x3432_5852;
/// DRM FourCC code of `AB24`.
pub const FOURCC_ABGR8888: u32 = 0x3432_4241;
/// DRM FourCC code of `XB24`.
pub const FOURCC_XBGR8888: u32 = 0x3432_4258;
/// DRM FourCC code of `BA24`.
pub const FOURCC_BGRA8888: u32 = 0x3432_4142;
/// DRM FourCC code of `BX24`.
pub const FOURCC_BGRX8888: u32 = 0x3432_5842;

/// Channel positions of a layout: the shift of red, green and blue, and the
/// shift of alpha where the layout carries one.
pub open spec fn red_shift(f: Fourcc) -> u32 {
    match f {
        Fourcc::Argb8888 | Fourcc::Xrgb8888 => 16,
        Fourcc::Rgba8888 | Fourcc::Rgbx8888 => 24,
        Fourcc::Abgr8888 | Fourcc::Xbgr8888 => 0,
        Fourcc::Bgra8888 | Fourcc::Bgrx8888 => 8,
    }
}

pub open spec fn green_shift(f: Fourcc) -> u32 {
    match f {
        Fourcc::Argb8888 | Fourcc::Xrgb8888 => 8,
        Fourcc::Rgba8888 | Fourcc::Rgbx8888 => 16,
        Fourcc::Abgr8888 | Fourcc::Xbgr8888 => 8,
        Fourcc::Bgra8888 | Fourcc::Bgrx8888 => 16,
    }
}

pub open spec fn blue_shift(f: Fourcc) -> u32 {
    match f {
        Fourcc::Argb8888 | Fourcc::Xrgb8888 => 0,
        Fourcc::Rgba8888 | Fourcc::Rgbx8888 => 8,
        Fourcc::Abgr8888 | Fourcc::Xbgr8888 => 16,
        Fourcc::Bgra8888 | Fourcc::Bgrx8888 => 24,
    }
}

/// The shift of the fourth byte: alpha in the layouts that have it, unused
/// padding in the others.
pub open spec fn alpha_shift(f: Fourcc) -> u32 {
    match f {
        Fourcc::Argb8888 | Fourcc::Xrgb8888 => 24,
        Fourcc::Rgba8888 | Fourcc::Rgbx8888 => 0,
        Fourcc::Abgr8888 | Fourcc::Xbgr8888 => 24,
        Fourcc::Bgra8888 | Fourcc::Bgrx8888 => 0,
    }
}

/// Whether the layout's fourth byte is alpha rather than padding.
pub open spec fn has_alpha(f: Fourcc) -> bool {
    match f {
        Fourcc::Argb8888 | Fourcc::Rgba8888 | Fourcc::Abgr8888 | Fourcc::Bgra8888 => true,
        _ => false,
    }
}

/// The byte of `w` that starts at bit `shift`.
pub open spec fn byte_at(w: u32, shift: u32) -> u8 {
    (w >> shift) as u8
}

pub open spec fn red_of(f: Fourcc, w: u32) -> u8 {
    byte_at(w, red_shift(f))
}

pub open spec fn green_of(f: Fourcc, w: u32) -> u8 {
    byte_at(w, green_shift(f))
}

pub open spec fn blue_of(f: Fourcc, w: u32) -> u8 {
    byte_at(w, blue_shift(f))
}

/// Alpha of a word: decoded where the layout has it, fully opaque otherwise.
pub open spec fn alpha_of(f: Fourcc, w: u32) -> u8 {
    if has_alpha(f) {
        byte_at(w, alpha_shift(f))
    } else {
        255
    }
}

/// The word of layout `f` that holds the four channels; in a layout without
/// alpha the padding byte holds `a`.
pub open spec fn encode_spec(f: Fourcc, r: u8, g: u8, b: u8, a: u8) -> u32 {
    ((r as u32) << red_shift(f)) | ((g as u32) << green_shift(f)) | ((b as u32) << blue_shift(f))
        | ((a as u32) << alpha_shift(f))
}

/// The DRM FourCC code of each layout.
pub open spec fn code_of(f: Fourcc) -> u32 {
    match f {
        Fourcc::Argb8888 => FOURCC_ARGB8888,
        Fourcc::Xrgb8888 => FOURCC_XRGB8888,
        Fourcc::Rgba8888 => FOURCC_RGBA8888,
        Fourcc::Rgbx8888 => FOURCC_RGBX8888,
        Fourcc::Abgr8888 => FOURCC_ABGR8888,
        Fourcc::Xbgr8888 => FOURCC_XBGR8888,
        Fourcc::Bgra8888 => FOURCC_BGRA8888,
        Fourcc::Bgrx8888 => FOURCC_BGRX8888,
    }
}

/// The layout whose DRM FourCC code is `code`, if any.
pub open spec fn fourcc_of_code(code: u32) -> Option<Fourcc> {
    if code == FOURCC_ARGB8888 {
        Some(Fourcc::Argb8888)
    } else if code == FOURCC_XRGB8888 {
        Some(Fourcc::Xrgb8888)
    } else if code == FOURCC_RGBA8888 {
        Some(Fourcc::Rgba8888)
    } else if code == FOURCC_RGBX8888 {
        Some(Fourcc::Rgbx8888)
    } else if code == FOURCC_ABGR8888 {
        Some(Fourcc::Abgr8888)
    } else if code == FOURCC_XBGR8888 {
        Some(Fourcc::Xbgr8888)
    } else if code == FOURCC_BGRA8888 {
        Some(Fourcc::Bgra8888)
    } else if code == FOURCC_BGRX8888 {
        Some(Fourcc::Bgrx8888)
    } else {
        None
    }
}

fn shift_byte(w: u32, shift: u32) -> (r: u8)
    requires
        shift < 32,
    ensures
        r == byte_at(w, shift),
{
    (w >> shift) as u8
}

impl Fourcc {
    /// The layout with DRM FourCC code `code`, if it is one of the eight.
    pub fn from_code(code: u32) -> (r: Option<Fourcc>)
        ensures
            r == fourcc_of_code(code),
    {
        if code == FOURCC_ARGB8888 {
            Some(Fourcc::Argb8888)
        } else if code == FOURCC_XRGB8888 {
            Some(Fourcc::Xrgb8888)
        } else if code == FOURCC_RGBA8888 {
            Some(Fourcc::Rgba8888)
        } else if code == FOURCC_RGBX8888 {
            Some(Fourcc::Rgbx8888)
        } else if code == FOURCC_ABGR8888 {
            Some(Fourcc::Abgr8888)
        } else if code == FOURCC_XBGR8888 {
            Some(Fourcc::Xbgr8888)
        } else if code == FOURCC_BGRA8888 {
            Some(Fourcc::Bgra8888)
        } else if code == FOURCC_BGRX8888 {
            Some(Fourcc::Bgrx8888)
        } else {
            None
        }
    }

    /// The DRM FourCC code of this layout.
    pub fn code(&self) -> (r: u32)
        ensures
            r == code_of(*self),
    {
        match self {
            Fourcc::Argb8888 => FOURCC_ARGB8888,
            Fourcc::Xrgb8888 => FOURCC_XRGB8888,
            Fourcc::Rgba8888 => FOURCC_RGBA8888,
            Fourcc::Rgbx8888 => FOURCC_RGBX8888,
            Fourcc::Abgr8888 => FOURCC_ABGR8888,
            Fourcc::Xbgr8888 => FOURCC_XBGR8888,
            Fourcc::Bgra8888 => FOURCC_BGRA8888,
            Fourcc::Bgrx8888 => FOURCC_BGRX8888,
        }
    }

    /// Whether the layout carries alpha.
    pub fn has_alpha(&self) -> (r: bool)
        ensures
            r == has_alpha(*self),
    {
        match self {
            Fourcc::Argb8888 | Fourcc::Rgba8888 | Fourcc::Abgr8888 | Fourcc::Bgra8888 => true,
            _ => false,
        }
    }

    fn red_shift(&self) -> (r: u32)
        ensures
            r == red_shift(*self),
            r < 32,
    {
        match self {
            Fourcc::Argb8888 | Fourcc::Xrgb8888 => 16,
            Fourcc::Rgba8888 | Fourcc::Rgbx8888 => 24,
            Fourcc::Abgr8888 | Fourcc::Xbgr8888 => 0,
            Fourcc::Bgra8888 | Fourcc::Bgrx8888 => 8,
        }
    }

    fn green_shift(&self) -> (r: u32)
        ensures
            r == green_shift(*self),
            r < 32,
    {
        match self {
            Fourcc::Argb8888 | Fourcc::Xrgb8888 => 8,
            Fourcc::Rgba8888 | Fourcc::Rgbx8888 => 16,
            Fourcc::Abgr8888 | Fourcc::Xbgr8888 => 8,
            Fourcc::Bgra8888 | Fourcc::Bgrx8888 => 16,
        }
    }

    fn blue_shift(&self) -> (r: u32)
        ensures
            r == blue_shift(*self),
            r < 32,
    {
        match self {
            Fourcc::Argb8888 | Fourcc::Xrgb8888 => 0,
            Fourcc::Rgba8888 | Fourcc::Rgbx8888 => 8,
            Fourcc::Abgr8888 | Fourcc::Xbgr8888 => 16,
            Fourcc::Bgra8888 | Fourcc::Bgrx8888 => 24,
        }
    }

    fn alpha_shift(&self) -> (r: u32)
        ensures
            r == alpha_shift(*self),
            r < 32,
    {
        match self {
            Fourcc::Argb8888 | Fourcc::Xrgb8888 => 24,
            Fourcc::Rgba8888 | Fourcc::Rgbx8888 => 0,
            Fourcc::Abgr8888 | Fourcc::Xbgr8888 => 24,
            Fourcc::Bgra8888 | Fourcc::Bgrx8888 => 0,
        }
    }
}

/// One packed pixel word together with the layout it is in.
#[derive(Clone, Copy, Debug)]
pub struct Pixel {
    pub format: Fourcc,
    pub raw: u32,
}

impl Pixel {
    pub fn new(format: Fourcc, raw: u32) -> (r: Pixel)
        ensures
            r.format == format,
            r.raw == raw,
    {
        Pixel { format, raw }
    }

    /// The red channel.
    pub fn r(&self) -> (r: u8)
        ensures
            r == red_of(self.format, self.raw),
    {
        shift_byte(self.raw, self.format.red_shift())
    }

    /// The green channel.
    pub fn g(&self) -> (r: u8)
        ensures
            r == green_of(self.format, self.raw),
    {
        shift_byte(self.raw, self.format.green_shift())
    }

    /// The blue channel.
    pub fn b(&self) -> (r: u8)
        ensures
            r == blue_of(self.format, self.raw),
    {
        shift_byte(self.raw, self.format.blue_shift())
    }

    /// The alpha channel; 255 in a layout without alpha, whatever the padding
    /// byte holds.
    pub fn a(&self) -> (r: u8)
        ensures
            r == alpha_of(self.format, self.raw),
            !has_alpha(self.format) ==> r == 255,
    {
        if self.format.has_alpha() {
            shift_byte(self.raw, self.format.alpha_shift())
        } else {
            255
        }
    }

    /// The same colour as a canonical ARGB8888 word.
    pub fn into_argb8888(&self) -> (r: u32)
        ensures
            r == encode_spec(
                Fourcc::Argb8888,
                red_of(self.format, self.raw),
                green_of(self.format, self.raw),
                blue_of(self.format, self.raw),
                alpha_of(self.format, self.raw),
            ),
    {
        encode(Fourcc::Argb8888, self.r(), self.g(), self.b(), self.a())
    }
}

/// Packs four channels into a word of layout `f`.
pub fn encode(f: Fourcc, r: u8, g: u8, b: u8, a: u8) -> (w: u32)
    ensures
        w == encode_spec(f, r, g, b, a),
{
    ((r as u32) << f.red_shift()) | ((g as u32) << f.green_shift()) | ((b as u32)
        << f.blue_shift()) | ((a as u32) << f.alpha_shift())
}

} // verus!
