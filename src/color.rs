//! Terminal colours and the blending of pixels into them.
use vstd::prelude::*;

use crate::format::{alpha_of, blue_of, green_of, red_of, Fourcc, Pixel};

verus! {

/// The colour of one side of a terminal cell.
#[derive(Clone, Copy, Debug, PartialEq, Eq, Structural)]
pub enum Color {
    /// The terminal's own default colour.
    Reset,
    /// A true-colour value.
    Rgb(u8, u8, u8),
}

/// A colour as four 8-bit channels, alpha last.
#[derive(Clone, Copy, Debug, PartialEq, Eq, Structural)]
pub struct Color32 {
    pub r: u8,
    pub g: u8,
    pub b: u8,
    pub a: u8,
}

/// The product of two full 8-bit alphas: the weight of a fully opaque pixel
/// drawn at full strength.
pub const FULL_WEIGHT: u32 = 65025;

/// `dst * (1 - t) + src * t` with `t = weight / 65025`, rounded to nearest.
pub open spec fn blend_channel(dst: u8, src: u8, weight: int) -> u8 {
    ((src * weight + dst * (65025 - weight) + 32512) / 65025) as u8
}

/// The weight of a pixel of alpha `pixel_alpha` drawn at strength `alpha`,
/// both on the scale 0 to 255.
pub open spec fn weight_of(pixel_alpha: u8, alpha: u8) -> int {
    pixel_alpha * alpha
}

/// What a cell side becomes when the canonical pixel `px` is drawn over it
/// at strength `alpha`: a true colour is blended channel by channel; the
/// default colour, which has no value to blend with, is replaced.
pub open spec fn blend_color(existing: Color, px: u32, alpha: u8) -> Color {
    let f = Fourcc::Argb8888;
    let w = weight_of(alpha_of(f, px), alpha);
    match existing {
        Color::Rgb(r, g, b) => Color::Rgb(
            blend_channel(r, red_of(f, px), w),
            blend_channel(g, green_of(f, px), w),
            blend_channel(b, blue_of(f, px), w),
        ),
        Color::Reset => Color::Rgb(red_of(f, px), green_of(f, px), blue_of(f, px)),
    }
}

/// The terminal colour of a four-channel colour; terminal cells carry no alpha.
pub open spec fn terminal_color(color: Color32) -> Color {
    Color::Rgb(color.r, color.g, color.b)
}

/// The terminal colour of a four-channel colour; terminal cells carry no alpha.
pub fn color_to_ratatui(color: Color32) -> (r: Color)
    ensures
        r == terminal_color(color),
{
    Color::Rgb(color.r, color.g, color.b)
}

proof fn lemma_blend_bounds(dst: u8, src: u8, weight: int)
    requires
        0 <= weight <= 65025,
    ensures
        0 <= src * weight <= 255 * 65025,
        0 <= dst * (65025 - weight) <= 255 * 65025,
        src * weight + dst * (65025 - weight) + 32512 < 256 * 65025,
{
    assert(0 <= src * weight <= 255 * 65025) by (nonlinear_arith)
        requires
            0 <= weight <= 65025,
            0 <= src <= 255,
    ;
    assert(0 <= dst * (65025 - weight) <= 255 * 65025) by (nonlinear_arith)
        requires
            0 <= weight <= 65025,
            0 <= dst <= 255,
    ;
    assert(src * weight + dst * (65025 - weight) <= 255 * 65025) by (nonlinear_arith)
        requires
            0 <= weight <= 65025,
            0 <= dst <= 255,
            0 <= src <= 255,
    ;
}

/// Blends one channel; a weight of 65025 gives `src`, a weight of 0 `dst`.
pub fn blend_channel_exec(dst: u8, src: u8, weight: u32) -> (r: u8)
    requires
        weight <= FULL_WEIGHT,
    ensures
        r == blend_channel(dst, src, weight as int),
        weight == FULL_WEIGHT ==> r == src,
        weight == 0 ==> r == dst,
{
    proof {
        lemma_blend_bounds(dst, src, weight as int);
    }
    let num: u32 = src as u32 * weight + dst as u32 * (FULL_WEIGHT - weight) + 32512;
    let q: u32 = num / FULL_WEIGHT;
    assert(q < 256) by (nonlinear_arith)
        requires
            q == num / 65025,
            num < 256 * 65025,
    ;
    proof {
        if weight == FULL_WEIGHT {
            assert(dst * (65025 - weight) == 0) by (nonlinear_arith)
                requires
                    weight == 65025,
            ;
            assert(num == src * 65025 + 32512);
            assert((src * 65025 + 32512) / 65025 == src) by (nonlinear_arith)
                requires
                    0 <= src <= 255,
            ;
        }
        if weight == 0 {
            assert(src * weight == 0) by (nonlinear_arith)
                requires
                    weight == 0,
            ;
            assert(num == dst * 65025 + 32512);
            assert((dst * 65025 + 32512) / 65025 == dst) by (nonlinear_arith)
                requires
                    0 <= dst <= 255,
            ;
        }
    }
    q as u8
}

/// Draws the canonical pixel `px` over a cell side at strength `alpha`.
pub fn blend_onto(existing: Color, px: u32, alpha: u8) -> (r: Color)
    ensures
        r == blend_color(existing, px, alpha),
{
    let p = Pixel::new(Fourcc::Argb8888, px);
    match existing {
        Color::Rgb(r, g, b) => {
            let pa: u8 = p.a();
            assert(pa * alpha <= 65025) by (nonlinear_arith)
                requires
                    pa <= 255,
                    alpha <= 255,
            ;
            let w: u32 = pa as u32 * alpha as u32;
            Color::Rgb(
                blend_channel_exec(r, p.r(), w),
                blend_channel_exec(g, p.g(), w),
                blend_channel_exec(b, p.b(), w),
            )
        },
        Color::Reset => Color::Rgb(p.r(), p.g(), p.b()),
    }
}

/// The terminal colour of a pixel; its alpha is dropped.
pub open spec fn pixel_color(p: Pixel) -> Color {
    Color::Rgb(red_of(p.format, p.raw), green_of(p.format, p.raw), blue_of(p.format, p.raw))
}

impl From<Pixel> for Color {
    fn from(p: Pixel) -> (r: Color)
        ensures
            r == pixel_color(p),
    {
        Color::Rgb(p.r(), p.g(), p.b())
    }
}

impl vstd::std_specs::convert::FromSpecImpl<Pixel> for Color {
    open spec fn obeys_from_spec() -> bool {
        true
    }

    open spec fn from_spec(p: Pixel) -> Color {
        pixel_color(p)
    }
}

} // verus!
