//! Properties that relate several operations of the library.
use vstd::prelude::*;

use crate::color::{blend_channel, blend_color, Color};
use crate::format::{alpha_of, blue_of, encode_spec, green_of, has_alpha, red_of, Fourcc};
use crate::frame::{blit_all, blit_cell, covers_both, disjoint, paint_all, paint_cell, sample};
use crate::framebuffer::{Cell, Rect, HALF_BLOCK};
use crate::texture::RatatuiTexture;

verus! {

proof fn lemma_pack_unpack(r: u8, g: u8, b: u8, a: u8)
    ensures
        ({
            let w = ((r as u32) << 16u32) | ((g as u32) << 8u32) | ((b as u32) << 0u32) | ((a as u32)
                << 24u32);
            (w >> 16u32) as u8 == r && (w >> 8u32) as u8 == g && (w >> 0u32) as u8 == b && (w
                >> 24u32) as u8 == a
        }),
        ({
            let w = ((r as u32) << 24u32) | ((g as u32) << 16u32) | ((b as u32) << 8u32) | ((a as u32)
                << 0u32);
            (w >> 24u32) as u8 == r && (w >> 16u32) as u8 == g && (w >> 8u32) as u8 == b && (w
                >> 0u32) as u8 == a
        }),
        ({
            let w = ((r as u32) << 0u32) | ((g as u32) << 8u32) | ((b as u32) << 16u32) | ((a as u32)
                << 24u32);
            (w >> 0u32) as u8 == r && (w >> 8u32) as u8 == g && (w >> 16u32) as u8 == b && (w
                >> 24u32) as u8 == a
        }),
        ({
            let w = ((r as u32) << 8u32) | ((g as u32) << 16u32) | ((b as u32) << 24u32) | ((a as u32)
                << 0u32);
            (w >> 8u32) as u8 == r && (w >> 16u32) as u8 == g && (w >> 24u32) as u8 == b && (w
                >> 0u32) as u8 == a
        }),
{
    assert(({
        let w = ((r as u32) << 16u32) | ((g as u32) << 8u32) | ((b as u32) << 0u32) | ((a as u32)
            << 24u32);
        (w >> 16u32) as u8 == r && (w >> 8u32) as u8 == g && (w >> 0u32) as u8 == b && (w >> 24u32) as u8
            == a
    })) by (bit_vector);
    assert(({
        let w = ((r as u32) << 24u32) | ((g as u32) << 16u32) | ((b as u32) << 8u32) | ((a as u32)
            << 0u32);
        (w >> 24u32) as u8 == r && (w >> 16u32) as u8 == g && (w >> 8u32) as u8 == b && (w >> 0u32) as u8
            == a
    })) by (bit_vector);
    assert(({
        let w = ((r as u32) << 0u32) | ((g as u32) << 8u32) | ((b as u32) << 16u32) | ((a as u32)
            << 24u32);
        (w >> 0u32) as u8 == r && (w >> 8u32) as u8 == g && (w >> 16u32) as u8 == b && (w >> 24u32) as u8
            == a
    })) by (bit_vector);
    assert(({
        let w = ((r as u32) << 8u32) | ((g as u32) << 16u32) | ((b as u32) << 24u32) | ((a as u32)
            << 0u32);
        (w >> 8u32) as u8 == r && (w >> 16u32) as u8 == g && (w >> 24u32) as u8 == b && (w >> 0u32) as u8
            == a
    })) by (bit_vector);
}

/// Decoding a word that was packed from four channels gives the channels
/// back, with alpha forced to 255 in the layouts that carry none.
pub proof fn lemma_decode_encode(f: Fourcc, r: u8, g: u8, b: u8, a: u8)
    ensures
        red_of(f, encode_spec(f, r, g, b, a)) == r,
        green_of(f, encode_spec(f, r, g, b, a)) == g,
        blue_of(f, encode_spec(f, r, g, b, a)) == b,
        alpha_of(f, encode_spec(f, r, g, b, a)) == if has_alpha(f) {
            a
        } else {
            255u8
        },
{
    lemma_pack_unpack(r, g, b, a);
}

/// In a layout without alpha every word decodes as fully opaque, whatever
/// its padding byte holds.
pub proof fn lemma_opaque_alpha(f: Fourcc, w: u32)
    requires
        !has_alpha(f),
    ensures
        alpha_of(f, w) == 255,
{
}

/// Filling a destination through damage rectangles none of which meets it
/// leaves every cell as it was.
pub proof fn lemma_disjoint_damage_keeps_cells(
    c: Cell,
    col: int,
    row: int,
    dst: Rect,
    damage: Seq<Rect>,
    color: Color,
)
    requires
        forall|i: int| 0 <= i < damage.len() ==> disjoint(dst, #[trigger] damage[i]),
    ensures
        paint_all(c, col, row, dst, damage, color) == c,
    decreases damage.len(),
{
    if damage.len() > 0 {
        let rest = damage.drop_last();
        assert forall|i: int| 0 <= i < rest.len() implies disjoint(dst, #[trigger] rest[i]) by {
            assert(rest[i] == damage[i]);
        }
        lemma_disjoint_damage_keeps_cells(c, col, row, dst, rest, color);
        assert(disjoint(dst, damage[damage.len() - 1]));
    }
}

/// A channel blended at full weight is the source channel.
pub proof fn lemma_full_weight_blend(dst: u8, src: u8)
    ensures
        blend_channel(dst, src, 65025) == src,
{
    assert(dst * (65025 - 65025) == 0) by (nonlinear_arith);
    assert((src * 65025 + 32512) / 65025 == src) by (nonlinear_arith)
        requires
            0 <= src <= 255,
    ;
}

/// An opaque pixel drawn at full strength replaces the colour beneath it.
pub proof fn lemma_opaque_blend(existing: Color, px: u32)
    requires
        alpha_of(Fourcc::Argb8888, px) == 255,
    ensures
        blend_color(existing, px, 255) == Color::Rgb(
            red_of(Fourcc::Argb8888, px),
            green_of(Fourcc::Argb8888, px),
            blue_of(Fourcc::Argb8888, px),
        ),
{
    if let Color::Rgb(r, g, b) = existing {
        lemma_full_weight_blend(r, red_of(Fourcc::Argb8888, px));
        lemma_full_weight_blend(g, green_of(Fourcc::Argb8888, px));
        lemma_full_weight_blend(b, blue_of(Fourcc::Argb8888, px));
    }
}

/// Drawing an opaque 2 by 2 texture of one colour at full strength onto
/// pixels (0, 0) to (2, 2), through a damage rectangle that holds them,
/// changes exactly the first two cells of the first cell row, and gives each
/// of them the texture's colour as both foreground and background.
pub proof fn lemma_uniform_block_fills_two_cells(
    c: Cell,
    col: int,
    row: int,
    tex: RatatuiTexture,
    px: u32,
    damage: Rect,
)
    requires
        tex.wf(),
        tex.spec_width() == 2,
        tex.spec_height() == 2,
        forall|x: int, y: int| 0 <= x < 2 && 0 <= y < 2 ==> #[trigger] tex.texel(x, y) == px,
        alpha_of(Fourcc::Argb8888, px) == 255,
        damage.x <= 0,
        damage.y <= 0,
        damage.x + damage.w >= 2,
        damage.y + damage.h >= 2,
        0 <= col,
        0 <= row,
    ensures
        ({
            let block = Rect { x: 0, y: 0, w: 2, h: 2 };
            let r = blit_all(c, col, row, tex, block, block, seq![damage], 255);
            let color = Color::Rgb(
                red_of(Fourcc::Argb8888, px),
                green_of(Fourcc::Argb8888, px),
                blue_of(Fourcc::Argb8888, px),
            );
            &&& row == 0 && col < 2 ==> r == Cell { symbol: HALF_BLOCK, fg: color, bg: color }
            &&& !(row == 0 && col < 2) ==> r == c
        }),
{
    let block = Rect { x: 0, y: 0, w: 2, h: 2 };
    let ds = seq![damage];
    assert(ds.drop_last() =~= Seq::<Rect>::empty());
    assert(ds.last() == damage);
    assert(blit_all(c, col, row, tex, block, block, Seq::<Rect>::empty(), 255) == c);
    assert(blit_all(c, col, row, tex, block, block, ds, 255) == blit_cell(c, col, row, tex, block, block, damage, 255));
    if row == 0 && col < 2 {
        assert(sample(tex, block, block, col, 0) == tex.texel(col, 0));
        assert(sample(tex, block, block, col, 1) == tex.texel(col, 1));
        lemma_opaque_blend(c.bg, px);
        lemma_opaque_blend(c.fg, px);
    }
}

/// Drawing onto a destination that starts at an odd pixel row changes only
/// the background of the cell row it starts in: the foreground keeps what it
/// held, and the background takes the first drawn row.
pub proof fn lemma_odd_start_keeps_foreground(
    c: Cell,
    col: int,
    tex: RatatuiTexture,
    src: Rect,
    dst: Rect,
    damage: Rect,
    alpha: u8,
)
    requires
        tex.spec_width() > 0,
        tex.spec_height() > 0,
        dst.y % 2 == 1,
        covers_both(dst, damage, col, dst.y as int),
    ensures
        ({
            let r = blit_all(c, col, dst.y / 2, tex, src, dst, seq![damage], alpha);
            &&& r.fg == c.fg
            &&& r.bg == blend_color(c.bg, sample(tex, src, dst, col, dst.y as int), alpha)
            &&& r.symbol == HALF_BLOCK
        }),
{
    let ds = seq![damage];
    assert(ds.drop_last() =~= Seq::<Rect>::empty());
    assert(ds.last() == damage);
    assert(blit_all(c, col, dst.y / 2, tex, src, dst, Seq::<Rect>::empty(), alpha) == c);
    assert(blit_all(c, col, dst.y / 2, tex, src, dst, ds, alpha) == blit_cell(c, col, dst.y / 2, tex, src, dst, damage, alpha));
    assert(2 * (dst.y / 2) + 1 == dst.y);
}

} // verus!
