//! The draw protocol: clearing, filling and blending textures into cells.
use vstd::prelude::*;

use crate::color::{blend_color, blend_onto, color_to_ratatui, terminal_color, Color, Color32};
use crate::framebuffer::{clip_axis, covers, covers_exec, max3, min3, Cell, RatatuiFramebuffer, Rect, HALF_BLOCK};
use crate::texture::{RatatuiTexture, RatatuiTextureHandle};

verus! {

/// Whether the pixel lies in both rectangles.
pub open spec fn covers_both(a: Rect, b: Rect, x: int, y: int) -> bool {
    covers(a, x, y) && covers(b, x, y)
}

/// A cell after painting `color` on those of its two pixels that lie in both
/// `a` and `b`: the upper pixel is the background, the lower the foreground.
pub open spec fn paint_cell(c: Cell, col: int, row: int, a: Rect, b: Rect, color: Color) -> Cell {
    let top = covers_both(a, b, col, 2 * row);
    let bottom = covers_both(a, b, col, 2 * row + 1);
    if !top && !bottom {
        c
    } else {
        Cell {
            symbol: HALF_BLOCK,
            bg: if top {
                color
            } else {
                c.bg
            },
            fg: if bottom {
                color
            } else {
                c.fg
            },
        }
    }
}

/// Whether no pixel lies in both rectangles.
pub open spec fn disjoint(a: Rect, b: Rect) -> bool {
    a.w <= 0 || a.h <= 0 || b.w <= 0 || b.h <= 0 || a.x + a.w <= b.x || b.x + b.w <= a.x || a.y
        + a.h <= b.y || b.y + b.h <= a.y
}

/// A cell after painting `color` inside `dst` for each rectangle of
/// `damage` in turn.
pub open spec fn paint_all(c: Cell, col: int, row: int, dst: Rect, damage: Seq<Rect>, color: Color) -> Cell
    decreases damage.len(),
{
    if damage.len() == 0 {
        c
    } else {
        paint_cell(paint_all(c, col, row, dst, damage.drop_last(), color), col, row, dst, damage.last(), color)
    }
}

/// A cell after painting `color` inside each rectangle of `rects` in turn.
pub open spec fn clear_all(c: Cell, col: int, row: int, rects: Seq<Rect>, color: Color) -> Cell
    decreases rects.len(),
{
    if rects.len() == 0 {
        c
    } else {
        let r = rects.last();
        paint_cell(clear_all(c, col, row, rects.drop_last(), color), col, row, r, r, color)
    }
}

/// The offset into a source span of length `src_len` that the offset `o`
/// into a destination span of length `dst_len` samples: the nearest integer
/// to `o * src_len / dst_len`, halves rounded up.
pub open spec fn scale(o: int, src_len: int, dst_len: int) -> int {
    if src_len <= 0 || dst_len <= 0 {
        0
    } else {
        (2 * o * src_len + dst_len) / (2 * dst_len)
    }
}

/// The texture pixel that the framebuffer pixel at column `x`, pixel row `y`
/// shows when `src` of the texture is drawn onto `dst`.
pub open spec fn sample(tex: RatatuiTexture, src: Rect, dst: Rect, x: int, y: int) -> u32 {
    tex.texel_clamped(src.x + scale(x - dst.x, src.w as int, dst.w as int), src.y + scale(y - dst.y, src.h as int, dst.h as int))
}

/// A cell after drawing `src` of `tex` onto `dst` at strength `alpha`, on
/// the pixels that also lie in `damage`.
///
/// When both pixels are drawn, the upper one blends into the background and
/// the lower one into the foreground. A lone lower pixel, where the drawn
/// rows start in the middle of the cell, blends into the background alone; a
/// lone upper pixel, where they end in the middle of it, blends into the
/// foreground alone. An empty texture draws nothing.
pub open spec fn blit_cell(
    c: Cell,
    col: int,
    row: int,
    tex: RatatuiTexture,
    src: Rect,
    dst: Rect,
    damage: Rect,
    alpha: u8,
) -> Cell {
    let top = covers_both(dst, damage, col, 2 * row);
    let bottom = covers_both(dst, damage, col, 2 * row + 1);
    if tex.spec_width() == 0 || tex.spec_height() == 0 || (!top && !bottom) {
        c
    } else if top && bottom {
        Cell {
            symbol: HALF_BLOCK,
            bg: blend_color(c.bg, sample(tex, src, dst, col, 2 * row), alpha),
            fg: blend_color(c.fg, sample(tex, src, dst, col, 2 * row + 1), alpha),
        }
    } else if bottom {
        Cell {
            symbol: HALF_BLOCK,
            bg: blend_color(c.bg, sample(tex, src, dst, col, 2 * row + 1), alpha),
            fg: c.fg,
        }
    } else {
        Cell {
            symbol: HALF_BLOCK,
            bg: c.bg,
            fg: blend_color(c.fg, sample(tex, src, dst, col, 2 * row), alpha),
        }
    }
}

/// A cell after drawing the texture for each rectangle of `damage` in turn.
pub open spec fn blit_all(
    c: Cell,
    col: int,
    row: int,
    tex: RatatuiTexture,
    src: Rect,
    dst: Rect,
    damage: Seq<Rect>,
    alpha: u8,
) -> Cell
    decreases damage.len(),
{
    if damage.len() == 0 {
        c
    } else {
        blit_cell(blit_all(c, col, row, tex, src, dst, damage.drop_last(), alpha), col, row, tex, src, dst, damage.last(), alpha)
    }
}

/// Whether two framebuffers have the same size.
pub open spec fn same_size(a: RatatuiFramebuffer, b: RatatuiFramebuffer) -> bool {
    a.cols() == b.cols() && a.rows() == b.rows()
}

fn scale_exec(o: i64, src_len: i32, dst_len: i32) -> (r: i64)
    requires
        0 <= o < dst_len,
    ensures
        r == scale(o as int, src_len as int, dst_len as int),
        0 <= r,
        src_len > 0 ==> r <= src_len,
{
    if src_len <= 0 || dst_len <= 0 {
        0
    } else {
        assert(0 <= 2 * o * src_len + dst_len < 4 * 0x8000_0000 * 0x8000_0000) by (nonlinear_arith)
            requires
                0 <= o < 0x8000_0000,
                0 < src_len < 0x8000_0000,
                0 < dst_len < 0x8000_0000,
        ;
        assert(0 <= (2 * o * src_len + dst_len) / (2 * dst_len as int) <= src_len) by (nonlinear_arith)
            requires
                0 <= o < dst_len,
                0 < src_len,
        ;
        let num: i128 = 2 * o as i128 * src_len as i128 + dst_len as i128;
        (num / (2 * dst_len as i128)) as i64
    }
}

/// The texture pixel shown at framebuffer pixel (`x`, `y`); the pixel lies in `dst`.
fn sample_exec(tex: &RatatuiTexture, src: &Rect, dst: &Rect, x: i64, y: i64) -> (r: u32)
    requires
        tex.wf(),
        tex.spec_width() > 0,
        tex.spec_height() > 0,
        covers(*dst, x as int, y as int),
    ensures
        r == sample(*tex, *src, *dst, x as int, y as int),
{
    let sx: i64 = src.x as i64 + scale_exec(x - dst.x as i64, src.w, dst.w);
    let sy: i64 = src.y as i64 + scale_exec(y - dst.y as i64, src.h, dst.h);
    tex.get_pixel(sx, sy)
}

/// A frame in progress: it owns the framebuffer that its draw calls change
/// until `finish` hands the cells to the terminal.
#[derive(Debug)]
pub struct RatatuiFrame {
    pub framebuffer: RatatuiFramebuffer,
}

impl RatatuiFrame {
    /// Paints `color` on the pixels that lie in both `a` and `b`.
    fn paint(&mut self, a: &Rect, b: &Rect, color: Color)
        requires
            old(self).framebuffer.wf(),
        ensures
            final(self).framebuffer.wf(),
            same_size(final(self).framebuffer, old(self).framebuffer),
            forall|c: int, w: int|
                final(self).framebuffer.in_grid(c, w) ==> #[trigger] final(self).framebuffer.cell_at(c, w)
                    == paint_cell(old(self).framebuffer.cell_at(c, w), c, w, *a, *b, color),
    {
        let cols: i64 = self.framebuffer.width() as i64;
        let rows: i64 = self.framebuffer.height() as i64;
        let (x0, x1) = clip_axis(a.x, a.w, b.x, b.w, cols);
        let (y0, y1) = clip_axis(a.y, a.h, b.y, b.h, 2 * rows);
        if x0 >= x1 || y0 >= y1 {
            assert forall|c: int, w: int| self.framebuffer.in_grid(c, w) implies #[trigger] self.framebuffer.cell_at(c, w)
                == paint_cell(old(self).framebuffer.cell_at(c, w), c, w, *a, *b, color) by {
                assert(!(x0 <= c < x1 && y0 <= 2 * w < y1));
                assert(!(x0 <= c < x1 && y0 <= 2 * w + 1 < y1));
            }
            return;
        }
        let r0: i64 = y0 / 2;
        let r1: i64 = (y1 + 1) / 2;
        let ghost orig = self.framebuffer;
        let mut row: i64 = r0;
        while row < r1
            invariant
                self.framebuffer.wf(),
                same_size(self.framebuffer, orig),
                orig == old(self).framebuffer,
                cols == orig.cols(),
                rows == orig.rows(),
                0 <= x0 < x1 <= cols,
                0 <= y0 < y1 <= 2 * rows,
                r0 == y0 / 2,
                r1 == (y1 + 1) / 2,
                r0 <= row <= r1,
                x0 == max3(0, a.x as int, b.x as int),
                x1 == min3(cols as int, a.x + a.w, b.x + b.w),
                y0 == max3(0, a.y as int, b.y as int),
                y1 == min3(2 * rows, a.y + a.h, b.y + b.h),
                forall|c: int, w: int|
                    self.framebuffer.in_grid(c, w) ==> #[trigger] self.framebuffer.cell_at(c, w) == if r0 <= w < row
                        && x0 <= c < x1 {
                        paint_cell(orig.cell_at(c, w), c, w, *a, *b, color)
                    } else {
                        orig.cell_at(c, w)
                    },
            decreases r1 - row,
        {
            let mut col: i64 = x0;
            while col < x1
                invariant
                    self.framebuffer.wf(),
                    same_size(self.framebuffer, orig),
                    cols == orig.cols(),
                    rows == orig.rows(),
                    0 <= x0 < x1 <= cols,
                    0 <= y0 < y1 <= 2 * rows,
                    r0 == y0 / 2,
                    r1 == (y1 + 1) / 2,
                    r0 <= row < r1,
                    x0 <= col <= x1,
                    forall|c: int, w: int|
                        self.framebuffer.in_grid(c, w) ==> #[trigger] self.framebuffer.cell_at(c, w) == if (r0 <= w < row
                            && x0 <= c < x1) || (w == row && x0 <= c < col) {
                            paint_cell(orig.cell_at(c, w), c, w, *a, *b, color)
                        } else {
                            orig.cell_at(c, w)
                        },
                decreases x1 - col,
            {
                let ghost before = self.framebuffer;
                let old_cell = self.framebuffer.cell(col as u16, row as u16);
                assert(old_cell == orig.cell_at(col as int, row as int));
                let top = covers_exec(a, col, 2 * row) && covers_exec(b, col, 2 * row);
                let bottom = covers_exec(a, col, 2 * row + 1) && covers_exec(b, col, 2 * row + 1);
                if top || bottom {
                    let cell = Cell {
                        symbol: HALF_BLOCK,
                        bg: if top { color } else { old_cell.bg },
                        fg: if bottom { color } else { old_cell.fg },
                    };
                    self.framebuffer.set_cell(col as u16, row as u16, cell);
                }
                proof {
                    assert forall|c: int, w: int| self.framebuffer.in_grid(c, w) implies #[trigger] self.framebuffer.cell_at(c, w)
                        == if (r0 <= w < row && x0 <= c < x1) || (w == row && x0 <= c < col + 1) {
                        paint_cell(orig.cell_at(c, w), c, w, *a, *b, color)
                    } else {
                        orig.cell_at(c, w)
                    } by {
                        assert(before.cell_at(c, w) == if (r0 <= w < row && x0 <= c < x1) || (w == row && x0 <= c < col) {
                            paint_cell(orig.cell_at(c, w), c, w, *a, *b, color)
                        } else {
                            orig.cell_at(c, w)
                        });
                    }
                }
                col = col + 1;
            }
            row = row + 1;
        }
    }

    /// Paints `color` on the pixels of `rect` that lie in the framebuffer.
    pub fn fill_rect(&mut self, rect: &Rect, color: Color)
        requires
            old(self).framebuffer.wf(),
        ensures
            final(self).framebuffer.wf(),
            same_size(final(self).framebuffer, old(self).framebuffer),
            forall|c: int, w: int|
                final(self).framebuffer.in_grid(c, w) ==> #[trigger] final(self).framebuffer.cell_at(c, w)
                    == paint_cell(old(self).framebuffer.cell_at(c, w), c, w, *rect, *rect, color),
    {
        self.paint(rect, rect, color);
    }

    /// Draws `src` of `tex` onto the pixels of `dst` that lie in `damage`.
    fn blit(&mut self, tex: &RatatuiTexture, src: &Rect, dst: &Rect, damage: &Rect, alpha: u8)
        requires
            old(self).framebuffer.wf(),
            tex.wf(),
        ensures
            final(self).framebuffer.wf(),
            same_size(final(self).framebuffer, old(self).framebuffer),
            forall|c: int, w: int|
                final(self).framebuffer.in_grid(c, w) ==> #[trigger] final(self).framebuffer.cell_at(c, w)
                    == blit_cell(old(self).framebuffer.cell_at(c, w), c, w, *tex, *src, *dst, *damage, alpha),
    {
        let cols: i64 = self.framebuffer.width() as i64;
        let rows: i64 = self.framebuffer.height() as i64;
        let (x0, x1) = clip_axis(dst.x, dst.w, damage.x, damage.w, cols);
        let (y0, y1) = clip_axis(dst.y, dst.h, damage.y, damage.h, 2 * rows);
        if tex.is_empty() {
            return;
        }
        if x0 >= x1 || y0 >= y1 {
            assert forall|c: int, w: int| self.framebuffer.in_grid(c, w) implies #[trigger] self.framebuffer.cell_at(c, w)
                == blit_cell(old(self).framebuffer.cell_at(c, w), c, w, *tex, *src, *dst, *damage, alpha) by {
                assert(!(x0 <= c < x1 && y0 <= 2 * w < y1));
                assert(!(x0 <= c < x1 && y0 <= 2 * w + 1 < y1));
            }
            return;
        }
        let r0: i64 = y0 / 2;
        let r1: i64 = (y1 + 1) / 2;
        let ghost orig = self.framebuffer;
        let mut row: i64 = r0;
        while row < r1
            invariant
                self.framebuffer.wf(),
                tex.wf(),
                tex.spec_width() > 0,
                tex.spec_height() > 0,
                same_size(self.framebuffer, orig),
                orig == old(self).framebuffer,
                cols == orig.cols(),
                rows == orig.rows(),
                0 <= x0 < x1 <= cols,
                0 <= y0 < y1 <= 2 * rows,
                x0 == max3(0, dst.x as int, damage.x as int),
                x1 == min3(cols as int, dst.x + dst.w, damage.x + damage.w),
                y0 == max3(0, dst.y as int, damage.y as int),
                y1 == min3(2 * rows, dst.y + dst.h, damage.y + damage.h),
                r0 == y0 / 2,
                r1 == (y1 + 1) / 2,
                r0 <= row <= r1,
                forall|c: int, w: int|
                    self.framebuffer.in_grid(c, w) ==> #[trigger] self.framebuffer.cell_at(c, w) == if r0 <= w < row
                        && x0 <= c < x1 {
                        blit_cell(orig.cell_at(c, w), c, w, *tex, *src, *dst, *damage, alpha)
                    } else {
                        orig.cell_at(c, w)
                    },
            decreases r1 - row,
        {
            let mut col: i64 = x0;
            while col < x1
                invariant
                    self.framebuffer.wf(),
                    tex.wf(),
                    tex.spec_width() > 0,
                    tex.spec_height() > 0,
                    same_size(self.framebuffer, orig),
                    cols == orig.cols(),
                    rows == orig.rows(),
                    0 <= x0 < x1 <= cols,
                    0 <= y0 < y1 <= 2 * rows,
                    r0 == y0 / 2,
                    r1 == (y1 + 1) / 2,
                    r0 <= row < r1,
                    x0 <= col <= x1,
                    forall|c: int, w: int|
                        self.framebuffer.in_grid(c, w) ==> #[trigger] self.framebuffer.cell_at(c, w) == if (r0 <= w < row
                            && x0 <= c < x1) || (w == row && x0 <= c < col) {
                            blit_cell(orig.cell_at(c, w), c, w, *tex, *src, *dst, *damage, alpha)
                        } else {
                            orig.cell_at(c, w)
                        },
                decreases x1 - col,
            {
                let ghost before = self.framebuffer;
                let old_cell = self.framebuffer.cell(col as u16, row as u16);
                assert(old_cell == orig.cell_at(col as int, row as int));
                let top = covers_exec(dst, col, 2 * row) && covers_exec(damage, col, 2 * row);
                let bottom = covers_exec(dst, col, 2 * row + 1) && covers_exec(damage, col, 2 * row + 1);
                if top && bottom {
                    let upper = sample_exec(tex, src, dst, col, 2 * row);
                    let lower = sample_exec(tex, src, dst, col, 2 * row + 1);
                    let cell = Cell {
                        symbol: HALF_BLOCK,
                        bg: blend_onto(old_cell.bg, upper, alpha),
                        fg: blend_onto(old_cell.fg, lower, alpha),
                    };
                    self.framebuffer.set_cell(col as u16, row as u16, cell);
                } else if bottom {
                    let lower = sample_exec(tex, src, dst, col, 2 * row + 1);
                    let cell = Cell {
                        symbol: HALF_BLOCK,
                        bg: blend_onto(old_cell.bg, lower, alpha),
                        fg: old_cell.fg,
                    };
                    self.framebuffer.set_cell(col as u16, row as u16, cell);
                } else if top {
                    let upper = sample_exec(tex, src, dst, col, 2 * row);
                    let cell = Cell {
                        symbol: HALF_BLOCK,
                        bg: old_cell.bg,
                        fg: blend_onto(old_cell.fg, upper, alpha),
                    };
                    self.framebuffer.set_cell(col as u16, row as u16, cell);
                }
                proof {
                    assert forall|c: int, w: int| self.framebuffer.in_grid(c, w) implies #[trigger] self.framebuffer.cell_at(c, w)
                        == if (r0 <= w < row && x0 <= c < x1) || (w == row && x0 <= c < col + 1) {
                        blit_cell(orig.cell_at(c, w), c, w, *tex, *src, *dst, *damage, alpha)
                    } else {
                        orig.cell_at(c, w)
                    } by {
                        assert(before.cell_at(c, w) == if (r0 <= w < row && x0 <= c < x1) || (w == row && x0 <= c < col) {
                            blit_cell(orig.cell_at(c, w), c, w, *tex, *src, *dst, *damage, alpha)
                        } else {
                            orig.cell_at(c, w)
                        });
                    }
                }
                col = col + 1;
            }
            row = row + 1;
        }
    }

    /// Paints `color` on every pixel of each rectangle of `at`.
    pub fn clear(&mut self, color: Color32, at: &[Rect])
        requires
            old(self).framebuffer.wf(),
        ensures
            final(self).framebuffer.wf(),
            same_size(final(self).framebuffer, old(self).framebuffer),
            forall|c: int, w: int|
                final(self).framebuffer.in_grid(c, w) ==> #[trigger] final(self).framebuffer.cell_at(c, w)
                    == clear_all(old(self).framebuffer.cell_at(c, w), c, w, at@, terminal_color(color)),
    {
        let color = color_to_ratatui(color);
        let ghost orig = self.framebuffer;
        let mut i: usize = 0;
        while i < at.len()
            invariant
                self.framebuffer.wf(),
                same_size(self.framebuffer, orig),
                orig == old(self).framebuffer,
                i <= at@.len(),
                forall|c: int, w: int|
                    self.framebuffer.in_grid(c, w) ==> #[trigger] self.framebuffer.cell_at(c, w)
                        == clear_all(orig.cell_at(c, w), c, w, at@.subrange(0, i as int), color),
            decreases at@.len() - i,
        {
            self.fill_rect(&at[i], color);
            proof {
                assert(at@.subrange(0, i + 1).drop_last() =~= at@.subrange(0, i as int));
            }
            i = i + 1;
        }
        proof {
            assert(at@.subrange(0, i as int) =~= at@);
        }
    }

    /// Paints `color` on the pixels of `dst` that lie in each rectangle of `damage`.
    pub fn draw_solid(&mut self, dst: Rect, damage: &[Rect], color: Color32)
        requires
            old(self).framebuffer.wf(),
        ensures
            final(self).framebuffer.wf(),
            same_size(final(self).framebuffer, old(self).framebuffer),
            forall|c: int, w: int|
                final(self).framebuffer.in_grid(c, w) ==> #[trigger] final(self).framebuffer.cell_at(c, w)
                    == paint_all(old(self).framebuffer.cell_at(c, w), c, w, dst, damage@, terminal_color(color)),
    {
        let color = color_to_ratatui(color);
        let ghost orig = self.framebuffer;
        let mut i: usize = 0;
        while i < damage.len()
            invariant
                self.framebuffer.wf(),
                same_size(self.framebuffer, orig),
                orig == old(self).framebuffer,
                i <= damage@.len(),
                forall|c: int, w: int|
                    self.framebuffer.in_grid(c, w) ==> #[trigger] self.framebuffer.cell_at(c, w)
                        == paint_all(orig.cell_at(c, w), c, w, dst, damage@.subrange(0, i as int), color),
            decreases damage@.len() - i,
        {
            self.paint(&dst, &damage[i], color);
            proof {
                assert(damage@.subrange(0, i + 1).drop_last() =~= damage@.subrange(0, i as int));
            }
            i = i + 1;
        }
        proof {
            assert(damage@.subrange(0, i as int) =~= damage@);
        }
    }

    /// Draws the part `src` of `texture` onto the pixels of `dst` that lie in
    /// each rectangle of `damage`, at strength `alpha` (255 is fully opaque),
    /// sampling the nearest source pixel.
    pub fn render_texture_from_to(
        &mut self,
        texture: &RatatuiTextureHandle,
        src: Rect,
        dst: Rect,
        damage: &[Rect],
        alpha: u8,
    )
        requires
            old(self).framebuffer.wf(),
            texture.texture().wf(),
        ensures
            final(self).framebuffer.wf(),
            same_size(final(self).framebuffer, old(self).framebuffer),
            forall|c: int, w: int|
                final(self).framebuffer.in_grid(c, w) ==> #[trigger] final(self).framebuffer.cell_at(c, w)
                    == blit_all(old(self).framebuffer.cell_at(c, w), c, w, texture.texture(), src, dst, damage@, alpha),
    {
        let tex: &RatatuiTexture = &*texture.0;
        let ghost orig = self.framebuffer;
        let mut i: usize = 0;
        while i < damage.len()
            invariant
                self.framebuffer.wf(),
                tex.wf(),
                *tex == texture.texture(),
                same_size(self.framebuffer, orig),
                orig == old(self).framebuffer,
                i <= damage@.len(),
                forall|c: int, w: int|
                    self.framebuffer.in_grid(c, w) ==> #[trigger] self.framebuffer.cell_at(c, w)
                        == blit_all(orig.cell_at(c, w), c, w, *tex, src, dst, damage@.subrange(0, i as int), alpha),
            decreases damage@.len() - i,
        {
            self.blit(tex, &src, &dst, &damage[i], alpha);
            proof {
                assert(damage@.subrange(0, i + 1).drop_last() =~= damage@.subrange(0, i as int));
            }
            i = i + 1;
        }
        proof {
            assert(damage@.subrange(0, i as int) =~= damage@);
        }
    }
}

} // verus!
