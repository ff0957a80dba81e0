//! Textures of canonical pixels and their import from client buffers.
use vstd::prelude::*;

use crate::error::RatatuiError;
use crate::format::{
    alpha_of, blue_of, encode_spec, fourcc_of_code, green_of, red_of, Fourcc, Pixel,
};
use crate::framebuffer::{clip_axis, covers, max3, min3, Rect};
use crate::grid::{lemma_grid_fits, lemma_index_distinct, lemma_index_in_bounds};

verus! {

/// The DRM modifier of a plain row-major layout.
pub const DRM_FORMAT_MOD_LINEAR: u64 = 0;

/// The shared-memory format code of ARGB8888; most other codes equal the
/// DRM FourCC of their layout.
pub const WL_SHM_FORMAT_ARGB8888: u32 = 0;
/// The shared-memory format code of XRGB8888.
pub const WL_SHM_FORMAT_XRGB8888: u32 = 1;

/// The 32-bit little-endian word that starts at byte `i` of `data`.
pub open spec fn le_word(data: Seq<u8>, i: int) -> u32 {
    (data[i] + 256 * data[i + 1] + 65536 * data[i + 2] + 16777216 * data[i + 3]) as u32
}

/// The canonical ARGB8888 word of the colour that `w` holds in layout `f`.
pub open spec fn canonical_of(f: Fourcc, w: u32) -> u32 {
    encode_spec(Fourcc::Argb8888, red_of(f, w), green_of(f, w), blue_of(f, w), alpha_of(f, w))
}

/// Whether a `w` by `h` pixel region whose first row starts at byte `offset`
/// and whose rows are `stride` bytes apart lies within `len` bytes.
pub open spec fn region_fits(len: int, w: int, h: int, offset: int, stride: int) -> bool {
    w == 0 || h == 0 || offset + (h - 1) * stride + 4 * w <= len
}

/// The canonical pixel at column `x` of row `y` of such a region.
pub open spec fn region_pixel(
    data: Seq<u8>,
    f: Fourcc,
    offset: int,
    stride: int,
    x: int,
    y: int,
) -> u32 {
    canonical_of(f, le_word(data, offset + y * stride + 4 * x))
}

/// Whether a signed size fits a 16-bit terminal coordinate.
pub open spec fn fits_u16(v: i32) -> bool {
    0 <= v <= u16::MAX
}

/// The layout that a shared-memory format code names, if it is supported.
pub open spec fn fourcc_of_shm(format: u32) -> Option<Fourcc> {
    if format == WL_SHM_FORMAT_ARGB8888 {
        Some(Fourcc::Argb8888)
    } else if format == WL_SHM_FORMAT_XRGB8888 {
        Some(Fourcc::Xrgb8888)
    } else {
        fourcc_of_code(format)
    }
}

/// A decoded image: `width` by `height` canonical ARGB8888 words, row-major.
#[derive(Clone, Debug)]
pub struct RatatuiTexture {
    pixels: Vec<u32>,
    width: u16,
    height: u16,
}

impl RatatuiTexture {
    pub closed spec fn spec_width(&self) -> nat {
        self.width as nat
    }

    pub closed spec fn spec_height(&self) -> nat {
        self.height as nat
    }

    /// The pixels, row by row.
    pub closed spec fn pixels(&self) -> Seq<u32> {
        self.pixels@
    }

    pub open spec fn wf(&self) -> bool {
        &&& self.spec_width() <= u16::MAX
        &&& self.spec_height() <= u16::MAX
        &&& self.pixels().len() == self.spec_width() * self.spec_height()
    }

    /// The pixel at column `x` of row `y`.
    pub open spec fn texel(&self, x: int, y: int) -> u32 {
        self.pixels()[y * self.spec_width() + x]
    }

    /// The pixel at column `x` of row `y`, each coordinate moved into the
    /// texture first.
    pub open spec fn texel_clamped(&self, x: int, y: int) -> u32 {
        self.texel(clamp(x, self.spec_width() - 1), clamp(y, self.spec_height() - 1))
    }

    /// Width in pixels.
    pub fn width(&self) -> (r: u32)
        ensures
            r == self.spec_width(),
    {
        self.width as u32
    }

    /// Height in pixels.
    pub fn height(&self) -> (r: u32)
        ensures
            r == self.spec_height(),
    {
        self.height as u32
    }

    /// The layout of the stored pixels.
    pub fn format(&self) -> (r: Option<Fourcc>)
        ensures
            r == Some(Fourcc::Argb8888),
    {
        Some(Fourcc::Argb8888)
    }

    /// Whether the texture holds no pixel.
    pub fn is_empty(&self) -> (r: bool)
        ensures
            r == (self.spec_width() == 0 || self.spec_height() == 0),
    {
        self.width == 0 || self.height == 0
    }

    /// The nearest pixel to column `x` of row `y`: coordinates outside the
    /// texture are moved to its closest edge.
    pub fn get_pixel(&self, x: i64, y: i64) -> (r: u32)
        requires
            self.wf(),
            self.spec_width() > 0,
            self.spec_height() > 0,
        ensures
            r == self.texel_clamped(x as int, y as int),
    {
        let cx: i64 = clamp_exec(x, self.width as i64 - 1);
        let cy: i64 = clamp_exec(y, self.height as i64 - 1);
        proof {
            lemma_index_in_bounds(self.width as int, self.height as int, cx as int, cy as int);
            lemma_grid_fits(self.width as int, self.height as int);
        }
        self.pixels[cy as usize * self.width as usize + cx as usize]
    }
}

impl RatatuiTexture {
    fn set_texel(&mut self, x: u16, y: u16, v: u32)
        requires
            old(self).wf(),
            x < old(self).spec_width(),
            y < old(self).spec_height(),
        ensures
            final(self).wf(),
            final(self).spec_width() == old(self).spec_width(),
            final(self).spec_height() == old(self).spec_height(),
            forall|i: int, j: int|
                0 <= i < final(self).spec_width() && 0 <= j < final(self).spec_height()
                    ==> #[trigger] final(self).texel(i, j) == if i == x && j == y {
                    v
                } else {
                    old(self).texel(i, j)
                },
    {
        proof {
            lemma_index_in_bounds(self.width as int, self.height as int, x as int, y as int);
            lemma_grid_fits(self.width as int, self.height as int);
        }
        let idx: usize = y as usize * self.width as usize + x as usize;
        self.pixels.set(idx, v);
        proof {
            assert forall|i: int, j: int|
                0 <= i < self.spec_width() && 0 <= j < self.spec_height() implies #[trigger] self.texel(i, j)
                == if i == x && j == y {
                v
            } else {
                old(self).texel(i, j)
            } by {
                lemma_index_in_bounds(self.width as int, self.height as int, i, j);
                if i != x || j != y {
                    lemma_index_distinct(self.width as int, i, j, x as int, y as int);
                }
            }
        }
    }

    /// Decodes again the pixels of `region` from a `w` by `h` region of
    /// `data` in layout `f`, rows `stride` bytes apart from byte `offset` on,
    /// where `w` and `h` are the texture's size; the other pixels keep their
    /// values.
    fn update_region(&mut self, data: &[u8], f: Fourcc, offset: usize, stride: usize, region: &Rect)
        requires
            old(self).wf(),
            region_fits(
                data@.len() as int,
                old(self).spec_width() as int,
                old(self).spec_height() as int,
                offset as int,
                stride as int,
            ),
        ensures
            final(self).wf(),
            final(self).spec_width() == old(self).spec_width(),
            final(self).spec_height() == old(self).spec_height(),
            forall|x: int, y: int|
                0 <= x < final(self).spec_width() && 0 <= y < final(self).spec_height()
                    ==> #[trigger] final(self).texel(x, y) == if covers(*region, x, y) {
                    region_pixel(data@, f, offset as int, stride as int, x, y)
                } else {
                    old(self).texel(x, y)
                },
    {
        let w: i64 = self.width as i64;
        let h: i64 = self.height as i64;
        let (x0, x1) = clip_axis(region.x, region.w, region.x, region.w, w);
        let (y0, y1) = clip_axis(region.y, region.h, region.y, region.h, h);
        let dlen: usize = data.len();
        let ghost orig = *self;
        if x0 >= x1 || y0 >= y1 {
            return;
        }
        let mut y: i64 = y0;
        while y < y1
            invariant
                self.wf(),
                orig == *old(self),
                self.spec_width() == w,
                self.spec_height() == h,
                region_fits(data@.len() as int, w as int, h as int, offset as int, stride as int),
                dlen == data@.len(),
                0 <= x0 < x1 <= w,
                0 <= y0 <= y <= y1,
                y1 <= h,
                x0 == max3(0, region.x as int, region.x as int),
                x1 == min3(w as int, region.x + region.w, region.x + region.w),
                y0 == max3(0, region.y as int, region.y as int),
                y1 == min3(h as int, region.y + region.h, region.y + region.h),
                forall|i: int, j: int|
                    0 <= i < w && 0 <= j < h ==> #[trigger] self.texel(i, j) == if y0 <= j < y && x0 <= i < x1 {
                        region_pixel(data@, f, offset as int, stride as int, i, j)
                    } else {
                        orig.texel(i, j)
                    },
            decreases y1 - y,
        {
            proof {
                lemma_row_start(y as int, h as int, stride as int, offset as int, w as int, data@.len() as int);
            }
            let row_start: usize = offset + y as usize * stride;
            let mut x: i64 = x0;
            while x < x1
                invariant
                    self.wf(),
                    self.spec_width() == w,
                    self.spec_height() == h,
                    dlen == data@.len(),
                    row_start == offset + y * stride,
                    row_start + 4 * w <= data@.len(),
                    0 <= x0 <= x <= x1,
                    x1 <= w,
                    0 <= y0 <= y < y1,
                    y1 <= h,
                    forall|i: int, j: int|
                        0 <= i < w && 0 <= j < h ==> #[trigger] self.texel(i, j) == if (y0 <= j < y && x0 <= i < x1)
                            || (j == y && x0 <= i < x) {
                            region_pixel(data@, f, offset as int, stride as int, i, j)
                        } else {
                            orig.texel(i, j)
                        },
                decreases x1 - x,
            {
                let word = read_le_word(data, row_start + 4 * x as usize);
                let ghost before = *self;
                self.set_texel(x as u16, y as u16, Pixel::new(f, word).into_argb8888());
                proof {
                    assert forall|i: int, j: int| 0 <= i < w && 0 <= j < h implies #[trigger] self.texel(i, j)
                        == if (y0 <= j < y && x0 <= i < x1) || (j == y && x0 <= i < x + 1) {
                        region_pixel(data@, f, offset as int, stride as int, i, j)
                    } else {
                        orig.texel(i, j)
                    } by {
                        assert(before.texel(i, j) == if (y0 <= j < y && x0 <= i < x1) || (j == y && x0 <= i < x) {
                            region_pixel(data@, f, offset as int, stride as int, i, j)
                        } else {
                            orig.texel(i, j)
                        });
                    }
                }
                x = x + 1;
            }
            y = y + 1;
        }
    }

    /// Decodes again the pixels of `region` from `data`, which holds the
    /// whole image row-major in layout `format` with no gap between rows;
    /// the other pixels keep their values.
    pub fn update_memory(&mut self, data: &[u8], format: Fourcc, region: Rect)
        requires
            old(self).wf(),
            data@.len() >= 4 * old(self).spec_width() * old(self).spec_height(),
        ensures
            final(self).wf(),
            final(self).spec_width() == old(self).spec_width(),
            final(self).spec_height() == old(self).spec_height(),
            forall|x: int, y: int|
                0 <= x < final(self).spec_width() && 0 <= y < final(self).spec_height()
                    ==> #[trigger] final(self).texel(x, y) == if covers(region, x, y) {
                    canonical_of(format, le_word(data@, 4 * (y * old(self).spec_width() + x)))
                } else {
                    old(self).texel(x, y)
                },
    {
        let w: u16 = self.width;
        let h: u16 = self.height;
        proof {
            if w > 0 && h > 0 {
                assert((h - 1) * (4 * w) + 4 * w == 4 * w * h) by (nonlinear_arith);
            }
        }
        self.update_region(data, format, 0, 4 * w as usize, &region);
        proof {
            assert forall|x: int, y: int| 0 <= x < w && 0 <= y < h implies #[trigger] region_pixel(data@, format, 0, 4 * w, x, y)
                == canonical_of(format, le_word(data@, 4 * (y * w + x))) by {
                assert(y * (4 * w) + 4 * x == 4 * (y * w + x)) by (nonlinear_arith);
            }
        }
    }
}

/// `v` moved into `0 ..= hi`.
pub open spec fn clamp(v: int, hi: int) -> int {
    if v < 0 {
        0
    } else if v > hi {
        hi
    } else {
        v
    }
}

fn clamp_exec(v: i64, hi: i64) -> (r: i64)
    requires
        hi >= 0,
    ensures
        r == clamp(v as int, hi as int),
{
    if v < 0 {
        0
    } else if v > hi {
        hi
    } else {
        v
    }
}

/// A shared handle to a texture, as surfaces and draw calls hold it.
#[derive(Clone, Debug)]
pub struct RatatuiTextureHandle(pub std::sync::Arc<RatatuiTexture>);

impl RatatuiTextureHandle {
    /// The texture behind the handle.
    pub open spec fn texture(&self) -> RatatuiTexture {
        *self.0
    }

    /// Width in pixels.
    pub fn width(&self) -> (r: u32)
        ensures
            r == self.texture().spec_width(),
    {
        self.0.width()
    }

    /// Height in pixels.
    pub fn height(&self) -> (r: u32)
        ensures
            r == self.texture().spec_height(),
    {
        self.0.height()
    }

    /// The layout of the stored pixels.
    pub fn format(&self) -> (r: Option<Fourcc>)
        ensures
            r == Some(Fourcc::Argb8888),
    {
        Some(Fourcc::Argb8888)
    }
}

impl From<RatatuiTexture> for RatatuiTextureHandle {
    fn from(value: RatatuiTexture) -> (r: Self)
        ensures
            r.texture() == value,
    {
        RatatuiTextureHandle(std::sync::Arc::new(value))
    }
}

impl vstd::std_specs::convert::FromSpecImpl<RatatuiTexture> for RatatuiTextureHandle {
    open spec fn obeys_from_spec() -> bool {
        true
    }

    open spec fn from_spec(v: RatatuiTexture) -> Self {
        RatatuiTextureHandle(std::sync::Arc::new(v))
    }
}

fn read_le_word(data: &[u8], i: usize) -> (r: u32)
    requires
        i + 4 <= data@.len(),
    ensures
        r == le_word(data@, i as int),
{
    data[i] as u32 + 256 * data[i + 1] as u32 + 65536 * data[i + 2] as u32 + 16777216 * data[i
        + 3] as u32
}

proof fn lemma_row_start(y: int, h: int, stride: int, offset: int, w: int, len: int)
    requires
        0 <= y < h,
        0 <= stride,
        0 <= offset,
        0 < w,
        offset + (h - 1) * stride + 4 * w <= len,
    ensures
        0 <= y * stride,
        offset + y * stride + 4 * w <= len,
{
    assert(0 <= y * stride <= (h - 1) * stride) by (nonlinear_arith)
        requires
            0 <= y < h,
            0 <= stride,
    ;
}

/// Decodes a `w` by `h` region of `data` in layout `f` into canonical words.
fn decode_region(data: &[u8], f: Fourcc, w: u16, h: u16, offset: usize, stride: usize) -> (r: Vec<
    u32,
>)
    requires
        region_fits(data@.len() as int, w as int, h as int, offset as int, stride as int),
    ensures
        r@.len() == w * h,
        forall|x: int, y: int|
            0 <= x < w && 0 <= y < h ==> #[trigger] r@[y * w + x] == region_pixel(
                data@,
                f,
                offset as int,
                stride as int,
                x,
                y,
            ),
{
    proof {
        lemma_grid_fits(w as int, h as int);
    }
    let len: usize = data.len();
    let mut out: Vec<u32> = Vec::with_capacity(w as usize * h as usize);
    let mut y: u16 = 0;
    while y < h
        invariant
            len == data@.len(),
            y <= h,
            region_fits(data@.len() as int, w as int, h as int, offset as int, stride as int),
            out@.len() == y * w,
            forall|xx: int, yy: int|
                0 <= xx < w && 0 <= yy < y ==> #[trigger] out@[yy * w + xx] == region_pixel(
                    data@,
                    f,
                    offset as int,
                    stride as int,
                    xx,
                    yy,
                ),
        decreases h - y,
    {
        if w == 0 {
            assert(out@.len() == (y + 1) * w) by (nonlinear_arith)
                requires
                    w == 0,
                    out@.len() == y * w,
            ;
            y = y + 1;
            continue;
        }
        proof {
            lemma_row_start(
                y as int,
                h as int,
                stride as int,
                offset as int,
                w as int,
                data@.len() as int,
            );
        }
        let row_start: usize = offset + y as usize * stride;
        let mut x: u16 = 0;
        while x < w
            invariant
                len == data@.len(),
                0 < w,
                y < h,
                x <= w,
                row_start == offset + y * stride,
                row_start + 4 * w <= data@.len(),
                out@.len() == y * w + x,
                forall|xx: int, yy: int|
                    0 <= xx < w && 0 <= yy < y ==> #[trigger] out@[yy * w + xx] == region_pixel(
                        data@,
                        f,
                        offset as int,
                        stride as int,
                        xx,
                        yy,
                    ),
                forall|xx: int|
                    0 <= xx < x ==> #[trigger] out@[y * w + xx] == region_pixel(
                        data@,
                        f,
                        offset as int,
                        stride as int,
                        xx,
                        y as int,
                    ),
            decreases w - x,
        {
            let word = read_le_word(data, row_start + 4 * x as usize);
            let p = Pixel::new(f, word);
            let c = p.into_argb8888();
            let ghost before = out@;
            out.push(c);
            proof {
                assert forall|xx: int, yy: int|
                    0 <= xx < w && 0 <= yy < y implies #[trigger] out@[yy * w + xx]
                    == region_pixel(data@, f, offset as int, stride as int, xx, yy) by {
                    lemma_index_in_bounds(w as int, y as int, xx, yy);
                    assert(out@[yy * w + xx] == before[yy * w + xx]);
                }
                assert forall|xx: int| 0 <= xx < x + 1 implies #[trigger] out@[y * w + xx]
                    == region_pixel(data@, f, offset as int, stride as int, xx, y as int) by {
                    if xx < x {
                        assert(out@[y * w + xx] == before[y * w + xx]);
                    }
                }
            }
            x = x + 1;
        }
        assert(out@.len() == (y + 1) * w) by (nonlinear_arith)
            requires
                out@.len() == y * w + w,
        ;
        y = y + 1;
    }
    out
}

/// Decodes a region that is known to fit into a texture.
fn texture_from_region(data: &[u8], f: Fourcc, w: u16, h: u16, offset: usize, stride: usize) -> (r:
    RatatuiTexture)
    requires
        region_fits(data@.len() as int, w as int, h as int, offset as int, stride as int),
    ensures
        r.wf(),
        r.spec_width() == w,
        r.spec_height() == h,
        forall|x: int, y: int|
            0 <= x < w && 0 <= y < h ==> #[trigger] r.texel(x, y) == region_pixel(
                data@,
                f,
                offset as int,
                stride as int,
                x,
                y,
            ),
{
    let pixels = decode_region(data, f, w, h, offset, stride);
    proof {
        assert(w * h == w as nat * h as nat);
    }
    RatatuiTexture { pixels, width: w, height: h }
}

/// What importing a region of a mapped buffer gives, once its layout is known.
pub open spec fn region_import_ok(
    r: Result<RatatuiTexture, RatatuiError>,
    data: Seq<u8>,
    f: Fourcc,
    w: i32,
    h: i32,
    offset: int,
    stride: int,
) -> bool {
    if !(fits_u16(w) && fits_u16(h)) {
        r == Err::<RatatuiTexture, RatatuiError>(RatatuiError::TextureTooBig(w, h))
    } else if !(0 <= offset && 0 <= stride && region_fits(data.len() as int, w as int, h as int, offset, stride)) {
        r == Err::<RatatuiTexture, RatatuiError>(RatatuiError::BufferAccessError)
    } else {
        &&& r is Ok
        &&& r.unwrap().wf()
        &&& r.unwrap().spec_width() == w
        &&& r.unwrap().spec_height() == h
        &&& forall|x: int, y: int|
            0 <= x < w && 0 <= y < h ==> #[trigger] r.unwrap().texel(x, y) == region_pixel(
                data,
                f,
                offset,
                stride,
                x,
                y,
            )
    }
}

/// Checks that a `w` by `h` region, rows `stride` bytes apart from byte
/// `offset` on, has a 16-bit size and lies within `len` bytes.
fn check_region(len: usize, w: i32, h: i32, offset: usize, stride: usize) -> (r: Result<
    (u16, u16),
    RatatuiError,
>)
    ensures
        !(fits_u16(w) && fits_u16(h)) ==> r == Err::<(u16, u16), RatatuiError>(
            RatatuiError::TextureTooBig(w, h),
        ),
        fits_u16(w) && fits_u16(h) && !region_fits(len as int, w as int, h as int, offset as int, stride as int)
            ==> r == Err::<(u16, u16), RatatuiError>(RatatuiError::BufferAccessError),
        fits_u16(w) && fits_u16(h) && region_fits(len as int, w as int, h as int, offset as int, stride as int)
            ==> r == Ok::<(u16, u16), RatatuiError>((w as u16, h as u16)),
{
    if w < 0 || w > 65535 || h < 0 || h > 65535 {
        return Err(RatatuiError::TextureTooBig(w, h));
    }
    let wu: u16 = w as u16;
    let hu: u16 = h as u16;
    if wu > 0 && hu > 0 {
        assert((hu - 1) * stride <= 65535 * stride) by (nonlinear_arith)
            requires
                0 <= hu - 1 <= 65535,
                0 <= stride,
        ;
        assert(65535 * stride <= 65535 * 0x1_0000_0000_0000_0000) by (nonlinear_arith)
            requires
                0 <= stride <= 0x1_0000_0000_0000_0000,
        ;
        let end: u128 = offset as u128 + (hu as u128 - 1) * stride as u128 + 4 * wu as u128;
        if end > len as u128 {
            return Err(RatatuiError::BufferAccessError);
        }
    }
    Ok((wu, hu))
}

/// The layout of a shared-memory format code.
fn shm_layout(format: u32) -> (r: Result<Fourcc, RatatuiError>)
    ensures
        r == (match fourcc_of_shm(format) {
            Some(f) => Ok::<Fourcc, RatatuiError>(f),
            None => Err(RatatuiError::UnsupportedWlPixelFormat(format)),
        }),
{
    if format == WL_SHM_FORMAT_ARGB8888 {
        Ok(Fourcc::Argb8888)
    } else if format == WL_SHM_FORMAT_XRGB8888 {
        Ok(Fourcc::Xrgb8888)
    } else {
        match Fourcc::from_code(format) {
            Some(f) => Ok(f),
            None => Err(RatatuiError::UnsupportedWlPixelFormat(format)),
        }
    }
}

/// Checks a shared-memory buffer's layout, size and place in the pool.
fn check_shm(len: usize, format: u32, w: i32, h: i32, offset: i32, stride: i32) -> (r: Result<
    (Fourcc, u16, u16),
    RatatuiError,
>)
    ensures
        fourcc_of_shm(format) is None ==> r == Err::<(Fourcc, u16, u16), RatatuiError>(
            RatatuiError::UnsupportedWlPixelFormat(format),
        ),
        fourcc_of_shm(format) is Some && !(fits_u16(w) && fits_u16(h)) ==> r == Err::<
            (Fourcc, u16, u16),
            RatatuiError,
        >(RatatuiError::TextureTooBig(w, h)),
        fourcc_of_shm(format) is Some && fits_u16(w) && fits_u16(h) && !(0 <= offset && 0 <= stride
            && region_fits(len as int, w as int, h as int, offset as int, stride as int)) ==> r
            == Err::<(Fourcc, u16, u16), RatatuiError>(RatatuiError::BufferAccessError),
        fourcc_of_shm(format) is Some && fits_u16(w) && fits_u16(h) && 0 <= offset && 0 <= stride
            && region_fits(len as int, w as int, h as int, offset as int, stride as int) ==> r
            == Ok::<(Fourcc, u16, u16), RatatuiError>(
            (fourcc_of_shm(format).unwrap(), w as u16, h as u16),
        ),
{
    let f = match shm_layout(format) {
        Ok(f) => f,
        Err(e) => {
            return Err(e);
        },
    };
    if w < 0 || w > 65535 || h < 0 || h > 65535 {
        return Err(RatatuiError::TextureTooBig(w, h));
    }
    if offset < 0 || stride < 0 {
        return Err(RatatuiError::BufferAccessError);
    }
    match check_region(len, w, h, offset as usize, stride as usize) {
        Ok((wu, hu)) => Ok((f, wu, hu)),
        Err(e) => Err(e),
    }
}

fn import_region(data: &[u8], f: Fourcc, w: i32, h: i32, offset: usize, stride: usize) -> (r:
    Result<RatatuiTexture, RatatuiError>)
    ensures
        region_import_ok(r, data@, f, w, h, offset as int, stride as int),
{
    match check_region(data.len(), w, h, offset, stride) {
        Ok((wu, hu)) => Ok(texture_from_region(data, f, wu, hu, offset, stride)),
        Err(e) => Err(e),
    }
}

/// What importing `w` by `h` pixels of layout `f`, stored row-major in
/// `data` with no gap between rows, gives.
pub open spec fn memory_import_ok(
    r: Result<RatatuiTexture, RatatuiError>,
    data: Seq<u8>,
    f: Fourcc,
    w: i32,
    h: i32,
) -> bool {
    if !(fits_u16(w) && fits_u16(h)) {
        r == Err::<RatatuiTexture, RatatuiError>(RatatuiError::TextureTooBig(w, h))
    } else {
        &&& r is Ok
        &&& r.unwrap().wf()
        &&& r.unwrap().spec_width() == w
        &&& r.unwrap().spec_height() == h
        &&& forall|x: int, y: int|
            0 <= x < w && 0 <= y < h ==> #[trigger] r.unwrap().texel(x, y) == canonical_of(
                f,
                le_word(data, 4 * (y * w + x)),
            )
    }
}

/// Decodes `data`, row-major pixels of layout `format` with no gap between
/// rows, into a texture of `w` by `h` pixels.
///
/// Sizes that do not fit a 16-bit coordinate are refused. The rows are
/// decoded as they are stored: `flipped` does not change the result.
pub fn import_memory(data: &[u8], format: Fourcc, w: i32, h: i32, flipped: bool) -> (r: Result<
    RatatuiTexture,
    RatatuiError,
>)
    requires
        fits_u16(w) && fits_u16(h) ==> data@.len() >= 4 * w * h,
    ensures
        memory_import_ok(r, data@, format, w, h),
{
    if w < 0 || w > 65535 || h < 0 || h > 65535 {
        return Err(RatatuiError::TextureTooBig(w, h));
    }
    let wu: u16 = w as u16;
    let hu: u16 = h as u16;
    proof {
        if wu > 0 && hu > 0 {
            assert((hu - 1) * (4 * wu) + 4 * wu == 4 * wu * hu) by (nonlinear_arith);
        }
    }
    let t = texture_from_region(data, format, wu, hu, 0, 4 * wu as usize);
    proof {
        assert forall|x: int, y: int| 0 <= x < w && 0 <= y < h implies #[trigger] t.texel(x, y)
            == canonical_of(format, le_word(data@, 4 * (y * w + x))) by {
            assert(t.texel(x, y) == region_pixel(data@, format, 0, 4 * wu, x, y));
            assert(y * (4 * wu) + 4 * x == 4 * (y * w + x)) by (nonlinear_arith)
                requires
                    w == wu,
            ;
        }
    }
    Ok(t)
}

/// What importing a shared device buffer gives: see [`import_dmabuf`].
pub open spec fn dmabuf_import_ok(
    r: Result<RatatuiTexture, RatatuiError>,
    data: Seq<u8>,
    code: u32,
    modifier: u64,
    w: i32,
    h: i32,
    offset: int,
    stride: int,
) -> bool {
    match fourcc_of_code(code) {
        None => r == Err::<RatatuiTexture, RatatuiError>(RatatuiError::UnsupportedPixelFormat(code)),
        Some(f) => if modifier != DRM_FORMAT_MOD_LINEAR {
            r == Err::<RatatuiTexture, RatatuiError>(RatatuiError::DmaBufImportNotSupported)
        } else {
            region_import_ok(r, data, f, w, h, offset, stride)
        },
    }
}

/// What importing a shared-memory buffer gives: see [`import_shm_buffer`].
pub open spec fn shm_import_ok(
    r: Result<RatatuiTexture, RatatuiError>,
    data: Seq<u8>,
    format: u32,
    w: i32,
    h: i32,
    offset: int,
    stride: int,
) -> bool {
    match fourcc_of_shm(format) {
        None => r == Err::<RatatuiTexture, RatatuiError>(RatatuiError::UnsupportedWlPixelFormat(format)),
        Some(f) => region_import_ok(r, data, f, w, h, offset, stride),
    }
}

/// Decodes a mapped buffer that another device shares: `w` by `h` pixels of
/// the layout with DRM FourCC `code`, rows `stride` bytes apart from byte
/// `offset` on, laid out as `modifier` says.
///
/// Refused, in this order: a code of no supported layout, a modifier other
/// than the linear one, a size that does not fit 16 bits, and a region that
/// does not lie inside `data`.
pub fn import_dmabuf(
    data: &[u8],
    code: u32,
    modifier: u64,
    w: i32,
    h: i32,
    offset: usize,
    stride: usize,
) -> (r: Result<RatatuiTexture, RatatuiError>)
    ensures
        dmabuf_import_ok(r, data@, code, modifier, w, h, offset as int, stride as int),
{
    let f = match Fourcc::from_code(code) {
        Some(f) => f,
        None => {
            return Err(RatatuiError::UnsupportedPixelFormat(code));
        },
    };
    if modifier != DRM_FORMAT_MOD_LINEAR {
        return Err(RatatuiError::DmaBufImportNotSupported);
    }
    import_region(data, f, w, h, offset, stride)
}

/// Decodes a client's shared-memory buffer: `w` by `h` pixels of the
/// shared-memory format `format`, rows `stride` bytes apart from byte
/// `offset` of the pool `data` on.
///
/// Refused, in this order: a format of no supported layout, a size that does
/// not fit 16 bits, and a region that does not lie inside the pool.
pub fn import_shm_buffer(data: &[u8], format: u32, w: i32, h: i32, offset: i32, stride: i32) -> (r:
    Result<RatatuiTexture, RatatuiError>)
    ensures
        shm_import_ok(r, data@, format, w, h, offset as int, stride as int),
{
    match check_shm(data.len(), format, w, h, offset, stride) {
        Ok((f, wu, hu)) => Ok(texture_from_region(data, f, wu, hu, offset as usize, stride as usize)),
        Err(e) => Err(e),
    }
}

/// Whether some rectangle of `damage` holds the pixel at column `x` of row `y`.
pub open spec fn damaged(damage: Seq<Rect>, x: int, y: int) -> bool {
    exists|i: int| 0 <= i < damage.len() && covers(#[trigger] damage[i], x, y)
}

/// Whether a cached texture can take a buffer of `w` by `h` pixels in place.
pub open spec fn reusable(cache: Option<RatatuiTexture>, w: int, h: int) -> bool {
    cache is Some && cache.unwrap().spec_width() == w && cache.unwrap().spec_height() == h
}

/// What importing a shared-memory buffer into a cache slot does: see
/// [`import_shm_buffer_into`].
pub open spec fn shm_update_ok(
    before: Option<RatatuiTexture>,
    after: Option<RatatuiTexture>,
    r: Result<(), RatatuiError>,
    data: Seq<u8>,
    format: u32,
    w: i32,
    h: i32,
    offset: int,
    stride: int,
    damage: Seq<Rect>,
) -> bool {
    match fourcc_of_shm(format) {
        None => r == Err::<(), RatatuiError>(RatatuiError::UnsupportedWlPixelFormat(format)) && after
            == before,
        Some(f) => if !(fits_u16(w) && fits_u16(h)) {
            r == Err::<(), RatatuiError>(RatatuiError::TextureTooBig(w, h)) && after == before
        } else if !(0 <= offset && 0 <= stride && region_fits(data.len() as int, w as int, h as int, offset, stride)) {
            r == Err::<(), RatatuiError>(RatatuiError::BufferAccessError) && after == before
        } else {
            &&& r is Ok
            &&& after is Some
            &&& after.unwrap().wf()
            &&& after.unwrap().spec_width() == w
            &&& after.unwrap().spec_height() == h
            &&& forall|x: int, y: int|
                0 <= x < w && 0 <= y < h ==> #[trigger] after.unwrap().texel(x, y) == if reusable(before, w as int, h as int) && !damaged(damage, x, y) {
                    before.unwrap().texel(x, y)
                } else {
                    region_pixel(data, f, offset, stride, x, y)
                }
        },
    }
}

/// Imports a client's shared-memory buffer into the cache slot of its
/// surface, as [`import_shm_buffer`] does. Where the slot already holds a
/// texture of the buffer's size, only the pixels inside `damage` are decoded
/// again, in place; otherwise a new texture fills the slot. On an error the
/// slot is left as it was.
pub fn import_shm_buffer_into(
    cache: &mut Option<RatatuiTexture>,
    data: &[u8],
    format: u32,
    w: i32,
    h: i32,
    offset: i32,
    stride: i32,
    damage: &[Rect],
) -> (r: Result<(), RatatuiError>)
    requires
        (*old(cache)) is Some ==> (*old(cache)).unwrap().wf(),
    ensures
        shm_update_ok(*old(cache), *final(cache), r, data@, format, w, h, offset as int, stride as int, damage@),
{
    let (f, wu, hu) = match check_shm(data.len(), format, w, h, offset, stride) {
        Ok(v) => v,
        Err(e) => {
            return Err(e);
        },
    };
    let off: usize = offset as usize;
    let st: usize = stride as usize;
    let ghost before = *cache;
    let reuse = match cache {
        Some(t) => t.width == wu && t.height == hu,
        None => false,
    };
    if !reuse {
        *cache = Some(texture_from_region(data, f, wu, hu, off, st));
        return Ok(());
    }
    let mut t = cache.take().unwrap();
    let ghost orig = t;
    let mut i: usize = 0;
    while i < damage.len()
        invariant
            reusable(before, w as int, h as int),
            orig == before.unwrap(),
            t.wf(),
            t.spec_width() == w,
            t.spec_height() == h,
            region_fits(data@.len() as int, w as int, h as int, off as int, st as int),
            i <= damage@.len(),
            forall|x: int, y: int|
                0 <= x < w && 0 <= y < h ==> #[trigger] t.texel(x, y) == if !damaged(damage@.subrange(0, i as int), x, y) {
                    orig.texel(x, y)
                } else {
                    region_pixel(data@, f, off as int, st as int, x, y)
                },
        decreases damage@.len() - i,
    {
        let ghost prev = t;
        t.update_region(data, f, off, st, &damage[i]);
        proof {
            let done = damage@.subrange(0, i as int);
            let next = damage@.subrange(0, i + 1);
            assert forall|x: int, y: int| 0 <= x < w && 0 <= y < h implies #[trigger] t.texel(x, y) == if !damaged(next, x, y) {
                orig.texel(x, y)
            } else {
                region_pixel(data@, f, off as int, st as int, x, y)
            } by {
                assert(prev.texel(x, y) == if !damaged(done, x, y) {
                    orig.texel(x, y)
                } else {
                    region_pixel(data@, f, off as int, st as int, x, y)
                });
                if damaged(done, x, y) {
                    let k = choose|k: int| 0 <= k < done.len() && covers(#[trigger] done[k], x, y);
                    assert(next[k] == done[k]);
                }
                if covers(damage@[i as int], x, y) {
                    assert(next[i as int] == damage@[i as int]);
                }
                if damaged(next, x, y) && !covers(damage@[i as int], x, y) {
                    let k = choose|k: int| 0 <= k < next.len() && covers(#[trigger] next[k], x, y);
                    assert(k != i);
                    assert(done[k] == next[k]);
                }
            }
        }
        i = i + 1;
    }
    proof {
        assert(damage@.subrange(0, i as int) =~= damage@);
    }
    *cache = Some(t);
    Ok(())
}

} // verus!
