//! The renderer: it issues frames, commits them, and imports client buffers.
use vstd::prelude::*;

use crate::error::RatatuiError;
use crate::format::Fourcc;
use crate::frame::{same_size, RatatuiFrame};
use crate::framebuffer::{empty_cell, RatatuiFramebuffer};
use crate::texture::{
    dmabuf_import_ok, import_dmabuf, import_memory, import_shm_buffer, memory_import_ok,
    shm_import_ok, RatatuiTexture, RatatuiTextureHandle,
};

verus! {

/// A terminal's size in cells.
#[derive(Clone, Copy, Debug, PartialEq, Eq, Structural)]
pub struct TerminalSize {
    pub width: u16,
    pub height: u16,
}

/// A size in pixels.
#[derive(Clone, Copy, Debug, PartialEq, Eq, Structural)]
pub struct Size {
    pub w: i32,
    pub h: i32,
}

/// Renders into a terminal of a known size.
///
/// It keeps the cells last committed to the terminal; whoever drives the
/// terminal writes them out and reports size changes.
#[derive(Debug)]
pub struct RatatuiRenderer {
    size: TerminalSize,
    live: RatatuiFramebuffer,
}

/// Whether a framebuffer has the size of the terminal.
pub open spec fn fits_terminal(fb: RatatuiFramebuffer, size: TerminalSize) -> bool {
    fb.cols() == size.width && fb.rows() == size.height
}

/// Whether a framebuffer is a fresh grid of the terminal's size.
pub open spec fn is_fresh(fb: RatatuiFramebuffer, size: TerminalSize) -> bool {
    &&& fb.wf()
    &&& fits_terminal(fb, size)
    &&& forall|c: int, w: int| fb.in_grid(c, w) ==> #[trigger] fb.cell_at(c, w) == empty_cell()
}

/// The texture inside an import's result.
pub open spec fn unwrap_handle(r: Result<RatatuiTextureHandle, RatatuiError>) -> Result<
    RatatuiTexture,
    RatatuiError,
> {
    match r {
        Ok(h) => Ok(h.texture()),
        Err(e) => Err(e),
    }
}

fn into_handle(r: Result<RatatuiTexture, RatatuiError>) -> (h: Result<RatatuiTextureHandle, RatatuiError>)
    ensures
        unwrap_handle(h) == r,
{
    match r {
        Ok(t) => Ok(RatatuiTextureHandle::from(t)),
        Err(e) => Err(e),
    }
}

impl RatatuiRenderer {
    /// The terminal's size, in cells.
    pub closed spec fn spec_size(&self) -> TerminalSize {
        self.size
    }

    /// The cells last committed to the terminal.
    pub closed spec fn live(&self) -> RatatuiFramebuffer {
        self.live
    }

    pub open spec fn wf(&self) -> bool {
        self.live().wf() && fits_terminal(self.live(), self.spec_size())
    }

    /// A renderer for a terminal of `width` by `height` cells, nothing shown yet.
    pub fn new(width: u16, height: u16) -> (r: RatatuiRenderer)
        ensures
            r.wf(),
            r.spec_size() == (TerminalSize { width, height }),
            is_fresh(r.live(), r.spec_size()),
    {
        RatatuiRenderer { size: TerminalSize { width, height }, live: RatatuiFramebuffer::empty(width, height) }
    }

    /// The terminal's size, in cells.
    pub fn terminal_size(&self) -> (r: TerminalSize)
        ensures
            r == self.spec_size(),
    {
        self.size
    }

    /// Records that the terminal now has `width` by `height` cells; what it
    /// showed is gone.
    pub fn set_terminal_size(&mut self, width: u16, height: u16)
        ensures
            final(self).wf(),
            final(self).spec_size() == (TerminalSize { width, height }),
            is_fresh(final(self).live(), final(self).spec_size()),
    {
        self.size = TerminalSize { width, height };
        self.live = RatatuiFramebuffer::empty(width, height);
    }

    /// The terminal's size in pixels: each cell is one pixel wide and two high.
    pub fn window_size(&self) -> (r: Size)
        ensures
            r.w == self.spec_size().width,
            r.h == 2 * self.spec_size().height,
    {
        Size { w: self.size.width as i32, h: 2 * self.size.height as i32 }
    }

    /// The cells last committed, for writing out to the terminal.
    pub fn live_buffer(&self) -> (r: &RatatuiFramebuffer)
        ensures
            *r == self.live(),
    {
        &self.live
    }

    /// An empty framebuffer of the terminal's size.
    pub fn new_framebuffer(&self) -> (r: RatatuiFramebuffer)
        ensures
            is_fresh(r, self.spec_size()),
    {
        RatatuiFramebuffer::empty(self.size.width, self.size.height)
    }

    /// Commits `fb` as what the terminal shows and hands back the buffer it
    /// replaces, for reuse. A buffer of another size than the terminal's is
    /// dropped instead, the terminal keeps what it showed, and an empty one
    /// of the right size comes back.
    pub fn swap_buffers(&mut self, fb: RatatuiFramebuffer) -> (r: RatatuiFramebuffer)
        requires
            old(self).wf(),
            fb.wf(),
        ensures
            final(self).wf(),
            final(self).spec_size() == old(self).spec_size(),
            fits_terminal(fb, old(self).spec_size()) ==> final(self).live() == fb && r == old(
                self,
            ).live(),
            !fits_terminal(fb, old(self).spec_size()) ==> final(self).live() == old(self).live()
                && is_fresh(r, old(self).spec_size()),
    {
        if !fb.is_compatible_with(self) {
            return self.new_framebuffer();
        }
        let mut fb = fb;
        std::mem::swap(&mut self.live, &mut fb);
        fb
    }

    /// Opens a frame on `framebuffer`, first replacing it with an empty one
    /// of the terminal's size where the terminal was resized.
    pub fn render(&self, framebuffer: RatatuiFramebuffer) -> (r: RatatuiFrame)
        requires
            framebuffer.wf(),
        ensures
            r.framebuffer.wf(),
            fits_terminal(framebuffer, self.spec_size()) ==> r.framebuffer == framebuffer,
            !fits_terminal(framebuffer, self.spec_size()) ==> is_fresh(r.framebuffer, self.spec_size()),
    {
        RatatuiFrame::new(self, framebuffer)
    }

    /// The layouts that clients are offered for shared buffers.
    pub fn mem_formats(&self) -> (r: Vec<Fourcc>)
        ensures
            r@ == seq![Fourcc::Argb8888, Fourcc::Xrgb8888],
    {
        vec![Fourcc::Argb8888, Fourcc::Xrgb8888]
    }

    /// The identity that texture caches are keyed by.
    pub fn id(&self) -> (r: usize)
        ensures
            r == 0,
    {
        0
    }

    /// Imports row-major pixels of layout `format`; see [`crate::texture::import_memory`].
    pub fn import_memory(&self, data: &[u8], format: Fourcc, w: i32, h: i32, flipped: bool) -> (r: Result<
        RatatuiTextureHandle,
        RatatuiError,
    >)
        requires
            0 <= w <= u16::MAX && 0 <= h <= u16::MAX ==> data@.len() >= 4 * w * h,
        ensures
            memory_import_ok(unwrap_handle(r), data@, format, w, h),
    {
        into_handle(import_memory(data, format, w, h, flipped))
    }

    /// Imports a client's shared-memory buffer; see [`crate::texture::import_shm_buffer`].
    pub fn import_shm_buffer(&self, data: &[u8], format: u32, w: i32, h: i32, offset: i32, stride: i32) -> (r:
        Result<RatatuiTextureHandle, RatatuiError>)
        ensures
            shm_import_ok(unwrap_handle(r), data@, format, w, h, offset as int, stride as int),
    {
        into_handle(import_shm_buffer(data, format, w, h, offset, stride))
    }

    /// Imports a mapped buffer that another device shares; see [`crate::texture::import_dmabuf`].
    pub fn import_dmabuf(
        &self,
        data: &[u8],
        code: u32,
        modifier: u64,
        w: i32,
        h: i32,
        offset: usize,
        stride: usize,
    ) -> (r: Result<RatatuiTextureHandle, RatatuiError>)
        ensures
            dmabuf_import_ok(unwrap_handle(r), data@, code, modifier, w, h, offset as int, stride as int),
    {
        into_handle(import_dmabuf(data, code, modifier, w, h, offset, stride))
    }
}

impl RatatuiFramebuffer {
    /// Whether the framebuffer has the size of the renderer's terminal.
    pub fn is_compatible_with(&self, renderer: &RatatuiRenderer) -> (r: bool)
        ensures
            r == fits_terminal(*self, renderer.spec_size()),
    {
        let (cols, rows) = self.size();
        let expected = renderer.terminal_size();
        cols == expected.width && rows == expected.height
    }
}

impl RatatuiFrame {
    /// A frame on `framebuffer`, which is first replaced with an empty one of
    /// the terminal's size where the sizes differ.
    pub fn new(renderer: &RatatuiRenderer, framebuffer: RatatuiFramebuffer) -> (r: RatatuiFrame)
        requires
            framebuffer.wf(),
        ensures
            r.framebuffer.wf(),
            fits_terminal(framebuffer, renderer.spec_size()) ==> r.framebuffer == framebuffer,
            !fits_terminal(framebuffer, renderer.spec_size()) ==> is_fresh(r.framebuffer, renderer.spec_size()),
    {
        if framebuffer.is_compatible_with(renderer) {
            RatatuiFrame { framebuffer }
        } else {
            RatatuiFrame { framebuffer: renderer.new_framebuffer() }
        }
    }

    /// Ends the frame: its cells become what the terminal shows, and the
    /// buffer they replace comes back for the next frame.
    pub fn finish(self, renderer: &mut RatatuiRenderer) -> (r: RatatuiFramebuffer)
        requires
            old(renderer).wf(),
            self.framebuffer.wf(),
        ensures
            final(renderer).wf(),
            final(renderer).spec_size() == old(renderer).spec_size(),
            fits_terminal(self.framebuffer, old(renderer).spec_size()) ==> final(renderer).live()
                == self.framebuffer && r == old(renderer).live(),
            !fits_terminal(self.framebuffer, old(renderer).spec_size()) ==> final(renderer).live()
                == old(renderer).live() && is_fresh(r, old(renderer).spec_size()),
    {
        renderer.swap_buffers(self.framebuffer)
    }
}

/// A backend that shows the compositor in a terminal.
#[derive(Debug)]
pub struct RatatuiBackend {
    renderer: RatatuiRenderer,
}

impl RatatuiBackend {
    /// The backend's renderer.
    pub closed spec fn spec_renderer(&self) -> RatatuiRenderer {
        self.renderer
    }

    /// A backend for a terminal of `width` by `height` cells.
    pub fn new(width: u16, height: u16) -> (r: RatatuiBackend)
        ensures
            r.spec_renderer().wf(),
            r.spec_renderer().spec_size() == (TerminalSize { width, height }),
            is_fresh(r.spec_renderer().live(), r.spec_renderer().spec_size()),
    {
        RatatuiBackend { renderer: RatatuiRenderer::new(width, height) }
    }

    /// The backend's renderer, to draw with.
    pub fn renderer(&mut self) -> (r: &mut RatatuiRenderer)
        ensures
            *r == old(self).spec_renderer(),
            final(self).spec_renderer() == *final(r),
    {
        &mut self.renderer
    }

    /// The terminal's size in pixels.
    pub fn window_size(&self) -> (r: Size)
        ensures
            r.w == self.spec_renderer().spec_size().width,
            r.h == 2 * self.spec_renderer().spec_size().height,
    {
        self.renderer.window_size()
    }
}

/// A widget that shows the compositor's scene.
#[derive(Debug)]
pub struct CompositorWidget;

/// The state of a [`CompositorWidget`].
#[derive(Debug)]
pub struct CompositorWidgetState;

} // verus!
