use ratatui_render::color::{blend_channel_exec, blend_onto, color_to_ratatui, Color, Color32};
use ratatui_render::error::RatatuiError;
use ratatui_render::format::{encode, Fourcc, Pixel};
use ratatui_render::framebuffer::{Cell, Rect, HALF_BLOCK};
use ratatui_render::renderer::{RatatuiBackend, RatatuiRenderer};
use ratatui_render::texture::{import_dmabuf, import_memory, import_shm_buffer};

const ALL_FORMATS: [Fourcc; 8] = [
    Fourcc::Argb8888,
    Fourcc::Xrgb8888,
    Fourcc::Rgba8888,
    Fourcc::Rgbx8888,
    Fourcc::Abgr8888,
    Fourcc::Xbgr8888,
    Fourcc::Bgra8888,
    Fourcc::Bgrx8888,
];

fn le_bytes(words: &[u32]) -> Vec<u8> {
    words.iter().flat_map(|w| w.to_le_bytes()).collect()
}

#[test]
fn round_trip_all_formats() {
    let samples: [(u8, u8, u8, u8); 5] =
        [(0, 0, 0, 0), (255, 255, 255, 255), (1, 2, 3, 4), (200, 100, 50, 25), (0x12, 0x34, 0x56, 0x78)];
    for f in ALL_FORMATS {
        for (r, g, b, a) in samples {
            let p = Pixel::new(f, encode(f, r, g, b, a));
            assert_eq!((p.r(), p.g(), p.b()), (r, g, b));
            let expected_a = if f.has_alpha() { a } else { 255 };
            assert_eq!(p.a(), expected_a);
        }
    }
}

#[test]
fn opaque_formats_ignore_padding() {
    for f in [Fourcc::Xrgb8888, Fourcc::Rgbx8888, Fourcc::Xbgr8888, Fourcc::Bgrx8888] {
        for w in [0u32, 0x1234_5678, 0xffff_ffff, 0x00ff_00ff] {
            assert_eq!(Pixel::new(f, w).a(), 255);
        }
    }
}

#[test]
fn channel_positions() {
    let w = 0x1122_3344u32;
    assert_eq!(Pixel::new(Fourcc::Argb8888, w).into_argb8888(), 0x1122_3344);
    assert_eq!(Pixel::new(Fourcc::Xrgb8888, w).into_argb8888(), 0xff22_3344);
    assert_eq!(Pixel::new(Fourcc::Rgba8888, w).into_argb8888(), 0x4411_2233);
    assert_eq!(Pixel::new(Fourcc::Abgr8888, w).into_argb8888(), 0x1144_3322);
    assert_eq!(Pixel::new(Fourcc::Bgra8888, w).into_argb8888(), 0x4433_2211);
    assert_eq!(Pixel::new(Fourcc::Bgrx8888, w).into_argb8888(), 0xff33_2211);
}

#[test]
fn format_codes() {
    for f in ALL_FORMATS {
        assert_eq!(Fourcc::from_code(f.code()), Some(f));
    }
    assert_eq!(Fourcc::Argb8888.code(), 0x3432_5241);
    assert_eq!(Fourcc::from_code(0), None);
}

#[test]
fn worked_example_cells() {
    let mut renderer = RatatuiRenderer::new(2, 1);
    let data = le_bytes(&[0xFFFF0000, 0xFF00FF00, 0xFF0000FF, 0xFFFFFFFF]);
    let tex = renderer.import_memory(&data, Fourcc::Argb8888, 2, 2, false).unwrap();
    let mut frame = renderer.render(renderer.new_framebuffer());
    frame.render_texture_from_to(&tex, Rect::new(0, 0, 2, 2), Rect::new(0, 0, 2, 2), &[Rect::new(0, 0, 2, 2)], 255);
    let c0 = frame.framebuffer.cell(0, 0);
    let c1 = frame.framebuffer.cell(1, 0);
    assert_eq!(c0.bg, Color::Rgb(255, 0, 0));
    assert_eq!(c0.fg, Color::Rgb(0, 0, 255));
    assert_eq!(c1.bg, Color::Rgb(0, 255, 0));
    assert_eq!(c1.fg, Color::Rgb(255, 255, 255));
    assert_eq!(c0.symbol, HALF_BLOCK);
    let back = frame.finish(&mut renderer);
    assert_eq!(back.size(), (2, 1));
}

#[test]
fn quantization_shape() {
    let renderer = RatatuiRenderer::new(4, 3);
    let data = le_bytes(&[0xFF10_2030; 4]);
    let tex = renderer.import_memory(&data, Fourcc::Xrgb8888, 2, 2, false).unwrap();
    let mut frame = renderer.render(renderer.new_framebuffer());
    frame.render_texture_from_to(&tex, Rect::new(0, 0, 2, 2), Rect::new(0, 0, 2, 2), &[Rect::new(0, 0, 4, 6)], 255);
    for row in 0..3u16 {
        for col in 0..4u16 {
            let cell = frame.framebuffer.cell(col, row);
            if row == 0 && col < 2 {
                assert_eq!(cell, Cell { symbol: HALF_BLOCK, fg: Color::Rgb(0x10, 0x20, 0x30), bg: Color::Rgb(0x10, 0x20, 0x30) });
            } else {
                assert_eq!(cell, Cell::empty());
            }
        }
    }
}

#[test]
fn damage_disjoint_from_dst_changes_nothing() {
    let renderer = RatatuiRenderer::new(4, 2);
    let mut frame = renderer.render(renderer.new_framebuffer());
    frame.clear(Color32 { r: 1, g: 2, b: 3, a: 255 }, &[Rect::new(0, 0, 4, 4)]);
    let before: Vec<Cell> = (0..2u16).flat_map(|r| (0..4u16).map(move |c| (c, r))).map(|(c, r)| frame.framebuffer.cell(c, r)).collect();
    frame.draw_solid(Rect::new(0, 0, 2, 2), &[Rect::new(2, 2, 2, 2)], Color32 { r: 9, g: 9, b: 9, a: 255 });
    let after: Vec<Cell> = (0..2u16).flat_map(|r| (0..4u16).map(move |c| (c, r))).map(|(c, r)| frame.framebuffer.cell(c, r)).collect();
    assert_eq!(before, after);
}

#[test]
fn draw_solid_paints_intersection() {
    let renderer = RatatuiRenderer::new(4, 2);
    let mut frame = renderer.render(renderer.new_framebuffer());
    frame.draw_solid(Rect::new(0, 0, 2, 4), &[Rect::new(1, 1, 3, 3)], Color32 { r: 9, g: 8, b: 7, a: 0 });
    let c = Color::Rgb(9, 8, 7);
    assert_eq!(frame.framebuffer.cell(0, 0), Cell::empty());
    assert_eq!(frame.framebuffer.cell(1, 0), Cell { symbol: HALF_BLOCK, fg: c, bg: Color::Reset });
    assert_eq!(frame.framebuffer.cell(1, 1), Cell { symbol: HALF_BLOCK, fg: c, bg: c });
    assert_eq!(frame.framebuffer.cell(2, 1), Cell::empty());
}

#[test]
fn resize_gives_empty_framebuffer() {
    let mut renderer = RatatuiRenderer::new(3, 2);
    let mut frame = renderer.render(renderer.new_framebuffer());
    frame.clear(Color32 { r: 5, g: 5, b: 5, a: 255 }, &[Rect::new(0, 0, 3, 4)]);
    let old = frame.framebuffer;
    renderer.set_terminal_size(5, 3);
    let frame = renderer.render(old);
    assert_eq!(frame.framebuffer.size(), (5, 3));
    for row in 0..3u16 {
        for col in 0..5u16 {
            assert_eq!(frame.framebuffer.cell(col, row), Cell::empty());
        }
    }
    assert_eq!(renderer.window_size().w, 5);
    assert_eq!(renderer.window_size().h, 6);
}

#[test]
fn partial_row_blend_touches_background_only() {
    let renderer = RatatuiRenderer::new(1, 2);
    let mut frame = renderer.render(renderer.new_framebuffer());
    frame.clear(Color32 { r: 10, g: 20, b: 30, a: 255 }, &[Rect::new(0, 0, 1, 4)]);
    let data = le_bytes(&[0xFFC8_C8C8; 3]);
    let tex = renderer.import_memory(&data, Fourcc::Argb8888, 1, 3, false).unwrap();
    frame.render_texture_from_to(&tex, Rect::new(0, 0, 1, 3), Rect::new(0, 1, 1, 3), &[Rect::new(0, 0, 1, 4)], 255);
    let first = frame.framebuffer.cell(0, 0);
    assert_eq!(first.fg, Color::Rgb(10, 20, 30));
    assert_eq!(first.bg, Color::Rgb(200, 200, 200));
    let second = frame.framebuffer.cell(0, 1);
    assert_eq!(second.fg, Color::Rgb(200, 200, 200));
    assert_eq!(second.bg, Color::Rgb(200, 200, 200));
}

#[test]
fn trailing_row_blend_touches_foreground_only() {
    let renderer = RatatuiRenderer::new(1, 2);
    let mut frame = renderer.render(renderer.new_framebuffer());
    frame.clear(Color32 { r: 10, g: 20, b: 30, a: 255 }, &[Rect::new(0, 0, 1, 4)]);
    let data = le_bytes(&[0xFFC8_C8C8; 3]);
    let tex = renderer.import_memory(&data, Fourcc::Argb8888, 1, 3, false).unwrap();
    frame.render_texture_from_to(&tex, Rect::new(0, 0, 1, 3), Rect::new(0, 0, 1, 3), &[Rect::new(0, 0, 1, 4)], 255);
    let last = frame.framebuffer.cell(0, 1);
    assert_eq!(last.bg, Color::Rgb(10, 20, 30));
    assert_eq!(last.fg, Color::Rgb(200, 200, 200));
}

#[test]
fn half_alpha_blend_rounds_to_nearest() {
    // weight 255 * 128 of 65025: 100 + (200 - 100) * 128 / 255 = 150.196...
    assert_eq!(blend_channel_exec(100, 200, 255 * 128), 150);
    assert_eq!(blend_channel_exec(0, 255, 65025), 255);
    assert_eq!(blend_channel_exec(7, 255, 0), 7);
    assert_eq!(blend_onto(Color::Rgb(0, 0, 0), 0x80FF_FFFF, 255), Color::Rgb(128, 128, 128));
    assert_eq!(blend_onto(Color::Reset, 0x0011_2233, 0), Color::Rgb(0x11, 0x22, 0x33));
    assert_eq!(color_to_ratatui(Color32 { r: 1, g: 2, b: 3, a: 4 }), Color::Rgb(1, 2, 3));
}

#[test]
fn blit_scales_source_by_nearest_pixel() {
    let renderer = RatatuiRenderer::new(4, 1);
    let data = le_bytes(&[0xFF00_0001, 0xFF00_0002]);
    let tex = renderer.import_memory(&data, Fourcc::Argb8888, 2, 1, false).unwrap();
    let mut frame = renderer.render(renderer.new_framebuffer());
    frame.render_texture_from_to(&tex, Rect::new(0, 0, 2, 1), Rect::new(0, 0, 4, 2), &[Rect::new(0, 0, 4, 2)], 255);
    let blues: Vec<Color> = (0..4u16).map(|c| frame.framebuffer.cell(c, 0).fg).collect();
    assert_eq!(blues, vec![Color::Rgb(0, 0, 1), Color::Rgb(0, 0, 2), Color::Rgb(0, 0, 2), Color::Rgb(0, 0, 2)]);
}

#[test]
fn blit_scaling_picks_nearest_source_pixel() {
    let renderer = RatatuiRenderer::new(4, 1);
    let data = le_bytes(&[0xFF00_0001, 0xFF00_0002, 0xFF00_0003]);
    let tex = renderer.import_memory(&data, Fourcc::Argb8888, 3, 1, false).unwrap();
    let mut frame = renderer.render(renderer.new_framebuffer());
    frame.render_texture_from_to(&tex, Rect::new(0, 0, 3, 1), Rect::new(0, 0, 4, 2), &[Rect::new(0, 0, 4, 2)], 255);
    let blues: Vec<Color> = (0..4u16).map(|c| frame.framebuffer.cell(c, 0).bg).collect();
    // column offsets 0..4 scaled by 3/4 are 0, 0.75, 1.5 and 2.25
    assert_eq!(blues, vec![Color::Rgb(0, 0, 1), Color::Rgb(0, 0, 2), Color::Rgb(0, 0, 3), Color::Rgb(0, 0, 3)]);
}

#[test]
fn import_errors() {
    assert_eq!(import_memory(&[], Fourcc::Argb8888, 70000, 1, false).unwrap_err(), RatatuiError::TextureTooBig(70000, 1));
    assert_eq!(import_memory(&[], Fourcc::Argb8888, 1, -1, false).unwrap_err(), RatatuiError::TextureTooBig(1, -1));
    assert_eq!(import_shm_buffer(&[0; 16], 7, 2, 2, 0, 8).unwrap_err(), RatatuiError::UnsupportedWlPixelFormat(7));
    assert_eq!(import_shm_buffer(&[0; 15], 0, 2, 2, 0, 8).unwrap_err(), RatatuiError::BufferAccessError);
    assert_eq!(import_dmabuf(&[0; 16], 7, 0, 2, 2, 0, 8).unwrap_err(), RatatuiError::UnsupportedPixelFormat(7));
    assert_eq!(import_dmabuf(&[0; 16], Fourcc::Argb8888.code(), 1, 2, 2, 0, 8).unwrap_err(), RatatuiError::DmaBufImportNotSupported);
    assert_eq!(import_dmabuf(&[0; 16], Fourcc::Argb8888.code(), 0, 2, 2, 4, 8).unwrap_err(), RatatuiError::BufferAccessError);
}

#[test]
fn import_with_stride_and_offset() {
    // one padding word before the image, rows of three words of which two are pixels
    let data = le_bytes(&[0, 0x0102_0304, 0x0506_0708, 0, 0x090A_0B0C, 0x0D0E_0F10]);
    let tex = import_dmabuf(&data, Fourcc::Xrgb8888.code(), 0, 2, 2, 4, 12).unwrap();
    assert_eq!((tex.width(), tex.height()), (2, 2));
    assert_eq!(tex.get_pixel(0, 0), 0xFF02_0304);
    assert_eq!(tex.get_pixel(1, 0), 0xFF06_0708);
    assert_eq!(tex.get_pixel(0, 1), 0xFF0A_0B0C);
    assert_eq!(tex.get_pixel(5, 9), 0xFF0E_0F10);
    let shm = import_shm_buffer(&data, 0, 2, 2, 4, 12).unwrap();
    assert_eq!(shm.get_pixel(1, 1), 0x0D0E_0F10);
    let mem = import_memory(&le_bytes(&[0x11, 0x22]), Fourcc::Abgr8888, 2, 1, false).unwrap();
    assert_eq!(mem.get_pixel(0, 0), 0x0000_0011 << 16);
    assert_eq!(mem.get_pixel(-3, 0), 0x0011_0000);
}

#[test]
fn swap_buffers_commits_or_discards() {
    let mut renderer = RatatuiRenderer::new(2, 1);
    let mut frame = renderer.render(renderer.new_framebuffer());
    frame.fill_rect(&Rect::new(0, 0, 2, 2), Color::Rgb(1, 1, 1));
    let back = frame.finish(&mut renderer);
    assert_eq!(back.cell(0, 0), Cell::empty());
    let wrong = ratatui_render::framebuffer::RatatuiFramebuffer::empty(3, 3);
    let fresh = renderer.swap_buffers(wrong);
    assert_eq!(fresh.size(), (2, 1));
    assert_eq!(renderer.mem_formats(), vec![Fourcc::Argb8888, Fourcc::Xrgb8888]);
    let mut backend = RatatuiBackend::new(7, 4);
    assert_eq!(backend.window_size().h, 8);
    assert_eq!(backend.renderer().terminal_size().width, 7);
}
