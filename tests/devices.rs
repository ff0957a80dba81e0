use ratatui_render::color::Color;
use ratatui_render::error::RatatuiError;
use ratatui_render::format::{Fourcc, Pixel};
use ratatui_render::framebuffer::Rect;
use ratatui_render::input::{Device, DeviceCapability};
use ratatui_render::memory::{find_memory_type, select_memory_type, MEMORY_PROPERTY_DEVICE_LOCAL};
use ratatui_render::texture::{import_memory, import_shm_buffer_into, RatatuiTextureHandle};

#[test]
fn device_reports_keyboard_and_pointer() {
    let d = Device;
    assert_eq!(d.id(), "ratatui-input-device-id");
    assert_eq!(d.name(), "ratatui-input-device");
    assert!(d.has_capability(DeviceCapability::Keyboard));
    assert!(d.has_capability(DeviceCapability::Pointer));
    assert!(!d.has_capability(DeviceCapability::Touch));
    assert_eq!(d.usb_id(), None);
}

#[test]
fn pixel_into_color_drops_alpha() {
    let c: Color = Pixel::new(Fourcc::Rgba8888, 0x1020_3040).into();
    assert_eq!(c, Color::Rgb(0x10, 0x20, 0x30));
}

#[test]
fn memory_type_prefers_device_local() {
    let flags = [0u32, 6, 1, 7];
    assert_eq!(find_memory_type(0b1111, &flags, MEMORY_PROPERTY_DEVICE_LOCAL), Some(2));
    assert_eq!(find_memory_type(0b1011, &flags, MEMORY_PROPERTY_DEVICE_LOCAL), Some(3));
    assert_eq!(find_memory_type(0b0011, &flags, MEMORY_PROPERTY_DEVICE_LOCAL), None);
    assert_eq!(select_memory_type(0b1111, &flags), Some(2));
    assert_eq!(select_memory_type(0b0010, &flags), Some(1));
    assert_eq!(select_memory_type(0b10000, &flags), None);
    assert_eq!(find_memory_type(0b1111, &flags, 6), Some(1));
}

#[test]
fn update_memory_rewrites_region_only() {
    let old: Vec<u8> = [1u32, 2, 3, 4, 5, 6].iter().flat_map(|w| w.to_le_bytes()).collect();
    let new: Vec<u8> = [11u32, 12, 13, 14, 15, 16].iter().flat_map(|w| w.to_le_bytes()).collect();
    let mut tex = import_memory(&old, Fourcc::Argb8888, 3, 2, false).unwrap();
    tex.update_memory(&new, Fourcc::Argb8888, Rect::new(1, 1, 5, 5));
    assert_eq!(tex.get_pixel(0, 0), 1);
    assert_eq!(tex.get_pixel(1, 0), 2);
    assert_eq!(tex.get_pixel(0, 1), 4);
    assert_eq!(tex.get_pixel(1, 1), 15);
    assert_eq!(tex.get_pixel(2, 1), 16);
    tex.update_memory(&new, Fourcc::Xrgb8888, Rect::new(0, 0, 1, 1));
    assert_eq!(tex.get_pixel(0, 0), 0xFF00_000B);
    let handle = RatatuiTextureHandle::from(tex);
    assert_eq!((handle.width(), handle.height()), (3, 2));
    assert_eq!(handle.format(), Some(Fourcc::Argb8888));
}

#[test]
fn cached_shm_import_updates_damage_in_place() {
    let first: Vec<u8> = [1u32, 2, 3, 4].iter().flat_map(|w| w.to_le_bytes()).collect();
    let second: Vec<u8> = [11u32, 12, 13, 14].iter().flat_map(|w| w.to_le_bytes()).collect();
    let mut cache = None;
    assert_eq!(import_shm_buffer_into(&mut cache, &first, 0, 2, 2, 0, 8, &[]), Ok(()));
    let t = cache.as_ref().unwrap();
    assert_eq!((t.get_pixel(0, 0), t.get_pixel(1, 1)), (1, 4));
    // same size: only the damaged pixel is decoded again
    assert_eq!(import_shm_buffer_into(&mut cache, &second, 0, 2, 2, 0, 8, &[Rect::new(1, 0, 1, 1)]), Ok(()));
    let t = cache.as_ref().unwrap();
    assert_eq!((t.get_pixel(0, 0), t.get_pixel(1, 0), t.get_pixel(1, 1)), (1, 12, 4));
    // another size: a new texture replaces the cached one
    assert_eq!(import_shm_buffer_into(&mut cache, &second, 1, 1, 2, 0, 8, &[]), Ok(()));
    let t = cache.as_ref().unwrap();
    assert_eq!((t.width(), t.height()), (1, 2));
    assert_eq!(t.get_pixel(0, 1), 0xFF00_000D);
    // an error leaves the slot alone
    assert_eq!(import_shm_buffer_into(&mut cache, &second, 5, 1, 2, 0, 8, &[]), Err(RatatuiError::UnsupportedWlPixelFormat(5)));
    assert_eq!(cache.as_ref().unwrap().width(), 1);
}
