//! Tests for the opaque handle model, the buffer transfer protocol and the
//! dispatch operations built on them.

use fast_image::bridge::{FilterTypeEnum, ImageFormatEnum};
use fast_image::buffers::BufferStore;
use fast_image::codes::ImageErrorCode;
use fast_image::dispatch::{encode, guess_format};
use fast_image::handles::{HandleStore, ImageHandle};
use fast_image::image_ops::Image;

fn store_with_rgb(width: u32, height: u32) -> (HandleStore, ImageHandle) {
    let mut store = HandleStore::new();
    let h = store.create(Image::from_dynamic(image::DynamicImage::new_rgb8(width, height)));
    (store, h)
}

fn metadata_of(store: &HandleStore, h: ImageHandle) -> (u32, u32, u8) {
    let (code, m) = store.metadata(h);
    assert_eq!(code, ImageErrorCode::Success);
    let m = m.expect("a Success status writes the record");
    (m.width, m.height, m.color_type)
}

#[test]
fn free_null_is_noop() {
    let mut store = HandleStore::new();
    store.free(ImageHandle::null());
    let (code, m) = store.metadata(ImageHandle::null());
    assert_eq!(code, ImageErrorCode::InvalidPointer);
    assert!(m.is_none());
}

#[test]
fn free_then_double_free_is_inert() {
    let (mut store, h) = store_with_rgb(4, 4);
    assert!(store.live(h));
    store.free(h);
    assert!(!store.live(h));
    assert!(store.get(h).is_none());
    store.free(h);
    assert!(!store.live(h));
}

#[test]
fn free_leaves_other_handles_alone() {
    let mut store = HandleStore::new();
    let h1 = store.create(Image::from_dynamic(image::DynamicImage::new_rgb8(3, 3)));
    let h2 = store.create(Image::from_dynamic(image::DynamicImage::new_luma8(5, 7)));
    store.free(h1);
    assert!(!store.live(h1));
    assert_eq!(metadata_of(&store, h2), (5, 7, 0));
}

#[test]
fn null_input_yields_null_output() {
    let mut store = HandleStore::new();
    let null = ImageHandle::null();
    assert!(store.resize(null, 10, 10, FilterTypeEnum::Nearest).is_null());
    assert!(store.resize_exact(null, 10, 10, FilterTypeEnum::Nearest).is_null());
    assert!(store.resize_to_fit(null, 10, 10, FilterTypeEnum::Nearest).is_null());
    assert!(store.crop(null, 0, 0, 5, 5).is_null());
    assert!(store.rotate_90(null).is_null());
    assert!(store.rotate_180(null).is_null());
    assert!(store.rotate_270(null).is_null());
    assert!(store.flip_horizontal(null).is_null());
    assert!(store.flip_vertical(null).is_null());
    assert!(store.brightness(null, 10).is_null());
    assert!(store.grayscale(null).is_null());
    assert_eq!(store.invert(null), ImageErrorCode::InvalidPointer);
}

#[test]
fn stale_handle_yields_null_output() {
    let (mut store, h) = store_with_rgb(4, 4);
    store.free(h);
    assert!(store.rotate_90(h).is_null());
    assert!(store.resize_exact(h, 2, 2, FilterTypeEnum::Nearest).is_null());
    assert_eq!(store.invert(h), ImageErrorCode::InvalidPointer);
}

#[test]
fn resize_exact_fifty_by_fifty() {
    let (mut store, h) = store_with_rgb(100, 80);
    let out = store.resize_exact(h, 50, 50, FilterTypeEnum::Triangle);
    assert!(!out.is_null());
    assert_ne!(out.raw(), h.raw());
    assert_eq!(metadata_of(&store, out), (50, 50, 2));
    assert_eq!(metadata_of(&store, h), (100, 80, 2));
}

#[test]
fn resize_keeps_aspect_within_bounds() {
    let (mut store, h) = store_with_rgb(100, 50);
    let out = store.resize(h, 10, 10, FilterTypeEnum::Nearest);
    assert!(!out.is_null());
    assert_eq!(metadata_of(&store, out), (10, 5, 2));
}

#[test]
fn resize_to_fit_fills_bounds() {
    let (mut store, h) = store_with_rgb(100, 50);
    let out = store.resize_to_fit(h, 10, 10, FilterTypeEnum::Nearest);
    assert!(!out.is_null());
    assert_eq!(metadata_of(&store, out), (10, 10, 2));
}

#[test]
fn resize_to_fit_rejects_zero_bound() {
    let (mut store, h) = store_with_rgb(10, 10);
    assert!(store.resize_to_fit(h, 0, 10, FilterTypeEnum::Nearest).is_null());
    assert!(store.resize_to_fit(h, 10, 0, FilterTypeEnum::Nearest).is_null());
    assert_eq!(metadata_of(&store, h), (10, 10, 2));
}

#[test]
fn crop_clamps_to_bounds() {
    let (mut store, h) = store_with_rgb(10, 10);
    let inside = store.crop(h, 4, 4, 10, 10);
    assert_eq!(metadata_of(&store, inside), (6, 6, 2));
    let outside = store.crop(h, 20, 0, 5, 5);
    assert!(!outside.is_null());
    assert_eq!(metadata_of(&store, outside), (0, 5, 2));
}

#[test]
fn rotations_swap_or_keep_axes() {
    let (mut store, h) = store_with_rgb(30, 20);
    let q = store.rotate_90(h);
    assert_eq!(metadata_of(&store, q), (20, 30, 2));
    let half = store.rotate_180(h);
    assert_eq!(metadata_of(&store, half), (30, 20, 2));
    let q3 = store.rotate_270(h);
    assert_eq!(metadata_of(&store, q3), (20, 30, 2));
    assert_eq!(metadata_of(&store, h), (30, 20, 2));
}

#[test]
fn flips_and_brightness_keep_metadata() {
    let (mut store, h) = store_with_rgb(12, 9);
    let a = store.flip_horizontal(h);
    let b = store.flip_vertical(h);
    let c = store.brightness(h, 40);
    assert_eq!(metadata_of(&store, a), (12, 9, 2));
    assert_eq!(metadata_of(&store, b), (12, 9, 2));
    assert_eq!(metadata_of(&store, c), (12, 9, 2));
}

#[test]
fn grayscale_reports_luma() {
    let (mut store, h) = store_with_rgb(7, 5);
    let g = store.grayscale(h);
    assert_eq!(metadata_of(&store, g), (7, 5, 0));
    assert_eq!(metadata_of(&store, h), (7, 5, 2));
}

#[test]
fn invert_keeps_handle_and_metadata() {
    let (mut store, h) = store_with_rgb(6, 6);
    assert_eq!(store.invert(h), ImageErrorCode::Success);
    assert!(store.live(h));
    assert_eq!(metadata_of(&store, h), (6, 6, 2));
}

#[test]
fn encode_transfers_and_release_returns() {
    let (store, h) = store_with_rgb(8, 8);
    let mut buffers = BufferStore::new();
    let r = encode(&store, &mut buffers, h, ImageFormatEnum::Png);
    assert_eq!(r.error_code, ImageErrorCode::Success);
    assert!(r.data != 0);
    assert!(r.len > 0);
    assert!(buffers.live(r.data));
    assert_eq!(buffers.release(r.data, r.len), ImageErrorCode::Success);
    assert!(!buffers.live(r.data));
    assert_eq!(buffers.release(r.data, r.len), ImageErrorCode::InvalidPointer);
}

#[test]
fn release_demands_exact_length() {
    let (store, h) = store_with_rgb(8, 8);
    let mut buffers = BufferStore::new();
    let r = encode(&store, &mut buffers, h, ImageFormatEnum::Png);
    assert_eq!(r.error_code, ImageErrorCode::Success);
    assert_eq!(buffers.release(r.data, r.len + 1), ImageErrorCode::InvalidPointer);
    assert!(buffers.live(r.data));
    assert_eq!(buffers.release(r.data, r.len), ImageErrorCode::Success);
}

#[test]
fn release_null_is_noop() {
    let mut buffers = BufferStore::new();
    assert_eq!(buffers.release(0, 0), ImageErrorCode::Success);
    assert_eq!(buffers.release(3, 10), ImageErrorCode::InvalidPointer);
}

#[test]
fn encode_with_dead_handle_is_invalid_pointer() {
    let (mut store, h) = store_with_rgb(8, 8);
    store.free(h);
    let mut buffers = BufferStore::new();
    let r = encode(&store, &mut buffers, h, ImageFormatEnum::Png);
    assert_eq!(r.error_code, ImageErrorCode::InvalidPointer);
    assert_eq!(r.data, 0);
    assert_eq!(r.len, 0);
    let null = encode(&store, &mut buffers, ImageHandle::null(), ImageFormatEnum::Png);
    assert_eq!(null.error_code, ImageErrorCode::InvalidPointer);
}

#[test]
fn guess_format_dispatch_png() {
    let buf = [0x89u8, 0x50, 0x4e, 0x47, 0x0d, 0x0a, 0x1a, 0x0a, 1, 2, 3];
    let (code, tag) = guess_format(&buf);
    assert_eq!(code, ImageErrorCode::Success);
    assert_eq!(tag, Some(0));
}

#[test]
fn guess_format_dispatch_rejects_empty_and_junk() {
    let (code, tag) = guess_format(&[]);
    assert_eq!(code, ImageErrorCode::InvalidPointer);
    assert!(tag.is_none());
    let (code, tag) = guess_format(&[5u8, 5, 5, 5, 5, 5, 5, 5]);
    assert_eq!(code, ImageErrorCode::UnsupportedFormat);
    assert!(tag.is_none());
}

#[test]
fn guess_format_deterministic_on_equal_bytes() {
    let buf = [0x89u8, 0x50, 0x4e, 0x47, 0x0d, 0x0a, 0x1a, 0x0a, 7, 7];
    let first = guess_format(&buf);
    let second = guess_format(&buf.clone());
    assert_eq!(first, second);
}

#[test]
fn load_from_memory_garbage_yields_null() {
    let mut store = HandleStore::new();
    let h = store.load_from_memory(&[1u8, 2, 3]);
    assert!(h.is_null());
}

#[test]
fn load_from_memory_roundtrip_yields_live_handle() {
    let img = Image::from_dynamic(image::DynamicImage::new_rgb8(9, 4));
    let bytes = fast_image::image_ops::encode_image(&img, ImageFormatEnum::Png.to_image_format())
        .expect("PNG encoding of an RGB image succeeds");
    let mut store = HandleStore::new();
    let h = store.load_from_memory(&bytes);
    assert!(!h.is_null());
    assert_eq!(metadata_of(&store, h), (9, 4, 2));
    let h2 = store.load_from_memory_with_format(&bytes, ImageFormatEnum::Png);
    assert!(!h2.is_null());
    assert_eq!(metadata_of(&store, h2), (9, 4, 2));
}

#[test]
fn load_nonexistent_path_yields_null() {
    let decoded = image::open("/nonexistent/path.png").ok().map(Image::from_dynamic);
    assert!(decoded.is_none());
    let mut store = HandleStore::new();
    let h = store.register_loaded(decoded);
    assert!(h.is_null());
}

#[test]
fn register_loaded_some_yields_live_handle() {
    let mut store = HandleStore::new();
    let h = store.register_loaded(Some(Image::from_dynamic(image::DynamicImage::new_luma8(2, 3))));
    assert!(!h.is_null());
    assert_eq!(metadata_of(&store, h), (2, 3, 0));
}
