//! Tests for the enum bridge, the error taxonomy, format detection and the
//! image-level operations.

use fast_image::bridge::{FilterTypeEnum, ImageFormatEnum};
use fast_image::codes::{code_of_failure, FailureKind, ImageErrorCode};
use fast_image::image_ops::{
    encode_image, error_to_code, get_metadata, guess_image_format, load_image_from_memory,
    load_image_from_memory_with_format, ColorKind, Image,
};

#[test]
fn format_tags_round_trip() {
    for t in 0u32..7u32 {
        let f = ImageFormatEnum::from_tag(t).expect("tag inside the closed set");
        assert_eq!(f.tag(), t);
    }
    assert!(ImageFormatEnum::from_tag(7).is_none());
    assert!(ImageFormatEnum::from_tag(99).is_none());
}

#[test]
fn format_tags_distinct() {
    let all = [
        ImageFormatEnum::Png,
        ImageFormatEnum::Jpeg,
        ImageFormatEnum::Gif,
        ImageFormatEnum::WebP,
        ImageFormatEnum::Bmp,
        ImageFormatEnum::Ico,
        ImageFormatEnum::Tiff,
    ];
    for i in 0..all.len() {
        for j in 0..all.len() {
            if i != j {
                assert_ne!(all[i].tag(), all[j].tag());
            }
        }
    }
}

#[test]
fn filter_tags_round_trip() {
    for t in 0u32..5u32 {
        let f = FilterTypeEnum::from_tag(t).expect("tag inside the closed set");
        assert_eq!(f.tag(), t);
    }
    assert!(FilterTypeEnum::from_tag(5).is_none());
}

#[test]
fn error_code_wire_values() {
    assert_eq!(ImageErrorCode::Success.code(), 0);
    assert_eq!(ImageErrorCode::InvalidPath.code(), 1);
    assert_eq!(ImageErrorCode::UnsupportedFormat.code(), 2);
    assert_eq!(ImageErrorCode::DecodingError.code(), 3);
    assert_eq!(ImageErrorCode::EncodingError.code(), 4);
    assert_eq!(ImageErrorCode::IoError.code(), 5);
    assert_eq!(ImageErrorCode::InvalidDimensions.code(), 6);
    assert_eq!(ImageErrorCode::InvalidPointer.code(), 7);
    assert_eq!(ImageErrorCode::Unknown.code(), 99);
}

#[test]
fn failure_mapping_total() {
    assert_eq!(code_of_failure(FailureKind::Decoding), ImageErrorCode::DecodingError);
    assert_eq!(code_of_failure(FailureKind::Encoding), ImageErrorCode::EncodingError);
    assert_eq!(code_of_failure(FailureKind::Io), ImageErrorCode::IoError);
    assert_eq!(code_of_failure(FailureKind::Limits), ImageErrorCode::InvalidDimensions);
    assert_eq!(code_of_failure(FailureKind::Unsupported), ImageErrorCode::UnsupportedFormat);
    assert_eq!(code_of_failure(FailureKind::Other), ImageErrorCode::Unknown);
}

#[test]
fn real_collaborator_error_classified() {
    let err = image::guess_format(&[1u8, 2, 3, 4]).expect_err("junk has no magic bytes");
    assert_eq!(error_to_code(&err), ImageErrorCode::UnsupportedFormat);
}

#[test]
fn png_signature_recognized() {
    let buf = [0x89u8, 0x50, 0x4e, 0x47, 0x0d, 0x0a, 0x1a, 0x0a, 0, 0, 0, 0];
    let f = guess_image_format(&buf).expect("PNG signature must be recognized");
    assert_eq!(f, ImageFormatEnum::Png);
    assert_eq!(f.tag(), 0);
}

#[test]
fn junk_format_unsupported() {
    let r = guess_image_format(&[9u8, 9, 9, 9, 9, 9, 9, 9]);
    assert_eq!(r, Err(FailureKind::Unsupported));
}

#[test]
fn metadata_of_grayscale_image() {
    let img = Image::from_dynamic(image::DynamicImage::new_luma8(10, 20));
    let m = get_metadata(&img);
    assert_eq!(m.width, 10);
    assert_eq!(m.height, 20);
    assert_eq!(m.color_type, 0);
}

#[test]
fn metadata_color_tags() {
    let rgb = Image::from_dynamic(image::DynamicImage::new_rgb8(3, 3));
    assert_eq!(get_metadata(&rgb).color_type, 2);
    assert_eq!(rgb.color(), ColorKind::Rgb);
    let rgba = Image::from_dynamic(image::DynamicImage::new_rgba8(3, 3));
    assert_eq!(get_metadata(&rgba).color_type, 3);
    let la = Image::from_dynamic(image::DynamicImage::new_luma_a8(3, 3));
    assert_eq!(get_metadata(&la).color_type, 1);
}

#[test]
fn encode_succeeds_with_nonzero_length() {
    let img = Image::from_dynamic(image::DynamicImage::new_rgb8(8, 8));
    let bytes = encode_image(&img, ImageFormatEnum::Png.to_image_format())
        .expect("PNG encoding of an RGB image succeeds");
    assert!(!bytes.is_empty());
}

#[test]
fn encode_decode_round_trip_keeps_metadata() {
    let img = Image::from_dynamic(image::DynamicImage::new_rgb8(20, 10));
    let before = get_metadata(&img);
    let bytes = encode_image(&img, ImageFormatEnum::Png.to_image_format())
        .expect("PNG encoding of an RGB image succeeds");
    let back = load_image_from_memory(&bytes).expect("a fresh PNG decodes");
    let after = get_metadata(&back);
    assert_eq!(before, after);
    assert_eq!(after.width, 20);
    assert_eq!(after.height, 10);
    assert_eq!(after.color_type, 2);
}

#[test]
fn decode_with_explicit_format() {
    let img = Image::from_dynamic(image::DynamicImage::new_luma8(6, 4));
    let bytes = encode_image(&img, ImageFormatEnum::Png.to_image_format())
        .expect("PNG encoding of a grayscale image succeeds");
    let back = load_image_from_memory_with_format(&bytes, ImageFormatEnum::Png)
        .expect("a fresh PNG decodes as PNG");
    let m = get_metadata(&back);
    assert_eq!(m.width, 6);
    assert_eq!(m.height, 4);
    assert_eq!(m.color_type, 0);
}

#[test]
fn decode_garbage_fails() {
    let r = load_image_from_memory(&[1u8, 2, 3, 4, 5]);
    assert!(r.is_err());
}
