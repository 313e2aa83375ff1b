use photag::image::{
    derivative_size, resize_for_derivatives, resize_image, scanline, CodecError, Marker, RawImage,
    LAZY_QUALITY, LAZY_SIZE, MEMBER_QUALITY, MEMBER_SIZE, NORMAL_QUALITY, NORMAL_SIZE,
    THUMBNAIL_QUALITY, THUMBNAIL_SIZE,
};

fn picture(width: u32, height: u32) -> RawImage {
    let mut pixels = Vec::new();
    for y in 0..height {
        for x in 0..width {
            pixels.push((x % 256) as u8);
            pixels.push((y % 256) as u8);
            pixels.push(((x + y) % 256) as u8);
        }
    }
    RawImage {
        width,
        height,
        pixels,
        markers: vec![Marker { code: 0xE1, data: vec![1, 2, 3] }],
    }
}

#[test]
fn derivative_size_of_landscape_source() {
    assert_eq!(derivative_size(4000, 3000, 600), (600, 450));
}

#[test]
fn derivative_size_truncates() {
    assert_eq!(derivative_size(3, 2, 10), (10, 6));
    assert_eq!(derivative_size(1000, 333, 32), (32, 10));
    assert_eq!(derivative_size(2, 3, 10), (6, 10));
}

#[test]
fn derivative_size_enlarges_small_source() {
    assert_eq!(derivative_size(10, 5, 600), (600, 300));
}

#[test]
fn derivative_size_of_empty_source() {
    assert_eq!(derivative_size(0, 0, 600), (0, 0));
    assert_eq!(derivative_size(1000, 1, 32), (32, 0));
}

#[test]
fn resize_image_gives_scaled_size_and_keeps_markers() {
    let source = picture(40, 30);
    let out = resize_image(&source, 8).unwrap();
    assert_eq!((out.width, out.height), (8, 6));
    assert_eq!(out.pixels.len(), 8 * 6 * 3);
    assert_eq!(out.markers, source.markers);
    assert_ne!(out.pixels, source.pixels);
}

#[test]
fn resize_image_refuses_bad_buffer() {
    let mut source = picture(4, 4);
    source.pixels.pop();
    assert_eq!(resize_image(&source, 8), Err(CodecError::BadBuffer));
}

#[test]
fn resize_image_refuses_empty_result() {
    let source = picture(1000, 1);
    assert_eq!(resize_image(&source, 32), Err(CodecError::EmptyImage));
    let none = picture(0, 0);
    assert_eq!(resize_image(&none, 32), Err(CodecError::EmptyImage));
}

#[test]
fn resize_image_refuses_too_large_result() {
    let source = picture(2, 2);
    assert_eq!(resize_image(&source, 70_000), Err(CodecError::TooLarge));
}

#[test]
fn scanline_is_one_row() {
    let source = picture(3, 2);
    assert_eq!(scanline(&source, 0), Some(&source.pixels[0..9]));
    assert_eq!(scanline(&source, 1), Some(&source.pixels[9..18]));
    assert_eq!(scanline(&source, 2), None);
}

#[test]
fn both_derivatives_come_from_one_picture() {
    let source = picture(64, 48);
    let (lazy, normal) = resize_for_derivatives(&source).unwrap();
    assert_eq!((lazy.width, lazy.height), (32, 24));
    assert_eq!(lazy.pixels.len(), 32 * 24 * 3);
    assert_eq!((normal.width, normal.height), (2048, 1536));
    assert_eq!(normal.pixels.len(), 2048 * 1536 * 3);
    assert_eq!(lazy.markers, source.markers);
    assert_eq!(normal.markers, source.markers);
}

#[test]
fn no_derivative_where_one_cannot_be_made() {
    let flat = picture(100, 1);
    assert_eq!(resize_for_derivatives(&flat), Err(CodecError::EmptyImage));
    let mut broken = picture(4, 4);
    broken.pixels.push(0);
    assert_eq!(resize_for_derivatives(&broken), Err(CodecError::BadBuffer));
}

#[test]
fn derivative_parameters() {
    assert_eq!((LAZY_QUALITY, LAZY_SIZE), (75, 32));
    assert_eq!((NORMAL_QUALITY, NORMAL_SIZE), (85, 2048));
    assert_eq!((THUMBNAIL_QUALITY, THUMBNAIL_SIZE), (70, 600));
    assert_eq!((MEMBER_QUALITY, MEMBER_SIZE), (65, 300));
}
