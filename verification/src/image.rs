//! The derived images of a photo: their sizes, the decoded picture that
//! they are made from, and its resampling.
//!
//! A derived image is as large as fits into a square of a given side: the
//! larger side of the picture becomes that side, and the other side is
//! scaled by the same factor and truncated. A picture that is smaller than
//! the square is enlarged in the same way.

use vstd::prelude::*;
use vstd::slice::slice_subrange;

verus! {

/// The largest width or height that a JPEG image can have.
pub const MAX_DIMENSION: u32 = 65_500;

/// Quality of the placeholder image.
pub const LAZY_QUALITY: u8 = 75;

/// Side of the square that the placeholder image fits into.
pub const LAZY_SIZE: u32 = 32;

/// Quality of the display image.
pub const NORMAL_QUALITY: u8 = 85;

/// Side of the square that the display image fits into.
pub const NORMAL_SIZE: u32 = 2048;

/// Quality of the thumbnail that is shown while a photo is edited.
pub const THUMBNAIL_QUALITY: u8 = 70;

/// Side of the square that the thumbnail fits into.
pub const THUMBNAIL_SIZE: u32 = 600;

/// Quality of the small picture that is shown in the list of a group.
pub const MEMBER_QUALITY: u8 = 65;

/// Side of the square that the small picture of a member fits into.
pub const MEMBER_SIZE: u32 = 300;

/// Why no derived image could be made.
#[derive(Debug, PartialEq, Eq, Clone, Copy)]
pub enum CodecError {
    /// The source is not a JPEG image that can be decoded.
    Undecodable,
    /// The picture could not be written as a JPEG image.
    Unencodable,
    /// The picture does not hold three bytes for each of its pixels.
    BadBuffer,
    /// The picture, or the derived image, would have no pixel.
    EmptyImage,
    /// A side of the picture, or of the derived image, is larger than a
    /// JPEG image or the memory of the machine allows.
    TooLarge,
}

/// A segment of a JPEG file that is no part of the picture, such as the
/// embedded metadata: the code of its kind and its bytes, kept as they are.
#[derive(Debug, PartialEq, Eq)]
pub struct Marker {
    pub code: u8,
    pub data: Vec<u8>,
}

/// A decoded picture: rows of pixels from the top, each pixel as the three
/// bytes red, green, blue; and the segments that came with it.
#[derive(Debug, PartialEq, Eq)]
pub struct RawImage {
    pub width: u32,
    pub height: u32,
    pub pixels: Vec<u8>,
    pub markers: Vec<Marker>,
}

/// The models of the segments of a picture, in order.
pub open spec fn marker_views(m: Seq<Marker>) -> Seq<(u8, Seq<u8>)> {
    m.map_values(|m: Marker| (m.code, m.data@))
}

impl RawImage {
    /// The picture holds three bytes for each pixel, no more.
    pub open spec fn wf(&self) -> bool {
        self.pixels@.len() == 3 * self.width * self.height
    }
}

/// One side of a picture after scaling: the side times the new larger side
/// over the old larger side, truncated.
pub open spec fn scaled_side(side: int, larger: int, max_dimension: int) -> int {
    if larger == 0 {
        0
    } else {
        side * max_dimension / larger
    }
}

/// The larger of two sides.
pub open spec fn larger_side(width: int, height: int) -> int {
    if width > height {
        width
    } else {
        height
    }
}

/// Width and height of the image derived from a picture of the given width
/// and height, for the square of side `max_dimension`.
pub open spec fn scaled_size(width: int, height: int, max_dimension: int) -> (int, int) {
    (
        scaled_side(width, larger_side(width, height), max_dimension),
        scaled_side(height, larger_side(width, height), max_dimension),
    )
}

/// A side scaled by the factor that takes the larger side to
/// `max_dimension` is at most `max_dimension`, and the larger side becomes
/// exactly that.
pub proof fn lemma_scaled_side(side: int, larger: int, max_dimension: int)
    requires
        0 <= side <= larger,
        0 < larger,
        0 <= max_dimension,
    ensures
        0 <= scaled_side(side, larger, max_dimension) <= max_dimension,
        scaled_side(larger, larger, max_dimension) == max_dimension,
{
    assert(0 <= side * max_dimension <= larger * max_dimension) by (nonlinear_arith)
        requires
            0 <= side <= larger,
            0 <= max_dimension,
    ;
    assert(larger * max_dimension / larger == max_dimension) by (nonlinear_arith)
        requires
            0 < larger,
    ;
    assert(0 <= side * max_dimension / larger <= larger * max_dimension / larger)
        by (nonlinear_arith)
        requires
            0 <= side * max_dimension <= larger * max_dimension,
            0 < larger,
    ;
}

/// Computes the size of the image derived from a picture: see
/// [`scaled_size`]. Neither side exceeds `max_dimension`, and the larger
/// side of a picture that has one is exactly `max_dimension`.
pub fn derivative_size(width: u32, height: u32, max_dimension: u32) -> (r: (u32, u32))
    ensures
        (r.0 as int, r.1 as int) == scaled_size(width as int, height as int, max_dimension as int),
        r.0 <= max_dimension,
        r.1 <= max_dimension,
        width > 0 && width >= height ==> r.0 == max_dimension,
        height > 0 && height >= width ==> r.1 == max_dimension,
{
    let larger: u32 = if width > height {
        width
    } else {
        height
    };
    if larger == 0 {
        return (0, 0);
    }
    proof {
        lemma_scaled_side(width as int, larger as int, max_dimension as int);
        lemma_scaled_side(height as int, larger as int, max_dimension as int);
        assert(width * max_dimension <= u64::MAX && height * max_dimension <= u64::MAX)
            by (nonlinear_arith)
            requires
                width <= u32::MAX,
                height <= u32::MAX,
                max_dimension <= u32::MAX,
        ;
    }
    let new_width: u64 = (width as u64) * (max_dimension as u64) / (larger as u64);
    let new_height: u64 = (height as u64) * (max_dimension as u64) / (larger as u64);
    (new_width as u32, new_height as u32)
}

/// Whether the buffers that resampling needs can be allocated: sixteen
/// bytes for each pixel of the picture that has the old width and the new
/// height, and three for each pixel of the result.
pub open spec fn fits_memory(width: int, new_width: int, new_height: int) -> bool {
    &&& 16 * width * new_height <= isize::MAX
    &&& 3 * new_width * new_height <= isize::MAX
}

/// Calls `image::imageops::resize` with the filter `Lanczos3` on the
/// picture that `image::RgbImage::from_raw` makes of the bytes.
///
/// The contract claims that a picture is made, because the bytes are as
/// many as its pixels need, and that the result holds three bytes for each
/// pixel of the new size. It says nothing of the colours. The sides are
/// kept within what a JPEG image can have, and the buffers within what can
/// be allocated: outside of that the call may not return.
#[verifier::external_body]
fn lanczos3_resize(width: u32, height: u32, pixels: &[u8], new_width: u32, new_height: u32) -> (r:
    Option<Vec<u8>>)
    requires
        1 <= width <= MAX_DIMENSION,
        1 <= height <= MAX_DIMENSION,
        1 <= new_width <= MAX_DIMENSION,
        1 <= new_height <= MAX_DIMENSION,
        pixels@.len() == 3 * width * height,
        fits_memory(width as int, new_width as int, new_height as int),
    ensures
        r is Some,
        r->0@.len() == 3 * new_width * new_height,
{
    ::image::RgbImage::from_raw(width, height, pixels.to_vec()).map(
        |b| {
            ::image::imageops::resize(
                &b,
                new_width,
                new_height,
                ::image::imageops::FilterType::Lanczos3,
            ).into_raw()
        },
    )
}

/// The product of a small factor and two sides, which fits in 128 bits.
fn sides_product(k: u8, a: u32, b: u32) -> (r: u128)
    ensures
        r == k * a * b,
{
    assert(0 <= a * b <= 0xFFFF_FFFF * 0xFFFF_FFFF) by (nonlinear_arith)
        requires
            0 <= a <= 0xFFFF_FFFF,
            0 <= b <= 0xFFFF_FFFF,
    ;
    assert(0 <= k * (a * b) <= 255 * (0xFFFF_FFFF * 0xFFFF_FFFF) && k * (a * b) == k * a * b)
        by (nonlinear_arith)
        requires
            0 <= k <= 255,
            0 <= a * b <= 0xFFFF_FFFF * 0xFFFF_FFFF,
    ;
    (k as u128) * ((a as u128) * (b as u128))
}

/// A copy of the segments of a picture.
pub fn clone_markers(markers: &Vec<Marker>) -> (r: Vec<Marker>)
    ensures
        marker_views(r@) == marker_views(markers@),
{
    let mut r: Vec<Marker> = Vec::new();
    let mut i: usize = 0;
    while i < markers.len()
        invariant
            i <= markers.len(),
            r.len() == i,
            forall|j: int|
                0 <= j < i ==> r[j].code == markers[j].code && r[j].data@ == markers[j].data@,
        decreases markers.len() - i,
    {
        r.push(Marker { code: markers[i].code, data: markers[i].data.clone() });
        i += 1;
    }
    assert(marker_views(r@) =~= marker_views(markers@));
    r
}

/// Why a picture cannot be resampled for the square of side
/// `max_dimension`, if it cannot.
pub open spec fn resize_error(image: RawImage, max_dimension: u32) -> Option<CodecError> {
    let size = scaled_size(image.width as int, image.height as int, max_dimension as int);
    if !image.wf() {
        Some(CodecError::BadBuffer)
    } else if image.width == 0 || image.height == 0 || size.0 == 0 || size.1 == 0 {
        Some(CodecError::EmptyImage)
    } else if image.width > MAX_DIMENSION || image.height > MAX_DIMENSION || size.0 > MAX_DIMENSION
        || size.1 > MAX_DIMENSION || !fits_memory(image.width as int, size.0, size.1) {
        Some(CodecError::TooLarge)
    } else {
        None
    }
}

/// Resamples a decoded picture to the size of the image derived from it for
/// the square of side `max_dimension`, keeping its segments.
///
/// The result has the size [`scaled_size`] and three bytes for each pixel.
/// The picture is refused, with the reason [`resize_error`], where its bytes
/// do not match its size, where it or the result would have no pixel, and
/// where a side is too large.
pub fn resize_image(image: &RawImage, max_dimension: u32) -> (r: Result<RawImage, CodecError>)
    ensures
        match r {
            Ok(out) => {
                &&& resize_error(*image, max_dimension) is None
                &&& (out.width as int, out.height as int) == scaled_size(
                    image.width as int,
                    image.height as int,
                    max_dimension as int,
                )
                &&& out.wf()
                &&& marker_views(out.markers@) == marker_views(image.markers@)
            },
            Err(e) => resize_error(*image, max_dimension) == Some(e),
        },
{
    let needed: u128 = sides_product(3, image.width, image.height);
    if image.pixels.len() as u128 != needed {
        return Err(CodecError::BadBuffer);
    }
    let (new_width, new_height) = derivative_size(image.width, image.height, max_dimension);
    if image.width == 0 || image.height == 0 || new_width == 0 || new_height == 0 {
        return Err(CodecError::EmptyImage);
    }
    if image.width > MAX_DIMENSION || image.height > MAX_DIMENSION || new_width > MAX_DIMENSION
        || new_height > MAX_DIMENSION {
        return Err(CodecError::TooLarge);
    }
    let rows: u128 = sides_product(16, image.width, new_height);
    let bytes: u128 = sides_product(3, new_width, new_height);
    if rows > isize::MAX as u128 || bytes > isize::MAX as u128 {
        return Err(CodecError::TooLarge);
    }
    match lanczos3_resize(
        image.width,
        image.height,
        image.pixels.as_slice(),
        new_width,
        new_height,
    ) {
        Some(pixels) => Ok(
            RawImage {
                width: new_width,
                height: new_height,
                pixels,
                markers: clone_markers(&image.markers),
            },
        ),
        None => Err(CodecError::BadBuffer),
    }
}

/// The bytes of one row of a picture, the rows counted from the top and
/// from zero; nothing where the picture has no such row or its bytes do not
/// match its size.
pub fn scanline(image: &RawImage, line: u32) -> (r: Option<&[u8]>)
    ensures
        match r {
            Some(row) => {
                &&& image.wf()
                &&& line < image.height
                &&& row@ == image.pixels@.subrange(
                    3 * image.width * line,
                    3 * image.width * (line + 1),
                )
            },
            None => !image.wf() || line >= image.height,
        },
{
    let needed: u128 = sides_product(3, image.width, image.height);
    if image.pixels.len() as u128 != needed || line >= image.height {
        return None;
    }
    let start: u128 = sides_product(3, image.width, line);
    let end: u128 = sides_product(3, image.width, line + 1);
    assert(0 <= start <= end <= needed) by (nonlinear_arith)
        requires
            0 <= image.width,
            0 <= line < image.height,
            start == 3 * image.width * line,
            end == 3 * image.width * (line + 1),
            needed == 3 * image.width * image.height,
    ;
    Some(slice_subrange(image.pixels.as_slice(), start as usize, end as usize))
}

/// Resamples one decoded picture for both derived images of a photo: the
/// placeholder first, the display image second. Both are made from the same
/// decoding, and where either cannot be made, neither is: the reason is
/// that of the placeholder where it has one.
pub fn resize_for_derivatives(image: &RawImage) -> (r: Result<(RawImage, RawImage), CodecError>)
    ensures
        match r {
            Ok(pair) => {
                &&& resize_error(*image, LAZY_SIZE) is None
                &&& resize_error(*image, NORMAL_SIZE) is None
                &&& (pair.0.width as int, pair.0.height as int) == scaled_size(
                    image.width as int,
                    image.height as int,
                    LAZY_SIZE as int,
                )
                &&& (pair.1.width as int, pair.1.height as int) == scaled_size(
                    image.width as int,
                    image.height as int,
                    NORMAL_SIZE as int,
                )
                &&& pair.0.wf() && pair.1.wf()
                &&& marker_views(pair.0.markers@) == marker_views(image.markers@)
                &&& marker_views(pair.1.markers@) == marker_views(image.markers@)
            },
            Err(e) => resize_error(*image, LAZY_SIZE) == Some(e) || (resize_error(
                *image,
                LAZY_SIZE,
            ) is None && resize_error(*image, NORMAL_SIZE) == Some(e)),
        },
{
    let lazy = match resize_image(image, LAZY_SIZE) {
        Ok(lazy) => lazy,
        Err(e) => {
            return Err(e);
        },
    };
    let normal = match resize_image(image, NORMAL_SIZE) {
        Ok(normal) => normal,
        Err(e) => {
            return Err(e);
        },
    };
    Ok((lazy, normal))
}

} // verus!
