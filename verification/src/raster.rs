//! The `image` crate's RGB buffer as the library sees it: its samples and
//! its dimensions, read and made through trusted accessors.

use vstd::prelude::*;

verus! {

/// An RGB image: an `image::RgbImage` held whole, so that every pixel read
/// goes through the `image` crate.
#[verifier::external_body]
pub struct RgbFrame {
    img: image::RgbImage,
}

/// The raw sample buffer of an RGB frame: three bytes per pixel, rows
/// top to bottom, pixels left to right.
pub uninterp spec fn rgb_frame_samples(frame: RgbFrame) -> Seq<u8>;

/// The `(width, height)` an RGB frame was made with.
pub uninterp spec fn rgb_frame_dims(frame: RgbFrame) -> (u32, u32);

/// The three samples of pixel `(x, y)`.
pub open spec fn pixel_at(frame: RgbFrame, x: int, y: int) -> Seq<u8> {
    let start = 3 * (y * rgb_frame_dims(frame).0 + x);
    rgb_frame_samples(frame).subrange(start, start + 3)
}

/// Whether `3 * width * height` samples fit in `len` bytes, the product
/// being taken in `usize` as `(3 * width) * height` without overflow.
pub open spec fn frame_fits(width: u32, height: u32, len: nat) -> bool {
    &&& 3 * width <= usize::MAX
    &&& 3 * width * height <= usize::MAX
    &&& 3 * width * height <= len
}

/// The samples that a Triangle-filter resize of a `width` x `height`
/// image with `samples` to `new_width` x `new_height` produces.
pub uninterp spec fn triangle_resized_samples(
    samples: Seq<u8>,
    width: u32,
    height: u32,
    new_width: u32,
    new_height: u32,
) -> Seq<u8>;

impl Clone for RgbFrame {
    /// Calls `ImageBuffer::clone`, which copies the samples and the
    /// dimensions.
    #[verifier::external_body]
    fn clone(&self) -> (copy: Self)
        ensures
            rgb_frame_dims(copy) == rgb_frame_dims(*self),
            rgb_frame_samples(copy) == rgb_frame_samples(*self),
    {
        RgbFrame { img: self.img.clone() }
    }
}

impl RgbFrame {
    /// Calls `ImageBuffer::from_raw`, which returns `None` unless
    /// `3 * width * height` fits in `usize` and in `samples.len()`, and
    /// otherwise keeps the buffer and the dimensions as given.
    #[verifier::external_body]
    pub fn from_raw(width: u32, height: u32, samples: Vec<u8>) -> (frame: Option<RgbFrame>)
        ensures
            frame is Some <==> frame_fits(width, height, samples@.len()),
            frame matches Some(f) ==> rgb_frame_dims(f) == (width, height)
                && rgb_frame_samples(f) == samples@,
    {
        image::RgbImage::from_raw(width, height, samples).map(|img| RgbFrame { img })
    }

    /// Calls `ImageBuffer::dimensions`, which returns the width and height
    /// the buffer was made with; every buffer holds at least
    /// `3 * width * height` samples, as its constructors check.
    #[verifier::external_body]
    pub fn dimensions(&self) -> (dims: (u32, u32))
        ensures
            dims == rgb_frame_dims(*self),
            3 * dims.0 * dims.1 <= rgb_frame_samples(*self).len(),
    {
        self.img.dimensions()
    }

    /// Calls `ImageBuffer::get_pixel`, which panics outside the image and
    /// otherwise returns the three samples starting at `3 * (y * width + x)`.
    #[verifier::external_body]
    pub(crate) fn pixel(&self, x: u32, y: u32) -> (px: [u8; 3])
        requires
            x < rgb_frame_dims(*self).0,
            y < rgb_frame_dims(*self).1,
        ensures
            px@ == rgb_frame_samples(*self).subrange(
                3 * (y * rgb_frame_dims(*self).0 + x),
                3 * (y * rgb_frame_dims(*self).0 + x) + 3,
            ),
    {
        self.img.get_pixel(x, y).0
    }

    /// Calls `image::imageops::resize` with `FilterType::Triangle`. Its
    /// first pass allocates an RGBA `f32` buffer of this frame's width by
    /// `new_height` (16 bytes a pixel), its second the `new_width` x
    /// `new_height` RGB result (3 bytes a pixel); an allocation above
    /// `isize::MAX` bytes panics. The result is filled from this frame's
    /// samples.
    #[verifier::external_body]
    pub(crate) fn resize_triangle(&self, new_width: u32, new_height: u32) -> (out: RgbFrame)
        requires
            16 * rgb_frame_dims(*self).0 * new_height <= isize::MAX,
            3 * new_width * new_height <= isize::MAX,
        ensures
            rgb_frame_dims(out) == (new_width, new_height),
            rgb_frame_samples(out) == triangle_resized_samples(
                rgb_frame_samples(*self),
                rgb_frame_dims(*self).0,
                rgb_frame_dims(*self).1,
                new_width,
                new_height,
            ),
    {
        RgbFrame {
            img: image::imageops::resize(
                &self.img,
                new_width,
                new_height,
                image::imageops::FilterType::Triangle,
            ),
        }
    }

    /// Calls `ImageBuffer::into_raw`, which hands back the sample buffer.
    #[verifier::external_body]
    pub fn into_raw(self) -> (samples: Vec<u8>)
        ensures
            samples@ == rgb_frame_samples(self),
    {
        self.img.into_raw()
    }
}

} // verus!
