use vstd::prelude::*;

use crate::buffer::from_flat_success;
use crate::buffer::SerialImageBuffer;
use crate::error::BufferError;

verus! {

#[verifier::external_type_specification]
#[verifier::external_body]
pub struct ExDynamicImage(image::DynamicImage);

/// What an eight-bit dynamic image holds: `None` for every variant of
/// another sample kind, and otherwise the width, the height, the
/// variant's channel arity and the raw interleaved sample sequence.
/// These are a function of the image value alone; the wrappers below
/// state their results through this name.
pub uninterp spec fn dyn_parts_u8(img: image::DynamicImage) -> Option<(u32, u32, u8, Seq<u8>)>;

/// What a sixteen-bit dynamic image holds, as `dyn_parts_u8` does for
/// the eight-bit variants.
pub uninterp spec fn dyn_parts_u16(img: image::DynamicImage) -> Option<(u32, u32, u8, Seq<u16>)>;

/// Relies on image::DynamicImage's variant structure: each of the four
/// eight-bit variants carries an ImageBuffer, whose width(), height()
/// and into_raw() yield the shape, the variant's channel arity and the raw
/// sample vector, which by the buffer's construction rules holds at
/// least width * height * arity samples.
#[verifier::external_body]
fn dynamic_parts_u8(img: image::DynamicImage) -> (r: Option<(u32, u32, u8, Vec<u8>)>)
    ensures
        (r is None) == (dyn_parts_u8(img) is None),
        r matches Some(p) ==> dyn_parts_u8(img) == Some((p.0, p.1, p.2, p.3@)),
        r matches Some(p) ==> 1 <= p.2 <= 4 && p.3@.len() >= (p.0 as int) * (p.1 as int) * (
        p.2 as int),
{
    match img {
        image::DynamicImage::ImageLuma8(b) => Some((b.width(), b.height(), 1, b.into_raw())),
        image::DynamicImage::ImageLumaA8(b) => Some((b.width(), b.height(), 2, b.into_raw())),
        image::DynamicImage::ImageRgb8(b) => Some((b.width(), b.height(), 3, b.into_raw())),
        image::DynamicImage::ImageRgba8(b) => Some((b.width(), b.height(), 4, b.into_raw())),
        _ => None,
    }
}

/// Relies on image::DynamicImage's variant structure, as
/// `dynamic_parts_u8` does, for the four sixteen-bit variants.
#[verifier::external_body]
fn dynamic_parts_u16(img: image::DynamicImage) -> (r: Option<(u32, u32, u8, Vec<u16>)>)
    ensures
        (r is None) == (dyn_parts_u16(img) is None),
        r matches Some(p) ==> dyn_parts_u16(img) == Some((p.0, p.1, p.2, p.3@)),
        r matches Some(p) ==> 1 <= p.2 <= 4 && p.3@.len() >= (p.0 as int) * (p.1 as int) * (
        p.2 as int),
{
    match img {
        image::DynamicImage::ImageLuma16(b) => Some((b.width(), b.height(), 1, b.into_raw())),
        image::DynamicImage::ImageLumaA16(b) => Some((b.width(), b.height(), 2, b.into_raw())),
        image::DynamicImage::ImageRgb16(b) => Some((b.width(), b.height(), 3, b.into_raw())),
        image::DynamicImage::ImageRgba16(b) => Some((b.width(), b.height(), 4, b.into_raw())),
        _ => None,
    }
}

/// Relies on image::ImageBuffer::from_raw for eight-bit grayscale: it
/// accepts the vector exactly when it holds at least one sample per
/// pixel; the result wraps into DynamicImage::ImageLuma8.
#[verifier::external_body]
fn luma8_to_dynamic(width: u32, height: u32, data: Vec<u8>) -> (r: Option<image::DynamicImage>)
    ensures
        (r is Some) == (1 * (width as int) * (height as int) <= data@.len()),
        r matches Some(d) ==> dyn_parts_u8(d) == Some((width, height, 1u8, data@)),
{
    image::ImageBuffer::<image::Luma<u8>, Vec<u8>>::from_raw(width, height, data).map(
        image::DynamicImage::ImageLuma8,
    )
}

/// Relies on image::ImageBuffer::from_raw for eight-bit grayscale with
/// alpha: it accepts the vector exactly when it holds at least two
/// samples per pixel; the result wraps into DynamicImage::ImageLumaA8.
#[verifier::external_body]
fn luma_a8_to_dynamic(width: u32, height: u32, data: Vec<u8>) -> (r: Option<image::DynamicImage>)
    ensures
        (r is Some) == (2 * (width as int) * (height as int) <= data@.len()),
        r matches Some(d) ==> dyn_parts_u8(d) == Some((width, height, 2u8, data@)),
{
    image::ImageBuffer::<image::LumaA<u8>, Vec<u8>>::from_raw(width, height, data).map(
        image::DynamicImage::ImageLumaA8,
    )
}

/// Relies on image::ImageBuffer::from_raw for eight-bit color: it
/// accepts the vector exactly when it holds at least three samples per
/// pixel; the result wraps into DynamicImage::ImageRgb8.
#[verifier::external_body]
fn rgb8_to_dynamic(width: u32, height: u32, data: Vec<u8>) -> (r: Option<image::DynamicImage>)
    ensures
        (r is Some) == (3 * (width as int) * (height as int) <= data@.len()),
        r matches Some(d) ==> dyn_parts_u8(d) == Some((width, height, 3u8, data@)),
{
    image::ImageBuffer::<image::Rgb<u8>, Vec<u8>>::from_raw(width, height, data).map(
        image::DynamicImage::ImageRgb8,
    )
}

/// Relies on image::ImageBuffer::from_raw for eight-bit color with
/// alpha: it accepts the vector exactly when it holds at least four
/// samples per pixel; the result wraps into DynamicImage::ImageRgba8.
#[verifier::external_body]
fn rgba8_to_dynamic(width: u32, height: u32, data: Vec<u8>) -> (r: Option<image::DynamicImage>)
    ensures
        (r is Some) == (4 * (width as int) * (height as int) <= data@.len()),
        r matches Some(d) ==> dyn_parts_u8(d) == Some((width, height, 4u8, data@)),
{
    image::ImageBuffer::<image::Rgba<u8>, Vec<u8>>::from_raw(width, height, data).map(
        image::DynamicImage::ImageRgba8,
    )
}

/// Relies on image::ImageBuffer::from_raw for sixteen-bit grayscale, as
/// `luma8_to_dynamic` does; the result wraps into ImageLuma16.
#[verifier::external_body]
fn luma16_to_dynamic(width: u32, height: u32, data: Vec<u16>) -> (r: Option<image::DynamicImage>)
    ensures
        (r is Some) == (1 * (width as int) * (height as int) <= data@.len()),
        r matches Some(d) ==> dyn_parts_u16(d) == Some((width, height, 1u8, data@)),
{
    image::ImageBuffer::<image::Luma<u16>, Vec<u16>>::from_raw(width, height, data).map(
        image::DynamicImage::ImageLuma16,
    )
}

/// Relies on image::ImageBuffer::from_raw for sixteen-bit grayscale
/// with alpha, as `luma_a8_to_dynamic` does; wraps into ImageLumaA16.
#[verifier::external_body]
fn luma_a16_to_dynamic(width: u32, height: u32, data: Vec<u16>) -> (r: Option<image::DynamicImage>)
    ensures
        (r is Some) == (2 * (width as int) * (height as int) <= data@.len()),
        r matches Some(d) ==> dyn_parts_u16(d) == Some((width, height, 2u8, data@)),
{
    image::ImageBuffer::<image::LumaA<u16>, Vec<u16>>::from_raw(width, height, data).map(
        image::DynamicImage::ImageLumaA16,
    )
}

/// Relies on image::ImageBuffer::from_raw for sixteen-bit color, as
/// `rgb8_to_dynamic` does; the result wraps into ImageRgb16.
#[verifier::external_body]
fn rgb16_to_dynamic(width: u32, height: u32, data: Vec<u16>) -> (r: Option<image::DynamicImage>)
    ensures
        (r is Some) == (3 * (width as int) * (height as int) <= data@.len()),
        r matches Some(d) ==> dyn_parts_u16(d) == Some((width, height, 3u8, data@)),
{
    image::ImageBuffer::<image::Rgb<u16>, Vec<u16>>::from_raw(width, height, data).map(
        image::DynamicImage::ImageRgb16,
    )
}

/// Relies on image::ImageBuffer::from_raw for sixteen-bit color with
/// alpha, as `rgba8_to_dynamic` does; wraps into ImageRgba16.
#[verifier::external_body]
fn rgba16_to_dynamic(width: u32, height: u32, data: Vec<u16>) -> (r: Option<image::DynamicImage>)
    ensures
        (r is Some) == (4 * (width as int) * (height as int) <= data@.len()),
        r matches Some(d) ==> dyn_parts_u16(d) == Some((width, height, 4u8, data@)),
{
    image::ImageBuffer::<image::Rgba<u16>, Vec<u16>>::from_raw(width, height, data).map(
        image::DynamicImage::ImageRgba16,
    )
}

impl SerialImageBuffer<u8> {
    /// Build a buffer from one of the eight-bit variants of a host
    /// dynamic image, inferring the layout from the variant's raw
    /// sample vector exactly as `from_vec` does on the variant's
    /// dimensions and samples (named by `dyn_parts_u8`).
    ///
    /// Fails with `UnsupportedSourceFormat` for every variant of
    /// another sample kind, and otherwise as `from_vec` fails on the
    /// variant's dimensions and raw samples.
    pub fn try_from_dynamic(img: image::DynamicImage) -> (r: Result<Self, BufferError>)
        ensures
            dyn_parts_u8(img) is None ==> r == Err::<Self, BufferError>(
                BufferError::UnsupportedSourceFormat,
            ),
            dyn_parts_u8(img) matches Some(p) ==> ({
                let n = (p.0 as int) * (p.1 as int);
                let len = p.3.len() as int;
                &&& (n == 0 ==> r == Err::<Self, BufferError>(BufferError::EmptyDimensions))
                &&& (n > 0 && len % n != 0 ==> r == Err::<Self, BufferError>(
                    BufferError::LengthNotDivisible,
                ))
                &&& (n > 0 && len % n == 0 && !(1 <= len / n <= 4) ==> r == Err::<
                    Self,
                    BufferError,
                >(BufferError::ElementCountOutOfRange))
                &&& (n > 0 && len % n == 0 && 1 <= len / n <= 4 ==> (r matches Ok(b)
                    && from_flat_success(b@, p.0 as int, p.1 as int, p.3)))
            }),
            r matches Ok(b) ==> b@.wf() && b@.meta is None,
    {
        match dynamic_parts_u8(img) {
            None => Err(BufferError::UnsupportedSourceFormat),
            Some((w, h, _arity, data)) => SerialImageBuffer::from_vec(
                w as usize,
                h as usize,
                data,
            ),
        }
    }

    /// Consume the buffer into the host dynamic image variant matching
    /// its element count and eight-bit sample kind: the produced image
    /// holds the buffer's dimensions, its channel arity and its flat
    /// interleaved samples.
    ///
    /// Fails with `UnsupportedLayout` exactly when a dimension exceeds
    /// the host library's 32-bit limit.
    pub fn into_dynamic(self) -> (r: Result<image::DynamicImage, BufferError>)
        requires
            self@.wf(),
        ensures
            (r is Ok) == (self@.width <= u32::MAX && self@.height <= u32::MAX),
            r matches Ok(d) ==> (dyn_parts_u8(d) matches Some(p) && p.0 == self@.width && p.1
                == self@.height && p.2 == self@.pixel_elems && p.3 == self@.flat()),
            r is Err ==> r == Err::<image::DynamicImage, BufferError>(
                BufferError::UnsupportedLayout,
            ),
    {
        let ghost v = self@;
        if self.width() > u32::MAX as usize || self.height() > u32::MAX as usize {
            return Err(BufferError::UnsupportedLayout);
        }
        let w = self.width() as u32;
        let h = self.height() as u32;
        let elems = self.pixel_elems();
        let data = self.into_vec();
        proof {
            assert((elems as int) * (w as int) * (h as int) <= data@.len()) by (nonlinear_arith)
                requires
                    data@.len() == v.pixels() * v.pixel_elems,
                    v.pixels() == v.width * v.height,
                    w == v.width,
                    h == v.height,
                    elems == v.pixel_elems,
            ;
        }
        let r = if elems == 1 {
            luma8_to_dynamic(w, h, data)
        } else if elems == 2 {
            luma_a8_to_dynamic(w, h, data)
        } else if elems == 3 {
            rgb8_to_dynamic(w, h, data)
        } else {
            rgba8_to_dynamic(w, h, data)
        };
        match r {
            Some(d) => Ok(d),
            None => {
                proof {
                    assert(false);
                }
                Err(BufferError::UnsupportedLayout)
            },
        }
    }
}

impl SerialImageBuffer<u16> {
    /// Build a buffer from one of the sixteen-bit variants of a host
    /// dynamic image, inferring the layout from the variant's raw
    /// sample vector exactly as `from_vec` does on the variant's
    /// dimensions and samples (named by `dyn_parts_u16`).
    ///
    /// Fails with `UnsupportedSourceFormat` for every variant of
    /// another sample kind, and otherwise as `from_vec` fails on the
    /// variant's dimensions and raw samples.
    pub fn try_from_dynamic(img: image::DynamicImage) -> (r: Result<Self, BufferError>)
        ensures
            dyn_parts_u16(img) is None ==> r == Err::<Self, BufferError>(
                BufferError::UnsupportedSourceFormat,
            ),
            dyn_parts_u16(img) matches Some(p) ==> ({
                let n = (p.0 as int) * (p.1 as int);
                let len = p.3.len() as int;
                &&& (n == 0 ==> r == Err::<Self, BufferError>(BufferError::EmptyDimensions))
                &&& (n > 0 && len % n != 0 ==> r == Err::<Self, BufferError>(
                    BufferError::LengthNotDivisible,
                ))
                &&& (n > 0 && len % n == 0 && !(1 <= len / n <= 4) ==> r == Err::<
                    Self,
                    BufferError,
                >(BufferError::ElementCountOutOfRange))
                &&& (n > 0 && len % n == 0 && 1 <= len / n <= 4 ==> (r matches Ok(b)
                    && from_flat_success(b@, p.0 as int, p.1 as int, p.3)))
            }),
            r matches Ok(b) ==> b@.wf() && b@.meta is None,
    {
        match dynamic_parts_u16(img) {
            None => Err(BufferError::UnsupportedSourceFormat),
            Some((w, h, _arity, data)) => SerialImageBuffer::from_vec(
                w as usize,
                h as usize,
                data,
            ),
        }
    }

    /// Consume the buffer into the host dynamic image variant matching
    /// its element count and sixteen-bit sample kind: the produced image
    /// holds the buffer's dimensions, its channel arity and its flat
    /// interleaved samples.
    ///
    /// Fails with `UnsupportedLayout` exactly when a dimension exceeds
    /// the host library's 32-bit limit.
    pub fn into_dynamic(self) -> (r: Result<image::DynamicImage, BufferError>)
        requires
            self@.wf(),
        ensures
            (r is Ok) == (self@.width <= u32::MAX && self@.height <= u32::MAX),
            r matches Ok(d) ==> (dyn_parts_u16(d) matches Some(p) && p.0 == self@.width && p.1
                == self@.height && p.2 == self@.pixel_elems && p.3 == self@.flat()),
            r is Err ==> r == Err::<image::DynamicImage, BufferError>(
                BufferError::UnsupportedLayout,
            ),
    {
        let ghost v = self@;
        if self.width() > u32::MAX as usize || self.height() > u32::MAX as usize {
            return Err(BufferError::UnsupportedLayout);
        }
        let w = self.width() as u32;
        let h = self.height() as u32;
        let elems = self.pixel_elems();
        let data = self.into_vec();
        proof {
            assert((elems as int) * (w as int) * (h as int) <= data@.len()) by (nonlinear_arith)
                requires
                    data@.len() == v.pixels() * v.pixel_elems,
                    v.pixels() == v.width * v.height,
                    w == v.width,
                    h == v.height,
                    elems == v.pixel_elems,
            ;
        }
        let r = if elems == 1 {
            luma16_to_dynamic(w, h, data)
        } else if elems == 2 {
            luma_a16_to_dynamic(w, h, data)
        } else if elems == 3 {
            rgb16_to_dynamic(w, h, data)
        } else {
            rgba16_to_dynamic(w, h, data)
        };
        match r {
            Some(d) => Ok(d),
            None => {
                proof {
                    assert(false);
                }
                Err(BufferError::UnsupportedLayout)
            },
        }
    }
}

} // verus!
