use vstd::prelude::*;

use crate::codec::channel_slice;
use crate::codec::interleave2;
use crate::codec::interleave3;
use crate::codec::interleave4;
use crate::codec::lemma_reassemble2;
use crate::codec::lemma_reassemble3;
use crate::codec::lemma_reassemble4;
use crate::codec::lemma_round_trip2;
use crate::codec::lemma_round_trip3;
use crate::codec::lemma_round_trip4;
use crate::error::BufferError;
use crate::meta::ImageMetaData;

verus! {

/// A serializable, channel-separated image buffer.
///
/// Samples are stored per channel (luminosity, red, green, blue, alpha)
/// rather than per pixel. Each channel is either absent or holds exactly
/// `width * height` samples, and only four channel combinations are
/// legal: luminosity, luminosity with alpha, red-green-blue, and
/// red-green-blue with alpha. The constructors validate those rules, so
/// every reachable buffer satisfies [`ImageView::wf`].
#[derive(Clone, Debug)]
pub struct SerialImageBuffer<T> {
    meta: Option<ImageMetaData>,
    luma: Option<Vec<T>>,
    red: Option<Vec<T>>,
    green: Option<Vec<T>>,
    blue: Option<Vec<T>>,
    alpha: Option<Vec<T>>,
    pixel_elems: u8,
    width: usize,
    height: usize,
}

/// The mathematical model of a [`SerialImageBuffer`]: each channel as an
/// optional sequence of samples, together with the declared shape.
pub struct ImageView<T> {
    pub meta: Option<ImageMetaData>,
    pub luma: Option<Seq<T>>,
    pub red: Option<Seq<T>>,
    pub green: Option<Seq<T>>,
    pub blue: Option<Seq<T>>,
    pub alpha: Option<Seq<T>>,
    pub pixel_elems: int,
    pub width: int,
    pub height: int,
}

/// The sequence view of an optional channel vector.
pub open spec fn seq_of_opt_vec<T>(v: Option<Vec<T>>) -> Option<Seq<T>> {
    match v {
        Some(c) => Some(c@),
        None => None,
    }
}

impl<T> View for SerialImageBuffer<T> {
    type V = ImageView<T>;

    closed spec fn view(&self) -> ImageView<T> {
        ImageView {
            meta: self.meta,
            luma: seq_of_opt_vec(self.luma),
            red: seq_of_opt_vec(self.red),
            green: seq_of_opt_vec(self.green),
            blue: seq_of_opt_vec(self.blue),
            alpha: seq_of_opt_vec(self.alpha),
            pixel_elems: self.pixel_elems as int,
            width: self.width as int,
            height: self.height as int,
        }
    }
}

impl<T> ImageView<T> {
    /// Number of pixels the declared shape calls for.
    pub open spec fn pixels(self) -> int {
        self.width * self.height
    }

    /// The channel presence combination is one of the four legal
    /// layouts (ignoring alpha, which both families may add):
    /// luminosity without color, or all three colors without luminosity.
    pub open spec fn valid_layout(self) -> bool {
        ||| (self.luma is Some && self.red is None && self.green is None && self.blue is None)
        ||| (self.luma is None && self.red is Some && self.green is Some && self.blue is Some)
    }

    /// The per-pixel element count implied by which channels are present.
    pub open spec fn implied_elems(self) -> int {
        (if self.luma is Some { 1int } else { 0 }) + (if self.red is Some { 1int } else { 0 })
            + (if self.green is Some { 1int } else { 0 })
            + (if self.blue is Some { 1int } else { 0 })
            + (if self.alpha is Some { 1int } else { 0 })
    }

    /// The flat interleaved sequence this view's channels describe:
    /// each pixel's samples are contiguous, in the fixed order
    /// luminosity (grayscale layouts) or red, green, blue (color
    /// layouts), followed by alpha if present.
    pub open spec fn flat(self) -> Seq<T>
        recommends
            self.wf(),
    {
        let n = self.pixels() as nat;
        if self.pixel_elems == 1 {
            self.luma.unwrap()
        } else if self.pixel_elems == 2 {
            interleave2(n, self.luma.unwrap(), self.alpha.unwrap())
        } else if self.pixel_elems == 3 {
            interleave3(n, self.red.unwrap(), self.green.unwrap(), self.blue.unwrap())
        } else {
            interleave4(n, self.red.unwrap(), self.green.unwrap(), self.blue.unwrap(), self.alpha.unwrap())
        }
    }

    /// Well-formedness: positive dimensions, a legal channel layout,
    /// every present channel of length exactly `width * height`, and the
    /// cached element count consistent with the present channels.
    pub open spec fn wf(self) -> bool {
        &&& self.width > 0
        &&& self.height > 0
        &&& self.pixels() <= usize::MAX
        &&& self.valid_layout()
        &&& self.pixel_elems == self.implied_elems()
        &&& (self.luma matches Some(c) ==> c.len() == self.pixels())
        &&& (self.red matches Some(c) ==> c.len() == self.pixels())
        &&& (self.green matches Some(c) ==> c.len() == self.pixels())
        &&& (self.blue matches Some(c) ==> c.len() == self.pixels())
        &&& (self.alpha matches Some(c) ==> c.len() == self.pixels())
    }
}

/// What a successful flat-vector construction promises: the built buffer
/// is well formed, carries the given shape and no metadata, and each of
/// its channels is the corresponding stride of the flat data.
pub open spec fn from_flat_success<T>(v: ImageView<T>, width: int, height: int, data: Seq<T>) -> bool {
    let n = width * height;
    let elems = data.len() as int / n;
    &&& v.wf()
    &&& v.meta is None
    &&& v.width == width
    &&& v.height == height
    &&& v.pixel_elems == elems
    &&& (elems == 1 ==> v.luma == Some(data))
    &&& (elems == 2 ==> v.luma == Some(channel_slice(data, 2, 0, n as nat)) && v.alpha == Some(
        channel_slice(data, 2, 1, n as nat),
    ))
    &&& (elems == 3 ==> v.red == Some(channel_slice(data, 3, 0, n as nat)) && v.green == Some(
        channel_slice(data, 3, 1, n as nat),
    ) && v.blue == Some(channel_slice(data, 3, 2, n as nat)))
    &&& (elems == 4 ==> v.red == Some(channel_slice(data, 4, 0, n as nat)) && v.green == Some(
        channel_slice(data, 4, 1, n as nat),
    ) && v.blue == Some(channel_slice(data, 4, 2, n as nat)) && v.alpha == Some(
        channel_slice(data, 4, 3, n as nat),
    ))
}

/// The four legal channel presence combinations, ignoring alpha (which
/// either family may add): luminosity alone, or all three colors.
pub open spec fn legal_combination(luma: bool, red: bool, green: bool, blue: bool) -> bool {
    ||| (luma && !red && !green && !blue)
    ||| (!luma && red && green && blue)
}

/// Every present channel holds exactly `n` samples.
pub open spec fn channels_sized<T>(
    luma: Option<Seq<T>>,
    red: Option<Seq<T>>,
    green: Option<Seq<T>>,
    blue: Option<Seq<T>>,
    alpha: Option<Seq<T>>,
    n: int,
) -> bool {
    &&& (luma matches Some(c) ==> c.len() == n)
    &&& (red matches Some(c) ==> c.len() == n)
    &&& (green matches Some(c) ==> c.len() == n)
    &&& (blue matches Some(c) ==> c.len() == n)
    &&& (alpha matches Some(c) ==> c.len() == n)
}

impl<T: Copy> SerialImageBuffer<T> {
    /// Split a flat interleaved vector of `size` pixels at `elems`
    /// samples per pixel into per-channel vectors, returned in the order
    /// (luminosity, red, green, blue, alpha). One sample per pixel fills
    /// only luminosity (handing the vector over without a copy); two fill
    /// luminosity and alpha; three fill red, green and blue; four fill
    /// red, green, blue and alpha.
    pub fn deinterleave(size: usize, data: Vec<T>, elems: u8) -> (r: (
        Option<Vec<T>>,
        Option<Vec<T>>,
        Option<Vec<T>>,
        Option<Vec<T>>,
        Option<Vec<T>>,
    ))
        requires
            1 <= elems <= 4,
            data@.len() == size * elems,
        ensures
            elems == 1 ==> ({
                &&& (r.0 matches Some(l) && l@ == data@)
                &&& r.1 is None
                &&& r.2 is None
                &&& r.3 is None
                &&& r.4 is None
            }),
            elems == 2 ==> ({
                &&& (r.0 matches Some(l) && l@ == channel_slice(data@, 2, 0, size as nat))
                &&& (r.4 matches Some(a) && a@ == channel_slice(data@, 2, 1, size as nat))
                &&& r.1 is None
                &&& r.2 is None
                &&& r.3 is None
            }),
            elems == 3 ==> ({
                &&& (r.1 matches Some(c) && c@ == channel_slice(data@, 3, 0, size as nat))
                &&& (r.2 matches Some(c) && c@ == channel_slice(data@, 3, 1, size as nat))
                &&& (r.3 matches Some(c) && c@ == channel_slice(data@, 3, 2, size as nat))
                &&& r.0 is None
                &&& r.4 is None
            }),
            elems == 4 ==> ({
                &&& (r.1 matches Some(c) && c@ == channel_slice(data@, 4, 0, size as nat))
                &&& (r.2 matches Some(c) && c@ == channel_slice(data@, 4, 1, size as nat))
                &&& (r.3 matches Some(c) && c@ == channel_slice(data@, 4, 2, size as nat))
                &&& (r.4 matches Some(c) && c@ == channel_slice(data@, 4, 3, size as nat))
                &&& r.0 is None
            }),
    {
        let dlen: usize = data.len();
        if elems == 1 {
            (Some(data), None, None, None, None)
        } else if elems == 2 {
            let mut luma: Vec<T> = Vec::new();
            let mut alpha: Vec<T> = Vec::new();
            let mut i: usize = 0;
            while i < size
                invariant
                    i <= size,
                    data@.len() == size * 2,
                    data@.len() == dlen,
                    luma@.len() == i,
                    alpha@.len() == i,
                    forall|k: int|
                        0 <= k < i ==> luma@[k] == data@[2 * k] && alpha@[k] == data@[2 * k + 1],
                decreases size - i,
            {
                luma.push(data[2 * i]);
                alpha.push(data[2 * i + 1]);
                i += 1;
            }
            proof {
                assert(luma@ =~= channel_slice(data@, 2, 0, size as nat));
                assert(alpha@ =~= channel_slice(data@, 2, 1, size as nat));
            }
            (Some(luma), None, None, None, Some(alpha))
        } else if elems == 3 {
            let mut red: Vec<T> = Vec::new();
            let mut green: Vec<T> = Vec::new();
            let mut blue: Vec<T> = Vec::new();
            let mut i: usize = 0;
            while i < size
                invariant
                    i <= size,
                    data@.len() == size * 3,
                    data@.len() == dlen,
                    red@.len() == i,
                    green@.len() == i,
                    blue@.len() == i,
                    forall|k: int|
                        0 <= k < i ==> red@[k] == data@[3 * k] && green@[k] == data@[3 * k + 1]
                            && blue@[k] == data@[3 * k + 2],
                decreases size - i,
            {
                red.push(data[3 * i]);
                green.push(data[3 * i + 1]);
                blue.push(data[3 * i + 2]);
                i += 1;
            }
            proof {
                assert(red@ =~= channel_slice(data@, 3, 0, size as nat));
                assert(green@ =~= channel_slice(data@, 3, 1, size as nat));
                assert(blue@ =~= channel_slice(data@, 3, 2, size as nat));
            }
            (None, Some(red), Some(green), Some(blue), None)
        } else {
            let mut red: Vec<T> = Vec::new();
            let mut green: Vec<T> = Vec::new();
            let mut blue: Vec<T> = Vec::new();
            let mut alpha: Vec<T> = Vec::new();
            let mut i: usize = 0;
            while i < size
                invariant
                    i <= size,
                    data@.len() == size * 4,
                    data@.len() == dlen,
                    red@.len() == i,
                    green@.len() == i,
                    blue@.len() == i,
                    alpha@.len() == i,
                    forall|k: int|
                        0 <= k < i ==> red@[k] == data@[4 * k] && green@[k] == data@[4 * k + 1]
                            && blue@[k] == data@[4 * k + 2] && alpha@[k] == data@[4 * k + 3],
                decreases size - i,
            {
                red.push(data[4 * i]);
                green.push(data[4 * i + 1]);
                blue.push(data[4 * i + 2]);
                alpha.push(data[4 * i + 3]);
                i += 1;
            }
            proof {
                assert(red@ =~= channel_slice(data@, 4, 0, size as nat));
                assert(green@ =~= channel_slice(data@, 4, 1, size as nat));
                assert(blue@ =~= channel_slice(data@, 4, 2, size as nat));
                assert(alpha@ =~= channel_slice(data@, 4, 3, size as nat));
            }
            (None, Some(red), Some(green), Some(blue), Some(alpha))
        }
    }

    /// Build a buffer from a flat interleaved vector, inferring the
    /// per-pixel element count from the vector's length: a vector of
    /// `width * height * e` samples is read as `e` samples per pixel,
    /// so `e == 1` is grayscale, `2` grayscale with alpha, `3` color and
    /// `4` color with alpha.
    ///
    /// Fails with `EmptyDimensions` if `width * height == 0`, with
    /// `LengthNotDivisible` if the length is not an exact multiple of
    /// `width * height`, and with `ElementCountOutOfRange` if the
    /// quotient is zero or above four.
    pub fn from_vec(width: usize, height: usize, data: Vec<T>) -> (r: Result<Self, BufferError>)
        ensures
            ({
                let n = (width as int) * (height as int);
                let len = data@.len() as int;
                &&& (n == 0 ==> r == Err::<Self, BufferError>(BufferError::EmptyDimensions))
                &&& (n > 0 && len % n != 0 ==> r == Err::<Self, BufferError>(
                    BufferError::LengthNotDivisible,
                ))
                &&& (n > 0 && len % n == 0 && !(1 <= len / n <= 4) ==> r == Err::<
                    Self,
                    BufferError,
                >(BufferError::ElementCountOutOfRange))
                &&& (n > 0 && len % n == 0 && 1 <= len / n <= 4 ==> (r matches Ok(b)
                    && from_flat_success(b@, width as int, height as int, data@)))
            }),
    {
        let dlen: usize = data.len();
        let n_opt = width.checked_mul(height);
        let ghost n: int = (width as int) * (height as int);
        let ghost len: int = data@.len() as int;
        let n = match n_opt {
            Some(n) => n,
            None => {
                // The pixel count exceeds what a vector can hold, so the
                // data length cannot be an exact positive multiple of it.
                proof {
                    vstd::arithmetic::div_mod::lemma_small_mod(data@.len(), n as nat);
                    vstd::arithmetic::div_mod::lemma_basic_div(len, n);
                }
                if dlen == 0 {
                    return Err(BufferError::ElementCountOutOfRange);
                } else {
                    return Err(BufferError::LengthNotDivisible);
                }
            },
        };
        if n == 0 {
            return Err(BufferError::EmptyDimensions);
        }
        let elems = dlen / n;
        proof {
            vstd::arithmetic::div_mod::lemma_fundamental_div_mod(len, n as int);
        }
        if dlen != n * elems {
            return Err(BufferError::LengthNotDivisible);
        }
        if elems == 0 || elems > 4 {
            return Err(BufferError::ElementCountOutOfRange);
        }
        proof {
            if width == 0 {
                assert((width as int) * (height as int) == 0);
            }
            if height == 0 {
                assert((width as int) * (height as int) == 0);
            }
            if elems == 1 {
                assert((n as int) * (elems as int) == n as int) by {
                    vstd::arithmetic::mul::lemma_mul_basics(n as int);
                }
            }
        }
        let (luma, red, green, blue, alpha) = Self::deinterleave(n, data, elems as u8);
        Ok(
            SerialImageBuffer {
                meta: None,
                luma,
                red,
                green,
                blue,
                alpha,
                pixel_elems: elems as u8,
                width,
                height,
            },
        )
    }

    /// Get the image metadata.
    pub fn get_metadata(&self) -> (r: Option<&ImageMetaData>)
        ensures
            match r {
                Some(m) => self@.meta == Some(*m),
                None => self@.meta is None,
            },
    {
        self.meta.as_ref()
    }

    /// Get a mutable reference to the image metadata.
    pub fn get_mut_metadata(&mut self) -> (r: Option<&mut ImageMetaData>)
        ensures
            (r is Some) == (old(self)@.meta is Some),
            r is Some ==> *r.unwrap() == old(self)@.meta.unwrap() && final(self)@ == (ImageView {
                meta: Some(*final(r.unwrap())),
                ..old(self)@
            }),
            r is None ==> final(self)@ == old(self)@,
    {
        self.meta.as_mut()
    }

    /// Replace the image metadata.
    pub fn set_metadata(&mut self, meta: Option<ImageMetaData>)
        ensures
            final(self)@ == (ImageView { meta, ..old(self)@ }),
    {
        self.meta = meta;
    }

    /// Get the luminosity channel data.
    pub fn get_luma(&self) -> (r: Option<&Vec<T>>)
        ensures
            match r {
                Some(c) => self@.luma == Some(c@),
                None => self@.luma is None,
            },
    {
        self.luma.as_ref()
    }

    /// Get a mutable reference to the luminosity channel data.
    pub fn get_mut_luma(&mut self) -> (r: Option<&mut Vec<T>>)
        ensures
            (r is Some) == (old(self)@.luma is Some),
            r is Some ==> (*r.unwrap())@ == old(self)@.luma.unwrap() && final(self)@ == (ImageView {
                luma: Some((*final(r.unwrap()))@),
                ..old(self)@
            }),
            r is None ==> final(self)@ == old(self)@,
    {
        self.luma.as_mut()
    }

    /// Get the red channel data.
    pub fn get_red(&self) -> (r: Option<&Vec<T>>)
        ensures
            match r {
                Some(c) => self@.red == Some(c@),
                None => self@.red is None,
            },
    {
        self.red.as_ref()
    }

    /// Get a mutable reference to the red channel data.
    pub fn get_mut_red(&mut self) -> (r: Option<&mut Vec<T>>)
        ensures
            (r is Some) == (old(self)@.red is Some),
            r is Some ==> (*r.unwrap())@ == old(self)@.red.unwrap() && final(self)@ == (ImageView {
                red: Some((*final(r.unwrap()))@),
                ..old(self)@
            }),
            r is None ==> final(self)@ == old(self)@,
    {
        self.red.as_mut()
    }

    /// Get the green channel data.
    pub fn get_green(&self) -> (r: Option<&Vec<T>>)
        ensures
            match r {
                Some(c) => self@.green == Some(c@),
                None => self@.green is None,
            },
    {
        self.green.as_ref()
    }

    /// Get a mutable reference to the green channel data.
    pub fn get_mut_green(&mut self) -> (r: Option<&mut Vec<T>>)
        ensures
            (r is Some) == (old(self)@.green is Some),
            r is Some ==> (*r.unwrap())@ == old(self)@.green.unwrap() && final(self)@ == (
            ImageView { green: Some((*final(r.unwrap()))@), ..old(self)@ }),
            r is None ==> final(self)@ == old(self)@,
    {
        self.green.as_mut()
    }

    /// Get the blue channel data.
    pub fn get_blue(&self) -> (r: Option<&Vec<T>>)
        ensures
            match r {
                Some(c) => self@.blue == Some(c@),
                None => self@.blue is None,
            },
    {
        self.blue.as_ref()
    }

    /// Get a mutable reference to the blue channel data.
    pub fn get_mut_blue(&mut self) -> (r: Option<&mut Vec<T>>)
        ensures
            (r is Some) == (old(self)@.blue is Some),
            r is Some ==> (*r.unwrap())@ == old(self)@.blue.unwrap() && final(self)@ == (ImageView {
                blue: Some((*final(r.unwrap()))@),
                ..old(self)@
            }),
            r is None ==> final(self)@ == old(self)@,
    {
        self.blue.as_mut()
    }

    /// Get the alpha channel data.
    pub fn get_alpha(&self) -> (r: Option<&Vec<T>>)
        ensures
            match r {
                Some(c) => self@.alpha == Some(c@),
                None => self@.alpha is None,
            },
    {
        self.alpha.as_ref()
    }

    /// Get a mutable reference to the alpha channel data.
    pub fn get_mut_alpha(&mut self) -> (r: Option<&mut Vec<T>>)
        ensures
            (r is Some) == (old(self)@.alpha is Some),
            r is Some ==> (*r.unwrap())@ == old(self)@.alpha.unwrap() && final(self)@ == (
            ImageView { alpha: Some((*final(r.unwrap()))@), ..old(self)@ }),
            r is None ==> final(self)@ == old(self)@,
    {
        self.alpha.as_mut()
    }

    /// Get the image width.
    pub fn width(&self) -> (r: usize)
        ensures
            r == self@.width,
    {
        self.width
    }

    /// Get the image height.
    pub fn height(&self) -> (r: usize)
        ensures
            r == self@.height,
    {
        self.height
    }

    /// Get the number of samples each pixel holds.
    pub fn pixel_elems(&self) -> (r: u8)
        ensures
            r == self@.pixel_elems,
    {
        self.pixel_elems
    }

    /// Check whether the image is grayscale without alpha.
    pub fn is_luma(&self) -> (r: bool)
        ensures
            r == (self@.pixel_elems == 1),
    {
        self.pixel_elems == 1
    }

    /// Check whether the image is color without alpha.
    pub fn is_rgb(&self) -> (r: bool)
        ensures
            r == (self@.pixel_elems == 3),
    {
        self.pixel_elems == 3
    }

    /// Build a buffer from explicit per-channel vectors.
    ///
    /// Fails with `EmptyDimensions` if `width * height == 0`, with
    /// `ChannelCombinationInvalid` if the present channels are not
    /// luminosity alone or all three colors (alpha may join either), and
    /// with `ChannelLengthMismatch` if a present channel holds a number
    /// of samples other than `width * height`.
    pub fn new(
        meta: Option<ImageMetaData>,
        luma: Option<Vec<T>>,
        red: Option<Vec<T>>,
        green: Option<Vec<T>>,
        blue: Option<Vec<T>>,
        alpha: Option<Vec<T>>,
        width: usize,
        height: usize,
    ) -> (r: Result<Self, BufferError>)
        ensures
            ({
                let n = (width as int) * (height as int);
                let legal = legal_combination(
                    luma is Some,
                    red is Some,
                    green is Some,
                    blue is Some,
                );
                let sized = channels_sized(
                    seq_of_opt_vec(luma),
                    seq_of_opt_vec(red),
                    seq_of_opt_vec(green),
                    seq_of_opt_vec(blue),
                    seq_of_opt_vec(alpha),
                    n,
                );
                &&& (width == 0 || height == 0 ==> r == Err::<Self, BufferError>(
                    BufferError::EmptyDimensions,
                ))
                &&& (width > 0 && height > 0 && !legal ==> r == Err::<Self, BufferError>(
                    BufferError::ChannelCombinationInvalid,
                ))
                &&& (width > 0 && height > 0 && legal && !sized ==> r == Err::<Self, BufferError>(
                    BufferError::ChannelLengthMismatch,
                ))
                &&& (width > 0 && height > 0 && legal && sized ==> (r matches Ok(b) && ({
                    &&& b@.wf()
                    &&& b@.meta == meta
                    &&& b@.luma == seq_of_opt_vec(luma)
                    &&& b@.red == seq_of_opt_vec(red)
                    &&& b@.green == seq_of_opt_vec(green)
                    &&& b@.blue == seq_of_opt_vec(blue)
                    &&& b@.alpha == seq_of_opt_vec(alpha)
                    &&& b@.width == width
                    &&& b@.height == height
                })))
            }),
    {
        if width == 0 || height == 0 {
            return Err(BufferError::EmptyDimensions);
        }
        let has_luma = luma.is_some();
        let has_red = red.is_some();
        let has_green = green.is_some();
        let has_blue = blue.is_some();
        let legal = (has_luma && !has_red && !has_green && !has_blue) || (!has_luma && has_red
            && has_green && has_blue);
        if !legal {
            return Err(BufferError::ChannelCombinationInvalid);
        }
        let n = match width.checked_mul(height) {
            Some(n) => n,
            None => {
                // The pixel count exceeds what any vector can hold, and a
                // legal combination always has at least one channel
                // present, so some present channel is too short.
                let _present_len: usize = match (&luma, &red) {
                    (Some(c), _) => c.len(),
                    (_, Some(c)) => c.len(),
                    _ => 0,
                };
                return Err(BufferError::ChannelLengthMismatch);
            },
        };
        if !Self::channel_len_is(&luma, n) {
            return Err(BufferError::ChannelLengthMismatch);
        }
        if !Self::channel_len_is(&red, n) {
            return Err(BufferError::ChannelLengthMismatch);
        }
        if !Self::channel_len_is(&green, n) {
            return Err(BufferError::ChannelLengthMismatch);
        }
        if !Self::channel_len_is(&blue, n) {
            return Err(BufferError::ChannelLengthMismatch);
        }
        if !Self::channel_len_is(&alpha, n) {
            return Err(BufferError::ChannelLengthMismatch);
        }
        let mut pixel_elems: u8 = 0;
        if has_luma {
            pixel_elems = pixel_elems + 1;
        }
        if has_red {
            pixel_elems = pixel_elems + 3;
        }
        if alpha.is_some() {
            pixel_elems = pixel_elems + 1;
        }
        Ok(
            SerialImageBuffer {
                meta,
                luma,
                red,
                green,
                blue,
                alpha,
                pixel_elems,
                width,
                height,
            },
        )
    }

    /// Whether the channel, if present, holds exactly `n` samples.
    fn channel_len_is(c: &Option<Vec<T>>, n: usize) -> (r: bool)
        ensures
            r == (match *c {
                Some(v) => v@.len() == n,
                None => true,
            }),
    {
        match c {
            Some(v) => v.len() == n,
            None => true,
        }
    }

    /// Build a color buffer from mandatory red, green and blue channels
    /// and an optional alpha channel. This is the constructor shape for
    /// sample kinds whose grayscale layouts are not supported, so no
    /// channel combination can be illegal here.
    ///
    /// Fails with `EmptyDimensions` if `width * height == 0` and with
    /// `ChannelLengthMismatch` if any given channel holds a number of
    /// samples other than `width * height`.
    pub fn from_color_channels(
        meta: Option<ImageMetaData>,
        red: Vec<T>,
        green: Vec<T>,
        blue: Vec<T>,
        alpha: Option<Vec<T>>,
        width: usize,
        height: usize,
    ) -> (r: Result<Self, BufferError>)
        ensures
            ({
                let n = (width as int) * (height as int);
                let sized = channels_sized(
                    None::<Seq<T>>,
                    Some(red@),
                    Some(green@),
                    Some(blue@),
                    seq_of_opt_vec(alpha),
                    n,
                );
                &&& (width == 0 || height == 0 ==> r == Err::<Self, BufferError>(
                    BufferError::EmptyDimensions,
                ))
                &&& (width > 0 && height > 0 && !sized ==> r == Err::<Self, BufferError>(
                    BufferError::ChannelLengthMismatch,
                ))
                &&& (width > 0 && height > 0 && sized ==> (r matches Ok(b) && ({
                    &&& b@.wf()
                    &&& b@.meta == meta
                    &&& b@.luma is None
                    &&& b@.red == Some(red@)
                    &&& b@.green == Some(green@)
                    &&& b@.blue == Some(blue@)
                    &&& b@.alpha == seq_of_opt_vec(alpha)
                    &&& b@.width == width
                    &&& b@.height == height
                })))
            }),
    {
        Self::new(meta, None, Some(red), Some(green), Some(blue), alpha, width, height)
    }

    /// Check at run time that this buffer satisfies the well-formedness
    /// invariant that the constructors establish.
    pub fn is_well_formed(&self) -> (r: bool)
        ensures
            r == self@.wf(),
    {
        if self.width == 0 || self.height == 0 {
            return false;
        }
        let n = match self.width.checked_mul(self.height) {
            Some(n) => n,
            None => {
                return false;
            },
        };
        let has_luma = self.luma.is_some();
        let has_red = self.red.is_some();
        let has_green = self.green.is_some();
        let has_blue = self.blue.is_some();
        let legal = (has_luma && !has_red && !has_green && !has_blue) || (!has_luma && has_red
            && has_green && has_blue);
        if !legal {
            return false;
        }
        let mut implied: u8 = 0;
        if has_luma {
            implied = implied + 1;
        }
        if has_red {
            implied = implied + 3;
        }
        if self.alpha.is_some() {
            implied = implied + 1;
        }
        if self.pixel_elems != implied {
            return false;
        }
        Self::channel_len_is(&self.luma, n) && Self::channel_len_is(&self.red, n)
            && Self::channel_len_is(&self.green, n) && Self::channel_len_is(&self.blue, n)
            && Self::channel_len_is(&self.alpha, n)
    }

    /// Consume the buffer and return its samples as one flat interleaved
    /// vector, pixel by pixel, in the fixed channel order. A grayscale
    /// buffer hands its luminosity vector over without a copy. A buffer
    /// with no pixels — unreachable through the validating constructors,
    /// but a defined case — yields the empty vector.
    pub fn into_vec(self) -> (r: Vec<T>)
        requires
            self@.wf() || self@.pixels() == 0,
        ensures
            self@.wf() ==> r@ == self@.flat() && r@.len() == self@.pixels() * self@.pixel_elems,
            self@.pixels() == 0 ==> r@ == Seq::<T>::empty(),
    {
        let ghost v = self@;
        let n = match self.width.checked_mul(self.height) {
            Some(n) => n,
            None => {
                // A product above usize::MAX is neither well formed nor
                // zero, so the callers' obligations rule it out.
                proof {
                    assert(false);
                }
                return Vec::new();
            },
        };
        if n == 0 {
            return Vec::new();
        }
        if self.pixel_elems == 1 {
            let luma = self.luma.unwrap();
            proof {
                assert(luma@.len() == v.pixels() * v.pixel_elems) by (nonlinear_arith)
                    requires
                        luma@.len() == v.width * v.height,
                        v.pixels() == v.width * v.height,
                        v.pixel_elems == 1,
                ;
            }
            luma
        } else if self.pixel_elems == 2 {
            let luma = self.luma.unwrap();
            let alpha = self.alpha.unwrap();
            let mut data: Vec<T> = Vec::new();
            let mut i: usize = 0;
            while i < n
                invariant
                    i <= n,
                    luma@.len() == n,
                    alpha@.len() == n,
                    data@.len() == 2 * i,
                    forall|k: int|
                        0 <= k < data@.len() ==> data@[k] == (if k % 2 == 0 {
                            luma@[k / 2]
                        } else {
                            alpha@[k / 2]
                        }),
                decreases n - i,
            {
                proof {
                    assert((2 * i as int) % 2 == 0 && (2 * i as int) / 2 == i as int)
                        by (nonlinear_arith);
                    assert((2 * i as int + 1) % 2 == 1 && (2 * i as int + 1) / 2 == i as int)
                        by (nonlinear_arith);
                }
                data.push(luma[i]);
                data.push(alpha[i]);
                i += 1;
            }
            proof {
                assert(data@ =~= interleave2(n as nat, luma@, alpha@));
                assert(data@.len() == v.pixels() * v.pixel_elems) by (nonlinear_arith)
                    requires
                        data@.len() == 2 * (n as int),
                        n as int == v.width * v.height,
                        v.pixels() == v.width * v.height,
                        v.pixel_elems == 2,
                ;
            }
            data
        } else if self.pixel_elems == 3 {
            let red = self.red.unwrap();
            let green = self.green.unwrap();
            let blue = self.blue.unwrap();
            let mut data: Vec<T> = Vec::new();
            let mut i: usize = 0;
            while i < n
                invariant
                    i <= n,
                    red@.len() == n,
                    green@.len() == n,
                    blue@.len() == n,
                    data@.len() == 3 * i,
                    forall|k: int|
                        0 <= k < data@.len() ==> data@[k] == (if k % 3 == 0 {
                            red@[k / 3]
                        } else if k % 3 == 1 {
                            green@[k / 3]
                        } else {
                            blue@[k / 3]
                        }),
                decreases n - i,
            {
                proof {
                    assert((3 * i as int) % 3 == 0 && (3 * i as int) / 3 == i as int)
                        by (nonlinear_arith);
                    assert((3 * i as int + 1) % 3 == 1 && (3 * i as int + 1) / 3 == i as int)
                        by (nonlinear_arith);
                    assert((3 * i as int + 2) % 3 == 2 && (3 * i as int + 2) / 3 == i as int)
                        by (nonlinear_arith);
                }
                data.push(red[i]);
                data.push(green[i]);
                data.push(blue[i]);
                i += 1;
            }
            proof {
                assert(data@ =~= interleave3(n as nat, red@, green@, blue@));
                assert(data@.len() == v.pixels() * v.pixel_elems) by (nonlinear_arith)
                    requires
                        data@.len() == 3 * (n as int),
                        n as int == v.width * v.height,
                        v.pixels() == v.width * v.height,
                        v.pixel_elems == 3,
                ;
            }
            data
        } else {
            let red = self.red.unwrap();
            let green = self.green.unwrap();
            let blue = self.blue.unwrap();
            let alpha = self.alpha.unwrap();
            let mut data: Vec<T> = Vec::new();
            let mut i: usize = 0;
            while i < n
                invariant
                    i <= n,
                    red@.len() == n,
                    green@.len() == n,
                    blue@.len() == n,
                    alpha@.len() == n,
                    data@.len() == 4 * i,
                    forall|k: int|
                        0 <= k < data@.len() ==> data@[k] == (if k % 4 == 0 {
                            red@[k / 4]
                        } else if k % 4 == 1 {
                            green@[k / 4]
                        } else if k % 4 == 2 {
                            blue@[k / 4]
                        } else {
                            alpha@[k / 4]
                        }),
                decreases n - i,
            {
                proof {
                    assert((4 * i as int) % 4 == 0 && (4 * i as int) / 4 == i as int)
                        by (nonlinear_arith);
                    assert((4 * i as int + 1) % 4 == 1 && (4 * i as int + 1) / 4 == i as int)
                        by (nonlinear_arith);
                    assert((4 * i as int + 2) % 4 == 2 && (4 * i as int + 2) / 4 == i as int)
                        by (nonlinear_arith);
                    assert((4 * i as int + 3) % 4 == 3 && (4 * i as int + 3) / 4 == i as int)
                        by (nonlinear_arith);
                }
                data.push(red[i]);
                data.push(green[i]);
                data.push(blue[i]);
                data.push(alpha[i]);
                i += 1;
            }
            proof {
                assert(data@ =~= interleave4(n as nat, red@, green@, blue@, alpha@));
                assert(data@.len() == v.pixels() * v.pixel_elems) by (nonlinear_arith)
                    requires
                        data@.len() == 4 * (n as int),
                        n as int == v.width * v.height,
                        v.pixels() == v.width * v.height,
                        v.pixel_elems == 4,
                ;
            }
            data
        }
    }
}

/// Round trip: for every well-formed buffer, rebuilding a buffer from
/// its flat interleaved form by length inference (as `from_vec` does
/// with the output of `into_vec`, and as `try_from_dynamic` does with
/// the image `into_dynamic` produced) succeeds and recovers the same
/// channels, shape and element count exactly. The arithmetic clauses
/// are the success conditions of that inference.
pub proof fn lemma_round_trip<T>(v: ImageView<T>)
    requires
        v.wf(),
    ensures
        v.pixels() > 0,
        v.flat().len() as int % v.pixels() == 0,
        v.flat().len() as int / v.pixels() == v.pixel_elems,
        from_flat_success(ImageView { meta: None::<ImageMetaData>, ..v }, v.width, v.height, v.flat()),
{
    let n = v.pixels() as nat;
    let flat = v.flat();
    assert(v.pixels() > 0) by (nonlinear_arith)
        requires
            v.width > 0,
            v.height > 0,
            v.pixels() == v.width * v.height,
    ;
    if v.pixel_elems == 1 {
        vstd::arithmetic::div_mod::lemma_fundamental_div_mod_converse(
            flat.len() as int,
            v.pixels(),
            1,
            0,
        );
        assert(flat.len() as int == 1 * v.pixels()) by (nonlinear_arith)
            requires
                flat.len() == v.pixels(),
        ;
    } else if v.pixel_elems == 2 {
        vstd::arithmetic::div_mod::lemma_fundamental_div_mod_converse(
            flat.len() as int,
            v.pixels(),
            2,
            0,
        );
        lemma_round_trip2(n, v.luma.unwrap(), v.alpha.unwrap());
    } else if v.pixel_elems == 3 {
        vstd::arithmetic::div_mod::lemma_fundamental_div_mod_converse(
            flat.len() as int,
            v.pixels(),
            3,
            0,
        );
        lemma_round_trip3(n, v.red.unwrap(), v.green.unwrap(), v.blue.unwrap());
    } else {
        vstd::arithmetic::div_mod::lemma_fundamental_div_mod_converse(
            flat.len() as int,
            v.pixels(),
            4,
            0,
        );
        lemma_round_trip4(n, v.red.unwrap(), v.green.unwrap(), v.blue.unwrap(), v.alpha.unwrap());
    }
}

/// Flat round trip: a buffer built by flat-vector inference (the
/// success case of `from_vec`) flattens back, as `into_vec` does, to
/// the very vector it was built from.
pub proof fn lemma_flat_round_trip<T>(v: ImageView<T>, width: int, height: int, data: Seq<T>)
    requires
        width * height > 0,
        data.len() as int % (width * height) == 0,
        from_flat_success(v, width, height, data),
    ensures
        v.flat() == data,
{
    let n = width * height;
    let e = data.len() as int / n;
    vstd::arithmetic::div_mod::lemma_fundamental_div_mod(data.len() as int, n);
    assert(data.len() == n * e);
    assert(v.pixels() == n);
    if e == 1 {
        assert(v.flat() == data);
    } else if e == 2 {
        assert(data.len() == 2 * n) by (nonlinear_arith)
            requires
                data.len() == n * e,
                e == 2,
        ;
        lemma_reassemble2(n as nat, data);
    } else if e == 3 {
        assert(data.len() == 3 * n) by (nonlinear_arith)
            requires
                data.len() == n * e,
                e == 3,
        ;
        lemma_reassemble3(n as nat, data);
    } else {
        assert(data.len() == 4 * n) by (nonlinear_arith)
            requires
                data.len() == n * e,
                e == 4,
        ;
        lemma_reassemble4(n as nat, data);
    }
}

/// Element count consistency: for every well-formed buffer, the cached
/// per-pixel element count equals the count the present channels imply,
/// and lies between one and four.
pub proof fn lemma_element_count_consistent<T>(v: ImageView<T>)
    requires
        v.wf(),
    ensures
        v.pixel_elems == v.implied_elems(),
        1 <= v.pixel_elems <= 4,
{
}

} // verus!
