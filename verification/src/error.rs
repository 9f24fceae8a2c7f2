use vstd::prelude::*;

verus! {

/// The ways in which building or converting a channel-separated image
/// buffer can fail. Every constructor reports the first rule that the
/// inputs break, so each variant identifies one validation rule.
#[derive(Clone, Copy, Debug, PartialEq, Eq, Structural)]
pub enum BufferError {
    /// The width or the height is zero.
    EmptyDimensions,
    /// The set of present channels is not one of the four legal layouts:
    /// luminosity, luminosity with alpha, red-green-blue, or
    /// red-green-blue with alpha.
    ChannelCombinationInvalid,
    /// A present channel holds a number of samples other than
    /// `width * height`.
    ChannelLengthMismatch,
    /// A flat sample vector's length is not an exact multiple of
    /// `width * height`.
    LengthNotDivisible,
    /// A flat sample vector implies fewer than one or more than four
    /// samples per pixel.
    ElementCountOutOfRange,
    /// The buffer's layout has no counterpart among the host image
    /// library's packed-pixel buffer types, or its dimensions do not fit
    /// the host library's limits.
    UnsupportedLayout,
    /// A host image value uses a sample kind or channel arity that this
    /// container does not store.
    UnsupportedSourceFormat,
}

} // verus!
