use vstd::prelude::*;

verus! {

/// An opaque record of capture metadata that a buffer may carry.
///
/// The buffer never inspects this record: it is stored, handed out and
/// replaced as a whole, and no validation ties it to the pixel data.
#[derive(Clone, Debug, PartialEq)]
pub struct ImageMetaData {
    /// Name of the instrument that produced the image.
    pub camera_name: String,
    /// Capture time, in milliseconds since an epoch the producer picks.
    pub timestamp_ms: u64,
    /// Exposure duration in microseconds.
    pub exposure_us: u64,
    /// Horizontal binning applied on capture.
    pub bin_x: u32,
    /// Vertical binning applied on capture.
    pub bin_y: u32,
    /// Detector gain setting.
    pub gain: i64,
    /// Detector offset setting.
    pub offset: i64,
    /// Free-form key-value annotations.
    pub extended: Vec<(String, String)>,
}

} // verus!
