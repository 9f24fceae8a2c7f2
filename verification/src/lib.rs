//! A serializable, channel-separated image buffer.
//!
//! Pixel samples are stored per channel (luminosity, red, green, blue,
//! alpha) rather than interleaved. The library validates that a buffer's
//! declared shape is always consistent with its stored sample counts,
//! and converts losslessly between the channel-separated form and a flat
//! interleaved sample vector, as well as to and from the packed-pixel
//! buffer types of the `image` crate.

mod buffer;
mod codec;
mod error;
mod interop;
mod meta;

pub use buffer::channels_sized;
pub use buffer::from_flat_success;
pub use buffer::legal_combination;
pub use buffer::lemma_element_count_consistent;
pub use buffer::lemma_flat_round_trip;
pub use buffer::lemma_round_trip;
pub use buffer::seq_of_opt_vec;
pub use buffer::ImageView;
pub use buffer::SerialImageBuffer;
pub use codec::channel_slice;
pub use codec::interleave2;
pub use codec::interleave3;
pub use codec::interleave4;
pub use codec::lemma_reassemble2;
pub use codec::lemma_reassemble3;
pub use codec::lemma_reassemble4;
pub use codec::lemma_round_trip1;
pub use codec::lemma_round_trip2;
pub use codec::lemma_round_trip3;
pub use codec::lemma_round_trip4;
pub use error::BufferError;
pub use interop::dyn_parts_u16;
pub use interop::dyn_parts_u8;
pub use meta::ImageMetaData;
