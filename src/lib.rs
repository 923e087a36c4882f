//! A brotli codec with bounded-buffer entry points: compression into and
//! decompression out of caller-sized buffers, and their growable-vector
//! counterparts, over slice-backed streaming adapters.
pub mod adapters;
pub mod codec;
pub mod dictionary;
pub mod status;

pub use adapters::{SliceReader, SliceWriter, VecWriter};
pub use dictionary::Dictionary;
pub use codec::{
    clamp_window, compress, compress_fixed, compress_into, compression_bound, decompress, decompress_fixed,
    written_prefix,
};
pub use status::{BrotliStatus, DEFAULT_WINDOW_SIZE};
