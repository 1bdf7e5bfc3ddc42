//! Compression of byte buffers with upkr in its Z80 profile, with the packed
//! bytes delivered into a caller-sized output region.

pub mod compress;
pub mod laws;
pub mod packer;
pub mod profile;

pub use compress::{copy_packed, upkr_compress};
pub use packer::MAX_INPUT_LEN;
pub use profile::{clamp_level, config, PackConfig, MAX_LEVEL};
