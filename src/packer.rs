use vstd::prelude::*;

use crate::profile::{PackConfig, MAX_LEVEL};

verus! {

/// Inputs must be shorter than this many bytes: upkr builds a suffix array
/// over the whole input, and its suffix sort only takes texts shorter than
/// `i32::MAX` bytes.
pub const MAX_INPUT_LEN: usize = 0x7fff_ffff;

/// The bytes that upkr's greedy packer (level 0) produces for `data`, with
/// upkr's default configuration but for the switches that `config` sets.
pub uninterp spec fn greedy_packed(data: Seq<u8>, config: PackConfig) -> Seq<u8>;

/// `p` is a result that upkr's packer may return for `data` at `level`, with
/// upkr's default configuration but for the switches that `config` sets. At
/// levels above 0 the packer ranks its choices by floating-point costs, so
/// this is a relation, not a function of the arguments.
pub uninterp spec fn pack_result(data: Seq<u8>, level: u8, config: PackConfig, p: Seq<u8>) -> bool;

/// The packed data `p` is a possible result of packing `data` at `level`:
/// one the packer may return, and at level 0, where the packer makes integer
/// decisions only, the one that its arguments fix.
pub open spec fn packing_outcome(data: Seq<u8>, level: u8, config: PackConfig, p: Seq<u8>) -> bool {
    &&& pack_result(data, level, config, p)
    &&& level == 0 ==> p == greedy_packed(data, config)
}

/// Relies on upkr::pack: it compresses `data` with no progress callback and
/// returns one of its possible results; at level 0 the bytes it returns depend
/// on the data and the configuration alone. It panics on inputs of
/// `i32::MAX` bytes or more.
#[verifier::external_body]
pub(crate) fn pack(data: &[u8], level: u8, config: &PackConfig) -> (r: Vec<u8>)
    requires
        level <= MAX_LEVEL,
        data@.len() < MAX_INPUT_LEN,
    ensures
        pack_result(data@, level, *config, r@),
        level == 0 ==> r@ == greedy_packed(data@, *config),
{
    let mut c = upkr::Config::default();
    c.use_bitstream = config.use_bitstream;
    c.bitstream_is_big_endian = config.bitstream_is_big_endian;
    c.invert_bit_encoding = config.invert_bit_encoding;
    c.simplified_prob_update = config.simplified_prob_update;
    upkr::pack(data, level, &c, None)
}

} // verus!
