use vstd::prelude::*;

verus! {

/// Highest compression level that the packer takes.
pub const MAX_LEVEL: u8 = 9;

/// The switches of upkr's format that this library sets; every other option
/// of the packer keeps its default.
#[derive(Clone, Copy, Debug, PartialEq, Eq, Structural)]
pub struct PackConfig {
    /// Shift bits, not whole bytes, into the rANS state.
    pub use_bitstream: bool,
    /// Reverse the bit order within the bitstream.
    pub bitstream_is_big_endian: bool,
    /// Invert the encoding of bits in the rANS coder.
    pub invert_bit_encoding: bool,
    /// Use the simplified probability update.
    pub simplified_prob_update: bool,
}

/// The Z80 profile: every switch on, which makes decompression cheap on
/// 8-bit CPUs.
pub open spec fn z80_profile() -> PackConfig {
    PackConfig {
        use_bitstream: true,
        bitstream_is_big_endian: true,
        invert_bit_encoding: true,
        simplified_prob_update: true,
    }
}

/// A requested level brought into `0..=MAX_LEVEL`.
pub open spec fn clamped_level(level: int) -> u8 {
    if level < 0 {
        0
    } else if level > MAX_LEVEL {
        MAX_LEVEL
    } else {
        level as u8
    }
}

/// The configuration used for every compression: the Z80 profile.
pub fn config() -> (r: PackConfig)
    ensures
        r == z80_profile(),
{
    PackConfig {
        use_bitstream: true,
        bitstream_is_big_endian: true,
        invert_bit_encoding: true,
        simplified_prob_update: true,
    }
}

/// Clamps a level into `0..=MAX_LEVEL`: below is taken as 0, above as `MAX_LEVEL`.
pub fn clamp_level(level: i32) -> (r: u8)
    ensures
        r == clamped_level(level as int),
        r <= MAX_LEVEL,
{
    if level < 0 {
        0
    } else if level > MAX_LEVEL as i32 {
        MAX_LEVEL
    } else {
        level as u8
    }
}

} // verus!
