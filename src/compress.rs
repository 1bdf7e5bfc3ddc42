use vstd::prelude::*;

use crate::packer::{pack, packing_outcome, MAX_INPUT_LEN};
use crate::profile::{clamp_level, clamped_level, config, z80_profile};

verus! {

/// The output region after `packed` has been delivered into `out`: the first
/// `min(packed.len(), out.len())` bytes come from `packed`, the rest keep
/// their value.
pub open spec fn delivered(out: Seq<u8>, packed: Seq<u8>) -> Seq<u8> {
    Seq::new(out.len(), |i: int| if i < packed.len() { packed[i] } else { out[i] })
}

/// The packed data `p` is a possible result of packing `input` in the Z80
/// profile at `level` clamped into `0..=9`.
pub open spec fn z80_outcome(input: Seq<u8>, level: int, p: Seq<u8>) -> bool {
    packing_outcome(input, clamped_level(level), z80_profile(), p)
}

/// Copies as much of `packed` as fits into `output` and returns the full length
/// of `packed`, so that a result above `output.len()` tells of truncation.
pub fn copy_packed(output: &mut [u8], packed: &[u8]) -> (r: usize)
    ensures
        r == packed@.len(),
        final(output)@ == delivered(old(output)@, packed@),
        final(output)@.len() == old(output)@.len(),
        forall|i: int|
            0 <= i < old(output)@.len() && i < packed@.len() ==> #[trigger] final(output)@[i]
                == packed@[i],
        forall|i: int|
            packed@.len() <= i < old(output)@.len() ==> #[trigger] final(output)@[i]
                == old(output)@[i],
{
    let n: usize = if packed.len() < output.len() {
        packed.len()
    } else {
        output.len()
    };
    let mut i: usize = 0;
    while i < n
        invariant
            n <= packed@.len(),
            n <= output@.len(),
            n == packed@.len() || n == output@.len(),
            i <= n,
            output@.len() == old(output)@.len(),
            forall|j: int| 0 <= j < i ==> #[trigger] output@[j] == packed@[j],
            forall|j: int| i <= j < output@.len() ==> #[trigger] output@[j] == old(output)@[j],
        decreases n - i,
    {
        output[i] = packed[i];
        i = i + 1;
    }
    assert(output@ =~= delivered(old(output)@, packed@));
    packed.len()
}

/// Compresses `input_buffer` with upkr in the Z80 profile at
/// `compression_level` clamped into `0..=9`, copies as much of the packed
/// bytes as fits into `output_buffer`, and returns the full packed length.
pub fn upkr_compress(output_buffer: &mut [u8], input_buffer: &[u8], compression_level: i32) -> (r:
    usize)
    requires
        input_buffer@.len() < MAX_INPUT_LEN,
    ensures
        exists|p: Seq<u8>|
            #[trigger] z80_outcome(input_buffer@, compression_level as int, p) && r == p.len()
                && final(output_buffer)@ == delivered(old(output_buffer)@, p),
        final(output_buffer)@.len() == old(output_buffer)@.len(),
{
    let level = clamp_level(compression_level);
    let profile = config();
    let packed = pack(input_buffer, level, &profile);
    let r = copy_packed(output_buffer, packed.as_slice());
    assert(z80_outcome(input_buffer@, compression_level as int, packed@));
    r
}

} // verus!
