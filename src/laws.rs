use vstd::prelude::*;

use crate::compress::{delivered, z80_outcome};
use crate::profile::clamped_level;

verus! {

/// When the output region is shorter than the packed data, all of it is
/// overwritten with the first `out.len()` packed bytes.
pub proof fn lemma_truncated_output(out: Seq<u8>, packed: Seq<u8>)
    requires
        out.len() < packed.len(),
    ensures
        delivered(out, packed) == packed.subrange(0, out.len() as int),
{
    assert(delivered(out, packed) =~= packed.subrange(0, out.len() as int));
}

/// When the output region holds the packed data, its first `packed.len()`
/// bytes are the packed data and the bytes after them are untouched.
pub proof fn lemma_full_output(out: Seq<u8>, packed: Seq<u8>)
    requires
        out.len() >= packed.len(),
    ensures
        delivered(out, packed).len() == out.len(),
        delivered(out, packed).subrange(0, packed.len() as int) == packed,
        delivered(out, packed).subrange(packed.len() as int, out.len() as int) == out.subrange(
            packed.len() as int,
            out.len() as int,
        ),
{
    assert(delivered(out, packed).subrange(0, packed.len() as int) =~= packed);
    assert(delivered(out, packed).subrange(packed.len() as int, out.len() as int)
        =~= out.subrange(packed.len() as int, out.len() as int));
}

/// A level is used as its clamped value: the packed data that a compression
/// at `level` may deliver are exactly those that one at
/// `clamped_level(level)` may deliver.
pub proof fn lemma_level_clamped(input: Seq<u8>, level: int, p: Seq<u8>)
    ensures
        z80_outcome(input, level, p) == z80_outcome(input, clamped_level(level) as int, p),
{
}

/// Two levels that clamp to the same value admit the same packed data.
pub proof fn lemma_same_clamp_same_outcomes(input: Seq<u8>, a: int, b: int, p: Seq<u8>)
    requires
        clamped_level(a) == clamped_level(b),
    ensures
        z80_outcome(input, a, p) == z80_outcome(input, b, p),
{
}

/// At levels that clamp to 0 the packed data are fixed by the input: two
/// compressions of one input deliver the same bytes into output regions of
/// equal length and report the same length.
pub proof fn lemma_greedy_repeat_stable(
    out1: Seq<u8>,
    out2: Seq<u8>,
    input: Seq<u8>,
    level: int,
    p1: Seq<u8>,
    p2: Seq<u8>,
)
    requires
        clamped_level(level) == 0,
        out1.len() == out2.len(),
        z80_outcome(input, level, p1),
        z80_outcome(input, level, p2),
    ensures
        p1.len() == p2.len(),
        ({
            let n = if p1.len() < out1.len() {
                p1.len() as int
            } else {
                out1.len() as int
            };
            delivered(out1, p1).subrange(0, n) == delivered(out2, p2).subrange(0, n)
        }),
{
    let n = if p1.len() < out1.len() {
        p1.len() as int
    } else {
        out1.len() as int
    };
    assert(delivered(out1, p1).subrange(0, n) =~= delivered(out2, p2).subrange(0, n));
}

} // verus!
