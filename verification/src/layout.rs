//! Byte-level building blocks for fixed-offset records.
//!
//! The boot ROM reads every multi-byte field of a configuration block as a
//! little-endian integer straight out of flash, and treats every reserved
//! region as inert only when it is all zeroes. The spec functions here give
//! the contracts of the record builders a direct vocabulary for both.

use vstd::prelude::*;

verus! {

/// The little-endian four-byte image of a 32-bit field, exactly as the boot
/// ROM reads it from flash.
pub open spec fn le32(x: u32) -> Seq<u8> {
    seq![
        (x % 256) as u8,
        ((x / 256) % 256) as u8,
        ((x / 65536) % 256) as u8,
        ((x / 16777216) % 256) as u8,
    ]
}

/// `n` zero bytes: the inert bit pattern of every unset or reserved region.
pub open spec fn zeroed(n: nat) -> Seq<u8> {
    Seq::new(n, |i: int| 0u8)
}

/// A zero field reads back as four zero bytes.
pub proof fn lemma_le32_zero()
    ensures
        le32(0) == zeroed(4),
{
    assert(le32(0) =~= zeroed(4));
}

/// Appends the little-endian image of `x` to `out`.
pub fn push_le32(out: &mut Vec<u8>, x: u32)
    ensures
        final(out)@ == old(out)@ + le32(x),
{
    out.push((x % 256) as u8);
    out.push(((x / 256) % 256) as u8);
    out.push(((x / 65536) % 256) as u8);
    out.push(((x / 16777216) % 256) as u8);
    assert(out@ =~= old(out)@ + le32(x));
}

/// Appends `n` zero bytes to `out`.
pub fn push_zeroed(out: &mut Vec<u8>, n: usize)
    ensures
        final(out)@ == old(out)@ + zeroed(n as nat),
{
    let mut i: usize = 0;
    assert(out@ =~= old(out)@ + zeroed(0));
    while i < n
        invariant
            i <= n,
            out@ == old(out)@ + zeroed(i as nat),
        decreases n - i,
    {
        out.push(0u8);
        assert(out@ =~= old(out)@ + zeroed((i + 1) as nat));
        i = i + 1;
    }
}

} // verus!
