//! Small bit-field helpers shared by every component, together with the
//! bound lemmas that make masked arithmetic verify without per-site
//! bit-vector proofs.

use vstd::prelude::*;

verus! {

/// Bit `i` of `x`, moved down to position 0.
pub fn bit(x: u8, i: u8) -> (r: u8)
    requires
        i < 8,
    ensures
        r == (x >> i) & 1,
        r <= 1,
{
    proof {
        lemma_u8_shr_and1_le(x, i);
    }
    (x >> i) & 1
}

/// 8-bit addition wrapping at 2^8.
pub open spec fn wrap_add8(x: u8, y: u8) -> u8 {
    if x + y > 0xff {
        (x + y - 0x100) as u8
    } else {
        (x + y) as u8
    }
}

/// 8-bit subtraction wrapping at 0.
pub open spec fn wrap_sub8(x: u8, y: u8) -> u8 {
    if x - y < 0 {
        (x - y + 0x100) as u8
    } else {
        (x - y) as u8
    }
}

/// 16-bit addition wrapping at 2^16.
pub open spec fn wrap_add16(x: u16, y: u16) -> u16 {
    if x + y > 0xffff {
        (x + y - 0x10000) as u16
    } else {
        (x + y) as u16
    }
}

/// 16-bit subtraction wrapping at 0.
pub open spec fn wrap_sub16(x: u16, y: u16) -> u16 {
    if x - y < 0 {
        (x - y + 0x10000) as u16
    } else {
        (x - y) as u16
    }
}


/// Pointer-width addition wrapping at the machine word.
pub open spec fn wrap_add_usize(x: usize, y: usize) -> usize {
    if x + y > usize::MAX {
        (x + y - usize::MAX - 1) as usize
    } else {
        (x + y) as usize
    }
}

pub broadcast proof fn lemma_u8_and_le_mask(x: u8, m: u8)
    ensures
        #[trigger] (x & m) <= m,
{
    assert(x & m <= m) by (bit_vector);
}

pub proof fn lemma_u8_shr_and1_le(x: u8, n: u8)
    requires
        n < 8,
    ensures
        ((x >> n) & 1) <= 1,
{
    assert(((x >> n) & 1) <= 1) by (bit_vector);
}

pub proof fn lemma_u16_shr_le(x: u16, n: u16)
    requires
        n < 16,
    ensures
        (x >> n) <= x,
{
    assert(n < 16 ==> (x >> n) <= x) by (bit_vector);
}

} // verus!
