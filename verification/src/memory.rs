//! Size and alignment arithmetic for device memory requests.

use vstd::prelude::*;

use vstd::arithmetic::div_mod::{
    lemma_fundamental_div_mod,
    lemma_mod_bound,
    lemma_mod_multiples_basic,
};
use vstd::arithmetic::power2::pow2;
use vstd::bits::{lemma_u64_pow2_no_overflow, lemma_u64_shl_is_mul, lemma_u64_shr_is_div};

verus! {

/// `align` is a power of two: exactly one bit of it is set.
pub open spec fn is_power_of_two(align: u64) -> bool {
    exists|k: u64| k < 64 && align == (1u64 << k)
}

/// Round `size` up to the next multiple of `min_align`.
///
/// A zero `min_align` means no constraint. Alignments reported by the
/// device are powers of two, and for those the result is the least
/// multiple of `min_align` at or above `size`; the caller guarantees the
/// intermediate sum still fits in 64 bits.
pub fn pad_size(min_align: u64, size: u64) -> (r: u64)
    requires
        size + min_align <= u64::MAX,
    ensures
        min_align == 0 ==> r == size,
        min_align > 0 ==> r == ((size + min_align - 1) as u64 & !((min_align - 1) as u64)),
        min_align > 0 && is_power_of_two(min_align) ==> ({
            &&& r % min_align == 0
            &&& size <= r < size + min_align
        }),
{
    if min_align > 0 {
        let r = (size + min_align - 1) & !(min_align - 1);
        proof {
            if is_power_of_two(min_align) {
                lemma_pad_size_rounds(min_align, size);
            }
        }
        r
    } else {
        size
    }
}

/// Masking `size + align - 1` with the complement of `align - 1` rounds up
/// to a multiple of a power-of-two `align`, staying within one `align` of
/// `size`.
proof fn lemma_pad_size_rounds(align: u64, size: u64)
    requires
        is_power_of_two(align),
        size + align <= u64::MAX,
    ensures
        ({
            let r = ((size + align - 1) as u64) & !((align - 1) as u64);
            &&& r % align == 0
            &&& size <= r < size + align
        }),
{
    let k = choose|k: u64| k < 64 && align == (1u64 << k);
    let r = ((size + align - 1) as u64) & !((align - 1) as u64);
    assert(size <= r < size + align && ((r >> k) << k) == r) by (bit_vector)
        requires
            k < 64,
            align == (1u64 << k),
            size + align <= u64::MAX,
            r == ((size + align - 1) as u64) & !((align - 1) as u64),
    ;
    lemma_u64_pow2_no_overflow(k as nat);
    lemma_u64_shl_is_mul(1u64, k);
    assert(align == pow2(k as nat));
    let d = align as int;
    lemma_u64_shr_is_div(r, k);
    assert(r >> k == r / (pow2(k as nat) as u64));
    lemma_fundamental_div_mod(r as int, d);
    lemma_mod_bound(r as int, d);
    let q = (r >> k) as int;
    assert(q == r as int / d);
    assert(q * d == r - (r as int % d));
    assert(q * d <= u64::MAX);
    lemma_u64_shl_is_mul(r >> k, k);
    assert(r == q * d);
    lemma_mod_multiples_basic(q, d);
}

} // verus!
