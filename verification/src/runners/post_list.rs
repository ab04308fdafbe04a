use vstd::prelude::*;
use vstd::arithmetic::power2::pow2;

verus! {

/// `n` is a power of two.
pub open spec fn is_power_of_two(n: u32) -> bool {
    exists|k: u32| k < 32 && n == (1u32 << k)
}

/// Send slot of an operation: the operation count modulo the (power of two)
/// send queue depth.
pub fn select_post_list_slot(qp_operation_base: u32, tx_depth: u32) -> (r: usize)
    requires
        is_power_of_two(tx_depth),
    ensures
        r == qp_operation_base % tx_depth,
        r < tx_depth,
{
    proof {
        lemma_mask_is_mod(qp_operation_base, tx_depth);
    }
    (qp_operation_base & (tx_depth - 1)) as usize
}

/// Masking with `n - 1` is the remainder modulo a power of two `n`.
pub proof fn lemma_mask_is_mod(x: u32, n: u32)
    requires
        is_power_of_two(n),
    ensures
        (x & (n - 1) as u32) == x % n,
        x % n < n,
{
    let k = choose|k: u32| k < 32 && n == (1u32 << k);
    vstd::bits::lemma_u32_pow2_no_overflow(k as nat);
    vstd::bits::lemma_u32_shl_is_mul(1, k);
    vstd::bits::lemma_u32_low_bits_mask_is_mod(x, k as nat);
    assert(n == pow2(k as nat));
    assert(vstd::bits::low_bits_mask(k as nat) == n - 1);
}

} // verus!
