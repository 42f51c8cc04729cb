//! Alignment helpers used by memory layouts and dynamic uniform buffers.

use vstd::prelude::*;
use vstd::arithmetic::div_mod::{lemma_fundamental_div_mod, lemma_mod_multiples_basic, lemma_mod_bound};

verus! {

/// How many bytes must follow `last` so that the next byte is aligned to `alignment`.
pub open spec fn spec_padding_bytes(last: int, alignment: int) -> int {
    if last % alignment == 0 { 0 } else { alignment - last % alignment }
}

/// `requested_size` rounded up to the next multiple of `alignment`.
pub open spec fn spec_full_size(requested_size: int, alignment: int) -> int {
    requested_size + spec_padding_bytes(requested_size, alignment)
}

/// The padding is below the alignment and makes `last` a multiple of it.
pub proof fn lemma_padding_bytes(last: int, alignment: int)
    requires
        0 <= last,
        0 < alignment,
    ensures
        0 <= spec_padding_bytes(last, alignment) < alignment,
        (last + spec_padding_bytes(last, alignment)) % alignment == 0,
        spec_padding_bytes(last, alignment) == 0 <==> last % alignment == 0,
{
    lemma_mod_bound(last, alignment);
    lemma_fundamental_div_mod(last, alignment);
    let q = last / alignment;
    if last % alignment != 0 {
        assert(last + (alignment - last % alignment) == (q + 1) * alignment) by (nonlinear_arith)
            requires last == alignment * q + last % alignment;
        lemma_mod_multiples_basic(q + 1, alignment);
    } else {
        assert(last + 0 == last);
    }
}

/// Bytes needed after `last` so that the following region starts aligned to `alignment`.
pub fn padding_bytes(last: u64, alignment: u64) -> (r: u64)
    requires
        alignment > 0,
    ensures
        r == spec_padding_bytes(last as int, alignment as int),
        r < alignment,
        (last + r) % (alignment as int) == 0,
{
    proof { lemma_padding_bytes(last as int, alignment as int); }
    if last % alignment != 0 {
        alignment - last % alignment
    } else {
        0
    }
}

/// Size of a region of `requested_size` bytes extended to a multiple of `alignment`.
pub fn full_size(requested_size: u64, alignment: u64) -> (r: u64)
    requires
        alignment > 0,
        spec_full_size(requested_size as int, alignment as int) <= u64::MAX,
    ensures
        r == spec_full_size(requested_size as int, alignment as int),
        r % alignment == 0,
        requested_size <= r < requested_size + alignment,
{
    proof { lemma_padding_bytes(requested_size as int, alignment as int); }
    requested_size + padding_bytes(requested_size, alignment)
}

/// Rounding up is idempotent: a size that is already full is left as it is, and a
/// size of zero stays zero.
pub proof fn lemma_full_size_idempotent(requested_size: nat, alignment: nat)
    requires
        alignment > 0,
    ensures
        spec_full_size(spec_full_size(requested_size as int, alignment as int), alignment as int)
            == spec_full_size(requested_size as int, alignment as int),
        spec_full_size(0, alignment as int) == 0,
{
    lemma_padding_bytes(requested_size as int, alignment as int);
    lemma_mod_multiples_basic(0, alignment as int);
}

/// A full size is the least multiple of the alignment that is not below the request.
pub proof fn lemma_full_size_least(requested_size: nat, alignment: nat, k: nat)
    requires
        alignment > 0,
        (k * alignment) >= requested_size,
    ensures
        spec_full_size(requested_size as int, alignment as int) <= k * alignment,
{
    lemma_padding_bytes(requested_size as int, alignment as int);
    let f = spec_full_size(requested_size as int, alignment as int);
    lemma_fundamental_div_mod(f, alignment as int);
    let q = f / alignment as int;
    assert(f == alignment * q);
    if f > k * alignment {
        // f = q * a > k * a >= requested, so (q - 1) * a >= requested as well
        assert(q > k) by (nonlinear_arith)
            requires f == alignment * q, f > k * alignment, alignment > 0;
        assert(f - alignment >= k * alignment) by (nonlinear_arith)
            requires f == alignment * q, q >= k + 1, alignment > 0;
        assert(false);
    }
}

} // verus!
