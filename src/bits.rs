use vstd::arithmetic::power2::{
    lemma2_to64, lemma_pow2_strictly_increases, lemma_pow2_unfold, pow2,
};
use vstd::bits::lemma_u32_shl_is_mul;
use vstd::prelude::*;

verus! {

/// The two's-complement value of an `n`-bit field holding `v`.
pub open spec fn field_value(v: int, n: nat) -> int {
    if v >= pow2((n - 1) as nat) {
        v - pow2(n)
    } else {
        v
    }
}

/// The two's-complement value of the word `w`.
pub open spec fn signed_value(w: u16) -> int {
    if w >= 0x8000 {
        w - 0x1_0000
    } else {
        w as int
    }
}

/// The 16-bit word that holds the two's-complement value of the `n`-bit field `v`.
pub open spec fn sign_extended(v: u16, n: nat) -> u16 {
    ((field_value(v as int, n) + 0x1_0000) % 0x1_0000) as u16
}

/// The low `n` bits of any word, for `n` from 1 to 16, form an `n`-bit field, so
/// `sign_extend` takes them and returns their two's-complement value.
pub proof fn lemma_low_bits_fit(v: u16, n: u32)
    requires
        1 <= n <= 16,
    ensures
        ((v as u32 & ((1u32 << n) - 1u32) as u32) as int) < pow2(n as nat),
{
    lemma2_to64();
    lemma_u32_shl_is_mul(1, n);
    let w = v as u32;
    assert(1 <= n <= 16 ==> (w & (((1u32 << n) - 1u32) as u32)) < (1u32 << n)) by (bit_vector);
}

/// Sign-extends the `bit_count`-bit field `value` to 16 bits: when bit `bit_count - 1`
/// is set, every bit above it is set as well; otherwise `value` is returned as it is.
pub fn sign_extend(value: u16, bit_count: usize) -> (r: u16)
    requires
        1 <= bit_count <= 16,
        (value as int) < pow2(bit_count as nat),
    ensures
        r == sign_extended(value, bit_count as nat),
        signed_value(r) == field_value(value as int, bit_count as nat),
{
    let n: u32 = bit_count as u32;
    let m: u32 = n - 1;
    let v: u32 = value as u32;
    proof {
        lemma2_to64();
        lemma_u32_shl_is_mul(1, n);
        lemma_u32_shl_is_mul(1, m);
        lemma_pow2_unfold(n as nat);
        if m < 15 {
            lemma_pow2_strictly_increases(m as nat, 15);
        }
        assert(v < (1u32 << n));
        assert(v >= (1u32 << m) ==> v as int >= pow2(m as nat));
        assert(n == m + 1 && m < 16 && v < (1u32 << n) ==> (((v >> m) & 1u32) == 1u32) == (v >= (
        1u32 << m))) by (bit_vector);
        assert(n == m + 1 && m < 16 && v < (1u32 << n) && v >= (1u32 << m) ==> ((v | (0xFFFFu32
            << n)) & 0xFFFFu32) == v + 0x1_0000u32 - (1u32 << n)) by (bit_vector);
    }
    assert(field_value(value as int, bit_count as nat) >= -0x8000 && field_value(
        value as int,
        bit_count as nat,
    ) < 0x8000);
    if (v >> m) & 1 == 1 {
        ((v | (0xFFFFu32 << n)) & 0xFFFF) as u16
    } else {
        value
    }
}

} // verus!
