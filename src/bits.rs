//! Bit and bit-field operations on 32-bit register words.
use vstd::prelude::*;

verus! {

/// The word `w` with bit `n` set.
pub open spec fn set_bit(w: u32, n: u32) -> u32 {
    w | (1u32 << n)
}

/// The word `w` with bit `n` cleared.
pub open spec fn clear_bit(w: u32, n: u32) -> u32 {
    w & !(1u32 << n)
}

/// Whether bit `n` of `w` is set.
pub open spec fn bit_is_set(w: u32, n: u32) -> bool {
    (w >> n) & 1u32 == 1u32
}

/// The word `w` with bit `n` set or cleared according to `v`.
pub open spec fn assign_bit(w: u32, n: u32, v: bool) -> u32 {
    if v {
        set_bit(w, n)
    } else {
        clear_bit(w, n)
    }
}

/// The field of `w` that starts at bit `shift` and is selected by the low-bit mask `mask`.
pub open spec fn field(w: u32, shift: u32, mask: u32) -> u32 {
    (w >> shift) & mask
}

/// The word `w` with the field at `shift` (low-bit mask `mask`) replaced by `v`.
pub open spec fn put_field(w: u32, shift: u32, mask: u32, v: u32) -> u32 {
    (w & !(mask << shift)) | ((v & mask) << shift)
}

/// Tests bit `n` of `w`.
pub fn test_bit(w: u32, n: u32) -> (r: bool)
    requires
        n < 32,
    ensures
        r == bit_is_set(w, n),
{
    (w >> n) & 1u32 == 1u32
}

/// Sets or clears bit `n` of `w`.
pub fn with_bit(w: u32, n: u32, v: bool) -> (r: u32)
    requires
        n < 32,
    ensures
        r == assign_bit(w, n, v),
{
    if v {
        w | (1u32 << n)
    } else {
        w & !(1u32 << n)
    }
}

/// Replaces the field of `w` at `shift`, selected by `mask`, with `v`.
pub fn with_field(w: u32, shift: u32, mask: u32, v: u32) -> (r: u32)
    requires
        shift < 32,
    ensures
        r == put_field(w, shift, mask, v),
{
    (w & !(mask << shift)) | ((v & mask) << shift)
}

/// A bit that was just set reads back as set; every other bit keeps its value.
pub proof fn lemma_set_bit(w: u32, n: u32, m: u32)
    requires
        n < 32,
        m < 32,
    ensures
        bit_is_set(set_bit(w, n), n),
        m != n ==> bit_is_set(set_bit(w, n), m) == bit_is_set(w, m),
{
    assert(((w | (1u32 << n)) >> n) & 1u32 == 1u32) by (bit_vector)
        requires
            n < 32,
    ;
    assert(m != n ==> (((w | (1u32 << n)) >> m) & 1u32 == 1u32) == (((w >> m) & 1u32)
        == 1u32)) by (bit_vector)
        requires
            n < 32,
            m < 32,
    ;
}

/// A bit that was just cleared reads back as clear; every other bit keeps its value.
pub proof fn lemma_clear_bit(w: u32, n: u32, m: u32)
    requires
        n < 32,
        m < 32,
    ensures
        !bit_is_set(clear_bit(w, n), n),
        m != n ==> bit_is_set(clear_bit(w, n), m) == bit_is_set(w, m),
{
    assert(((w & !(1u32 << n)) >> n) & 1u32 != 1u32) by (bit_vector)
        requires
            n < 32,
    ;
    assert(m != n ==> (((w & !(1u32 << n)) >> m) & 1u32 == 1u32) == (((w >> m) & 1u32)
        == 1u32)) by (bit_vector)
        requires
            n < 32,
            m < 32,
    ;
}

/// Setting a bit and then clearing it leaves the word as clearing it alone does,
/// which is the original word when the bit was clear to begin with.
pub proof fn lemma_set_then_clear(w: u32, n: u32)
    requires
        n < 32,
    ensures
        clear_bit(set_bit(w, n), n) == clear_bit(w, n),
        !bit_is_set(w, n) ==> clear_bit(set_bit(w, n), n) == w,
{
    assert((w | (1u32 << n)) & !(1u32 << n) == w & !(1u32 << n)) by (bit_vector)
        requires
            n < 32,
    ;
    assert(((w >> n) & 1u32 != 1u32) ==> (w | (1u32 << n)) & !(1u32 << n) == w) by (bit_vector)
        requires
            n < 32,
    ;
}

/// Writing the same value into a field twice leaves the word as one write does.
pub proof fn lemma_put_field_idempotent(w: u32, shift: u32, mask: u32, v: u32)
    requires
        shift < 32,
    ensures
        put_field(put_field(w, shift, mask, v), shift, mask, v) == put_field(w, shift, mask, v),
{
    assert(((((w & !(mask << shift)) | ((v & mask) << shift)) & !(mask << shift)) | ((v & mask)
        << shift)) == ((w & !(mask << shift)) | ((v & mask) << shift))) by (bit_vector);
}

/// A field that was just written reads back as the value written, cut to the mask.
pub proof fn lemma_put_field_reads_back(w: u32, shift: u32, width: u32, v: u32)
    requires
        1 <= width <= 5,
        shift + width <= 32,
    ensures
        field(put_field(w, shift, ((1u32 << width) - 1) as u32, v), shift, ((1u32 << width)
            - 1) as u32) == v & (((1u32 << width) - 1) as u32),
{
    let mask: u32 = ((1u32 << width) - 1) as u32;
    assert((((w & !(mask << shift)) | ((v & mask) << shift)) >> shift) & mask == v & mask)
        by (bit_vector)
        requires
            1 <= width <= 5,
            shift + width <= 32,
            mask == ((1u32 << width) - 1) as u32,
    ;
}

} // verus!
