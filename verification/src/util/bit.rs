//! Fields inside a 64-bit register value.
//!
//! A register is a word of 64 bits; a field is `len` consecutive bits of it
//! that start at bit `off`.  The functions here cut a field out of a word and
//! put one in, and the lemmas say how the two fit together.

use vstd::prelude::*;

verus! {

/// The word whose low `len` bits are set and whose other bits are clear.
pub open spec fn bit_mask_spec(len: u64) -> u64 {
    if len >= 64 {
        0xffff_ffff_ffff_ffffu64
    } else {
        ((1u64 << len) - 1) as u64
    }
}

/// The field of `len` bits at bit `off` of `word`, moved down to bit 0.
pub open spec fn bit_extract_spec(word: u64, off: u64, len: u64) -> u64 {
    (word >> off) & bit_mask_spec(len)
}

/// `word` with the field of `len` bits at bit `off` replaced by the low `len`
/// bits of `val`.
pub open spec fn bit_insert_spec(word: u64, val: u64, off: u64, len: u64) -> u64 {
    (word & !(bit_mask_spec(len) << off)) | ((val & bit_mask_spec(len)) << off)
}

/// Computes `bit_mask_spec`.
pub fn bit_mask(len: u64) -> (mask: u64)
    ensures
        mask == bit_mask_spec(len),
{
    if len >= 64 {
        0xffff_ffff_ffff_ffffu64
    } else {
        assert((1u64 << len) >= 1) by (bit_vector)
            requires
                len < 64,
        ;
        (1u64 << len) - 1
    }
}

/// Cuts the field of `len` bits at bit `off` out of `word`.  Bits beyond the
/// end of the word count as zero.
pub fn bit_extract(word: u64, off: u64, len: u64) -> (field: u64)
    ensures
        field == bit_extract_spec(word, off, len),
        field <= bit_mask_spec(len),
{
    if off >= 64 {
        assert(off >= 64 ==> bit_extract_spec(word, off, len) == 0) by (bit_vector);
        return 0;
    }
    let mask = bit_mask(len);
    let shifted = word >> off;
    assert(shifted & mask <= mask) by (bit_vector);
    shifted & mask
}

/// Puts the low `len` bits of `val` into the field at bit `off` of `word`.
/// What would lie beyond the end of the word is dropped.
pub fn bit_insert(word: u64, val: u64, off: u64, len: u64) -> (r: u64)
    ensures
        r == bit_insert_spec(word, val, off, len),
{
    if off >= 64 {
        assert(off >= 64 ==> bit_insert_spec(word, val, off, len) == word) by (bit_vector);
        return word;
    }
    let mask = bit_mask(len);
    (word & !(mask << off)) | ((val & mask) << off)
}

/// A field that was put into a word is read back unchanged, up to its width.
pub proof fn lemma_insert_then_extract(word: u64, val: u64, off: u64, len: u64)
    requires
        off + len <= 64,
    ensures
        bit_extract_spec(bit_insert_spec(word, val, off, len), off, len) == val & bit_mask_spec(
            len,
        ),
{
    assert(off + len <= 64 ==> bit_extract_spec(bit_insert_spec(word, val, off, len), off, len)
        == val & bit_mask_spec(len)) by (bit_vector);
}

/// Putting a field into a word leaves every field that does not overlap it
/// as it was.
pub proof fn lemma_insert_keeps_others(
    word: u64,
    val: u64,
    off: u64,
    len: u64,
    off2: u64,
    len2: u64,
)
    requires
        off + len <= 64,
        off2 + len2 <= 64,
        off2 + len2 <= off || off + len <= off2,
    ensures
        bit_extract_spec(bit_insert_spec(word, val, off, len), off2, len2) == bit_extract_spec(
            word,
            off2,
            len2,
        ),
{
    assert(off + len <= 64 && off2 + len2 <= 64 && (off2 + len2 <= off || off + len <= off2)
        ==> bit_extract_spec(bit_insert_spec(word, val, off, len), off2, len2)
        == bit_extract_spec(word, off2, len2)) by (bit_vector);
}

/// A word with nothing at or above bit `off` has nothing at or above the end
/// of a field put in at `off`.
pub proof fn lemma_insert_top_clear(word: u64, val: u64, off: u64, len: u64)
    requires
        off + len < 64,
        word >> off == 0,
    ensures
        bit_insert_spec(word, val, off, len) >> ((off + len) as u64) == 0,
{
    let end = (off + len) as u64;
    assert(off + len < 64 && end == off + len && word >> off == 0 ==> bit_insert_spec(
        word,
        val,
        off,
        len,
    ) >> end == 0) by (bit_vector);
}

/// A word with nothing at or above bit `off` has nothing in any field that
/// starts at or above `off`, and nothing at or above any later bit.
pub proof fn lemma_clear_above(word: u64, off: u64, off2: u64, len2: u64)
    requires
        word >> off == 0,
        off <= off2 < 64,
    ensures
        bit_extract_spec(word, off2, len2) == 0,
        word >> off2 == 0,
{
    assert(word >> off == 0 && off <= off2 && off2 < 64 ==> bit_extract_spec(word, off2, len2)
        == 0 && word >> off2 == 0) by (bit_vector);
}

/// A value that fits in `len` bits is its own low `len` bits.
pub proof fn lemma_mask_fits(val: u64, len: u64)
    requires
        val <= bit_mask_spec(len),
    ensures
        val & bit_mask_spec(len) == val,
{
    assert(val <= bit_mask_spec(len) ==> val & bit_mask_spec(len) == val) by (bit_vector);
}

/// Two words whose bytes agree one by one are equal.
pub proof fn lemma_equal_bytes(a: u64, b: u64)
    requires
        forall|j: u64|
            j < 8 ==> #[trigger] bit_extract_spec(a, (8 * j) as u64, 8) == bit_extract_spec(
                b,
                (8 * j) as u64,
                8,
            ),
    ensures
        a == b,
{
    assert(bit_extract_spec(a, (8 * 0u64) as u64, 8) == bit_extract_spec(b, (8 * 0u64) as u64, 8));
    assert(bit_extract_spec(a, (8 * 1u64) as u64, 8) == bit_extract_spec(b, (8 * 1u64) as u64, 8));
    assert(bit_extract_spec(a, (8 * 2u64) as u64, 8) == bit_extract_spec(b, (8 * 2u64) as u64, 8));
    assert(bit_extract_spec(a, (8 * 3u64) as u64, 8) == bit_extract_spec(b, (8 * 3u64) as u64, 8));
    assert(bit_extract_spec(a, (8 * 4u64) as u64, 8) == bit_extract_spec(b, (8 * 4u64) as u64, 8));
    assert(bit_extract_spec(a, (8 * 5u64) as u64, 8) == bit_extract_spec(b, (8 * 5u64) as u64, 8));
    assert(bit_extract_spec(a, (8 * 6u64) as u64, 8) == bit_extract_spec(b, (8 * 6u64) as u64, 8));
    assert(bit_extract_spec(a, (8 * 7u64) as u64, 8) == bit_extract_spec(b, (8 * 7u64) as u64, 8));
    assert(a == b) by (bit_vector)
        requires
            bit_extract_spec(a, 0, 8) == bit_extract_spec(b, 0, 8),
            bit_extract_spec(a, 8, 8) == bit_extract_spec(b, 8, 8),
            bit_extract_spec(a, 16, 8) == bit_extract_spec(b, 16, 8),
            bit_extract_spec(a, 24, 8) == bit_extract_spec(b, 24, 8),
            bit_extract_spec(a, 32, 8) == bit_extract_spec(b, 32, 8),
            bit_extract_spec(a, 40, 8) == bit_extract_spec(b, 40, 8),
            bit_extract_spec(a, 48, 8) == bit_extract_spec(b, 48, 8),
            bit_extract_spec(a, 56, 8) == bit_extract_spec(b, 56, 8),
    ;
}

/// Two words whose bits agree one by one are equal.
pub proof fn lemma_equal_bits(a: u64, b: u64)
    requires
        forall|j: u64| j < 64 ==> #[trigger] bit_extract_spec(a, j, 1) == bit_extract_spec(b, j, 1),
    ensures
        a == b,
{
    assert forall|j: u64| j < 8 implies #[trigger] bit_extract_spec(a, (8 * j) as u64, 8)
        == bit_extract_spec(b, (8 * j) as u64, 8) by {
        let o = (8 * j) as u64;
        assert(bit_extract_spec(a, o, 8) == bit_extract_spec(b, o, 8)) by (bit_vector)
            requires
                o <= 56,
                bit_extract_spec(a, o, 1) == bit_extract_spec(b, o, 1),
                bit_extract_spec(a, (o + 1) as u64, 1) == bit_extract_spec(b, (o + 1) as u64, 1),
                bit_extract_spec(a, (o + 2) as u64, 1) == bit_extract_spec(b, (o + 2) as u64, 1),
                bit_extract_spec(a, (o + 3) as u64, 1) == bit_extract_spec(b, (o + 3) as u64, 1),
                bit_extract_spec(a, (o + 4) as u64, 1) == bit_extract_spec(b, (o + 4) as u64, 1),
                bit_extract_spec(a, (o + 5) as u64, 1) == bit_extract_spec(b, (o + 5) as u64, 1),
                bit_extract_spec(a, (o + 6) as u64, 1) == bit_extract_spec(b, (o + 6) as u64, 1),
                bit_extract_spec(a, (o + 7) as u64, 1) == bit_extract_spec(b, (o + 7) as u64, 1),
        ;
    }
    lemma_equal_bytes(a, b);
}

} // verus!
