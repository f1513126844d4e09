use vstd::prelude::*;

verus! {

/// Which parameters are NULL, in order.
pub open spec fn null_flags(params: Seq<Option<bytes::Bytes>>) -> Seq<bool> {
    Seq::new(params.len(), |i: int| params[i] is None)
}

/// Byte `j` of the NULL-bitmap of `nulls` with only its `k` low bits filled in:
/// bit `b` is set when parameter `8 * j + b` exists and is NULL.
pub open spec fn bitmap_byte_prefix(nulls: Seq<bool>, j: int, k: nat) -> u8
    decreases k,
{
    if k == 0 {
        0
    } else {
        let rest = bitmap_byte_prefix(nulls, j, (k - 1) as nat);
        let i = 8 * j + k - 1;
        if 0 <= i < nulls.len() && nulls[i] {
            rest | (1u8 << (k - 1) as u8)
        } else {
            rest
        }
    }
}

/// The NULL-bitmap: one bit per parameter, least significant bit first,
/// in as many bytes as the parameters need.
pub open spec fn null_bitmap(nulls: Seq<bool>) -> Seq<u8> {
    Seq::new(((nulls.len() + 7) / 8) as nat, |j: int| bitmap_byte_prefix(nulls, j, 8))
}

/// Whether bit `k` (0 is the least significant) of `b` is set.
pub open spec fn bit_set(b: u8, k: nat) -> bool {
    (b >> k as u8) & 1u8 == 1u8
}

/// Bits at positions past the last parameter leave a byte as it is.
proof fn lemma_prefix_past_end(nulls: Seq<bool>, j: int, k0: nat, k: nat)
    requires
        k0 <= k,
        8 * j + k0 >= nulls.len(),
    ensures
        bitmap_byte_prefix(nulls, j, k) == bitmap_byte_prefix(nulls, j, k0),
    decreases k - k0,
{
    if k > k0 {
        lemma_prefix_past_end(nulls, j, k0, (k - 1) as nat);
    }
}

proof fn lemma_or_bit(x: u8, m: u8, c: u8)
    by (bit_vector)
    requires
        m < 8,
        c < 8,
    ensures
        (((x | (1u8 << m)) >> c) & 1u8 == 1u8) == (c == m || (x >> c) & 1u8 == 1u8),
{
}

proof fn lemma_zero_bit(c: u8)
    by (bit_vector)
    requires
        c < 8,
    ensures
        (0u8 >> c) & 1u8 != 1u8,
{
}

/// Bit `b` of a partly filled byte is set iff it is among the filled bits and
/// its parameter is NULL.
proof fn lemma_prefix_bits(nulls: Seq<bool>, j: int, k: nat, b: nat)
    requires
        k <= 8,
        b < 8,
    ensures
        bit_set(bitmap_byte_prefix(nulls, j, k), b) == (b < k && 0 <= 8 * j + b < nulls.len()
            && nulls[8 * j + b]),
    decreases k,
{
    if k == 0 {
        lemma_zero_bit(b as u8);
    } else {
        lemma_prefix_bits(nulls, j, (k - 1) as nat, b);
        lemma_or_bit(bitmap_byte_prefix(nulls, j, (k - 1) as nat), (k - 1) as u8, b as u8);
    }
}

/// Builds the NULL-bitmap of a parameter list.
pub fn null_bitmap_of(params: &Vec<Option<bytes::Bytes>>) -> (r: Vec<u8>)
    ensures
        r@ == null_bitmap(null_flags(params@)),
        r@.len() == (params@.len() + 7) / 8,
{
    let ghost nulls = null_flags(params@);
    let mut bitmap: Vec<u8> = Vec::new();
    let mut cur: u8 = 0;
    let mut shift: u8 = 0;
    let mut i: usize = 0;
    while i < params.len()
        invariant
            i <= params@.len(),
            nulls == null_flags(params@),
            shift as int == i as int % 8,
            bitmap@.len() == i as int / 8,
            forall|j: int| 0 <= j < bitmap@.len() ==> bitmap@[j] == bitmap_byte_prefix(nulls, j, 8),
            cur == bitmap_byte_prefix(nulls, i as int / 8, shift as nat),
        decreases params@.len() - i,
    {
        if params[i].is_none() {
            cur = cur | (1u8 << shift);
        }
        shift = shift + 1;
        i = i + 1;
        if shift == 8 {
            bitmap.push(cur);
            cur = 0;
            shift = 0;
        }
    }
    if shift > 0 {
        proof {
            lemma_prefix_past_end(nulls, i as int / 8, shift as nat, 8);
        }
        bitmap.push(cur);
    }
    assert(bitmap@ =~= null_bitmap(nulls));
    bitmap
}

/// The NULL-bitmap of `n` parameters has exactly `ceil(n / 8)` bytes.
pub proof fn lemma_null_bitmap_len(params: Seq<Option<bytes::Bytes>>)
    ensures
        null_bitmap(null_flags(params)).len() == (params.len() + 7) / 8,
        null_bitmap(null_flags(params)).len() * 8 >= params.len(),
        null_bitmap(null_flags(params)).len() * 8 < params.len() + 8,
{
}

/// Bit `i` of the NULL-bitmap (bit `i % 8` of byte `i / 8`) is set iff
/// parameter `i` is NULL; no bit past the last parameter is set.
pub proof fn lemma_null_bitmap_bits(params: Seq<Option<bytes::Bytes>>, i: int)
    requires
        0 <= i < 8 * null_bitmap(null_flags(params)).len(),
    ensures
        bit_set(null_bitmap(null_flags(params))[i / 8], (i % 8) as nat) == (i < params.len()
            && params[i] is None),
{
    lemma_prefix_bits(null_flags(params), i / 8, 8, (i % 8) as nat);
}

} // verus!
