//! Bit-extraction primitives shared by the decoder and the lowerer:
//! contiguous field extraction from a 32-bit word, two's-complement sign
//! extension, and tiling of a fixed-width bit pattern.

use core::ops::Range;
use vstd::prelude::*;

verus! {

/// A mask with the low `width` bits set, as a 64-bit word.
pub open spec fn low_mask64(width: u32) -> u64
    recommends
        width <= 64,
{
    if width == 64 {
        0xFFFF_FFFF_FFFF_FFFFu64
    } else {
        (((1u64 << width) - 1) as u64)
    }
}

/// The contiguous bit field `[lo, hi)` of `word`, shifted down to bit 0.
pub open spec fn spec_extract_bits32(word: u32, lo: u32, hi: u32) -> u32
    recommends
        lo <= hi <= 32,
{
    ((((word as u64) >> lo) & low_mask64(((hi - lo) as u32))) as u32)
}

/// Returns the bit range `[range.start, range.end)` of `word`, moved to bit 0.
pub fn extract_bits32(range: Range<usize>, word: u32) -> (r: u32)
    requires
        range.start <= range.end,
        range.end <= 32,
    ensures
        r == spec_extract_bits32(word, range.start as u32, range.end as u32),
{
    let lo: u32 = range.start as u32;
    let hi: u32 = range.end as u32;
    let width: u32 = hi - lo;
    proof {
        assert(width <= 32 ==> 1u64 << width >= 1) by (bit_vector);
    }
    let mask: u64 = (1u64 << width) - 1;
    ((((word as u64) >> lo) & mask) as u32)
}

/// An extracted field is bounded by its width: a `w`-bit field is below
/// `2^w`.  The bounds are spelled out for each field width the decoder uses.
pub broadcast proof fn lemma_extract_bits32_bound(word: u32, lo: u32, hi: u32)
    requires
        lo <= hi <= 32,
    ensures
        hi - lo == 1 ==> #[trigger] spec_extract_bits32(word, lo, hi) < 2,
        hi - lo == 2 ==> spec_extract_bits32(word, lo, hi) < 4,
        hi - lo == 3 ==> spec_extract_bits32(word, lo, hi) < 8,
        hi - lo == 4 ==> spec_extract_bits32(word, lo, hi) < 16,
        hi - lo == 5 ==> spec_extract_bits32(word, lo, hi) < 32,
        hi - lo == 6 ==> spec_extract_bits32(word, lo, hi) < 64,
        hi - lo == 7 ==> spec_extract_bits32(word, lo, hi) < 128,
        hi - lo == 12 ==> spec_extract_bits32(word, lo, hi) < 4096,
        hi - lo == 16 ==> spec_extract_bits32(word, lo, hi) < 65536,
        hi - lo == 19 ==> spec_extract_bits32(word, lo, hi) < 0x80000,
        hi - lo == 26 ==> spec_extract_bits32(word, lo, hi) < 0x4000000,
{
    let w = word;
    let l = lo;
    let h = hi;
    assert({
        &&& h - l == 1 ==> spec_extract_bits32(w, l, h) < 2
        &&& h - l == 2 ==> spec_extract_bits32(w, l, h) < 4
        &&& h - l == 3 ==> spec_extract_bits32(w, l, h) < 8
        &&& h - l == 4 ==> spec_extract_bits32(w, l, h) < 16
        &&& h - l == 5 ==> spec_extract_bits32(w, l, h) < 32
        &&& h - l == 6 ==> spec_extract_bits32(w, l, h) < 64
        &&& h - l == 7 ==> spec_extract_bits32(w, l, h) < 128
        &&& h - l == 12 ==> spec_extract_bits32(w, l, h) < 4096
        &&& h - l == 16 ==> spec_extract_bits32(w, l, h) < 65536
        &&& h - l == 19 ==> spec_extract_bits32(w, l, h) < 0x80000
        &&& h - l == 26 ==> spec_extract_bits32(w, l, h) < 0x4000000
    }) by (bit_vector)
        requires
            l <= h <= 32,
    ;
}

/// The value of the low `width` bits of `value` read as a `width`-bit
/// two's-complement integer: the mathematical definition of sign extension.
pub open spec fn spec_sign_extend(value: i64, width: u32) -> i64
    recommends
        1 <= width <= 64,
{
    let low = (value as u64) & low_mask64(width);
    let half = 1u64 << ((width - 1) as u32);
    if low < half {
        low as i64
    } else {
        (((low as int) - 2 * (half as int)) as i64)
    }
}

/// Sign-extends the low `width` bits of `value` to the full 64-bit width.
pub fn sign_extend(value: i64, width: u32) -> (r: i64)
    requires
        1 <= width <= 64,
    ensures
        r == spec_sign_extend(value, width),
{
    let unused: u32 = 64 - width;
    let r = (value << unused) >> unused;
    proof {
        let w = width;
        assert((value << ((64 - w) as u32)) >> ((64 - w) as u32) == {
            let low = (value as u64) & low_mask64(w);
            let half = 1u64 << ((w - 1) as u32);
            if low < half {
                low as i64
            } else {
                (((low as int) - 2 * (half as int)) as i64)
            }
        }) by (bit_vector)
            requires
                1 <= w <= 64,
        ;
    }
    r
}

/// A sign-extended value lies in the two's-complement range of its width.
/// The bounds are spelled out for the widths the lowerer uses.
pub proof fn lemma_sign_extend_bounds(value: i64, width: u32)
    requires
        1 <= width <= 64,
    ensures
        width == 7 ==> -64 <= spec_sign_extend(value, width) <= 63,
        width == 9 ==> -256 <= spec_sign_extend(value, width) <= 255,
        width == 21 ==> -0x100000 <= spec_sign_extend(value, width) <= 0xFFFFF,
        width == 28 ==> -0x8000000 <= spec_sign_extend(value, width) <= 0x7FFFFFF,
        width == 33 ==> -0x100000000 <= spec_sign_extend(value, width) <= 0xFFFFFFFF,
{
    let w = width;
    assert({
        &&& w == 7 ==> -64 <= spec_sign_extend(value, w) <= 63
        &&& w == 9 ==> -256 <= spec_sign_extend(value, w) <= 255
        &&& w == 21 ==> -0x100000 <= spec_sign_extend(value, w) <= 0xFFFFF
        &&& w == 28 ==> -0x8000000 <= spec_sign_extend(value, w) <= 0x7FFFFFF
        &&& w == 33 ==> -0x100000000 <= spec_sign_extend(value, w) <= 0xFFFFFFFF
    }) by (bit_vector)
        requires
            1 <= w <= 64,
    ;
}

/// Sign extension is idempotent: extending an already `width`-bit-extended
/// value at the same width changes nothing.
pub proof fn lemma_sign_extend_idempotent(value: i64, width: u32)
    requires
        1 <= width <= 64,
    ensures
        spec_sign_extend(spec_sign_extend(value, width), width) == spec_sign_extend(value, width),
{
    let w = width;
    assert({
        let low = (value as u64) & low_mask64(w);
        let half = 1u64 << ((w - 1) as u32);
        let once = if low < half {
            low as i64
        } else {
            (((low as int) - 2 * (half as int)) as i64)
        };
        let low2 = (once as u64) & low_mask64(w);
        let twice = if low2 < half {
            low2 as i64
        } else {
            (((low2 as int) - 2 * (half as int)) as i64)
        };
        twice == once
    }) by (bit_vector)
        requires
            1 <= w <= 64,
    ;
}

/// `count` copies of the `chunk`-bit pattern, tiled from bit 0 upwards.
pub open spec fn spec_replicate(pattern: u64, chunk: u32, count: u32) -> u64
    recommends
        1 <= chunk,
        chunk * count <= 64,
    decreases count,
{
    if count == 0 {
        0u64
    } else {
        spec_replicate(pattern, chunk, (count - 1) as u32) | (pattern << (((count - 1) * chunk) as u32))
    }
}

/// Tiles the `chunk`-bit `pattern` across `total` bits.
pub fn replicate(pattern: u64, chunk: u32, total: u32) -> (r: u64)
    requires
        1 <= chunk <= 64,
        chunk <= total <= 64,
        total % chunk == 0,
        pattern & low_mask64(chunk) == pattern,
    ensures
        r == spec_replicate(pattern, chunk, total / chunk),
{
    let count: u32 = total / chunk;
    let mut acc: u64 = 0;
    let mut i: u32 = 0;
    proof {
        assert(total / chunk * chunk <= total) by (nonlinear_arith)
            requires
                1 <= chunk && total % chunk == 0 && total <= 64,
        ;
    }
    while i < count
        invariant
            i <= count,
            count * chunk <= 64,
            1 <= chunk <= 64,
            acc == spec_replicate(pattern, chunk, i),
        decreases count - i,
    {
        proof {
            assert(i * chunk + chunk <= count * chunk) by (nonlinear_arith)
                requires
                    i < count,
            ;
        }
        acc = acc | (pattern << (i * chunk));
        i = i + 1;
    }
    acc
}

/// Tiling with chunk size equal to the total width is the identity.
pub proof fn lemma_replicate_identity(pattern: u64, chunk: u32)
    requires
        1 <= chunk <= 64,
        pattern & low_mask64(chunk) == pattern,
    ensures
        spec_replicate(pattern, chunk, 1) == pattern,
{
    assert(spec_replicate(pattern, chunk, 0) == 0u64);
    assert(spec_replicate(pattern, chunk, 1) == spec_replicate(pattern, chunk, 0) | (pattern << ((0
        * chunk) as u32)));
    assert(0u64 | (pattern << 0u32) == pattern) by (bit_vector);
}

} // verus!
