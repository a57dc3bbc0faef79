//! Extraction and insertion of a bit range within a 64-bit register value.

use vstd::bits::{lemma_u64_low_bits_mask_is_mod, lemma_u64_pow2_no_overflow, lemma_u64_shl_is_mul, low_bits_mask};
use vstd::arithmetic::div_mod::lemma_small_mod;
use vstd::arithmetic::power2::{lemma2_to64_rest, pow2};
use vstd::prelude::*;

verus! {

/// A range of bits `start..end` within a register value.
#[derive(Clone, Copy, Debug, PartialEq, Eq, Structural)]
pub struct BitField {
    pub start: u64,
    pub end: u64,
}

impl BitField {
    /// A field is well formed when `0 <= start < end <= 64`.
    pub open spec fn wf(self) -> bool {
        self.start < self.end && self.end <= 64
    }

    /// Number of bits in the field.
    pub open spec fn width(self) -> u64 {
        (self.end - self.start) as u64
    }

    /// The field `start..end`.
    pub fn new(start: u64, end: u64) -> (r: BitField)
        requires
            start < end <= 64,
        ensures
            r.start == start,
            r.end == end,
            r.wf(),
    {
        BitField { start, end }
    }

    /// The one-bit field at position `bit`.
    pub fn single(bit: u64) -> (r: BitField)
        requires
            bit < 64,
        ensures
            r.start == bit,
            r.end == bit + 1,
            r.wf(),
    {
        BitField { start: bit, end: bit + 1 }
    }
}

/// The low `w` bits set, for `w <= 64`.
pub open spec fn low_mask(w: u64) -> u64 {
    if w >= 64 {
        0xffff_ffff_ffff_ffffu64
    } else {
        ((1u64 << w) - 1) as u64
    }
}

/// The bits of `v` selected by `f`, right-aligned.
pub open spec fn extract_spec(v: u64, f: BitField) -> u64 {
    (v >> f.start) & low_mask(f.width())
}

/// `v` with the bits selected by `f` replaced by the low bits of `raw`.
pub open spec fn insert_spec(v: u64, f: BitField, raw: u64) -> u64 {
    (v & !(low_mask(f.width()) << f.start)) | ((raw & low_mask(f.width())) << f.start)
}

/// Whether bit `bit` of `v` is set.
pub open spec fn bit_spec(v: u64, bit: u64) -> bool {
    (v >> bit) & 1 == 1
}

/// `v` with bit `bit` set to `val`.
pub open spec fn set_bit_spec(v: u64, bit: u64, val: bool) -> u64 {
    if val {
        v | (1u64 << bit)
    } else {
        v & !(1u64 << bit)
    }
}

fn mask_of(w: u64) -> (r: u64)
    requires
        0 < w <= 64,
    ensures
        r == low_mask(w),
{
    if w >= 64 {
        0xffff_ffff_ffff_ffffu64
    } else {
        assert(1u64 << w >= 1) by (bit_vector)
            requires
                w < 64,
        ;
        (1u64 << w) - 1
    }
}

/// Returns the bits of `value` selected by `field`, right-aligned.
pub fn extract(value: u64, field: BitField) -> (r: u64)
    requires
        field.wf(),
    ensures
        r == extract_spec(value, field),
        r <= low_mask(field.width()),
{
    let m = mask_of(field.end - field.start);
    let s = field.start;
    assert(((value >> s) & m) <= m) by (bit_vector);
    (value >> field.start) & m
}

/// The field `start..end`, in specifications.
pub open spec fn field(start: u64, end: u64) -> BitField {
    BitField { start, end }
}

/// The masks of the field widths that registers use.
pub proof fn lemma_low_mask_values()
    ensures
        low_mask(1) == 1,
        low_mask(2) == 3,
        low_mask(3) == 7,
        low_mask(4) == 15,
        low_mask(8) == 255,
        low_mask(32) == 0xffff_ffff,
{
    assert((1u64 << 1u64) == 2 && (1u64 << 2u64) == 4 && (1u64 << 3u64) == 8 && (1u64 << 4u64) == 16
        && (1u64 << 8u64) == 256 && (1u64 << 32u64) == 0x1_0000_0000) by (bit_vector);
}

/// A narrower mask is no larger.
pub proof fn lemma_low_mask_monotonic(a: u64, b: u64)
    requires
        a <= b <= 64,
    ensures
        low_mask(a) <= low_mask(b),
{
    let x = low_mask(a);
    let y = low_mask(b);
    assert(x <= y) by (bit_vector)
        requires
            a <= b <= 64,
            x == (if a >= 64 { 0xffff_ffff_ffff_ffffu64 } else { ((1u64 << a) - 1) as u64 }),
            y == (if b >= 64 { 0xffff_ffff_ffff_ffffu64 } else { ((1u64 << b) - 1) as u64 }),
    ;
}

/// Returns `value` with the bits selected by `field` replaced by `raw`.
/// Bits of `raw` that do not fit the field are discarded.
pub fn insert(value: u64, field: BitField, raw: u64) -> (r: u64)
    requires
        field.wf(),
    ensures
        r == insert_spec(value, field, raw),
{
    let m = mask_of(field.end - field.start);
    (value & !(m << field.start)) | ((raw & m) << field.start)
}

/// Returns whether bit `bit` of `value` is set.
pub fn get_bit(value: u64, pos: u64) -> (r: bool)
    requires
        pos < 64,
    ensures
        r == bit_spec(value, pos),
{
    (value >> pos) & 1 == 1
}

/// Returns `value` with bit `bit` set to `val`.
pub fn set_bit(value: u64, pos: u64, val: bool) -> (r: u64)
    requires
        pos < 64,
    ensures
        r == set_bit_spec(value, pos, val),
{
    if val {
        value | (1u64 << pos)
    } else {
        value & !(1u64 << pos)
    }
}

/// Reading a field back after writing `x` into it gives `x mod 2^width`:
/// the bits of `x` that do not fit the field are discarded.
pub proof fn lemma_extract_insert(v: u64, f: BitField, x: u64)
    requires
        f.wf(),
    ensures
        extract_spec(insert_spec(v, f, x), f) == x & low_mask(f.width()),
        extract_spec(insert_spec(v, f, x), f) as int == (x as int) % (pow2(f.width() as nat) as int),
{
    let s = f.start;
    let w = f.width();
    let m = low_mask(w);
    assert(w == 64 ==> s == 0);
    assert(s + w <= 64);
    assert(((((v & !(m << s)) | ((x & m) << s)) >> s) & m) == x & m) by (bit_vector)
        requires
            s + w <= 64,
            0 < w,
            m == (if w >= 64 { 0xffff_ffff_ffff_ffffu64 } else { ((1u64 << w) - 1) as u64 }),
    ;
    if w < 64 {
        lemma_u64_pow2_no_overflow(w as nat);
        lemma_u64_shl_is_mul(1, w);
        assert(m as nat == low_bits_mask(w as nat));
        lemma_u64_low_bits_mask_is_mod(x, w as nat);
        assert(x & m == x % (pow2(w as nat) as u64));
    } else {
        assert(x & 0xffff_ffff_ffff_ffffu64 == x) by (bit_vector);
        lemma2_to64_rest();
        assert(pow2(64) == 0x1_0000_0000_0000_0000);
        lemma_small_mod(x as nat, pow2(64));
    }
}

/// Writing back the value read from a field leaves the register unchanged.
pub proof fn lemma_insert_extract(v: u64, f: BitField)
    requires
        f.wf(),
    ensures
        insert_spec(v, f, extract_spec(v, f)) == v,
{
    let s = f.start;
    let w = f.width();
    let m = low_mask(w);
    assert(s + w <= 64);
    assert(((v & !(m << s)) | ((((v >> s) & m) & m) << s)) == v) by (bit_vector)
        requires
            s + w <= 64,
            0 < w,
            m == (if w >= 64 { 0xffff_ffff_ffff_ffffu64 } else { ((1u64 << w) - 1) as u64 }),
    ;
}

/// Insertion into a field leaves every bit outside the field unchanged.
pub proof fn lemma_insert_preserves_outside(v: u64, f: BitField, x: u64, g: BitField)
    requires
        f.wf(),
        g.wf(),
        g.end <= f.start || f.end <= g.start,
    ensures
        extract_spec(insert_spec(v, f, x), g) == extract_spec(v, g),
{
    let s = f.start;
    let w = f.width();
    let m = low_mask(w);
    let t = g.start;
    let u = g.width();
    let n = low_mask(u);
    assert(((((v & !(m << s)) | ((x & m) << s)) >> t) & n) == ((v >> t) & n)) by (bit_vector)
        requires
            s + w <= 64,
            t + u <= 64,
            0 < w,
            0 < u,
            t + u <= s || s + w <= t,
            m == (if w >= 64 { 0xffff_ffff_ffff_ffffu64 } else { ((1u64 << w) - 1) as u64 }),
            n == (if u >= 64 { 0xffff_ffff_ffff_ffffu64 } else { ((1u64 << u) - 1) as u64 }),
    ;
}

/// Single-bit access is field access on a one-bit field.
pub proof fn lemma_bit_is_one_bit_field(v: u64, pos: u64, val: bool)
    requires
        pos < 64,
    ensures
        bit_spec(v, pos) == (extract_spec(v, field(pos, (pos + 1) as u64)) == 1),
        set_bit_spec(v, pos, val) == insert_spec(v, field(pos, (pos + 1) as u64), if val { 1u64 } else { 0u64 }),
{
    let m = low_mask(1);
    assert((1u64 << 1u64) == 2) by (bit_vector);
    assert(m == 1);
    let x: u64 = if val { 1 } else { 0 };
    assert((if x == 1 { v | (1u64 << pos) } else { v & !(1u64 << pos) }) == ((v & !(1u64 << pos))
        | ((x & 1) << pos))) by (bit_vector)
        requires
            pos < 64,
            x == 0 || x == 1,
    ;
}

} // verus!
