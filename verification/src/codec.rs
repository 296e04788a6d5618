//! Sample codec adapter.
//!
//! Converts buffers of hardware-native samples into a target encoding on the
//! way to the sink. Integer-to-integer conversion widens by scaling with a
//! power of two and narrows by flooring the same scale away; both directions
//! are proved exact against the mathematical rescale. Samples of the float
//! encoding are carried as their raw 32-bit patterns and pass through
//! unchanged; rescaling between integer and float encodings is floating-point
//! arithmetic and is left to the unverified front end.

use vstd::prelude::*;
use crate::encoding::SampleEncoding;
use vstd::arithmetic::div_mod::{
    lemma_div_is_ordered, lemma_div_multiples_vanish, lemma_fundamental_div_mod,
    lemma_hoist_over_denominator,
};

verus! {

/// A buffer of interleaved samples in one of the supported encodings.
/// Float samples are held as their raw bit patterns: the codec never
/// interprets them numerically.
#[derive(Debug)]
pub enum SampleBuffer {
    Int8(Vec<i8>),
    Int16(Vec<i16>),
    Int32(Vec<i32>),
    Float32Bits(Vec<u32>),
}

impl SampleBuffer {
    /// The encoding this buffer's samples are in.
    pub open spec fn encoding(self) -> SampleEncoding {
        match self {
            SampleBuffer::Int8(_) => SampleEncoding::Int8,
            SampleBuffer::Int16(_) => SampleEncoding::Int16,
            SampleBuffer::Int32(_) => SampleEncoding::Int32,
            SampleBuffer::Float32Bits(_) => SampleEncoding::Float32,
        }
    }

    /// The samples as mathematical integers: the numeric value for integer
    /// encodings, the bit pattern for the float encoding.
    pub open spec fn values(self) -> Seq<int> {
        match self {
            SampleBuffer::Int8(v) => v@.map_values(|x: i8| x as int),
            SampleBuffer::Int16(v) => v@.map_values(|x: i16| x as int),
            SampleBuffer::Int32(v) => v@.map_values(|x: i32| x as int),
            SampleBuffer::Float32Bits(v) => v@.map_values(|x: u32| x as int),
        }
    }

    pub fn sample_encoding(&self) -> (r: SampleEncoding)
        ensures
            r == self.encoding(),
    {
        match self {
            SampleBuffer::Int8(_) => SampleEncoding::Int8,
            SampleBuffer::Int16(_) => SampleEncoding::Int16,
            SampleBuffer::Int32(_) => SampleEncoding::Int32,
            SampleBuffer::Float32Bits(_) => SampleEncoding::Float32,
        }
    }

    /// Number of samples in the buffer.
    pub fn sample_count(&self) -> (r: usize)
        ensures
            r == self.values().len(),
    {
        match self {
            SampleBuffer::Int8(v) => v.len(),
            SampleBuffer::Int16(v) => v.len(),
            SampleBuffer::Int32(v) => v.len(),
            SampleBuffer::Float32Bits(v) => v.len(),
        }
    }
}

/// The value range a sample of encoding `e` lies in (for the float encoding:
/// the range of raw bit patterns).
pub open spec fn spec_in_range(e: SampleEncoding, v: int) -> bool {
    match e {
        SampleEncoding::Int8 => -128 <= v < 128,
        SampleEncoding::Int16 => -32768 <= v < 32768,
        SampleEncoding::Int32 => -0x8000_0000 <= v < 0x8000_0000,
        SampleEncoding::Float32 => 0 <= v < 0x1_0000_0000,
    }
}

/// Whether the codec can rescale from one encoding to the other: between any
/// two integer encodings, or from the float encoding to itself.
pub open spec fn spec_rescale_supported(from: SampleEncoding, to: SampleEncoding) -> bool {
    from.spec_is_float() == to.spec_is_float()
}

/// The power-of-two factor between two integer encodings' ranges.
pub open spec fn spec_scale(from: SampleEncoding, to: SampleEncoding) -> int {
    match (from, to) {
        (SampleEncoding::Int8, SampleEncoding::Int16) => 0x100,
        (SampleEncoding::Int16, SampleEncoding::Int8) => 0x100,
        (SampleEncoding::Int8, SampleEncoding::Int32) => 0x100_0000,
        (SampleEncoding::Int32, SampleEncoding::Int8) => 0x100_0000,
        (SampleEncoding::Int16, SampleEncoding::Int32) => 0x1_0000,
        (SampleEncoding::Int32, SampleEncoding::Int16) => 0x1_0000,
        _ => 1,
    }
}

/// One sample rescaled from encoding `from` to encoding `to`: widening
/// multiplies by the scale between the two ranges, narrowing floors the same
/// scale away. Identity pairs have scale one.
pub open spec fn spec_rescale(from: SampleEncoding, to: SampleEncoding, v: int) -> int {
    if from.spec_bits() <= to.spec_bits() {
        v * spec_scale(from, to)
    } else {
        v / spec_scale(from, to)
    }
}

/// Widening and then narrowing through the same pair of integer encodings
/// returns every in-range sample exactly.
pub proof fn lemma_rescale_round_trip(from: SampleEncoding, to: SampleEncoding, v: int)
    requires
        !from.spec_is_float(),
        !to.spec_is_float(),
        from.spec_bits() <= to.spec_bits(),
        spec_in_range(from, v),
    ensures
        spec_rescale(to, from, spec_rescale(from, to, v)) == v,
{
    let s = spec_scale(from, to);
    assert(spec_scale(to, from) == s);
    if from.spec_bits() == to.spec_bits() {
        assert(v * 1 == v) by (nonlinear_arith);
        assert(v / 1 == v);
    } else {
        lemma_div_multiples_vanish(v, s);
        assert(s * v == v * s) by (nonlinear_arith);
    }
}

/// Narrowing is a floor: scaling the narrowed sample back up lands within one
/// quantization step below the original sample.
pub proof fn lemma_narrow_quantization(from: SampleEncoding, to: SampleEncoding, v: int)
    requires
        !from.spec_is_float(),
        !to.spec_is_float(),
        to.spec_bits() < from.spec_bits(),
        spec_in_range(from, v),
    ensures
        spec_rescale(from, to, v) * spec_scale(from, to) <= v,
        v < spec_rescale(from, to, v) * spec_scale(from, to) + spec_scale(from, to),
{
    let s = spec_scale(from, to);
    lemma_fundamental_div_mod(v, s);
    assert(s * (v / s) == (v / s) * s) by (nonlinear_arith);
}

/// A narrowed in-range sample is in range for the narrower encoding.
proof fn lemma_narrow_in_range(from: SampleEncoding, to: SampleEncoding, v: int)
    requires
        !from.spec_is_float(),
        !to.spec_is_float(),
        to.spec_bits() < from.spec_bits(),
        spec_in_range(from, v),
    ensures
        spec_in_range(to, spec_rescale(from, to, v)),
{
    let s = spec_scale(from, to);
    let bound: int = match to {
        SampleEncoding::Int8 => 128int,
        _ => 32768int,
    };
    assert(s * bound == bound * s) by (nonlinear_arith);
    // lower bound: v >= -bound * s, so v / s >= -bound
    assert(-(bound * s) <= v);
    lemma_div_is_ordered(-(bound * s), v, s);
    lemma_div_multiples_vanish(-bound, s);
    assert(s * -bound == -(bound * s)) by (nonlinear_arith);
    // upper bound: v <= bound * s - 1, so v / s <= (bound * s - 1) / s < bound
    lemma_div_is_ordered(v, bound * s - 1, s);
    lemma_fundamental_div_mod(bound * s - 1, s);
    assert((bound * s - 1) / s == bound - 1) by {
        lemma_hoist_over_denominator(s - 1, bound - 1, s as nat);
        assert((s - 1) / s == 0);
        assert((s - 1) + (bound - 1) * s == bound * s - 1) by (nonlinear_arith);
    }
}

/// Floor division of a sample value by one of the codec's scale factors,
/// computed with unsigned machine division after an offsetting shift.
fn floor_div_scale(x: i64, d: u64) -> (r: i64)
    requires
        d == 0x100 || d == 0x1_0000 || d == 0x100_0000,
        -0x8000_0000 <= x < 0x8000_0000,
    ensures
        r == x as int / d as int,
{
    let shifted: u64 = (x + 0x1_0000_0000i64) as u64;
    let q: u64 = shifted / d;
    let off: u64 = 0x1_0000_0000u64 / d;
    proof {
        assert(shifted == x + 0x1_0000_0000);
        lemma_hoist_over_denominator(x as int, off as int, d as nat);
        assert(off as int * d as int == 0x1_0000_0000);
        lemma_div_is_ordered(-0x8000_0000, x as int, d as int);
        lemma_div_is_ordered(x as int, 0x8000_0000 - 1, d as int);
    }
    (q as i64) - (off as i64)
}

/// The samples of an integer buffer, widened to one machine word each.
#[verifier::loop_isolation(false)]
fn widened(src: &SampleBuffer) -> (w: Vec<i64>)
    requires
        !src.encoding().spec_is_float(),
    ensures
        w@.len() == src.values().len(),
        forall|k: int|
            0 <= k < w@.len() ==> w@[k] == src.values()[k] && spec_in_range(
                src.encoding(),
                w@[k] as int,
            ),
{
    let mut w: Vec<i64> = Vec::new();
    match src {
        SampleBuffer::Int8(v) => {
            let mut i: usize = 0;
            while i < v.len()
                invariant
                    i <= v.len(),
                    w@.len() == i,
                    forall|k: int|
                        0 <= k < i ==> w@[k] == src.values()[k] && spec_in_range(
                            SampleEncoding::Int8,
                            w@[k] as int,
                        ),
                decreases v.len() - i,
            {
                w.push(v[i] as i64);
                i = i + 1;
            }
        },
        SampleBuffer::Int16(v) => {
            let mut i: usize = 0;
            while i < v.len()
                invariant
                    i <= v.len(),
                    w@.len() == i,
                    forall|k: int|
                        0 <= k < i ==> w@[k] == src.values()[k] && spec_in_range(
                            SampleEncoding::Int16,
                            w@[k] as int,
                        ),
                decreases v.len() - i,
            {
                w.push(v[i] as i64);
                i = i + 1;
            }
        },
        SampleBuffer::Int32(v) => {
            let mut i: usize = 0;
            while i < v.len()
                invariant
                    i <= v.len(),
                    w@.len() == i,
                    forall|k: int|
                        0 <= k < i ==> w@[k] == src.values()[k] && spec_in_range(
                            SampleEncoding::Int32,
                            w@[k] as int,
                        ),
                decreases v.len() - i,
            {
                w.push(v[i] as i64);
                i = i + 1;
            }
        },
        SampleBuffer::Float32Bits(_) => {
            proof {
                assert(false);
            }
        },
    }
    w
}

/// Each sample rescaled from one integer encoding to another.
#[verifier::loop_isolation(false)]
fn rescaled(w: &Vec<i64>, from: SampleEncoding, to: SampleEncoding) -> (r: Vec<i64>)
    requires
        !from.spec_is_float(),
        !to.spec_is_float(),
        forall|k: int| 0 <= k < w@.len() ==> spec_in_range(from, w@[k] as int),
    ensures
        r@.len() == w@.len(),
        forall|k: int|
            0 <= k < r@.len() ==> r@[k] == spec_rescale(from, to, w@[k] as int) && spec_in_range(
                to,
                r@[k] as int,
            ),
{
    let widening: bool = from.bits_per_sample() <= to.bits_per_sample();
    let scale: u64 = match (from, to) {
        (SampleEncoding::Int8, SampleEncoding::Int16) => 0x100,
        (SampleEncoding::Int16, SampleEncoding::Int8) => 0x100,
        (SampleEncoding::Int8, SampleEncoding::Int32) => 0x100_0000,
        (SampleEncoding::Int32, SampleEncoding::Int8) => 0x100_0000,
        (SampleEncoding::Int16, SampleEncoding::Int32) => 0x1_0000,
        (SampleEncoding::Int32, SampleEncoding::Int16) => 0x1_0000,
        _ => 1,
    };
    let mut r: Vec<i64> = Vec::new();
    let mut i: usize = 0;
    while i < w.len()
        invariant
            i <= w@.len(),
            r@.len() == i,
            scale == spec_scale(from, to),
            widening == (from.spec_bits() <= to.spec_bits()),
            !from.spec_is_float(),
            !to.spec_is_float(),
            forall|k: int| 0 <= k < w@.len() ==> spec_in_range(from, w@[k] as int),
            forall|k: int|
                0 <= k < i ==> r@[k] == spec_rescale(from, to, w@[k] as int) && spec_in_range(
                    to,
                    r@[k] as int,
                ),
        decreases w@.len() - i,
    {
        let x: i64 = w[i];
        let y: i64 = if widening {
            proof {
                assert((scale as int) > 1 ==> -32768 <= (x as int) && (x as int) < 32768);
                assert((x as int) * (scale as int) < 0x8000_0000_0000_0000 && -0x8000_0000_0000_0000
                    <= (x as int) * (scale as int)) by (nonlinear_arith)
                    requires
                        -0x8000_0000 <= (x as int) && (x as int) < 0x8000_0000,
                        1 <= (scale as int) && (scale as int) <= 0x100_0000,
                        (scale as int) > 1 ==> -32768 <= (x as int) && (x as int) < 32768,
                ;
            }
            x * (scale as i64)
        } else {
            proof {
                lemma_narrow_in_range(from, to, x as int);
            }
            floor_div_scale(x, scale)
        };
        r.push(y);
        i = i + 1;
    }
    r
}

/// Rescaled samples packed back into a buffer of the target integer encoding.
#[verifier::loop_isolation(false)]
fn packed(r: &Vec<i64>, to: SampleEncoding) -> (out: SampleBuffer)
    requires
        !to.spec_is_float(),
        forall|k: int| 0 <= k < r@.len() ==> spec_in_range(to, r@[k] as int),
    ensures
        out.encoding() == to,
        out.values().len() == r@.len(),
        forall|k: int| 0 <= k < r@.len() ==> out.values()[k] == r@[k] as int,
{
    match to {
        SampleEncoding::Int8 => {
            let mut v: Vec<i8> = Vec::new();
            let mut i: usize = 0;
            while i < r.len()
                invariant
                    i <= r@.len(),
                    v@.len() == i,
                    forall|k: int| 0 <= k < r@.len() ==> spec_in_range(to, r@[k] as int),
                    to == SampleEncoding::Int8,
                    forall|k: int| 0 <= k < i ==> v@[k] as int == r@[k] as int,
                decreases r@.len() - i,
            {
                v.push(r[i] as i8);
                i = i + 1;
            }
            SampleBuffer::Int8(v)
        },
        SampleEncoding::Int16 => {
            let mut v: Vec<i16> = Vec::new();
            let mut i: usize = 0;
            while i < r.len()
                invariant
                    i <= r@.len(),
                    v@.len() == i,
                    forall|k: int| 0 <= k < r@.len() ==> spec_in_range(to, r@[k] as int),
                    to == SampleEncoding::Int16,
                    forall|k: int| 0 <= k < i ==> v@[k] as int == r@[k] as int,
                decreases r@.len() - i,
            {
                v.push(r[i] as i16);
                i = i + 1;
            }
            SampleBuffer::Int16(v)
        },
        _ => {
            let mut v: Vec<i32> = Vec::new();
            let mut i: usize = 0;
            while i < r.len()
                invariant
                    i <= r@.len(),
                    v@.len() == i,
                    forall|k: int| 0 <= k < r@.len() ==> spec_in_range(to, r@[k] as int),
                    to == SampleEncoding::Int32,
                    forall|k: int| 0 <= k < i ==> v@[k] as int == r@[k] as int,
                decreases r@.len() - i,
            {
                v.push(r[i] as i32);
                i = i + 1;
            }
            SampleBuffer::Int32(v)
        },
    }
}

/// Converts a buffer into the target encoding. Returns `None` exactly when
/// the pair of encodings would need an integer-to-float rescale, which the
/// verified codec does not perform; every returned buffer holds, sample for
/// sample, the floor-exact rescale of the source buffer.
#[verifier::loop_isolation(false)]
pub fn convert_samples(src: &SampleBuffer, target: SampleEncoding) -> (out: Option<SampleBuffer>)
    ensures
        out is Some <==> spec_rescale_supported(src.encoding(), target),
        out is Some ==> out.unwrap().encoding() == target && out.unwrap().values()
            =~= src.values().map_values(|v: int| spec_rescale(src.encoding(), target, v)),
{
    match src {
        SampleBuffer::Float32Bits(v) => {
            if let SampleEncoding::Float32 = target {
                let mut c: Vec<u32> = Vec::new();
                let mut i: usize = 0;
                while i < v.len()
                    invariant
                        i <= v@.len(),
                        c@.len() == i,
                        forall|k: int| 0 <= k < i ==> c@[k] == v@[k],
                    decreases v@.len() - i,
                {
                    c.push(v[i]);
                    i = i + 1;
                }
                Some(SampleBuffer::Float32Bits(c))
            } else {
                None
            }
        },
        _ => {
            if let SampleEncoding::Float32 = target {
                None
            } else {
                let from: SampleEncoding = src.sample_encoding();
                let w: Vec<i64> = widened(src);
                let r: Vec<i64> = rescaled(&w, from, target);
                let out: SampleBuffer = packed(&r, target);
                Some(out)
            }
        },
    }
}

} // verus!
