//! Usage figures: what the monitor reports about memory and CPU.
//!
//! Memory usage is kept exact, as the fraction of used bytes in all bytes, so
//! that nothing is lost before a caller rounds it. CPU usage comes from the
//! operating-system facility as a single-precision number and is carried as
//! its bit pattern.

use vstd::arithmetic::power2::{
    lemma2_to64, lemma_pow2_adds, lemma_pow2_pos, lemma_pow2_strictly_increases, pow2,
};
use vstd::prelude::*;

verus! {

/// A share of a whole as an exact fraction. As a usage figure it stands for
/// `100 * part / whole` percent.
pub struct Fraction {
    pub part: nat,
    pub whole: nat,
}

impl Fraction {
    /// The figure is at least `percent` percent.
    pub open spec fn at_least(self, percent: int) -> bool {
        percent * self.whole <= 100 * self.part
    }

    /// The figure is at most `percent` percent.
    pub open spec fn at_most(self, percent: int) -> bool {
        100 * self.part <= percent * self.whole
    }

    /// The figure lies between 0 and 100 percent, both included.
    pub open spec fn in_range(self) -> bool {
        self.at_least(0) && self.at_most(100)
    }

    /// The figure is exactly 0 percent.
    pub open spec fn is_zero(self) -> bool {
        self.part == 0 && self.whole > 0
    }
}

/// The memory usage when `used` bytes out of `total` are in use: their ratio,
/// and zero when the total is reported as zero.
pub open spec fn memory_usage(used: nat, total: nat) -> Fraction {
    if total == 0 {
        Fraction { part: 0, whole: 1 }
    } else {
        Fraction { part: used, whole: total }
    }
}

/// A usage figure in percent, held as the fraction `part / whole`. The whole
/// is never zero.
#[derive(Clone, Copy, Debug)]
pub struct Percentage {
    part: u64,
    whole: u64,
}

impl View for Percentage {
    type V = Fraction;

    closed spec fn view(&self) -> Fraction {
        Fraction { part: self.part as nat, whole: self.whole as nat }
    }
}

impl Percentage {
    #[verifier::type_invariant]
    spec fn whole_is_positive(self) -> bool {
        self.whole > 0
    }

    /// The numerator of the fraction.
    pub fn part(&self) -> (part: u64)
        ensures
            part == self@.part,
    {
        self.part
    }

    /// The denominator of the fraction, which is never zero.
    pub fn whole(&self) -> (whole: u64)
        ensures
            whole == self@.whole,
            whole > 0,
    {
        proof {
            use_type_invariant(self);
        }
        self.whole
    }

    /// Whether the figure lies between 0 and 100 percent.
    pub fn is_in_range(&self) -> (within: bool)
        ensures
            within == self@.in_range(),
    {
        proof {
            use_type_invariant(self);
            assert(self@.in_range() <==> self.part <= self.whole) by (nonlinear_arith)
                requires
                    self@.part == self.part,
                    self@.whole == self.whole,
                    self.whole > 0,
            ;
        }
        self.part <= self.whole
    }
}

/// The memory usage for the readings `used` and `total`, both in bytes. A
/// total of zero gives a usage of exactly zero; readings with `used <= total`
/// give a usage between 0 and 100 percent.
pub fn compute_memory_usage(used: u64, total: u64) -> (usage: Percentage)
    ensures
        usage@ == memory_usage(used as nat, total as nat),
        total == 0 ==> usage@.is_zero(),
        used <= total ==> usage@.in_range(),
{
    proof {
        if used <= total {
            lemma_memory_usage_in_range(used as nat, total as nat);
        }
    }
    if total > 0 {
        Percentage { part: used, whole: total }
    } else {
        Percentage { part: 0, whole: 1 }
    }
}

/// Readings in which no more is in use than the total give a usage between 0
/// and 100 percent.
pub proof fn lemma_memory_usage_in_range(used: nat, total: nat)
    requires
        used <= total,
    ensures
        memory_usage(used, total).in_range(),
{
    assert(100 * used <= 100 * total) by (nonlinear_arith)
        requires
            used <= total,
    ;
}

/// Readings in which more is in use than a total that is not zero give a
/// usage above 100 percent: the ratio is handed on as it is, not cut off.
pub proof fn lemma_memory_usage_above_range(used: nat, total: nat)
    requires
        used > total > 0,
    ensures
        !memory_usage(used, total).at_most(100),
        !memory_usage(used, total).in_range(),
{
    assert(100 * used > 100 * total) by (nonlinear_arith)
        requires
            used > total,
    ;
}

/// A total of zero gives a usage of exactly zero, whatever is reported as
/// used: nothing is divided by zero.
pub proof fn lemma_zero_total_is_zero_usage(used: nat)
    ensures
        memory_usage(used, 0).is_zero(),
        memory_usage(used, 0) == (Fraction { part: 0, whole: 1 }),
{
}

/// An aggregate CPU usage figure in percent, held as the bit pattern of the
/// IEEE 754 single-precision number that the operating-system facility
/// computed. Its view is that bit pattern.
#[derive(Clone, Copy, Debug)]
pub struct CpuUsage {
    bits: u32,
}

impl View for CpuUsage {
    type V = u32;

    closed spec fn view(&self) -> u32 {
        self.bits
    }
}

impl CpuUsage {
    /// The sign bit is set.
    pub open spec fn is_negative(self) -> bool {
        self@ >= 0x8000_0000
    }

    /// The biased exponent: the eight bits below the sign bit.
    pub open spec fn exponent(self) -> nat {
        ((self@ as nat) / 0x80_0000) % 0x100
    }

    /// The fraction field: the low twenty-three bits.
    pub open spec fn mantissa(self) -> nat {
        (self@ as nat) % 0x80_0000
    }

    /// The bit pattern stands for a number, not for an infinity or a NaN.
    pub open spec fn is_finite(self) -> bool {
        self.exponent() < 0xff
    }

    /// The magnitude of a finite figure, multiplied by `2^149`, which makes
    /// it a whole number: the fraction field alone for a subnormal number,
    /// and the fraction field with its hidden bit, shifted by the exponent,
    /// for a normal one.
    pub open spec fn scaled_magnitude(self) -> nat {
        if self.exponent() == 0 {
            self.mantissa()
        } else {
            (0x80_0000 + self.mantissa()) * pow2((self.exponent() - 1) as nat)
        }
    }

    /// The figure is a number between 0 and 100, both included. Negative
    /// zero counts as zero.
    pub open spec fn in_range(self) -> bool {
        &&& self.is_finite()
        &&& self.scaled_magnitude() <= 100 * pow2(149)
        &&& self.is_negative() ==> self.scaled_magnitude() == 0
    }

    /// The figure with this bit pattern.
    pub fn from_bits(bits: u32) -> (usage: CpuUsage)
        ensures
            usage@ == bits,
    {
        CpuUsage { bits }
    }

    /// The bit pattern of the figure.
    pub fn to_bits(&self) -> (bits: u32)
        ensures
            bits == self@,
    {
        self.bits
    }

    /// Whether the figure is a number between 0 and 100. Among the bit
    /// patterns without sign those up to the pattern of 100 are in range,
    /// since they are ordered as the numbers they stand for; with a sign only
    /// negative zero is.
    pub fn is_in_range(&self) -> (within: bool)
        ensures
            within == self.in_range(),
    {
        proof {
            lemma_in_range_by_bits(*self);
        }
        self.bits <= 0x42C8_0000 || self.bits == 0x8000_0000
    }
}

/// A figure is in range exactly when its bit pattern is at most that of 100
/// or is that of negative zero.
pub proof fn lemma_in_range_by_bits(usage: CpuUsage)
    ensures
        usage.in_range() <==> (usage@ <= 0x42C8_0000 || usage@ == 0x8000_0000),
{
    let bits = usage@ as nat;
    let e = usage.exponent();
    let m = usage.mantissa();
    lemma2_to64();
    assert(bits == (bits / 0x80_0000) * 0x80_0000 + m);
    if e >= 1 {
        lemma_pow2_pos((e - 1) as nat);
        assert((0x80_0000 + m) * pow2((e - 1) as nat) >= 0x80_0000) by (nonlinear_arith)
            requires
                pow2((e - 1) as nat) >= 1,
        ;
    }
    if usage.is_negative() {
        assert(bits / 0x80_0000 >= 0x100);
        assert(bits / 0x80_0000 < 0x200);
    } else {
        assert(bits / 0x80_0000 == e);
        lemma_pow2_adds(17, 132);
        let bound = 100 * pow2(149);
        assert(bound == 0xC8_0000 * pow2(132)) by (nonlinear_arith)
            requires
                bound == 100 * pow2(149),
                pow2(149) == pow2(17) * pow2(132),
                pow2(17) == 0x2_0000,
        ;
        lemma_pow2_pos(132);
        if e == 0 {
            lemma_pow2_strictly_increases(23, 149);
        } else if e < 133 {
            if e < 132 {
                lemma_pow2_strictly_increases((e - 1) as nat, 131);
            }
            lemma_pow2_adds(1, 131);
            assert((0x80_0000 + m) * pow2((e - 1) as nat) <= bound) by (nonlinear_arith)
                requires
                    m < 0x80_0000,
                    pow2((e - 1) as nat) <= pow2(131),
                    pow2(132) == 2 * pow2(131),
                    bound == 0xC8_0000 * pow2(132),
            ;
        } else if e == 133 {
            assert((0x80_0000 + m) * pow2(132) <= bound <==> m <= 0x48_0000) by (nonlinear_arith)
                requires
                    pow2(132) > 0,
                    bound == 0xC8_0000 * pow2(132),
            ;
        } else {
            if e > 134 {
                lemma_pow2_strictly_increases(133, (e - 1) as nat);
            }
            lemma_pow2_adds(1, 132);
            assert((0x80_0000 + m) * pow2((e - 1) as nat) > bound) by (nonlinear_arith)
                requires
                    pow2((e - 1) as nat) >= pow2(133),
                    pow2(133) == 2 * pow2(132),
                    pow2(132) > 0,
                    bound == 0xC8_0000 * pow2(132),
            ;
        }
    }
}

} // verus!
