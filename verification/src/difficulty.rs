//! Proof-of-work difficulty and accumulated proof-of-work.

use vstd::arithmetic::power2::lemma2_to64;
use vstd::arithmetic::power2::lemma_pow2_adds;
use vstd::arithmetic::power2::lemma_pow2_pos;
use vstd::arithmetic::power2::lemma_pow2_strictly_increases;
use vstd::arithmetic::power2::lemma_pow2_unfold;
use vstd::arithmetic::power2::pow2;
use vstd::prelude::*;

use crate::digest::Digest;
use crate::field::P;

verus! {

/// A number below 2^192, in limbs of 64 bits.
#[derive(Clone, Copy, Debug, PartialEq, Eq, Structural)]
pub struct U192 {
    pub lo: u64,
    pub mid: u64,
    pub hi: u64,
}

/// 2^64.
pub open spec fn b64() -> int {
    0x1_0000_0000_0000_0000
}

impl U192 {
    /// The number itself.
    pub open spec fn number(self) -> int {
        self.lo + b64() * (self.mid + b64() * self.hi)
    }

    /// Compares two numbers.
    pub fn at_most(&self, other: &U192) -> (r: bool)
        ensures
            r == (self.number() <= other.number()),
    {
        if self.hi != other.hi {
            self.hi < other.hi
        } else if self.mid != other.mid {
            self.mid < other.mid
        } else {
            self.lo <= other.lo
        }
    }

    /// Twice the number, plus a bit.
    pub fn double_plus(&self, bit: bool) -> (r: U192)
        requires
            self.hi < 0x8000_0000_0000_0000,
        ensures
            r.number() == 2 * self.number() + (if bit {
                1int
            } else {
                0int
            }),
    {
        let (lo, c0) = double_limb(self.lo, bit);
        let (mid, c1) = double_limb(self.mid, c0);
        let (hi, _c2) = double_limb(self.hi, c1);
        U192 { lo, mid, hi }
    }

    /// The difference of two numbers.
    pub fn minus(&self, other: &U192) -> (r: U192)
        requires
            other.number() <= self.number(),
        ensures
            r.number() == self.number() - other.number(),
    {
        let (lo, b0) = sub_limb(self.lo, other.lo, false);
        let (mid, b1) = sub_limb(self.mid, other.mid, b0);
        let (hi, b2) = sub_limb(self.hi, other.hi, b1);
        let r = U192 { lo, mid, hi };
        assert(r.number() == self.number() - other.number() + (if b2 {
            b64() * b64() * b64()
        } else {
            0int
        }));
        r
    }

    /// The sum of two numbers, unless it exceeds 192 bits.
    pub fn plus(&self, other: &U192) -> (r: Option<U192>)
        ensures
            match r {
                Some(sum) => sum.number() == self.number() + other.number(),
                None => self.number() + other.number() >= b64() * b64() * b64(),
            },
    {
        let (lo, c0) = add_limb(self.lo, other.lo, false);
        let (mid, c1) = add_limb(self.mid, other.mid, c0);
        let (hi, c2) = add_limb(self.hi, other.hi, c1);
        if c2 {
            None
        } else {
            Some(U192 { lo, mid, hi })
        }
    }
}

/// Twice a limb plus a carry, and the carry into the next limb.
fn double_limb(limb: u64, carry: bool) -> (r: (u64, bool))
    ensures
        r.0 + (if r.1 {
            b64()
        } else {
            0int
        }) == 2 * limb + (if carry {
            1int
        } else {
            0int
        }),
{
    add_limb(limb, limb, carry)
}

/// The sum of two limbs and a carry, and the carry into the next limb.
fn add_limb(a: u64, b: u64, carry: bool) -> (r: (u64, bool))
    ensures
        r.0 + (if r.1 {
            b64()
        } else {
            0int
        }) == a + b + (if carry {
            1int
        } else {
            0int
        }),
{
    let sum: u128 = a as u128 + b as u128 + (if carry {
        1u128
    } else {
        0u128
    });
    if sum >= 0x1_0000_0000_0000_0000u128 {
        ((sum - 0x1_0000_0000_0000_0000u128) as u64, true)
    } else {
        (sum as u64, false)
    }
}

/// The difference of two limbs less a borrow, and the borrow from the next limb.
fn sub_limb(a: u64, b: u64, borrow: bool) -> (r: (u64, bool))
    ensures
        r.0 - (if r.1 {
            b64()
        } else {
            0int
        }) == a - b - (if borrow {
            1int
        } else {
            0int
        }),
{
    let taken: u128 = b as u128 + (if borrow {
        1u128
    } else {
        0u128
    });
    if a as u128 >= taken {
        ((a as u128 - taken) as u64, false)
    } else {
        ((a as u128 + 0x1_0000_0000_0000_0000u128 - taken) as u64, true)
    }
}

/// How many digests a block must, on average, be hashed to before it meets its target.
///
/// A number below 2^160.
#[derive(Clone, Copy, Debug, PartialEq, Eq, Structural)]
pub struct Difficulty {
    pub lo: u64,
    pub mid: u64,
    pub hi: u32,
}

/// Two limbs of 32 bits as one of 64 bits.
fn join_limbs(low: u32, high: u32) -> (r: u64)
    ensures
        r == low + 0x1_0000_0000 * high,
{
    low as u64 + 0x1_0000_0000u64 * (high as u64)
}

/// The largest number that a digest can be read as: all its elements are maximal.
pub open spec fn max_digest_number() -> int {
    let p = P as int;
    p * p * p * p * p - 1
}

/// The largest digest, as a number, that solves the proof-of-work puzzle of a difficulty.
pub open spec fn target_number(difficulty: int) -> int {
    if difficulty == 0 {
        max_digest_number()
    } else {
        max_digest_number() / difficulty
    }
}

impl Difficulty {
    /// The number itself.
    pub open spec fn number(self) -> int {
        self.lo + b64() * (self.mid + b64() * self.hi)
    }

    /// The difficulty with the given limbs of 32 bits, least significant first.
    pub fn new(limbs: [u32; 5]) -> (d: Difficulty)
        ensures
            d.number() == limbs[0] + 0x1_0000_0000 * (limbs[1] + 0x1_0000_0000 * (limbs[2]
                + 0x1_0000_0000 * (limbs[3] + 0x1_0000_0000 * limbs[4]))),
    {
        Difficulty {
            lo: join_limbs(limbs[0], limbs[1]),
            mid: join_limbs(limbs[2], limbs[3]),
            hi: limbs[4],
        }
    }

    /// The difficulty with the given number.
    pub fn from_u32(number: u32) -> (d: Difficulty)
        ensures
            d.number() == number,
    {
        Difficulty { lo: number as u64, mid: 0, hi: 0 }
    }

    fn widen(&self) -> (r: U192)
        ensures
            r.number() == self.number(),
            r.hi <= 0xffff_ffff,
    {
        U192 { lo: self.lo, mid: self.mid, hi: self.hi as u64 }
    }

    /// The largest digest that solves the proof-of-work puzzle of this difficulty: the share of
    /// digests that solve it is one in `self`. A difficulty of zero, like one of one, is solved by
    /// every digest.
    pub fn target(&self) -> (d: Digest)
        ensures
            d.canonical(),
            d.number() == target_number(self.number()),
    {
        if self.lo == 0 && self.mid == 0 && self.hi == 0 {
            let one = Difficulty { lo: 1, mid: 0, hi: 0 };
            assert(one.number() == 1);
            assert(max_digest_number() / 1 == max_digest_number());
            one.quotient()
        } else {
            self.quotient()
        }
    }
}

/// The number with the given base-[`P`] digits, least significant first.
pub open spec fn base_p(d0: int, d1: int, d2: int, d3: int, d4: int) -> int {
    let p = P as int;
    d0 + p * (d1 + p * (d2 + p * (d3 + p * d4)))
}

/// The number with the given limbs of 64 bits, least significant first.
pub open spec fn base_b64(n0: u64, n1: u64, n2: u64, n3: u64, n4: u64) -> int {
    n0 + b64() * (n1 + b64() * (n2 + b64() * (n3 + b64() * n4)))
}

/// Twice a base-[`P`] digit plus a carry, and the carry into the next digit.
fn double_digit(digit: u64, carry: bool) -> (r: (u64, bool))
    requires
        digit < P,
    ensures
        r.0 < P,
        r.0 + (if r.1 {
            P as int
        } else {
            0int
        }) == 2 * digit + (if carry {
            1int
        } else {
            0int
        }),
{
    let twice: u128 = digit as u128 + digit as u128 + (if carry {
        1u128
    } else {
        0u128
    });
    if twice >= P as u128 {
        ((twice - P as u128) as u64, true)
    } else {
        (twice as u64, false)
    }
}

/// 2^320 is the fifth power of 2^64.
proof fn lemma_pow2_320()
    ensures
        pow2(320) == b64() * b64() * b64() * b64() * b64(),
{
    lemma2_to64();
    lemma_pow2_adds(64, 64);
    lemma_pow2_adds(128, 64);
    lemma_pow2_adds(192, 64);
    lemma_pow2_adds(256, 64);
}

impl Difficulty {
    /// Divides the largest digest by the difficulty, one bit of the dividend at a time.
    fn quotient(&self) -> (d: Digest)
        requires
            self.number() > 0,
        ensures
            d.canonical(),
            d.number() == max_digest_number() / self.number(),
    {
        let divisor: U192 = self.widen();
        let mut n0: u64 = 0xffff_fffb_0000_0000;
        let mut n1: u64 = 0xffff_ffe2_0000_000e;
        let mut n2: u64 = 0xffff_ffcd_0000_002c;
        let mut n3: u64 = 0xffff_ffe2_0000_002c;
        let mut n4: u64 = 0xffff_fffb_0000_000e;
        let mut rest: U192 = U192 { lo: 0, mid: 0, hi: 0 };
        let mut q0: u64 = 0;
        let mut q1: u64 = 0;
        let mut q2: u64 = 0;
        let mut q3: u64 = 0;
        let mut q4: u64 = 0;
        let ghost n: int = max_digest_number();
        let ghost b320: int = b64() * b64() * b64() * b64() * b64();
        let ghost mut seen: int = 0;
        assert(base_b64(n0, n1, n2, n3, n4) == n);
        assert(pow2(0) == 1) by {
            lemma2_to64();
        }
        assert(base_p(0, 0, 0, 0, 0) == 0);
        assert(base_p(0, 0, 0, 0, 0) * divisor.number() == 0) by (nonlinear_arith)
            requires
                base_p(0, 0, 0, 0, 0) == 0,
        ;
        let mut i: u32 = 0;
        while i < 320
            invariant
                i <= 320,
                n == max_digest_number(),
                b320 == b64() * b64() * b64() * b64() * b64(),
                divisor.number() == self.number(),
                divisor.number() > 0,
                divisor.hi <= 0xffff_ffff,
                0 <= seen,
                seen * b320 + base_b64(n0, n1, n2, n3, n4) == n * pow2(i as nat),
                pow2(i as nat) <= b320,
                q0 < P,
                q1 < P,
                q2 < P,
                q3 < P,
                q4 < P,
                base_p(q0 as int, q1 as int, q2 as int, q3 as int, q4 as int) * divisor.number()
                    + rest.number() == seen,
                rest.number() < divisor.number(),
            decreases 320 - i,
        {
            proof {
                lemma_pow2_unfold((i + 1) as nat);
                lemma_pow2_320();
                lemma_pow2_pos((i + 1) as nat);
                if i + 1 < 320 {
                    lemma_pow2_strictly_increases((i + 1) as nat, 320);
                }
            }
            let ghost old_n: int = base_b64(n0, n1, n2, n3, n4);
            let ghost old_q: int = base_p(q0 as int, q1 as int, q2 as int, q3 as int, q4 as int);
            let ghost old_rest: int = rest.number();
            let ghost old_seen: int = seen;
            let (m0, c0) = double_limb(n0, false);
            let (m1, c1) = double_limb(n1, c0);
            let (m2, c2) = double_limb(n2, c1);
            let (m3, c3) = double_limb(n3, c2);
            let (m4, bit) = double_limb(n4, c3);
            let ghost b: int = if bit {
                1
            } else {
                0
            };
            assert(base_b64(m0, m1, m2, m3, m4) + b * b320 == 2 * old_n);
            n0 = m0;
            n1 = m1;
            n2 = m2;
            n3 = m3;
            n4 = m4;
            proof {
                seen = 2 * seen + b;
                assert(seen * b320 + base_b64(n0, n1, n2, n3, n4) == n * pow2((i + 1) as nat))
                    by (nonlinear_arith)
                    requires
                        seen == 2 * old_seen + b,
                        base_b64(n0, n1, n2, n3, n4) + b * b320 == 2 * old_n,
                        old_seen * b320 + old_n == n * pow2(i as nat),
                        pow2((i + 1) as nat) == 2 * pow2(i as nat),
                ;
                let left = base_b64(n0, n1, n2, n3, n4);
                lemma_prefix_bound(seen, b320, left, n, pow2((i + 1) as nat) as int);
            }
            rest = rest.double_plus(bit);
            let fits: bool = divisor.at_most(&rest);
            if fits {
                rest = rest.minus(&divisor);
            }
            let ghost f: int = if fits {
                1
            } else {
                0
            };
            proof {
                assert((2 * old_q + f) * divisor.number() + rest.number() == seen)
                    by (nonlinear_arith)
                    requires
                        old_q * divisor.number() + old_rest == old_seen,
                        seen == 2 * old_seen + b,
                        rest.number() == 2 * old_rest + b - f * divisor.number(),
                ;
                assert(2 * old_q + f <= n) by (nonlinear_arith)
                    requires
                        (2 * old_q + f) * divisor.number() + rest.number() == seen,
                        seen <= n,
                        divisor.number() > 0,
                        rest.number() >= 0,
                        2 * old_q + f >= 0,
                ;
            }
            let (r0, e0) = double_digit(q0, fits);
            let (r1, e1) = double_digit(q1, e0);
            let (r2, e2) = double_digit(q2, e1);
            let (r3, e3) = double_digit(q3, e2);
            let (r4, _e4) = double_digit(q4, e3);
            q0 = r0;
            q1 = r1;
            q2 = r2;
            q3 = r3;
            q4 = r4;
            assert(base_p(q0 as int, q1 as int, q2 as int, q3 as int, q4 as int) == 2 * old_q + f);
            i = i + 1;
        }
        let d = Digest { e0: q0, e1: q1, e2: q2, e3: q3, e4: q4 };
        proof {
            lemma_pow2_320();
            let left = base_b64(n0, n1, n2, n3, n4);
            assert(seen == n) by (nonlinear_arith)
                requires
                    seen * b320 + left == n * b320,
                    0 <= left < b320,
                    b320 > 0,
            ;
            let q = base_p(q0 as int, q1 as int, q2 as int, q3 as int, q4 as int);
            vstd::arithmetic::div_mod::lemma_fundamental_div_mod_converse(
                n,
                divisor.number(),
                q,
                rest.number(),
            );
        }
        d
    }
}

/// What has been read of a dividend is at most the dividend.
proof fn lemma_prefix_bound(seen: int, b320: int, left: int, n: int, shift: int)
    by (nonlinear_arith)
    requires
        seen * b320 + left == n * shift,
        0 <= left,
        0 <= n,
        0 < shift <= b320,
    ensures
        seen <= n,
{
}

impl Difficulty {
    /// Half the difficulty, rounded down.
    fn halve(&self) -> (d: Difficulty)
        ensures
            d.number() == self.number() / 2,
    {
        let hi: u32 = self.hi / 2;
        let mid: u64 = self.mid / 2 + (if self.hi % 2 == 1 {
            0x8000_0000_0000_0000u64
        } else {
            0u64
        });
        let lo: u64 = self.lo / 2 + (if self.mid % 2 == 1 {
            0x8000_0000_0000_0000u64
        } else {
            0u64
        });
        Difficulty { lo, mid, hi }
    }

    /// The largest number that a difficulty can be.
    pub open spec fn max_number() -> int {
        0x1_0000_0000 * b64() * b64() - 1
    }

    /// The sum of two difficulties, which must not be too large.
    pub fn plus(&self, other: &Difficulty) -> (d: Difficulty)
        requires
            self.number() + other.number() <= Difficulty::max_number(),
        ensures
            d.number() == self.number() + other.number(),
    {
        let (lo, c0) = add_limb(self.lo, other.lo, false);
        let (mid, c1) = add_limb(self.mid, other.mid, c0);
        let hi: u64 = self.hi as u64 + other.hi as u64 + (if c1 {
            1u64
        } else {
            0u64
        });
        assert(hi < 0x1_0000_0000);
        Difficulty { lo, mid, hi: hi as u32 }
    }

    /// The difficulty divided by a power of two, rounded down.
    pub fn shift_right(&self, shift: u64) -> (d: Difficulty)
        ensures
            d.number() == self.number() / (pow2(shift as nat) as int),
    {
        if shift >= 160 {
            proof {
                lemma_below_pow2_160(*self);
                lemma_pow2_pos(shift as nat);
                if shift > 160 {
                    lemma_pow2_strictly_increases(160, shift as nat);
                }
                vstd::arithmetic::div_mod::lemma_basic_div(
                    self.number(),
                    pow2(shift as nat) as int,
                );
            }
            return Difficulty { lo: 0, mid: 0, hi: 0 };
        }
        let mut d: Difficulty = *self;
        let mut i: u64 = 0;
        assert(pow2(0) == 1) by {
            lemma2_to64();
        }
        assert(self.number() / 1 == self.number());
        while i < shift
            invariant
                i <= shift,
                d.number() == self.number() / (pow2(i as nat) as int),
            decreases shift - i,
        {
            proof {
                lemma_pow2_unfold((i + 1) as nat);
                lemma_pow2_pos(i as nat);
                vstd::arithmetic::div_mod::lemma_div_denominator(
                    self.number(),
                    pow2(i as nat) as int,
                    2,
                );
            }
            d = d.halve();
            i = i + 1;
        }
        d
    }
}

/// A difficulty is below 2^160.
proof fn lemma_below_pow2_160(d: Difficulty)
    ensures
        0 <= d.number() < pow2(160),
{
    lemma2_to64();
    lemma_pow2_adds(64, 64);
    lemma_pow2_adds(128, 32);
}

/// The proof-of-work that a chain of blocks has accumulated.
///
/// A number below 2^192.
#[derive(Clone, Copy, Debug, PartialEq, Eq, Structural)]
pub struct ProofOfWork {
    pub sum: U192,
}

impl ProofOfWork {
    /// The number itself.
    pub open spec fn number(self) -> int {
        self.sum.number()
    }

    /// No work at all.
    pub open spec fn spec_zero() -> ProofOfWork {
        ProofOfWork { sum: U192 { lo: 0, mid: 0, hi: 0 } }
    }

    /// No work at all.
    pub fn zero() -> (w: ProofOfWork)
        ensures
            w == ProofOfWork::spec_zero(),
            w.number() == 0,
    {
        ProofOfWork { sum: U192 { lo: 0, mid: 0, hi: 0 } }
    }

    /// The proof-of-work with the given limbs of 32 bits, least significant first.
    pub fn new(limbs: [u32; 6]) -> (w: ProofOfWork)
        ensures
            w.number() == limbs[0] + 0x1_0000_0000 * (limbs[1] + 0x1_0000_0000 * (limbs[2]
                + 0x1_0000_0000 * (limbs[3] + 0x1_0000_0000 * (limbs[4] + 0x1_0000_0000
                * limbs[5])))),
    {
        ProofOfWork {
            sum: U192 {
                lo: join_limbs(limbs[0], limbs[1]),
                mid: join_limbs(limbs[2], limbs[3]),
                hi: join_limbs(limbs[4], limbs[5]),
            },
        }
    }

    /// Whether at least as much work has been accumulated as `other`.
    pub fn at_least(&self, other: &ProofOfWork) -> (r: bool)
        ensures
            r == (self.number() >= other.number()),
    {
        other.sum.at_most(&self.sum)
    }

    /// The work accumulated once a block of the given difficulty is added, unless that exceeds 192
    /// bits.
    pub fn plus(&self, difficulty: &Difficulty) -> (r: Option<ProofOfWork>)
        ensures
            match r {
                Some(w) => w.number() == self.number() + difficulty.number(),
                None => self.number() + difficulty.number() >= b64() * b64() * b64(),
            },
    {
        match self.sum.plus(&difficulty.widen()) {
            Some(sum) => Some(ProofOfWork { sum }),
            None => None,
        }
    }
}

/// Two amounts of work with the same number are the same.
pub proof fn lemma_proof_of_work_number_injective(a: ProofOfWork, b: ProofOfWork)
    requires
        a.number() == b.number(),
    ensures
        a == b,
{
}

/// Nothing remains of a difficulty when all of its bits are cut off.
pub proof fn lemma_shift_by_width(d: Difficulty)
    ensures
        0 <= d.number(),
        d.number() / pow2(160) as int == 0,
{
    lemma_below_pow2_160(d);
    vstd::arithmetic::div_mod::lemma_basic_div(d.number(), pow2(160) as int);
}

} // verus!
