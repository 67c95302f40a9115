//! Binary32 numbers held as bit patterns, and their rendering with four
//! decimal places.

use crate::text::{decimal, four_digits, push_decimal, push_four_digits};
use vstd::arithmetic::div_mod::{
    lemma_basic_div,
    lemma_div_by_multiple,
    lemma_mod_multiples_basic,
    lemma_small_mod,
};
use vstd::arithmetic::power2::{
    lemma2_to64,
    lemma2_to64_rest,
    lemma_pow2_adds,
    lemma_pow2_strictly_increases,
    lemma_pow2_unfold,
    pow2,
};
use vstd::prelude::*;
use vstd::string::*;

verus! {

/// An IEEE-754 binary32 number, held as its bit pattern: one sign bit, eight
/// exponent bits, twenty-three fraction bits.
#[derive(Clone, Copy, Debug, PartialEq, Eq)]
pub struct Float32 {
    pub bits: u32,
}

/// `num / den`, rounded to the nearest integer, ties to the even one.
pub open spec fn round_half_even(num: nat, den: nat) -> nat {
    let q = num / den;
    let r = num % den;
    if 2 * r > den || (2 * r == den && q % 2 == 1) {
        q + 1
    } else {
        q
    }
}

impl Float32 {
    /// The sign bit is set.
    pub open spec fn negative(self) -> bool {
        self.bits >= 0x8000_0000
    }

    /// The eight exponent bits.
    pub open spec fn exponent_field(self) -> nat {
        ((self.bits / 0x80_0000) % 256) as nat
    }

    /// The twenty-three fraction bits.
    pub open spec fn fraction_field(self) -> nat {
        (self.bits % 0x80_0000) as nat
    }

    /// Not a number.
    pub open spec fn is_nan(self) -> bool {
        self.exponent_field() == 255 && self.fraction_field() != 0
    }

    /// Plus or minus infinity.
    pub open spec fn is_infinite(self) -> bool {
        self.exponent_field() == 255 && self.fraction_field() == 0
    }

    /// For a finite number, the integer `m` of `|x| = m * 2^e`.
    pub open spec fn significand(self) -> nat {
        if self.exponent_field() == 0 {
            self.fraction_field()
        } else {
            self.fraction_field() + 0x80_0000
        }
    }

    /// For a finite number, the integer `e` of `|x| = m * 2^e`.
    pub open spec fn exponent(self) -> int {
        if self.exponent_field() == 0 {
            -149
        } else {
            self.exponent_field() - 150
        }
    }

    /// For a finite number, `|x| * 10000` rounded to the nearest integer,
    /// ties to even.
    pub open spec fn ten_thousandths(self) -> nat {
        if self.exponent() >= 0 {
            self.significand() * pow2(self.exponent() as nat) * 10000
        } else {
            round_half_even(self.significand() * 10000, pow2((-self.exponent()) as nat))
        }
    }

    /// The sign as text: a minus where the sign bit is set.
    pub open spec fn sign_text(self) -> Seq<char> {
        if self.negative() {
            seq!['-']
        } else {
            Seq::empty()
        }
    }

    /// The number with exactly four decimal places: `NaN`, `inf` or `-inf`
    /// where it is not finite; else the sign, the integer part and the four
    /// digits of `ten_thousandths`.
    pub open spec fn fixed4(self) -> Seq<char> {
        if self.is_nan() {
            seq!['N', 'a', 'N']
        } else if self.is_infinite() {
            self.sign_text() + seq!['i', 'n', 'f']
        } else {
            self.sign_text() + decimal(self.ten_thousandths() / 10000) + seq!['.'] + four_digits(
                self.ten_thousandths() % 10000,
            )
        }
    }

    /// The number with this bit pattern.
    pub fn from_bits(bits: u32) -> (r: Self)
        ensures
            r.bits == bits,
    {
        Float32 { bits }
    }

    /// The bit pattern.
    pub fn to_bits(self) -> (r: u32)
        ensures
            r == self.bits,
    {
        self.bits
    }

    /// Renders the number with four decimal places.
    pub fn to_fixed4(&self) -> (r: String)
        ensures
            r@ == self.fixed4(),
    {
        let mut out = String::new();
        self.push_fixed4(&mut out);
        assert(out@ =~= self.fixed4());
        out
    }

    /// Appends the number with four decimal places to `out`.
    pub fn push_fixed4(&self, out: &mut String)
        ensures
            final(out)@ == old(out)@ + self.fixed4(),
    {
        let negative = self.bits >= 0x8000_0000;
        let field: u32 = (self.bits / 0x80_0000) % 256;
        let fraction: u32 = self.bits % 0x80_0000;
        if field == 255 && fraction != 0 {
            proof {
                reveal_strlit("NaN");
            }
            out.append("NaN");
            assert(out@ =~= old(out)@ + self.fixed4());
            return ;
        }
        if negative {
            proof {
                reveal_strlit("-");
            }
            out.append("-");
        }
        assert(out@ =~= old(out)@ + self.sign_text());
        if field == 255 {
            proof {
                reveal_strlit("inf");
            }
            out.append("inf");
            assert(out@ =~= old(out)@ + self.fixed4());
            return ;
        }
        let m: u128 = if field == 0 {
            fraction as u128
        } else {
            (fraction + 0x80_0000) as u128
        };
        let whole: u128;
        let rest: u16;
        if field >= 150 {
            let p = pow2_u128(field - 150);
            assert(m * p < 0x100_0000 * 0x100_0000_0000_0000_0000_0000_0000) by (nonlinear_arith)
                requires
                    m < 0x100_0000,
                    p <= 0x100_0000_0000_0000_0000_0000_0000,
            ;
            whole = m * p;
            rest = 0;
            proof {
                lemma_div_by_multiple(whole as int, 10000);
                lemma_mod_multiples_basic(whole as int, 10000);
            }
        } else {
            let k: u32 = if field == 0 {
                149
            } else {
                150 - field
            };
            let num: u128 = m * 10000;
            let t: u128;
            if k >= 40 {
                proof {
                    lemma2_to64_rest();
                    if k > 40 {
                        lemma_pow2_strictly_increases(40, k as nat);
                    }
                    lemma_basic_div(num as int, pow2(k as nat) as int);
                    lemma_small_mod(num as nat, pow2(k as nat));
                }
                t = 0;
            } else {
                let d = pow2_u128(k);
                proof {
                    lemma2_to64_rest();
                    if k < 39 {
                        lemma_pow2_strictly_increases(k as nat, 39);
                    }
                }
                let q = num / d;
                let r = num % d;
                if 2 * r > d || (2 * r == d && q % 2 == 1) {
                    t = q + 1;
                } else {
                    t = q;
                }
            }
            assert(t == self.ten_thousandths());
            whole = t / 10000;
            rest = (t % 10000) as u16;
        }
        assert(whole == self.ten_thousandths() / 10000);
        assert(rest == self.ten_thousandths() % 10000);
        push_decimal(out, whole);
        proof {
            reveal_strlit(".");
        }
        out.append(".");
        push_four_digits(out, rest);
        assert(out@ =~= old(out)@ + self.fixed4());
    }
}

/// Two to the power `e`.
fn pow2_u128(e: u32) -> (p: u128)
    requires
        e <= 104,
    ensures
        p == pow2(e as nat),
        0 < p <= 0x100_0000_0000_0000_0000_0000_0000,
{
    proof {
        lemma2_to64();
        lemma2_to64_rest();
        lemma_pow2_adds(64, 40);
    }
    let mut p: u128 = 1;
    let mut i: u32 = 0;
    while i < e
        invariant
            i <= e <= 104,
            p == pow2(i as nat),
            0 < p <= pow2(104),
            pow2(104) == 0x100_0000_0000_0000_0000_0000_0000,
        decreases e - i,
    {
        proof {
            lemma_pow2_unfold((i + 1) as nat);
            if i + 1 < 104 {
                lemma_pow2_strictly_increases((i + 1) as nat, 104);
            }
        }
        p = p * 2;
        i = i + 1;
    }
    p
}

} // verus!
