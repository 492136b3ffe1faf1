//! Exact rational arithmetic on `i64` numerator/denominator pairs.
//!
//! Every coordinate the editor works with (screen points, world points,
//! camera scales and translations) is a `Frac`. The ghost type `Rat`
//! mirrors the same value over unbounded integers, so contracts can
//! speak about the mathematical result of a computation even where the
//! executable code has to stay within machine integers.

use vstd::prelude::*;

verus! {

/// A mathematical rational `num / den`; well formed when `den > 0`.
/// Values are not reduced: two `Rat`s denote the same rational exactly
/// when `eqv` holds (cross multiplication).
pub ghost struct Rat {
    pub num: int,
    pub den: int,
}

impl Rat {
    pub open spec fn wf(self) -> bool {
        self.den > 0
    }

    pub open spec fn plus(self, o: Rat) -> Rat {
        Rat { num: self.num * o.den + o.num * self.den, den: self.den * o.den }
    }

    pub open spec fn minus(self, o: Rat) -> Rat {
        Rat { num: self.num * o.den - o.num * self.den, den: self.den * o.den }
    }

    pub open spec fn times(self, o: Rat) -> Rat {
        Rat { num: self.num * o.num, den: self.den * o.den }
    }

    /// Division, with the sign moved into the numerator so that a well
    /// formed dividend and a nonzero divisor give a well formed result.
    pub open spec fn div_by(self, o: Rat) -> Rat {
        if o.num >= 0 {
            Rat { num: self.num * o.den, den: self.den * o.num }
        } else {
            Rat { num: -(self.num * o.den), den: -(self.den * o.num) }
        }
    }

    pub open spec fn neg(self) -> Rat {
        Rat { num: -self.num, den: self.den }
    }

    /// `self <= o`, for well formed values.
    pub open spec fn lte(self, o: Rat) -> bool {
        self.num * o.den <= o.num * self.den
    }

    /// `self < o`, for well formed values.
    pub open spec fn ltv(self, o: Rat) -> bool {
        self.num * o.den < o.num * self.den
    }

    /// The two pairs denote the same rational (for well formed values).
    pub open spec fn eqv(self, o: Rat) -> bool {
        self.num * o.den == o.num * self.den
    }

    pub open spec fn is_zero(self) -> bool {
        self.num == 0
    }

    /// Both components fit the executable representation.
    pub open spec fn in_range(self) -> bool {
        i64::MIN <= self.num <= i64::MAX && 0 < self.den <= i64::MAX
    }
}

/// An exact rational held in executable code; the invariant is `den > 0`.
/// Equality is representation equality; `eqv` on the values compares the
/// rationals themselves.
#[derive(Clone, Copy, Debug, PartialEq, Eq, Structural)]
pub struct Frac {
    pub num: i64,
    pub den: i64,
}

impl Frac {
    pub open spec fn wf(self) -> bool {
        self.den > 0
    }

    /// The mathematical value of this pair.
    pub open spec fn r(self) -> Rat {
        Rat { num: self.num as int, den: self.den as int }
    }

    pub fn new(num: i64, den: i64) -> (r: Frac)
        requires
            den > 0,
        ensures
            r.wf(),
            r.r() == (Rat { num: num as int, den: den as int }),
    {
        Frac { num, den }
    }

    pub fn from_int(v: i64) -> (r: Frac)
        ensures
            r.wf(),
            r.r() == (Rat { num: v as int, den: 1int }),
    {
        Frac { num: v, den: 1 }
    }

    pub fn zero() -> (r: Frac)
        ensures
            r.wf(),
            r.r().is_zero(),
            r.r() == (Rat { num: 0int, den: 1int }),
    {
        Frac { num: 0, den: 1 }
    }

    pub fn plus(self, o: Frac) -> (r: Frac)
        requires
            self.wf(),
            o.wf(),
            self.r().plus(o.r()).in_range(),
        ensures
            r.wf(),
            r.r() == self.r().plus(o.r()),
    {
        proof {
            lemma_mul_num_den_bound(self.num as int, o.den as int);
            lemma_mul_num_den_bound(o.num as int, self.den as int);
            lemma_mul_num_den_bound(self.den as int, o.den as int);
        }
        let n: i128 = (self.num as i128) * (o.den as i128) + (o.num as i128) * (self.den as i128);
        let d: i128 = (self.den as i128) * (o.den as i128);
        Frac { num: n as i64, den: d as i64 }
    }

    pub fn minus(self, o: Frac) -> (r: Frac)
        requires
            self.wf(),
            o.wf(),
            self.r().minus(o.r()).in_range(),
        ensures
            r.wf(),
            r.r() == self.r().minus(o.r()),
    {
        proof {
            lemma_mul_num_den_bound(self.num as int, o.den as int);
            lemma_mul_num_den_bound(o.num as int, self.den as int);
            lemma_mul_num_den_bound(self.den as int, o.den as int);
        }
        let n: i128 = (self.num as i128) * (o.den as i128) - (o.num as i128) * (self.den as i128);
        let d: i128 = (self.den as i128) * (o.den as i128);
        Frac { num: n as i64, den: d as i64 }
    }

    pub fn times(self, o: Frac) -> (r: Frac)
        requires
            self.wf(),
            o.wf(),
            self.r().times(o.r()).in_range(),
        ensures
            r.wf(),
            r.r() == self.r().times(o.r()),
    {
        proof {
            lemma_mul_i64_bound(self.num as int, o.num as int);
            lemma_mul_num_den_bound(self.den as int, o.den as int);
        }
        let n: i128 = (self.num as i128) * (o.num as i128);
        let d: i128 = (self.den as i128) * (o.den as i128);
        Frac { num: n as i64, den: d as i64 }
    }

    pub fn div_by(self, o: Frac) -> (r: Frac)
        requires
            self.wf(),
            o.wf(),
            o.r().num != 0,
            self.r().div_by(o.r()).in_range(),
        ensures
            r.wf(),
            r.r() == self.r().div_by(o.r()),
    {
        proof {
            lemma_mul_num_den_bound(self.num as int, o.den as int);
            lemma_mul_i64_bound(self.den as int, o.num as int);
        }
        let n: i128 = (self.num as i128) * (o.den as i128);
        let d: i128 = (self.den as i128) * (o.num as i128);
        if o.num >= 0 {
            Frac { num: n as i64, den: d as i64 }
        } else {
            Frac { num: (-n) as i64, den: (-d) as i64 }
        }
    }

    pub fn neg(self) -> (r: Frac)
        requires
            self.wf(),
            self.num > i64::MIN,
        ensures
            r.wf(),
            r.r() == self.r().neg(),
    {
        Frac { num: -self.num, den: self.den }
    }

    pub fn lte(self, o: Frac) -> (r: bool)
        requires
            self.wf(),
            o.wf(),
        ensures
            r == self.r().lte(o.r()),
    {
        proof {
            lemma_mul_num_den_bound(self.num as int, o.den as int);
            lemma_mul_num_den_bound(o.num as int, self.den as int);
        }
        (self.num as i128) * (o.den as i128) <= (o.num as i128) * (self.den as i128)
    }

    pub fn ltv(self, o: Frac) -> (r: bool)
        requires
            self.wf(),
            o.wf(),
        ensures
            r == self.r().ltv(o.r()),
    {
        proof {
            lemma_mul_num_den_bound(self.num as int, o.den as int);
            lemma_mul_num_den_bound(o.num as int, self.den as int);
        }
        (self.num as i128) * (o.den as i128) < (o.num as i128) * (self.den as i128)
    }

    pub fn is_zero(self) -> (r: bool)
        ensures
            r == self.r().is_zero(),
    {
        self.num == 0
    }
}

/// A product of two values in `i64` range stays well inside `i128`.
pub proof fn lemma_mul_i64_bound(a: int, b: int)
    by (nonlinear_arith)
    requires
        i64::MIN <= a <= i64::MAX,
        i64::MIN <= b <= i64::MAX,
    ensures
        -0x4000_0000_0000_0000_0000_0000_0000_0000 <= a * b
            <= 0x4000_0000_0000_0000_0000_0000_0000_0000,
{
}

/// A product of an `i64` with a positive `i64` denominator is small
/// enough that a sum of two such products still fits `i128`.
pub proof fn lemma_mul_num_den_bound(a: int, d: int)
    by (nonlinear_arith)
    requires
        i64::MIN <= a <= i64::MAX,
        1 <= d <= i64::MAX,
    ensures
        -0x3fff_ffff_ffff_ffff_8000_0000_0000_0000 <= a * d
            <= 0x3fff_ffff_ffff_ffff_8000_0000_0000_0000,
{
}

/// Well-formedness is preserved by the arithmetic, as long as a divisor
/// is nonzero.
pub proof fn lemma_plus_wf(a: Rat, b: Rat)
    by (nonlinear_arith)
    requires
        a.wf(),
        b.wf(),
    ensures
        a.plus(b).wf(),
        a.minus(b).wf(),
        a.times(b).wf(),
{
}

pub proof fn lemma_div_wf(a: Rat, b: Rat)
    by (nonlinear_arith)
    requires
        a.wf(),
        b.wf(),
        b.num != 0,
    ensures
        a.div_by(b).wf(),
{
}

/// Adding the difference `a - c` back onto `c` gives `a` again.
pub proof fn lemma_plus_minus_cancel(c: Rat, a: Rat)
    by (nonlinear_arith)
    requires
        c.wf(),
        a.wf(),
    ensures
        c.plus(a.minus(c)).eqv(a),
        c.plus(a.minus(c)).wf(),
{
}

proof fn lemma_mul_swap(x: int, y: int, z: int)
    by (nonlinear_arith)
    ensures
        (x * y) * z == (x * z) * y,
{
}

proof fn lemma_mul_distrib(x: int, y: int, z: int)
    by (nonlinear_arith)
    ensures
        (x + y) * z == x * z + y * z,
{
}

proof fn lemma_mul_assoc(x: int, y: int, z: int)
    by (nonlinear_arith)
    ensures
        (x * y) * z == x * (y * z),
{
}

/// Addition is associative up to structural equality.
pub proof fn lemma_plus_assoc(a: Rat, b: Rat, c: Rat)
    ensures
        a.plus(b).plus(c) == a.plus(b.plus(c)),
{
    lemma_mul_distrib(a.num * b.den, b.num * a.den, c.den);
    lemma_mul_assoc(a.num, b.den, c.den);
    lemma_mul_swap(b.num, a.den, c.den);
    lemma_mul_assoc(c.num, a.den, b.den);
    lemma_mul_swap(c.num, a.den, b.den);
    lemma_mul_distrib(b.num * c.den, c.num * b.den, a.den);
    lemma_mul_assoc(a.den, b.den, c.den);
    assert(a.plus(b).plus(c).num == a.plus(b.plus(c)).num);
    assert(a.plus(b).plus(c).den == a.plus(b.plus(c)).den);
}

} // verus!
