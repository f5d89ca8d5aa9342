//! The numbers that encodings stand for.
//!
//! Every finite binary32 number is a whole multiple of 2^-149, the least
//! positive one. [`Scalar::scaled`] is that multiple, so the number itself is
//! `scaled() / 2^149`. The order of encodings by [`Scalar::key`] is the order
//! of these numbers, and a constant of the library is shown to stand for a
//! decimal by comparing `scaled()` with the decimal times 2^149.
use crate::scalar::Scalar;
use crate::scalar::INFINITY_BITS;
use crate::scalar::ONE_BITS;
use crate::scalar::ZERO_BITS;
use vstd::arithmetic::power2::lemma2_to64;
use vstd::arithmetic::power2::lemma_pow2_adds;
use vstd::arithmetic::power2::lemma_pow2_pos;
use vstd::arithmetic::power2::lemma_pow2_strictly_increases;
use vstd::arithmetic::power2::lemma_pow2_unfold;
use vstd::arithmetic::power2::pow2;
use vstd::prelude::*;

verus! {

/// Two to the power 23: the weight of the lowest exponent bit in an encoding,
/// and the leading bit of the significand of a normal number.
pub const HIDDEN_BIT: u32 = 0x0080_0000;

/// The distance between two integers.
pub open spec fn distance(a: int, b: int) -> int {
    if a <= b {
        b - a
    } else {
        a - b
    }
}

impl Scalar {
    /// The eight exponent bits, as a number from 0 to 255.
    pub open spec fn exponent_field(self) -> int {
        self.magnitude() / (HIDDEN_BIT as int)
    }

    /// The twenty-three fraction bits.
    pub open spec fn fraction_field(self) -> int {
        self.magnitude() % (HIDDEN_BIT as int)
    }

    /// The significand: the fraction bits, led by a one unless the exponent
    /// bits are all zero.
    pub open spec fn significand(self) -> int {
        if self.exponent_field() == 0 {
            self.fraction_field()
        } else {
            HIDDEN_BIT + self.fraction_field()
        }
    }

    /// The power of two that the significand is multiplied by, counted from
    /// 2^-149.
    pub open spec fn shift(self) -> nat {
        if self.exponent_field() <= 1 {
            0
        } else {
            (self.exponent_field() - 1) as nat
        }
    }

    /// The size of a finite number in units of 2^-149.
    pub open spec fn scaled_magnitude(self) -> int {
        self.significand() * pow2(self.shift())
    }

    /// A finite number in units of 2^-149: the number is `scaled() / 2^149`.
    pub open spec fn scaled(self) -> int {
        if self.sign() {
            -self.scaled_magnitude()
        } else {
            self.scaled_magnitude()
        }
    }

    /// How far the number is from `p / q`, in units of `2^-149 / q`.
    pub open spec fn error(self, p: int, q: int) -> int {
        distance(self.scaled() * q, p * pow2(149))
    }

    /// The number is `p / q` exactly.
    pub open spec fn is_exactly(self, p: int, q: int) -> bool {
        self.spec_is_finite() && self.scaled() * q == p * pow2(149)
    }

    /// The number is a binary32 number nearest to `p / q`: it is finite, and
    /// no finite binary32 number is nearer.
    pub open spec fn is_nearest(self, p: int, q: int) -> bool {
        self.spec_is_finite() && forall|y: Scalar|
            y.spec_is_finite() ==> self.error(p, q) <= #[trigger] y.error(p, q)
    }
}

proof fn lemma_product_strict(a: int, b: int, c: int)
    requires
        a < b,
        c > 0,
    ensures
        a * c < b * c,
{
    assert(a * c < b * c) by (nonlinear_arith)
        requires
            a < b,
            c > 0,
    ;
}

proof fn lemma_product_weak(a: int, b: int, c: int)
    requires
        a <= b,
        c >= 0,
    ensures
        a * c <= b * c,
{
    assert(a * c <= b * c) by (nonlinear_arith)
        requires
            a <= b,
            c >= 0,
    ;
}

/// Of two finite numbers, the one with the smaller encoding without sign is
/// the smaller in size.
pub proof fn lemma_magnitude_orders_sizes(a: Scalar, b: Scalar)
    requires
        a.spec_is_finite(),
        b.spec_is_finite(),
        a.magnitude() < b.magnitude(),
    ensures
        0 <= a.scaled_magnitude() < b.scaled_magnitude(),
{
    let ea = a.exponent_field();
    let eb = b.exponent_field();
    let pa = pow2(a.shift()) as int;
    let pb = pow2(b.shift()) as int;
    lemma_pow2_pos(a.shift());
    lemma_pow2_pos(b.shift());
    assert(0 <= a.significand() * pa) by (nonlinear_arith)
        requires
            0 <= a.significand(),
            0 < pa,
    ;
    if ea == eb {
        lemma_product_strict(a.significand(), b.significand(), pa);
    } else {
        assert(ea < eb);
        // The size of `a` is below 2^23 * 2^(shift of a + 1), which is at most the size of `b`.
        if ea == 0 {
            lemma2_to64();
            assert(a.scaled_magnitude() == a.fraction_field());
            lemma_product_weak(1, pb, HIDDEN_BIT as int);
            lemma_product_weak(HIDDEN_BIT as int, b.significand(), pb);
        } else {
            let next: nat = (a.shift() + 1) as nat;
            lemma_pow2_unfold(next);
            assert(pow2(next) == 2 * pa);
            if next < b.shift() {
                lemma_pow2_strictly_increases(next, b.shift());
            }
            assert(pow2(next) <= pb);
            lemma_product_strict(a.significand(), 2 * HIDDEN_BIT, pa);
            assert(2 * HIDDEN_BIT * pa == HIDDEN_BIT * (2 * pa)) by (nonlinear_arith);
            lemma_product_weak(pow2(next) as int, pb, HIDDEN_BIT as int);
            assert(pow2(next) * HIDDEN_BIT == HIDDEN_BIT * (2 * pa)) by (nonlinear_arith)
                requires
                    pow2(next) == 2 * pa,
            ;
            lemma_product_weak(HIDDEN_BIT as int, b.significand(), pb);
            assert(pb * HIDDEN_BIT == HIDDEN_BIT * pb) by (nonlinear_arith);
        }
    }
}

/// A finite number is zero exactly where its encoding without sign is zero.
pub proof fn lemma_zero_size(a: Scalar)
    requires
        a.spec_is_finite(),
    ensures
        0 <= a.scaled_magnitude(),
        a.scaled_magnitude() == 0 <==> a.magnitude() == 0,
{
    let zero = Scalar { bits: 0 };
    assert(zero.scaled_magnitude() == 0) by {
        assert(zero.significand() == 0);
        assert(0 * pow2(zero.shift()) == 0) by (nonlinear_arith);
    }
    if a.magnitude() > 0 {
        lemma_magnitude_orders_sizes(zero, a);
    } else {
        assert(a.significand() == 0);
        assert(0 * pow2(a.shift()) == 0) by (nonlinear_arith);
    }
}

/// The order of encodings is the order of numbers: of two finite numbers,
/// one has the smaller key exactly where it is the smaller number, and the
/// keys are equal exactly where the numbers are.
pub proof fn lemma_key_orders_numbers(a: Scalar, b: Scalar)
    requires
        a.spec_is_finite(),
        b.spec_is_finite(),
    ensures
        a.key() < b.key() <==> a.scaled() < b.scaled(),
        a.key() == b.key() <==> a.scaled() == b.scaled(),
        a.spec_lt(b) <==> a.scaled() < b.scaled(),
        a.spec_le(b) <==> a.scaled() <= b.scaled(),
{
    lemma_zero_size(a);
    lemma_zero_size(b);
    if a.magnitude() < b.magnitude() {
        lemma_magnitude_orders_sizes(a, b);
    } else if b.magnitude() < a.magnitude() {
        lemma_magnitude_orders_sizes(b, a);
    }
}

/// A number whose two neighbours lie on either side of `p / q`, each at
/// least as far from it, is nearest to `p / q`.
///
/// The neighbours of a positive number are the numbers whose encodings are
/// one less and one more.
pub proof fn lemma_nearest_between_neighbours(x: Scalar, p: int, q: int)
    requires
        q > 0,
        0 < x.bits < INFINITY_BITS - 1,
        ((Scalar { bits: (x.bits - 1) as u32 }).scaled() + x.scaled()) * q <= 2 * (p * pow2(149)),
        2 * (p * pow2(149)) <= (x.scaled() + (Scalar { bits: (x.bits + 1) as u32 }).scaled()) * q,
    ensures
        x.is_nearest(p, q),
{
    let below = Scalar { bits: (x.bits - 1) as u32 };
    let above = Scalar { bits: (x.bits + 1) as u32 };
    let target = p * pow2(149);
    lemma_key_orders_numbers(below, x);
    lemma_key_orders_numbers(x, above);
    assert((below.scaled() + x.scaled()) * q == below.scaled() * q + x.scaled() * q)
        by (nonlinear_arith);
    assert((x.scaled() + above.scaled()) * q == x.scaled() * q + above.scaled() * q)
        by (nonlinear_arith);
    lemma_product_weak(below.scaled(), x.scaled(), q);
    lemma_product_weak(x.scaled(), above.scaled(), q);
    assert forall|y: Scalar| y.spec_is_finite() implies x.error(p, q) <= #[trigger] y.error(
        p,
        q,
    ) by {
        lemma_key_orders_numbers(y, x);
        if y.key() < x.key() {
            lemma_key_orders_numbers(y, below);
            lemma_product_weak(y.scaled(), below.scaled(), q);
        } else if y.key() > x.key() {
            lemma_key_orders_numbers(above, y);
            lemma_product_weak(above.scaled(), y.scaled(), q);
        }
    }
}

/// A positive number below 2^24 is `p / q` where its significand is `p / q`
/// times the power of two that the number leaves out.
pub proof fn lemma_exactly_below(x: Scalar, p: int, q: int)
    requires
        !x.sign(),
        1 <= x.exponent_field() <= 150,
        x.significand() * q == p * pow2((150 - x.exponent_field()) as nat),
    ensures
        x.is_exactly(p, q),
{
    let e = x.exponent_field();
    let m = x.significand();
    let low = pow2((e - 1) as nat) as int;
    let high = pow2((150 - e) as nat) as int;
    lemma_pow2_adds((e - 1) as nat, (150 - e) as nat);
    assert(pow2(149) == low * high);
    assert((m * low) * q == p * (low * high)) by (nonlinear_arith)
        requires
            m * q == p * high,
    ;
}

/// A positive number from 2^23 on is `p / q` where its significand times the
/// power of two that the number brings in is `p / q`.
pub proof fn lemma_exactly_above(x: Scalar, p: int, q: int)
    requires
        !x.sign(),
        150 <= x.exponent_field() < 255,
        x.significand() * pow2((x.exponent_field() - 150) as nat) * q == p,
    ensures
        x.is_exactly(p, q),
{
    let e = x.exponent_field();
    let m = x.significand();
    let extra = pow2((e - 150) as nat) as int;
    lemma_pow2_adds(149, (e - 150) as nat);
    assert(pow2((e - 1) as nat) == pow2(149) * extra);
    assert((m * (pow2(149) * extra)) * q == (m * extra * q) * pow2(149)) by (nonlinear_arith);
}

/// A positive number below 2^24, not first or last of its binade, is nearest
/// to `p / q` where `p / q` lies within half a step of its significand, both
/// counted in the power of two that the number leaves out.
pub proof fn lemma_nearest_in_binade(x: Scalar, p: int, q: int)
    requires
        q > 0,
        !x.sign(),
        1 <= x.exponent_field() <= 150,
        0 < x.fraction_field() < HIDDEN_BIT - 1,
        (2 * x.significand() - 1) * q <= 2 * p * pow2((150 - x.exponent_field()) as nat),
        2 * p * pow2((150 - x.exponent_field()) as nat) <= (2 * x.significand() + 1) * q,
    ensures
        x.is_nearest(p, q),
{
    let below = Scalar { bits: (x.bits - 1) as u32 };
    let above = Scalar { bits: (x.bits + 1) as u32 };
    let e = x.exponent_field();
    let m = x.significand();
    let low = pow2((e - 1) as nat) as int;
    let high = pow2((150 - e) as nat) as int;
    assert(below.exponent_field() == e && below.fraction_field() == x.fraction_field() - 1);
    assert(above.exponent_field() == e && above.fraction_field() == x.fraction_field() + 1);
    assert(below.scaled() == (m - 1) * low);
    assert(above.scaled() == (m + 1) * low);
    lemma_pow2_adds((e - 1) as nat, (150 - e) as nat);
    lemma_pow2_pos((e - 1) as nat);
    assert(pow2(149) == low * high);
    assert(((m - 1) * low + m * low) * q == ((2 * m - 1) * q) * low) by (nonlinear_arith);
    assert((m * low + (m + 1) * low) * q == ((2 * m + 1) * q) * low) by (nonlinear_arith);
    assert(2 * (p * (low * high)) == (2 * p * high) * low) by (nonlinear_arith);
    lemma_product_weak((2 * m - 1) * q, 2 * p * high, low);
    lemma_product_weak(2 * p * high, (2 * m + 1) * q, low);
    lemma_nearest_between_neighbours(x, p, q);
}

/// The number with the other sign.
pub open spec fn negated(x: Scalar) -> Scalar {
    if x.sign() {
        Scalar { bits: (x.bits - 0x8000_0000) as u32 }
    } else {
        Scalar { bits: (x.bits + 0x8000_0000) as u32 }
    }
}

/// Where a number is nearest to `p / q`, the number with the other sign is
/// nearest to `-p / q`.
pub proof fn lemma_nearest_negated(x: Scalar, p: int, q: int)
    requires
        x.is_nearest(p, q),
    ensures
        negated(x).is_nearest(-p, q),
{
    let nx = negated(x);
    assert(nx.scaled() == -x.scaled());
    assert((-x.scaled()) * q == -(x.scaled() * q)) by (nonlinear_arith);
    assert((-p) * pow2(149) == -(p * pow2(149))) by (nonlinear_arith);
    assert forall|y: Scalar| y.spec_is_finite() implies nx.error(-p, q) <= #[trigger] y.error(
        -p,
        q,
    ) by {
        let ny = negated(y);
        assert(ny.scaled() == -y.scaled());
        assert((-y.scaled()) * q == -(y.scaled() * q)) by (nonlinear_arith);
        assert(x.error(p, q) <= ny.error(p, q));
    }
}

/// The encodings named zero and one stand for zero and one.
pub proof fn lemma_zero_and_one()
    ensures
        (Scalar { bits: ZERO_BITS }).is_exactly(0, 1),
        (Scalar { bits: ONE_BITS }).is_exactly(1, 1),
{
    lemma2_to64();
    assert(0 * pow2(0) == 0) by (nonlinear_arith);
    assert(0 * pow2(149) == 0) by (nonlinear_arith);
    lemma_exactly_below(Scalar { bits: ONE_BITS }, 1, 1);
}

} // verus!
