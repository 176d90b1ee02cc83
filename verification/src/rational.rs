//! Exact rational numbers over 64-bit machine integers.
//!
//! A [`Q`] holds a numerator and a positive denominator. Results of the
//! checked operations are reduced by the greatest common divisor; when even
//! the reduced form leaves the `i64` range the operation reports `None`.

use vstd::prelude::*;

verus! {

/// Mathematical value of a [`Q`]: a fraction of unbounded integers.
pub ghost struct Rat {
    pub n: int,
    pub d: int,
}

/// A well-formed fraction has a positive denominator.
pub open spec fn rat_wf(r: Rat) -> bool {
    r.d >= 1
}

/// Two fractions denote the same rational number (cross multiplication).
pub open spec fn rat_eq(a: Rat, b: Rat) -> bool {
    a.n * b.d == b.n * a.d
}

/// `a <= b` as rational numbers (valid for positive denominators).
pub open spec fn rat_le(a: Rat, b: Rat) -> bool {
    a.n * b.d <= b.n * a.d
}

/// `a < b` as rational numbers (valid for positive denominators).
pub open spec fn rat_lt(a: Rat, b: Rat) -> bool {
    a.n * b.d < b.n * a.d
}

pub open spec fn rat_int(i: int) -> Rat {
    Rat { n: i, d: 1 }
}

pub open spec fn rat_add(a: Rat, b: Rat) -> Rat {
    Rat { n: a.n * b.d + b.n * a.d, d: a.d * b.d }
}

pub open spec fn rat_sub(a: Rat, b: Rat) -> Rat {
    Rat { n: a.n * b.d - b.n * a.d, d: a.d * b.d }
}

pub open spec fn rat_mul(a: Rat, b: Rat) -> Rat {
    Rat { n: a.n * b.n, d: a.d * b.d }
}

/// Quotient of fractions; the sign moves to the numerator so that the
/// denominator stays positive. Meaningless when `b.n == 0`.
pub open spec fn rat_div(a: Rat, b: Rat) -> Rat {
    if b.n < 0 {
        Rat { n: -(a.n * b.d), d: a.d * -b.n }
    } else {
        Rat { n: a.n * b.d, d: a.d * b.n }
    }
}

pub open spec fn rat_neg(a: Rat) -> Rat {
    Rat { n: -a.n, d: a.d }
}

/// Greatest common divisor by Euclid's recurrence.
pub open spec fn gcd(a: nat, b: nat) -> nat
    decreases b,
{
    if b == 0 {
        a
    } else {
        gcd(b, a % b)
    }
}

/// The fraction with both parts divided by their greatest common divisor.
pub open spec fn rat_reduce(r: Rat) -> Rat {
    let g = gcd(vstd::math::abs(r.n), r.d as nat) as int;
    Rat { n: r.n / g, d: r.d / g }
}

/// Whether both parts of the fraction can be stored in a [`Q`].
pub open spec fn rat_fits(r: Rat) -> bool {
    &&& -(i64::MAX as int) <= r.n <= i64::MAX as int
    &&& r.d <= i64::MAX as int
}

/// Reduced form of `r` if it can be stored, `None` otherwise. This is the
/// exact meaning of every checked operation on [`Q`].
pub open spec fn rat_norm(r: Rat) -> Option<Rat> {
    if rat_fits(rat_reduce(r)) {
        Some(rat_reduce(r))
    } else {
        None
    }
}

/// The unique stored form of a fraction that fits.
pub open spec fn q_of(r: Rat) -> Q {
    Q { num: r.n as i64, den: r.d as i64 }
}

/// Stored reduced form of `r` if it fits, `None` otherwise.
pub open spec fn q_norm_spec(r: Rat) -> Option<Q> {
    if rat_fits(rat_reduce(r)) {
        Some(q_of(rat_reduce(r)))
    } else {
        None
    }
}

/// Stored exact negation.
pub open spec fn neg_q(q: Q) -> Q {
    Q { num: (-q.num) as i64, den: q.den }
}

pub open spec fn try_q_add(a: Q, b: Q) -> Option<Q> {
    q_norm_spec(rat_add(a@, b@))
}

pub open spec fn try_q_sub(a: Q, b: Q) -> Option<Q> {
    q_norm_spec(rat_sub(a@, b@))
}

pub open spec fn try_q_mul(a: Q, b: Q) -> Option<Q> {
    q_norm_spec(rat_mul(a@, b@))
}

pub open spec fn try_q_div(a: Q, b: Q) -> Option<Q> {
    if b@.n == 0 {
        None
    } else {
        q_norm_spec(rat_div(a@, b@))
    }
}

pub open spec fn try_rat_add(a: Rat, b: Rat) -> Option<Rat> {
    rat_norm(rat_add(a, b))
}

pub open spec fn try_rat_sub(a: Rat, b: Rat) -> Option<Rat> {
    rat_norm(rat_sub(a, b))
}

pub open spec fn try_rat_mul(a: Rat, b: Rat) -> Option<Rat> {
    rat_norm(rat_mul(a, b))
}

pub open spec fn try_rat_div(a: Rat, b: Rat) -> Option<Rat> {
    if b.n == 0 {
        None
    } else {
        rat_norm(rat_div(a, b))
    }
}

/// Order on rationals is transitive.
pub proof fn lemma_rat_le_trans(a: Rat, b: Rat, c: Rat)
    requires
        rat_wf(a),
        rat_wf(b),
        rat_wf(c),
        rat_le(a, b),
        rat_le(b, c),
    ensures
        rat_le(a, c),
{
    assert(a.n * c.d <= c.n * a.d) by (nonlinear_arith)
        requires
            a.n * b.d <= b.n * a.d,
            b.n * c.d <= c.n * b.d,
            a.d >= 1,
            b.d >= 1,
            c.d >= 1,
    ;
}

/// Denoting the same rational is transitive (through a well-formed middle).
pub proof fn lemma_rat_eq_trans(a: Rat, b: Rat, c: Rat)
    requires
        rat_wf(a),
        rat_wf(b),
        rat_wf(c),
        rat_eq(a, b),
        rat_eq(b, c),
    ensures
        rat_eq(a, c),
{
    assert(a.n * c.d == c.n * a.d) by (nonlinear_arith)
        requires
            a.n * b.d == b.n * a.d,
            b.n * c.d == c.n * b.d,
            a.d >= 1,
            b.d >= 1,
            c.d >= 1,
    ;
}

/// The arithmetic on fractions keeps denominators positive.
pub proof fn lemma_rat_ops_wf(a: Rat, b: Rat)
    requires
        rat_wf(a),
        rat_wf(b),
    ensures
        rat_wf(rat_add(a, b)),
        rat_wf(rat_sub(a, b)),
        rat_wf(rat_mul(a, b)),
        rat_wf(rat_neg(a)),
        b.n != 0 ==> rat_wf(rat_div(a, b)),
{
    assert(a.d * b.d >= 1) by (nonlinear_arith)
        requires
            a.d >= 1,
            b.d >= 1,
    ;
    if b.n != 0 {
        if b.n < 0 {
            assert(a.d * -b.n >= 1) by (nonlinear_arith)
                requires
                    a.d >= 1,
                    b.n <= -1,
            ;
        } else {
            assert(a.d * b.n >= 1) by (nonlinear_arith)
                requires
                    a.d >= 1,
                    b.n >= 1,
            ;
        }
    }
}

/// A stored checked result denotes the unreduced fraction.
pub proof fn lemma_norm_eq(r: Rat)
    requires
        rat_wf(r),
    ensures
        rat_norm(r) matches Some(q) ==> rat_wf(q) && rat_eq(q, r),
{
    lemma_rat_reduce(r);
}

/// Multiplying equal rationals by the same factor keeps them equal.
pub proof fn lemma_rat_mul_congr_l(a: Rat, b: Rat, m: Rat)
    requires
        rat_wf(a),
        rat_wf(b),
        rat_wf(m),
        rat_eq(a, b),
    ensures
        rat_eq(rat_mul(a, m), rat_mul(b, m)),
        rat_eq(rat_mul(m, a), rat_mul(m, b)),
{
    assert((a.n * m.n) * (b.d * m.d) == (b.n * m.n) * (a.d * m.d) && (m.n * a.n) * (m.d * b.d)
        == (m.n * b.n) * (m.d * a.d)) by (nonlinear_arith)
        requires
            a.n * b.d == b.n * a.d,
    ;
}

/// Dividing equal rationals by the same divisor keeps them equal.
pub proof fn lemma_rat_div_congr_l(a: Rat, b: Rat, m: Rat)
    requires
        rat_wf(a),
        rat_wf(b),
        rat_wf(m),
        rat_eq(a, b),
        m.n != 0,
    ensures
        rat_eq(rat_div(a, m), rat_div(b, m)),
{
    if m.n < 0 {
        assert((-(a.n * m.d)) * (b.d * -m.n) == (-(b.n * m.d)) * (a.d * -m.n))
            by (nonlinear_arith)
            requires
                a.n * b.d == b.n * a.d,
        ;
    } else {
        assert((a.n * m.d) * (b.d * m.n) == (b.n * m.d) * (a.d * m.n)) by (nonlinear_arith)
            requires
                a.n * b.d == b.n * a.d,
        ;
    }
}

/// Comparisons see through representation changes: fractions denoting the
/// same rational compare alike against any third value.
pub proof fn lemma_rat_cmp_compat(x: Rat, y: Rat, c: Rat)
    requires
        rat_wf(x),
        rat_wf(y),
        rat_wf(c),
        rat_eq(x, y),
    ensures
        rat_le(c, x) == rat_le(c, y),
        rat_le(x, c) == rat_le(y, c),
        rat_lt(c, x) == rat_lt(c, y),
        rat_lt(x, c) == rat_lt(y, c),
{
    assert((c.n * x.d <= x.n * c.d <==> c.n * y.d <= y.n * c.d) && (x.n * c.d <= c.n * x.d
        <==> y.n * c.d <= c.n * y.d) && (c.n * x.d < x.n * c.d <==> c.n * y.d < y.n * c.d) && (
    x.n * c.d < c.n * x.d <==> y.n * c.d < c.n * y.d)) by (nonlinear_arith)
        requires
            x.n * y.d == y.n * x.d,
            x.d >= 1,
            y.d >= 1,
            c.d >= 1,
    ;
}

/// A negative value scaled by a factor between `-1` and `0` lands between
/// `0` and the value's negation.
pub proof fn lemma_mul_sign_bound(a: Rat, f: Rat)
    requires
        rat_wf(a),
        rat_wf(f),
        rat_lt(a, rat_int(0)),
        rat_le(rat_neg(rat_int(1)), f),
        rat_le(f, rat_int(0)),
    ensures
        rat_le(rat_int(0), rat_mul(a, f)),
        rat_le(rat_mul(a, f), rat_neg(a)),
{
    assert(a.n < 0);
    assert(rat_neg(rat_int(1)) == (Rat { n: -1, d: 1 }));
    assert((-1) * f.d <= f.n * 1);
    assert(f.n * 1 <= 0 * f.d);
    assert(-f.d <= f.n && f.n <= 0) by (nonlinear_arith)
        requires
            (-1) * f.d <= f.n * 1,
            f.n * 1 <= 0 * f.d,
    ;
    assert(0 * (a.d * f.d) <= (a.n * f.n) * 1 && (a.n * f.n) * a.d <= (-a.n) * (a.d * f.d))
        by (nonlinear_arith)
        requires
            a.n < 0,
            -f.d <= f.n,
            f.n <= 0,
            a.d >= 1,
            f.d >= 1,
    ;
}

/// Reduction divides both parts by a positive number, so the numerator's
/// sign is unchanged.
pub proof fn lemma_reduce_sign(r: Rat)
    requires
        rat_wf(r),
    ensures
        r.n >= 0 ==> rat_reduce(r).n >= 0,
        r.n <= 0 ==> rat_reduce(r).n <= 0,
{
    lemma_rat_reduce(r);
    let g = gcd(vstd::math::abs(r.n), r.d as nat) as int;
    assert((r.n >= 0 ==> rat_reduce(r).n >= 0) && (r.n <= 0 ==> rat_reduce(r).n <= 0))
        by (nonlinear_arith)
        requires
            rat_reduce(r).n * g == r.n,
            g >= 1,
    ;
}

/// A fraction denoting the whole number `k` reduces to `k / 1`.
pub proof fn lemma_reduce_integer(k: int, r: Rat)
    requires
        rat_wf(r),
        r.n == k * r.d,
    ensures
        rat_reduce(r) == rat_int(k),
{
    let d = r.d;
    let m = vstd::math::abs(r.n);
    assert(m as int == vstd::math::abs(k) * d) by (nonlinear_arith)
        requires
            r.n == k * d,
            d >= 1,
            m == vstd::math::abs(r.n),
            vstd::math::abs(k) == if k < 0 {
                -k
            } else {
                k
            },
            m == if r.n < 0 {
                -r.n
            } else {
                r.n
            },
    ;
    vstd::arithmetic::div_mod::lemma_mod_multiples_basic(vstd::math::abs(k) as int, d);
    assert((m as int) % d == 0);
    assert(gcd(m, d as nat) == gcd(d as nat, (m as nat) % (d as nat)));
    assert(gcd(d as nat, 0nat) == d as nat);
    assert(gcd(m, d as nat) == d as nat);
    vstd::arithmetic::div_mod::lemma_div_multiples_vanish(k, d);
    assert(r.n == d * k) by (nonlinear_arith)
        requires
            r.n == k * d,
    ;
    vstd::arithmetic::div_mod::lemma_div_by_self(d);
}

/// Scaling by `m` and dividing by `m` cancel.
pub proof fn lemma_rat_mul_div_cancel(v: Rat, m: Rat)
    requires
        rat_wf(v),
        rat_wf(m),
        m.n != 0,
    ensures
        rat_eq(rat_div(rat_mul(v, m), m), v),
{
    if m.n < 0 {
        assert((-(v.n * m.n * m.d)) * v.d == v.n * (v.d * m.d * -m.n)) by (nonlinear_arith);
    } else {
        assert((v.n * m.n * m.d) * v.d == v.n * (v.d * m.d * m.n)) by (nonlinear_arith);
    }
}

/// `x` is a multiple of `g`.
pub open spec fn divides(g: int, x: int) -> bool {
    exists|k: int| x == #[trigger] (g * k)
}

proof fn lemma_gcd_divides(a: nat, b: nat)
    ensures
        divides(gcd(a, b) as int, a as int),
        divides(gcd(a, b) as int, b as int),
    decreases b,
{
    if b == 0 {
        assert(a as int == (gcd(a, b) as int) * 1);
        assert(b as int == (gcd(a, b) as int) * 0);
    } else {
        lemma_gcd_divides(b, a % b);
        let g = gcd(b, a % b) as int;
        let kb = choose|k: int| b as int == #[trigger] (g * k);
        let kr = choose|k: int| (a % b) as int == #[trigger] (g * k);
        vstd::arithmetic::div_mod::lemma_fundamental_div_mod(a as int, b as int);
        let q = a as int / b as int;
        assert(a as int == g * (q * kb + kr)) by (nonlinear_arith)
            requires
                a as int == (b as int) * q + (a % b) as int,
                b as int == g * kb,
                (a % b) as int == g * kr,
        ;
    }
}

proof fn lemma_gcd_pos(a: nat, b: nat)
    requires
        a > 0 || b > 0,
    ensures
        gcd(a, b) >= 1,
    decreases b,
{
    if b > 0 {
        lemma_gcd_pos(b, a % b);
    }
}

proof fn lemma_div_exact(x: int, g: int)
    requires
        g >= 1,
        divides(g, x),
    ensures
        g * (x / g) == x,
        (x / g) * g == x,
{
    let k = choose|k: int| x == #[trigger] (g * k);
    vstd::arithmetic::div_mod::lemma_div_multiples_vanish(k, g);
    assert(k * g == g * k) by (nonlinear_arith);
}

/// Reduction keeps the value, the sign and well-formedness, divides both
/// parts exactly, and never grows either part.
pub proof fn lemma_rat_reduce(r: Rat)
    requires
        rat_wf(r),
    ensures
        ({
            let g = gcd(vstd::math::abs(r.n), r.d as nat) as int;
            let rr = rat_reduce(r);
            &&& 1 <= g
            &&& rat_wf(rr)
            &&& rat_eq(rr, r)
            &&& rr.n * g == r.n
            &&& rr.d * g == r.d
            &&& vstd::math::abs(rr.n) <= vstd::math::abs(r.n)
            &&& rr.d <= r.d
        }),
{
    let m = vstd::math::abs(r.n);
    let g = gcd(m, r.d as nat) as int;
    let rr = rat_reduce(r);
    lemma_gcd_pos(m, r.d as nat);
    lemma_gcd_divides(m, r.d as nat);
    if r.n < 0 {
        let k = choose|k: int| m as int == #[trigger] (g * k);
        assert(r.n == g * (-k)) by (nonlinear_arith)
            requires
                m as int == g * k,
                r.n == -(m as int),
        ;
    }
    lemma_div_exact(r.n, g);
    lemma_div_exact(r.d, g);
    assert(rr.d >= 1) by (nonlinear_arith)
        requires
            g * rr.d == r.d,
            r.d >= 1,
            g >= 1,
    ;
    assert(rr.n * r.d == r.n * rr.d) by (nonlinear_arith)
        requires
            g * rr.n == r.n,
            g * rr.d == r.d,
    ;
    assert(-vstd::math::abs(r.n) <= rr.n <= vstd::math::abs(r.n) && rr.d <= r.d)
        by (nonlinear_arith)
        requires
            g * rr.n == r.n,
            g * rr.d == r.d,
            g >= 1,
            rr.d >= 1,
            -vstd::math::abs(r.n) <= r.n <= vstd::math::abs(r.n),
    ;
}

pub(crate) fn gcd_u128(a: u128, b: u128) -> (g: u128)
    ensures
        g as nat == gcd(a as nat, b as nat),
{
    let mut x = a;
    let mut y = b;
    while y != 0
        invariant
            gcd(x as nat, y as nat) == gcd(a as nat, b as nat),
        decreases y,
    {
        let r = x % y;
        x = y;
        y = r;
    }
    x
}

/// Product of two machine words, exact in the wide type.
pub(crate) fn wide_mul(a: i64, b: i64) -> (r: i128)
    requires
        -(i64::MAX as int) <= a,
        -(i64::MAX as int) <= b,
    ensures
        r == a as int * b as int,
        -((i64::MAX as int) * (i64::MAX as int)) <= r <= (i64::MAX as int) * (i64::MAX as int),
{
    proof {
        assert(-((i64::MAX as int) * (i64::MAX as int)) <= (a as int) * (b as int)
            <= (i64::MAX as int) * (i64::MAX as int)) by (nonlinear_arith)
            requires
                -(i64::MAX as int) <= a as int <= i64::MAX as int,
                -(i64::MAX as int) <= b as int <= i64::MAX as int,
        ;
    }
    (a as i128) * (b as i128)
}

/// Reduce the wide fraction `n / d` and store it if it fits.
pub(crate) fn q_norm(n: i128, d: i128) -> (r: Option<Q>)
    requires
        1 <= d,
        -(i128::MAX as int) <= n,
    ensures
        opt_rat(r) == rat_norm(Rat { n: n as int, d: d as int }),
        r == q_norm_spec(Rat { n: n as int, d: d as int }),
        r matches Some(q) ==> q.wf(),
{
    let ghost rr = Rat { n: n as int, d: d as int };
    proof {
        lemma_rat_reduce(rr);
    }
    let neg = n < 0;
    let mag: u128 = if neg {
        (-n) as u128
    } else {
        n as u128
    };
    assert(mag as int == vstd::math::abs(n as int));
    let g = gcd_u128(mag, d as u128);
    proof {
        lemma_gcd_pos(mag as nat, d as nat);
    }
    let rn = mag / g;
    let rd = (d as u128) / g;
    proof {
        let gi = g as int;
        lemma_gcd_divides(mag as nat, d as nat);
        lemma_div_exact(mag as int, gi);
        if neg {
            assert(((n as int) / gi + rn as int) * gi == 0) by (nonlinear_arith)
                requires
                    ((n as int) / gi) * gi == n as int,
                    (rn as int) * gi == mag as int,
                    mag as int == -(n as int),
            ;
            assert((n as int) / gi + rn as int == 0) by (nonlinear_arith)
                requires
                    ((n as int) / gi + rn as int) * gi == 0,
                    gi >= 1,
            ;
        }
        assert(rat_reduce(rr).n == if neg { -(rn as int) } else { rn as int });
        assert(rat_reduce(rr).d == rd as int);
    }
    if rn <= i64::MAX as u128 && rd <= i64::MAX as u128 {
        let num: i64 = if neg {
            -(rn as i64)
        } else {
            rn as i64
        };
        Some(Q { num, den: rd as i64 })
    } else {
        None
    }
}

/// An exact rational number: `num / den` with `1 <= den`.
#[derive(Clone, Copy, Debug, PartialEq, Eq, Structural)]
pub struct Q {
    pub num: i64,
    pub den: i64,
}

impl View for Q {
    type V = Rat;

    open spec fn view(&self) -> Rat {
        Rat { n: self.num as int, d: self.den as int }
    }
}

/// Mathematical value of a checked result.
pub open spec fn opt_rat(o: Option<Q>) -> Option<Rat> {
    match o {
        Some(q) => Some(q@),
        None => None,
    }
}

impl Q {
    /// Positive denominator, and a numerator whose negation is still
    /// representable.
    pub open spec fn wf(&self) -> bool {
        &&& 1 <= self.den
        &&& -(i64::MAX as int) <= self.num
    }

    /// The whole number `i`.
    pub fn from_int(i: i64) -> (r: Q)
        requires
            i != i64::MIN,
        ensures
            r.wf(),
            r@ == rat_int(i as int),
            r == (Q { num: i, den: 1 }),
    {
        Q { num: i, den: 1 }
    }

    pub fn zero() -> (r: Q)
        ensures
            r.wf(),
            r@ == rat_int(0),
            r == (Q { num: 0, den: 1 }),
    {
        Q { num: 0, den: 1 }
    }

    pub fn is_zero(&self) -> (r: bool)
        requires
            self.wf(),
        ensures
            r == (self@.n == 0),
            r == rat_eq(self@, rat_int(0)),
    {
        self.num == 0
    }

    pub fn is_neg(&self) -> (r: bool)
        requires
            self.wf(),
        ensures
            r == rat_lt(self@, rat_int(0)),
    {
        self.num < 0
    }

    pub fn is_pos(&self) -> (r: bool)
        requires
            self.wf(),
        ensures
            r == rat_lt(rat_int(0), self@),
    {
        self.num > 0
    }

    /// Exact negation; never leaves the machine range.
    pub fn neg(&self) -> (r: Q)
        requires
            self.wf(),
        ensures
            r.wf(),
            r@ == rat_neg(self@),
            r == neg_q(*self),
    {
        Q { num: -self.num, den: self.den }
    }

    /// Normalized fraction `num / den`; `None` when `den < 1` or the reduced
    /// form does not fit.
    pub fn new(num: i64, den: i64) -> (r: Option<Q>)
        ensures
            den >= 1 ==> opt_rat(r) == rat_norm(Rat { n: num as int, d: den as int }),
            den < 1 ==> r is None,
            r matches Some(q) ==> q.wf(),
    {
        if den < 1 {
            None
        } else {
            q_norm(num as i128, den as i128)
        }
    }

    /// Checked sum, reduced; `None` exactly when the reduced sum leaves the
    /// machine range.
    pub fn try_add(&self, other: &Q) -> (r: Option<Q>)
        requires
            self.wf(),
            other.wf(),
        ensures
            opt_rat(r) == try_rat_add(self@, other@),
            r == try_q_add(*self, *other),
            r matches Some(q) ==> q.wf(),
    {
        let p1 = wide_mul(self.num, other.den);
        let p2 = wide_mul(other.num, self.den);
        let dd = wide_mul(self.den, other.den);
        proof {
            lemma_pos_prod(self.den as int, other.den as int);
        }
        q_norm(p1 + p2, dd)
    }

    /// Checked difference, reduced.
    pub fn try_sub(&self, other: &Q) -> (r: Option<Q>)
        requires
            self.wf(),
            other.wf(),
        ensures
            opt_rat(r) == try_rat_sub(self@, other@),
            r == try_q_sub(*self, *other),
            r matches Some(q) ==> q.wf(),
    {
        let p1 = wide_mul(self.num, other.den);
        let p2 = wide_mul(other.num, self.den);
        let dd = wide_mul(self.den, other.den);
        proof {
            lemma_pos_prod(self.den as int, other.den as int);
        }
        q_norm(p1 - p2, dd)
    }

    /// Checked product, reduced.
    pub fn try_mul(&self, other: &Q) -> (r: Option<Q>)
        requires
            self.wf(),
            other.wf(),
        ensures
            opt_rat(r) == try_rat_mul(self@, other@),
            r == try_q_mul(*self, *other),
            r matches Some(q) ==> q.wf(),
    {
        let nn = wide_mul(self.num, other.num);
        let dd = wide_mul(self.den, other.den);
        proof {
            lemma_pos_prod(self.den as int, other.den as int);
        }
        q_norm(nn, dd)
    }

    /// Checked quotient, reduced; `None` when the divisor is zero or the
    /// reduced quotient leaves the machine range.
    pub fn try_div(&self, other: &Q) -> (r: Option<Q>)
        requires
            self.wf(),
            other.wf(),
        ensures
            opt_rat(r) == try_rat_div(self@, other@),
            r == try_q_div(*self, *other),
            r matches Some(q) ==> q.wf(),
    {
        if other.num == 0 {
            return None;
        }
        let nn = wide_mul(self.num, other.den);
        let dd = wide_mul(self.den, other.num);
        proof {
            assert(dd != 0 && (dd < 0 <==> other.num < 0)) by (nonlinear_arith)
                requires
                    dd == (self.den as int) * (other.num as int),
                    self.den as int >= 1,
                    other.num as int != 0,
            ;
        }
        if dd < 0 {
            proof {
                assert((self.den as int) * (-(other.num as int)) == -dd) by (nonlinear_arith)
                    requires
                        dd == (self.den as int) * (other.num as int),
                ;
            }
            q_norm(-nn, -dd)
        } else {
            q_norm(nn, dd)
        }
    }

    pub fn le(&self, other: &Q) -> (r: bool)
        requires
            self.wf(),
            other.wf(),
        ensures
            r == rat_le(self@, other@),
    {
        wide_mul(self.num, other.den) <= wide_mul(other.num, self.den)
    }

    pub fn lt(&self, other: &Q) -> (r: bool)
        requires
            self.wf(),
            other.wf(),
        ensures
            r == rat_lt(self@, other@),
    {
        wide_mul(self.num, other.den) < wide_mul(other.num, self.den)
    }

    /// Equality of the denoted rational numbers (not of representations).
    pub fn eq_val(&self, other: &Q) -> (r: bool)
        requires
            self.wf(),
            other.wf(),
        ensures
            r == rat_eq(self@, other@),
    {
        wide_mul(self.num, other.den) == wide_mul(other.num, self.den)
    }

    /// Largest whole number not above the value (floor).
    pub fn floor(&self) -> (r: i64)
        requires
            self.wf(),
        ensures
            r as int == self@.n / self@.d,
    {
        let d = self.den as u64;
        if self.num >= 0 {
            let q = (self.num as u64) / d;
            proof {
                vstd::arithmetic::div_mod::lemma_div_nonincreasing(self.num as int, self.den as int);
                vstd::arithmetic::div_mod::lemma_div_pos_is_pos(self.num as int, self.den as int);
            }
            q as i64
        } else {
            let mag = (-self.num) as u64;
            let q = mag / d;
            let rm = mag % d;
            proof {
                vstd::arithmetic::div_mod::lemma_fundamental_div_mod(mag as int, d as int);
                vstd::arithmetic::div_mod::lemma_div_nonincreasing(mag as int, d as int);
                vstd::arithmetic::div_mod::lemma_div_pos_is_pos(mag as int, d as int);
                if rm == 0 {
                    assert(self.num as int == (-(q as int)) * (self.den as int) + 0)
                        by (nonlinear_arith)
                        requires
                            mag as int == (d as int) * (q as int) + rm as int,
                            rm as int == 0,
                            self.num as int == -(mag as int),
                            d as int == self.den as int,
                    ;
                    vstd::arithmetic::div_mod::lemma_fundamental_div_mod_converse(
                        self.num as int,
                        self.den as int,
                        -(q as int),
                        0,
                    );
                } else {
                    assert(self.num as int == (-(q as int) - 1) * (self.den as int) + (
                    d as int - rm as int)) by (nonlinear_arith)
                        requires
                            mag as int == (d as int) * (q as int) + rm as int,
                            self.num as int == -(mag as int),
                            d as int == self.den as int,
                    ;
                    vstd::arithmetic::div_mod::lemma_fundamental_div_mod_converse(
                        self.num as int,
                        self.den as int,
                        -(q as int) - 1,
                        d as int - rm as int,
                    );
                }
            }
            if rm == 0 {
                -(q as i64)
            } else {
                -(q as i64) - 1
            }
        }
    }

    /// Floor, clamped into the `u32` range.
    pub fn floor_clamp_u32(&self) -> (r: u32)
        requires
            self.wf(),
        ensures
            r as int == clamp_u32(self@.n / self@.d),
    {
        let f = self.floor();
        if f < 0 {
            0
        } else if f > u32::MAX as i64 {
            u32::MAX
        } else {
            f as u32
        }
    }
}

/// `x` held inside the `u32` range.
pub open spec fn clamp_u32(x: int) -> int {
    if x < 0 {
        0
    } else if x > u32::MAX as int {
        u32::MAX as int
    } else {
        x
    }
}

pub(crate) proof fn lemma_pos_prod(a: int, b: int)
    requires
        1 <= a,
        1 <= b,
    ensures
        1 <= a * b,
    decreases a,
{
    assert(1 <= a * b) by (nonlinear_arith)
        requires
            1 <= a,
            1 <= b,
    ;
}

} // verus!
