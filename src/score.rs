use vstd::prelude::*;
use crate::sample::MAX_MAGNITUDE;
use crate::stats::{Ratio, MAX_GROUP};

verus! {

/// A mean as the statistics produce it: a positive denominator no larger than
/// `MAX_GROUP` and a numerator within `MAX_GROUP * MAX_MAGNITUDE`.
pub open spec fn mean_bounded(m: Ratio) -> bool {
    &&& 0 < m.den <= MAX_GROUP
    &&& -(MAX_GROUP * MAX_MAGNITUDE) <= m.num <= MAX_GROUP * MAX_MAGNITUDE
}

/// `a <= b` as rationals with positive denominators.
pub open spec fn rat_le(a: Ratio, b: Ratio) -> bool {
    a.num * b.den <= b.num * a.den
}

/// `a == b` as rationals.
pub open spec fn rat_eq(a: Ratio, b: Ratio) -> bool {
    a.num * b.den == b.num * a.den
}

pub open spec fn rat_max(a: Ratio, b: Ratio) -> Ratio {
    if rat_le(a, b) {
        b
    } else {
        a
    }
}

pub open spec fn rat_min(a: Ratio, b: Ratio) -> Ratio {
    if rat_le(a, b) {
        a
    } else {
        b
    }
}

/// `hi - lo` over the common denominator `hi.den * lo.den`.
pub open spec fn rat_diff(hi: Ratio, lo: Ratio) -> Ratio {
    Ratio {
        num: (hi.num * lo.den - lo.num * hi.den) as i128,
        den: (hi.den * lo.den) as i128,
    }
}

/// `max(a, b, c) - min(a, b, c)`.
pub open spec fn spread_spec(a: Ratio, b: Ratio, c: Ratio) -> Ratio {
    rat_diff(rat_max(rat_max(a, b), c), rat_min(rat_min(a, b), c))
}

fn le(a: &Ratio, b: &Ratio) -> (r: bool)
    requires
        mean_bounded(*a),
        mean_bounded(*b),
    ensures
        r == rat_le(*a, *b),
{
    proof {
        lemma_cross_bound(*a, *b);
        lemma_cross_bound(*b, *a);
    }
    a.num * b.den <= b.num * a.den
}

proof fn lemma_cross_bound(a: Ratio, b: Ratio)
    requires
        mean_bounded(a),
        mean_bounded(b),
    ensures
        -1_000_000_000_000_000_000_000 <= a.num * b.den <= 1_000_000_000_000_000_000_000,
        0 < a.den * b.den <= 1_000_000_000_000,
{
    let x = a.num as int;
    let y = b.den as int;
    assert(-1_000_000_000_000_000_000_000 <= x * y <= 1_000_000_000_000_000_000_000)
        by (nonlinear_arith)
        requires
            -1_000_000_000_000_000 <= x <= 1_000_000_000_000_000,
            0 < y <= 1_000_000,
    ;
    let p = a.den as int;
    assert(0 < p * y <= 1_000_000_000_000) by (nonlinear_arith)
        requires
            0 < p <= 1_000_000,
            0 < y <= 1_000_000,
    ;
}

/// The spread between the largest and the smallest of three class means,
/// `max(a, b, c) - min(a, b, c)`, exactly.
pub fn mean_spread(a: &Ratio, b: &Ratio, c: &Ratio) -> (r: Ratio)
    requires
        mean_bounded(*a),
        mean_bounded(*b),
        mean_bounded(*c),
    ensures
        r == spread_spec(*a, *b, *c),
        r.den > 0,
        r.num >= 0,
{
    let ab_max = if le(a, b) { b } else { a };
    let hi = if le(ab_max, c) { c } else { ab_max };
    let ab_min = if le(a, b) { a } else { b };
    let lo = if le(ab_min, c) { ab_min } else { c };
    proof {
        lemma_cross_bound(*hi, *lo);
        lemma_cross_bound(*lo, *hi);
        lemma_spread_nonneg(*a, *b, *c);
    }
    Ratio { num: hi.num * lo.den - lo.num * hi.den, den: hi.den * lo.den }
}

/// `<=` on rationals with positive denominators is transitive.
proof fn lemma_le_trans(a: Ratio, b: Ratio, c: Ratio)
    requires
        a.den > 0,
        b.den > 0,
        c.den > 0,
        rat_le(a, b),
        rat_le(b, c),
    ensures
        rat_le(a, c),
{
    let (an, ad, bn, bd, cn, cd) = (
        a.num as int,
        a.den as int,
        b.num as int,
        b.den as int,
        c.num as int,
        c.den as int,
    );
    assert(an * cd <= cn * ad) by (nonlinear_arith)
        requires
            ad > 0,
            bd > 0,
            cd > 0,
            an * bd <= bn * ad,
            bn * cd <= cn * bd,
    ;
}

/// The largest of three means is at least the smallest.
proof fn lemma_spread_nonneg(a: Ratio, b: Ratio, c: Ratio)
    requires
        a.den > 0,
        b.den > 0,
        c.den > 0,
    ensures
        rat_le(rat_min(rat_min(a, b), c), rat_max(rat_max(a, b), c)),
{
    lemma_between(a, b, c);
    lemma_le_trans(rat_min(rat_min(a, b), c), a, rat_max(rat_max(a, b), c));
}

proof fn lemma_eq_trans(a: Ratio, b: Ratio, c: Ratio)
    requires
        a.den > 0,
        b.den > 0,
        c.den > 0,
        rat_eq(a, b),
        rat_eq(b, c),
    ensures
        rat_eq(a, c),
{
    let (an, ad, bn, bd, cn, cd) = (
        a.num as int,
        a.den as int,
        b.num as int,
        b.den as int,
        c.num as int,
        c.den as int,
    );
    assert(an * cd == cn * ad) by (nonlinear_arith)
        requires
            ad > 0,
            bd > 0,
            cd > 0,
            an * bd == bn * ad,
            bn * cd == cn * bd,
    ;
}

/// The mean spread is zero exactly when the three class means are equal, so a
/// feature whose classes share one mean scores zero whatever their spreads.
pub proof fn lemma_zero_spread_iff_equal_means(a: Ratio, b: Ratio, c: Ratio)
    requires
        mean_bounded(a),
        mean_bounded(b),
        mean_bounded(c),
    ensures
        spread_spec(a, b, c).num == 0 <==> (rat_eq(a, b) && rat_eq(b, c)),
{
    let lo = rat_min(rat_min(a, b), c);
    let hi = rat_max(rat_max(a, b), c);
    lemma_cross_bound(hi, lo);
    lemma_cross_bound(lo, hi);
    lemma_spread_nonneg(a, b, c);
    lemma_between(a, b, c);
    if rat_eq(a, b) && rat_eq(b, c) {
        lemma_eq_trans(a, b, c);
        assert(rat_eq(b, a));
        assert(rat_eq(c, b));
        lemma_eq_trans(c, b, a);
        assert(rat_eq(hi, lo));
    }
    if spread_spec(a, b, c).num == 0 {
        assert(rat_le(hi, lo));
        lemma_le_trans(a, hi, lo);
        lemma_le_trans(b, hi, lo);
        lemma_le_trans(c, hi, lo);
        lemma_le_trans(lo, a, hi);
        lemma_le_trans(hi, lo, a);
        lemma_le_trans(hi, lo, b);
        lemma_le_trans(hi, lo, c);
        lemma_le_trans(a, lo, b);
        lemma_le_trans(b, lo, a);
        lemma_le_trans(b, lo, c);
        lemma_le_trans(c, lo, b);
    }
}

/// Each of the three means lies between their minimum and their maximum.
proof fn lemma_between(a: Ratio, b: Ratio, c: Ratio)
    requires
        a.den > 0,
        b.den > 0,
        c.den > 0,
    ensures
        rat_le(rat_min(rat_min(a, b), c), a),
        rat_le(rat_min(rat_min(a, b), c), b),
        rat_le(rat_min(rat_min(a, b), c), c),
        rat_le(a, rat_max(rat_max(a, b), c)),
        rat_le(b, rat_max(rat_max(a, b), c)),
        rat_le(c, rat_max(rat_max(a, b), c)),
{
    let lo = rat_min(rat_min(a, b), c);
    let hi = rat_max(rat_max(a, b), c);
    let m1 = rat_min(a, b);
    let x1 = rat_max(a, b);
    assert(rat_le(m1, a) && rat_le(m1, b)) by (nonlinear_arith)
        requires
            m1 == rat_min(a, b),
            a.den > 0,
            b.den > 0,
    ;
    assert(rat_le(lo, m1) && rat_le(lo, c)) by (nonlinear_arith)
        requires
            lo == rat_min(m1, c),
            m1.den > 0,
            c.den > 0,
    ;
    assert(rat_le(a, x1) && rat_le(b, x1)) by (nonlinear_arith)
        requires
            x1 == rat_max(a, b),
            a.den > 0,
            b.den > 0,
    ;
    assert(rat_le(x1, hi) && rat_le(c, hi)) by (nonlinear_arith)
        requires
            hi == rat_max(x1, c),
            x1.den > 0,
            c.den > 0,
    ;
    lemma_le_trans(lo, m1, a);
    lemma_le_trans(lo, m1, b);
    lemma_le_trans(a, x1, hi);
    lemma_le_trans(b, x1, hi);
}

/// Dividing by a fixed positive rational keeps the order: with the mean
/// standard deviation `dn / dd` held fixed, a larger mean spread gives a
/// larger importance ratio.
pub proof fn lemma_ratio_increases_with_spread(s1: Ratio, s2: Ratio, dn: int, dd: int)
    requires
        s1.den > 0,
        s2.den > 0,
        dn > 0,
        dd > 0,
        s1.num * s2.den < s2.num * s1.den,
    ensures
        (s1.num * dd) * (s2.den * dn) < (s2.num * dd) * (s1.den * dn),
{
    let (a, b, c, d) = (s1.num as int, s1.den as int, s2.num as int, s2.den as int);
    assert((a * dd) * (d * dn) < (c * dd) * (b * dn)) by (nonlinear_arith)
        requires
            dn > 0,
            dd > 0,
            a * d < c * b,
    ;
}

} // verus!
