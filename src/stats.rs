use vstd::prelude::*;
use crate::sample::{in_range, lemma_prefix_step, Feature, Sample, MAX_MAGNITUDE};

verus! {

/// Largest group the statistics accept; it keeps every intermediate in `i128`.
pub const MAX_GROUP: usize = 1_000_000;

/// Bound on one squared scaled deviation, `(2 * MAX_GROUP * MAX_MAGNITUDE)^2`.
pub const MAX_SQUARE: i128 = 4_000_000_000_000_000_000_000_000_000_000;

/// A group the statistics can be computed on without overflow.
pub open spec fn group_ok(g: Seq<Sample>) -> bool {
    &&& g.len() <= MAX_GROUP
    &&& forall|k: int| 0 <= k < g.len() ==> (#[trigger] g[k]).wf()
}

/// Sum of one attribute over a group.
pub open spec fn feature_sum(g: Seq<Sample>, f: Feature) -> int
    decreases g.len(),
{
    if g.len() == 0 {
        0
    } else {
        feature_sum(g.drop_last(), f) + g.last().value_spec(f)
    }
}

/// Sum over a group of `(n * v - s)^2`: with `n` the group size and `s` the
/// attribute sum, this is `n^2` times the sum of squared deviations from the mean.
pub open spec fn scaled_square_sum(g: Seq<Sample>, f: Feature, n: int, s: int) -> int
    decreases g.len(),
{
    if g.len() == 0 {
        0
    } else {
        let d = n * g.last().value_spec(f) - s;
        scaled_square_sum(g.drop_last(), f, n, s) + d * d
    }
}

/// An exact rational number `num / den`.
#[derive(Clone, Copy, Debug, PartialEq, Eq, Structural)]
pub struct Ratio {
    pub num: i128,
    pub den: i128,
}

proof fn lemma_value_in_range(s: Sample, f: Feature)
    requires
        s.wf(),
    ensures
        in_range(s.value_spec(f)),
{
    assert(in_range(s.values@[f.index_spec()] as int));
}

/// The attribute sum of a group is bounded by its size times `MAX_MAGNITUDE`.
pub proof fn lemma_sum_bound(g: Seq<Sample>, f: Feature)
    requires
        forall|k: int| 0 <= k < g.len() ==> (#[trigger] g[k]).wf(),
    ensures
        -(g.len() * MAX_MAGNITUDE) <= feature_sum(g, f) <= g.len() * MAX_MAGNITUDE,
    decreases g.len(),
{
    if g.len() > 0 {
        let init = g.drop_last();
        assert forall|k: int| 0 <= k < init.len() implies (#[trigger] init[k]).wf() by {
            assert(init[k] == g[k]);
        }
        lemma_sum_bound(init, f);
        assert(g[g.len() - 1].wf());
        lemma_value_in_range(g.last(), f);
    }
}

/// Sum of one attribute over a group, in thousandths.
pub fn sum_feature(g: &Vec<Sample>, f: Feature) -> (r: i128)
    requires
        group_ok(g@),
    ensures
        r as int == feature_sum(g@, f),
{
    let mut acc: i128 = 0;
    let mut i: usize = 0;
    while i < g.len()
        invariant
            group_ok(g@),
            i <= g@.len(),
            acc as int == feature_sum(g@.subrange(0, i as int), f),
            -(i * MAX_MAGNITUDE) <= acc <= i * MAX_MAGNITUDE,
        decreases g@.len() - i,
    {
        proof {
            lemma_prefix_step(g@, i as int);
            assert(g@[i as int].wf());
            lemma_value_in_range(g@[i as int], f);
        }
        let v = g[i].value(f);
        acc = acc + v as i128;
        i = i + 1;
    }
    assert(g@.subrange(0, g@.len() as int) =~= g@);
    acc
}

/// The mean of one attribute over a group, as `feature_sum / len`.
pub open spec fn mean_spec(g: Seq<Sample>, f: Feature) -> Ratio {
    Ratio { num: feature_sum(g, f) as i128, den: g.len() as i128 }
}

/// The Bessel-corrected variance of one attribute over a group, as
/// `scaled_square_sum / (n^2 * (n - 1))`; `None` below two samples.
pub open spec fn variance_spec(g: Seq<Sample>, f: Feature) -> Option<Ratio> {
    let n = g.len() as int;
    if n < 2 {
        None
    } else {
        Some(
            Ratio {
                num: scaled_square_sum(g, f, n, feature_sum(g, f)) as i128,
                den: (n * n * (n - 1)) as i128,
            },
        )
    }
}

/// The mean of a one-sample group is that sample's value.
pub proof fn lemma_mean_of_single(s: Sample, f: Feature)
    ensures
        feature_sum(seq![s], f) == s.value_spec(f),
        mean_spec(seq![s], f).den == 1,
{
    assert(seq![s].drop_last() =~= Seq::<Sample>::empty());
    assert(feature_sum(Seq::<Sample>::empty(), f) == 0);
    assert(seq![s].last() == s);
}

/// Arithmetic mean of one attribute over a nonempty group: the attribute sum
/// over the group size.
pub fn mean(g: &Vec<Sample>, f: Feature) -> (r: Ratio)
    requires
        group_ok(g@),
        g@.len() > 0,
    ensures
        r.num as int == feature_sum(g@, f),
        r.den as int == g@.len(),
        r == mean_spec(g@, f),
{
    let s = sum_feature(g, f);
    Ratio { num: s, den: g.len() as i128 }
}

/// One scaled deviation `n * v - s` stays within `2 * MAX_GROUP * MAX_MAGNITUDE`,
/// so its square stays within `MAX_SQUARE`.
proof fn lemma_square_bound(n: int, v: int, s: int)
    requires
        0 <= n <= MAX_GROUP,
        in_range(v),
        -(n * MAX_MAGNITUDE) <= s <= n * MAX_MAGNITUDE,
    ensures
        0 <= (n * v - s) * (n * v - s) <= MAX_SQUARE,
{
    assert(-(n * MAX_MAGNITUDE) <= n * v <= n * MAX_MAGNITUDE) by (nonlinear_arith)
        requires
            0 <= n,
            -MAX_MAGNITUDE <= v <= MAX_MAGNITUDE,
    ;
    assert(n * MAX_MAGNITUDE <= 1_000_000_000_000_000) by (nonlinear_arith)
        requires
            0 <= n <= 1_000_000,
            MAX_MAGNITUDE == 1_000_000_000,
    ;
    let d = n * v - s;
    assert(0 <= d * d <= MAX_SQUARE) by (nonlinear_arith)
        requires
            -2_000_000_000_000_000 <= d <= 2_000_000_000_000_000,
            MAX_SQUARE == 4_000_000_000_000_000_000_000_000_000_000,
    ;
}

/// Sum over a group of `(m.den * v - m.num)^2`, where `m` is the group's mean:
/// the sum of squared deviations from the mean, scaled by the squared group size.
pub fn scaled_squared_deviations(g: &Vec<Sample>, f: Feature, m: &Ratio) -> (r: i128)
    requires
        group_ok(g@),
        m.num as int == feature_sum(g@, f),
        m.den as int == g@.len(),
    ensures
        r as int == scaled_square_sum(g@, f, g@.len() as int, feature_sum(g@, f)),
        r >= 0,
{
    let ghost n = g@.len() as int;
    let ghost s = feature_sum(g@, f);
    proof {
        lemma_sum_bound(g@, f);
    }
    let mut acc: i128 = 0;
    let mut i: usize = 0;
    while i < g.len()
        invariant
            group_ok(g@),
            n == g@.len(),
            s == feature_sum(g@, f),
            m.num as int == s,
            m.den as int == n,
            -(n * MAX_MAGNITUDE) <= s <= n * MAX_MAGNITUDE,
            i <= n,
            acc as int == scaled_square_sum(g@.subrange(0, i as int), f, n, s),
            0 <= acc <= i * MAX_SQUARE,
        decreases g@.len() - i,
    {
        proof {
            lemma_prefix_step(g@, i as int);
            assert(g@[i as int].wf());
            lemma_value_in_range(g@[i as int], f);
            lemma_square_bound(n, g@[i as int].value_spec(f), s);
            assert(n * g@[i as int].value_spec(f) <= 1_000_000_000_000_000 && n
                * g@[i as int].value_spec(f) >= -1_000_000_000_000_000) by (nonlinear_arith)
                requires
                    0 <= n <= 1_000_000,
                    in_range(g@[i as int].value_spec(f)),
            ;
        }
        let v = g[i].value(f);
        let d: i128 = m.den * (v as i128) - m.num;
        acc = acc + d * d;
        i = i + 1;
    }
    assert(g@.subrange(0, g@.len() as int) =~= g@);
    acc
}

/// Bessel-corrected sample variance, `sum((v - mean)^2) / (n - 1)`, written as
/// `scaled_square_sum / (n^2 * (n - 1))`. A group of fewer than two samples has
/// no finite variance: `None`.
pub fn variance(g: &Vec<Sample>, f: Feature) -> (r: Option<Ratio>)
    requires
        group_ok(g@),
    ensures
        r is None <==> g@.len() < 2,
        r matches Some(v) ==> {
            let n = g@.len() as int;
            &&& v.num as int == scaled_square_sum(g@, f, n, feature_sum(g@, f))
            &&& v.den as int == n * n * (n - 1)
        },
        r == variance_spec(g@, f),
{
    if g.len() < 2 {
        return None;
    }
    let m = mean(g, f);
    let num = scaled_squared_deviations(g, f, &m);
    let n = g.len() as i128;
    assert(n * n <= 1_000_000_000_000 && n * n * (n - 1) <= 1_000_000_000_000_000_000)
        by (nonlinear_arith)
        requires
            2 <= n <= 1_000_000,
    ;
    Some(Ratio { num, den: n * n * (n - 1) })
}

} // verus!
