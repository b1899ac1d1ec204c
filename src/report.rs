use vstd::prelude::*;
use crate::partition::{members, partition, Groups};
use crate::sample::{all_features, feature_at, ClassLabel, Feature, Sample, NUM_FEATURES};
use crate::score::{mean_bounded, mean_spread, spread_spec};
use crate::stats::{
    group_ok, lemma_sum_bound, mean, mean_spec, variance, variance_spec, Ratio, MAX_GROUP,
};

verus! {

/// The six per-class statistics of one feature and its mean spread. The
/// importance score is `spread / ((sd1 + sd2 + sd3) / 3)`, where `sdi` is the
/// square root of `variancei`; a missing variance is a non-finite deviation.
#[derive(Clone, Copy, Debug, PartialEq, Eq, Structural)]
pub struct FeatureReport {
    pub feature: Feature,
    pub mean1: Ratio,
    pub mean2: Ratio,
    pub mean3: Ratio,
    pub variance1: Option<Ratio>,
    pub variance2: Option<Ratio>,
    pub variance3: Option<Ratio>,
    pub spread: Ratio,
}

/// The report of feature `f` over three class groups.
pub open spec fn feature_report_spec(
    g1: Seq<Sample>,
    g2: Seq<Sample>,
    g3: Seq<Sample>,
    f: Feature,
) -> FeatureReport {
    FeatureReport {
        feature: f,
        mean1: mean_spec(g1, f),
        mean2: mean_spec(g2, f),
        mean3: mean_spec(g3, f),
        variance1: variance_spec(g1, f),
        variance2: variance_spec(g2, f),
        variance3: variance_spec(g3, f),
        spread: spread_spec(mean_spec(g1, f), mean_spec(g2, f), mean_spec(g3, f)),
    }
}

/// The groups are nonempty and within the limits of the statistics.
pub open spec fn groups_ready(g: &Groups) -> bool {
    &&& group_ok(g.class1@) && g.class1@.len() > 0
    &&& group_ok(g.class2@) && g.class2@.len() > 0
    &&& group_ok(g.class3@) && g.class3@.len() > 0
}

proof fn lemma_mean_bounded(g: Seq<Sample>, f: Feature)
    requires
        group_ok(g),
        g.len() > 0,
    ensures
        mean_bounded(mean_spec(g, f)),
{
    lemma_sum_bound(g, f);
}

/// Per-class means and variances of one feature, and the spread of its means.
pub fn feature_report(groups: &Groups, f: Feature) -> (r: FeatureReport)
    requires
        groups_ready(groups),
    ensures
        r == feature_report_spec(groups.class1@, groups.class2@, groups.class3@, f),
{
    let m1 = mean(&groups.class1, f);
    let m2 = mean(&groups.class2, f);
    let m3 = mean(&groups.class3, f);
    let v1 = variance(&groups.class1, f);
    let v2 = variance(&groups.class2, f);
    let v3 = variance(&groups.class3, f);
    proof {
        lemma_mean_bounded(groups.class1@, f);
        lemma_mean_bounded(groups.class2@, f);
        lemma_mean_bounded(groups.class3@, f);
    }
    let spread = mean_spread(&m1, &m2, &m3);
    FeatureReport {
        feature: f,
        mean1: m1,
        mean2: m2,
        mean3: m3,
        variance1: v1,
        variance2: v2,
        variance3: v3,
        spread,
    }
}

/// The report of every feature, in declaration order.
pub open spec fn reports_spec(g: &Groups) -> Seq<FeatureReport> {
    Seq::new(
        NUM_FEATURES as nat,
        |i: int| feature_report_spec(g.class1@, g.class2@, g.class3@, feature_at(i)),
    )
}

/// One report per feature, in feature declaration order, whatever the scores.
pub fn score_report(groups: &Groups) -> (r: Vec<FeatureReport>)
    requires
        groups_ready(groups),
    ensures
        r@ == reports_spec(groups),
{
    let features = all_features();
    let mut r: Vec<FeatureReport> = Vec::new();
    let mut i: usize = 0;
    while i < features.len()
        invariant
            groups_ready(groups),
            features@.len() == NUM_FEATURES,
            forall|j: int| 0 <= j < NUM_FEATURES ==> #[trigger] features@[j] == feature_at(j),
            i <= NUM_FEATURES,
            r@ == reports_spec(groups).subrange(0, i as int),
        decreases NUM_FEATURES - i,
    {
        let rep = feature_report(groups, features[i]);
        r.push(rep);
        i = i + 1;
        assert(r@ =~= reports_spec(groups).subrange(0, i as int));
    }
    assert(r@ =~= reports_spec(groups));
    r
}

/// Why a dataset cannot be analyzed.
#[derive(Clone, Copy, Debug, PartialEq, Eq, Structural)]
pub enum AnalysisError {
    /// The class has no sample, so its mean is undefined.
    EmptyGroup(ClassLabel),
    /// The class has more than `MAX_GROUP` samples.
    GroupTooLarge(ClassLabel),
    /// A sample of the class holds a value beyond `MAX_MAGNITUDE`.
    ValueOutOfRange(ClassLabel),
}

/// The first condition that the group of class `c` violates, if any.
pub open spec fn group_error(g: Seq<Sample>, c: ClassLabel) -> Option<AnalysisError> {
    if g.len() == 0 {
        Some(AnalysisError::EmptyGroup(c))
    } else if g.len() > MAX_GROUP {
        Some(AnalysisError::GroupTooLarge(c))
    } else if !(forall|k: int| 0 <= k < g.len() ==> (#[trigger] g[k]).wf()) {
        Some(AnalysisError::ValueOutOfRange(c))
    } else {
        None
    }
}

/// The error of the analysis of `ds`: the first failing group, class 1 first.
pub open spec fn analysis_error(ds: Seq<Sample>) -> Option<AnalysisError> {
    let e1 = group_error(members(ds, ClassLabel::One), ClassLabel::One);
    let e2 = group_error(members(ds, ClassLabel::Two), ClassLabel::Two);
    let e3 = group_error(members(ds, ClassLabel::Three), ClassLabel::Three);
    if e1 is Some {
        e1
    } else if e2 is Some {
        e2
    } else {
        e3
    }
}

/// The groups of a dataset and the report of every feature over them.
pub struct Analysis {
    pub groups: Groups,
    pub reports: Vec<FeatureReport>,
}

fn check_group(g: &Vec<Sample>, c: ClassLabel) -> (r: Option<AnalysisError>)
    ensures
        r == group_error(g@, c),
{
    if g.len() == 0 {
        return Some(AnalysisError::EmptyGroup(c));
    }
    if g.len() > MAX_GROUP {
        return Some(AnalysisError::GroupTooLarge(c));
    }
    let mut i: usize = 0;
    while i < g.len()
        invariant
            0 < g@.len() <= MAX_GROUP,
            i <= g@.len(),
            forall|k: int| 0 <= k < i ==> (#[trigger] g@[k]).wf(),
        decreases g@.len() - i,
    {
        if !g[i].is_well_formed() {
            assert(!g@[i as int].wf());
            return Some(AnalysisError::ValueOutOfRange(c));
        }
        i = i + 1;
    }
    None
}

/// Partitions a dataset by class and reports every feature over the groups.
/// Samples with an unrecognized label are left out of every group and listed
/// by position in `groups.excluded`; they affect no statistic.
pub fn analyze(ds: &Vec<Sample>) -> (r: Result<Analysis, AnalysisError>)
    ensures
        r is Err <==> analysis_error(ds@) is Some,
        r matches Err(e) ==> analysis_error(ds@) == Some(e),
        r matches Ok(a) ==> {
            &&& a.groups.partitions(ds@)
            &&& a.reports@ == reports_spec(&a.groups)
        },
{
    let groups = partition(ds);
    if let Some(e) = check_group(&groups.class1, ClassLabel::One) {
        return Err(e);
    }
    if let Some(e) = check_group(&groups.class2, ClassLabel::Two) {
        return Err(e);
    }
    if let Some(e) = check_group(&groups.class3, ClassLabel::Three) {
        return Err(e);
    }
    let reports = score_report(&groups);
    Ok(Analysis { groups, reports })
}

/// The analysis is a function of the dataset alone: any two groupings that
/// partition the same dataset are equal and yield the same reports, one per
/// feature in declaration order.
pub proof fn lemma_analysis_determined(ds: Seq<Sample>, a: &Groups, b: &Groups)
    requires
        a.partitions(ds),
        b.partitions(ds),
    ensures
        a.class1@ == b.class1@,
        a.class2@ == b.class2@,
        a.class3@ == b.class3@,
        a.excluded@ == b.excluded@,
        reports_spec(a) == reports_spec(b),
        forall|i: int| 0 <= i < NUM_FEATURES ==> (#[trigger] reports_spec(a)[i]).feature == feature_at(i),
{
}

} // verus!
