use vstd::prelude::*;
use crate::sample::{lemma_prefix_step, ClassLabel, Sample};

verus! {

/// The samples of `ds` whose label denotes class `c`, in dataset order.
pub open spec fn members(ds: Seq<Sample>, c: ClassLabel) -> Seq<Sample>
    decreases ds.len(),
{
    if ds.len() == 0 {
        Seq::empty()
    } else {
        let rest = members(ds.drop_last(), c);
        if ds.last().class_spec() == Some(c) {
            rest.push(ds.last())
        } else {
            rest
        }
    }
}

/// The positions in `ds` of the samples whose label is unrecognized, ascending.
pub open spec fn unrecognized(ds: Seq<Sample>) -> Seq<usize>
    decreases ds.len(),
{
    if ds.len() == 0 {
        Seq::empty()
    } else {
        let rest = unrecognized(ds.drop_last());
        if ds.last().class_spec() is None {
            rest.push((ds.len() - 1) as usize)
        } else {
            rest
        }
    }
}

/// The three class groups of a dataset and the samples left out of all of them.
pub struct Groups {
    pub class1: Vec<Sample>,
    pub class2: Vec<Sample>,
    pub class3: Vec<Sample>,
    /// Positions, in the dataset, of the samples with an unrecognized label.
    pub excluded: Vec<usize>,
}

impl Groups {
    pub open spec fn group_spec(&self, c: ClassLabel) -> Seq<Sample> {
        match c {
            ClassLabel::One => self.class1@,
            ClassLabel::Two => self.class2@,
            ClassLabel::Three => self.class3@,
        }
    }

    /// These groups are exactly the partition of `ds`.
    pub open spec fn partitions(&self, ds: Seq<Sample>) -> bool {
        &&& self.class1@ == members(ds, ClassLabel::One)
        &&& self.class2@ == members(ds, ClassLabel::Two)
        &&& self.class3@ == members(ds, ClassLabel::Three)
        &&& self.excluded@ == unrecognized(ds)
    }

    /// The group of one class.
    pub fn group(&self, c: ClassLabel) -> (r: &Vec<Sample>)
        ensures
            r@ == self.group_spec(c),
    {
        match c {
            ClassLabel::One => &self.class1,
            ClassLabel::Two => &self.class2,
            ClassLabel::Three => &self.class3,
        }
    }
}

/// Splits a dataset into its three class groups, keeping dataset order in
/// each, and records the position of every sample whose label is unrecognized.
pub fn partition(ds: &Vec<Sample>) -> (r: Groups)
    ensures
        r.partitions(ds@),
{
    let mut class1: Vec<Sample> = Vec::new();
    let mut class2: Vec<Sample> = Vec::new();
    let mut class3: Vec<Sample> = Vec::new();
    let mut excluded: Vec<usize> = Vec::new();
    let mut i: usize = 0;
    while i < ds.len()
        invariant
            i <= ds@.len(),
            class1@ == members(ds@.subrange(0, i as int), ClassLabel::One),
            class2@ == members(ds@.subrange(0, i as int), ClassLabel::Two),
            class3@ == members(ds@.subrange(0, i as int), ClassLabel::Three),
            excluded@ == unrecognized(ds@.subrange(0, i as int)),
        decreases ds@.len() - i,
    {
        proof {
            lemma_prefix_step(ds@, i as int);
        }
        let s = ds[i];
        match s.class() {
            Some(ClassLabel::One) => class1.push(s),
            Some(ClassLabel::Two) => class2.push(s),
            Some(ClassLabel::Three) => class3.push(s),
            None => excluded.push(i),
        }
        i = i + 1;
    }
    assert(ds@.subrange(0, ds@.len() as int) =~= ds@);
    Groups { class1, class2, class3, excluded }
}

/// Every sample of a dataset lands in exactly one group or among the excluded:
/// the group sizes and the number of excluded samples add up to the dataset size.
pub proof fn lemma_partition_sizes(ds: Seq<Sample>)
    ensures
        members(ds, ClassLabel::One).len() + members(ds, ClassLabel::Two).len() + members(
            ds,
            ClassLabel::Three,
        ).len() + unrecognized(ds).len() == ds.len(),
    decreases ds.len(),
{
    if ds.len() > 0 {
        lemma_partition_sizes(ds.drop_last());
    }
}

/// Every member of a class group carries that class's label, so no sample
/// belongs to two groups, and no excluded sample belongs to any group.
pub proof fn lemma_members_have_class(ds: Seq<Sample>, c: ClassLabel)
    ensures
        forall|k: int|
            0 <= k < members(ds, c).len() ==> (#[trigger] members(ds, c)[k]).class_spec() == Some(
                c,
            ),
    decreases ds.len(),
{
    if ds.len() > 0 {
        lemma_members_have_class(ds.drop_last(), c);
    }
}

/// The excluded positions point at samples whose label is unrecognized.
pub proof fn lemma_unrecognized_positions(ds: Seq<Sample>)
    requires
        ds.len() <= usize::MAX,
    ensures
        forall|k: int|
            0 <= k < unrecognized(ds).len() ==> {
                let p = #[trigger] unrecognized(ds)[k];
                &&& (p as int) < ds.len()
                &&& ds[p as int].class_spec() is None
            },
    decreases ds.len(),
{
    if ds.len() > 0 {
        let init = ds.drop_last();
        lemma_unrecognized_positions(init);
        let rest = unrecognized(init);
        assert forall|k: int| 0 <= k < unrecognized(ds).len() implies {
            let p = #[trigger] unrecognized(ds)[k];
            &&& (p as int) < ds.len()
            &&& ds[p as int].class_spec() is None
        } by {
            if k < rest.len() {
                let p = rest[k];
                assert(ds[p as int] == init[p as int]);
            } else {
                assert(unrecognized(ds)[k] == (ds.len() - 1) as usize);
            }
        }
    }
}

/// Groups of distinct classes share no sample.
pub proof fn lemma_groups_disjoint(ds: Seq<Sample>, c1: ClassLabel, c2: ClassLabel, s: Sample)
    requires
        c1 != c2,
    ensures
        !(members(ds, c1).contains(s) && members(ds, c2).contains(s)),
{
    lemma_members_have_class(ds, c1);
    lemma_members_have_class(ds, c2);
}

/// A sample with an unrecognized label changes no group: appended to a
/// dataset, it only adds its position to the excluded list.
pub proof fn lemma_unrecognized_sample_ignored(ds: Seq<Sample>, s: Sample, c: ClassLabel)
    requires
        s.class_spec() is None,
        ds.len() < usize::MAX,
    ensures
        members(ds.push(s), c) == members(ds, c),
        unrecognized(ds.push(s)) == unrecognized(ds).push(ds.len() as usize),
{
    assert(ds.push(s).drop_last() =~= ds);
}

} // verus!
