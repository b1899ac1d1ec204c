use vstd::prelude::*;

verus! {

/// Number of attributes carried by every sample.
pub const NUM_FEATURES: usize = 13;

/// Fixed-point scale: a field value `v` stands for `v / SCALE` units.
pub const SCALE: i64 = 1000;

/// Largest magnitude, in thousandths, that a field may hold.
pub const MAX_MAGNITUDE: i64 = 1_000_000_000;

/// One of the three recognized cultivar classes.
#[derive(Clone, Copy, Debug, PartialEq, Eq, Structural)]
pub enum ClassLabel {
    One,
    Two,
    Three,
}

/// The class that a raw label field (in thousandths) denotes, if any.
pub open spec fn label_of(raw: int) -> Option<ClassLabel> {
    if raw == 1000 {
        Some(ClassLabel::One)
    } else if raw == 2000 {
        Some(ClassLabel::Two)
    } else if raw == 3000 {
        Some(ClassLabel::Three)
    } else {
        None
    }
}

impl ClassLabel {
    /// Recognizes a raw label field: exactly `1`, `2` or `3` units.
    pub fn from_raw(raw: i64) -> (r: Option<ClassLabel>)
        ensures
            r == label_of(raw as int),
    {
        if raw == 1000 {
            Some(ClassLabel::One)
        } else if raw == 2000 {
            Some(ClassLabel::Two)
        } else if raw == 3000 {
            Some(ClassLabel::Three)
        } else {
            None
        }
    }

    pub open spec fn number_spec(self) -> u8 {
        match self {
            ClassLabel::One => 1,
            ClassLabel::Two => 2,
            ClassLabel::Three => 3,
        }
    }

    /// The class number, `1`, `2` or `3`.
    pub fn number(self) -> (r: u8)
        ensures
            r == self.number_spec(),
            1 <= r <= 3,
    {
        match self {
            ClassLabel::One => 1,
            ClassLabel::Two => 2,
            ClassLabel::Three => 3,
        }
    }
}

/// One of the thirteen attributes, in declaration order.
#[derive(Clone, Copy, Debug, PartialEq, Eq, Structural)]
pub enum Feature {
    Alcohol,
    MalicAcid,
    Ash,
    AlcalinityOfAsh,
    Magnesium,
    TotalPhenols,
    Flavanoids,
    NonflavanoidPhenols,
    Proanthocyanins,
    ColorIntensity,
    Hue,
    DilutedOpticalDensity,
    Proline,
}

/// The feature at position `i` of the declaration order.
pub open spec fn feature_at(i: int) -> Feature {
    if i == 0 {
        Feature::Alcohol
    } else if i == 1 {
        Feature::MalicAcid
    } else if i == 2 {
        Feature::Ash
    } else if i == 3 {
        Feature::AlcalinityOfAsh
    } else if i == 4 {
        Feature::Magnesium
    } else if i == 5 {
        Feature::TotalPhenols
    } else if i == 6 {
        Feature::Flavanoids
    } else if i == 7 {
        Feature::NonflavanoidPhenols
    } else if i == 8 {
        Feature::Proanthocyanins
    } else if i == 9 {
        Feature::ColorIntensity
    } else if i == 10 {
        Feature::Hue
    } else if i == 11 {
        Feature::DilutedOpticalDensity
    } else {
        Feature::Proline
    }
}

impl Feature {
    pub open spec fn index_spec(self) -> int {
        match self {
            Feature::Alcohol => 0,
            Feature::MalicAcid => 1,
            Feature::Ash => 2,
            Feature::AlcalinityOfAsh => 3,
            Feature::Magnesium => 4,
            Feature::TotalPhenols => 5,
            Feature::Flavanoids => 6,
            Feature::NonflavanoidPhenols => 7,
            Feature::Proanthocyanins => 8,
            Feature::ColorIntensity => 9,
            Feature::Hue => 10,
            Feature::DilutedOpticalDensity => 11,
            Feature::Proline => 12,
        }
    }

    /// Position of the attribute in a sample's value list and in every report.
    pub fn index(self) -> (r: usize)
        ensures
            r as int == self.index_spec(),
            r < NUM_FEATURES,
            feature_at(r as int) == self,
    {
        match self {
            Feature::Alcohol => 0,
            Feature::MalicAcid => 1,
            Feature::Ash => 2,
            Feature::AlcalinityOfAsh => 3,
            Feature::Magnesium => 4,
            Feature::TotalPhenols => 5,
            Feature::Flavanoids => 6,
            Feature::NonflavanoidPhenols => 7,
            Feature::Proanthocyanins => 8,
            Feature::ColorIntensity => 9,
            Feature::Hue => 10,
            Feature::DilutedOpticalDensity => 11,
            Feature::Proline => 12,
        }
    }

    pub open spec fn name_spec(self) -> Seq<char> {
        match self {
            Feature::Alcohol => "alcohol"@,
            Feature::MalicAcid => "malicacid"@,
            Feature::Ash => "ash"@,
            Feature::AlcalinityOfAsh => "alccalinity_of_ash"@,
            Feature::Magnesium => "magnesium"@,
            Feature::TotalPhenols => "total_phenol"@,
            Feature::Flavanoids => "flavanoids"@,
            Feature::NonflavanoidPhenols => "nonflavanoid_phenols"@,
            Feature::Proanthocyanins => "proanthocyanins"@,
            Feature::ColorIntensity => "color_intensity"@,
            Feature::Hue => "hue"@,
            Feature::DilutedOpticalDensity => "0D280_0D315_of_diluted_wines"@,
            Feature::Proline => "proline"@,
        }
    }

    /// The human-readable name used in reports and on the chart.
    pub fn name(self) -> (r: &'static str)
        ensures
            r@ == self.name_spec(),
    {
        match self {
            Feature::Alcohol => "alcohol",
            Feature::MalicAcid => "malicacid",
            Feature::Ash => "ash",
            Feature::AlcalinityOfAsh => "alccalinity_of_ash",
            Feature::Magnesium => "magnesium",
            Feature::TotalPhenols => "total_phenol",
            Feature::Flavanoids => "flavanoids",
            Feature::NonflavanoidPhenols => "nonflavanoid_phenols",
            Feature::Proanthocyanins => "proanthocyanins",
            Feature::ColorIntensity => "color_intensity",
            Feature::Hue => "hue",
            Feature::DilutedOpticalDensity => "0D280_0D315_of_diluted_wines",
            Feature::Proline => "proline",
        }
    }

    /// The feature at a position of the declaration order.
    pub fn from_index(i: usize) -> (r: Feature)
        requires
            i < NUM_FEATURES,
        ensures
            r == feature_at(i as int),
            r.index_spec() == i as int,
    {
        if i == 0 {
            Feature::Alcohol
        } else if i == 1 {
            Feature::MalicAcid
        } else if i == 2 {
            Feature::Ash
        } else if i == 3 {
            Feature::AlcalinityOfAsh
        } else if i == 4 {
            Feature::Magnesium
        } else if i == 5 {
            Feature::TotalPhenols
        } else if i == 6 {
            Feature::Flavanoids
        } else if i == 7 {
            Feature::NonflavanoidPhenols
        } else if i == 8 {
            Feature::Proanthocyanins
        } else if i == 9 {
            Feature::ColorIntensity
        } else if i == 10 {
            Feature::Hue
        } else if i == 11 {
            Feature::DilutedOpticalDensity
        } else {
            Feature::Proline
        }
    }
}

/// Every feature, in declaration order.
pub fn all_features() -> (r: Vec<Feature>)
    ensures
        r@.len() == NUM_FEATURES,
        forall|i: int| 0 <= i < NUM_FEATURES ==> #[trigger] r@[i] == feature_at(i),
{
    let mut r: Vec<Feature> = Vec::new();
    let mut i: usize = 0;
    while i < NUM_FEATURES
        invariant
            i <= NUM_FEATURES,
            r@.len() == i,
            forall|j: int| 0 <= j < i ==> #[trigger] r@[j] == feature_at(j),
        decreases NUM_FEATURES - i,
    {
        r.push(Feature::from_index(i));
        i = i + 1;
    }
    r
}

/// One wine sample: a raw class label and thirteen attribute values, each a
/// whole number of thousandths.
#[derive(Clone, Copy, Debug, PartialEq, Eq)]
pub struct Sample {
    pub label: i64,
    pub values: [i64; 13],
}

/// A field value that the statistics can take without overflow.
pub open spec fn in_range(v: int) -> bool {
    -MAX_MAGNITUDE <= v <= MAX_MAGNITUDE
}

impl Sample {
    /// Every attribute value lies within `MAX_MAGNITUDE`.
    pub open spec fn wf(&self) -> bool {
        forall|i: int| 0 <= i < NUM_FEATURES ==> in_range(#[trigger] self.values@[i] as int)
    }

    pub open spec fn value_spec(&self, f: Feature) -> int {
        self.values@[f.index_spec()] as int
    }

    pub open spec fn class_spec(&self) -> Option<ClassLabel> {
        label_of(self.label as int)
    }

    pub fn new(label: i64, values: [i64; 13]) -> (r: Sample)
        ensures
            r.label == label,
            r.values@ == values@,
    {
        Sample { label, values }
    }

    /// Whether every attribute value lies within `MAX_MAGNITUDE`.
    pub fn is_well_formed(&self) -> (r: bool)
        ensures
            r == self.wf(),
    {
        let mut i: usize = 0;
        while i < NUM_FEATURES
            invariant
                i <= NUM_FEATURES,
                forall|j: int| 0 <= j < i ==> in_range(#[trigger] self.values@[j] as int),
            decreases NUM_FEATURES - i,
        {
            let v = self.values[i];
            if v < -MAX_MAGNITUDE || v > MAX_MAGNITUDE {
                return false;
            }
            i = i + 1;
        }
        true
    }

    /// The value of one attribute.
    pub fn value(&self, f: Feature) -> (r: i64)
        ensures
            r as int == self.value_spec(f),
    {
        self.values[f.index()]
    }

    /// The class this sample belongs to, or `None` for an unrecognized label.
    pub fn class(&self) -> (r: Option<ClassLabel>)
        ensures
            r == self.class_spec(),
    {
        ClassLabel::from_raw(self.label)
    }
}

/// The prefix of length `i + 1` is the prefix of length `i` followed by `s[i]`.
pub proof fn lemma_prefix_step<A>(s: Seq<A>, i: int)
    requires
        0 <= i < s.len(),
    ensures
        s.subrange(0, i + 1).drop_last() == s.subrange(0, i),
        s.subrange(0, i + 1).last() == s[i],
        s.subrange(0, i + 1).len() == i + 1,
{
    assert(s.subrange(0, i + 1).drop_last() =~= s.subrange(0, i));
}

} // verus!
