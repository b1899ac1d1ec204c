use wine_importance::partition::partition;
use wine_importance::report::{analyze, feature_report, AnalysisError, FeatureReport};
use wine_importance::sample::{all_features, ClassLabel, Feature, Sample, MAX_MAGNITUDE};
use wine_importance::score::mean_spread;
use wine_importance::stats::{mean, sum_feature, variance, Ratio};

fn sample(label: i64, alcohol: i64) -> Sample {
    let mut values = [0i64; 13];
    values[0] = alcohol;
    Sample::new(label, values)
}

fn group(values: &[i64]) -> Vec<Sample> {
    values.iter().map(|v| sample(1000, *v)).collect()
}

fn units(r: &Ratio) -> f64 {
    r.num as f64 / r.den as f64 / 1000.0
}

fn stddev_units(v: &Option<Ratio>) -> f64 {
    match v {
        Some(r) => (r.num as f64 / r.den as f64).sqrt() / 1000.0,
        None => f64::NAN,
    }
}

fn importance(rep: &FeatureReport) -> f64 {
    let mean_sd = (stddev_units(&rep.variance1)
        + stddev_units(&rep.variance2)
        + stddev_units(&rep.variance3))
        / 3.0;
    units(&rep.spread) / mean_sd
}

#[test]
fn mean_of_single_sample_is_its_value() {
    let g = group(&[12345]);
    let m = mean(&g, Feature::Alcohol);
    assert_eq!(m, Ratio { num: 12345, den: 1 });
}

#[test]
fn mean_of_one_two_three_is_two() {
    let g = group(&[1000, 2000, 3000]);
    let m = mean(&g, Feature::Alcohol);
    assert_eq!(m.num, 6000);
    assert_eq!(m.den, 3);
    assert_eq!(units(&m), 2.0);
}

#[test]
fn sum_feature_adds_values() {
    let g = group(&[1500, -250, 4000]);
    assert_eq!(sum_feature(&g, Feature::Alcohol), 5250);
    assert_eq!(sum_feature(&g, Feature::Proline), 0);
}

#[test]
fn sample_stddev_uses_bessel_correction() {
    let g = group(&[2000, 4000, 4000, 4000, 5000, 5000, 7000, 9000]);
    let v = variance(&g, Feature::Alcohol).unwrap();
    // 32 / 7 square units, in squared thousandths
    assert_eq!(v.num * 7, 32_000_000 * v.den);
    let sd = stddev_units(&Some(v));
    assert!((sd - 2.138).abs() < 0.001);
    assert_eq!(format!("{:.3}", sd), "2.138");
}

#[test]
fn single_member_group_has_no_finite_stddev() {
    let g = group(&[5000]);
    assert_eq!(variance(&g, Feature::Alcohol), None);
    assert!(!stddev_units(&variance(&g, Feature::Alcohol)).is_finite());
    assert_eq!(variance(&group(&[]), Feature::Alcohol), None);
    assert!(variance(&group(&[5000, 5000]), Feature::Alcohol).is_some());
}

#[test]
fn single_member_group_gives_non_finite_score() {
    let ds = vec![sample(1000, 1000), sample(2000, 2000), sample(2000, 2500), sample(3000, 3000), sample(3000, 3100)];
    let a = analyze(&ds).unwrap();
    assert_eq!(a.reports[0].variance1, None);
    assert!(!importance(&a.reports[0]).is_finite());
}

#[test]
fn partition_sizes_add_up_and_groups_are_disjoint() {
    let ds = vec![
        sample(1000, 1),
        sample(2000, 2),
        sample(3000, 3),
        sample(4000, 4),
        sample(1000, 5),
        sample(1500, 6),
        sample(3000, 7),
    ];
    let g = partition(&ds);
    assert_eq!(g.class1.len() + g.class2.len() + g.class3.len() + g.excluded.len(), ds.len());
    assert_eq!(g.class1, vec![sample(1000, 1), sample(1000, 5)]);
    assert_eq!(g.class2, vec![sample(2000, 2)]);
    assert_eq!(g.class3, vec![sample(3000, 3), sample(3000, 7)]);
    assert_eq!(g.excluded, vec![3, 5]);
    for s in &g.class1 {
        assert!(!g.class2.contains(s) && !g.class3.contains(s));
    }
    for s in &g.class2 {
        assert!(!g.class3.contains(s));
    }
}

#[test]
fn partition_of_empty_dataset_is_empty() {
    let g = partition(&vec![]);
    assert!(g.class1.is_empty() && g.class2.is_empty() && g.class3.is_empty());
    assert!(g.excluded.is_empty());
}

#[test]
fn equal_means_give_zero_score() {
    let a = Ratio { num: 6000, den: 3 };
    let b = Ratio { num: 4000, den: 2 };
    let c = Ratio { num: 2000, den: 1 };
    let s = mean_spread(&a, &b, &c);
    assert_eq!(s.num, 0);
    assert!(s.den > 0);
    let ds = vec![
        sample(1000, 1000),
        sample(1000, 3000),
        sample(2000, 0),
        sample(2000, 4000),
        sample(3000, 1900),
        sample(3000, 2100),
    ];
    let rep = &analyze(&ds).unwrap().reports[0];
    assert_eq!(rep.spread.num, 0);
    assert_eq!(importance(rep), 0.0);
}

#[test]
fn score_increases_with_spread() {
    let lo = Ratio { num: 1000, den: 1 };
    let mid = Ratio { num: 3000, den: 2 };
    let s1 = mean_spread(&lo, &mid, &lo);
    let s2 = mean_spread(&lo, &Ratio { num: 3000, den: 1 }, &lo);
    assert_eq!(s1.num * 1, 500 * s1.den);
    assert_eq!(s2.num, 2000 * s2.den);
    assert!(units(&s1) / 0.5 < units(&s2) / 0.5);
}

#[test]
fn mean_spread_is_max_minus_min() {
    let a = Ratio { num: 13000, den: 1 };
    let b = Ratio { num: 36000, den: 3 };
    let c = Ratio { num: 28000, den: 2 };
    let s = mean_spread(&a, &b, &c);
    assert_eq!(s.num, 2000 * s.den);
}

#[test]
fn analysis_is_repeatable() {
    let ds = vec![
        sample(1000, 11500),
        sample(2000, 13000),
        sample(3000, 14000),
        sample(4000, 1),
        sample(1000, 12500),
        sample(2000, 13400),
        sample(3000, 14500),
    ];
    let a = analyze(&ds).unwrap();
    let b = analyze(&ds).unwrap();
    assert_eq!(a.reports, b.reports);
    assert_eq!(a.groups.excluded, b.groups.excluded);
    for (i, rep) in a.reports.iter().enumerate() {
        assert_eq!(rep.feature.index(), i);
    }
}

#[test]
fn nine_sample_scenario() {
    let ds = vec![
        sample(1000, 11500),
        sample(1000, 12000),
        sample(1000, 12500),
        sample(2000, 12500),
        sample(2000, 13000),
        sample(2000, 13500),
        sample(3000, 13500),
        sample(3000, 14000),
        sample(3000, 14500),
    ];
    let a = analyze(&ds).unwrap();
    assert_eq!(a.reports.len(), 13);
    let rep = &a.reports[0];
    assert_eq!(rep.feature, Feature::Alcohol);
    assert_eq!(format!("{:.3}", units(&rep.mean1)), "12.000");
    assert_eq!(format!("{:.3}", units(&rep.mean2)), "13.000");
    assert_eq!(format!("{:.3}", units(&rep.mean3)), "14.000");
    assert_eq!(format!("{:.3}", stddev_units(&rep.variance1)), "0.500");
    assert_eq!(format!("{:.3}", stddev_units(&rep.variance2)), "0.500");
    assert_eq!(format!("{:.3}", stddev_units(&rep.variance3)), "0.500");
    assert_eq!(rep.variance1, Some(Ratio { num: 4_500_000, den: 18 }));
    assert_eq!(rep.spread.num, 2000 * rep.spread.den);
    assert_eq!(importance(rep), 4.0);
}

#[test]
fn unrecognized_label_is_excluded_and_changes_nothing() {
    let base = vec![
        sample(1000, 11500),
        sample(1000, 12500),
        sample(2000, 12500),
        sample(2000, 13500),
        sample(3000, 13500),
        sample(3000, 14500),
    ];
    let mut with_bad = base.clone();
    with_bad.insert(2, sample(4000, 99000));
    let a = analyze(&base).unwrap();
    let b = analyze(&with_bad).unwrap();
    assert_eq!(b.groups.excluded, vec![2]);
    assert_eq!(with_bad[b.groups.excluded[0]].label, 4000);
    assert!(a.groups.excluded.is_empty());
    assert_eq!(a.groups.class1, b.groups.class1);
    assert_eq!(a.groups.class2, b.groups.class2);
    assert_eq!(a.groups.class3, b.groups.class3);
    assert_eq!(a.reports, b.reports);
}

#[test]
fn empty_class_is_an_error() {
    let ds = vec![sample(1000, 1), sample(3000, 2)];
    assert!(matches!(analyze(&ds), Err(AnalysisError::EmptyGroup(ClassLabel::Two))));
    assert!(matches!(analyze(&vec![]), Err(AnalysisError::EmptyGroup(ClassLabel::One))));
}

#[test]
fn out_of_range_value_is_an_error() {
    let ds = vec![sample(1000, 1), sample(2000, MAX_MAGNITUDE + 1), sample(3000, 2)];
    assert!(matches!(analyze(&ds), Err(AnalysisError::ValueOutOfRange(ClassLabel::Two))));
    let ok = vec![sample(1000, 1), sample(2000, -MAX_MAGNITUDE), sample(3000, 2), sample(4000, i64::MAX)];
    assert!(analyze(&ok).is_ok());
}

#[test]
fn feature_report_matches_parts() {
    let ds = vec![sample(1000, 1000), sample(1000, 3000), sample(2000, 5000), sample(2000, 5000), sample(3000, 0), sample(3000, 4000)];
    let g = partition(&ds);
    let rep = feature_report(&g, Feature::Alcohol);
    assert_eq!(rep.mean1, Ratio { num: 4000, den: 2 });
    assert_eq!(rep.variance2, Some(Ratio { num: 0, den: 4 }));
    assert_eq!(rep.spread.num, 3000 * rep.spread.den);
}

#[test]
fn labels_are_recognized_exactly() {
    assert_eq!(ClassLabel::from_raw(1000), Some(ClassLabel::One));
    assert_eq!(ClassLabel::from_raw(2000), Some(ClassLabel::Two));
    assert_eq!(ClassLabel::from_raw(3000), Some(ClassLabel::Three));
    assert_eq!(ClassLabel::from_raw(4000), None);
    assert_eq!(ClassLabel::from_raw(1001), None);
    assert_eq!(ClassLabel::from_raw(1), None);
    assert_eq!(ClassLabel::Three.number(), 3);
}

#[test]
fn features_keep_declaration_order() {
    let fs = all_features();
    assert_eq!(fs.len(), 13);
    assert_eq!(fs[0].name(), "alcohol");
    assert_eq!(fs[11].name(), "0D280_0D315_of_diluted_wines");
    assert_eq!(fs[12], Feature::Proline);
    for (i, f) in fs.iter().enumerate() {
        assert_eq!(f.index(), i);
        assert_eq!(Feature::from_index(i), *f);
    }
    let s = Sample::new(0, [1, 2, 3, 4, 5, 6, 7, 8, 9, 10, 11, 12, 13]);
    assert_eq!(s.value(Feature::Hue), 11);
    assert!(s.is_well_formed());
    assert_eq!(s.class(), None);
}
