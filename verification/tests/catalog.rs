use std::collections::HashSet;

use pv_hub::catalog::{bank_words, catalog, def_for, RegKind};
use pv_hub::model::Metric;

#[test]
fn no_register_collisions() {
    let mut used: HashSet<u16> = HashSet::new();
    for d in catalog() {
        for w in [d.register, d.register + 1] {
            assert!(used.insert(w), "register {w} used twice (metric {:?})", d.metric);
        }
    }
}

#[test]
fn every_metric_variant_has_a_def() {
    for m in Metric::ALL {
        assert!(def_for(m).is_some(), "no MetricDef for {m:?}");
    }
    assert_eq!(catalog().len(), 32);
}

#[test]
fn ids_are_unique() {
    let mut seen = HashSet::new();
    for d in catalog() {
        assert!(seen.insert(d.id), "duplicate id {}", d.id);
    }
}

#[test]
fn bank_is_large_enough() {
    assert_eq!(bank_words(), 118);
}

#[test]
fn def_for_returns_the_line_of_the_metric() {
    let d = def_for(Metric::LastUpdateEpoch).unwrap();
    assert_eq!(d.metric, Metric::LastUpdateEpoch);
    assert_eq!(d.id, "last_update_epoch");
    assert_eq!(d.register, 112);
    assert_eq!(d.kind, RegKind::U32);
    assert_eq!(def_for(Metric::Ghi).unwrap().register, 0);
    assert_eq!(def_for(Metric::PollErrorsTotal).unwrap().register, 116);
}

#[test]
fn catalog_follows_metric_order() {
    let cat = catalog();
    for (i, m) in Metric::ALL.iter().enumerate() {
        assert_eq!(cat[i].metric, *m);
    }
}

#[test]
fn every_register_fits_in_the_bank() {
    for d in catalog() {
        assert!((d.register as usize) + 2 <= bank_words());
    }
}
