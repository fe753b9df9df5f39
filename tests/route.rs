use geodetic_convert::{GeodeticSystem, Transform};

use GeodeticSystem::{Bd09, Gcj02, Wgs84};
use Transform::{BdToGcj, GcjToBd, GcjToWgs, WgsToGcj};

#[test]
fn same_system_needs_no_transform() {
    for s in [Wgs84, Gcj02, Bd09] {
        assert!(s.route_to(s).is_empty());
    }
}

#[test]
fn direct_neighbours_take_one_transform() {
    assert_eq!(Wgs84.route_to(Gcj02), vec![WgsToGcj]);
    assert_eq!(Gcj02.route_to(Wgs84), vec![GcjToWgs]);
    assert_eq!(Gcj02.route_to(Bd09), vec![GcjToBd]);
    assert_eq!(Bd09.route_to(Gcj02), vec![BdToGcj]);
}

#[test]
fn open_and_vendor_meet_in_the_regional_system() {
    assert_eq!(Wgs84.route_to(Bd09), vec![WgsToGcj, GcjToBd]);
    assert_eq!(Bd09.route_to(Wgs84), vec![BdToGcj, GcjToWgs]);
}

#[test]
fn open_to_vendor_composes_through_regional() {
    let mut composed = Wgs84.route_to(Gcj02);
    composed.extend(Gcj02.route_to(Bd09));
    assert_eq!(Wgs84.route_to(Bd09), composed);

    let mut back = Bd09.route_to(Gcj02);
    back.extend(Gcj02.route_to(Wgs84));
    assert_eq!(Bd09.route_to(Wgs84), back);
}

#[test]
fn every_distinct_pair_is_covered() {
    let all = [Wgs84, Gcj02, Bd09];
    let mut pairs: usize = 0;
    for a in all {
        for b in all {
            if a != b {
                let r = a.route_to(b);
                assert!(!r.is_empty() && r.len() <= 2);
                pairs += 1;
            }
        }
    }
    assert_eq!(pairs, 6);
}
