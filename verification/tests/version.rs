use sopmod::version::{compare_versions, is_older, numbers_less, parse_version_numbers};
use std::cmp::Ordering;

#[test]
fn version_numbers_skip_what_is_no_number() {
    assert_eq!(parse_version_numbers("1.22.0"), vec![1, 22, 0]);
    assert_eq!(parse_version_numbers("1.22"), vec![1, 22]);
    assert_eq!(parse_version_numbers("1.22rc1.3"), vec![1, 3]);
    assert_eq!(parse_version_numbers("latest"), Vec::<u32>::new());
    assert_eq!(parse_version_numbers(""), Vec::<u32>::new());
    assert_eq!(parse_version_numbers("1..2"), vec![1, 2]);
}

#[test]
fn versions_are_compared_by_numbers_not_by_characters() {
    assert_eq!(compare_versions("1.9.0", "1.10.0"), Ordering::Less);
    assert_eq!(compare_versions("1.22.1", "1.22.0"), Ordering::Greater);
    assert_eq!(compare_versions("1.22.0", "1.22.0"), Ordering::Equal);
    assert_eq!(compare_versions("1.22", "1.22.0"), Ordering::Less);
    assert_eq!(compare_versions("2", "1.99.99"), Ordering::Greater);
    assert_eq!(compare_versions("", "0"), Ordering::Less);
    assert_eq!(compare_versions("1.x.2", "1.2"), Ordering::Equal);
    assert_eq!(compare_versions("01.2", "1.02"), Ordering::Equal);
}

#[test]
fn compare_versions_is_antisymmetric() {
    let versions = ["1.21.0", "1.9", "1.22.3", "2.0", "1.22", "", "x"];
    for a in versions {
        for b in versions {
            assert_eq!(compare_versions(a, b), compare_versions(b, a).reverse());
            assert_eq!(is_older(a, b), compare_versions(a, b) == Ordering::Less);
        }
    }
}

#[test]
fn numbers_less_orders_tuples_from_the_left() {
    assert!(numbers_less(&vec![1, 2], &vec![1, 3]));
    assert!(numbers_less(&vec![1, 2], &vec![1, 2, 0]));
    assert!(numbers_less(&vec![], &vec![0]));
    assert!(!numbers_less(&vec![1, 2], &vec![1, 2]));
    assert!(!numbers_less(&vec![2], &vec![1, 9]));
    assert!(!numbers_less(&vec![], &vec![]));
}
