use sopmod::compat::{
    comes_before, compat_message, compat_rules, go_compat, is_go_compatible,
    normalise_version, parse_go_version, select_rule, within_range, SemVer,
};

fn release(major: u64, minor: u64, patch: u64) -> SemVer {
    SemVer { major, minor, patch, pre: String::new(), build: String::new() }
}

#[test]
fn test_go_compat() {
    assert!(go_compat("0.4.1").is_some());
    assert!(go_compat("v0.4.1").is_some());
    assert!(go_compat("0.1.0").is_some());
    assert!(go_compat("99.0.0").is_some()); // All versions require Go 1.21+
}

#[test]
fn test_is_go_compatible() {
    // Go 1.22 should be compatible with sop 0.4.1 (requires 1.21+)
    assert!(is_go_compatible("1.22.0", "0.4.1").unwrap());
    assert!(is_go_compatible("1.22", "0.4.1").unwrap());
    assert!(is_go_compatible("1.21.0", "0.4.1").unwrap());

    // Go 1.20 should not be compatible
    assert!(!is_go_compatible("1.20.0", "0.4.1").unwrap());
    assert!(!is_go_compatible("1.19", "0.4.1").unwrap());
}

#[test]
fn test_parse_go_version() {
    assert!(parse_go_version("1.22.0").is_ok());
    assert!(parse_go_version("1.22").is_ok());
    assert!(parse_go_version("1.21.5").is_ok());
}

#[test]
fn go_compat_gives_the_range_of_the_first_rule() {
    let range = go_compat("0.4.1").unwrap();
    assert_eq!(range.min, "1.21");
    assert_eq!(range.max, None);
    let range = go_compat("0.1").unwrap();
    assert_eq!(range.min, "1.21");
    let range = go_compat("1").unwrap();
    assert_eq!(range.min, "1.21");
}

#[test]
fn go_compat_is_unknown_before_the_first_rule_and_for_bad_texts() {
    assert!(go_compat("0.0.9").is_none());
    assert!(go_compat("0.1.0-rc1").is_none());
    assert!(go_compat("not-a-version").is_none());
    assert!(go_compat("").is_none());
    assert!(go_compat("1.2.3.4").is_none());
}

#[test]
fn unknown_sop_version_is_compatible_with_anything() {
    assert_eq!(is_go_compatible("1.0.0", "0.0.1"), Ok(true));
    assert_eq!(is_go_compatible("garbage", "0.0.1"), Ok(true));
}

#[test]
fn bad_go_version_is_reported() {
    assert_eq!(
        is_go_compatible("1", "0.4.1"),
        Err("Invalid go version format: 1".to_string())
    );
    assert_eq!(
        is_go_compatible("1.2.3.4", "0.4.1"),
        Err("Invalid go version format: 1.2.3.4".to_string())
    );
    assert_eq!(
        is_go_compatible("1.x", "0.4.1"),
        Err("Failed to parse version '1.x': unexpected character 'x' while parsing minor version number".to_string())
    );
}

#[test]
fn prerelease_of_the_minimum_is_too_old() {
    assert_eq!(is_go_compatible("1.21.0-rc1", "0.4.1"), Ok(false));
    assert_eq!(is_go_compatible("1.22.0-rc1", "0.4.1"), Ok(true));
}

#[test]
fn parse_go_version_moves_the_fields() {
    let v = parse_go_version("1.22").unwrap();
    assert_eq!((v.major, v.minor, v.patch), (1, 22, 0));
    assert_eq!(v.pre, "");
    assert_eq!(v.build, "");
    let v = parse_go_version("1.22.3-beta+build5").unwrap();
    assert_eq!((v.major, v.minor, v.patch), (1, 22, 3));
    assert_eq!(v.pre, "beta");
    assert_eq!(v.build, "build5");
}

#[test]
fn normalise_version_fills_up_to_three_numbers() {
    assert_eq!(normalise_version("1"), "1.0.0");
    assert_eq!(normalise_version("1.2"), "1.2.0");
    assert_eq!(normalise_version("1.2.3"), "1.2.3");
    assert_eq!(normalise_version("1.2.3.4"), "1.2.3.4");
    assert_eq!(normalise_version(""), ".0.0");
}

#[test]
fn within_range_follows_semver_precedence() {
    let min = release(1, 21, 0);
    let max = release(1, 23, 0);
    assert!(within_range(&release(1, 21, 0), &min, None));
    assert!(within_range(&release(2, 0, 0), &min, None));
    assert!(!within_range(&release(1, 20, 9), &min, None));
    assert!(within_range(&release(1, 23, 0), &min, Some(&max)));
    assert!(!within_range(&release(1, 23, 1), &min, Some(&max)));
    let mut rc = release(1, 21, 0);
    rc.pre = "rc.1".to_string();
    assert!(!within_range(&rc, &min, None));
    let mut rc2 = release(1, 21, 0);
    rc2.pre = "rc.2".to_string();
    assert!(within_range(&rc2, &rc, None));
    assert!(!within_range(&rc, &rc2, None));
}

#[test]
fn select_rule_takes_the_last_rule_that_applies() {
    let table = compat_rules();
    assert_eq!(table.len(), 1);
    assert!(select_rule(&table, &release(0, 0, 9)).is_none());
    assert_eq!(select_rule(&table, &release(0, 1, 0)).unwrap().min, "1.21");
    assert_eq!(select_rule(&table, &release(3, 0, 0)).unwrap().min, "1.21");
}

#[test]
fn compat_message_states_the_requirement() {
    assert_eq!(compat_message("0.4.1"), "sop 0.4.1 requires go 1.21 or later");
    assert_eq!(compat_message("v0.4.1"), "sop v0.4.1 requires go 1.21 or later");
    assert_eq!(compat_message("0.0.1"), "sop 0.0.1 has unknown go requirements");
}

#[test]
fn comes_before_follows_the_order_of_semver() {
    assert!(comes_before(&release(1, 9, 0), &release(1, 21, 0)));
    assert!(!comes_before(&release(1, 21, 0), &release(1, 9, 0)));
    assert!(!comes_before(&release(1, 21, 0), &release(1, 21, 0)));
    let mut alpha = release(1, 0, 0);
    alpha.pre = "alpha".to_string();
    let mut beta = release(1, 0, 0);
    beta.pre = "beta.2".to_string();
    let mut beta11 = release(1, 0, 0);
    beta11.pre = "beta.11".to_string();
    assert!(comes_before(&alpha, &beta));
    assert!(comes_before(&beta, &beta11));
    assert!(comes_before(&beta11, &release(1, 0, 0)));
    assert!(!comes_before(&release(1, 0, 0), &alpha));
    let mut built = release(1, 0, 0);
    built.build = "5".to_string();
    assert!(comes_before(&release(1, 0, 0), &built));
}

#[test]
fn identifiers_that_semver_refuses_leave_the_numbers_to_decide() {
    let mut odd = release(1, 21, 0);
    odd.pre = "not valid!".to_string();
    assert!(!comes_before(&odd, &release(1, 21, 0)));
    assert!(!comes_before(&release(1, 21, 0), &odd));
    assert!(comes_before(&odd, &release(1, 21, 1)));
    assert!(comes_before(&release(1, 20, 9), &odd));
    let mut empty_segment = release(1, 21, 0);
    empty_segment.build = "a..b".to_string();
    assert!(!comes_before(&empty_segment, &release(1, 21, 0)));
    assert!(within_range(&odd, &release(1, 21, 0), None));
}
