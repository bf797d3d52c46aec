use sopmod::error::InstallError;
use sopmod::resolve::{
    needs_network, resolve_go_version, resolve_latest_go, resolve_latest_sop,
    resolve_sop_version, GoRelease, VersionSpecifier,
};

fn release(version: &str, stable: bool) -> GoRelease {
    GoRelease { version: version.to_string(), stable }
}

fn feed() -> Vec<GoRelease> {
    vec![
        release("go1.23rc1", false),
        release("go1.22.1", true),
        release("go1.22.0", true),
        release("go1.21.8", true),
    ]
}

#[test]
fn exact_versions_stand_for_themselves() {
    for version in ["1.22.0", "0.4.1", "1.21.13", "10.0.0"] {
        assert!(!needs_network(version));
        assert_eq!(resolve_go_version(version, &feed()).unwrap(), version);
        assert_eq!(resolve_go_version(version, &Vec::new()).unwrap(), version);
        assert_eq!(resolve_sop_version(version, "v9.9.9").unwrap(), version);
    }
}

#[test]
fn partial_version_takes_the_first_match_in_feed_order() {
    let index = vec![release("1.22.1", true), release("1.22.0", true), release("1.23.0", true)];
    assert_eq!(resolve_go_version("1.22", &index).unwrap(), "1.22.1");
    let index = vec![release("1.22.0", true), release("1.22.1", true), release("1.23.0", true)];
    assert_eq!(resolve_go_version("1.22", &index).unwrap(), "1.22.0");
}

#[test]
fn partial_version_reads_the_names_of_the_feed() {
    assert_eq!(resolve_go_version("1.22", &feed()).unwrap(), "1.22.1");
    assert_eq!(resolve_go_version("1.21", &feed()).unwrap(), "1.21.8");
}

#[test]
fn partial_version_passes_over_unstable_releases() {
    let index = vec![release("go1.23rc1", false), release("go1.23.0", false), release("go1.23.1", true)];
    assert_eq!(resolve_go_version("1.23", &index).unwrap(), "1.23.1");
}

#[test]
fn partial_version_without_a_release_is_not_found() {
    match resolve_go_version("1.20", &feed()) {
        Err(InstallError::VersionNotFound(detail)) => assert_eq!(detail, "1.20"),
        other => panic!("unexpected: {:?}", other),
    }
    match resolve_go_version("1.23", &feed()) {
        Err(InstallError::VersionNotFound(detail)) => assert_eq!(detail, "1.23"),
        other => panic!("unexpected: {:?}", other),
    }
}

#[test]
fn latest_is_the_first_stable_release() {
    assert_eq!(resolve_latest_go(&feed()).unwrap(), "1.22.1");
    assert_eq!(resolve_go_version("latest", &feed()).unwrap(), "1.22.1");
    let index = vec![release("go1.21.0", true), release("go1.22.0", true)];
    assert_eq!(resolve_latest_go(&index).unwrap(), "1.21.0");
}

#[test]
fn latest_without_a_stable_release_is_not_found() {
    for index in [Vec::new(), vec![release("go1.23rc1", false)]] {
        match resolve_latest_go(&index) {
            Err(InstallError::VersionNotFound(detail)) => assert_eq!(detail, "latest"),
            other => panic!("unexpected: {:?}", other),
        }
        match resolve_go_version("latest", &index) {
            Err(InstallError::VersionNotFound(detail)) => assert_eq!(detail, "latest"),
            other => panic!("unexpected: {:?}", other),
        }
    }
}

#[test]
fn sop_versions_are_resolved_from_the_latest_tag() {
    assert_eq!(resolve_latest_sop("v0.4.1"), "0.4.1");
    assert_eq!(resolve_latest_sop("0.4.1"), "0.4.1");
    assert_eq!(resolve_latest_sop("vv1"), "v1");
    assert_eq!(resolve_sop_version("latest", "v0.4.1").unwrap(), "0.4.1");
    assert_eq!(resolve_sop_version("0.3.0", "v0.4.1").unwrap(), "0.3.0");
    assert_eq!(resolve_sop_version("0.4", "v0.4.1").unwrap(), "0.4.1");
    match resolve_sop_version("0.3", "v0.4.1") {
        Err(InstallError::VersionNotFound(detail)) => assert_eq!(detail, "0.3"),
        other => panic!("unexpected: {:?}", other),
    }
}

#[test]
fn specifiers_are_told_apart() {
    assert!(matches!(VersionSpecifier::parse("latest"), VersionSpecifier::Latest));
    assert!(matches!(VersionSpecifier::parse("1.22"), VersionSpecifier::Partial(p) if p == "1.22"));
    assert!(matches!(VersionSpecifier::parse("1.22.0"), VersionSpecifier::Exact(e) if e == "1.22.0"));
    assert!(matches!(VersionSpecifier::parse("1"), VersionSpecifier::Exact(e) if e == "1"));
    assert!(matches!(VersionSpecifier::parse("Latest"), VersionSpecifier::Exact(_)));
    assert!(needs_network("latest"));
    assert!(needs_network("1.22"));
    assert!(needs_network("0.4"));
    assert!(!needs_network("1"));
    assert!(!needs_network("1.2.3.4"));
}
