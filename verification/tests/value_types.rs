//! Platform and VCS-system parsing and stringification.

use pkg_build_remote::Platform;
use pkg_build_remote::VcsSystem;

#[test]
fn can_build_platform_from_platform_reference() {
    let tests = &[Platform::Cent6, Platform::Cent7];
    tests.iter().for_each(|test| {
        assert_eq!(Platform::from(test), test.clone());
    });
}

#[test]
fn can_convert_from_str() {
    let tests = &["cent6_64", "cent6", "Cent6", "cent7_64", "cent7", "Cent7"];

    let expected = &[
        Platform::Cent6,
        Platform::Cent6,
        Platform::Cent6,
        Platform::Cent7,
        Platform::Cent7,
        Platform::Cent7,
    ];

    tests.iter().enumerate().for_each(|(cnt, test)| {
        assert_eq!(Platform::from(*test), expected[cnt]);
    });
}

#[test]
fn platform_can_convert_to_string() {
    let tests = &[Platform::Cent6, Platform::Cent7];
    let expected = &["cent6_64", "cent7_64"];
    tests.iter().enumerate().for_each(|(cnt, test)| {
        assert_eq!(test.to_string().as_str(), expected[cnt]);
    });
}

#[test]
fn can_build_from_str_regardless_of_case() {
    let tests = &[
        "git",
        "GiT",
        "svn",
        "SVn",
        "mercurial",
        "MercUrial",
        "perforce",
        "Perforce",
        "foo",
    ];
    let expected = &[
        VcsSystem::Git,
        VcsSystem::Git,
        VcsSystem::Svn,
        VcsSystem::Svn,
        VcsSystem::Mercurial,
        VcsSystem::Mercurial,
        VcsSystem::Perforce,
        VcsSystem::Perforce,
        VcsSystem::Unknown("foo".to_string()),
    ];

    tests.iter().enumerate().for_each(|(cnt, test)| {
        assert_eq!(VcsSystem::from(*test), expected[cnt]);
    });
}

#[test]
fn vcs_system_can_convert_to_string() {
    let tests = &[
        VcsSystem::Git,
        VcsSystem::Svn,
        VcsSystem::Mercurial,
        VcsSystem::Perforce,
        VcsSystem::Unknown("Foo".to_string()),
    ];
    let expected = &["git", "svn", "mercurial", "perforce", "unknown(Foo)"];
    tests.iter().enumerate().for_each(|(cnt, test)| {
        assert_eq!(test.to_string().as_str(), expected[cnt]);
    });
}

#[test]
fn can_build_from_vcssystem_reference() {
    let tests = &[
        VcsSystem::Git,
        VcsSystem::Svn,
        VcsSystem::Mercurial,
        VcsSystem::Perforce,
        VcsSystem::Unknown("Foo".to_string()),
    ];

    tests.iter().for_each(|test| {
        assert_eq!(VcsSystem::from(test), test.clone());
    });
}

#[test]
fn platform_parsing_ignores_case_and_accepts_canonical_names() {
    assert_eq!(Platform::from("CENT7"), Platform::Cent7);
    assert_eq!(Platform::from("cent7"), Platform::Cent7);
    assert_eq!(Platform::from("cent7_64"), Platform::Cent7);
    assert_eq!(
        Platform::from("BoGus"),
        Platform::Unknown("BoGus".to_string())
    );
}

#[test]
fn batch_platform_parsing_drops_unknown_entries() {
    let parsed = Platform::parse_platforms("cent7,bogus,cent6");
    assert_eq!(parsed, vec![Platform::Cent7, Platform::Cent6]);
}

#[test]
fn batch_platform_parsing_trims_whitespace() {
    let parsed = Platform::parse_platforms(" cent6 , CENT7 ");
    assert_eq!(parsed, vec![Platform::Cent6, Platform::Cent7]);
}

#[test]
fn identify_vcs_prefers_explicit_selection() {
    assert_eq!(
        VcsSystem::identify_vcs(&Some("git".to_string()), false, true),
        Ok(VcsSystem::Git)
    );
    assert!(VcsSystem::identify_vcs(&Some("cvs".to_string()), true, true).is_err());
    assert_eq!(
        VcsSystem::identify_vcs(&None, true, false),
        Ok(VcsSystem::Git)
    );
    assert_eq!(
        VcsSystem::identify_vcs(&None, false, true),
        Ok(VcsSystem::Svn)
    );
    assert!(VcsSystem::identify_vcs(&None, false, false).is_err());
}
