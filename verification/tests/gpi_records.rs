//! Package-index record types: package types, source statuses, sources,
//! records and the name-keyed record set.

use pkg_build_remote::gpi::GpiRecords;
use pkg_build_remote::gpi::PackageType;
use pkg_build_remote::gpi::Record;
use pkg_build_remote::gpi::Source;
use pkg_build_remote::gpi::SourceStatus;

#[test]
fn can_construct_package_type_from_string() {
    for p in &[
        "port",
        "Port",
        "source",
        "Source",
        "commercial",
        "Commercial",
        "comm",
    ] {
        let pt = PackageType::from_str(p);
        assert!(pt.is_ok());
    }
}

#[test]
fn can_construct_source_status_from_str() {
    for s in &["active", "retired"] {
        let stat: SourceStatus = (*s).into();
        assert!(stat.is_valid());
    }
}

#[test]
fn can_catch_invalid_source_status() {
    let stat: SourceStatus = "flargyblargy".into();
    assert!(!stat.is_valid());
}

#[test]
fn can_construct_source_form_strs() {
    let src = Source::new(false, "http://pd-git.d2.com/fla", "active", "1.2.3", "git");
    assert!(src.is_valid());
}

#[test]
fn can_catch_invalid_source() {
    let expect = Source::new(false, "foo", "active", "foo", "gitt");
    assert!(!expect.is_valid());
    let expect = Source::new(false, "foo", "blarney", "foo", "git");
    assert!(!expect.is_valid());
}

#[test]
fn can_catch_invalid_record_if_package_type_is_invalid() {
    let record = Record::new("bla");
    assert!(!record.is_valid());
    for value in &["port", "source", "commercial"] {
        let record = Record::new(*value);
        assert!(record.is_valid());
    }
}

#[test]
fn can_catch_invalid_record_if_source_is_invalid() {
    let mut record = Record::new("port");
    record.add_source(Source::new(false, "foo", "active", "foo", "git"));
    record.add_source(Source::new(false, "foo", "blarney", "foo", "git"));
    assert!(!record.is_valid());
}

#[test]
fn can_access_record_by_index() {
    let mut record = Record::new("port");
    record.add_source(Source::new(false, "bla", "active", "bla", "svn"));
    record.add_source(Source::new(false, "foo", "active", "foo", "git"));
    let expect = Source::new(false, "foo", "active", "foo", "git");
    assert_eq!(&expect, record.get(1).unwrap());
    assert!(record.get(1).unwrap().is_valid());
}

#[test]
fn record_set_keeps_records_by_name() {
    let mut records = GpiRecords::new();
    assert_eq!(records.len(), 0);
    let mut animtools = Record::new("source");
    animtools.add_source(Source::new(
        false,
        "ssh://git@dd-git.d2.com:2224/domains/animation/animtools.git",
        "active",
        "%",
        "git",
    ));
    records.insert("animtools".to_string(), animtools);
    assert_eq!(records.len(), 1);
    assert!(records.has("animtools"));
    assert!(!records.has("packalaka"));
    let record = records.get("animtools");
    assert!(record.is_some());
    assert!(record.unwrap().is_valid());
    assert!(records.get("packalaka").is_none());
}

#[test]
fn invalid_package_type_spelling_is_reported() {
    let err = PackageType::from_str("prot");
    assert!(err.is_err());
}
