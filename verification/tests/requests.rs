//! Request construction and the exact JSON wire shape of both variants.

use pkg_build_remote::BuildParamType;
use pkg_build_remote::BuildParameter;
use pkg_build_remote::BuildParameters;
use pkg_build_remote::BuildRequest;
use pkg_build_remote::PackageBuildRequest;
use pkg_build_remote::Platform;
use pkg_build_remote::VcsSystem;

#[test]
fn build_request_can_build_req() {
    let req = BuildRequest::new(
        "houdini_submission",
        "5.4.0",
        "^",
        "http://dd-svn.d2.com/svn/software/packages/houdini_submission",
        &VcsSystem::from("svn"),
        &Platform::from("cent6"),
    );

    assert_eq!(
        req,
        Ok(BuildRequest {
            project: "houdini_submission".to_string(),
            version: "5.4.0".to_string(),
            flavor: "^".to_string(),
            scm_type: VcsSystem::Svn,
            repo: url::Url::parse("http://dd-svn.d2.com/svn/software/packages/houdini_submission")
                .unwrap()
                .to_string(),
            platform: Platform::Cent6,
        })
    )
}

#[test]
fn build_request_can_serialize_to_json() {
    let req = BuildRequest::new(
        "houdini_submission",
        "5.4.0",
        "^",
        "http://dd-svn.d2.com/svn/software/packages/houdini_submission",
        &VcsSystem::from("svn"),
        &Platform::from("cent6"),
    );
    let reqf = req.unwrap().to_build_params();
    let j = reqf.to_json();
    assert_eq!(
        j,
        "{\"parameter\":[{\"name\":\"project\",\"value\":\"houdini_submission\"},{\"name\":\"version\",\"value\":\"5.4.0\"},{\"name\":\"flavor\",\"value\":\"^\"},{\"name\":\"repo\",\"value\":\"http://dd-svn.d2.com/svn/software/packages/houdini_submission\"},{\"name\":\"scmType\",\"value\":\"svn\"},{\"name\":\"platform\",\"value\":\"cent6_64\"},{\"name\":\"upstream_workspace\",\"value\":\"\"}]}"
    );
}

#[test]
fn malformed_repo_fails_construction() {
    let req = BuildRequest::new(
        "houdini_submission",
        "5.4.0",
        "^",
        "not a url at all",
        &VcsSystem::Svn,
        &Platform::Cent6,
    );
    assert!(matches!(
        req,
        Err(pkg_build_remote::RemoteBuildError::ParseError(_))
    ));
}

#[test]
fn repo_url_is_normalized_by_parsing() {
    let req = BuildRequest::new(
        "pkg",
        "1.0.0",
        "^",
        "HTTP://Example.COM/Path",
        &VcsSystem::Git,
        &Platform::Cent7,
    )
    .unwrap();
    assert_eq!(req.repo, "http://example.com/Path");
}

#[test]
fn package_build_request_can_build_req() {
    let req = PackageBuildRequest::new("houdini_submission", "5.4.0");

    assert_eq!(
        req,
        PackageBuildRequest {
            project: "houdini_submission".to_string(),
            tag: "5.4.0".to_string(),
        }
    )
}

#[test]
fn package_build_request_can_serialize_to_json() {
    let req = PackageBuildRequest::new("houdini_submission", "5.4.0");
    let reqf = req.to_build_params();
    let j = reqf.to_json();
    assert_eq!(j, "{\"parameter\":[{\"name\":\"project\",\"value\":\"houdini_submission\"},{\"name\":\"tag\",\"value\":\"5.4.0\"}]}");
}

#[test]
fn serialized_values_reparse_to_the_original_strings() {
    let req = BuildRequest::new(
        "houdini_submission",
        "5.4.0",
        "^",
        "http://dd-svn.d2.com/svn/software/packages/houdini_submission",
        &VcsSystem::from("svn"),
        &Platform::from("cent6"),
    )
    .unwrap();
    let json = req.to_build_params().to_json();
    let parsed: serde_json::Value = serde_json::from_str(&json).unwrap();
    let items = parsed["parameter"].as_array().unwrap();
    let values: Vec<&str> = items.iter().map(|i| i["value"].as_str().unwrap()).collect();
    assert_eq!(
        values,
        vec![
            "houdini_submission",
            "5.4.0",
            "^",
            "http://dd-svn.d2.com/svn/software/packages/houdini_submission",
            "svn",
            "cent6_64",
            ""
        ]
    );
    let names: Vec<&str> = items.iter().map(|i| i["name"].as_str().unwrap()).collect();
    assert_eq!(
        names,
        vec![
            "project",
            "version",
            "flavor",
            "repo",
            "scmType",
            "platform",
            "upstream_workspace"
        ]
    );
}

#[test]
fn escaped_values_survive_the_round_trip() {
    let mut params = BuildParameters::new();
    params.push(BuildParameter::new(
        "weird",
        BuildParamType::String("a\"b\\c\nd\u{1}e".to_string()),
    ));
    let json = params.to_json();
    let parsed: serde_json::Value = serde_json::from_str(&json).unwrap();
    assert_eq!(
        parsed["parameter"][0]["value"].as_str().unwrap(),
        "a\"b\\c\nd\u{1}e"
    );
}

#[test]
fn unknown_values_serialize_with_their_original_spelling() {
    let mut params = BuildParameters::new();
    params.push(BuildParameter::new(
        "platform",
        BuildParamType::Platform(Platform::from("irix")),
    ));
    params.push(BuildParameter::new(
        "scmType",
        BuildParamType::Vcs(VcsSystem::from("cvs")),
    ));
    let json = params.to_json();
    assert_eq!(
        json,
        "{\"parameter\":[{\"name\":\"platform\",\"value\":\"unknown(irix)\"},{\"name\":\"scmType\",\"value\":\"unknown(cvs)\"}]}"
    );
}
