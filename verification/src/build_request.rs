//! The "full" build-request shape: project, version, flavor, repository URL,
//! VCS kind and platform, converted to the ordered parameter list the build
//! server's distribution pipeline expects.

use vstd::prelude::*;
use vstd::string::StringExecFns;

use crate::build_param_type::{param_wire, BuildParamType, BuildParamTypeView};
use crate::build_parameter::{param_json, params_json};
use crate::build_parameter::{BuildParameter, BuildParameterView, BuildParameters};
use crate::errors::RemoteBuildError;
use crate::jsonenc::{esc, lemma_esc_plain, plain_char};
use crate::minifest::Minifest;
use crate::platform::{platform_wire, Platform, PlatformView};
use crate::strutil::{join_commas_spec, lemma_join_commas_snoc};
use crate::vcs_system::{vcs_wire, VcsSystem, VcsSystemView};
use crate::wire::{parse_url, url_parsed};

verus! {

/// The user-facing request object for one (platform, flavor) combination. It
/// is converted to a [`BuildParameters`] list to serialize the actual build
/// request POST.
#[derive(Debug, PartialEq)]
pub struct BuildRequest {
    /// Name of the package.
    pub project: String,
    /// Version of the package, corresponding to an extant tag in the VCS the
    /// package is stored in.
    pub version: String,
    /// Package flavor; `^` is vanilla.
    pub flavor: String,
    /// The package's repository URL, in the serialization of the parsed URL.
    pub repo: String,
    /// The version control system that the package is stored in.
    pub scm_type: VcsSystem,
    /// The OS that the package is to be built for.
    pub platform: Platform,
}

/// The mathematical shadow of [`BuildRequest`].
pub struct BuildRequestView {
    pub project: Seq<char>,
    pub version: Seq<char>,
    pub flavor: Seq<char>,
    pub repo: Seq<char>,
    pub scm_type: VcsSystemView,
    pub platform: PlatformView,
}

impl View for BuildRequest {
    type V = BuildRequestView;

    open spec fn view(&self) -> BuildRequestView {
        BuildRequestView {
            project: self.project@,
            version: self.version@,
            flavor: self.flavor@,
            repo: self.repo@,
            scm_type: self.scm_type@,
            platform: self.platform@,
        }
    }
}

impl DeepView for BuildRequest {
    type V = BuildRequestView;

    open spec fn deep_view(&self) -> BuildRequestView {
        self.view()
    }
}

/// The request that construction yields from the given inputs: defined
/// exactly when the repo string parses as a URL, whose serialization is then
/// stored.
pub open spec fn request_of(
    project: Seq<char>,
    version: Seq<char>,
    flavor: Seq<char>,
    repo: Seq<char>,
    scm: VcsSystemView,
    platform: PlatformView,
) -> Option<BuildRequestView> {
    match url_parsed(repo) {
        Some(u) => Some(
            BuildRequestView { project, version, flavor, repo: u, scm_type: scm, platform },
        ),
        None => None,
    }
}

/// The exact ordered parameter list of a distribution request: project,
/// version, flavor, repo, scmType, platform, and the always-empty
/// `upstream_workspace` placeholder a downstream consumer expects. The key
/// for the VCS kind is spelled `scmType`, with a lower-case first letter:
/// that exact casing is what the server's pipeline matches on.
pub open spec fn dist_params(b: BuildRequestView) -> Seq<BuildParameterView> {
    seq![
        BuildParameterView { name: "project"@, value: BuildParamTypeView::String(b.project) },
        BuildParameterView { name: "version"@, value: BuildParamTypeView::String(b.version) },
        BuildParameterView { name: "flavor"@, value: BuildParamTypeView::String(b.flavor) },
        BuildParameterView { name: "repo"@, value: BuildParamTypeView::Url(b.repo) },
        BuildParameterView { name: "scmType"@, value: BuildParamTypeView::Vcs(b.scm_type) },
        BuildParameterView { name: "platform"@, value: BuildParamTypeView::Platform(b.platform) },
        BuildParameterView {
            name: "upstream_workspace"@,
            value: BuildParamTypeView::String(Seq::<char>::empty()),
        },
    ]
}

/// The full JSON document of a distribution request, written out: the
/// seven-key ordered shape, with `upstream_workspace` always the empty
/// string.
pub open spec fn distribution_json(b: BuildRequestView) -> Seq<char> {
    "{\"parameter\":[{\"name\":\"project\",\"value\":\""@ + esc(b.project)
        + "\"},{\"name\":\"version\",\"value\":\""@ + esc(b.version)
        + "\"},{\"name\":\"flavor\",\"value\":\""@ + esc(b.flavor)
        + "\"},{\"name\":\"repo\",\"value\":\""@ + esc(b.repo)
        + "\"},{\"name\":\"scmType\",\"value\":\""@ + esc(vcs_wire(b.scm_type))
        + "\"},{\"name\":\"platform\",\"value\":\""@ + esc(platform_wire(b.platform))
        + "\"},{\"name\":\"upstream_workspace\",\"value\":\"\"}]}"@
}

/// A parameter name is plain text as far as JSON escaping goes.
proof fn lemma_name_escapes_to_itself(s: Seq<char>)
    requires
        forall|k: int| 0 <= k < s.len() ==> plain_char(#[trigger] s[k]),
    ensures
        esc(s) == s,
{
    lemma_esc_plain(s);
}

/// For every distribution request, the serialized parameter list is exactly
/// the documented seven-key JSON shape, in its documented order, with
/// `upstream_workspace` always the empty string.
#[verifier::rlimit(80)]
pub proof fn lemma_distribution_wire_shape(b: BuildRequestView)
    ensures
        params_json(dist_params(b)) == distribution_json(b),
{
    let ps = dist_params(b);
    let m = ps.map_values(|p: BuildParameterView| param_json(p));
    reveal_strlit("project");
    reveal_strlit("version");
    reveal_strlit("flavor");
    reveal_strlit("repo");
    reveal_strlit("scmType");
    reveal_strlit("platform");
    reveal_strlit("upstream_workspace");
    lemma_name_escapes_to_itself("project"@);
    lemma_name_escapes_to_itself("version"@);
    lemma_name_escapes_to_itself("flavor"@);
    lemma_name_escapes_to_itself("repo"@);
    lemma_name_escapes_to_itself("scmType"@);
    lemma_name_escapes_to_itself("platform"@);
    lemma_name_escapes_to_itself("upstream_workspace"@);
    reveal_strlit("{\"name\":\"");
    reveal_strlit("\",\"value\":\"");
    reveal_strlit("\"}");
    reveal_strlit("{\"name\":\"project\",\"value\":\"");
    reveal_strlit("{\"name\":\"version\",\"value\":\"");
    reveal_strlit("{\"name\":\"flavor\",\"value\":\"");
    reveal_strlit("{\"name\":\"repo\",\"value\":\"");
    reveal_strlit("{\"name\":\"scmType\",\"value\":\"");
    reveal_strlit("{\"name\":\"platform\",\"value\":\"");
    reveal_strlit("{\"name\":\"upstream_workspace\",\"value\":\"");
    assert(esc(Seq::<char>::empty()) =~= Seq::<char>::empty());
    assert(m.len() == 7);
    assert(m[0] =~= "{\"name\":\"project\",\"value\":\""@ + esc(b.project) + "\"}"@);
    assert(m[1] =~= "{\"name\":\"version\",\"value\":\""@ + esc(b.version) + "\"}"@);
    assert(m[2] =~= "{\"name\":\"flavor\",\"value\":\""@ + esc(b.flavor) + "\"}"@);
    assert(m[3] =~= "{\"name\":\"repo\",\"value\":\""@ + esc(b.repo) + "\"}"@);
    assert(m[4] =~= "{\"name\":\"scmType\",\"value\":\""@ + esc(vcs_wire(b.scm_type)) + "\"}"@);
    assert(m[5] =~= "{\"name\":\"platform\",\"value\":\""@ + esc(platform_wire(b.platform))
        + "\"}"@);
    assert(m[6] =~= "{\"name\":\"upstream_workspace\",\"value\":\""@ + "\"}"@);
    let s0 = seq![m[0]];
    assert(join_commas_spec(s0) == m[0]);
    lemma_join_commas_snoc(s0, m[1]);
    let s1 = s0.push(m[1]);
    lemma_join_commas_snoc(s1, m[2]);
    let s2 = s1.push(m[2]);
    lemma_join_commas_snoc(s2, m[3]);
    let s3 = s2.push(m[3]);
    lemma_join_commas_snoc(s3, m[4]);
    let s4 = s3.push(m[4]);
    lemma_join_commas_snoc(s4, m[5]);
    let s5 = s4.push(m[5]);
    lemma_join_commas_snoc(s5, m[6]);
    let s6 = s5.push(m[6]);
    assert(s6 =~= m);
    reveal_strlit("{\"parameter\":[");
    reveal_strlit("]}");
    reveal_strlit("{\"parameter\":[{\"name\":\"project\",\"value\":\"");
    reveal_strlit("\"},{\"name\":\"version\",\"value\":\"");
    reveal_strlit("\"},{\"name\":\"flavor\",\"value\":\"");
    reveal_strlit("\"},{\"name\":\"repo\",\"value\":\"");
    reveal_strlit("\"},{\"name\":\"scmType\",\"value\":\"");
    reveal_strlit("\"},{\"name\":\"platform\",\"value\":\"");
    reveal_strlit("\"},{\"name\":\"upstream_workspace\",\"value\":\"\"}]}");
    assert(params_json(ps) =~= distribution_json(b));
}

impl BuildRequest {
    /// Generate a new request. The repo string must parse as a URL; a
    /// malformed one fails the construction with a parse error, and no
    /// partially built request is observable.
    pub fn new(
        project: &str,
        version: &str,
        flavor: &str,
        repo: &str,
        scm_type: &VcsSystem,
        platform: &Platform,
    ) -> (r: Result<BuildRequest, RemoteBuildError>)
        ensures
            match r {
                Ok(b) => request_of(project@, version@, flavor@, repo@, scm_type@, platform@)
                    == Some(b@),
                Err(e) => url_parsed(repo@) is None && e is ParseError,
            },
    {
        match parse_url(repo) {
            Some(u) => Ok(
                BuildRequest {
                    project: project.to_owned(),
                    version: version.to_owned(),
                    flavor: flavor.to_owned(),
                    repo: u,
                    scm_type: VcsSystem::from(scm_type),
                    platform: Platform::from(platform),
                },
            ),
            None => {
                let mut msg = "relative URL without a base or malformed URL: ".to_owned();
                msg.append(repo);
                Err(RemoteBuildError::ParseError(msg))
            },
        }
    }

    /// Emit the parameter list of this request: the seven parameters, in
    /// their documented order, with `upstream_workspace` always empty.
    pub fn to_build_params(&self) -> (r: BuildParameters)
        ensures
            r@ == dist_params(self@),
    {
        let mut params = BuildParameters::new();
        let project = BuildParameter::new("project", BuildParamType::String(self.project.clone()));
        let version = BuildParameter::new("version", BuildParamType::String(self.version.clone()));
        let flavor = BuildParameter::new("flavor", BuildParamType::String(self.flavor.clone()));
        let repo = BuildParameter::new("repo", BuildParamType::Url(self.repo.clone()));
        let scm_type = BuildParameter::new(
            "scmType",
            BuildParamType::Vcs(VcsSystem::from(&self.scm_type)),
        );
        let platform = BuildParameter::new(
            "platform",
            BuildParamType::Platform(Platform::from(&self.platform)),
        );
        // upstream_workspace is not read by the pipeline; it is kept, empty,
        // for wire compatibility with a downstream consumer.
        let upstream_workspace = BuildParameter::new(
            "upstream_workspace",
            BuildParamType::String(String::new()),
        );
        params.push(project);
        params.push(version);
        params.push(flavor);
        params.push(repo);
        params.push(scm_type);
        params.push(platform);
        params.push(upstream_workspace);
        proof {
            assert(params@ =~= dist_params(self@));
        }
        params
    }

    /// Construct one request per flavor, holding project identity, repo, VCS
    /// kind and platform fixed. The batch fails atomically: with at least one
    /// flavor and a malformed repo, no partial list is returned.
    pub fn build_requests(
        minifest: &Minifest,
        repo: &str,
        scm_type: &VcsSystem,
        platform: &Platform,
        flavors: &Vec<String>,
    ) -> (r: Result<Vec<BuildRequest>, RemoteBuildError>)
        ensures
            match r {
                Ok(v) => {
                    &&& v.len() == flavors.len()
                    &&& flavors.len() > 0 ==> url_parsed(repo@) is Some
                    &&& forall|j: int|
                        0 <= j < flavors.len() ==> v.deep_view()[j] == request_of(
                            minifest.name@,
                            minifest.version@,
                            flavors.deep_view()[j],
                            repo@,
                            scm_type@,
                            platform@,
                        )->Some_0
                },
                Err(_) => flavors.len() > 0 && url_parsed(repo@) is None,
            },
    {
        let mut build_reqs: Vec<BuildRequest> = Vec::new();
        let mut i: usize = 0;
        while i < flavors.len()
            invariant
                i <= flavors.len(),
                build_reqs.len() == i,
                i > 0 ==> url_parsed(repo@) is Some,
                forall|j: int|
                    0 <= j < i ==> build_reqs.deep_view()[j] == request_of(
                        minifest.name@,
                        minifest.version@,
                        flavors.deep_view()[j],
                        repo@,
                        scm_type@,
                        platform@,
                    )->Some_0,
            decreases flavors.len() - i,
        {
            let build_request = match BuildRequest::new(
                minifest.name.as_str(),
                minifest.version.as_str(),
                flavors[i].as_str(),
                repo,
                scm_type,
                platform,
            ) {
                Ok(b) => b,
                Err(e) => {
                    return Err(e);
                },
            };
            let ghost pre = build_reqs.deep_view();
            let ghost bv = build_request@;
            build_reqs.push(build_request);
            proof {
                assert(build_reqs.deep_view() =~= pre.push(bv));
            }
            i += 1;
        }
        Ok(build_reqs)
    }
}

} // verus!
