//! The two user-facing request variants and the expansion of resolved inputs
//! into the concrete, ordered sequence of requests to dispatch.

use vstd::prelude::*;

use crate::build_request::{request_of, BuildRequest};
use crate::build_request::BuildRequestView;
use crate::build_server::{request_body_str, server_url_str, BuildServer, BuildServerView};
use crate::build_server::{package_route, PreparedRequest, PreparedRequestView};
use crate::constants::BUILD_ROUTE;
use crate::errors::RemoteBuildError;
use crate::flavor::Flavours;
use crate::minifest::Minifest;
use crate::package_build_request::{PackageBuildRequest, PackageBuildRequestView};
use crate::platform::{parse_platforms_spec, Platform, PlatformView};
use crate::strutil::split_trim_spec;
use crate::vcs_system::{VcsSystem, VcsSystemView};
use crate::wire::url_parsed;

verus! {

/// The build variants: the two potential routes to trigger a build.
#[derive(Debug, PartialEq)]
pub enum UserBuildRequest {
    Distribution(BuildRequest),
    Package(PackageBuildRequest),
}

/// The mathematical shadow of [`UserBuildRequest`].
pub enum UserBuildRequestView {
    Distribution(BuildRequestView),
    Package(PackageBuildRequestView),
}

impl View for UserBuildRequest {
    type V = UserBuildRequestView;

    open spec fn view(&self) -> UserBuildRequestView {
        match self {
            UserBuildRequest::Distribution(d) => UserBuildRequestView::Distribution(d@),
            UserBuildRequest::Package(p) => UserBuildRequestView::Package(p@),
        }
    }
}

impl UserBuildRequest {
    /// Whether this is the distribution variant.
    pub fn is_distribution(&self) -> (r: bool)
        ensures
            r == (self@ is Distribution),
    {
        match self {
            UserBuildRequest::Distribution(_) => true,
            _ => false,
        }
    }

    /// Whether this is the package variant.
    pub fn is_package(&self) -> (r: bool)
        ensures
            r == (self@ is Package),
    {
        match self {
            UserBuildRequest::Package(_) => true,
            _ => false,
        }
    }
}

/// Everything one invocation resolved to: the POSTs to perform, in dispatch
/// order, and whether they are to be sent at all (`send` is false exactly on
/// a dry run, which must never reach the transport).
#[derive(Debug, PartialEq)]
pub struct BuildPlan {
    pub requests: Vec<PreparedRequest>,
    pub send: bool,
}

/// The POST that the distribution pipeline receives for one fully resolved
/// (platform, flavor) combination.
pub open spec fn prepared_distribution(
    s: BuildServerView,
    name: Seq<char>,
    version: Seq<char>,
    flavor: Seq<char>,
    repo: Seq<char>,
    vcs: VcsSystemView,
    platform: PlatformView,
) -> PreparedRequestView {
    PreparedRequestView {
        route: url_parsed(server_url_str(s, BUILD_ROUTE@))->Some_0,
        body: request_body_str(
            UserBuildRequestView::Distribution(
                request_of(name, version, flavor, repo, vcs, platform)->Some_0,
            ),
        ),
    }
}

/// What a distribution plan must look like: one request per (platform,
/// flavor) pair of the Cartesian product, platforms in the outer position,
/// flavors in the inner one, and dispatch suppressed exactly on a dry run.
pub open spec fn plan_is_distribution(
    plan: &BuildPlan,
    s: BuildServerView,
    name: Seq<char>,
    version: Seq<char>,
    repo: Seq<char>,
    vcs: VcsSystemView,
    platforms: Seq<char>,
    flavors: Seq<char>,
    dry_run: bool,
) -> bool {
    let plats = parse_platforms_spec(platforms);
    let flavs = split_trim_spec(flavors);
    &&& plan.send == !dry_run
    &&& plan.requests.len() == plats.len() * flavs.len()
    &&& forall|i: int, j: int|
        0 <= i < plats.len() && 0 <= j < flavs.len() ==> plan.requests.deep_view()[i * flavs.len()
            + j] == prepared_distribution(s, name, version, flavs[j], repo, vcs, plats[i])
}

/// What a package plan must look like: the single POST of the per-package
/// route, and dispatch suppressed exactly on a dry run.
pub open spec fn plan_is_package(
    plan: &BuildPlan,
    s: BuildServerView,
    name: Seq<char>,
    tag: Seq<char>,
    dry_run: bool,
) -> bool {
    &&& plan.send == !dry_run
    &&& plan.requests.len() == 1
    &&& plan.requests.deep_view()[0] == PreparedRequestView {
        route: url_parsed(server_url_str(s, package_route(name, tag)))->Some_0,
        body: request_body_str(
            UserBuildRequestView::Package(PackageBuildRequestView { project: name, tag }),
        ),
    }
}

/// Resolve a distribution build: parse the platform list (failing when no
/// valid platform remains), parse the flavor list, and expand one prepared
/// request per (platform, flavor) pair, platforms outer, flavors inner.
pub fn request_build_for(
    build_server: &BuildServer,
    name: &str,
    version: &str,
    vcs_project_url: &str,
    vcs: &VcsSystem,
    platforms: &str,
    flavors: &str,
    dry_run: bool,
) -> (r: Result<BuildPlan, RemoteBuildError>)
    ensures
        match r {
            Ok(plan) => {
                &&& parse_platforms_spec(platforms@).len() > 0
                &&& url_parsed(vcs_project_url@) is Some
                &&& url_parsed(server_url_str(build_server@, BUILD_ROUTE@)) is Some
                &&& plan_is_distribution(
                    &plan,
                    build_server@,
                    name@,
                    version@,
                    vcs_project_url@,
                    vcs@,
                    platforms@,
                    flavors@,
                    dry_run,
                )
            },
            Err(_) => parse_platforms_spec(platforms@).len() == 0 || url_parsed(
                vcs_project_url@,
            ) is None || url_parsed(server_url_str(build_server@, BUILD_ROUTE@)) is None,
        },
{
    let platform_list = Platform::parse_platforms(platforms);
    if platform_list.len() == 0 {
        return Err(
            RemoteBuildError::EmptyError("no valid platform among the requested ones".to_owned()),
        );
    }
    let flavor_list = Flavours::parse_flavors(flavors);
    let minifest = Minifest::new(name, version);
    let ghost plats = parse_platforms_spec(platforms@);
    let ghost flavs = split_trim_spec(flavors@);
    let ghost np = plats.len() as int;
    let ghost nf = flavs.len() as int;
    let mut requests: Vec<PreparedRequest> = Vec::new();
    let mut i: usize = 0;
    proof {
        assert(requests.deep_view() =~= Seq::<PreparedRequestView>::empty());
    }
    while i < platform_list.len()
        invariant
            i <= platform_list.len(),
            platform_list.deep_view() == plats,
            platform_list.len() == np,
            flavor_list.deep_view() == flavs,
            flavor_list.len() == nf,
            nf > 0,
            minifest.name@ == name@,
            minifest.version@ == version@,
            requests.len() == i * nf,
            i > 0 ==> url_parsed(vcs_project_url@) is Some,
            i > 0 ==> url_parsed(server_url_str(build_server@, BUILD_ROUTE@)) is Some,
            forall|a: int, b: int|
                0 <= a < i && 0 <= b < nf ==> requests.deep_view()[a * nf + b]
                    == prepared_distribution(
                    build_server@,
                    name@,
                    version@,
                    flavs[b],
                    vcs_project_url@,
                    vcs@,
                    plats[a],
                ),
        decreases platform_list.len() - i,
    {
        let mut build_reqs = match BuildRequest::build_requests(
            &minifest,
            vcs_project_url,
            vcs,
            &platform_list[i],
            &flavor_list,
        ) {
            Ok(v) => v,
            Err(e) => {
                return Err(e);
            },
        };
        let ghost row = build_reqs.deep_view();
        let mut j: usize = 0;
        while j < flavor_list.len()
            invariant
                0 <= i < platform_list.len(),
                j <= nf,
                platform_list.deep_view() == plats,
                platform_list.len() == np,
                flavor_list.deep_view() == flavs,
                flavor_list.len() == nf,
                nf > 0,
                url_parsed(vcs_project_url@) is Some,
                row.len() == nf,
                forall|k: int|
                    0 <= k < nf ==> row[k] == request_of(
                        name@,
                        version@,
                        flavs[k],
                        vcs_project_url@,
                        vcs@,
                        plats[i as int],
                    )->Some_0,
                build_reqs.len() == nf - j,
                build_reqs.deep_view() =~= row.subrange(j as int, nf),
                requests.len() == i * nf + j,
                j > 0 ==> url_parsed(server_url_str(build_server@, BUILD_ROUTE@)) is Some,
                i > 0 ==> url_parsed(server_url_str(build_server@, BUILD_ROUTE@)) is Some,
                forall|a: int, b: int|
                    0 <= a < i && 0 <= b < nf ==> requests.deep_view()[a * nf + b]
                        == prepared_distribution(
                        build_server@,
                        name@,
                        version@,
                        flavs[b],
                        vcs_project_url@,
                        vcs@,
                        plats[a],
                    ),
                forall|b: int|
                    0 <= b < j ==> requests.deep_view()[i as int * nf + b]
                        == prepared_distribution(
                        build_server@,
                        name@,
                        version@,
                        flavs[b],
                        vcs_project_url@,
                        vcs@,
                        plats[i as int],
                    ),
            decreases nf - j,
        {
            let ghost rem = build_reqs.deep_view();
            proof {
                assert(rem[0] == build_reqs@[0].deep_view());
            }
            let br = build_reqs.remove(0);
            proof {
                assert(br@ == rem[0]);
                assert(build_reqs.deep_view() =~= rem.drop_first());
                assert(rem.drop_first() =~= row.subrange(j + 1, nf));
            }
            let user_req = UserBuildRequest::Distribution(br);
            let prepared = match build_server.prepare_request(&user_req) {
                Ok(p) => p,
                Err(e) => {
                    return Err(e);
                },
            };
            let ghost pre = requests.deep_view();
            let ghost pv = prepared@;
            requests.push(prepared);
            proof {
                assert(requests.deep_view() =~= pre.push(pv));
                assert(pre.len() == i as int * nf + j as int);
                assert(pv == prepared_distribution(
                    build_server@,
                    name@,
                    version@,
                    flavs[j as int],
                    vcs_project_url@,
                    vcs@,
                    plats[i as int],
                ));
                assert forall|a: int, b: int| 0 <= a < i && 0 <= b < nf implies requests.deep_view()[a
                    * nf + b] == prepared_distribution(
                    build_server@,
                    name@,
                    version@,
                    flavs[b],
                    vcs_project_url@,
                    vcs@,
                    plats[a],
                ) by {
                    assert(0 <= a * nf + b && a * nf + b < i as int * nf + j as int)
                        by (nonlinear_arith)
                        requires
                            0 <= a,
                            a < i as int,
                            0 <= b,
                            b < nf,
                            0 <= j as int,
                            nf > 0,
                    ;
                    assert(requests.deep_view()[a * nf + b] == pre[a * nf + b]);
                }
                assert forall|b: int| 0 <= b < j + 1 implies requests.deep_view()[i as int * nf + b]
                    == prepared_distribution(
                    build_server@,
                    name@,
                    version@,
                    flavs[b],
                    vcs_project_url@,
                    vcs@,
                    plats[i as int],
                ) by {
                    if b < j as int {
                        assert(requests.deep_view()[i as int * nf + b] == pre[i as int * nf + b]);
                    } else {
                        assert(requests.deep_view()[i as int * nf + b] == pv);
                    }
                }
            }
            j += 1;
        }
        proof {
            assert((i + 1) * nf == i * nf + nf) by (nonlinear_arith);
            assert forall|a: int, b: int| 0 <= a < i + 1 && 0 <= b < nf implies requests.deep_view()[
                a * nf + b] == prepared_distribution(
                build_server@,
                name@,
                version@,
                flavs[b],
                vcs_project_url@,
                vcs@,
                plats[a],
            ) by {
                if a == i as int {
                    assert(requests.deep_view()[i as int * nf + b] == prepared_distribution(
                        build_server@,
                        name@,
                        version@,
                        flavs[b],
                        vcs_project_url@,
                        vcs@,
                        plats[i as int],
                    ));
                }
            }
        }
        i += 1;
    }
    let plan = BuildPlan { requests, send: !dry_run };
    Ok(plan)
}

/// Resolve a package build: the single request of the per-package,
/// per-tag pipeline route.
pub fn request_package_build_for(
    build_server: &BuildServer,
    name: &str,
    tag: &str,
    dry_run: bool,
) -> (r: Result<BuildPlan, RemoteBuildError>)
    ensures
        match r {
            Ok(plan) => {
                &&& url_parsed(server_url_str(build_server@, package_route(name@, tag@))) is Some
                &&& plan_is_package(&plan, build_server@, name@, tag@, dry_run)
            },
            Err(_) => url_parsed(server_url_str(build_server@, package_route(name@, tag@))) is None,
        },
{
    let user_req = UserBuildRequest::Package(PackageBuildRequest::new(name, tag));
    let prepared = match build_server.prepare_request(&user_req) {
        Ok(p) => p,
        Err(e) => {
            return Err(e);
        },
    };
    let mut requests: Vec<PreparedRequest> = Vec::new();
    let ghost pv = prepared@;
    requests.push(prepared);
    let plan = BuildPlan { requests, send: !dry_run };
    proof {
        assert(plan.requests.deep_view() =~= seq![pv]);
    }
    Ok(plan)
}

} // verus!
