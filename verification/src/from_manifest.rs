//! Local-mode resolution: the package identity comes from explicit options or
//! from the manifest on disk, and the repository URL from an explicit
//! override or from the working copy's VCS remotes.

use vstd::prelude::*;
use vstd::string::StringExecFns;

use crate::build_server::{server_url_str, BuildServer, BuildServerView};
use crate::constants::BUILD_ROUTE;
use crate::errors::RemoteBuildError;
use crate::minifest::Minifest;
use crate::platform::parse_platforms_spec;
use crate::utils::{plan_is_distribution, request_build_for, BuildPlan};
use crate::vcs_system::{VcsSystem, VcsSystemView};
use crate::wire::{parse_url, url_parsed};

verus! {

/// The view of an optional string option.
pub open spec fn opt_view(o: &Option<String>) -> Option<Seq<char>> {
    match o {
        Some(s) => Some(s@),
        None => None,
    }
}

/// The package identity a local run uses: explicit name and tag when both
/// were given, otherwise whatever the manifest read yielded.
pub fn resolve_identity(
    name: &Option<String>,
    tag: &Option<String>,
    manifest: Option<Minifest>,
) -> (r: Result<Minifest, RemoteBuildError>)
    ensures
        match r {
            Ok(m) => match (name, tag) {
                (Some(n), Some(t)) => m.name@ == n@ && m.version@ == t@,
                _ => match manifest {
                    Some(mm) => m.name@ == mm.name@ && m.version@ == mm.version@,
                    None => false,
                },
            },
            Err(_) => !(name is Some && tag is Some) && manifest is None,
        },
{
    match (name, tag) {
        (Some(n), Some(t)) => Ok(Minifest::new(n.as_str(), t.as_str())),
        _ => match manifest {
            Some(mm) => Ok(mm),
            None => Err(
                RemoteBuildError::EmptyError(
                    "no explicit name and tag, and no manifest was read".to_owned(),
                ),
            ),
        },
    }
}

/// The repository URL a local run uses: the explicit override when one was
/// given, otherwise the first remote the working copy's VCS reported; in
/// both cases it must parse as a URL.
pub open spec fn resolved_source(vcs_url: Option<Seq<char>>, remotes: Seq<Seq<char>>) -> Option<
    Seq<char>,
> {
    match vcs_url {
        Some(o) => url_parsed(o),
        None => if remotes.len() > 0 {
            url_parsed(remotes[0])
        } else {
            None
        },
    }
}

/// Pick the repository URL for a local run; see [`resolved_source`].
pub fn resolve_source(vcs_url: &Option<String>, remotes: &Vec<String>) -> (r: Result<
    String,
    RemoteBuildError,
>)
    ensures
        match r {
            Ok(u) => resolved_source(opt_view(vcs_url), remotes.deep_view()) == Some(u@),
            Err(_) => resolved_source(opt_view(vcs_url), remotes.deep_view()) is None,
        },
{
    match vcs_url {
        Some(o) => match parse_url(o.as_str()) {
            Some(u) => Ok(u),
            None => Err(
                RemoteBuildError::ParseError(
                    "unable to construct url from the provided override".to_owned(),
                ),
            ),
        },
        None => {
            if remotes.len() == 0 {
                return Err(
                    RemoteBuildError::EmptyError(
                        "unable to get a server url from the project path".to_owned(),
                    ),
                );
            }
            match parse_url(remotes[0].as_str()) {
                Some(u) => Ok(u),
                None => Err(
                    RemoteBuildError::ParseError(
                        "unable to construct url from the reported remote".to_owned(),
                    ),
                ),
            }
        },
    }
}

/// Everything that must hold of the inputs for a local distribution plan to
/// exist: a supported VCS, a usable repository URL, at least one recognized
/// platform, and routes that validate.
pub open spec fn local_resolution_ok(
    vcs_url: Option<Seq<char>>,
    vcs: VcsSystemView,
    remotes: Seq<Seq<char>>,
    s: BuildServerView,
    platforms: Seq<char>,
) -> bool {
    &&& (vcs is Svn || vcs is Git)
    &&& resolved_source(vcs_url, remotes) is Some
    &&& parse_platforms_spec(platforms).len() > 0
    &&& url_parsed(resolved_source(vcs_url, remotes)->Some_0) is Some
    &&& url_parsed(server_url_str(s, BUILD_ROUTE@)) is Some
}

/// Resolve and expand a local build from the working copy's VCS information:
/// only svn and git are supported; the repository URL comes from the override
/// or from the first reported remote; the expansion is the usual Cartesian
/// one over platforms and flavors.
pub fn build_from_vcs(
    vcs_url: &Option<String>,
    flavors: &str,
    vcs: &VcsSystem,
    platforms: &str,
    remotes: &Vec<String>,
    build_server: &BuildServer,
    name: &str,
    version: &str,
    dry_run: bool,
) -> (r: Result<BuildPlan, RemoteBuildError>)
    ensures
        match r {
            Ok(plan) => {
                &&& local_resolution_ok(
                    opt_view(vcs_url),
                    vcs@,
                    remotes.deep_view(),
                    build_server@,
                    platforms@,
                )
                &&& plan_is_distribution(
                    &plan,
                    build_server@,
                    name@,
                    version@,
                    resolved_source(opt_view(vcs_url), remotes.deep_view())->Some_0,
                    vcs@,
                    platforms@,
                    flavors@,
                    dry_run,
                )
            },
            Err(_) => !local_resolution_ok(
                opt_view(vcs_url),
                vcs@,
                remotes.deep_view(),
                build_server@,
                platforms@,
            ),
        },
{
    match vcs {
        VcsSystem::Svn | VcsSystem::Git => {
            let source = match resolve_source(vcs_url, remotes) {
                Ok(u) => u,
                Err(e) => {
                    return Err(e);
                },
            };
            request_build_for(
                build_server,
                name,
                version,
                source.as_str(),
                vcs,
                platforms,
                flavors,
                dry_run,
            )
        },
        _ => Err(RemoteBuildError::ConversionError("SCM must either be svn or git".to_owned())),
    }
}

} // verus!
