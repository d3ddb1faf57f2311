//! Index-service resolution: decide between the lightweight package route and
//! the fully expanded distribution route, and resolve source, VCS kind and
//! flavors from the service's tag records.

use vstd::prelude::*;
use vstd::string::StringExecFns;

use crate::build_server::{package_route, server_url_str, BuildServer, BuildServerView};
use crate::cli::Opt;
use crate::constants::{BUILD_ROUTE, DEFAULT_PLATFORM};
use crate::errors::RemoteBuildError;
use crate::packalaka_tags::{flavor_candidate, PackageTagList, PackageTagView};
use crate::platform::parse_platforms_spec;
use crate::strutil::{join_commas, join_commas_spec};
use crate::utils::{plan_is_distribution, plan_is_package, BuildPlan};
use crate::utils::{request_build_for, request_package_build_for};
use crate::vcs_system::VcsSystem;
use crate::wire::url_parsed;

verus! {

/// What one resolution step decided: either a finished plan, or the need to
/// look the (name, tag) up in the package index first and come back with the
/// records.
#[derive(Debug)]
pub enum GpiOutcome {
    Plan(BuildPlan),
    NeedsTags,
}

/// Both flavor spellings supplied at once: a usage error, whatever else was
/// given.
pub open spec fn gpi_conflict(opts: &Opt) -> bool {
    opts.flavors is Some && opts.flavours is Some
}

/// No flavor, flavour or platform override and no request for all flavors:
/// the server-side pipeline can do the discovery itself, so the lightweight
/// package route is preferred.
pub open spec fn gpi_pure_defaults(opts: &Opt) -> bool {
    opts.flavours is None && opts.flavors is None && opts.platforms is None && !opts.all_flavors
}

/// The platform list a service-mode run uses: the override, or the default.
pub open spec fn gpi_platforms_choice(opts: &Opt) -> Seq<char> {
    match opts.platforms {
        Some(p) => p@,
        None => DEFAULT_PLATFORM@,
    }
}

/// The flavor list a service-mode run uses: with `all_flavors`, the record's
/// candidate list joined by commas; otherwise whichever spelling was given;
/// with neither, the vanilla flavor.
pub open spec fn gpi_flavors_choice(opts: &Opt, rec: PackageTagView) -> Seq<char> {
    if opts.all_flavors {
        join_commas_spec(rec.versions.map_values(|v: Seq<char>| flavor_candidate(rec.name, v)))
    } else if opts.flavors is Some {
        opts.flavors->0@
    } else if opts.flavours is Some {
        opts.flavours->0@
    } else {
        "^"@
    }
}

/// Everything that must hold of a tag record for the distribution plan to
/// exist: a link that parses, at least one recognized platform, and routes
/// that validate.
pub open spec fn gpi_record_ok(s: BuildServerView, opts: &Opt, rec: PackageTagView) -> bool {
    &&& url_parsed(rec.link) is Some
    &&& parse_platforms_spec(gpi_platforms_choice(opts)).len() > 0
    &&& url_parsed(url_parsed(rec.link)->Some_0) is Some
    &&& url_parsed(server_url_str(s, BUILD_ROUTE@)) is Some
}

/// Resolve a build through the package index. With pure defaults the
/// lightweight package route is used and no lookup is needed. Otherwise the
/// caller must supply the service's tag records for (name, tag) — a
/// `NeedsTags` outcome asks for them — and the first record provides the
/// source link, the VCS kind and, under `all_flavors`, the flavor list; the
/// distribution expansion then proceeds as in local mode.
pub fn do_gpi(build_server: &BuildServer, opts: &Opt, tags: Option<&PackageTagList>) -> (r: Result<
    GpiOutcome,
    RemoteBuildError,
>)
    ensures
        match r {
            Ok(GpiOutcome::Plan(plan)) => {
                &&& !gpi_conflict(opts)
                &&& if gpi_pure_defaults(opts) {
                    plan_is_package(&plan, build_server@, opts.name@, opts.tag@, opts.dry_run)
                } else {
                    match tags {
                        Some(t) => t@.len() > 0 && gpi_record_ok(build_server@, opts, t@[0])
                            && plan_is_distribution(
                            &plan,
                            build_server@,
                            opts.name@,
                            opts.tag@,
                            url_parsed(t@[0].link)->Some_0,
                            t@[0].uses,
                            gpi_platforms_choice(opts),
                            gpi_flavors_choice(opts, t@[0]),
                            opts.dry_run,
                        ),
                        None => false,
                    }
                }
            },
            Ok(GpiOutcome::NeedsTags) => !gpi_conflict(opts) && !gpi_pure_defaults(opts)
                && tags is None,
            Err(_) => gpi_conflict(opts) || (gpi_pure_defaults(opts) && url_parsed(
                server_url_str(build_server@, package_route(opts.name@, opts.tag@)),
            ) is None) || (!gpi_pure_defaults(opts) && match tags {
                Some(t) => t@.len() == 0 || !gpi_record_ok(build_server@, opts, t@[0]),
                None => false,
            }),
        },
{
    if opts.flavors.is_some() && opts.flavours.is_some() {
        return Err(
            RemoteBuildError::FlavorError(
                "Using --flavours and --flavors? You cheeky monkey. Pick one or the other".to_owned(),
            ),
        );
    }
    let pure_defaults = opts.flavours.is_none() && opts.flavors.is_none()
        && opts.platforms.is_none() && !opts.all_flavors;
    if pure_defaults {
        let plan = match request_package_build_for(
            build_server,
            opts.name.as_str(),
            opts.tag.as_str(),
            opts.dry_run,
        ) {
            Ok(p) => p,
            Err(e) => {
                return Err(e);
            },
        };
        return Ok(GpiOutcome::Plan(plan));
    }
    let tag_list = match tags {
        Some(t) => t,
        None => {
            return Ok(GpiOutcome::NeedsTags);
        },
    };
    if tag_list.len() == 0 {
        let mut msg = "No Records exist for ".to_owned();
        msg.append(opts.name.as_str());
        msg.append("-");
        msg.append(opts.tag.as_str());
        return Err(RemoteBuildError::EmptyError(msg));
    }
    let record = match tag_list.get(0) {
        Some(rec) => rec,
        None => {
            return Err(RemoteBuildError::NoneError);
        },
    };
    let platforms: String = match &opts.platforms {
        Some(p) => p.clone(),
        None => DEFAULT_PLATFORM.to_owned(),
    };
    let flavors: String = if opts.all_flavors {
        let candidates = record.flavors();
        join_commas(&candidates)
    } else {
        match (&opts.flavors, &opts.flavours) {
            (Some(f), _) => f.clone(),
            (None, Some(f)) => f.clone(),
            (None, None) => "^".to_owned(),
        }
    };
    let link = match record.link() {
        Ok(u) => u,
        Err(e) => {
            return Err(e);
        },
    };
    let plan = match request_build_for(
        build_server,
        opts.name.as_str(),
        opts.tag.as_str(),
        link.as_str(),
        &record.uses,
        platforms.as_str(),
        flavors.as_str(),
        opts.dry_run,
    ) {
        Ok(p) => p,
        Err(e) => {
            return Err(e);
        },
    };
    Ok(GpiOutcome::Plan(plan))
}

} // verus!
