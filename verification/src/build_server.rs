//! The build-server client: connection target, the two request routes, and
//! the assembly of the form-encoded body each request POSTs.

use vstd::prelude::*;
use vstd::string::StringExecFns;

use crate::build_parameter::params_json;
use crate::build_parameter::BuildParameterView;
use crate::build_request::dist_params;
use crate::constants::{BUILD_DOMAIN, BUILD_ROUTE, BUILD_SERVER, BUILD_SERVER_PORT};
use crate::constants::{PASSWORD, USERNAME};
use crate::errors::RemoteBuildError;
use crate::package_build_request::package_params;
use crate::strutil::{dec_str, push_char, u32_to_dec};
use crate::utils::{UserBuildRequest, UserBuildRequestView};
use crate::wire::{parse_url, percent_encode_user, percent_user_encoded, url_parsed};

verus! {

/// The connection target: everything needed to address the build server.
#[derive(Debug)]
pub struct BuildServer {
    host: String,
    port: u32,
    domain: String,
}

/// The mathematical shadow of [`BuildServer`].
pub struct BuildServerView {
    pub host: Seq<char>,
    pub port: u32,
    pub domain: Seq<char>,
}

impl View for BuildServer {
    type V = BuildServerView;

    closed spec fn view(&self) -> BuildServerView {
        BuildServerView { host: self.host@, port: self.port, domain: self.domain@ }
    }
}

/// The authority-qualified URL string for a route on a server:
/// `http://<user>:<password>@<host>.<domain>:<port>/<route>`.
pub open spec fn server_url_str(s: BuildServerView, route: Seq<char>) -> Seq<char> {
    "http://"@ + USERNAME@ + ":"@ + PASSWORD@ + "@"@ + s.host + "."@ + s.domain + ":"@ + dec_str(
        s.port as int,
    ) + "/"@ + route
}

/// The route of the per-package, per-tag pipeline job.
pub open spec fn package_route(package: Seq<char>, tag: Seq<char>) -> Seq<char> {
    "job/Packages/job/"@ + package + "/job/"@ + tag + "/build"@
}

/// The URL string a request goes to: the fixed distribution route for the
/// full variant, the per-package route for the simplified one.
pub open spec fn request_route_str(s: BuildServerView, r: UserBuildRequestView) -> Seq<char> {
    match r {
        UserBuildRequestView::Distribution(_) => server_url_str(s, BUILD_ROUTE@),
        UserBuildRequestView::Package(p) => server_url_str(s, package_route(p.project, p.tag)),
    }
}

/// The parameter list a request serializes.
pub open spec fn request_params(r: UserBuildRequestView) -> Seq<BuildParameterView> {
    match r {
        UserBuildRequestView::Distribution(d) => dist_params(d),
        UserBuildRequestView::Package(p) => package_params(p.project, p.tag),
    }
}

/// The form-encoded body of a request: a single field named `json`, whose
/// value is the percent-encoded JSON serialization of the parameter list.
pub open spec fn request_body_str(r: UserBuildRequestView) -> Seq<char> {
    "json="@ + percent_user_encoded(params_json(request_params(r)))
}

/// One fully assembled HTTP POST, ready for a transport to perform: the URL
/// to post to and the form-encoded body to send.
#[derive(Debug, PartialEq)]
pub struct PreparedRequest {
    pub route: String,
    pub body: String,
}

/// The mathematical shadow of [`PreparedRequest`].
pub struct PreparedRequestView {
    pub route: Seq<char>,
    pub body: Seq<char>,
}

impl View for PreparedRequest {
    type V = PreparedRequestView;

    open spec fn view(&self) -> PreparedRequestView {
        PreparedRequestView { route: self.route@, body: self.body@ }
    }
}

impl DeepView for PreparedRequest {
    type V = PreparedRequestView;

    open spec fn deep_view(&self) -> PreparedRequestView {
        self.view()
    }
}

impl BuildServer {
    /// A new client for the given host, port and domain.
    pub fn new(host: &str, port: u32, domain: &str) -> (r: BuildServer)
        ensures
            r@.host == host@,
            r@.port == port,
            r@.domain == domain@,
    {
        BuildServer { host: host.to_owned(), port, domain: domain.to_owned() }
    }

    /// The URL for a route on this server, validated by the URL parser.
    fn url_for_route(&self, route: &str) -> (r: Option<String>)
        ensures
            match r {
                Some(u) => url_parsed(server_url_str(self@, route@)) == Some(u@),
                None => url_parsed(server_url_str(self@, route@)) is None,
            },
    {
        let mut s = "http://".to_owned();
        s.append(USERNAME);
        push_char(&mut s, ':');
        s.append(PASSWORD);
        push_char(&mut s, '@');
        s.append(self.host.as_str());
        push_char(&mut s, '.');
        s.append(self.domain.as_str());
        push_char(&mut s, ':');
        let port = u32_to_dec(self.port);
        s.append(port.as_str());
        push_char(&mut s, '/');
        s.append(route);
        proof {
            reveal_strlit(":");
            reveal_strlit("@");
            reveal_strlit(".");
            reveal_strlit("/");
            assert(s@ =~= server_url_str(self@, route@));
        }
        parse_url(s.as_str())
    }

    /// The URL of the generic build-distribution pipeline job on this server.
    /// Generally used by `request_build`; exposed for visualization.
    pub fn request_route(&self) -> (r: Option<String>)
        ensures
            match r {
                Some(u) => url_parsed(server_url_str(self@, BUILD_ROUTE@)) == Some(u@),
                None => url_parsed(server_url_str(self@, BUILD_ROUTE@)) is None,
            },
    {
        self.url_for_route(BUILD_ROUTE)
    }

    /// The URL of the per-package, per-tag pipeline job for the given package
    /// and tag. That job needs the server to have scanned the tags already,
    /// the typical case when rebuilding existing distributions; it is then
    /// preferred over `request_route`.
    pub fn request_build_route(&self, package: &str, tag: &str) -> (r: Option<String>)
        ensures
            match r {
                Some(u) => url_parsed(server_url_str(self@, package_route(package@, tag@))) == Some(
                    u@,
                ),
                None => url_parsed(server_url_str(self@, package_route(package@, tag@))) is None,
            },
    {
        let mut route = "job/Packages/job/".to_owned();
        route.append(package);
        route.append("/job/");
        route.append(tag);
        route.append("/build");
        proof {
            assert(route@ =~= package_route(package@, tag@));
        }
        self.url_for_route(route.as_str())
    }

    /// Assemble the POST for a request: its route URL and its form-encoded
    /// body. Fails only when the route does not validate as a URL.
    pub fn prepare_request(&self, req: &UserBuildRequest) -> (r: Result<
        PreparedRequest,
        RemoteBuildError,
    >)
        ensures
            match r {
                Ok(p) => url_parsed(request_route_str(self@, req@)) == Some(p.route@) && p.body@
                    == request_body_str(req@),
                Err(e) => url_parsed(request_route_str(self@, req@)) is None && e is EmptyError,
            },
    {
        let (route, build_params) = match req {
            UserBuildRequest::Distribution(dist) => {
                let route = match self.request_route() {
                    Some(u) => u,
                    None => {
                        return Err(RemoteBuildError::EmptyError("unable to unwrap route".to_owned()));
                    },
                };
                (route, dist.to_build_params())
            },
            UserBuildRequest::Package(package) => {
                let route = match self.request_build_route(
                    package.project.as_str(),
                    package.tag.as_str(),
                ) {
                    Some(u) => u,
                    None => {
                        return Err(RemoteBuildError::EmptyError("unable to unwrap route".to_owned()));
                    },
                };
                (route, package.to_build_params())
            },
        };
        let json = build_params.to_json();
        let encoded = percent_encode_user(json.as_str());
        let mut body = "json=".to_owned();
        body.append(encoded.as_str());
        Ok(PreparedRequest { route, body })
    }

    /// Decide what a request amounts to: on a dry run nothing is handed to
    /// the transport, whatever the request; otherwise the fully assembled
    /// POST is returned for the caller's transport to perform.
    pub fn request_build(&self, req: &UserBuildRequest, dry_run: bool) -> (r: Result<
        Option<PreparedRequest>,
        RemoteBuildError,
    >)
        ensures
            match r {
                Ok(Some(p)) => {
                    &&& !dry_run
                    &&& url_parsed(request_route_str(self@, req@)) == Some(p.route@)
                    &&& p.body@ == request_body_str(req@)
                },
                Ok(None) => dry_run,
                Err(e) => url_parsed(request_route_str(self@, req@)) is None && e is EmptyError,
            },
    {
        let prepared = match self.prepare_request(req) {
            Ok(p) => p,
            Err(e) => {
                return Err(e);
            },
        };
        if dry_run {
            Ok(None)
        } else {
            Ok(Some(prepared))
        }
    }
}

impl Default for BuildServer {
    /// The fixed production build server.
    fn default() -> (r: BuildServer)
        ensures
            r@.host == BUILD_SERVER@,
            r@.port == BUILD_SERVER_PORT,
            r@.domain == BUILD_DOMAIN@,
    {
        BuildServer::new(BUILD_SERVER, BUILD_SERVER_PORT, BUILD_DOMAIN)
    }
}

} // verus!
