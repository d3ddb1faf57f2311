//! The "simplified" build-request shape: project and tag only. The server's
//! own pipeline detects flavors and platforms for it.

use vstd::prelude::*;
use vstd::string::StringExecFns;

use crate::build_param_type::{BuildParamType, BuildParamTypeView};
use crate::build_parameter::{BuildParameter, BuildParameterView, BuildParameters};
use crate::errors::RemoteBuildError;

verus! {

/// The user-facing request object for a per-package, per-tag pipeline job.
#[derive(Debug, PartialEq)]
pub struct PackageBuildRequest {
    /// Name of the package.
    pub project: String,
    /// Tag we wish to build.
    pub tag: String,
}

/// The mathematical shadow of [`PackageBuildRequest`].
pub struct PackageBuildRequestView {
    pub project: Seq<char>,
    pub tag: Seq<char>,
}

impl View for PackageBuildRequest {
    type V = PackageBuildRequestView;

    open spec fn view(&self) -> PackageBuildRequestView {
        PackageBuildRequestView { project: self.project@, tag: self.tag@ }
    }
}

impl DeepView for PackageBuildRequest {
    type V = PackageBuildRequestView;

    open spec fn deep_view(&self) -> PackageBuildRequestView {
        self.view()
    }
}

/// The exact ordered parameter list of a package request: project and tag,
/// with no placeholder.
pub open spec fn package_params(project: Seq<char>, tag: Seq<char>) -> Seq<BuildParameterView> {
    seq![
        BuildParameterView { name: "project"@, value: BuildParamTypeView::String(project) },
        BuildParameterView { name: "tag"@, value: BuildParamTypeView::String(tag) },
    ]
}

impl PackageBuildRequest {
    /// Generate a new package build request.
    pub fn new(project: &str, tag: &str) -> (r: PackageBuildRequest)
        ensures
            r.project@ == project@,
            r.tag@ == tag@,
    {
        PackageBuildRequest { project: project.to_owned(), tag: tag.to_owned() }
    }

    /// Emit the parameter list of this request: the two parameters, in their
    /// documented order.
    pub fn to_build_params(&self) -> (r: BuildParameters)
        ensures
            r@ == package_params(self.project@, self.tag@),
    {
        let mut params = BuildParameters::new();
        let project = BuildParameter::new("project", BuildParamType::String(self.project.clone()));
        let tag = BuildParameter::new("tag", BuildParamType::String(self.tag.clone()));
        params.push(project);
        params.push(tag);
        proof {
            assert(params@ =~= package_params(self.project@, self.tag@));
        }
        params
    }

    /// Construct a package build request from a name and a tag; this shape
    /// has nothing to validate, so construction always succeeds.
    pub fn build_request(name: &str, tag: &str) -> (r: Result<
        PackageBuildRequest,
        RemoteBuildError,
    >)
        ensures
            match r {
                Ok(b) => b.project@ == name@ && b.tag@ == tag@,
                Err(_) => false,
            },
    {
        Ok(PackageBuildRequest::new(name, tag))
    }
}

} // verus!
