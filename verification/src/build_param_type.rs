//! The typed value of a named build parameter. The producer side is statically
//! typed, yet every variant serializes to a bare JSON string: the wire format
//! is untyped from the consumer's perspective.

use vstd::prelude::*;

use crate::platform::{platform_wire, Platform, PlatformView};
use crate::vcs_system::{vcs_wire, VcsSystem, VcsSystemView};

verus! {

/// An enumeration of possible build parameter types: string, platform, url,
/// and vcs system. A url is kept in its already-serialized string form.
#[derive(Debug, PartialEq)]
pub enum BuildParamType {
    String(String),
    Platform(Platform),
    Url(String),
    Vcs(VcsSystem),
}

/// The mathematical shadow of [`BuildParamType`].
pub enum BuildParamTypeView {
    String(Seq<char>),
    Platform(PlatformView),
    Url(Seq<char>),
    Vcs(VcsSystemView),
}

impl View for BuildParamType {
    type V = BuildParamTypeView;

    open spec fn view(&self) -> BuildParamTypeView {
        match self {
            BuildParamType::String(s) => BuildParamTypeView::String(s@),
            BuildParamType::Platform(p) => BuildParamTypeView::Platform(p@),
            BuildParamType::Url(u) => BuildParamTypeView::Url(u@),
            BuildParamType::Vcs(v) => BuildParamTypeView::Vcs(v@),
        }
    }
}

impl DeepView for BuildParamType {
    type V = BuildParamTypeView;

    open spec fn deep_view(&self) -> BuildParamTypeView {
        self.view()
    }
}

/// The string a value serializes to, whatever its variant: strings and urls
/// stand for themselves, platforms and vcs systems use their canonical wire
/// names.
pub open spec fn param_wire(v: BuildParamTypeView) -> Seq<char> {
    match v {
        BuildParamTypeView::String(s) => s,
        BuildParamTypeView::Platform(p) => platform_wire(p),
        BuildParamTypeView::Url(u) => u,
        BuildParamTypeView::Vcs(vcs) => vcs_wire(vcs),
    }
}

impl BuildParamType {
    /// The canonical string form of the value, exactly as it goes on the wire.
    pub fn wire_string(&self) -> (r: String)
        ensures
            r@ == param_wire(self@),
    {
        match self {
            BuildParamType::String(s) => s.clone(),
            BuildParamType::Platform(p) => p.to_string(),
            BuildParamType::Url(u) => u.clone(),
            BuildParamType::Vcs(v) => v.to_string(),
        }
    }
}

impl From<String> for BuildParamType {
    /// A plain string value.
    fn from(value: String) -> (r: BuildParamType) {
        BuildParamType::String(value)
    }
}

impl vstd::std_specs::convert::FromSpecImpl<String> for BuildParamType {
    open spec fn obeys_from_spec() -> bool {
        true
    }

    open spec fn from_spec(v: String) -> BuildParamType {
        BuildParamType::String(v)
    }
}

impl From<Platform> for BuildParamType {
    /// A platform value.
    fn from(value: Platform) -> (r: BuildParamType) {
        BuildParamType::Platform(value)
    }
}

impl vstd::std_specs::convert::FromSpecImpl<Platform> for BuildParamType {
    open spec fn obeys_from_spec() -> bool {
        true
    }

    open spec fn from_spec(v: Platform) -> BuildParamType {
        BuildParamType::Platform(v)
    }
}

impl From<VcsSystem> for BuildParamType {
    /// A vcs-system value.
    fn from(value: VcsSystem) -> (r: BuildParamType) {
        BuildParamType::Vcs(value)
    }
}

impl vstd::std_specs::convert::FromSpecImpl<VcsSystem> for BuildParamType {
    open spec fn obeys_from_spec() -> bool {
        true
    }

    open spec fn from_spec(v: VcsSystem) -> BuildParamType {
        BuildParamType::Vcs(v)
    }
}

} // verus!
