//! Version-control systems a package may live in, parsed case-insensitively.

use vstd::prelude::*;
use vstd::string::StringExecFns;

use crate::errors::RemoteBuildError;
use crate::strutil::{lower, push_char, str_eq, to_lower};

verus! {

/// A source-control kind.
#[derive(Debug, Clone)]
pub enum VcsSystem {
    Svn,
    Git,
    Mercurial,
    Perforce,
    /// Any unrecognized system name; keeps the original spelling for
    /// diagnostics.
    Unknown(String),
}

/// The mathematical shadow of [`VcsSystem`].
pub enum VcsSystemView {
    Svn,
    Git,
    Mercurial,
    Perforce,
    Unknown(Seq<char>),
}

impl View for VcsSystem {
    type V = VcsSystemView;

    open spec fn view(&self) -> VcsSystemView {
        match self {
            VcsSystem::Svn => VcsSystemView::Svn,
            VcsSystem::Git => VcsSystemView::Git,
            VcsSystem::Mercurial => VcsSystemView::Mercurial,
            VcsSystem::Perforce => VcsSystemView::Perforce,
            VcsSystem::Unknown(s) => VcsSystemView::Unknown(s@),
        }
    }
}

impl DeepView for VcsSystem {
    type V = VcsSystemView;

    open spec fn deep_view(&self) -> VcsSystemView {
        self.view()
    }
}

/// How a string parses as a VCS kind: ASCII case is ignored and `gitlab`
/// counts as git; anything unrecognized keeps its original spelling.
pub open spec fn vcs_of(s: Seq<char>) -> VcsSystemView {
    let l = lower(s);
    if l == "svn"@ {
        VcsSystemView::Svn
    } else if l == "git"@ || l == "gitlab"@ {
        VcsSystemView::Git
    } else if l == "mercurial"@ {
        VcsSystemView::Mercurial
    } else if l == "perforce"@ {
        VcsSystemView::Perforce
    } else {
        VcsSystemView::Unknown(s)
    }
}

/// The canonical wire name of a VCS kind.
pub open spec fn vcs_wire(v: VcsSystemView) -> Seq<char> {
    match v {
        VcsSystemView::Svn => "svn"@,
        VcsSystemView::Git => "git"@,
        VcsSystemView::Mercurial => "mercurial"@,
        VcsSystemView::Perforce => "perforce"@,
        VcsSystemView::Unknown(s) => "unknown("@ + s + ")"@,
    }
}

/// The outcome of identifying the VCS of a working copy, as a function of the
/// user's explicit choice and of which marker directories were found on disk.
pub open spec fn identify_vcs_spec(
    selection: Option<Seq<char>>,
    git_found: bool,
    svn_found: bool,
) -> Result<VcsSystemView, ()> {
    match selection {
        Some(v) => if vcs_of(v) is Unknown {
            Err(())
        } else {
            Ok(vcs_of(v))
        },
        None => if git_found {
            Ok(VcsSystemView::Git)
        } else if svn_found {
            Ok(VcsSystemView::Svn)
        } else {
            Err(())
        },
    }
}

impl VcsSystem {
    /// Parse one VCS name, ignoring ASCII case.
    pub fn from_str(value: &str) -> (r: VcsSystem)
        ensures
            r@ == vcs_of(value@),
    {
        let low = to_lower(value);
        if str_eq(low.as_str(), "svn") {
            VcsSystem::Svn
        } else if str_eq(low.as_str(), "git") || str_eq(low.as_str(), "gitlab") {
            VcsSystem::Git
        } else if str_eq(low.as_str(), "mercurial") {
            VcsSystem::Mercurial
        } else if str_eq(low.as_str(), "perforce") {
            VcsSystem::Perforce
        } else {
            VcsSystem::Unknown(value.to_owned())
        }
    }

    /// The canonical wire name, e.g. `svn`.
    pub fn to_string(&self) -> (r: String)
        ensures
            r@ == vcs_wire(self@),
    {
        match self {
            VcsSystem::Svn => "svn".to_owned(),
            VcsSystem::Git => "git".to_owned(),
            VcsSystem::Mercurial => "mercurial".to_owned(),
            VcsSystem::Perforce => "perforce".to_owned(),
            VcsSystem::Unknown(value) => {
                let mut out = "unknown(".to_owned();
                out.append(value.as_str());
                push_char(&mut out, ')');
                proof {
                    reveal_strlit(")");
                    assert(out@ =~= "unknown("@ + value@ + ")"@);
                }
                out
            },
        }
    }

    /// Whether the system is a recognized one.
    pub fn is_valid(&self) -> (r: bool)
        ensures
            r == !(self@ is Unknown),
    {
        match self {
            VcsSystem::Unknown(_) => false,
            _ => true,
        }
    }

    /// Decide which VCS a build should use: an explicit, recognized selection
    /// wins; otherwise the kind whose marker directory the caller found on
    /// disk, git before svn; with an unrecognized selection, or none found,
    /// the identification fails.
    pub fn identify_vcs(selection: &Option<String>, git_found: bool, svn_found: bool) -> (r: Result<
        VcsSystem,
        RemoteBuildError,
    >)
        ensures
            match r {
                Ok(v) => identify_vcs_spec(
                    match selection {
                        Some(s) => Some(s@),
                        None => None,
                    },
                    git_found,
                    svn_found,
                ) == Result::<VcsSystemView, ()>::Ok(v@),
                Err(_) => identify_vcs_spec(
                    match selection {
                        Some(s) => Some(s@),
                        None => None,
                    },
                    git_found,
                    svn_found,
                ) is Err,
            },
    {
        match selection {
            Some(val) => {
                let vcs_val = VcsSystem::from_str(val.as_str());
                match &vcs_val {
                    VcsSystem::Unknown(v) => {
                        let mut msg = "Unknown vcs system: ".to_owned();
                        msg.append(v.as_str());
                        Err(RemoteBuildError::ConversionError(msg))
                    },
                    _ => Ok(vcs_val),
                }
            },
            None => {
                if git_found {
                    Ok(VcsSystem::Git)
                } else if svn_found {
                    Ok(VcsSystem::Svn)
                } else {
                    Err(RemoteBuildError::EmptyError("No VCS system identified".to_owned()))
                }
            },
        }
    }
}

impl PartialEq for VcsSystem {
    /// Systems are equal when they are the same variant, with the same
    /// recorded name in the `Unknown` case.
    fn eq(&self, other: &VcsSystem) -> (r: bool) {
        match (self, other) {
            (VcsSystem::Svn, VcsSystem::Svn) => true,
            (VcsSystem::Git, VcsSystem::Git) => true,
            (VcsSystem::Mercurial, VcsSystem::Mercurial) => true,
            (VcsSystem::Perforce, VcsSystem::Perforce) => true,
            (VcsSystem::Unknown(a), VcsSystem::Unknown(b)) => str_eq(a.as_str(), b.as_str()),
            _ => false,
        }
    }
}

impl vstd::std_specs::cmp::PartialEqSpecImpl for VcsSystem {
    open spec fn obeys_eq_spec() -> bool {
        true
    }

    open spec fn eq_spec(&self, other: &VcsSystem) -> bool {
        self@ == other@
    }
}

impl From<&VcsSystem> for VcsSystem {
    /// An owned copy of a borrowed system.
    fn from(value: &VcsSystem) -> (r: VcsSystem) {
        match value {
            VcsSystem::Svn => VcsSystem::Svn,
            VcsSystem::Git => VcsSystem::Git,
            VcsSystem::Mercurial => VcsSystem::Mercurial,
            VcsSystem::Perforce => VcsSystem::Perforce,
            VcsSystem::Unknown(s) => VcsSystem::Unknown(s.clone()),
        }
    }
}

impl vstd::std_specs::convert::FromSpecImpl<&VcsSystem> for VcsSystem {
    open spec fn obeys_from_spec() -> bool {
        true
    }

    open spec fn from_spec(v: &VcsSystem) -> VcsSystem {
        *v
    }
}

impl From<&str> for VcsSystem {
    /// Parse a VCS name; see [`VcsSystem::from_str`].
    fn from(value: &str) -> (r: VcsSystem) {
        VcsSystem::from_str(value)
    }
}

impl vstd::std_specs::convert::FromSpecImpl<&str> for VcsSystem {
    open spec fn obeys_from_spec() -> bool {
        // An unrecognized name is kept inside the `Unknown` variant as an
        // owned string, which spec code cannot construct, so nothing is
        // promised of `from`; verified callers use `VcsSystem::from_str`.
        false
    }

    open spec fn from_spec(v: &str) -> VcsSystem {
        arbitrary()
    }
}

} // verus!
