//! Target build platforms, parsed case-insensitively from user input.

use vstd::prelude::*;
use vstd::string::StrSliceExecFns;
use vstd::string::StringExecFns;

use crate::strutil::{lower, split_trim_spec};
use crate::strutil::{push_char, split_and_trim, str_eq, to_lower};

verus! {

/// A target operating system for a build.
#[derive(Debug, Clone)]
pub enum Platform {
    Cent6,
    Cent7,
    /// Any unrecognized platform name; keeps the original spelling for
    /// diagnostics.
    Unknown(String),
}

/// The mathematical shadow of [`Platform`]: the unknown name is a character
/// sequence rather than a heap-allocated string.
pub enum PlatformView {
    Cent6,
    Cent7,
    Unknown(Seq<char>),
}

impl View for Platform {
    type V = PlatformView;

    open spec fn view(&self) -> PlatformView {
        match self {
            Platform::Cent6 => PlatformView::Cent6,
            Platform::Cent7 => PlatformView::Cent7,
            Platform::Unknown(s) => PlatformView::Unknown(s@),
        }
    }
}

impl DeepView for Platform {
    type V = PlatformView;

    open spec fn deep_view(&self) -> PlatformView {
        self.view()
    }
}

/// How a string parses as a platform: the comparison ignores ASCII case, and
/// anything unrecognized keeps its original spelling in `Unknown`.
pub open spec fn platform_of(s: Seq<char>) -> PlatformView {
    let l = lower(s);
    if l == "cent6_64"@ || l == "cent6"@ {
        PlatformView::Cent6
    } else if l == "cent7_64"@ || l == "cent7"@ {
        PlatformView::Cent7
    } else {
        PlatformView::Unknown(s)
    }
}

/// The canonical wire name of a platform.
pub open spec fn platform_wire(p: PlatformView) -> Seq<char> {
    match p {
        PlatformView::Cent6 => "cent6_64"@,
        PlatformView::Cent7 => "cent7_64"@,
        PlatformView::Unknown(s) => "unknown("@ + s + ")"@,
    }
}

/// Batch parsing of a comma list of platform names: each piece is trimmed and
/// parsed, and unrecognized pieces are dropped.
pub open spec fn parse_platforms_spec(s: Seq<char>) -> Seq<PlatformView> {
    split_trim_spec(s).map_values(|p: Seq<char>| platform_of(p)).filter(
        |m: PlatformView| !(m is Unknown),
    )
}

impl Platform {
    /// Parse one platform name, ignoring ASCII case.
    pub fn from_str(value: &str) -> (r: Platform)
        ensures
            r@ == platform_of(value@),
    {
        let low = to_lower(value);
        if str_eq(low.as_str(), "cent6_64") || str_eq(low.as_str(), "cent6") {
            Platform::Cent6
        } else if str_eq(low.as_str(), "cent7_64") || str_eq(low.as_str(), "cent7") {
            Platform::Cent7
        } else {
            Platform::Unknown(value.to_owned())
        }
    }

    /// The canonical wire name, e.g. `cent7_64`.
    pub fn to_string(&self) -> (r: String)
        ensures
            r@ == platform_wire(self@),
    {
        match self {
            Platform::Cent6 => "cent6_64".to_owned(),
            Platform::Cent7 => "cent7_64".to_owned(),
            Platform::Unknown(val) => {
                let mut out = "unknown(".to_owned();
                out.append(val.as_str());
                push_char(&mut out, ')');
                proof {
                    reveal_strlit(")");
                    assert(out@ =~= "unknown("@ + val@ + ")"@);
                }
                out
            },
        }
    }

    /// Given a string of potentially comma-separated platform names, convert
    /// them to `Platform` instances, dropping every unrecognized name.
    pub fn parse_platforms(platforms: &str) -> (r: Vec<Platform>)
        ensures
            r.deep_view() == parse_platforms_spec(platforms@),
    {
        let pieces = split_and_trim(platforms);
        let ghost parsed = split_trim_spec(platforms@).map_values(|p: Seq<char>| platform_of(p));
        let ghost keep = |m: PlatformView| !(m is Unknown);
        let mut out: Vec<Platform> = Vec::new();
        let mut i: usize = 0;
        while i < pieces.len()
            invariant
                i <= pieces.len(),
                pieces.deep_view() == split_trim_spec(platforms@),
                parsed == split_trim_spec(platforms@).map_values(|p: Seq<char>| platform_of(p)),
                keep == (|m: PlatformView| !(m is Unknown)),
                out.deep_view() == parsed.subrange(0, i as int).filter(keep),
            decreases pieces.len() - i,
        {
            let p = Platform::from_str(pieces[i].as_str());
            let ghost pre = parsed.subrange(0, i as int);
            proof {
                assert(parsed.subrange(0, i + 1) =~= pre.push(p@));
                assert(pre.push(p@).drop_last() =~= pre);
                reveal_with_fuel(Seq::filter, 2);
            }
            match p {
                Platform::Unknown(_) => {
                    assert(!keep(p@));
                },
                _ => {
                    out.push(p);
                },
            }
            i += 1;
        }
        proof {
            assert(parsed.subrange(0, parsed.len() as int) =~= parsed);
        }
        out
    }
}

/// Platform parsing ignores ASCII case: a string and its lower-cased form
/// are recognized as the same platform, and one is unrecognized exactly when
/// the other is.
pub proof fn lemma_platform_parse_case_insensitive(s: Seq<char>)
    ensures
        (platform_of(s) is Unknown) == (platform_of(lower(s)) is Unknown),
        !(platform_of(s) is Unknown) ==> platform_of(lower(s)) == platform_of(s),
{
    crate::strutil::lemma_lower_idempotent(s);
}

/// Platform parsing is idempotent on the canonical names: the wire name of a
/// recognized platform parses back to that very platform.
pub proof fn lemma_platform_parse_canonical(p: PlatformView)
    requires
        !(p is Unknown),
    ensures
        platform_of(platform_wire(p)) == p,
{
    reveal_strlit("cent6_64");
    reveal_strlit("cent7_64");
    reveal_strlit("cent6");
    reveal_strlit("cent7");
    crate::strutil::lemma_lower_plain("cent6_64"@);
    crate::strutil::lemma_lower_plain("cent7_64"@);
    assert("cent6_64"@.len() == 8 && "cent7_64"@.len() == 8);
    assert("cent6"@.len() == 5 && "cent7"@.len() == 5);
    assert("cent7_64"@[4] == '7' && "cent6_64"@[4] == '6');
    assert("cent7_64"@ != "cent6_64"@);
}

impl PartialEq for Platform {
    /// Platforms are equal when they are the same variant, with the same
    /// recorded name in the `Unknown` case.
    fn eq(&self, other: &Platform) -> (r: bool) {
        match (self, other) {
            (Platform::Cent6, Platform::Cent6) => true,
            (Platform::Cent7, Platform::Cent7) => true,
            (Platform::Unknown(a), Platform::Unknown(b)) => str_eq(a.as_str(), b.as_str()),
            _ => false,
        }
    }
}

impl vstd::std_specs::cmp::PartialEqSpecImpl for Platform {
    open spec fn obeys_eq_spec() -> bool {
        true
    }

    open spec fn eq_spec(&self, other: &Platform) -> bool {
        self@ == other@
    }
}

impl From<&Platform> for Platform {
    /// An owned copy of a borrowed platform.
    fn from(value: &Platform) -> (r: Platform) {
        match value {
            Platform::Cent6 => Platform::Cent6,
            Platform::Cent7 => Platform::Cent7,
            Platform::Unknown(s) => Platform::Unknown(s.clone()),
        }
    }
}

impl vstd::std_specs::convert::FromSpecImpl<&Platform> for Platform {
    open spec fn obeys_from_spec() -> bool {
        true
    }

    open spec fn from_spec(v: &Platform) -> Platform {
        *v
    }
}

impl From<&str> for Platform {
    /// Parse a platform name; see [`Platform::from_str`].
    fn from(value: &str) -> (r: Platform) {
        Platform::from_str(value)
    }
}

impl vstd::std_specs::convert::FromSpecImpl<&str> for Platform {
    open spec fn obeys_from_spec() -> bool {
        // An unrecognized name is kept inside the `Unknown` variant as an
        // owned string, which spec code cannot construct, so nothing is
        // promised of `from`; verified callers use `Platform::from_str`.
        false
    }

    open spec fn from_spec(v: &str) -> Platform {
        arbitrary()
    }
}

} // verus!
