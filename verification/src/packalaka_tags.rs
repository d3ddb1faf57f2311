//! Tag records of the package-index service: where a tagged package lives,
//! which VCS holds it, and which flavored versions exist for the tag.

use vstd::prelude::*;
use vstd::string::StrSliceExecFns;
use vstd::string::StringExecFns;

use crate::errors::RemoteBuildError;
use crate::gpi::SourceStatus;
use crate::strutil::{push_char, str_eq};
use crate::vcs_system::{VcsSystem, VcsSystemView};
use crate::wire::{parse_url, url_parsed};

verus! {

/// One record of `tags --json <name> <tag>`: the source link, the record
/// name, its VCS kind and status, and the raw version strings under the tag.
#[derive(Debug, PartialEq)]
pub struct PackageTag {
    pub link: String,
    pub name: String,
    pub uses: VcsSystem,
    pub status: SourceStatus,
    /// The raw version strings recorded under the tag.
    pub versions: Vec<String>,
}

/// The mathematical shadow of [`PackageTag`].
pub struct PackageTagView {
    pub link: Seq<char>,
    pub name: Seq<char>,
    pub uses: VcsSystemView,
    pub status: SourceStatus,
    pub versions: Seq<Seq<char>>,
}

impl View for PackageTag {
    type V = PackageTagView;

    open spec fn view(&self) -> PackageTagView {
        PackageTagView {
            link: self.link@,
            name: self.name@,
            uses: self.uses@,
            status: self.status,
            versions: self.versions.deep_view(),
        }
    }
}

impl DeepView for PackageTag {
    type V = PackageTagView;

    open spec fn deep_view(&self) -> PackageTagView {
        self.view()
    }
}

/// The flavor a raw version string stands for, relative to the record's name:
/// strip the leading `<name>_` prefix when it is there; when what remains is
/// the name itself (nothing was appended), the flavor is the vanilla marker
/// `^`; otherwise it is the remaining suffix verbatim.
pub open spec fn flavor_candidate(name: Seq<char>, version: Seq<char>) -> Seq<char> {
    let prefix = name.push('_');
    let rest = if version.len() >= prefix.len() && version.subrange(0, prefix.len() as int)
        == prefix {
        version.subrange(prefix.len() as int, version.len() as int)
    } else {
        version
    };
    if rest == name {
        "^"@
    } else {
        rest
    }
}

impl PackageTag {
    /// Assemble a tag record from its parts.
    pub fn new(
        link: String,
        name: String,
        uses: VcsSystem,
        status: SourceStatus,
        versions: Vec<String>,
    ) -> (r: PackageTag)
        ensures
            r@.link == link@,
            r@.name == name@,
            r@.uses == uses@,
            r@.status == status,
            r@.versions == versions.deep_view(),
    {
        PackageTag { link, name, uses, status, versions }
    }

    /// The flavors that this record's version strings stand for, one per
    /// version, in version order.
    pub fn flavors(&self) -> (r: Vec<String>)
        ensures
            r.deep_view() == self@.versions.map_values(
                |v: Seq<char>| flavor_candidate(self@.name, v),
            ),
    {
        let mut prefix = self.name.clone();
        push_char(&mut prefix, '_');
        let plen = prefix.as_str().unicode_len();
        let nlen = self.name.as_str().unicode_len();
        let mut out: Vec<String> = Vec::new();
        let mut i: usize = 0;
        let ghost mapped = self@.versions.map_values(
            |v: Seq<char>| flavor_candidate(self@.name, v),
        );
        while i < self.versions.len()
            invariant
                i <= self.versions.len(),
                prefix@ == self@.name.push('_'),
                plen == prefix@.len(),
                nlen == self@.name.len(),
                mapped == self@.versions.map_values(
                    |v: Seq<char>| flavor_candidate(self@.name, v),
                ),
                self@.versions == self.versions.deep_view(),
                self@.versions.len() == self.versions.len(),
                out.deep_view() =~= mapped.subrange(0, i as int),
            decreases self.versions.len() - i,
        {
            let v = &self.versions[i];
            let vlen = v.as_str().unicode_len();
            let rest: String = if vlen >= plen && str_eq(
                v.as_str().substring_char(0, plen),
                prefix.as_str(),
            ) {
                v.as_str().substring_char(plen, vlen).to_owned()
            } else {
                v.clone()
            };
            let flavor: String = if str_eq(rest.as_str(), self.name.as_str()) {
                "^".to_owned()
            } else {
                rest
            };
            assert(flavor@ == flavor_candidate(self@.name, self@.versions[i as int]));
            let ghost pre = out.deep_view();
            let ghost fv = flavor@;
            out.push(flavor);
            proof {
                assert(out.deep_view() =~= pre.push(fv));
                assert(out.deep_view() =~= mapped.subrange(0, i + 1));
            }
            i += 1;
        }
        proof {
            assert(mapped.subrange(0, mapped.len() as int) =~= mapped);
        }
        out
    }

    /// The record's source link, parsed as a URL and returned in the parsed
    /// URL's serialization.
    pub fn link(&self) -> (r: Result<String, RemoteBuildError>)
        ensures
            match r {
                Ok(u) => url_parsed(self@.link) == Some(u@),
                Err(e) => url_parsed(self@.link) is None && e is ParseError,
            },
    {
        match parse_url(self.link.as_str()) {
            Some(u) => Ok(u),
            None => {
                let mut msg = "relative URL without a base or malformed URL: ".to_owned();
                msg.append(self.link.as_str());
                Err(RemoteBuildError::ParseError(msg))
            },
        }
    }
}

/// The root container for the tag records that one service lookup returned.
#[derive(Debug, PartialEq)]
pub struct PackageTagList {
    inner: Vec<PackageTag>,
}

impl View for PackageTagList {
    type V = Seq<PackageTagView>;

    closed spec fn view(&self) -> Seq<PackageTagView> {
        self.inner.deep_view()
    }
}

impl PackageTagList {
    /// Wrap the records of one service lookup, in the service's order.
    pub fn new(tags: Vec<PackageTag>) -> (r: PackageTagList)
        ensures
            r@ == tags.deep_view(),
    {
        PackageTagList { inner: tags }
    }

    /// The number of tag records in the list.
    pub fn len(&self) -> (r: usize)
        ensures
            r == self@.len(),
    {
        self.inner.len()
    }

    /// Retrieve a tag record by index.
    pub fn get(&self, idx: usize) -> (r: Option<&PackageTag>)
        ensures
            match r {
                Some(t) => idx < self@.len() && t@ == self@[idx as int],
                None => idx >= self@.len(),
            },
    {
        if self.inner.len() > idx {
            Some(&self.inner[idx])
        } else {
            None
        }
    }
}

} // verus!
