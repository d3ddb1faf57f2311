//! Flavor inputs: parsing the user's comma list and reconciling the two
//! accepted spellings with the manifest's own flavor list.

use vstd::prelude::*;
use vstd::string::StringExecFns;

use crate::errors::RemoteBuildError;
use crate::strutil::{split_and_trim, split_trim_spec};

verus! {

/// One flavor entry of a package manifest.
#[derive(Debug, PartialEq)]
pub struct Flavour {
    pub name: String,
    pub version: String,
}

/// The flavor entries of a package manifest.
#[derive(Debug, PartialEq)]
pub struct Flavours {
    pub flavours: Vec<Flavour>,
}

impl Flavours {
    /// The names of the manifest's flavors, in manifest order.
    pub fn names(&self) -> (r: Vec<String>)
        ensures
            r.deep_view() == Seq::new(self.flavours.len() as nat, |j: int| self.flavours[j].name@),
    {
        let mut out: Vec<String> = Vec::new();
        let mut i: usize = 0;
        while i < self.flavours.len()
            invariant
                i <= self.flavours.len(),
                out.deep_view() =~= Seq::new(i as nat, |j: int| self.flavours@[j].name@),
            decreases self.flavours.len() - i,
        {
            let ghost pre = out.deep_view();
            out.push(self.flavours[i].name.clone());
            proof {
                assert(out.deep_view() =~= pre.push(self.flavours@[i as int].name@));
            }
            i += 1;
        }
        proof {
            assert(out.deep_view() =~= Seq::new(
                self.flavours.len() as nat,
                |j: int| self.flavours[j].name@,
            ));
        }
        out
    }

    /// Convert a string of comma-separated flavor names into a vector of
    /// flavor names, trimming whitespace around each.
    pub fn parse_flavors(flavor: &str) -> (r: Vec<String>)
        ensures
            r.deep_view() == split_trim_spec(flavor@),
            r.len() > 0,
    {
        split_and_trim(flavor)
    }

    /// Reconcile the two spellings of the flavor option. Supplying both is a
    /// usage error, whatever else was given. With exactly one supplied, that
    /// one wins. With neither, the manifest's own flavor list applies, and
    /// when there is none, the vanilla flavor `^`.
    pub fn resolve_flavors(
        flavors: Option<String>,
        flavours: Option<String>,
        manifest_flavors: Option<String>,
    ) -> (r: Result<String, RemoteBuildError>)
        ensures
            match r {
                Ok(s) => match (flavors, flavours) {
                    (Some(_), Some(_)) => false,
                    (Some(f), None) => s@ == f@,
                    (None, Some(f)) => s@ == f@,
                    (None, None) => s@ == match manifest_flavors {
                        Some(m) => m@,
                        None => "^"@,
                    },
                },
                Err(e) => flavors is Some && flavours is Some && e is FlavorError,
            },
    {
        if flavours.is_some() && flavors.is_some() {
            return Err(
                RemoteBuildError::FlavorError(
                    "Using --flavours and --flavors? You cheeky monkey. Pick one or the other".to_owned(),
                ),
            );
        }
        match (flavors, flavours) {
            (Some(f), None) => Ok(f),
            (None, Some(f)) => Ok(f),
            (None, None) => match manifest_flavors {
                Some(m) => Ok(m),
                None => Ok("^".to_owned()),
            },
            (Some(_), Some(_)) => Err(
                RemoteBuildError::FlavorError("contradictory flavor options".to_owned()),
            ),
        }
    }
}

} // verus!
