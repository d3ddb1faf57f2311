//! The mini manifest: just a package's name and version, which is all a build
//! request needs to know about it.

use vstd::prelude::*;
use vstd::string::StrSliceExecFns;
use vstd::string::StringExecFns;

use crate::errors::RemoteBuildError;
use crate::strutil::{find_char, lemma_find_char_at, lemma_find_char_none, lower};
use crate::strutil::{str_eq, to_lower};

verus! {

/// The name and version of a package, as its manifest declares them.
#[derive(Debug, PartialEq)]
pub struct Minifest {
    pub name: String,
    pub version: String,
}

/// The key/value reading of one probe line `key:value`: the key is the text
/// before the first colon, lower-cased; the value the text between the first
/// and the second colon, or up to the end when there is no second one. A line
/// without any colon has no reading.
pub open spec fn attr_of_line(s: Seq<char>) -> Option<(Seq<char>, Seq<char>)> {
    let i = find_char(s, ':');
    if 0 <= i && i < s.len() {
        let key = lower(s.subrange(0, i));
        let rest = s.subrange(i + 1, s.len() as int);
        let j = find_char(rest, ':');
        let value = if 0 <= j && j < rest.len() {
            rest.subrange(0, j)
        } else {
            rest
        };
        Some((key, value))
    } else {
        None
    }
}

/// Fold one attribute into the (name, version) pair being collected.
pub open spec fn apply_attr(attr: (Seq<char>, Seq<char>), acc: (Seq<char>, Seq<char>)) -> (
    Seq<char>,
    Seq<char>,
) {
    if attr.0 == "name"@ {
        (attr.1, acc.1)
    } else if attr.0 == "version"@ {
        (acc.0, attr.1)
    } else {
        acc
    }
}

/// What the first two lines of the manifest probe yield: `None` when either
/// line has no `key:value` shape, otherwise the name and version they carry
/// (a field missing from both lines stays empty).
pub open spec fn minifest_of_lines(l0: Seq<char>, l1: Seq<char>) -> Option<(Seq<char>, Seq<char>)> {
    match (attr_of_line(l0), attr_of_line(l1)) {
        (Some(a0), Some(a1)) => Some(
            apply_attr(a1, apply_attr(a0, (Seq::<char>::empty(), Seq::<char>::empty()))),
        ),
        _ => None,
    }
}

/// Split one probe line at its first colon, lower-casing the key and cutting
/// the value at the next colon.
fn split_line(line: &str) -> (r: Option<(String, String)>)
    ensures
        match r {
            Some((k, v)) => attr_of_line(line@) == Some((k@, v@)),
            None => attr_of_line(line@) is None,
        },
{
    let len = line.unicode_len();
    let mut i: usize = 0;
    while i < len && line.get_char(i) != ':'
        invariant
            len == line@.len(),
            i <= len,
            forall|k: int| 0 <= k < i ==> line@[k] != ':',
        decreases len - i,
    {
        i += 1;
    }
    if i == len {
        proof {
            lemma_find_char_none(line@, ':');
        }
        return None;
    }
    proof {
        lemma_find_char_at(line@, ':', i as int);
    }
    let key = to_lower(line.substring_char(0, i));
    let mut j: usize = i + 1;
    while j < len && line.get_char(j) != ':'
        invariant
            len == line@.len(),
            i < j <= len,
            forall|k: int| i < k < j ==> line@[k] != ':',
        decreases len - j,
    {
        j += 1;
    }
    let value = line.substring_char(i + 1, j).to_owned();
    proof {
        let rest = line@.subrange(i + 1, len as int);
        if j == len {
            lemma_find_char_none(rest, ':');
            assert(value@ =~= rest);
        } else {
            lemma_find_char_at(rest, ':', j - i - 1);
            assert(value@ =~= rest.subrange(0, j - i - 1));
        }
    }
    Some((key, value))
}

impl Minifest {
    /// Pair a name with a version.
    pub fn new(name: &str, version: &str) -> (r: Minifest)
        ensures
            r.name@ == name@,
            r.version@ == version@,
    {
        Minifest { name: name.to_owned(), version: version.to_owned() }
    }

    /// Assemble the Minifest from the `key:value` lines that the caller's
    /// manifest probe read off the project's directory on disk. The probe
    /// hands over one line per manifest field; the first two carry the name
    /// and the version, in either order.
    pub fn from_disk(lines: &Vec<String>) -> (r: Result<Minifest, RemoteBuildError>)
        ensures
            match r {
                Ok(m) => lines.len() >= 2 && minifest_of_lines(
                    lines.deep_view()[0],
                    lines.deep_view()[1],
                ) == Some((m.name@, m.version@)),
                Err(e) => {
                    &&& lines.len() < 2 ==> e is ShellFnError
                    &&& lines.len() >= 2 ==> e is ConversionError && minifest_of_lines(
                        lines.deep_view()[0],
                        lines.deep_view()[1],
                    ) is None
                },
            },
    {
        if lines.len() == 0 {
            return Err(
                RemoteBuildError::ShellFnError(
                    "Unable to get name from manifest. Perhaps the manifest was not found?".to_owned(),
                ),
            );
        }
        if lines.len() == 1 {
            return Err(
                RemoteBuildError::ShellFnError("Unable to get version from manifest.".to_owned()),
            );
        }
        let mut name = String::new();
        let mut version = String::new();
        let ghost acc0 = (Seq::<char>::empty(), Seq::<char>::empty());
        let a0 = split_line(lines[0].as_str());
        let a1 = split_line(lines[1].as_str());
        let (k0, v0) = match a0 {
            Some(kv) => kv,
            None => {
                return Err(
                    RemoteBuildError::ConversionError(
                        "manifest line holds no key:value pair".to_owned(),
                    ),
                );
            },
        };
        let (k1, v1) = match a1 {
            Some(kv) => kv,
            None => {
                return Err(
                    RemoteBuildError::ConversionError(
                        "manifest line holds no key:value pair".to_owned(),
                    ),
                );
            },
        };
        let ghost acc1 = apply_attr((k0@, v0@), acc0);
        let ghost acc2 = apply_attr((k1@, v1@), acc1);
        if str_eq(k0.as_str(), "name") {
            name = v0;
        } else if str_eq(k0.as_str(), "version") {
            version = v0;
        }
        assert(name@ == acc1.0 && version@ == acc1.1);
        if str_eq(k1.as_str(), "name") {
            name = v1;
        } else if str_eq(k1.as_str(), "version") {
            version = v1;
        }
        assert(name@ == acc2.0 && version@ == acc2.1);
        Ok(Minifest { name, version })
    }
}

} // verus!
