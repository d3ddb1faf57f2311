//! Records of the package-index service: package types, source entries and
//! the name-keyed collection of records.

use vstd::prelude::*;
use vstd::string::StringExecFns;

use crate::errors::RemoteBuildError;
use crate::strutil::str_eq;
use crate::vcs_system::{vcs_of, VcsSystem, VcsSystemView};

verus! {

/// A list of valid package types.
#[derive(Debug, PartialEq, Eq, Structural, Clone, Copy)]
pub enum PackageType {
    Port,
    Source,
    Commercial,
    Unknown,
}

/// The exact spellings the index service uses for each package type.
pub open spec fn package_type_of(s: Seq<char>) -> Option<PackageType> {
    if s == "port"@ || s == "Port"@ {
        Some(PackageType::Port)
    } else if s == "source"@ || s == "Source"@ {
        Some(PackageType::Source)
    } else if s == "commercial"@ || s == "Commercial"@ || s == "comm"@ {
        Some(PackageType::Commercial)
    } else {
        None
    }
}

impl PackageType {
    /// Parse one of the accepted package-type spellings.
    pub fn from_str(s: &str) -> (r: Result<PackageType, RemoteBuildError>)
        ensures
            match r {
                Ok(t) => package_type_of(s@) == Some(t),
                Err(e) => package_type_of(s@) is None && e is ConversionError,
            },
    {
        if str_eq(s, "port") || str_eq(s, "Port") {
            Ok(PackageType::Port)
        } else if str_eq(s, "source") || str_eq(s, "Source") {
            Ok(PackageType::Source)
        } else if str_eq(s, "commercial") || str_eq(s, "Commercial") || str_eq(s, "comm") {
            Ok(PackageType::Commercial)
        } else {
            Err(RemoteBuildError::ConversionError("not a known package type".to_owned()))
        }
    }

    /// Whether the type is a recognized one.
    pub fn is_valid(&self) -> (r: bool)
        ensures
            r == !(*self is Unknown),
    {
        match self {
            PackageType::Unknown => false,
            _ => true,
        }
    }
}

impl From<&str> for PackageType {
    /// Parse a package type, falling back to `Unknown`.
    fn from(pkg_type: &str) -> (r: PackageType) {
        match PackageType::from_str(pkg_type) {
            Ok(t) => t,
            Err(_) => PackageType::Unknown,
        }
    }
}

impl vstd::std_specs::convert::FromSpecImpl<&str> for PackageType {
    open spec fn obeys_from_spec() -> bool {
        true
    }

    open spec fn from_spec(v: &str) -> PackageType {
        match package_type_of(v@) {
            Some(t) => t,
            None => PackageType::Unknown,
        }
    }
}

/// The lifecycle status of a source entry.
#[derive(Debug, PartialEq, Eq, Structural, Clone, Copy)]
pub enum SourceStatus {
    Active,
    Retired,
    Unknown,
}

/// The exact spellings the index service uses for each source status.
pub open spec fn source_status_of(s: Seq<char>) -> Option<SourceStatus> {
    if s == "active"@ || s == "Active"@ {
        Some(SourceStatus::Active)
    } else if s == "retired"@ || s == "Retired"@ {
        Some(SourceStatus::Retired)
    } else {
        None
    }
}

impl SourceStatus {
    /// Parse one of the accepted status spellings.
    pub fn from_str(s: &str) -> (r: Result<SourceStatus, RemoteBuildError>)
        ensures
            match r {
                Ok(t) => source_status_of(s@) == Some(t),
                Err(e) => source_status_of(s@) is None && e is ConversionError,
            },
    {
        if str_eq(s, "active") || str_eq(s, "Active") {
            Ok(SourceStatus::Active)
        } else if str_eq(s, "retired") || str_eq(s, "Retired") {
            Ok(SourceStatus::Retired)
        } else {
            Err(RemoteBuildError::ConversionError("not a known source status".to_owned()))
        }
    }

    /// Whether the status is a recognized one.
    pub fn is_valid(&self) -> (r: bool)
        ensures
            r == !(*self is Unknown),
    {
        match self {
            SourceStatus::Unknown => false,
            _ => true,
        }
    }
}

impl From<&str> for SourceStatus {
    /// Parse a source status, falling back to `Unknown`.
    fn from(stat: &str) -> (r: SourceStatus) {
        match SourceStatus::from_str(stat) {
            Ok(t) => t,
            Err(_) => SourceStatus::Unknown,
        }
    }
}

impl vstd::std_specs::convert::FromSpecImpl<&str> for SourceStatus {
    open spec fn obeys_from_spec() -> bool {
        true
    }

    open spec fn from_spec(v: &str) -> SourceStatus {
        match source_status_of(v@) {
            Some(t) => t,
            None => SourceStatus::Unknown,
        }
    }
}

/// A location for package source code within a VCS system, of which a record
/// may carry several.
#[derive(Debug)]
pub struct Source {
    init_submodules: bool,
    link: String,
    status: SourceStatus,
    tags: String,
    uses: VcsSystem,
}

/// The mathematical shadow of [`Source`].
pub struct SourceView {
    pub init_submodules: bool,
    pub link: Seq<char>,
    pub status: SourceStatus,
    pub tags: Seq<char>,
    pub uses: VcsSystemView,
}

impl View for Source {
    type V = SourceView;

    closed spec fn view(&self) -> SourceView {
        SourceView {
            init_submodules: self.init_submodules,
            link: self.link@,
            status: self.status,
            tags: self.tags@,
            uses: self.uses@,
        }
    }
}

impl DeepView for Source {
    type V = SourceView;

    open spec fn deep_view(&self) -> SourceView {
        self.view()
    }
}

/// A source is valid when both its status and its VCS kind are recognized.
pub open spec fn source_valid(s: SourceView) -> bool {
    !(s.status is Unknown) && !(s.uses is Unknown)
}

impl Source {
    /// Create a new source from the raw strings of an index record; the
    /// status and VCS kind are parsed, keeping unrecognized spellings as
    /// `Unknown`.
    pub fn new(init_submodules: bool, link: &str, status: &str, tags: &str, uses: &str) -> (r:
        Source)
        ensures
            r@.init_submodules == init_submodules,
            r@.link == link@,
            Some(r@.status) == source_status_of(status@) || (r@.status is Unknown
                && source_status_of(status@) is None),
            r@.tags == tags@,
            r@.uses == vcs_of(uses@),
    {
        Source {
            init_submodules,
            link: link.to_owned(),
            status: SourceStatus::from(status),
            tags: tags.to_owned(),
            uses: VcsSystem::from_str(uses),
        }
    }

    /// Whether the source is usable: an invalid source has an unknown status
    /// or an unknown VCS kind.
    pub fn is_valid(&self) -> (r: bool)
        ensures
            r == source_valid(self@),
    {
        self.status.is_valid() && self.uses.is_valid()
    }
}

impl PartialEq for Source {
    /// Sources are equal field by field.
    fn eq(&self, other: &Source) -> (r: bool) {
        let statuses_eq = match (&self.status, &other.status) {
            (SourceStatus::Active, SourceStatus::Active) => true,
            (SourceStatus::Retired, SourceStatus::Retired) => true,
            (SourceStatus::Unknown, SourceStatus::Unknown) => true,
            _ => false,
        };
        self.init_submodules == other.init_submodules && str_eq(
            self.link.as_str(),
            other.link.as_str(),
        ) && statuses_eq && str_eq(self.tags.as_str(), other.tags.as_str()) && self.uses.eq(
            &other.uses,
        )
    }
}

impl vstd::std_specs::cmp::PartialEqSpecImpl for Source {
    open spec fn obeys_eq_spec() -> bool {
        true
    }

    open spec fn eq_spec(&self, other: &Source) -> bool {
        self@ == other@
    }
}

/// A record of the package index: a package type and a list of sources.
#[derive(Debug, PartialEq)]
pub struct Record {
    sources: Vec<Source>,
    pkg_type: PackageType,
}

/// The mathematical shadow of [`Record`].
pub struct RecordView {
    pub sources: Seq<SourceView>,
    pub pkg_type: PackageType,
}

impl View for Record {
    type V = RecordView;

    closed spec fn view(&self) -> RecordView {
        RecordView { sources: self.sources.deep_view(), pkg_type: self.pkg_type }
    }
}

impl DeepView for Record {
    type V = RecordView;

    open spec fn deep_view(&self) -> RecordView {
        self.view()
    }
}

/// A record is valid when its package type and all of its sources are.
pub open spec fn record_valid(r: RecordView) -> bool {
    !(r.pkg_type is Unknown) && forall|j: int|
        0 <= j < r.sources.len() ==> source_valid(#[trigger] r.sources[j])
}

impl Record {
    /// A new record of the given type, with no sources yet; an unrecognized
    /// type spelling yields an invalid record.
    pub fn new(pkg_type: &str) -> (r: Record)
        ensures
            r@.sources.len() == 0,
            Some(r@.pkg_type) == package_type_of(pkg_type@) || (r@.pkg_type is Unknown
                && package_type_of(pkg_type@) is None),
    {
        let r = Record { sources: Vec::new(), pkg_type: PackageType::from(pkg_type) };
        proof {
            assert(r@.sources =~= Seq::<SourceView>::empty());
        }
        r
    }

    /// Append a source to the record's list of sources.
    pub fn add_source(&mut self, source: Source)
        ensures
            final(self)@.sources == old(self)@.sources.push(source@),
            final(self)@.pkg_type == old(self)@.pkg_type,
    {
        let ghost pre = self.sources.deep_view();
        let ghost sv = source@;
        self.sources.push(source);
        proof {
            assert(self.sources.deep_view() =~= pre.push(sv));
        }
    }

    /// Retrieve the source at the given index; unlike index notation this
    /// does not panic on an out-of-bounds index.
    pub fn get(&self, idx: usize) -> (r: Option<&Source>)
        ensures
            match r {
                Some(s) => idx < self@.sources.len() && s@ == self@.sources[idx as int],
                None => idx >= self@.sources.len(),
            },
    {
        if idx >= self.sources.len() {
            None
        } else {
            Some(&self.sources[idx])
        }
    }

    /// Whether the record's package type and every one of its sources are
    /// recognized.
    pub fn is_valid(&self) -> (r: bool)
        ensures
            r == record_valid(self@),
    {
        if !self.pkg_type.is_valid() {
            return false;
        }
        let mut i: usize = 0;
        while i < self.sources.len()
            invariant
                i <= self.sources.len(),
                forall|j: int| 0 <= j < i ==> source_valid(#[trigger] self@.sources[j]),
            decreases self.sources.len() - i,
        {
            if !self.sources[i].is_valid() {
                assert(!source_valid(self@.sources[i as int]));
                return false;
            }
            i += 1;
        }
        true
    }
}

/// A first-match lookup among name-keyed records.
pub open spec fn lookup(entries: Seq<(Seq<char>, RecordView)>, key: Seq<char>) -> Option<
    RecordView,
>
    decreases entries.len(),
{
    if entries.len() == 0 {
        None
    } else if entries[0].0 == key {
        Some(entries[0].1)
    } else {
        lookup(entries.drop_first(), key)
    }
}

/// The root container for the records of the package index, keyed by package
/// name. Names are unique, as they are in the service's JSON document.
#[derive(Debug, PartialEq)]
pub struct GpiRecords {
    inner: Vec<(String, Record)>,
}

impl View for GpiRecords {
    type V = Seq<(Seq<char>, RecordView)>;

    closed spec fn view(&self) -> Seq<(Seq<char>, RecordView)> {
        self.inner.deep_view()
    }
}

/// Whether the keys of a record list are pairwise distinct.
pub open spec fn keys_unique(entries: Seq<(Seq<char>, RecordView)>) -> bool {
    forall|i: int, j: int|
        0 <= i < j < entries.len() ==> (#[trigger] entries[i]).0 != (#[trigger] entries[j]).0
}

impl GpiRecords {
    /// An empty record set.
    pub fn new() -> (r: GpiRecords)
        ensures
            r@.len() == 0,
            keys_unique(r@),
    {
        let r = GpiRecords { inner: Vec::new() };
        proof {
            assert(r@ =~= Seq::<(Seq<char>, RecordView)>::empty());
        }
        r
    }

    /// Add a record under a package name not yet present.
    pub fn insert(&mut self, package: String, record: Record)
        requires
            lookup(old(self)@, package@) is None,
        ensures
            final(self)@ == old(self)@.push((package@, record@)),
    {
        let ghost pre = self.inner.deep_view();
        let ghost kv = (package@, record@);
        self.inner.push((package, record));
        proof {
            assert(self.inner.deep_view() =~= pre.push(kv));
        }
    }

    /// The number of packages in the set.
    pub fn len(&self) -> (r: usize)
        ensures
            r == self@.len(),
    {
        self.inner.len()
    }

    /// Whether a package is represented in the set.
    pub fn has(&self, package: &str) -> (r: bool)
        ensures
            r == (lookup(self@, package@) is Some),
    {
        self.get(package).is_some()
    }

    /// Retrieve a package record by name.
    pub fn get(&self, package: &str) -> (r: Option<&Record>)
        ensures
            match r {
                Some(rec) => lookup(self@, package@) == Some(rec@),
                None => lookup(self@, package@) is None,
            },
    {
        let mut i: usize = 0;
        proof {
            assert(self@.subrange(0, self@.len() as int) =~= self@);
        }
        while i < self.inner.len()
            invariant
                i <= self.inner.len(),
                self@.len() == self.inner.len(),
                self@ == self.inner.deep_view(),
                lookup(self@, package@) == lookup(
                    self@.subrange(i as int, self@.len() as int),
                    package@,
                ),
            decreases self.inner.len() - i,
        {
            let ghost rem = self@.subrange(i as int, self@.len() as int);
            if str_eq(self.inner[i].0.as_str(), package) {
                return Some(&self.inner[i].1);
            }
            proof {
                assert(rem.drop_first() =~= self@.subrange(i + 1, self@.len() as int));
            }
            i += 1;
        }
        proof {
            assert(self@.subrange(self@.len() as int, self@.len() as int) =~= Seq::<
                (Seq<char>, RecordView),
            >::empty());
        }
        None
    }
}

} // verus!
