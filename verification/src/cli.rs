//! The resolved command-line options, as plain values. The binary around the
//! library parses the actual arguments and fills this in.

use vstd::prelude::*;

verus! {

/// Everything the user may say on the command line that the resolver reads.
#[derive(Debug)]
pub struct Opt {
    /// One or more comma-separated flavours. By default the flavors defined
    /// in the manifest are built, or the vanilla flavor when there are none.
    pub flavours: Option<String>,
    /// The American spelling of `flavours`; supplying both is a usage error.
    pub flavors: Option<String>,
    /// The name of the package.
    pub name: String,
    /// The tag to build.
    pub tag: String,
    /// One or more comma-separated platforms to build for, case-insensitive.
    pub platforms: Option<String>,
    /// Look the full flavor list up in the package index and build all of
    /// them, ignoring any supplied flavor string.
    pub all_flavors: bool,
    /// Provide verbose feedback to stdout.
    pub verbose: bool,
    /// Report on the choices made, but do not actually execute a remote
    /// build.
    pub dry_run: bool,
    /// Ask the user to confirm before submitting the job.
    pub prompt: bool,
}

} // verus!
