//! Fixed configuration of the build server and of the default platform.

use vstd::prelude::*;

verus! {

/// Host name of the build server, without the domain.
pub const BUILD_SERVER: &'static str = "automaton";

/// Domain of the build server.
pub const BUILD_DOMAIN: &'static str = "d2.com";

/// Port the build server listens on.
pub const BUILD_SERVER_PORT: u32 = 5000;

/// Route of the generic build-distribution pipeline job.
pub const BUILD_ROUTE: &'static str = "job/Plans/job/BuildDistributionPipeline/build";

/// Environment variable naming the machine's OS.
pub const OS_VAR: &'static str = "DD_OS";

/// User the requests authenticate as.
pub const USERNAME: &'static str = "automaton";

/// That user's password.
pub const PASSWORD: &'static str = "automatonAdmin!";

/// Platform assumed when the user names none.
pub const DEFAULT_PLATFORM: &'static str = "cent7";

} // verus!
