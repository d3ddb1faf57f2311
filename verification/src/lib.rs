/*!
Core logic of the `pkg-build-remote` command: typed build parameters, the
two build-request shapes, and the resolution algorithm that turns optional
command-line inputs into a deterministic, validated sequence of requests
for the remote build server.
*/

pub mod build_param_type;
pub mod build_parameter;
pub mod build_request;
pub mod build_server;
pub mod cli;
pub mod constants;
pub mod errors;
pub mod flavor;
pub mod from_gpi;
pub mod from_manifest;
pub mod gpi;
pub mod jsonenc;
pub mod minifest;
pub mod packalaka_tags;
pub mod package_build_request;
pub mod platform;
pub mod strutil;
pub mod utils;
pub mod vcs_system;
pub mod wire;

pub use build_param_type::BuildParamType;
pub use build_parameter::{BuildParameter, BuildParameters};
pub use build_request::BuildRequest;
pub use build_server::BuildServer;
pub use cli::Opt;
pub use errors::RemoteBuildError;
pub use flavor::Flavours;
pub use minifest::Minifest;
pub use package_build_request::PackageBuildRequest;
pub use platform::Platform;
pub use strutil::str_eq;
pub use utils::UserBuildRequest;
pub use vcs_system::VcsSystem;
