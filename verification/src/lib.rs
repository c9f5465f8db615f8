//! Update-discovery and asset-retrieval layer of a self-update mechanism.
//!
//! Given an application's identity and a release channel, each source backend
//! answers two questions: which release assets are available, and how to fetch
//! one of them to a local path. Three backends are provided: a static HTTP
//! host, a local or network-mounted directory, and GitHub Releases (including
//! GitHub Enterprise servers). Transport is injected by the caller as plain
//! closures, so the backends hold only immutable configuration and all URL,
//! path and selection logic is verified here.

pub mod error;
pub mod feed;
pub mod file_source;
pub mod github_source;
pub mod http_source;
pub mod jsondoc;
pub mod text;
pub mod urls;

pub use error::SourceError;
pub use feed::AppIdentity;
pub use feed::VelopackAsset;
pub use feed::VelopackAssetFeed;
pub use file_source::FileSource;
pub use github_source::GithubAsset;
pub use github_source::GithubRelease;
pub use github_source::GithubUpdateSource;
pub use http_source::HttpSource;
