//! Ranks an organization's repositories by star count and renders one line
//! per starred repository.

pub mod repo;
pub mod summary;
pub mod error;
pub mod client;
pub mod report;

pub use client::{GithubClient, RepoClient};
pub use error::CliError;
pub use repo::Repo;
pub use report::{report, run, Outcome};
pub use summary::{rank, summarize};
