use vstd::prelude::*;
use crate::error::CliError;
use crate::repo::Repo;

verus! {

/// A backend that lists the repositories of an organization.
///
/// An implementation sends the request for one hosting platform, such as the
/// one that `GithubClient` describes, and turns the answer into records.
pub trait RepoClient {
    /// The repositories of `org`, in the order the backend lists them, or the
    /// failure that prevented fetching them.
    fn fetch_repos(&self, org: &str) -> Result<Vec<Repo>, CliError>;
}

/// The media type asked for in the `Accept` header.
pub const ACCEPT_MEDIA_TYPE: &'static str = "application/vnd.github.v3+json";

/// The client name sent in the `User-Agent` header, which the backend requires.
pub const USER_AGENT_NAME: &'static str = "rust-test";

/// The address that lists up to one hundred repositories of `org` in one page.
pub open spec fn repos_url(org: Seq<char>) -> Seq<char> {
    "https://api.github.com/orgs/"@ + org + "/repos?per_page=100"@
}

/// The request that lists an organization's repositories on the GitHub REST
/// API: its address and headers. Sending it is left to a `RepoClient`.
pub struct GithubClient();

impl GithubClient {
    pub fn new() -> (c: GithubClient) {
        GithubClient()
    }

    /// The address of the request that lists the repositories of `org`.
    pub fn repos_url(&self, org: &str) -> (url: String)
        ensures
            url@ == repos_url(org@),
    {
        let mut url = String::from_str("https://api.github.com/orgs/");
        url.append(org);
        url.append("/repos?per_page=100");
        url
    }

    /// The value of the `Accept` header.
    pub fn accept(&self) -> (s: &'static str)
        ensures
            s@ == ACCEPT_MEDIA_TYPE@,
    {
        ACCEPT_MEDIA_TYPE
    }

    /// The value of the `User-Agent` header.
    pub fn user_agent(&self) -> (s: &'static str)
        ensures
            s@ == USER_AGENT_NAME@,
    {
        USER_AGENT_NAME
    }
}

} // verus!
