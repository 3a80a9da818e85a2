use vstd::prelude::*;
use crate::client::RepoClient;
use crate::error::{CliError, classified, user_message, exit_status};
use crate::repo::Repo;
use crate::summary::{summarize, summary, texts};

verus! {

/// What one run shows: the lines for standard output, the message for the
/// error stream, and the exit status.
pub struct Outcome {
    pub lines: Vec<String>,
    pub error: Option<String>,
    pub exit_code: i32,
}

/// Whether `o` reports `fetched`: the summary and status 0 on success; on
/// failure no repository line, the failure's message and its exit status.
pub open spec fn reports(o: Outcome, fetched: Result<Vec<Repo>, CliError>) -> bool {
    match fetched {
        Ok(repos) => {
            &&& texts(o.lines@) == summary(repos@)
            &&& o.error is None
            &&& o.exit_code == 0
        },
        Err(e) => {
            &&& o.lines@.len() == 0
            &&& o.error matches Some(m) && m@ == user_message(e)
            &&& o.exit_code == exit_status(e)
        },
    }
}

/// Turns the result of a fetch into what the run shows.
pub fn report(fetched: Result<Vec<Repo>, CliError>) -> (o: Outcome)
    ensures
        reports(o, fetched),
{
    match fetched {
        Ok(repos) => Outcome { lines: summarize(repos), error: None, exit_code: 0 },
        Err(e) => Outcome { lines: Vec::new(), error: Some(e.message()), exit_code: e.exit_status() },
    }
}

/// Fetches the repositories of `org` once and reports the result. Either
/// the whole summary is shown and the run succeeds, or no repository line is
/// shown and the run fails.
pub fn run<C: RepoClient>(client: &C, org: &str) -> (o: Outcome)
    ensures
        exists|fetched: Result<Vec<Repo>, CliError>| reports(o, fetched),
        (o.error is None && o.exit_code == 0) || (o.lines@.len() == 0 && o.error is Some
            && o.exit_code != 0),
{
    let fetched = client.fetch_repos(org);
    report(fetched)
}

/// A fetch that the backend answered with "not found" shows no repository
/// line, only the not-found message, and exits with that failure's status.
pub proof fn lemma_not_found_shows_no_repository(
    o: Outcome,
    status: Option<u16>,
    decode: bool,
    cause: String,
)
    requires
        status == Some(404u16),
        reports(o, Err(classified(status, decode, cause))),
    ensures
        o.lines@.len() == 0,
        o.error matches Some(m) && m@ == user_message(CliError::NotFound),
        o.exit_code == exit_status(CliError::NotFound),
        o.exit_code != 0,
{
}

/// A response body that could not be decoded shows no repository line, and
/// the one error message ends with the description of the parse problem.
pub proof fn lemma_malformed_shows_no_repository(o: Outcome, reason: String)
    requires
        reports(o, Err(classified(None, true, reason))),
    ensures
        o.lines@.len() == 0,
        o.error matches Some(m) && m@.len() >= reason@.len() && m@.subrange(
            m@.len() - reason@.len(),
            m@.len() as int,
        ) == reason@,
        o.exit_code == exit_status(CliError::Json(reason)),
        o.exit_code != 0,
{
    let m = o.error->0;
    let prefix = "Error: the data returned by the server does not match the expected shape: "@;
    assert(m@ == prefix + reason@);
    assert(m@.subrange(m@.len() - reason@.len(), m@.len() as int) =~= reason@);
}

} // verus!
