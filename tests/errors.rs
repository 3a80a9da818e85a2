use git_client::{report, run, CliError, GithubClient, Outcome, RepoClient, Repo};

fn reqwest_response(status: u16, body: &'static str) -> reqwest::blocking::Response {
    let response = http::Response::builder().status(status).body(body).unwrap();
    reqwest::blocking::Response::from(response)
}

struct FixedClient(Result<Vec<(u32, &'static str)>, CliError>);

impl RepoClient for FixedClient {
    fn fetch_repos(&self, _org: &str) -> Result<Vec<Repo>, CliError> {
        match &self.0 {
            Ok(items) => Ok(items
                .iter()
                .map(|(stars, name)| Repo::new(*stars, name.to_string(), None))
                .collect()),
            Err(e) => Err(e.clone()),
        }
    }
}

fn assert_no_repository_lines(outcome: &Outcome) {
    assert!(outcome.lines.is_empty());
    assert!(outcome.error.is_some());
    assert_ne!(outcome.exit_code, 0);
}

#[test]
fn status_404_is_not_found() {
    let err = reqwest_response(404, "").error_for_status().err().unwrap();
    let kind = CliError::from_reqwest(err);
    assert_eq!(kind, CliError::NotFound);
    let outcome = report(Err(kind));
    assert_no_repository_lines(&outcome);
    assert_eq!(
        outcome.error.as_deref(),
        Some("Error: the requested organization was not found")
    );
    assert_eq!(outcome.exit_code, 2);
}

#[test]
fn other_error_status_is_http() {
    let err = reqwest_response(500, "").error_for_status().err().unwrap();
    let text = err.to_string();
    let kind = CliError::from_reqwest(err);
    assert_eq!(kind, CliError::Http(text.clone()));
    assert!(text.contains("500"));
    let outcome = report(Err(kind));
    assert_no_repository_lines(&outcome);
    assert_eq!(outcome.exit_code, 1);
}

#[test]
fn status_403_is_http_not_not_found() {
    let err = reqwest_response(403, "").error_for_status().err().unwrap();
    assert!(matches!(CliError::from_reqwest(err), CliError::Http(_)));
}

#[test]
fn malformed_body_is_json_error() {
    let err = reqwest_response(200, "{\"message\": \"no list here\"}")
        .json::<Vec<serde_json::Value>>()
        .err()
        .unwrap();
    let text = err.to_string();
    let kind = CliError::from_reqwest(err);
    assert_eq!(kind, CliError::Json(text));
    let outcome = report(Err(kind));
    assert_no_repository_lines(&outcome);
    assert_eq!(outcome.exit_code, 3);
}

#[test]
fn missing_fields_report_malformed_response() {
    let reason = "missing field `stargazers_count` at line 1 column 14".to_string();
    let kind = CliError::classify(None, true, reason.clone());
    assert_eq!(kind, CliError::Json(reason.clone()));
    assert_eq!(
        kind.to_string(),
        format!("JSON parse error: {}", reason)
    );
    let outcome = run(&FixedClient(Err(kind)), "sysart");
    assert_no_repository_lines(&outcome);
    assert_eq!(
        outcome.error.unwrap(),
        format!(
            "Error: the data returned by the server does not match the expected shape: {}",
            reason
        )
    );
}

#[test]
fn classify_covers_every_kind() {
    assert_eq!(CliError::classify(Some(404), false, "c".to_string()), CliError::NotFound);
    assert_eq!(
        CliError::classify(Some(500), false, "c".to_string()),
        CliError::Http("c".to_string())
    );
    assert_eq!(
        CliError::classify(None, false, "timeout".to_string()),
        CliError::Http("timeout".to_string())
    );
    assert_eq!(
        CliError::classify(None, true, "bad".to_string()),
        CliError::Json("bad".to_string())
    );
}

#[test]
fn descriptions_and_messages() {
    assert_eq!(CliError::NotFound.to_string(), "Organization not found");
    assert_eq!(CliError::Http("refused".to_string()).to_string(), "refused");
    assert_eq!(
        CliError::Http("refused".to_string()).message(),
        "Error: HTTP connection failed - refused"
    );
    assert_eq!(CliError::Http("x".to_string()).exit_status(), 1);
    assert_eq!(CliError::NotFound.exit_status(), 2);
    assert_eq!(CliError::Json("x".to_string()).exit_status(), 3);
}

#[test]
fn not_found_run_prints_no_repository_lines() {
    let outcome = run(&FixedClient(Err(CliError::NotFound)), "missing-org");
    assert_no_repository_lines(&outcome);
    assert_eq!(outcome.exit_code, 2);
}

#[test]
fn successful_run_shows_the_summary() {
    let outcome = run(&FixedClient(Ok(vec![(5, "a"), (0, "b"), (20, "c")])), "sysart");
    assert_eq!(
        outcome.lines,
        vec![
            "Name: c, language: not specified, 20".to_string(),
            "Name: a, language: not specified, 5".to_string(),
        ]
    );
    assert!(outcome.error.is_none());
    assert_eq!(outcome.exit_code, 0);
}

#[test]
fn empty_fetch_succeeds_with_no_lines() {
    let outcome = report(Ok(Vec::new()));
    assert!(outcome.lines.is_empty());
    assert!(outcome.error.is_none());
    assert_eq!(outcome.exit_code, 0);
}

#[test]
fn request_names_the_organization() {
    let client = GithubClient::new();
    assert_eq!(
        client.repos_url("sysart"),
        "https://api.github.com/orgs/sysart/repos?per_page=100"
    );
    assert_eq!(client.accept(), "application/vnd.github.v3+json");
    assert_eq!(client.user_agent(), "rust-test");
}
