use atlas::github::{ApiError, GitHubClient, Method, Operation};
use atlas::retry::{RequestError, Transient};

fn pairs(items: &[(&str, &str)]) -> Vec<(String, String)> {
    items.iter().map(|(k, v)| (k.to_string(), v.to_string())).collect()
}

#[test]
fn test_new_client_default_base_url() {
    let client = GitHubClient::new("owner".into(), "repo".into(), "token".into());
    assert_eq!(client.base_url, "https://api.github.com");
    assert_eq!(client.owner, "owner");
    assert_eq!(client.repo, "repo");
}

#[test]
fn test_with_base_url_trims_trailing_slash() {
    let client = GitHubClient::with_base_url(
        "owner".into(),
        "repo".into(),
        "token".into(),
        "https://github.example.com/api/v3/".into(),
    );
    assert_eq!(client.base_url, "https://github.example.com/api/v3");
}

#[test]
fn test_client_is_clone() {
    let client = GitHubClient::new("owner".into(), "repo".into(), "token".into());
    let cloned = client.clone();
    assert_eq!(cloned.owner, client.owner);
    assert_eq!(cloned.repo, client.repo);
    assert_eq!(cloned.base_url, client.base_url);
}

#[test]
fn base_url_loses_every_trailing_slash() {
    let client =
        GitHubClient::new_with_token_and_base("token".into(), "https://ghe.test/api///".into());
    assert_eq!(client.base_url, "https://ghe.test/api");
    assert_eq!(client.owner, "");
    assert_eq!(client.repo, "");
    let bare = GitHubClient::new_with_token_and_base("token".into(), "///".into());
    assert_eq!(bare.base_url, "");
    let inner = GitHubClient::new_with_token_and_base("t".into(), "a/b".into());
    assert_eq!(inner.base_url, "a/b");
}

#[test]
fn browsing_client_has_no_repository() {
    let client = GitHubClient::new_with_token("token".into());
    assert_eq!(client.base_url, "https://api.github.com");
    assert_eq!(client.token, "token");
    assert_eq!(client.owner, "");
    assert_eq!(client.repo, "");
}

#[test]
fn set_repo_keeps_token_and_base() {
    let mut client = GitHubClient::new_with_token("token".into());
    client.set_repo("octo".into(), "hello".into());
    assert_eq!(client.owner, "octo");
    assert_eq!(client.repo, "hello");
    assert_eq!(client.token, "token");
    assert_eq!(client.base_url, "https://api.github.com");
}

#[test]
fn every_request_carries_the_standard_headers() {
    let client = GitHubClient::new("octo".into(), "hello".into(), "tok".into());
    let expected = pairs(&[
        ("user-agent", "atlas-prod-monitor"),
        ("accept", "application/vnd.github+json"),
        ("authorization", "Bearer tok"),
    ]);
    assert_eq!(client.get_user_repos(100, 1).headers, expected);
    assert_eq!(client.get_workflow_runs(20, 1, None, None).headers, expected);
    assert_eq!(client.get_jobs(1).headers, expected);
    assert_eq!(client.get_job_logs(1).headers, expected);
    assert_eq!(client.rerun_workflow(1).headers, expected);
    assert_eq!(client.cancel_workflow(1).headers, expected);
}

#[test]
fn list_repositories_request() {
    let client = GitHubClient::new_with_token("t".into());
    let request = client.get_user_repos(100, 3);
    assert_eq!(request.method, Method::Get);
    assert_eq!(request.url, "https://api.github.com/user/repos");
    assert_eq!(
        request.query,
        pairs(&[
            ("per_page", "100"),
            ("page", "3"),
            ("sort", "pushed"),
            ("direction", "desc"),
            ("type", "all"),
        ])
    );
}

#[test]
fn list_runs_request_with_filters() {
    let client = GitHubClient::with_base_url(
        "octo".into(),
        "hello".into(),
        "t".into(),
        "https://ghe.test/api/v3/".into(),
    );
    let plain = client.get_workflow_runs(20, 2, None, None);
    assert_eq!(plain.method, Method::Get);
    assert_eq!(plain.url, "https://ghe.test/api/v3/repos/octo/hello/actions/runs");
    assert_eq!(plain.query, pairs(&[("per_page", "20"), ("page", "2")]));
    let branch = client.get_workflow_runs(255, 18446744073709551615, Some("main"), None);
    assert_eq!(
        branch.query,
        pairs(&[("per_page", "255"), ("page", "18446744073709551615"), ("branch", "main")])
    );
    let status = client.get_workflow_runs(0, 0, None, Some("queued"));
    assert_eq!(status.query, pairs(&[("per_page", "0"), ("page", "0"), ("status", "queued")]));
    let both = client.get_workflow_runs(1, 1, Some("dev"), Some("completed"));
    assert_eq!(
        both.query,
        pairs(&[("per_page", "1"), ("page", "1"), ("branch", "dev"), ("status", "completed")])
    );
}

#[test]
fn run_and_job_requests() {
    let client = GitHubClient::new("octo".into(), "hello".into(), "t".into());
    let jobs = client.get_jobs(42);
    assert_eq!(jobs.method, Method::Get);
    assert_eq!(jobs.url, "https://api.github.com/repos/octo/hello/actions/runs/42/jobs");
    assert_eq!(jobs.query, pairs(&[("per_page", "100")]));
    let logs = client.get_job_logs(9001);
    assert_eq!(logs.method, Method::Get);
    assert_eq!(logs.url, "https://api.github.com/repos/octo/hello/actions/jobs/9001/logs");
    assert!(logs.query.is_empty());
    let rerun = client.rerun_workflow(7);
    assert_eq!(rerun.method, Method::Post);
    assert_eq!(rerun.url, "https://api.github.com/repos/octo/hello/actions/runs/7/rerun");
    assert!(rerun.query.is_empty());
    let cancel = client.cancel_workflow(0);
    assert_eq!(cancel.method, Method::Post);
    assert_eq!(cancel.url, "https://api.github.com/repos/octo/hello/actions/runs/0/cancel");
    assert!(cancel.query.is_empty());
}

#[test]
fn prepare_joins_base_and_path() {
    let client = GitHubClient::new_with_token("t".into());
    let request = client.prepare(Method::Post, "/x/y", pairs(&[("a", "b")]));
    assert_eq!(request.method, Method::Post);
    assert_eq!(request.url, "https://api.github.com/x/y");
    assert_eq!(request.query, pairs(&[("a", "b")]));
}

#[test]
fn failure_summaries() {
    let fetch = |operation| ApiError {
        operation,
        cause: RequestError::ExhaustedRetries { last: Some(Transient::RateLimited) },
    };
    let decode = |operation| ApiError {
        operation,
        cause: RequestError::DecodeError { detail: "bad".to_string() },
    };
    assert_eq!(fetch(Operation::ListRepositories).summary(), "Failed to fetch repositories");
    assert_eq!(fetch(Operation::ListRuns).summary(), "Failed to fetch workflow runs");
    assert_eq!(fetch(Operation::ListJobs).summary(), "Failed to fetch jobs");
    assert_eq!(fetch(Operation::FetchLogs).summary(), "Failed to fetch job logs");
    assert_eq!(fetch(Operation::Rerun).summary(), "Failed to re-run workflow");
    assert_eq!(fetch(Operation::Cancel).summary(), "Failed to cancel workflow");
    assert_eq!(
        decode(Operation::ListRepositories).summary(),
        "Failed to parse repositories response"
    );
    assert_eq!(decode(Operation::ListRuns).summary(), "Failed to parse workflow runs response");
    assert_eq!(decode(Operation::ListJobs).summary(), "Failed to parse jobs response");
    assert_eq!(decode(Operation::FetchLogs).summary(), "Failed to read log body");
    assert_eq!(decode(Operation::Rerun).summary(), "Failed to re-run workflow");
    assert_eq!(decode(Operation::Cancel).summary(), "Failed to cancel workflow");
}
