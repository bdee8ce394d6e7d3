//! The remote API facade: which HTTP request each operation is, and how a
//! failed operation is summed up.
//!
//! Nothing here touches the network. A [`GitHubClient`] holds the fixed parts
//! of every request (base URL, bearer token, target repository) and turns an
//! operation into an [`ApiRequest`], a plain description that the caller sends.

use vstd::prelude::*;
use vstd::string::StringExecFns;
use crate::retry::RequestError;
use crate::text::{
    chars_of, decimal_nat, decimal_string, owned, pairs_text, push_decimal_u64, string_of,
    trim_end, trimmed_len,
};

verus! {

/// The HTTP verbs the facade uses.
#[derive(Clone, Copy, Debug, PartialEq, Eq, Structural)]
pub enum Method {
    Get,
    Post,
}

/// One HTTP request, fully described.
#[derive(Debug)]
pub struct ApiRequest {
    pub method: Method,
    /// Base URL and path, without the query.
    pub url: String,
    /// Header names and values, in the order they are set.
    pub headers: Vec<(String, String)>,
    /// Query parameters, in order.
    pub query: Vec<(String, String)>,
}

/// An [`ApiRequest`] as plain text.
pub struct RequestModel {
    pub method: Method,
    pub url: Seq<char>,
    pub headers: Seq<(Seq<char>, Seq<char>)>,
    pub query: Seq<(Seq<char>, Seq<char>)>,
}

impl View for ApiRequest {
    type V = RequestModel;

    open spec fn view(&self) -> RequestModel {
        RequestModel {
            method: self.method,
            url: self.url@,
            headers: pairs_text(self.headers@),
            query: pairs_text(self.query@),
        }
    }
}

/// The six operations of the facade.
#[derive(Clone, Copy, Debug, PartialEq, Eq, Structural)]
pub enum Operation {
    ListRepositories,
    ListRuns,
    ListJobs,
    FetchLogs,
    Rerun,
    Cancel,
}

/// A failed operation.
#[derive(Debug)]
pub struct ApiError {
    pub operation: Operation,
    pub cause: RequestError,
}

/// Handle on the remote API: where it is, who asks, and for which repository.
#[derive(Debug)]
pub struct GitHubClient {
    /// The bearer token sent with every request.
    pub token: String,
    /// The owner of the target repository; empty while none is chosen.
    pub owner: String,
    /// The name of the target repository; empty while none is chosen.
    pub repo: String,
    /// Where the API is, without a slash at its end.
    pub base_url: String,
}

/// The headers sent with every request.
pub open spec fn standard_headers(token: Seq<char>) -> Seq<(Seq<char>, Seq<char>)> {
    seq![
        ("user-agent"@, "atlas-prod-monitor"@),
        ("accept"@, "application/vnd.github+json"@),
        ("authorization"@, "Bearer "@ + token),
    ]
}

/// The path of a repository.
pub open spec fn repo_path(owner: Seq<char>, repo: Seq<char>) -> Seq<char> {
    "/repos/"@ + owner + "/"@ + repo
}

/// The path of the runs of a repository.
pub open spec fn runs_path(owner: Seq<char>, repo: Seq<char>) -> Seq<char> {
    repo_path(owner, repo) + "/actions/runs"@
}

/// The path of something that belongs to one run: `tail` names it.
pub open spec fn run_path(owner: Seq<char>, repo: Seq<char>, run_id: nat, tail: Seq<char>) -> Seq<
    char,
> {
    runs_path(owner, repo) + "/"@ + decimal_nat(run_id) + tail
}

/// The path of the log of a job.
pub open spec fn job_logs_path(owner: Seq<char>, repo: Seq<char>, job_id: nat) -> Seq<char> {
    repo_path(owner, repo) + "/actions/jobs/"@ + decimal_nat(job_id) + "/logs"@
}

/// The query of a listing of repositories: most recently pushed first.
pub open spec fn repos_query(per_page: nat, page: nat) -> Seq<(Seq<char>, Seq<char>)> {
    seq![
        ("per_page"@, decimal_nat(per_page)),
        ("page"@, decimal_nat(page)),
        ("sort"@, "pushed"@),
        ("direction"@, "desc"@),
        ("type"@, "all"@),
    ]
}

/// The query of a listing of runs: the page, then the filters that are set.
pub open spec fn runs_query(
    per_page: nat,
    page: nat,
    branch: Option<Seq<char>>,
    status: Option<Seq<char>>,
) -> Seq<(Seq<char>, Seq<char>)> {
    let paging = seq![("per_page"@, decimal_nat(per_page)), ("page"@, decimal_nat(page))];
    let with_branch = match branch {
        Some(b) => paging.push(("branch"@, b)),
        None => paging,
    };
    match status {
        Some(s) => with_branch.push(("status"@, s)),
        None => with_branch,
    }
}

/// What is said of an operation that failed before a response was had.
pub open spec fn fetch_failure(operation: Operation) -> Seq<char> {
    match operation {
        Operation::ListRepositories => "Failed to fetch repositories"@,
        Operation::ListRuns => "Failed to fetch workflow runs"@,
        Operation::ListJobs => "Failed to fetch jobs"@,
        Operation::FetchLogs => "Failed to fetch job logs"@,
        Operation::Rerun => "Failed to re-run workflow"@,
        Operation::Cancel => "Failed to cancel workflow"@,
    }
}

/// What is said of an operation whose response could not be read.
pub open spec fn decode_failure(operation: Operation) -> Seq<char> {
    match operation {
        Operation::ListRepositories => "Failed to parse repositories response"@,
        Operation::ListRuns => "Failed to parse workflow runs response"@,
        Operation::ListJobs => "Failed to parse jobs response"@,
        Operation::FetchLogs => "Failed to read log body"@,
        Operation::Rerun => "Failed to re-run workflow"@,
        Operation::Cancel => "Failed to cancel workflow"@,
    }
}

impl ApiError {
    /// The one-line summary of the failure.
    pub open spec fn summary_text(self) -> Seq<char> {
        if self.cause is DecodeError {
            decode_failure(self.operation)
        } else {
            fetch_failure(self.operation)
        }
    }

    /// The one-line summary of the failure: which operation failed, and
    /// whether in fetching or in reading the response.
    pub fn summary(&self) -> (text: &'static str)
        ensures
            text@ == self.summary_text(),
    {
        let decoding = match &self.cause {
            RequestError::DecodeError { .. } => true,
            _ => false,
        };
        match self.operation {
            Operation::ListRepositories => if decoding {
                "Failed to parse repositories response"
            } else {
                "Failed to fetch repositories"
            },
            Operation::ListRuns => if decoding {
                "Failed to parse workflow runs response"
            } else {
                "Failed to fetch workflow runs"
            },
            Operation::ListJobs => if decoding {
                "Failed to parse jobs response"
            } else {
                "Failed to fetch jobs"
            },
            Operation::FetchLogs => if decoding {
                "Failed to read log body"
            } else {
                "Failed to fetch job logs"
            },
            Operation::Rerun => "Failed to re-run workflow",
            Operation::Cancel => "Failed to cancel workflow",
        }
    }
}

impl Clone for GitHubClient {
    fn clone(&self) -> (r: Self)
        ensures
            r == *self,
    {
        GitHubClient {
            token: self.token.clone(),
            owner: self.owner.clone(),
            repo: self.repo.clone(),
            base_url: self.base_url.clone(),
        }
    }
}

impl GitHubClient {
    /// The base URL of the public API.
    pub open spec fn default_base_url() -> Seq<char> {
        "https://api.github.com"@
    }

    /// The request with the given verb, path and query.
    pub open spec fn request(
        self,
        method: Method,
        path: Seq<char>,
        query: Seq<(Seq<char>, Seq<char>)>,
    ) -> RequestModel {
        RequestModel {
            method,
            url: self.base_url@ + path,
            headers: standard_headers(self.token@),
            query,
        }
    }

    /// The request that lists the repositories of the account.
    pub open spec fn user_repos_request(self, per_page: nat, page: nat) -> RequestModel {
        self.request(Method::Get, "/user/repos"@, repos_query(per_page, page))
    }

    /// The request that lists one page of runs.
    pub open spec fn workflow_runs_request(
        self,
        per_page: nat,
        page: nat,
        branch: Option<Seq<char>>,
        status: Option<Seq<char>>,
    ) -> RequestModel {
        self.request(
            Method::Get,
            runs_path(self.owner@, self.repo@),
            runs_query(per_page, page, branch, status),
        )
    }

    /// The request that lists the jobs of a run.
    pub open spec fn jobs_request(self, run_id: nat) -> RequestModel {
        self.request(
            Method::Get,
            run_path(self.owner@, self.repo@, run_id, "/jobs"@),
            seq![("per_page"@, "100"@)],
        )
    }

    /// The request that fetches the log of a job.
    pub open spec fn job_logs_request(self, job_id: nat) -> RequestModel {
        self.request(Method::Get, job_logs_path(self.owner@, self.repo@, job_id), Seq::empty())
    }

    /// The request that triggers a re-run.
    pub open spec fn rerun_request(self, run_id: nat) -> RequestModel {
        self.request(
            Method::Post,
            run_path(self.owner@, self.repo@, run_id, "/rerun"@),
            Seq::empty(),
        )
    }

    /// The request that triggers a cancellation.
    pub open spec fn cancel_request(self, run_id: nat) -> RequestModel {
        self.request(
            Method::Post,
            run_path(self.owner@, self.repo@, run_id, "/cancel"@),
            Seq::empty(),
        )
    }

    /// What a fresh client holds.
    pub open spec fn holds(
        self,
        owner: Seq<char>,
        repo: Seq<char>,
        token: Seq<char>,
        base_url: Seq<char>,
    ) -> bool {
        &&& self.owner@ == owner
        &&& self.repo@ == repo
        &&& self.token@ == token
        &&& self.base_url@ == base_url
    }

    /// A client of the public API with no repository chosen yet.
    pub fn new_with_token(token: String) -> (client: Self)
        ensures
            client.holds(Seq::empty(), Seq::empty(), token@, Self::default_base_url()),
    {
        GitHubClient {
            token,
            owner: String::new(),
            repo: String::new(),
            base_url: owned("https://api.github.com"),
        }
    }

    /// A client of the API at `base_url` with no repository chosen yet.
    pub fn new_with_token_and_base(token: String, base_url: String) -> (client: Self)
        ensures
            client.holds(Seq::empty(), Seq::empty(), token@, trim_end(base_url@, '/')),
    {
        Self::with_base_url(String::new(), String::new(), token, base_url)
    }

    /// A client of the public API for one repository.
    pub fn new(owner: String, repo: String, token: String) -> (client: Self)
        ensures
            client.holds(owner@, repo@, token@, Self::default_base_url()),
    {
        GitHubClient { token, owner, repo, base_url: owned("https://api.github.com") }
    }

    /// A client of the API at `base_url` for one repository. Slashes at the
    /// end of `base_url` are dropped.
    pub fn with_base_url(owner: String, repo: String, token: String, base_url: String) -> (client:
        Self)
        ensures
            client.holds(owner@, repo@, token@, trim_end(base_url@, '/')),
    {
        let chars = chars_of(base_url.as_str());
        let end = trimmed_len(&chars, '/');
        GitHubClient { token, owner, repo, base_url: string_of(&chars, 0, end) }
    }

    /// Points the client at another repository.
    pub fn set_repo(&mut self, owner: String, repo: String)
        ensures
            *final(self) == (GitHubClient { owner, repo, ..*old(self) }),
    {
        self.owner = owner;
        self.repo = repo;
    }

    /// The request with the given verb, path and query: the URL is the base
    /// URL followed by the path, and the standard headers are set.
    pub fn prepare(&self, method: Method, path: &str, query: Vec<(String, String)>) -> (request:
        ApiRequest)
        ensures
            request@ == self.request(method, path@, pairs_text(query@)),
            request.query == query,
    {
        let mut url = self.base_url.clone();
        url.append(path);
        let mut bearer = owned("Bearer ");
        bearer.append(self.token.as_str());
        let mut headers: Vec<(String, String)> = Vec::new();
        headers.push((owned("user-agent"), owned("atlas-prod-monitor")));
        headers.push((owned("accept"), owned("application/vnd.github+json")));
        headers.push((owned("authorization"), bearer));
        proof {
            assert(pairs_text(headers@) =~= standard_headers(self.token@));
        }
        ApiRequest { method, url, headers, query }
    }

    fn repo_path(&self) -> (path: String)
        ensures
            path@ == repo_path(self.owner@, self.repo@),
    {
        let mut path = owned("/repos/");
        path.append(self.owner.as_str());
        path.append("/");
        path.append(self.repo.as_str());
        path
    }

    fn run_path(&self, run_id: u64, tail: &str) -> (path: String)
        ensures
            path@ == run_path(self.owner@, self.repo@, run_id as nat, tail@),
    {
        let mut path = self.repo_path();
        path.append("/actions/runs");
        path.append("/");
        push_decimal_u64(&mut path, run_id);
        path.append(tail);
        path
    }

    /// Lists the repositories of the authenticated account, most recently
    /// pushed first.
    pub fn get_user_repos(&self, per_page: u8, page: u64) -> (request: ApiRequest)
        ensures
            request@ == self.user_repos_request(per_page as nat, page as nat),
    {
        let mut query: Vec<(String, String)> = Vec::new();
        query.push((owned("per_page"), decimal_string(per_page as u64)));
        query.push((owned("page"), decimal_string(page)));
        query.push((owned("sort"), owned("pushed")));
        query.push((owned("direction"), owned("desc")));
        query.push((owned("type"), owned("all")));
        proof {
            assert(pairs_text(query@) =~= repos_query(per_page as nat, page as nat));
        }
        self.prepare(Method::Get, "/user/repos", query)
    }

    /// Lists one page of the runs of the repository, filtered by branch and
    /// status where these are given.
    pub fn get_workflow_runs(
        &self,
        per_page: u8,
        page: u64,
        branch: Option<&str>,
        status: Option<&str>,
    ) -> (request: ApiRequest)
        ensures
            request@ == self.workflow_runs_request(
                per_page as nat,
                page as nat,
                match branch {
                    Some(b) => Some(b@),
                    None => None,
                },
                match status {
                    Some(s) => Some(s@),
                    None => None,
                },
            ),
    {
        let mut path = self.repo_path();
        path.append("/actions/runs");
        let mut query: Vec<(String, String)> = Vec::new();
        query.push((owned("per_page"), decimal_string(per_page as u64)));
        query.push((owned("page"), decimal_string(page)));
        let ghost paging = pairs_text(query@);
        proof {
            assert(paging =~= seq![
                ("per_page"@, decimal_nat(per_page as nat)),
                ("page"@, decimal_nat(page as nat)),
            ]);
        }
        if let Some(b) = branch {
            query.push((owned("branch"), owned(b)));
            proof {
                assert(pairs_text(query@) =~= paging.push(("branch"@, b@)));
            }
        }
        let ghost with_branch = pairs_text(query@);
        if let Some(s) = status {
            query.push((owned("status"), owned(s)));
            proof {
                assert(pairs_text(query@) =~= with_branch.push(("status"@, s@)));
            }
        }
        self.prepare(Method::Get, path.as_str(), query)
    }

    /// Lists the jobs of a run, a hundred at most.
    pub fn get_jobs(&self, run_id: u64) -> (request: ApiRequest)
        ensures
            request@ == self.jobs_request(run_id as nat),
    {
        let path = self.run_path(run_id, "/jobs");
        let mut query: Vec<(String, String)> = Vec::new();
        query.push((owned("per_page"), owned("100")));
        proof {
            assert(pairs_text(query@) =~= seq![("per_page"@, "100"@)]);
        }
        self.prepare(Method::Get, path.as_str(), query)
    }

    /// Fetches the log of a job as raw text.
    pub fn get_job_logs(&self, job_id: u64) -> (request: ApiRequest)
        ensures
            request@ == self.job_logs_request(job_id as nat),
    {
        let mut path = self.repo_path();
        path.append("/actions/jobs/");
        push_decimal_u64(&mut path, job_id);
        path.append("/logs");
        let query: Vec<(String, String)> = Vec::new();
        proof {
            assert(pairs_text(query@) =~= Seq::empty());
        }
        self.prepare(Method::Get, path.as_str(), query)
    }

    /// Triggers a re-run of a run.
    pub fn rerun_workflow(&self, run_id: u64) -> (request: ApiRequest)
        ensures
            request@ == self.rerun_request(run_id as nat),
    {
        let path = self.run_path(run_id, "/rerun");
        let query: Vec<(String, String)> = Vec::new();
        proof {
            assert(pairs_text(query@) =~= Seq::empty());
        }
        self.prepare(Method::Post, path.as_str(), query)
    }

    /// Triggers the cancellation of a run.
    pub fn cancel_workflow(&self, run_id: u64) -> (request: ApiRequest)
        ensures
            request@ == self.cancel_request(run_id as nat),
    {
        let path = self.run_path(run_id, "/cancel");
        let query: Vec<(String, String)> = Vec::new();
        proof {
            assert(pairs_text(query@) =~= Seq::empty());
        }
        self.prepare(Method::Post, path.as_str(), query)
    }
}

} // verus!
