//! The application state machine: the one owner of everything the dashboard
//! shows.
//!
//! User actions and completion messages are applied one at a time. A method
//! that needs data says so by returning a [`Task`]; the caller runs it in the
//! background and hands the outcome back as a [`BackgroundResult`]. The
//! behaviour of every method is stated over [`AppModel`], the state as plain
//! mathematical values.

use vstd::prelude::*;
use vstd::string::StringExecFns;
use vstd::view::View as Viewed;
use crate::event::{action_of, map_key_to_action, Action, KeyCode, KeyEvent};
use crate::github::{ApiError, ApiRequest, GitHubClient, Operation, RequestModel};
use crate::models::{opt_text, Job, JobsResponse, Repository, WorkflowRun, WorkflowRunsResponse};
use crate::text::{
    chars_of, contains, decimal_nat, lines_text, lowercase, mentions, owned, push_decimal_u64,
    split_lines, string_of, text_lines, to_lowercase,
};

verus! {

/// Lines by which the log moves on one step up or down.
pub const LOG_SCROLL_STEP: usize = 3;

/// Lines of the log taken to be visible at once.
pub const LOG_WINDOW: usize = 10;

/// Runs fetched per page.
pub const RUNS_PER_PAGE: u8 = 20;

/// Repositories fetched at once.
pub const REPOS_PER_PAGE: u8 = 100;

/// The screens of the dashboard.
#[derive(Clone, Copy, Debug, PartialEq, Eq, Structural)]
pub enum View {
    RepoList,
    RunsList,
    RunDetail,
    Logs,
}

/// The outcome of one [`Task`].
#[allow(inconsistent_fields)]
#[derive(Debug)]
pub enum BackgroundResult {
    ReposFetched(Result<Vec<Repository>, ApiError>),
    RunsFetched(Result<WorkflowRunsResponse, ApiError>),
    JobsFetched { run_number: u64, result: Result<JobsResponse, ApiError> },
    LogsFetched { job_name: String, result: Result<String, ApiError> },
    RerunComplete { run_number: u64, result: Result<(), ApiError> },
    CancelComplete { run_number: u64, result: Result<(), ApiError> },
}

/// Work for the background: one request, and what its outcome is labelled
/// with. Everything the request needs was fixed when the task was made.
#[derive(Debug)]
pub enum Task {
    FetchRepos { request: ApiRequest },
    FetchRuns { request: ApiRequest },
    FetchJobs { run_number: u64, request: ApiRequest },
    FetchLogs { job_name: String, request: ApiRequest },
    Rerun { run_number: u64, request: ApiRequest },
    Cancel { run_number: u64, request: ApiRequest },
}

/// A [`Task`] as plain values.
pub enum TaskModel {
    FetchRepos { request: RequestModel },
    FetchRuns { request: RequestModel },
    FetchJobs { run_number: u64, request: RequestModel },
    FetchLogs { job_name: Seq<char>, request: RequestModel },
    Rerun { run_number: u64, request: RequestModel },
    Cancel { run_number: u64, request: RequestModel },
}

impl Viewed for Task {
    type V = TaskModel;

    open spec fn view(&self) -> TaskModel {
        match *self {
            Task::FetchRepos { request } => TaskModel::FetchRepos { request: request@ },
            Task::FetchRuns { request } => TaskModel::FetchRuns { request: request@ },
            Task::FetchJobs { run_number, request } => TaskModel::FetchJobs {
                run_number,
                request: request@,
            },
            Task::FetchLogs { job_name, request } => TaskModel::FetchLogs {
                job_name: job_name@,
                request: request@,
            },
            Task::Rerun { run_number, request } => TaskModel::Rerun { run_number, request: request@ },
            Task::Cancel { run_number, request } => TaskModel::Cancel {
                run_number,
                request: request@,
            },
        }
    }
}

impl Task {
    /// The operation of the facade that the task performs.
    pub open spec fn spec_operation(self) -> Operation {
        match self {
            Task::FetchRepos { .. } => Operation::ListRepositories,
            Task::FetchRuns { .. } => Operation::ListRuns,
            Task::FetchJobs { .. } => Operation::ListJobs,
            Task::FetchLogs { .. } => Operation::FetchLogs,
            Task::Rerun { .. } => Operation::Rerun,
            Task::Cancel { .. } => Operation::Cancel,
        }
    }

    /// The operation of the facade that the task performs.
    pub fn operation(&self) -> (operation: Operation)
        ensures
            operation == self.spec_operation(),
    {
        match self {
            Task::FetchRepos { .. } => Operation::ListRepositories,
            Task::FetchRuns { .. } => Operation::ListRuns,
            Task::FetchJobs { .. } => Operation::ListJobs,
            Task::FetchLogs { .. } => Operation::FetchLogs,
            Task::Rerun { .. } => Operation::Rerun,
            Task::Cancel { .. } => Operation::Cancel,
        }
    }

    /// The request that the task sends.
    pub fn request(&self) -> (request: &ApiRequest)
        ensures
            *request == (match *self {
                Task::FetchRepos { request } => request,
                Task::FetchRuns { request } => request,
                Task::FetchJobs { request, .. } => request,
                Task::FetchLogs { request, .. } => request,
                Task::Rerun { request, .. } => request,
                Task::Cancel { request, .. } => request,
            }),
    {
        match self {
            Task::FetchRepos { request } => request,
            Task::FetchRuns { request } => request,
            Task::FetchJobs { request, .. } => request,
            Task::FetchLogs { request, .. } => request,
            Task::Rerun { request, .. } => request,
            Task::Cancel { request, .. } => request,
        }
    }
}

/// The task that `task` holds, as plain values.
pub open spec fn task_model(task: Option<Task>) -> Option<TaskModel> {
    match task {
        Some(t) => Some(t@),
        None => None,
    }
}

/// The state of the dashboard.
#[derive(Debug)]
pub struct App {
    pub client: GitHubClient,
    pub view: View,
    pub should_quit: bool,
    /// The repositories of the account, as last fetched.
    pub repos: Vec<Repository>,
    /// Index of the selected repository among the filtered ones.
    pub repos_selected: usize,
    pub repo_filter: String,
    /// Whether key presses edit the filter.
    pub searching: bool,
    /// The runs of the current page.
    pub runs: Vec<WorkflowRun>,
    pub runs_selected: usize,
    /// Number of runs over all pages.
    pub runs_total: u64,
    /// The current page, counted from 1.
    pub page: u64,
    pub per_page: u8,
    /// The run whose jobs are shown.
    pub current_run: Option<WorkflowRun>,
    pub jobs: Vec<Job>,
    pub jobs_selected: usize,
    /// The log of the selected job, line by line.
    pub log_content: Vec<String>,
    /// Index of the first visible line of the log.
    pub log_scroll: usize,
    pub status_message: String,
    /// Whether a fetch is under way.
    pub loading: bool,
}

/// The state of the dashboard as plain values.
pub struct AppModel {
    pub client: GitHubClient,
    pub view: View,
    pub should_quit: bool,
    pub repos: Seq<Repository>,
    pub repos_selected: nat,
    pub repo_filter: Seq<char>,
    pub searching: bool,
    pub runs: Seq<WorkflowRun>,
    pub runs_selected: nat,
    pub runs_total: nat,
    pub page: nat,
    pub per_page: nat,
    pub current_run: Option<WorkflowRun>,
    pub jobs: Seq<Job>,
    pub jobs_selected: nat,
    pub log_content: Seq<Seq<char>>,
    pub log_scroll: nat,
    pub status_message: Seq<char>,
    pub loading: bool,
}

impl Viewed for App {
    type V = AppModel;

    open spec fn view(&self) -> AppModel {
        AppModel {
            client: self.client,
            view: self.view,
            should_quit: self.should_quit,
            repos: self.repos@,
            repos_selected: self.repos_selected as nat,
            repo_filter: self.repo_filter@,
            searching: self.searching,
            runs: self.runs@,
            runs_selected: self.runs_selected as nat,
            runs_total: self.runs_total as nat,
            page: self.page as nat,
            per_page: self.per_page as nat,
            current_run: self.current_run,
            jobs: self.jobs@,
            jobs_selected: self.jobs_selected as nat,
            log_content: lines_text(self.log_content@),
            log_scroll: self.log_scroll as nat,
            status_message: self.status_message@,
            loading: self.loading,
        }
    }
}

/// The text of an optional string; empty where there is none.
pub open spec fn text_or_empty(o: Option<String>) -> Seq<char> {
    match o {
        Some(s) => s@,
        None => Seq::empty(),
    }
}

/// Whether a repository matches the lower-case query `query`: in its
/// qualified name, its description or its primary language, whatever the case.
pub open spec fn repo_matches(repo: Repository, query: Seq<char>) -> bool {
    ||| mentions(lowercase(repo.full_name@), query)
    ||| mentions(lowercase(text_or_empty(repo.description)), query)
    ||| mentions(lowercase(text_or_empty(repo.language)), query)
}

/// The number of pages that `total` items fill, `per_page` to a page.
pub open spec fn page_count(total: nat, per_page: nat) -> nat
    recommends
        per_page > 0,
{
    if total % per_page == 0 {
        total / per_page
    } else {
        total / per_page + 1
    }
}

/// The page count is the least number of pages that hold all items.
pub proof fn lemma_page_count_is_ceiling(total: nat, per_page: nat)
    requires
        per_page > 0,
    ensures
        page_count(total, per_page) * per_page >= total,
        page_count(total, per_page) > 0 ==> (page_count(total, per_page) - 1) * per_page < total,
        total == 0 <==> page_count(total, per_page) == 0,
{
    let q = total / per_page;
    let r = total % per_page;
    assert(total == q * per_page + r && 0 <= r < per_page) by (nonlinear_arith)
        requires
            per_page > 0,
            q == total / per_page,
            r == total % per_page,
    ;
    assert((q + 1) * per_page == q * per_page + per_page) by (nonlinear_arith);
    assert((q - 1) * per_page == q * per_page - per_page) by (nonlinear_arith);
    if q == 0 {
        assert(q * per_page == 0) by (nonlinear_arith)
            requires
                q == 0,
        ;
    }
}

/// The number of pages that `total` items fill, `per_page` to a page.
pub fn total_pages(total: u64, per_page: u8) -> (pages: u64)
    requires
        per_page > 0,
    ensures
        pages == page_count(total as nat, per_page as nat),
{
    let per: u64 = per_page as u64;
    if total % per == 0 {
        total / per
    } else {
        assert(per >= 2);
        assert(total / per <= total / 2) by (nonlinear_arith)
            requires
                per >= 2,
                total >= 0,
        ;
        total / per + 1
    }
}

impl AppModel {
    /// The repositories that the filter lets through, in their order.
    pub open spec fn filtered(self) -> Seq<Repository> {
        if self.repo_filter.len() == 0 {
            self.repos
        } else {
            self.repos.filter(|r: Repository| repo_matches(r, lowercase(self.repo_filter)))
        }
    }

    /// The status line of the repository list: how many repositories there
    /// are, and how many of them match the filter where one is set.
    pub open spec fn repo_status(self) -> Seq<char> {
        if self.repo_filter.len() == 0 {
            decimal_nat(self.repos.len()) + " repositories"@
        } else {
            decimal_nat(self.filtered().len()) + " / "@ + decimal_nat(self.repos.len())
                + " repos matching \""@ + self.repo_filter + "\""@
        }
    }

    /// The state with the filter set to `text`: the selection is back at the
    /// first match and the status line counts the matches.
    pub open spec fn with_filter(self, text: Seq<char>) -> AppModel {
        let filtered = AppModel { repo_filter: text, repos_selected: 0, ..self };
        AppModel { status_message: filtered.repo_status(), ..filtered }
    }

    /// Filter editing begins, on the repository list only.
    pub open spec fn start_search(self) -> AppModel {
        if self.view == View::RepoList {
            AppModel { searching: true, ..self }
        } else {
            self
        }
    }

    /// Filter editing ends; the filter stays.
    pub open spec fn stop_search(self) -> AppModel {
        AppModel { searching: false, ..self }
    }

    /// `c` is added to the filter.
    pub open spec fn search_push(self, c: char) -> AppModel {
        self.with_filter(self.repo_filter.push(c))
    }

    /// The last character of the filter is dropped.
    pub open spec fn search_backspace(self) -> AppModel {
        if self.repo_filter.len() == 0 {
            self.with_filter(self.repo_filter)
        } else {
            self.with_filter(self.repo_filter.drop_last())
        }
    }

    /// A filter is emptied; with no filter set, filter editing ends.
    pub open spec fn search_clear(self) -> AppModel {
        if self.repo_filter.len() == 0 {
            AppModel { searching: false, ..self }
        } else {
            self.with_filter(Seq::empty())
        }
    }
}

/// The title of a run: its display title, else its name; `Unknown` where it
/// has neither, or where there is no run.
pub open spec fn run_title(run: Option<WorkflowRun>) -> Seq<char> {
    match run {
        Some(r) => match r.display_title {
            Some(title) => title@,
            None => match r.name {
                Some(name) => name@,
                None => "Unknown"@,
            },
        },
        None => "Unknown"@,
    }
}

/// The status line after a failed operation.
pub open spec fn error_status(error: ApiError) -> Seq<char> {
    "Error: "@ + error.summary_text()
}

impl AppModel {
    /// The repositories are asked for.
    pub open spec fn fetch_repos(self) -> (AppModel, Option<TaskModel>) {
        (
            AppModel { loading: true, status_message: "Fetching repositories..."@, ..self },
            Some(
                TaskModel::FetchRepos {
                    request: self.client.user_repos_request(REPOS_PER_PAGE as nat, 1),
                },
            ),
        )
    }

    /// The current page of runs is asked for.
    pub open spec fn fetch_runs(self) -> (AppModel, Option<TaskModel>) {
        (
            AppModel { loading: true, status_message: "Fetching workflow runs..."@, ..self },
            Some(
                TaskModel::FetchRuns {
                    request: self.client.workflow_runs_request(
                        self.per_page,
                        self.page,
                        None,
                        None,
                    ),
                },
            ),
        )
    }

    /// The jobs of the current run are asked for, where there is one.
    pub open spec fn fetch_jobs(self) -> (AppModel, Option<TaskModel>) {
        match self.current_run {
            Some(run) => (
                AppModel {
                    loading: true,
                    status_message: "Fetching jobs for run #"@ + decimal_nat(run.run_number as nat)
                        + "..."@,
                    ..self
                },
                Some(
                    TaskModel::FetchJobs {
                        run_number: run.run_number,
                        request: self.client.jobs_request(run.id as nat),
                    },
                ),
            ),
            None => (self, None),
        }
    }

    /// The log of the selected job is asked for, where there is one.
    pub open spec fn fetch_logs(self) -> (AppModel, Option<TaskModel>) {
        if self.jobs_selected < self.jobs.len() {
            let job = self.jobs[self.jobs_selected as int];
            (
                AppModel {
                    loading: true,
                    status_message: "Fetching logs for "@ + job.name@ + "..."@,
                    ..self
                },
                Some(
                    TaskModel::FetchLogs {
                        job_name: job.name@,
                        request: self.client.job_logs_request(job.id as nat),
                    },
                ),
            )
        } else {
            (self, None)
        }
    }

    /// The run that a re-run or a cancellation acts on: the selected one on
    /// the list of runs, the current one inside a run.
    pub open spec fn selected_run(self) -> Option<WorkflowRun> {
        match self.view {
            View::RunsList => if self.runs_selected < self.runs.len() {
                Some(self.runs[self.runs_selected as int])
            } else {
                None
            },
            View::RunDetail => self.current_run,
            View::Logs => self.current_run,
            View::RepoList => None,
        }
    }

    /// A re-run of the selected run is asked for, where there is one.
    pub open spec fn rerun(self) -> (AppModel, Option<TaskModel>) {
        match self.selected_run() {
            Some(run) => (
                AppModel {
                    status_message: "Re-running workflow #"@ + decimal_nat(run.run_number as nat)
                        + "..."@,
                    ..self
                },
                Some(
                    TaskModel::Rerun {
                        run_number: run.run_number,
                        request: self.client.rerun_request(run.id as nat),
                    },
                ),
            ),
            None => (self, None),
        }
    }

    /// The cancellation of the selected run is asked for, where there is one.
    pub open spec fn cancel(self) -> (AppModel, Option<TaskModel>) {
        match self.selected_run() {
            Some(run) => (
                AppModel {
                    status_message: "Cancelling workflow #"@ + decimal_nat(run.run_number as nat)
                        + "..."@,
                    ..self
                },
                Some(
                    TaskModel::Cancel {
                        run_number: run.run_number,
                        request: self.client.cancel_request(run.id as nat),
                    },
                ),
            ),
            None => (self, None),
        }
    }

    /// The state after a failed operation: nothing is loading any more, the
    /// status line says what failed, and what was loaded before stays.
    pub open spec fn failed(self, status: Seq<char>) -> AppModel {
        AppModel { loading: false, status_message: status, ..self }
    }

    /// The status line of a page of runs.
    pub open spec fn runs_status(self) -> Seq<char> {
        decimal_nat(self.runs_total) + " runs total · Page "@ + decimal_nat(self.page) + "/"@
            + decimal_nat(page_count(self.runs_total, self.per_page)) + " · "@ + self.client.owner@
            + " "@ + self.client.repo@
    }

    /// The state after a completion message, whatever is on screen.
    ///
    /// Fetched data replaces what was there. The selection starts over with
    /// new repositories and new jobs; with a new page of runs it stays where
    /// it is, or moves to the last run where the page is shorter. A failure
    /// changes nothing but the loading flag and the status line.
    pub open spec fn apply(self, message: BackgroundResult) -> AppModel {
        match message {
            BackgroundResult::ReposFetched(Ok(repos)) => AppModel {
                repos: repos@,
                repos_selected: 0,
                loading: false,
                status_message: decimal_nat(repos@.len())
                    + " repositories · sorted by last push · / to search"@,
                ..self
            },
            BackgroundResult::ReposFetched(Err(error)) => self.failed(error_status(error)),
            BackgroundResult::RunsFetched(Ok(response)) => {
                let loaded = AppModel {
                    runs: response.workflow_runs@,
                    runs_selected: held_in(self.runs_selected, response.workflow_runs@.len()),
                    runs_total: response.total_count as nat,
                    loading: false,
                    ..self
                };
                AppModel { status_message: loaded.runs_status(), ..loaded }
            },
            BackgroundResult::RunsFetched(Err(error)) => self.failed(error_status(error)),
            BackgroundResult::JobsFetched { run_number, result: Ok(response) } => AppModel {
                jobs: response.jobs@,
                jobs_selected: 0,
                loading: false,
                status_message: "Run #"@ + decimal_nat(run_number as nat) + " · "@ + run_title(
                    self.current_run,
                ) + " · "@ + decimal_nat(response.jobs@.len()) + " jobs"@,
                ..self
            },
            BackgroundResult::JobsFetched { run_number, result: Err(error) } => self.failed(
                error_status(error),
            ),
            BackgroundResult::LogsFetched { job_name, result: Ok(log) } => AppModel {
                log_content: text_lines(log@),
                log_scroll: 0,
                loading: false,
                status_message: "Logs: "@ + job_name@ + " · "@ + decimal_nat(
                    text_lines(log@).len(),
                ) + " lines"@,
                ..self
            },
            BackgroundResult::LogsFetched { job_name, result: Err(error) } => self.failed(
                "Failed to load logs for "@ + job_name@,
            ),
            BackgroundResult::RerunComplete { run_number, result: Ok(done) } => AppModel {
                status_message: "✓ Re-run triggered for #"@ + decimal_nat(run_number as nat),
                ..self
            },
            BackgroundResult::RerunComplete { run_number, result: Err(error) } => self.failed(
                error_status(error),
            ),
            BackgroundResult::CancelComplete { run_number, result: Ok(done) } => AppModel {
                status_message: "✓ Cancelled #"@ + decimal_nat(run_number as nat),
                ..self
            },
            BackgroundResult::CancelComplete { run_number, result: Err(error) } => self.failed(
                error_status(error),
            ),
        }
    }
}

/// What the caller is asked to do after a key press.
#[derive(Debug)]
pub enum Command {
    /// Run the task in the background.
    Run(Task),
    /// Open the address in the browser.
    Open(String),
}

/// A [`Command`] as plain values.
pub enum CommandModel {
    Run(TaskModel),
    Open(Seq<char>),
}

impl Viewed for Command {
    type V = CommandModel;

    open spec fn view(&self) -> CommandModel {
        match *self {
            Command::Run(task) => CommandModel::Run(task@),
            Command::Open(url) => CommandModel::Open(url@),
        }
    }
}

/// The command that `command` holds, as plain values.
pub open spec fn command_model(command: Option<Command>) -> Option<CommandModel> {
    match command {
        Some(c) => Some(c@),
        None => None,
    }
}

/// The command to run the task that a step asks for.
pub open spec fn run(step: (AppModel, Option<TaskModel>)) -> (AppModel, Option<CommandModel>) {
    (
        step.0,
        match step.1 {
            Some(task) => Some(CommandModel::Run(task)),
            None => None,
        },
    )
}

/// The selection one place up, unless it is at the top.
pub open spec fn step_up(selected: nat) -> nat {
    if selected > 0 {
        (selected - 1) as nat
    } else {
        selected
    }
}

/// The selection one place down, unless it is at the last of `count` items
/// or beyond.
pub open spec fn step_down(selected: nat, count: nat) -> nat {
    if count > 0 && selected < count - 1 {
        selected + 1
    } else {
        selected
    }
}

/// The largest scroll offset of a log of `lines` lines.
pub open spec fn max_scroll(lines: nat) -> nat {
    if lines >= LOG_WINDOW {
        (lines - LOG_WINDOW) as nat
    } else {
        0
    }
}

/// The scroll offset one step up, not below the first line.
pub open spec fn scroll_up(scroll: nat) -> nat {
    if scroll >= LOG_SCROLL_STEP {
        (scroll - LOG_SCROLL_STEP) as nat
    } else {
        0
    }
}

/// The scroll offset one step down, not beyond the largest offset.
pub open spec fn scroll_down(scroll: nat, lines: nat) -> nat {
    if scroll + LOG_SCROLL_STEP <= max_scroll(lines) {
        (scroll + LOG_SCROLL_STEP) as nat
    } else {
        max_scroll(lines)
    }
}

/// The selection held inside a collection of `count` items: itself where it
/// is a place among them, else the last place; 0 for an empty collection.
pub open spec fn held_in(selected: nat, count: nat) -> nat {
    if selected < count {
        selected
    } else if count > 0 {
        (count - 1) as nat
    } else {
        0
    }
}

/// Whether `selected` is a place among `count` items, or the resting place 0
/// of an empty collection.
pub open spec fn selection_in_bounds(selected: nat, count: nat) -> bool {
    selected < count || (count == 0 && selected == 0)
}

impl AppModel {
    /// What no transition breaks: pages hold at least one run, the first
    /// page is page 1, and there is a current run only inside a run.
    pub open spec fn wf(self) -> bool {
        &&& self.per_page > 0
        &&& self.page >= 1
        &&& (self.view == View::RepoList || self.view == View::RunsList) ==> self.current_run
            is None
    }

    /// Whether the selected repository and the selected run lie inside what
    /// is shown of their collections.
    pub open spec fn lists_in_bounds(self) -> bool {
        &&& selection_in_bounds(self.repos_selected, self.filtered().len())
        &&& selection_in_bounds(self.runs_selected, self.runs.len())
    }

    /// Whether the selected job lies inside the jobs of the current run.
    pub open spec fn jobs_in_bounds(self) -> bool {
        selection_in_bounds(self.jobs_selected, self.jobs.len())
    }

    /// The selection moves up by one; the log scrolls up by a step.
    pub open spec fn move_up(self) -> AppModel {
        match self.view {
            View::RepoList => AppModel { repos_selected: step_up(self.repos_selected), ..self },
            View::RunsList => AppModel { runs_selected: step_up(self.runs_selected), ..self },
            View::RunDetail => AppModel { jobs_selected: step_up(self.jobs_selected), ..self },
            View::Logs => AppModel { log_scroll: scroll_up(self.log_scroll), ..self },
        }
    }

    /// The selection moves down by one; the log scrolls down by a step.
    pub open spec fn move_down(self) -> AppModel {
        match self.view {
            View::RepoList => AppModel {
                repos_selected: step_down(self.repos_selected, self.filtered().len()),
                ..self
            },
            View::RunsList => AppModel {
                runs_selected: step_down(self.runs_selected, self.runs.len()),
                ..self
            },
            View::RunDetail => AppModel {
                jobs_selected: step_down(self.jobs_selected, self.jobs.len()),
                ..self
            },
            View::Logs => AppModel {
                log_scroll: scroll_down(self.log_scroll, self.log_content.len()),
                ..self
            },
        }
    }

    /// The selected item is opened: a repository into its runs, a run into
    /// its jobs, a job into its log. With nothing selected, nothing happens.
    pub open spec fn enter(self) -> (AppModel, Option<TaskModel>) {
        match self.view {
            View::RepoList => if self.repos_selected < self.filtered().len() {
                let repo = self.filtered()[self.repos_selected as int];
                (AppModel {
                    client: GitHubClient {
                        owner: repo.owner.login,
                        repo: repo.name,
                        ..self.client
                    },
                    view: View::RunsList,
                    runs: Seq::empty(),
                    runs_selected: 0,
                    runs_total: 0,
                    page: 1,
                    repo_filter: Seq::empty(),
                    searching: false,
                    ..self
                }).fetch_runs()
            } else {
                (self, None)
            },
            View::RunsList => if self.runs_selected < self.runs.len() {
                (AppModel {
                    current_run: Some(self.runs[self.runs_selected as int]),
                    view: View::RunDetail,
                    ..self
                }).fetch_jobs()
            } else {
                (self, None)
            },
            View::RunDetail => (AppModel { view: View::Logs, ..self }).fetch_logs(),
            View::Logs => (self, None),
        }
    }

    /// One screen back. From the outermost screen the program ends: that is
    /// the repository list, or the list of runs where no repositories are
    /// loaded. Leaving a screen drops what only it showed.
    pub open spec fn back(self) -> AppModel {
        match self.view {
            View::RepoList => AppModel { should_quit: true, ..self },
            View::RunsList => if self.repos.len() == 0 {
                AppModel { should_quit: true, ..self }
            } else {
                let listed = AppModel {
                    view: View::RepoList,
                    runs: Seq::empty(),
                    runs_selected: 0,
                    ..self
                };
                AppModel { status_message: listed.repo_status(), ..listed }
            },
            View::RunDetail => AppModel {
                view: View::RunsList,
                current_run: None,
                jobs: Seq::empty(),
                jobs_selected: 0,
                ..self
            },
            View::Logs => AppModel {
                view: View::RunDetail,
                log_content: Seq::empty(),
                log_scroll: 0,
                ..self
            },
        }
    }

    /// The next page of runs, while there is one.
    pub open spec fn next_page(self) -> (AppModel, Option<TaskModel>) {
        if self.view == View::RunsList && self.page < page_count(self.runs_total, self.per_page) {
            (AppModel { page: self.page + 1, runs_selected: 0, ..self }).fetch_runs()
        } else {
            (self, None)
        }
    }

    /// The page of runs before this one, while there is one.
    pub open spec fn prev_page(self) -> (AppModel, Option<TaskModel>) {
        if self.view == View::RunsList && self.page > 1 {
            (AppModel { page: (self.page - 1) as nat, runs_selected: 0, ..self }).fetch_runs()
        } else {
            (self, None)
        }
    }

    /// What the current screen shows is fetched again.
    pub open spec fn refresh(self) -> (AppModel, Option<TaskModel>) {
        match self.view {
            View::RepoList => self.fetch_repos(),
            View::RunsList => self.fetch_runs(),
            View::RunDetail => self.fetch_jobs(),
            View::Logs => self.fetch_logs(),
        }
    }

    /// The web address of what is selected: of the repository, of the run,
    /// or of the job inside a run; of the run itself where no job is
    /// selected.
    pub open spec fn browser_url(self) -> Option<Seq<char>> {
        match self.view {
            View::RepoList => if self.repos_selected < self.filtered().len() {
                Some(self.filtered()[self.repos_selected as int].html_url@)
            } else {
                None
            },
            View::RunsList => if self.runs_selected < self.runs.len() {
                Some(self.runs[self.runs_selected as int].html_url@)
            } else {
                None
            },
            _ => if self.jobs_selected < self.jobs.len() {
                opt_text(self.jobs[self.jobs_selected as int].html_url)
            } else {
                match self.current_run {
                    Some(run) => Some(run.html_url@),
                    None => None,
                }
            },
        }
    }

    /// The state after an action, and what the caller is asked to do.
    pub open spec fn act(self, action: Action) -> (AppModel, Option<CommandModel>) {
        match action {
            Action::Quit => (AppModel { should_quit: true, ..self }, None),
            Action::MoveUp => (self.move_up(), None),
            Action::MoveDown => (self.move_down(), None),
            Action::Enter => run(self.enter()),
            Action::Back => (self.back(), None),
            Action::Refresh => run(self.refresh()),
            Action::NextPage => run(self.next_page()),
            Action::PrevPage => run(self.prev_page()),
            Action::ToggleLogs => run(self.fetch_logs()),
            Action::Rerun => run(self.rerun()),
            Action::Cancel => run(self.cancel()),
            Action::OpenInBrowser => (
                self,
                match self.browser_url() {
                    Some(url) => Some(CommandModel::Open(url)),
                    None => None,
                },
            ),
            Action::Search => (self.start_search(), None),
            Action::Noop => (self, None),
        }
    }

    /// The state after a key press, and what the caller is asked to do.
    /// While the filter is edited on the repository list, keys go to the
    /// filter; else each key stands for its action.
    pub open spec fn press(self, key: KeyEvent) -> (AppModel, Option<CommandModel>) {
        if self.searching && self.view == View::RepoList {
            match key.code {
                KeyCode::Esc => (self.search_clear(), None),
                KeyCode::Backspace => (self.search_backspace(), None),
                KeyCode::Enter => run(self.stop_search().enter()),
                KeyCode::Up => (self.move_up(), None),
                KeyCode::Down => (self.move_down(), None),
                KeyCode::Char(c) => (self.search_push(c), None),
                _ => (self, None),
            }
        } else {
            self.act(action_of(key))
        }
    }

    /// The state after input could not be read.
    pub open spec fn input_error(self, detail: Seq<char>) -> AppModel {
        AppModel { status_message: "Input error: "@ + detail, ..self }
    }
}

/// Whether `repo` matches the lower-case query `query`.
fn repo_matches_query(repo: &Repository, query: &Vec<char>) -> (found: bool)
    ensures
        found == repo_matches(*repo, query@),
{
    let name = chars_of(to_lowercase(repo.full_name.as_str()).as_str());
    if contains(&name, query) {
        return true;
    }
    let description = match &repo.description {
        Some(d) => to_lowercase(d.as_str()),
        None => to_lowercase(""),
    };
    proof {
        reveal_strlit("");
        assert(""@ == Seq::<char>::empty());
    }
    if contains(&chars_of(description.as_str()), query) {
        return true;
    }
    let language = match &repo.language {
        Some(l) => to_lowercase(l.as_str()),
        None => to_lowercase(""),
    };
    contains(&chars_of(language.as_str()), query)
}

impl App {
    /// The state at the start of multi-repository mode: on the repository
    /// list, waiting for the repositories.
    pub open spec fn initial_browser(client: GitHubClient) -> AppModel {
        AppModel {
            client,
            view: View::RepoList,
            should_quit: false,
            repos: Seq::empty(),
            repos_selected: 0,
            repo_filter: Seq::empty(),
            searching: false,
            runs: Seq::empty(),
            runs_selected: 0,
            runs_total: 0,
            page: 1,
            per_page: RUNS_PER_PAGE as nat,
            current_run: None,
            jobs: Seq::empty(),
            jobs_selected: 0,
            log_content: Seq::empty(),
            log_scroll: 0,
            status_message: "Loading repositories..."@,
            loading: true,
        }
    }

    /// The state at the start of single-repository mode: on the list of runs.
    pub open spec fn initial(client: GitHubClient) -> AppModel {
        AppModel {
            view: View::RunsList,
            status_message: "Loading..."@,
            ..Self::initial_browser(client)
        }
    }

    /// A dashboard that browses the repositories of the account.
    pub fn new_browser(client: GitHubClient) -> (app: App)
        ensures
            app@ == Self::initial_browser(client),
    {
        let app = App {
            client,
            view: View::RepoList,
            should_quit: false,
            repos: Vec::new(),
            repos_selected: 0,
            repo_filter: String::new(),
            searching: false,
            runs: Vec::new(),
            runs_selected: 0,
            runs_total: 0,
            page: 1,
            per_page: RUNS_PER_PAGE,
            current_run: None,
            jobs: Vec::new(),
            jobs_selected: 0,
            log_content: Vec::new(),
            log_scroll: 0,
            status_message: owned("Loading repositories..."),
            loading: true,
        };
        proof {
            assert(lines_text(app.log_content@) =~= Seq::empty());
        }
        app
    }

    /// A dashboard on the runs of the repository that `client` points at.
    pub fn new(client: GitHubClient) -> (app: App)
        ensures
            app@ == Self::initial(client),
    {
        let mut app = Self::new_browser(client);
        app.view = View::RunsList;
        app.status_message = owned("Loading...");
        app
    }

    /// The repositories that the filter lets through, in their order.
    pub fn filtered_repos(&self) -> (shown: Vec<&Repository>)
        ensures
            shown@.len() == self@.filtered().len(),
            forall|i: int| 0 <= i < shown@.len() ==> *shown@[i] == self@.filtered()[i],
    {
        let mut shown: Vec<&Repository> = Vec::new();
        if self.repo_filter.as_str().is_empty() {
            let mut i: usize = 0;
            while i < self.repos.len()
                invariant
                    i <= self.repos.len(),
                    shown@.len() == i,
                    forall|k: int| 0 <= k < i ==> *shown@[k] == self.repos@[k],
                decreases self.repos.len() - i,
            {
                shown.push(&self.repos[i]);
                i += 1;
            }
            return shown;
        }
        let query = chars_of(to_lowercase(self.repo_filter.as_str()).as_str());
        let ghost pred = |r: Repository| repo_matches(r, lowercase(self.repo_filter@));
        let mut i: usize = 0;
        proof {
            reveal(Seq::filter);
            assert(self.repos@.take(0).filter(pred) =~= Seq::empty());
        }
        while i < self.repos.len()
            invariant
                i <= self.repos.len(),
                query@ == lowercase(self.repo_filter@),
                pred == (|r: Repository| repo_matches(r, lowercase(self.repo_filter@))),
                shown@.len() == self.repos@.take(i as int).filter(pred).len(),
                forall|k: int|
                    0 <= k < shown@.len() ==> *shown@[k] == self.repos@.take(i as int).filter(
                        pred,
                    )[k],
            decreases self.repos.len() - i,
        {
            let repo = &self.repos[i];
            let keep = repo_matches_query(repo, &query);
            proof {
                reveal(Seq::filter);
                let next = self.repos@.take(i + 1);
                assert(next.drop_last() =~= self.repos@.take(i as int));
                assert(next.last() == self.repos@[i as int]);
                assert(pred(*repo) == keep);
            }
            if keep {
                shown.push(repo);
            }
            i += 1;
        }
        proof {
            assert(self.repos@.take(self.repos.len() as int) =~= self.repos@);
        }
        shown
    }

    /// The status line of the repository list.
    fn repo_status(&self) -> (text: String)
        ensures
            text@ == self@.repo_status(),
    {
        let mut text = String::new();
        if self.repo_filter.as_str().is_empty() {
            push_decimal_u64(&mut text, self.repos.len() as u64);
            text.append(" repositories");
        } else {
            let shown = self.filtered_repos().len();
            push_decimal_u64(&mut text, shown as u64);
            text.append(" / ");
            push_decimal_u64(&mut text, self.repos.len() as u64);
            text.append(" repos matching \"");
            text.append(self.repo_filter.as_str());
            text.append("\"");
        }
        text
    }

    /// Counts the matches anew and says so in the status line.
    fn update_repo_status(&mut self)
        ensures
            final(self)@ == (AppModel { status_message: old(self)@.repo_status(), ..old(self)@ }),
    {
        let text = self.repo_status();
        self.status_message = text;
    }

    /// Sets the filter, selects the first match and updates the status line.
    fn set_filter(&mut self, text: String)
        ensures
            final(self)@ == old(self)@.with_filter(text@),
    {
        self.repo_filter = text;
        self.repos_selected = 0;
        self.update_repo_status();
    }

    /// Begins filter editing, on the repository list only.
    pub fn start_search(&mut self)
        ensures
            final(self)@ == old(self)@.start_search(),
    {
        if self.view == View::RepoList {
            self.searching = true;
        }
    }

    /// Ends filter editing; the filter stays.
    pub fn stop_search(&mut self)
        ensures
            final(self)@ == old(self)@.stop_search(),
    {
        self.searching = false;
    }

    /// Adds `c` to the filter.
    pub fn search_push(&mut self, c: char)
        ensures
            final(self)@ == old(self)@.search_push(c),
    {
        let mut chars = chars_of(self.repo_filter.as_str());
        chars.push(c);
        let n = chars.len();
        let text = string_of(&chars, 0, n);
        proof {
            assert(chars@.subrange(0, n as int) =~= chars@);
        }
        self.set_filter(text);
    }

    /// Drops the last character of the filter.
    pub fn search_backspace(&mut self)
        ensures
            final(self)@ == old(self)@.search_backspace(),
    {
        let chars = chars_of(self.repo_filter.as_str());
        let keep = if chars.len() > 0 {
            chars.len() - 1
        } else {
            0
        };
        let text = string_of(&chars, 0, keep);
        proof {
            if chars.len() > 0 {
                assert(chars@.subrange(0, keep as int) =~= chars@.drop_last());
            } else {
                assert(chars@.subrange(0, keep as int) =~= chars@);
            }
        }
        self.set_filter(text);
    }

    /// Empties the filter; with no filter set, ends filter editing.
    pub fn search_clear(&mut self)
        ensures
            final(self)@ == old(self)@.search_clear(),
    {
        if self.repo_filter.as_str().is_empty() {
            self.searching = false;
        } else {
            self.set_filter(String::new());
        }
    }

    /// Asks for the repositories of the account.
    pub fn spawn_fetch_repos(&mut self) -> (task: Option<Task>)
        ensures
            (final(self)@, task_model(task)) == old(self)@.fetch_repos(),
    {
        self.loading = true;
        self.status_message = owned("Fetching repositories...");
        Some(Task::FetchRepos { request: self.client.get_user_repos(REPOS_PER_PAGE, 1) })
    }

    /// Asks for the current page of runs.
    pub fn spawn_fetch_runs(&mut self) -> (task: Option<Task>)
        ensures
            (final(self)@, task_model(task)) == old(self)@.fetch_runs(),
    {
        self.loading = true;
        self.status_message = owned("Fetching workflow runs...");
        Some(
            Task::FetchRuns {
                request: self.client.get_workflow_runs(self.per_page, self.page, None, None),
            },
        )
    }

    /// Asks for the jobs of the current run, where there is one.
    pub fn spawn_fetch_jobs(&mut self) -> (task: Option<Task>)
        ensures
            (final(self)@, task_model(task)) == old(self)@.fetch_jobs(),
    {
        let (run_id, run_number) = match &self.current_run {
            Some(run) => (run.id, run.run_number),
            None => {
                return None;
            },
        };
        let mut status = owned("Fetching jobs for run #");
        push_decimal_u64(&mut status, run_number);
        status.append("...");
        self.loading = true;
        self.status_message = status;
        Some(Task::FetchJobs { run_number, request: self.client.get_jobs(run_id) })
    }

    /// Asks for the log of the selected job, where there is one.
    pub fn spawn_fetch_logs(&mut self) -> (task: Option<Task>)
        ensures
            (final(self)@, task_model(task)) == old(self)@.fetch_logs(),
    {
        if self.jobs_selected >= self.jobs.len() {
            return None;
        }
        let job = &self.jobs[self.jobs_selected];
        let job_id = job.id;
        let job_name = job.name.clone();
        let mut status = owned("Fetching logs for ");
        status.append(job_name.as_str());
        status.append("...");
        self.loading = true;
        self.status_message = status;
        Some(Task::FetchLogs { job_name, request: self.client.get_job_logs(job_id) })
    }

    /// The identifier and the number of the run that a re-run or a
    /// cancellation acts on.
    fn get_selected_run(&self) -> (run: Option<(u64, u64)>)
        ensures
            match self@.selected_run() {
                Some(r) => run == Some((r.id, r.run_number)),
                None => run is None,
            },
    {
        match self.view {
            View::RunsList => {
                if self.runs_selected < self.runs.len() {
                    let run = &self.runs[self.runs_selected];
                    Some((run.id, run.run_number))
                } else {
                    None
                }
            },
            View::RunDetail | View::Logs => match &self.current_run {
                Some(run) => Some((run.id, run.run_number)),
                None => None,
            },
            View::RepoList => None,
        }
    }

    /// Asks for a re-run of the selected run, where there is one.
    pub fn spawn_rerun(&mut self) -> (task: Option<Task>)
        ensures
            (final(self)@, task_model(task)) == old(self)@.rerun(),
    {
        match self.get_selected_run() {
            Some((run_id, run_number)) => {
                let mut status = owned("Re-running workflow #");
                push_decimal_u64(&mut status, run_number);
                status.append("...");
                self.status_message = status;
                Some(Task::Rerun { run_number, request: self.client.rerun_workflow(run_id) })
            },
            None => None,
        }
    }

    /// Asks for the cancellation of the selected run, where there is one.
    pub fn spawn_cancel(&mut self) -> (task: Option<Task>)
        ensures
            (final(self)@, task_model(task)) == old(self)@.cancel(),
    {
        match self.get_selected_run() {
            Some((run_id, run_number)) => {
                let mut status = owned("Cancelling workflow #");
                push_decimal_u64(&mut status, run_number);
                status.append("...");
                self.status_message = status;
                Some(Task::Cancel { run_number, request: self.client.cancel_workflow(run_id) })
            },
            None => None,
        }
    }

    /// Records a failed operation.
    fn fail(&mut self, status: String)
        ensures
            final(self)@ == old(self)@.failed(status@),
    {
        self.loading = false;
        self.status_message = status;
    }

    /// Records a failed operation under its summary.
    fn fail_with(&mut self, error: &ApiError)
        ensures
            final(self)@ == old(self)@.failed(error_status(*error)),
    {
        let mut status = owned("Error: ");
        status.append(error.summary());
        self.fail(status);
    }

    /// The status line of a page of runs.
    fn runs_status(&self) -> (text: String)
        requires
            self.per_page > 0,
        ensures
            text@ == self@.runs_status(),
    {
        let mut text = String::new();
        push_decimal_u64(&mut text, self.runs_total);
        text.append(" runs total · Page ");
        push_decimal_u64(&mut text, self.page);
        text.append("/");
        push_decimal_u64(&mut text, total_pages(self.runs_total, self.per_page));
        text.append(" · ");
        text.append(self.client.owner.as_str());
        text.append(" ");
        text.append(self.client.repo.as_str());
        text
    }

    /// The title of the current run.
    fn current_run_title(&self) -> (title: &str)
        ensures
            title@ == run_title(self.current_run),
    {
        match &self.current_run {
            Some(run) => match &run.display_title {
                Some(title) => title.as_str(),
                None => match &run.name {
                    Some(name) => name.as_str(),
                    None => "Unknown",
                },
            },
            None => "Unknown",
        }
    }

    /// Takes in the outcome of a task, whatever is on screen by now.
    pub fn handle_background(&mut self, result: BackgroundResult)
        requires
            result matches BackgroundResult::RunsFetched(Ok(_)) ==> old(self).per_page > 0,
        ensures
            final(self)@ == old(self)@.apply(result),
    {
        match result {
            BackgroundResult::ReposFetched(Ok(repos)) => {
                let mut status = String::new();
                push_decimal_u64(&mut status, repos.len() as u64);
                status.append(" repositories · sorted by last push · / to search");
                self.repos = repos;
                self.repos_selected = 0;
                self.loading = false;
                self.status_message = status;
            },
            BackgroundResult::ReposFetched(Err(error)) => {
                self.fail_with(&error);
            },
            BackgroundResult::RunsFetched(Ok(response)) => {
                self.runs = response.workflow_runs;
                if self.runs_selected >= self.runs.len() {
                    self.runs_selected = if self.runs.len() > 0 {
                        self.runs.len() - 1
                    } else {
                        0
                    };
                }
                self.runs_total = response.total_count;
                self.loading = false;
                let status = self.runs_status();
                self.status_message = status;
            },
            BackgroundResult::RunsFetched(Err(error)) => {
                self.fail_with(&error);
            },
            BackgroundResult::JobsFetched { run_number, result: Ok(response) } => {
                let mut status = owned("Run #");
                push_decimal_u64(&mut status, run_number);
                status.append(" · ");
                status.append(self.current_run_title());
                status.append(" · ");
                push_decimal_u64(&mut status, response.jobs.len() as u64);
                status.append(" jobs");
                self.jobs = response.jobs;
                self.jobs_selected = 0;
                self.loading = false;
                self.status_message = status;
            },
            BackgroundResult::JobsFetched { run_number, result: Err(error) } => {
                self.fail_with(&error);
            },
            BackgroundResult::LogsFetched { job_name, result: Ok(log) } => {
                let lines = split_lines(log.as_str());
                let mut status = owned("Logs: ");
                status.append(job_name.as_str());
                status.append(" · ");
                push_decimal_u64(&mut status, lines.len() as u64);
                status.append(" lines");
                self.log_content = lines;
                self.log_scroll = 0;
                self.loading = false;
                self.status_message = status;
            },
            BackgroundResult::LogsFetched { job_name, result: Err(error) } => {
                let mut status = owned("Failed to load logs for ");
                status.append(job_name.as_str());
                self.fail(status);
            },
            BackgroundResult::RerunComplete { run_number, result: Ok(done) } => {
                let mut status = owned("✓ Re-run triggered for #");
                push_decimal_u64(&mut status, run_number);
                self.status_message = status;
            },
            BackgroundResult::RerunComplete { run_number, result: Err(error) } => {
                self.fail_with(&error);
            },
            BackgroundResult::CancelComplete { run_number, result: Ok(done) } => {
                let mut status = owned("✓ Cancelled #");
                push_decimal_u64(&mut status, run_number);
                self.status_message = status;
            },
            BackgroundResult::CancelComplete { run_number, result: Err(error) } => {
                self.fail_with(&error);
            },
        }
    }

    /// Moves the selection up by one, or scrolls the log up by a step.
    pub fn move_up(&mut self)
        ensures
            final(self)@ == old(self)@.move_up(),
    {
        match self.view {
            View::RepoList => {
                if self.repos_selected > 0 {
                    self.repos_selected -= 1;
                }
            },
            View::RunsList => {
                if self.runs_selected > 0 {
                    self.runs_selected -= 1;
                }
            },
            View::RunDetail => {
                if self.jobs_selected > 0 {
                    self.jobs_selected -= 1;
                }
            },
            View::Logs => {
                self.log_scroll = if self.log_scroll >= LOG_SCROLL_STEP {
                    self.log_scroll - LOG_SCROLL_STEP
                } else {
                    0
                };
            },
        }
    }

    /// Moves the selection down by one, or scrolls the log down by a step.
    pub fn move_down(&mut self)
        ensures
            final(self)@ == old(self)@.move_down(),
    {
        match self.view {
            View::RepoList => {
                let count = self.filtered_repos().len();
                if count > 0 && self.repos_selected < count - 1 {
                    self.repos_selected += 1;
                }
            },
            View::RunsList => {
                if self.runs.len() > 0 && self.runs_selected < self.runs.len() - 1 {
                    self.runs_selected += 1;
                }
            },
            View::RunDetail => {
                if self.jobs.len() > 0 && self.jobs_selected < self.jobs.len() - 1 {
                    self.jobs_selected += 1;
                }
            },
            View::Logs => {
                let lines = self.log_content.len();
                let limit = if lines >= LOG_WINDOW {
                    lines - LOG_WINDOW
                } else {
                    0
                };
                self.log_scroll = if self.log_scroll <= limit && limit - self.log_scroll
                    >= LOG_SCROLL_STEP {
                    self.log_scroll + LOG_SCROLL_STEP
                } else {
                    limit
                };
            },
        }
    }

    /// The owner and the name of the selected repository.
    fn selected_repo(&self) -> (picked: Option<(String, String)>)
        ensures
            match picked {
                Some((owner, name)) => self@.repos_selected < self@.filtered().len() && owner
                    == self@.filtered()[self.repos_selected as int].owner.login && name
                    == self@.filtered()[self.repos_selected as int].name,
                None => self@.repos_selected >= self@.filtered().len(),
            },
    {
        let shown = self.filtered_repos();
        if self.repos_selected < shown.len() {
            let repo = shown[self.repos_selected];
            Some((repo.owner.login.clone(), repo.name.clone()))
        } else {
            None
        }
    }

    /// Opens what is selected: a repository into its runs, a run into its
    /// jobs, a job into its log.
    pub fn enter(&mut self) -> (task: Option<Task>)
        ensures
            (final(self)@, task_model(task)) == old(self)@.enter(),
    {
        match self.view {
            View::RepoList => {
                match self.selected_repo() {
                    Some((owner, name)) => {
                        self.client.set_repo(owner, name);
                        self.view = View::RunsList;
                        self.runs = Vec::new();
                        self.runs_selected = 0;
                        self.runs_total = 0;
                        self.page = 1;
                        self.repo_filter = String::new();
                        self.searching = false;
                        self.spawn_fetch_runs()
                    },
                    None => None,
                }
            },
            View::RunsList => {
                if self.runs_selected < self.runs.len() {
                    let run = self.runs[self.runs_selected].clone();
                    self.current_run = Some(run);
                    self.view = View::RunDetail;
                    self.spawn_fetch_jobs()
                } else {
                    None
                }
            },
            View::RunDetail => {
                self.view = View::Logs;
                self.spawn_fetch_logs()
            },
            View::Logs => None,
        }
    }

    /// Goes one screen back, or ends the program from the outermost screen.
    pub fn back(&mut self)
        ensures
            final(self)@ == old(self)@.back(),
    {
        match self.view {
            View::RepoList => {
                self.should_quit = true;
            },
            View::RunsList => {
                if self.repos.len() == 0 {
                    self.should_quit = true;
                } else {
                    self.view = View::RepoList;
                    self.runs = Vec::new();
                    self.runs_selected = 0;
                    self.update_repo_status();
                }
            },
            View::RunDetail => {
                self.view = View::RunsList;
                self.current_run = None;
                self.jobs = Vec::new();
                self.jobs_selected = 0;
            },
            View::Logs => {
                self.view = View::RunDetail;
                self.log_content = Vec::new();
                self.log_scroll = 0;
                proof {
                    assert(lines_text(self.log_content@) =~= Seq::empty());
                }
            },
        }
    }

    /// Turns to the next page of runs, while there is one.
    pub fn next_page(&mut self) -> (task: Option<Task>)
        requires
            old(self).view == View::RunsList ==> old(self).per_page > 0,
        ensures
            (final(self)@, task_model(task)) == old(self)@.next_page(),
    {
        if self.view == View::RunsList && self.page < total_pages(self.runs_total, self.per_page) {
            self.page += 1;
            self.runs_selected = 0;
            self.spawn_fetch_runs()
        } else {
            None
        }
    }

    /// Turns to the page of runs before this one, while there is one.
    pub fn prev_page(&mut self) -> (task: Option<Task>)
        ensures
            (final(self)@, task_model(task)) == old(self)@.prev_page(),
    {
        if self.view == View::RunsList && self.page > 1 {
            self.page -= 1;
            self.runs_selected = 0;
            self.spawn_fetch_runs()
        } else {
            None
        }
    }

    /// Fetches again what the current screen shows.
    pub fn refresh(&mut self) -> (task: Option<Task>)
        ensures
            (final(self)@, task_model(task)) == old(self)@.refresh(),
    {
        match self.view {
            View::RepoList => self.spawn_fetch_repos(),
            View::RunsList => self.spawn_fetch_runs(),
            View::RunDetail => self.spawn_fetch_jobs(),
            View::Logs => self.spawn_fetch_logs(),
        }
    }

    /// The web address of what is selected, for the caller to open.
    pub fn open_in_browser(&self) -> (url: Option<String>)
        ensures
            opt_text(url) == self@.browser_url(),
    {
        match self.view {
            View::RepoList => {
                let shown = self.filtered_repos();
                if self.repos_selected < shown.len() {
                    Some(shown[self.repos_selected].html_url.clone())
                } else {
                    None
                }
            },
            View::RunsList => {
                if self.runs_selected < self.runs.len() {
                    Some(self.runs[self.runs_selected].html_url.clone())
                } else {
                    None
                }
            },
            View::RunDetail | View::Logs => {
                if self.jobs_selected < self.jobs.len() {
                    self.jobs[self.jobs_selected].html_url.clone()
                } else {
                    match &self.current_run {
                        Some(run) => Some(run.html_url.clone()),
                        None => None,
                    }
                }
            },
        }
    }

    /// Applies an action and says what the caller is asked to do.
    pub fn apply_action(&mut self, action: Action) -> (command: Option<Command>)
        requires
            action == Action::NextPage && old(self).view == View::RunsList ==> old(self).per_page
                > 0,
        ensures
            (final(self)@, command_model(command)) == old(self)@.act(action),
    {
        let task = match action {
            Action::Quit => {
                self.should_quit = true;
                None
            },
            Action::MoveUp => {
                self.move_up();
                None
            },
            Action::MoveDown => {
                self.move_down();
                None
            },
            Action::Enter => self.enter(),
            Action::Back => {
                self.back();
                None
            },
            Action::Refresh => self.refresh(),
            Action::NextPage => self.next_page(),
            Action::PrevPage => self.prev_page(),
            Action::ToggleLogs => self.spawn_fetch_logs(),
            Action::Rerun => self.spawn_rerun(),
            Action::Cancel => self.spawn_cancel(),
            Action::OpenInBrowser => {
                return match self.open_in_browser() {
                    Some(url) => Some(Command::Open(url)),
                    None => None,
                };
            },
            Action::Search => {
                self.start_search();
                None
            },
            Action::Noop => None,
        };
        match task {
            Some(t) => Some(Command::Run(t)),
            None => None,
        }
    }

    /// Takes in a key press and says what the caller is asked to do.
    pub fn handle_key(&mut self, key: KeyEvent) -> (command: Option<Command>)
        requires
            old(self).view == View::RunsList ==> old(self).per_page > 0,
        ensures
            (final(self)@, command_model(command)) == old(self)@.press(key),
    {
        if self.searching && self.view == View::RepoList {
            match key.code {
                KeyCode::Esc => {
                    self.search_clear();
                    None
                },
                KeyCode::Backspace => {
                    self.search_backspace();
                    None
                },
                KeyCode::Enter => {
                    self.stop_search();
                    match self.enter() {
                        Some(t) => Some(Command::Run(t)),
                        None => None,
                    }
                },
                KeyCode::Up => {
                    self.move_up();
                    None
                },
                KeyCode::Down => {
                    self.move_down();
                    None
                },
                KeyCode::Char(c) => {
                    self.search_push(c);
                    None
                },
                _ => None,
            }
        } else {
            self.apply_action(map_key_to_action(key))
        }
    }

    /// Reports in the status line that input could not be read.
    pub fn input_error(&mut self, detail: &str)
        ensures
            final(self)@ == old(self)@.input_error(detail@),
    {
        let mut status = owned("Input error: ");
        status.append(detail);
        self.status_message = status;
    }
}

/// A selection that lies inside its collection still does after a move up or
/// down. This holds of repositories, runs and jobs alike, and of collections
/// of any size, the empty one included.
pub proof fn lemma_selection_stays_in_bounds(m: AppModel)
    ensures
        selection_in_bounds(m.repos_selected, m.filtered().len()) ==> selection_in_bounds(
            m.move_up().repos_selected,
            m.move_up().filtered().len(),
        ) && selection_in_bounds(m.move_down().repos_selected, m.move_down().filtered().len()),
        selection_in_bounds(m.runs_selected, m.runs.len()) ==> selection_in_bounds(
            m.move_up().runs_selected,
            m.move_up().runs.len(),
        ) && selection_in_bounds(m.move_down().runs_selected, m.move_down().runs.len()),
        selection_in_bounds(m.jobs_selected, m.jobs.len()) ==> selection_in_bounds(
            m.move_up().jobs_selected,
            m.move_up().jobs.len(),
        ) && selection_in_bounds(m.move_down().jobs_selected, m.move_down().jobs.len()),
{
}

/// Moving up from the first item changes nothing, and neither does moving
/// down from the last item or in an empty collection.
pub proof fn lemma_moves_stop_at_the_ends(m: AppModel)
    ensures
        m.view == View::RepoList && m.repos_selected == 0 ==> m.move_up() == m,
        m.view == View::RunsList && m.runs_selected == 0 ==> m.move_up() == m,
        m.view == View::RunDetail && m.jobs_selected == 0 ==> m.move_up() == m,
        m.view == View::RepoList && m.repos_selected + 1 >= m.filtered().len() ==> m.move_down()
            == m,
        m.view == View::RunsList && m.runs_selected + 1 >= m.runs.len() ==> m.move_down() == m,
        m.view == View::RunDetail && m.jobs_selected + 1 >= m.jobs.len() ==> m.move_down() == m,
{
}

/// Turning to the next page from the last page changes nothing and asks for
/// nothing; so does turning back from page 1. A page inside the range from 1
/// to the number of pages stays inside it.
pub proof fn lemma_page_turns_stop_at_the_ends(m: AppModel)
    ensures
        m.page >= page_count(m.runs_total, m.per_page) ==> m.next_page() == (m, None::<TaskModel>),
        m.page <= 1 ==> m.prev_page() == (m, None::<TaskModel>),
        1 <= m.page <= page_count(m.runs_total, m.per_page) ==> 1 <= m.next_page().0.page
            <= page_count(m.runs_total, m.per_page) && 1 <= m.prev_page().0.page <= page_count(
            m.runs_total,
            m.per_page,
        ),
{
}

/// Scrolling the log up never goes below the first line; scrolling down never
/// goes beyond the last offset at which a full window is shown, and so never
/// beyond the length of the log.
pub proof fn lemma_log_scroll_in_bounds(m: AppModel)
    requires
        m.view == View::Logs,
    ensures
        m.move_up().log_scroll == (if m.log_scroll >= LOG_SCROLL_STEP {
            m.log_scroll - LOG_SCROLL_STEP
        } else {
            0
        }),
        m.move_down().log_scroll <= max_scroll(m.log_content.len()) <= m.log_content.len(),
        m.log_scroll + LOG_SCROLL_STEP <= max_scroll(m.log_content.len()) ==> m.move_down().log_scroll
            == m.log_scroll + LOG_SCROLL_STEP,
{
}

/// Setting the filter to the text it already has changes nothing: the same
/// repositories are shown and the first of them is selected.
pub proof fn lemma_filter_idempotent(m: AppModel, text: Seq<char>)
    ensures
        m.with_filter(text).with_filter(text) == m.with_filter(text),
        m.with_filter(text).with_filter(text).filtered() == m.with_filter(text).filtered(),
        m.with_filter(text).repos_selected == 0,
{
}

/// Both ways to start give a well-formed state with every selection in
/// bounds.
pub proof fn lemma_initial_states(client: GitHubClient)
    ensures
        App::initial(client).wf(),
        App::initial(client).lists_in_bounds(),
        App::initial(client).jobs_in_bounds(),
        App::initial_browser(client).wf(),
        App::initial_browser(client).lists_in_bounds(),
        App::initial_browser(client).jobs_in_bounds(),
{
}

/// No key press and no completion message takes the state out of the
/// well-formed ones.
pub proof fn lemma_wf_preserved(m: AppModel, key: KeyEvent, message: BackgroundResult)
    requires
        m.wf(),
    ensures
        m.press(key).0.wf(),
        m.apply(message).wf(),
        m.fetch_repos().0.wf(),
        m.fetch_runs().0.wf(),
{
}

/// The filter never shows more repositories than there are.
pub proof fn lemma_filtered_is_no_longer(m: AppModel)
    ensures
        m.filtered().len() <= m.repos.len(),
{
    let pred = |r: Repository| repo_matches(r, lowercase(m.repo_filter));
    m.repos.lemma_filter_len(pred);
}

/// Whether a step from `m` to `after` keeps the selections in bounds.
spec fn kept(m: AppModel, after: AppModel) -> bool {
    &&& m.lists_in_bounds() ==> after.lists_in_bounds()
    &&& m.jobs_in_bounds() ==> after.jobs_in_bounds()
}

/// Moving the selection keeps every selection in bounds.
proof fn lemma_moves_keep_selections(m: AppModel)
    ensures
        kept(m, m.move_up()),
        kept(m, m.move_down()),
{
    lemma_filter_depends_on_the_filter_only(m, m.move_up());
    lemma_filter_depends_on_the_filter_only(m, m.move_down());
}

/// Opening the selected item keeps every selection in bounds: the list of
/// all repositories is no shorter than the filtered one that it replaces.
proof fn lemma_enter_keeps_selections(m: AppModel)
    ensures
        kept(m, m.enter().0),
{
    let after = m.enter().0;
    if m.view == View::RepoList {
        lemma_filtered_is_no_longer(m);
        if m.repos_selected < m.filtered().len() {
            assert(after.repo_filter.len() == 0);
            assert(after.repos == m.repos);
            assert(after.filtered() == m.repos);
        }
    } else {
        lemma_filter_depends_on_the_filter_only(m, after);
    }
}

/// Going back keeps every selection in bounds: what is left behind is
/// emptied and its selection starts over.
proof fn lemma_back_keeps_selections(m: AppModel)
    ensures
        kept(m, m.back()),
{
    lemma_filter_depends_on_the_filter_only(m, m.back());
}

/// Turning pages and asking for data keep every selection in bounds.
proof fn lemma_fetches_keep_selections(m: AppModel)
    ensures
        kept(m, m.next_page().0),
        kept(m, m.prev_page().0),
        kept(m, m.refresh().0),
        kept(m, m.fetch_logs().0),
        kept(m, m.rerun().0),
        kept(m, m.cancel().0),
{
    lemma_filter_depends_on_the_filter_only(m, m.next_page().0);
    lemma_filter_depends_on_the_filter_only(m, m.prev_page().0);
    lemma_filter_depends_on_the_filter_only(m, m.refresh().0);
    lemma_filter_depends_on_the_filter_only(m, m.fetch_logs().0);
    lemma_filter_depends_on_the_filter_only(m, m.rerun().0);
    lemma_filter_depends_on_the_filter_only(m, m.cancel().0);
}

/// Editing the filter keeps every selection in bounds: it selects the first
/// match.
proof fn lemma_search_keeps_selections(m: AppModel, c: char)
    ensures
        kept(m, m.start_search()),
        kept(m, m.stop_search()),
        kept(m, m.search_push(c)),
        kept(m, m.search_backspace()),
        kept(m, m.search_clear()),
{
    lemma_filter_depends_on_the_filter_only(m, m.start_search());
    lemma_filter_depends_on_the_filter_only(m, m.stop_search());
    lemma_filter_depends_on_the_filter_only(m, m.search_clear());
}

/// Every action keeps the selections in bounds.
proof fn lemma_actions_keep_selections(m: AppModel, action: Action)
    ensures
        kept(m, m.act(action).0),
{
    lemma_moves_keep_selections(m);
    lemma_enter_keeps_selections(m);
    lemma_back_keeps_selections(m);
    lemma_fetches_keep_selections(m);
    lemma_search_keeps_selections(m, 'x');
    match action {
        Action::Quit => {
            lemma_filter_depends_on_the_filter_only(m, m.act(action).0);
        },
        _ => {},
    }
}

/// No key press takes a selection out of its collection: not the selected
/// repository, not the selected run, not the selected job.
pub proof fn lemma_keys_keep_selections(m: AppModel, key: KeyEvent)
    ensures
        m.lists_in_bounds() ==> m.press(key).0.lists_in_bounds(),
        m.jobs_in_bounds() ==> m.press(key).0.jobs_in_bounds(),
{
    if m.searching && m.view == View::RepoList {
        lemma_moves_keep_selections(m);
        match key.code {
            KeyCode::Char(c) => {
                lemma_search_keeps_selections(m, c);
            },
            KeyCode::Enter => {
                lemma_search_keeps_selections(m, 'x');
                lemma_enter_keeps_selections(m.stop_search());
            },
            _ => {
                lemma_search_keeps_selections(m, 'x');
            },
        }
    } else {
        lemma_actions_keep_selections(m, action_of(key));
    }
}

/// No completion message takes a selection out of its collection. After a
/// page of runs, repositories or jobs arrived, the selection among them lies
/// in bounds wherever it was before.
pub proof fn lemma_messages_keep_selections(m: AppModel, message: BackgroundResult)
    ensures
        m.lists_in_bounds() ==> m.apply(message).lists_in_bounds(),
        m.jobs_in_bounds() ==> m.apply(message).jobs_in_bounds(),
        message matches BackgroundResult::RunsFetched(Ok(_)) ==> selection_in_bounds(
            m.apply(message).runs_selected,
            m.apply(message).runs.len(),
        ),
        message matches BackgroundResult::ReposFetched(Ok(_)) ==> selection_in_bounds(
            m.apply(message).repos_selected,
            m.apply(message).filtered().len(),
        ),
        message matches BackgroundResult::JobsFetched { result: Ok(_), .. } ==> m.apply(
            message,
        ).jobs_in_bounds(),
{
    lemma_filter_depends_on_the_filter_only(m, m.apply(message));
}

/// A key press or a completion message leads from a well-formed state with
/// every selection in bounds to another such state. Both starting states are
/// such states, so every state reached from them by keys and messages is one.
pub proof fn lemma_step_keeps_the_invariant(m: AppModel, key: KeyEvent, message: BackgroundResult)
    requires
        m.wf(),
        m.lists_in_bounds(),
        m.jobs_in_bounds(),
    ensures
        m.press(key).0.wf(),
        m.press(key).0.lists_in_bounds(),
        m.press(key).0.jobs_in_bounds(),
        m.apply(message).wf(),
        m.apply(message).lists_in_bounds(),
        m.apply(message).jobs_in_bounds(),
{
    lemma_wf_preserved(m, key, message);
    lemma_keys_keep_selections(m, key);
    lemma_messages_keep_selections(m, message);
}

/// What the filter shows depends on the repositories and the filter alone.
pub proof fn lemma_filter_depends_on_the_filter_only(a: AppModel, b: AppModel)
    ensures
        a.repos == b.repos && a.repo_filter == b.repo_filter ==> a.filtered() == b.filtered(),
{
}

} // verus!
