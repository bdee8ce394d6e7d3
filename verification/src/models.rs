//! The entities fetched from the remote service, and how each is shown.
//!
//! Lifecycle status and outcome arrive as free text with a small known
//! vocabulary; a word outside it is shown as it came.

use vstd::prelude::*;
use vstd::string::StringExecFns;
use vstd::utf8::{encode_utf8, is_char_boundary};
use crate::clock::{whole_seconds, Timestamp};
use crate::text::{chars_of, decimal, push_decimal_i64, spells};

verus! {

/// The text of an optional string.
pub open spec fn opt_text(o: Option<String>) -> Option<Seq<char>> {
    match o {
        Some(s) => Some(s@),
        None => None,
    }
}

/// A span of `secs` seconds as seconds, minutes and seconds, or hours and
/// minutes, by its size.
pub open spec fn duration_text(secs: int) -> Seq<char> {
    if secs < 60 {
        decimal(secs) + "s"@
    } else if secs < 3600 {
        decimal(secs / 60) + "m "@ + decimal(secs % 60) + "s"@
    } else {
        decimal(secs / 3600) + "h "@ + decimal((secs % 3600) / 60) + "m"@
    }
}

/// A span of `secs` seconds as seconds, or minutes and seconds.
pub open spec fn short_duration_text(secs: int) -> Seq<char> {
    if secs < 60 {
        decimal(secs) + "s"@
    } else {
        decimal(secs / 60) + "m "@ + decimal(secs % 60) + "s"@
    }
}

/// How long ago something happened, `secs` seconds back, in the largest
/// unit among seconds, minutes, hours and days that is not zero.
pub open spec fn age_text(secs: int) -> Seq<char> {
    if secs < 60 {
        decimal(secs) + "s ago"@
    } else if secs < 3600 {
        decimal(secs / 60) + "m ago"@
    } else if secs < 86400 {
        decimal(secs / 3600) + "h ago"@
    } else {
        decimal(secs / 86400) + "d ago"@
    }
}

/// The text shown for a span that has not started.
pub open spec fn no_duration() -> Seq<char> {
    "—"@
}

/// The text shown for a job that started `secs` seconds ago and still runs.
pub open spec fn running_text(secs: int) -> Seq<char> {
    decimal(secs) + "s (running)"@
}

/// Renders [`duration_text`].
pub fn format_duration(secs: i64) -> (text: String)
    ensures
        text@ == duration_text(secs as int),
{
    let mut out = String::new();
    if secs < 60 {
        push_decimal_i64(&mut out, secs);
        out.append("s");
    } else if secs < 3600 {
        push_decimal_i64(&mut out, secs / 60);
        out.append("m ");
        push_decimal_i64(&mut out, secs % 60);
        out.append("s");
    } else {
        push_decimal_i64(&mut out, secs / 3600);
        out.append("h ");
        push_decimal_i64(&mut out, (secs % 3600) / 60);
        out.append("m");
    }
    out
}

/// Renders [`short_duration_text`].
pub fn format_short_duration(secs: i64) -> (text: String)
    ensures
        text@ == short_duration_text(secs as int),
{
    let mut out = String::new();
    if secs < 60 {
        push_decimal_i64(&mut out, secs);
        out.append("s");
    } else {
        push_decimal_i64(&mut out, secs / 60);
        out.append("m ");
        push_decimal_i64(&mut out, secs % 60);
        out.append("s");
    }
    out
}

/// Renders [`age_text`].
pub fn format_age(secs: i64) -> (text: String)
    ensures
        text@ == age_text(secs as int),
{
    let mut out = String::new();
    if secs < 60 {
        push_decimal_i64(&mut out, secs);
        out.append("s ago");
    } else if secs < 3600 {
        push_decimal_i64(&mut out, secs / 60);
        out.append("m ago");
    } else if secs < 86400 {
        push_decimal_i64(&mut out, secs / 3600);
        out.append("h ago");
    } else {
        push_decimal_i64(&mut out, secs / 86400);
        out.append("d ago");
    }
    out
}

/// Renders [`running_text`].
pub fn format_running(secs: i64) -> (text: String)
    ensures
        text@ == running_text(secs as int),
{
    let mut out = String::new();
    push_decimal_i64(&mut out, secs);
    out.append("s (running)");
    out
}

/// The account that owns a repository.
#[derive(Debug)]
pub struct RepoOwner {
    pub login: String,
}

impl Clone for RepoOwner {
    fn clone(&self) -> (r: Self)
        ensures
            r == *self,
    {
        RepoOwner { login: self.login.clone() }
    }
}

/// A repository of the authenticated account.
#[derive(Debug)]
pub struct Repository {
    pub id: u64,
    pub full_name: String,
    pub name: String,
    pub owner: RepoOwner,
    pub description: Option<String>,
    pub html_url: String,
    pub language: Option<String>,
    pub stargazers_count: u64,
    pub updated_at: Timestamp,
    pub pushed_at: Option<Timestamp>,
    pub private: bool,
    pub fork: bool,
    pub archived: bool,
}

impl Clone for Repository {
    fn clone(&self) -> (r: Self)
        ensures
            r == *self,
    {
        Repository {
            id: self.id,
            full_name: self.full_name.clone(),
            name: self.name.clone(),
            owner: self.owner.clone(),
            description: self.description.clone(),
            html_url: self.html_url.clone(),
            language: self.language.clone(),
            stargazers_count: self.stargazers_count,
            updated_at: self.updated_at,
            pushed_at: self.pushed_at,
            private: self.private,
            fork: self.fork,
            archived: self.archived,
        }
    }
}

impl Repository {
    /// The instant of the last activity: the last push, or the last update
    /// where no push is recorded.
    pub open spec fn last_active(self) -> Timestamp {
        match self.pushed_at {
            Some(t) => t,
            None => self.updated_at,
        }
    }

    /// How long before `now` the repository was last active.
    pub fn last_active_display_at(&self, now: &Timestamp) -> (text: String)
        ensures
            text@ == age_text(whole_seconds(self.last_active().epoch_nanos(), now.epoch_nanos())),
    {
        let ts = match self.pushed_at {
            Some(t) => t,
            None => self.updated_at,
        };
        format_age(now.seconds_since(&ts))
    }

    /// How long ago the repository was last active, by the system clock.
    pub fn last_active_display(&self) -> (text: String)
        ensures
            exists|now: Timestamp|
                text@ == age_text(
                    whole_seconds(self.last_active().epoch_nanos(), now.epoch_nanos()),
                ),
    {
        let now = Timestamp::now();
        self.last_active_display_at(&now)
    }

    /// A lock for a private repository, a globe for a public one.
    pub fn visibility_icon(&self) -> (icon: &'static str)
        ensures
            icon@ == (if self.private {
                "🔒"@
            } else {
                "🌍"@
            }),
    {
        if self.private {
            "🔒"
        } else {
            "🌍"
        }
    }
}

/// The account that triggered a run.
#[derive(Debug)]
pub struct Actor {
    pub login: String,
    pub avatar_url: Option<String>,
}

impl Clone for Actor {
    fn clone(&self) -> (r: Self)
        ensures
            r == *self,
    {
        Actor { login: self.login.clone(), avatar_url: self.avatar_url.clone() }
    }
}

/// One execution of a workflow.
#[derive(Debug)]
pub struct WorkflowRun {
    pub id: u64,
    pub name: Option<String>,
    pub display_title: Option<String>,
    pub head_branch: Option<String>,
    pub head_sha: String,
    pub status: Option<String>,
    pub conclusion: Option<String>,
    pub run_number: u64,
    pub event: String,
    pub created_at: Timestamp,
    pub updated_at: Timestamp,
    pub run_started_at: Option<Timestamp>,
    pub html_url: String,
    pub actor: Option<Actor>,
    pub run_attempt: Option<u64>,
}

impl Clone for WorkflowRun {
    fn clone(&self) -> (r: Self)
        ensures
            r == *self,
    {
        WorkflowRun {
            id: self.id,
            name: self.name.clone(),
            display_title: self.display_title.clone(),
            head_branch: self.head_branch.clone(),
            head_sha: self.head_sha.clone(),
            status: self.status.clone(),
            conclusion: self.conclusion.clone(),
            run_number: self.run_number,
            event: self.event.clone(),
            created_at: self.created_at,
            updated_at: self.updated_at,
            run_started_at: self.run_started_at,
            html_url: self.html_url.clone(),
            actor: self.actor.clone(),
            run_attempt: self.run_attempt,
        }
    }
}

/// One page of runs, with the number of runs over all pages.
#[derive(Debug)]
pub struct WorkflowRunsResponse {
    pub total_count: u64,
    pub workflow_runs: Vec<WorkflowRun>,
}

impl Clone for WorkflowRunsResponse {
    fn clone(&self) -> (r: Self)
        ensures
            r.total_count == self.total_count,
            r.workflow_runs@ == self.workflow_runs@,
    {
        WorkflowRunsResponse {
            total_count: self.total_count,
            workflow_runs: self.workflow_runs.clone(),
        }
    }
}

/// What a run shows as its state: the outcome once there is one, else the
/// lifecycle status, else a question mark.
pub open spec fn run_status_text(
    conclusion: Option<Seq<char>>,
    status: Option<Seq<char>>,
) -> Seq<char> {
    match conclusion {
        Some(c) => if c == "success"@ {
            "✓ Success"@
        } else if c == "failure"@ {
            "✗ Failure"@
        } else if c == "cancelled"@ {
            "⊘ Cancelled"@
        } else if c == "skipped"@ {
            "⊘ Skipped"@
        } else if c == "timed_out"@ {
            "⏱ Timed Out"@
        } else {
            c
        },
        None => match status {
            Some(s) => if s == "queued"@ {
                "◯ Queued"@
            } else if s == "in_progress"@ {
                "● In Progress"@
            } else if s == "waiting"@ {
                "◎ Waiting"@
            } else {
                s
            },
            None => "? Unknown"@,
        },
    }
}

/// A failed run shows as failed whatever its lifecycle status says, and a
/// run without an outcome shows its lifecycle status.
pub proof fn lemma_outcome_outranks_status(status: Option<Seq<char>>)
    ensures
        run_status_text(Some("failure"@), status) == "✗ Failure"@,
        run_status_text(None, Some("in_progress"@)) == "● In Progress"@,
{
    reveal_strlit("failure");
    reveal_strlit("success");
    reveal_strlit("in_progress");
    reveal_strlit("queued");
    assert("failure"@ != "success"@) by {
        assert("failure"@[0] == 'f');
        assert("success"@[0] == 's');
    }
    assert("in_progress"@ != "queued"@) by {
        assert("in_progress"@[0] == 'i');
        assert("queued"@[0] == 'q');
    }
}

/// The first seven bytes of a commit reference, or all of a shorter one.
pub open spec fn sha_prefix(sha: Seq<char>) -> Seq<u8> {
    if encode_utf8(sha).len() >= 7 {
        encode_utf8(sha).subrange(0, 7)
    } else {
        encode_utf8(sha)
    }
}

impl WorkflowRun {
    /// The instant up to which the run's duration counts at time `now`: the
    /// last update of a completed run, else `now`.
    pub open spec fn duration_end(self, now: Timestamp) -> Timestamp {
        if opt_text(self.status) == Some("completed"@) {
            self.updated_at
        } else {
            now
        }
    }

    /// Whether the duration of the run counts up to the present: it has
    /// started and is not completed.
    pub open spec fn counts_to_now(self) -> bool {
        self.run_started_at is Some && opt_text(self.status) != Some("completed"@)
    }

    /// The duration shown at time `now`.
    pub open spec fn duration_text_at(self, now: Timestamp) -> Seq<char> {
        match self.run_started_at {
            Some(started) => duration_text(
                whole_seconds(started.epoch_nanos(), self.duration_end(now).epoch_nanos()),
            ),
            None => no_duration(),
        }
    }

    /// The state of the run as shown in lists.
    pub fn status_display(&self) -> (text: &str)
        ensures
            text@ == run_status_text(opt_text(self.conclusion), opt_text(self.status)),
    {
        match &self.conclusion {
            Some(conclusion) => {
                let c = chars_of(conclusion.as_str());
                if spells(&c, "success") {
                    "✓ Success"
                } else if spells(&c, "failure") {
                    "✗ Failure"
                } else if spells(&c, "cancelled") {
                    "⊘ Cancelled"
                } else if spells(&c, "skipped") {
                    "⊘ Skipped"
                } else if spells(&c, "timed_out") {
                    "⏱ Timed Out"
                } else {
                    conclusion.as_str()
                }
            },
            None => match &self.status {
                Some(status) => {
                    let s = chars_of(status.as_str());
                    if spells(&s, "queued") {
                        "◯ Queued"
                    } else if spells(&s, "in_progress") {
                        "● In Progress"
                    } else if spells(&s, "waiting") {
                        "◎ Waiting"
                    } else {
                        status.as_str()
                    }
                },
                None => "? Unknown",
            },
        }
    }

    /// Whether the lifecycle status is `completed`.
    pub fn is_completed(&self) -> (done: bool)
        ensures
            done == (opt_text(self.status) == Some("completed"@)),
    {
        match &self.status {
            Some(status) => {
                let s = chars_of(status.as_str());
                spells(&s, "completed")
            },
            None => false,
        }
    }

    /// The duration of the run as shown at time `now`: from its start to its
    /// last update once completed, to `now` while it runs; a dash before it
    /// has started.
    pub fn duration_display_at(&self, now: &Timestamp) -> (text: String)
        ensures
            text@ == self.duration_text_at(*now),
    {
        match self.run_started_at {
            Some(started) => {
                let end = if self.is_completed() {
                    self.updated_at
                } else {
                    *now
                };
                format_duration(end.seconds_since(&started))
            },
            None => {
                let mut out = String::new();
                out.append("—");
                out
            },
        }
    }

    /// The duration of the run. The system clock is read only for a run that
    /// has started and is not completed.
    pub fn duration_display(&self) -> (text: String)
        ensures
            exists|now: Timestamp| text@ == self.duration_text_at(now),
            self.run_started_at is None ==> text@ == no_duration(),
            self.run_started_at is Some && opt_text(self.status) == Some("completed"@) ==> text@
                == duration_text(
                whole_seconds(
                    self.run_started_at->0.epoch_nanos(),
                    self.updated_at.epoch_nanos(),
                ),
            ),
            !self.counts_to_now() ==> forall|now: Timestamp| text@ == self.duration_text_at(now),
    {
        match self.run_started_at {
            Some(started) => {
                if self.is_completed() {
                    self.duration_display_at(&self.updated_at)
                } else {
                    let now = Timestamp::now();
                    self.duration_display_at(&now)
                }
            },
            None => self.duration_display_at(&self.updated_at),
        }
    }

    /// The abbreviated commit reference.
    pub fn short_sha(&self) -> (sha: &str)
        requires
            encode_utf8(self.head_sha@).len() >= 7 ==> is_char_boundary(
                encode_utf8(self.head_sha@),
                7,
            ),
        ensures
            encode_utf8(sha@) == sha_prefix(self.head_sha@),
    {
        let full = self.head_sha.as_str();
        if full.as_bytes().len() >= 7 {
            let (head, _) = full.split_at(7);
            head
        } else {
            full
        }
    }

    /// How long before `now` the run was created.
    pub fn age_display_at(&self, now: &Timestamp) -> (text: String)
        ensures
            text@ == age_text(whole_seconds(self.created_at.epoch_nanos(), now.epoch_nanos())),
    {
        format_age(now.seconds_since(&self.created_at))
    }

    /// How long ago the run was created, by the system clock.
    pub fn age_display(&self) -> (text: String)
        ensures
            exists|now: Timestamp|
                text@ == age_text(whole_seconds(self.created_at.epoch_nanos(), now.epoch_nanos())),
    {
        let now = Timestamp::now();
        self.age_display_at(&now)
    }
}

/// One step of a job.
#[derive(Debug)]
pub struct Step {
    pub name: String,
    pub status: String,
    pub conclusion: Option<String>,
    pub number: u64,
    pub started_at: Option<Timestamp>,
    pub completed_at: Option<Timestamp>,
}

impl Clone for Step {
    fn clone(&self) -> (r: Self)
        ensures
            r == *self,
    {
        Step {
            name: self.name.clone(),
            status: self.status.clone(),
            conclusion: self.conclusion.clone(),
            number: self.number,
            started_at: self.started_at,
            completed_at: self.completed_at,
        }
    }
}

/// The mark shown for a step: by its outcome where that is one of the four
/// known ones, else by its lifecycle status.
pub open spec fn step_icon(conclusion: Option<Seq<char>>, status: Seq<char>) -> Seq<char> {
    if conclusion == Some("success"@) {
        "✓"@
    } else if conclusion == Some("failure"@) {
        "✗"@
    } else if conclusion == Some("cancelled"@) || conclusion == Some("skipped"@) {
        "⊘"@
    } else if status == "in_progress"@ {
        "●"@
    } else if status == "queued"@ {
        "◯"@
    } else {
        "?"@
    }
}

impl Step {
    /// The duration of a finished step; a dash for any other.
    pub open spec fn duration_text(self) -> Seq<char> {
        match (self.started_at, self.completed_at) {
            (Some(start), Some(end)) => short_duration_text(
                whole_seconds(start.epoch_nanos(), end.epoch_nanos()),
            ),
            _ => no_duration(),
        }
    }

    /// The mark shown in front of the step.
    pub fn status_icon(&self) -> (icon: &'static str)
        ensures
            icon@ == step_icon(opt_text(self.conclusion), self.status@),
    {
        let known = match &self.conclusion {
            Some(conclusion) => {
                let c = chars_of(conclusion.as_str());
                if spells(&c, "success") {
                    Some("✓")
                } else if spells(&c, "failure") {
                    Some("✗")
                } else if spells(&c, "cancelled") || spells(&c, "skipped") {
                    Some("⊘")
                } else {
                    None
                }
            },
            None => None,
        };
        match known {
            Some(icon) => icon,
            None => {
                let s = chars_of(self.status.as_str());
                if spells(&s, "in_progress") {
                    "●"
                } else if spells(&s, "queued") {
                    "◯"
                } else {
                    "?"
                }
            },
        }
    }

    /// The duration of the step, where it has both ends.
    pub fn duration_display(&self) -> (text: String)
        ensures
            text@ == self.duration_text(),
    {
        match (self.started_at, self.completed_at) {
            (Some(start), Some(end)) => format_short_duration(end.seconds_since(&start)),
            _ => {
                let mut out = String::new();
                out.append("—");
                out
            },
        }
    }
}

/// One job of a run, with its ordered steps.
#[derive(Debug)]
pub struct Job {
    pub id: u64,
    pub run_id: u64,
    pub name: String,
    pub status: Option<String>,
    pub conclusion: Option<String>,
    pub started_at: Option<Timestamp>,
    pub completed_at: Option<Timestamp>,
    pub steps: Option<Vec<Step>>,
    pub html_url: Option<String>,
}

impl Job {
    /// Whether `self` is a copy of `source`: equal in every field, the steps
    /// being the same steps in the same order.
    pub open spec fn copy_of(self, source: Job) -> bool {
        &&& self.id == source.id
        &&& self.run_id == source.run_id
        &&& self.name == source.name
        &&& self.status == source.status
        &&& self.conclusion == source.conclusion
        &&& self.started_at == source.started_at
        &&& self.completed_at == source.completed_at
        &&& self.steps is Some == source.steps is Some
        &&& self.steps is Some ==> self.steps->0@ == source.steps->0@
        &&& self.html_url == source.html_url
    }
}

impl Clone for Job {
    fn clone(&self) -> (r: Self)
        ensures
            r.copy_of(*self),
    {
        Job {
            id: self.id,
            run_id: self.run_id,
            name: self.name.clone(),
            status: self.status.clone(),
            conclusion: self.conclusion.clone(),
            started_at: self.started_at,
            completed_at: self.completed_at,
            steps: self.steps.clone(),
            html_url: self.html_url.clone(),
        }
    }
}

/// The jobs of one run.
#[derive(Debug)]
pub struct JobsResponse {
    pub total_count: u64,
    pub jobs: Vec<Job>,
}

impl Clone for JobsResponse {
    fn clone(&self) -> (r: Self)
        ensures
            r.total_count == self.total_count,
            r.jobs@.len() == self.jobs@.len(),
            forall|i: int| 0 <= i < r.jobs@.len() ==> (#[trigger] r.jobs@[i]).copy_of(self.jobs@[i]),
    {
        let jobs = self.jobs.clone();
        proof {
            assert forall|i: int| 0 <= i < jobs@.len() implies (#[trigger] jobs@[i]).copy_of(
                self.jobs@[i],
            ) by {
                assert(cloned::<Job>(self.jobs@[i], jobs@[i]));
            }
        }
        JobsResponse { total_count: self.total_count, jobs }
    }
}

/// What a job shows as its state: by its outcome where that is one of the
/// four known ones, else by its lifecycle status.
pub open spec fn job_status_text(
    conclusion: Option<Seq<char>>,
    status: Option<Seq<char>>,
) -> Seq<char> {
    if conclusion == Some("success"@) {
        "✓ Success"@
    } else if conclusion == Some("failure"@) {
        "✗ Failure"@
    } else if conclusion == Some("cancelled"@) {
        "⊘ Cancelled"@
    } else if conclusion == Some("skipped"@) {
        "⊘ Skipped"@
    } else if status == Some("queued"@) {
        "◯ Queued"@
    } else if status == Some("in_progress"@) {
        "● Running"@
    } else if status == Some("waiting"@) {
        "◎ Waiting"@
    } else {
        "? Unknown"@
    }
}

impl Job {
    /// The duration shown at time `now`.
    pub open spec fn duration_text_at(self, now: Timestamp) -> Seq<char> {
        match (self.started_at, self.completed_at) {
            (Some(start), Some(end)) => duration_text(
                whole_seconds(start.epoch_nanos(), end.epoch_nanos()),
            ),
            (Some(start), None) => running_text(
                whole_seconds(start.epoch_nanos(), now.epoch_nanos()),
            ),
            _ => no_duration(),
        }
    }

    /// The state of the job as shown beside its steps.
    pub fn status_display(&self) -> (text: &'static str)
        ensures
            text@ == job_status_text(opt_text(self.conclusion), opt_text(self.status)),
    {
        let known = match &self.conclusion {
            Some(conclusion) => {
                let c = chars_of(conclusion.as_str());
                if spells(&c, "success") {
                    Some("✓ Success")
                } else if spells(&c, "failure") {
                    Some("✗ Failure")
                } else if spells(&c, "cancelled") {
                    Some("⊘ Cancelled")
                } else if spells(&c, "skipped") {
                    Some("⊘ Skipped")
                } else {
                    None
                }
            },
            None => None,
        };
        match known {
            Some(text) => text,
            None => match &self.status {
                Some(status) => {
                    let s = chars_of(status.as_str());
                    if spells(&s, "queued") {
                        "◯ Queued"
                    } else if spells(&s, "in_progress") {
                        "● Running"
                    } else if spells(&s, "waiting") {
                        "◎ Waiting"
                    } else {
                        "? Unknown"
                    }
                },
                None => "? Unknown",
            },
        }
    }

    /// The duration of the job as shown at time `now`: of a finished job from
    /// start to end, of a running one the seconds up to `now`.
    pub fn duration_display_at(&self, now: &Timestamp) -> (text: String)
        ensures
            text@ == self.duration_text_at(*now),
    {
        match (self.started_at, self.completed_at) {
            (Some(start), Some(end)) => format_duration(end.seconds_since(&start)),
            (Some(start), None) => format_running(now.seconds_since(&start)),
            _ => {
                let mut out = String::new();
                out.append("—");
                out
            },
        }
    }

    /// The duration of the job. The system clock is read only for a job that
    /// has started and has no end yet.
    pub fn duration_display(&self) -> (text: String)
        ensures
            exists|now: Timestamp| text@ == self.duration_text_at(now),
            !(self.started_at is Some && self.completed_at is None) ==> forall|now: Timestamp|
                text@ == self.duration_text_at(now),
    {
        match (self.started_at, self.completed_at) {
            (Some(start), None) => {
                let now = Timestamp::now();
                self.duration_display_at(&now)
            },
            (Some(start), Some(end)) => self.duration_display_at(&end),
            _ => {
                let mut out = String::new();
                out.append("—");
                proof {
                    let any: Timestamp = arbitrary();
                    assert(out@ == self.duration_text_at(any));
                }
                out
            },
        }
    }
}

} // verus!
