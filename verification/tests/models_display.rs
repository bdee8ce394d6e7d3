use atlas::clock::Timestamp;
use atlas::models::{
    format_age, format_duration, format_running, format_short_duration, Actor, Job,
    JobsResponse, RepoOwner, Repository, Step, WorkflowRun, WorkflowRunsResponse,
};
use chrono::{DateTime, TimeZone, Utc};

fn stamp(time: DateTime<Utc>) -> Timestamp {
    Timestamp::new(time.timestamp(), time.timestamp_subsec_nanos()).unwrap()
}

fn make_run(status: Option<&str>, conclusion: Option<&str>) -> WorkflowRun {
    WorkflowRun {
        id: 1,
        name: Some("CI".to_string()),
        display_title: Some("Fix bug".to_string()),
        head_branch: Some("main".to_string()),
        head_sha: "abc1234567890".to_string(),
        status: status.map(String::from),
        conclusion: conclusion.map(String::from),
        run_number: 42,
        event: "push".to_string(),
        created_at: stamp(Utc::now()),
        updated_at: stamp(Utc::now()),
        run_started_at: Some(stamp(Utc::now())),
        html_url: "https://github.com/test/repo/actions/runs/1".to_string(),
        actor: Some(Actor { login: "testuser".to_string(), avatar_url: None }),
        run_attempt: Some(1),
    }
}

fn make_repo(pushed_at: Option<Timestamp>, updated_at: Timestamp, private: bool) -> Repository {
    Repository {
        id: 1,
        full_name: "octo/hello".to_string(),
        name: "hello".to_string(),
        owner: RepoOwner { login: "octo".to_string() },
        description: None,
        html_url: "https://github.com/octo/hello".to_string(),
        language: None,
        stargazers_count: 3,
        updated_at,
        pushed_at,
        private,
        fork: false,
        archived: false,
    }
}

#[test]
fn test_status_display_success() {
    let run = make_run(Some("completed"), Some("success"));
    assert_eq!(run.status_display(), "✓ Success");
}

#[test]
fn test_status_display_failure() {
    let run = make_run(Some("completed"), Some("failure"));
    assert_eq!(run.status_display(), "✗ Failure");
}

#[test]
fn test_status_display_cancelled() {
    let run = make_run(Some("completed"), Some("cancelled"));
    assert_eq!(run.status_display(), "⊘ Cancelled");
}

#[test]
fn test_status_display_in_progress() {
    let run = make_run(Some("in_progress"), None);
    assert_eq!(run.status_display(), "● In Progress");
}

#[test]
fn test_status_display_queued() {
    let run = make_run(Some("queued"), None);
    assert_eq!(run.status_display(), "◯ Queued");
}

#[test]
fn test_status_display_unknown() {
    let run = make_run(None, None);
    assert_eq!(run.status_display(), "? Unknown");
}

#[test]
fn test_short_sha() {
    let run = make_run(None, None);
    assert_eq!(run.short_sha(), "abc1234");
}

#[test]
fn test_short_sha_short_input() {
    let mut run = make_run(None, None);
    run.head_sha = "abc".to_string();
    assert_eq!(run.short_sha(), "abc");
}

#[test]
fn test_duration_display_seconds() {
    let mut run = make_run(Some("completed"), Some("success"));
    let started = Utc.with_ymd_and_hms(2025, 1, 1, 0, 0, 0).unwrap();
    let ended = Utc.with_ymd_and_hms(2025, 1, 1, 0, 0, 45).unwrap();
    run.run_started_at = Some(stamp(started));
    run.updated_at = stamp(ended);
    run.status = Some("completed".to_string());
    assert_eq!(run.duration_display(), "45s");
}

#[test]
fn test_duration_display_minutes() {
    let mut run = make_run(Some("completed"), Some("success"));
    let started = Utc.with_ymd_and_hms(2025, 1, 1, 0, 0, 0).unwrap();
    let ended = Utc.with_ymd_and_hms(2025, 1, 1, 0, 2, 30).unwrap();
    run.run_started_at = Some(stamp(started));
    run.updated_at = stamp(ended);
    run.status = Some("completed".to_string());
    assert_eq!(run.duration_display(), "2m 30s");
}

#[test]
fn test_duration_display_hours() {
    let mut run = make_run(Some("completed"), Some("success"));
    let started = Utc.with_ymd_and_hms(2025, 1, 1, 0, 0, 0).unwrap();
    let ended = Utc.with_ymd_and_hms(2025, 1, 1, 1, 30, 0).unwrap();
    run.run_started_at = Some(stamp(started));
    run.updated_at = stamp(ended);
    run.status = Some("completed".to_string());
    assert_eq!(run.duration_display(), "1h 30m");
}

#[test]
fn test_duration_display_no_start() {
    let mut run = make_run(Some("completed"), Some("success"));
    run.run_started_at = None;
    assert_eq!(run.duration_display(), "—");
}

#[test]
fn test_job_status_display() {
    let job = Job {
        id: 1,
        run_id: 1,
        name: "build".to_string(),
        status: Some("completed".to_string()),
        conclusion: Some("success".to_string()),
        started_at: None,
        completed_at: None,
        steps: None,
        html_url: None,
    };
    assert_eq!(job.status_display(), "✓ Success");
}

#[test]
fn test_job_duration_display() {
    let started = Utc.with_ymd_and_hms(2025, 1, 1, 0, 0, 0).unwrap();
    let ended = Utc.with_ymd_and_hms(2025, 1, 1, 0, 1, 15).unwrap();
    let job = Job {
        id: 1,
        run_id: 1,
        name: "build".to_string(),
        status: Some("completed".to_string()),
        conclusion: Some("success".to_string()),
        started_at: Some(stamp(started)),
        completed_at: Some(stamp(ended)),
        steps: None,
        html_url: None,
    };
    assert_eq!(job.duration_display(), "1m 15s");
}

#[test]
fn test_step_status_icon() {
    let step = Step {
        name: "Checkout".to_string(),
        status: "completed".to_string(),
        conclusion: Some("success".to_string()),
        number: 1,
        started_at: None,
        completed_at: None,
    };
    assert_eq!(step.status_icon(), "✓");

    let step_fail = Step { conclusion: Some("failure".to_string()), ..step.clone() };
    assert_eq!(step_fail.status_icon(), "✗");

    let step_skip = Step { conclusion: Some("skipped".to_string()), ..step.clone() };
    assert_eq!(step_skip.status_icon(), "⊘");
}

#[test]
fn test_step_duration_display() {
    let started = Utc.with_ymd_and_hms(2025, 1, 1, 0, 0, 0).unwrap();
    let ended = Utc.with_ymd_and_hms(2025, 1, 1, 0, 0, 30).unwrap();
    let step = Step {
        name: "Build".to_string(),
        status: "completed".to_string(),
        conclusion: Some("success".to_string()),
        number: 1,
        started_at: Some(stamp(started)),
        completed_at: Some(stamp(ended)),
    };
    assert_eq!(step.duration_display(), "30s");
}

#[test]
fn test_age_display() {
    let run = make_run(None, None);
    let age = run.age_display();
    assert!(age.contains("ago"));
}

#[test]
fn status_text_scenario() {
    let running = make_run(Some("in_progress"), None);
    assert!(running.status_display().ends_with("In Progress"));
    assert!(!running.status_display().contains("Success"));
    assert!(!running.status_display().contains("Failure"));
    for status in [None, Some("completed"), Some("in_progress"), Some("queued"), Some("odd")] {
        let failed = make_run(status, Some("failure"));
        assert!(failed.status_display().ends_with("Failure"));
        assert_eq!(failed.status_display(), "✗ Failure");
    }
}

#[test]
fn run_status_vocabulary() {
    assert_eq!(make_run(None, Some("skipped")).status_display(), "⊘ Skipped");
    assert_eq!(make_run(None, Some("timed_out")).status_display(), "⏱ Timed Out");
    assert_eq!(make_run(None, Some("neutral")).status_display(), "neutral");
    assert_eq!(make_run(Some("waiting"), None).status_display(), "◎ Waiting");
    assert_eq!(make_run(Some("requested"), None).status_display(), "requested");
    assert_eq!(make_run(Some("queued"), Some("")).status_display(), "");
    assert_eq!(make_run(Some("completed"), None).status_display(), "completed");
}

#[test]
fn job_status_vocabulary() {
    let job = |status: Option<&str>, conclusion: Option<&str>| Job {
        id: 1,
        run_id: 1,
        name: "build".to_string(),
        status: status.map(String::from),
        conclusion: conclusion.map(String::from),
        started_at: None,
        completed_at: None,
        steps: None,
        html_url: None,
    };
    assert_eq!(job(None, Some("failure")).status_display(), "✗ Failure");
    assert_eq!(job(None, Some("cancelled")).status_display(), "⊘ Cancelled");
    assert_eq!(job(None, Some("skipped")).status_display(), "⊘ Skipped");
    assert_eq!(job(Some("queued"), None).status_display(), "◯ Queued");
    assert_eq!(job(Some("in_progress"), None).status_display(), "● Running");
    assert_eq!(job(Some("waiting"), None).status_display(), "◎ Waiting");
    assert_eq!(job(Some("in_progress"), Some("timed_out")).status_display(), "● Running");
    assert_eq!(job(Some("completed"), None).status_display(), "? Unknown");
    assert_eq!(job(None, None).status_display(), "? Unknown");
    assert_eq!(job(None, Some("neutral")).status_display(), "? Unknown");
}

#[test]
fn step_icon_vocabulary() {
    let step = |status: &str, conclusion: Option<&str>| Step {
        name: "s".to_string(),
        status: status.to_string(),
        conclusion: conclusion.map(String::from),
        number: 1,
        started_at: None,
        completed_at: None,
    };
    assert_eq!(step("completed", Some("cancelled")).status_icon(), "⊘");
    assert_eq!(step("in_progress", None).status_icon(), "●");
    assert_eq!(step("queued", None).status_icon(), "◯");
    assert_eq!(step("completed", None).status_icon(), "?");
    assert_eq!(step("queued", Some("neutral")).status_icon(), "◯");
    assert_eq!(step("pending", Some("timed_out")).status_icon(), "?");
}

#[test]
fn duration_formulas() {
    assert_eq!(format_duration(0), "0s");
    assert_eq!(format_duration(59), "59s");
    assert_eq!(format_duration(60), "1m 0s");
    assert_eq!(format_duration(3599), "59m 59s");
    assert_eq!(format_duration(3600), "1h 0m");
    assert_eq!(format_duration(5400), "1h 30m");
    assert_eq!(format_duration(86_400 * 3 + 61), "72h 1m");
    assert_eq!(format_duration(-5), "-5s");
    assert_eq!(format_duration(i64::MIN), "-9223372036854775808s");
    assert_eq!(format_duration(i64::MAX), "2562047788015215h 30m");
    assert_eq!(format_short_duration(59), "59s");
    assert_eq!(format_short_duration(60), "1m 0s");
    assert_eq!(format_short_duration(3725), "62m 5s");
    assert_eq!(format_short_duration(-1), "-1s");
    assert_eq!(format_running(12), "12s (running)");
    assert_eq!(format_running(4000), "4000s (running)");
}

#[test]
fn age_formulas() {
    assert_eq!(format_age(0), "0s ago");
    assert_eq!(format_age(59), "59s ago");
    assert_eq!(format_age(60), "1m ago");
    assert_eq!(format_age(3599), "59m ago");
    assert_eq!(format_age(3600), "1h ago");
    assert_eq!(format_age(86_399), "23h ago");
    assert_eq!(format_age(86_400), "1d ago");
    assert_eq!(format_age(86_400 * 400), "400d ago");
    assert_eq!(format_age(-3), "-3s ago");
}

#[test]
fn run_duration_counts_to_now_while_running() {
    let mut run = make_run(Some("in_progress"), None);
    let started = Timestamp::new(1_000, 0).unwrap();
    run.run_started_at = Some(started);
    run.updated_at = Timestamp::new(1_010, 0).unwrap();
    let now = Timestamp::new(1_125, 0).unwrap();
    assert_eq!(run.duration_display_at(&now), "2m 5s");
    run.status = Some("completed".to_string());
    assert_eq!(run.duration_display_at(&now), "10s");
    run.status = None;
    assert_eq!(run.duration_display_at(&now), "2m 5s");
    run.run_started_at = None;
    assert_eq!(run.duration_display_at(&now), "—");
}

#[test]
fn run_age_at_a_given_time() {
    let mut run = make_run(None, None);
    run.created_at = Timestamp::new(1_000_000, 0).unwrap();
    assert_eq!(run.age_display_at(&Timestamp::new(1_000_030, 0).unwrap()), "30s ago");
    assert_eq!(run.age_display_at(&Timestamp::new(1_000_000 + 7_200, 0).unwrap()), "2h ago");
    assert_eq!(run.age_display_at(&Timestamp::new(1_000_000 + 86_400 * 2, 5).unwrap()), "2d ago");
    assert_eq!(run.age_display_at(&Timestamp::new(999_990, 0).unwrap()), "-10s ago");
}

#[test]
fn job_duration_cases() {
    let mut job = Job {
        id: 1,
        run_id: 1,
        name: "build".to_string(),
        status: None,
        conclusion: None,
        started_at: Some(Timestamp::new(100, 0).unwrap()),
        completed_at: None,
        steps: Some(vec![]),
        html_url: None,
    };
    let now = Timestamp::new(175, 0).unwrap();
    assert_eq!(job.duration_display_at(&now), "75s (running)");
    assert!(job.duration_display().ends_with("s (running)"));
    job.completed_at = Some(Timestamp::new(4_000, 0).unwrap());
    assert_eq!(job.duration_display_at(&now), "1h 5m");
    assert_eq!(job.duration_display(), "1h 5m");
    job.started_at = None;
    assert_eq!(job.duration_display_at(&now), "—");
    job.completed_at = None;
    assert_eq!(job.duration_display(), "—");
}

#[test]
fn step_duration_cases() {
    let mut step = Step {
        name: "Build".to_string(),
        status: "completed".to_string(),
        conclusion: None,
        number: 1,
        started_at: Some(Timestamp::new(0, 0).unwrap()),
        completed_at: Some(Timestamp::new(3_725, 0).unwrap()),
    };
    assert_eq!(step.duration_display(), "62m 5s");
    step.completed_at = None;
    assert_eq!(step.duration_display(), "—");
    step.started_at = None;
    step.completed_at = Some(Timestamp::new(5, 0).unwrap());
    assert_eq!(step.duration_display(), "—");
}

#[test]
fn repository_last_active() {
    let updated = Timestamp::new(1_000, 0).unwrap();
    let pushed = Timestamp::new(5_000, 0).unwrap();
    let now = Timestamp::new(5_000 + 3 * 3_600, 0).unwrap();
    assert_eq!(make_repo(Some(pushed), updated, false).last_active_display_at(&now), "3h ago");
    assert_eq!(make_repo(None, updated, false).last_active_display_at(&now), "4h ago");
    assert!(make_repo(None, updated, false).last_active_display().ends_with("d ago"));
}

#[test]
fn repository_visibility_icon() {
    let t = Timestamp::new(0, 0).unwrap();
    assert_eq!(make_repo(None, t, true).visibility_icon(), "🔒");
    assert_eq!(make_repo(None, t, false).visibility_icon(), "🌍");
}

#[test]
fn short_sha_lengths() {
    let mut run = make_run(None, None);
    run.head_sha = "1234567".to_string();
    assert_eq!(run.short_sha(), "1234567");
    run.head_sha = "123456".to_string();
    assert_eq!(run.short_sha(), "123456");
    run.head_sha = String::new();
    assert_eq!(run.short_sha(), "");
    run.head_sha = "0123456 and the rest of the reference".to_string();
    assert_eq!(run.short_sha(), "0123456");
}

#[test]
fn clones_are_equal_field_by_field() {
    let run = make_run(Some("queued"), None);
    let copy = run.clone();
    assert_eq!(copy.id, run.id);
    assert_eq!(copy.head_sha, run.head_sha);
    assert_eq!(copy.status, run.status);
    assert_eq!(copy.actor.unwrap().login, "testuser");
    let page = WorkflowRunsResponse { total_count: 9, workflow_runs: vec![run] };
    let page_copy = page.clone();
    assert_eq!(page_copy.total_count, 9);
    assert_eq!(page_copy.workflow_runs.len(), 1);
    let step = Step {
        name: "Build".to_string(),
        status: "completed".to_string(),
        conclusion: None,
        number: 4,
        started_at: None,
        completed_at: None,
    };
    let job = Job {
        id: 3,
        run_id: 2,
        name: "build".to_string(),
        status: None,
        conclusion: None,
        started_at: None,
        completed_at: None,
        steps: Some(vec![step]),
        html_url: Some("u".to_string()),
    };
    let jobs = JobsResponse { total_count: 1, jobs: vec![job] };
    let jobs_copy = jobs.clone();
    assert_eq!(jobs_copy.total_count, 1);
    assert_eq!(jobs_copy.jobs[0].steps.as_ref().unwrap()[0].number, 4);
    assert_eq!(jobs_copy.jobs[0].html_url.as_deref(), Some("u"));
    assert_eq!(jobs_copy.jobs.len(), jobs.jobs.len());
    assert_eq!(jobs_copy.jobs[0].id, 3);
    assert_eq!(jobs_copy.jobs[0].run_id, 2);
    assert_eq!(jobs_copy.jobs[0].name, "build");
    assert_eq!(jobs_copy.jobs[0].status, None);
    assert_eq!(jobs_copy.jobs[0].steps.as_ref().unwrap()[0].name, "Build");
    let repo = make_repo(None, Timestamp::new(5, 6).unwrap(), true).clone();
    assert_eq!(repo.owner.login, "octo");
    assert_eq!(repo.updated_at.secs(), 5);
    assert_eq!(repo.updated_at.nanos(), 6);
}
