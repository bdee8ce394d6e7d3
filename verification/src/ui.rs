//! What the renderer shows: colours, marks, titles and key hints, each as a
//! function of the state. Drawing them is the caller's part.

use vstd::prelude::*;
use vstd::string::StringExecFns;
use vstd::view::View as Viewed;
use crate::app::View;
use crate::models::{
    job_status_text, opt_text, run_status_text, Job, Repository, Step, WorkflowRun,
};
use crate::text::{
    chars_of, contains, decimal_nat, matches_at, mentions, occurs_at, owned, push_decimal_u64,
    spells, string_of,
};

verus! {

/// Characters of a description shown in the list of repositories.
pub const PREVIEW_CHARS: usize = 50;

/// The colours of the palette, by their role.
#[derive(Clone, Copy, Debug, PartialEq, Eq, Structural)]
pub enum Tone {
    Green,
    Red,
    Yellow,
    Blue,
    Purple,
    Gray,
    Orange,
    Cyan,
    Foreground,
}

/// The colour of a run in the list: by its outcome; of a run without one of
/// the three marked outcomes, orange while in progress and gray otherwise.
pub open spec fn run_tone_of(conclusion: Option<Seq<char>>, status: Option<Seq<char>>) -> Tone {
    if conclusion == Some("success"@) {
        Tone::Green
    } else if conclusion == Some("failure"@) {
        Tone::Red
    } else if conclusion == Some("cancelled"@) {
        Tone::Yellow
    } else if status == Some("in_progress"@) {
        Tone::Orange
    } else {
        Tone::Gray
    }
}

/// The mark of a run in the list.
pub open spec fn run_icon_of(conclusion: Option<Seq<char>>, status: Option<Seq<char>>) -> Seq<
    char,
> {
    if conclusion == Some("success"@) {
        "✓"@
    } else if conclusion == Some("failure"@) {
        "✗"@
    } else if conclusion == Some("cancelled"@) {
        "⊘"@
    } else if status == Some("in_progress"@) {
        "●"@
    } else if status == Some("queued"@) {
        "◯"@
    } else {
        "?"@
    }
}

/// The colour of an outcome where everything unfinished is orange.
pub open spec fn outcome_tone_of(conclusion: Option<Seq<char>>) -> Tone {
    if conclusion == Some("success"@) {
        Tone::Green
    } else if conclusion == Some("failure"@) {
        Tone::Red
    } else if conclusion == Some("cancelled"@) {
        Tone::Yellow
    } else {
        Tone::Orange
    }
}

/// The colour of a step: as of any outcome, but gray where it was skipped.
pub open spec fn step_tone_of(conclusion: Option<Seq<char>>) -> Tone {
    if conclusion == Some("skipped"@) {
        Tone::Gray
    } else {
        outcome_tone_of(conclusion)
    }
}

/// The mark of a job in the list of jobs.
pub open spec fn job_icon_of(conclusion: Option<Seq<char>>) -> Seq<char> {
    if conclusion == Some("success"@) {
        "✓"@
    } else if conclusion == Some("failure"@) {
        "✗"@
    } else if conclusion == Some("cancelled"@) {
        "⊘"@
    } else {
        "●"@
    }
}

/// The colour of a programming language.
pub open spec fn language_tone_of(language: Option<Seq<char>>) -> Tone {
    if language == Some("Rust"@) {
        Tone::Orange
    } else if language == Some("TypeScript"@) || language == Some("JavaScript"@) {
        Tone::Yellow
    } else if language == Some("Python"@) {
        Tone::Blue
    } else if language == Some("Go"@) {
        Tone::Cyan
    } else if language == Some("Java"@) || language == Some("Kotlin"@) {
        Tone::Red
    } else if language == Some("C"@) || language == Some("C++"@) {
        Tone::Purple
    } else {
        Tone::Gray
    }
}

/// The colour of a line of a log: red for an error, yellow for a warning,
/// blue for the start of a group or of a command.
pub open spec fn log_line_tone_of(line: Seq<char>) -> Tone {
    if mentions(line, "##[error]"@) || mentions(line, "Error"@) {
        Tone::Red
    } else if mentions(line, "##[warning]"@) || mentions(line, "Warning"@) {
        Tone::Yellow
    } else if mentions(line, "##[group]"@) || occurs_at(line, "Run "@, 0) {
        Tone::Blue
    } else {
        Tone::Foreground
    }
}

/// The name of a screen in the header.
pub open spec fn view_title_of(view: View) -> Seq<char> {
    match view {
        View::RepoList => "Repositories"@,
        View::RunsList => "Workflow Runs"@,
        View::RunDetail => "Run Details"@,
        View::Logs => "Job Logs"@,
    }
}

/// The keys offered on a screen, each with what it does.
pub open spec fn key_hints_of(view: View, searching: bool) -> Seq<(Seq<char>, Seq<char>)> {
    match view {
        View::RepoList => if searching {
            seq![
                ("type"@, "filter"@),
                ("Esc"@, "clear"@),
                ("↑↓"@, "navigate"@),
                ("Enter"@, "open"@),
                ("q"@, "quit"@),
            ]
        } else {
            seq![
                ("↑↓/jk"@, "navigate"@),
                ("Enter/l"@, "open"@),
                ("/"@, "search"@),
                ("r"@, "refresh"@),
                ("o"@, "browser"@),
                ("q"@, "quit"@),
            ]
        },
        View::RunsList => seq![
            ("↑↓/jk"@, "navigate"@),
            ("Enter/l"@, "open"@),
            ("r"@, "refresh"@),
            ("←→/np"@, "page"@),
            ("o"@, "browser"@),
            ("R"@, "rerun"@),
            ("C"@, "cancel"@),
            ("q"@, "quit"@),
        ],
        View::RunDetail => seq![
            ("↑↓/jk"@, "navigate"@),
            ("Enter/l"@, "logs"@),
            ("Esc/h"@, "back"@),
            ("r"@, "refresh"@),
            ("o"@, "browser"@),
            ("R"@, "rerun"@),
            ("C"@, "cancel"@),
            ("q"@, "quit"@),
        ],
        View::Logs => seq![
            ("↑↓/jk"@, "scroll"@),
            ("Esc/h"@, "back"@),
            ("r"@, "refresh"@),
            ("o"@, "browser"@),
            ("q"@, "quit"@),
        ],
    }
}

/// The texts of a list of key hints.
pub open spec fn hints_text(hints: Seq<(&'static str, &'static str)>) -> Seq<
    (Seq<char>, Seq<char>),
> {
    Seq::new(hints.len(), |i: int| (hints[i].0@, hints[i].1@))
}

/// What the list of repositories says while it is empty.
pub open spec fn repos_placeholder_of(loading: bool, filtering: bool) -> Seq<char> {
    if loading {
        "  Loading repositories..."@
    } else if filtering {
        "  No repositories match your search."@
    } else {
        "  No repositories found."@
    }
}

/// The first [`PREVIEW_CHARS`] characters of a description; a dash for none.
pub open spec fn preview_of(description: Option<Seq<char>>) -> Seq<char> {
    match description {
        Some(text) => if text.len() > PREVIEW_CHARS {
            text.subrange(0, PREVIEW_CHARS as int)
        } else {
            text
        },
        None => "—"@,
    }
}

/// The number of stars; a dash for none.
pub open spec fn stars_of(count: nat) -> Seq<char> {
    if count > 0 {
        decimal_nat(count)
    } else {
        "—"@
    }
}

/// The title over the list of repositories.
pub open spec fn repos_title_of(shown: nat, total: nat, filter: Seq<char>) -> Seq<char> {
    if filter.len() == 0 {
        " Repositories ("@ + decimal_nat(total) + ") "@
    } else {
        " Repositories ("@ + decimal_nat(shown) + "/"@ + decimal_nat(total) + ") — \""@ + filter
            + "\" "@
    }
}

/// The title over the log.
pub open spec fn logs_title_of(job: Option<Seq<char>>, lines: nat) -> Seq<char> {
    match job {
        Some(name) => " Logs: "@ + name + " ("@ + decimal_nat(lines) + " lines) "@,
        None => " Logs "@,
    }
}

fn is_word(text: &Option<String>, word: &str) -> (same: bool)
    ensures
        same == (opt_text(*text) == Some(word@)),
{
    match text {
        Some(t) => spells(&chars_of(t.as_str()), word),
        None => false,
    }
}

/// The colour of `run` in the list of runs.
pub fn run_tone(run: &WorkflowRun) -> (tone: Tone)
    ensures
        tone == run_tone_of(opt_text(run.conclusion), opt_text(run.status)),
{
    if is_word(&run.conclusion, "success") {
        Tone::Green
    } else if is_word(&run.conclusion, "failure") {
        Tone::Red
    } else if is_word(&run.conclusion, "cancelled") {
        Tone::Yellow
    } else if is_word(&run.status, "in_progress") {
        Tone::Orange
    } else {
        Tone::Gray
    }
}

/// The mark of `run` in the list of runs.
pub fn run_icon(run: &WorkflowRun) -> (icon: &'static str)
    ensures
        icon@ == run_icon_of(opt_text(run.conclusion), opt_text(run.status)),
{
    if is_word(&run.conclusion, "success") {
        "✓"
    } else if is_word(&run.conclusion, "failure") {
        "✗"
    } else if is_word(&run.conclusion, "cancelled") {
        "⊘"
    } else if is_word(&run.status, "in_progress") {
        "●"
    } else if is_word(&run.status, "queued") {
        "◯"
    } else {
        "?"
    }
}

/// The state of `run` as the list of runs shows it: its mark, then its
/// state in words.
pub fn run_status_cell(run: &WorkflowRun) -> (text: String)
    ensures
        text@ == run_icon_of(opt_text(run.conclusion), opt_text(run.status)) + " "@
            + run_status_text(opt_text(run.conclusion), opt_text(run.status)),
{
    let mut text = owned(run_icon(run));
    text.append(" ");
    text.append(run.status_display());
    text
}

/// The colour of an outcome in the summary of a run and for its jobs.
pub fn outcome_tone(conclusion: &Option<String>) -> (tone: Tone)
    ensures
        tone == outcome_tone_of(opt_text(*conclusion)),
{
    if is_word(conclusion, "success") {
        Tone::Green
    } else if is_word(conclusion, "failure") {
        Tone::Red
    } else if is_word(conclusion, "cancelled") {
        Tone::Yellow
    } else {
        Tone::Orange
    }
}

/// The colour of `step` in the list of steps.
pub fn step_tone(step: &Step) -> (tone: Tone)
    ensures
        tone == step_tone_of(opt_text(step.conclusion)),
{
    if is_word(&step.conclusion, "skipped") {
        Tone::Gray
    } else {
        outcome_tone(&step.conclusion)
    }
}

/// The mark of `job` in the list of jobs.
pub fn job_icon(job: &Job) -> (icon: &'static str)
    ensures
        icon@ == job_icon_of(opt_text(job.conclusion)),
{
    if is_word(&job.conclusion, "success") {
        "✓"
    } else if is_word(&job.conclusion, "failure") {
        "✗"
    } else if is_word(&job.conclusion, "cancelled") {
        "⊘"
    } else {
        "●"
    }
}

/// The colour of a programming language.
pub fn language_tone(language: &Option<String>) -> (tone: Tone)
    ensures
        tone == language_tone_of(opt_text(*language)),
{
    if is_word(language, "Rust") {
        Tone::Orange
    } else if is_word(language, "TypeScript") || is_word(language, "JavaScript") {
        Tone::Yellow
    } else if is_word(language, "Python") {
        Tone::Blue
    } else if is_word(language, "Go") {
        Tone::Cyan
    } else if is_word(language, "Java") || is_word(language, "Kotlin") {
        Tone::Red
    } else if is_word(language, "C") || is_word(language, "C++") {
        Tone::Purple
    } else {
        Tone::Gray
    }
}

fn has(line: &Vec<char>, word: &str) -> (found: bool)
    ensures
        found == mentions(line@, word@),
{
    contains(line, &chars_of(word))
}

/// The colour of a line of a log.
pub fn log_line_tone(line: &str) -> (tone: Tone)
    ensures
        tone == log_line_tone_of(line@),
{
    let chars = chars_of(line);
    if has(&chars, "##[error]") || has(&chars, "Error") {
        Tone::Red
    } else if has(&chars, "##[warning]") || has(&chars, "Warning") {
        Tone::Yellow
    } else if has(&chars, "##[group]") || matches_at(&chars, &chars_of("Run "), 0) {
        Tone::Blue
    } else {
        Tone::Foreground
    }
}

/// The name of a screen in the header.
pub fn view_title(view: View) -> (title: &'static str)
    ensures
        title@ == view_title_of(view),
{
    match view {
        View::RepoList => "Repositories",
        View::RunsList => "Workflow Runs",
        View::RunDetail => "Run Details",
        View::Logs => "Job Logs",
    }
}

/// The keys offered on a screen, each with what it does.
pub fn key_hints(view: View, searching: bool) -> (hints: Vec<(&'static str, &'static str)>)
    ensures
        hints_text(hints@) == key_hints_of(view, searching),
{
    let mut hints: Vec<(&'static str, &'static str)> = Vec::new();
    match view {
        View::RepoList => {
            if searching {
                hints.push(("type", "filter"));
                hints.push(("Esc", "clear"));
                hints.push(("↑↓", "navigate"));
                hints.push(("Enter", "open"));
                hints.push(("q", "quit"));
            } else {
                hints.push(("↑↓/jk", "navigate"));
                hints.push(("Enter/l", "open"));
                hints.push(("/", "search"));
                hints.push(("r", "refresh"));
                hints.push(("o", "browser"));
                hints.push(("q", "quit"));
            }
        },
        View::RunsList => {
            hints.push(("↑↓/jk", "navigate"));
            hints.push(("Enter/l", "open"));
            hints.push(("r", "refresh"));
            hints.push(("←→/np", "page"));
            hints.push(("o", "browser"));
            hints.push(("R", "rerun"));
            hints.push(("C", "cancel"));
            hints.push(("q", "quit"));
        },
        View::RunDetail => {
            hints.push(("↑↓/jk", "navigate"));
            hints.push(("Enter/l", "logs"));
            hints.push(("Esc/h", "back"));
            hints.push(("r", "refresh"));
            hints.push(("o", "browser"));
            hints.push(("R", "rerun"));
            hints.push(("C", "cancel"));
            hints.push(("q", "quit"));
        },
        View::Logs => {
            hints.push(("↑↓/jk", "scroll"));
            hints.push(("Esc/h", "back"));
            hints.push(("r", "refresh"));
            hints.push(("o", "browser"));
            hints.push(("q", "quit"));
        },
    }
    proof {
        assert(hints_text(hints@) =~= key_hints_of(view, searching));
    }
    hints
}

/// What the list of repositories says while it is empty.
pub fn repos_placeholder(loading: bool, filtering: bool) -> (text: &'static str)
    ensures
        text@ == repos_placeholder_of(loading, filtering),
{
    if loading {
        "  Loading repositories..."
    } else if filtering {
        "  No repositories match your search."
    } else {
        "  No repositories found."
    }
}

/// What the list of runs says while it is empty.
pub fn runs_placeholder(loading: bool) -> (text: &'static str)
    ensures
        text@ == (if loading {
            "  Loading workflow runs..."@
        } else {
            "No workflow runs found."@
        }),
{
    if loading {
        "  Loading workflow runs..."
    } else {
        "No workflow runs found."
    }
}

/// What the list of jobs says while it is empty.
pub fn jobs_placeholder(loading: bool) -> (text: &'static str)
    ensures
        text@ == (if loading {
            "⏳ Loading jobs..."@
        } else {
            "No jobs found for this run."@
        }),
{
    if loading {
        "⏳ Loading jobs..."
    } else {
        "No jobs found for this run."
    }
}

/// The mark in front of the status line while something is loading.
pub fn loading_indicator(loading: bool) -> (text: &'static str)
    ensures
        text@ == (if loading {
            "⏳ "@
        } else {
            ""@
        }),
{
    if loading {
        "⏳ "
    } else {
        ""
    }
}

/// The start of a description, as the list of repositories shows it.
pub fn preview(description: &Option<String>) -> (text: String)
    ensures
        text@ == preview_of(opt_text(*description)),
{
    match description {
        Some(full) => {
            let chars = chars_of(full.as_str());
            let end = if chars.len() > PREVIEW_CHARS {
                PREVIEW_CHARS
            } else {
                chars.len()
            };
            proof {
                assert(chars@.subrange(0, chars.len() as int) == chars@);
            }
            string_of(&chars, 0, end)
        },
        None => owned("—"),
    }
}

/// The number of stars of a repository, as its list shows it.
pub fn stars_text(count: u64) -> (text: String)
    ensures
        text@ == stars_of(count as nat),
{
    if count > 0 {
        let mut text = String::new();
        push_decimal_u64(&mut text, count);
        text
    } else {
        owned("—")
    }
}

/// The title over the list of repositories: how many there are, and how
/// many of them the filter shows.
pub fn repos_title(shown: usize, total: usize, filter: &str) -> (title: String)
    ensures
        title@ == repos_title_of(shown as nat, total as nat, filter@),
{
    let mut title = owned(" Repositories (");
    if filter.is_empty() {
        push_decimal_u64(&mut title, total as u64);
        title.append(") ");
    } else {
        push_decimal_u64(&mut title, shown as u64);
        title.append("/");
        push_decimal_u64(&mut title, total as u64);
        title.append(") — \"");
        title.append(filter);
        title.append("\" ");
    }
    title
}

/// The title over the list of runs.
pub fn runs_title(total: u64) -> (title: String)
    ensures
        title@ == " Workflow Runs ("@ + decimal_nat(total as nat) + ") "@,
{
    let mut title = owned(" Workflow Runs (");
    push_decimal_u64(&mut title, total);
    title.append(") ");
    title
}

/// The title over the list of jobs.
pub fn jobs_title(count: usize) -> (title: String)
    ensures
        title@ == " Jobs ("@ + decimal_nat(count as nat) + ") "@,
{
    let mut title = owned(" Jobs (");
    push_decimal_u64(&mut title, count as u64);
    title.append(") ");
    title
}

/// The title over the steps of `job`, given its duration as text.
pub fn steps_title(job: &Job, duration: &str) -> (title: String)
    ensures
        title@ == " "@ + job.name@ + " · "@ + job_status_text(
            opt_text(job.conclusion),
            opt_text(job.status),
        ) + " · "@ + duration@ + " "@,
{
    let mut title = owned(" ");
    title.append(job.name.as_str());
    title.append(" · ");
    title.append(job.status_display());
    title.append(" · ");
    title.append(duration);
    title.append(" ");
    title
}

/// The title over the log, with the name of the job where one is selected.
pub fn logs_title(job: Option<&str>, lines: usize) -> (title: String)
    ensures
        title@ == logs_title_of(
            match job {
                Some(name) => Some(name@),
                None => None,
            },
            lines as nat,
        ),
{
    match job {
        Some(name) => {
            let mut title = owned(" Logs: ");
            title.append(name);
            title.append(" (");
            push_decimal_u64(&mut title, lines as u64);
            title.append(" lines) ");
            title
        },
        None => owned(" Logs "),
    }
}

/// The text of a cell: what there is to show, or a dash for nothing.
pub open spec fn or_dash_of(text: Option<Seq<char>>) -> Seq<char> {
    match text {
        Some(t) => t,
        None => "—"@,
    }
}

/// The text of a cell: what there is to show, or a dash for nothing.
pub fn or_dash(text: &Option<String>) -> (shown: &str)
    ensures
        shown@ == or_dash_of(opt_text(*text)),
{
    match text {
        Some(t) => t.as_str(),
        None => "—",
    }
}

/// The title of a run in lists: its display title, else its name, else a
/// dash.
pub fn run_title(run: &WorkflowRun) -> (title: &str)
    ensures
        title@ == (match run.display_title {
            Some(t) => t@,
            None => or_dash_of(opt_text(run.name)),
        }),
{
    match &run.display_title {
        Some(t) => t.as_str(),
        None => or_dash(&run.name),
    }
}

/// The login of the account that triggered a run, or a dash.
pub fn actor_name(run: &WorkflowRun) -> (name: &str)
    ensures
        name@ == (match run.actor {
            Some(actor) => actor.login@,
            None => "—"@,
        }),
{
    match &run.actor {
        Some(actor) => actor.login.as_str(),
        None => "—",
    }
}

/// The colour of the visibility mark of a repository: yellow for a private
/// one, green for a public one.
pub fn visibility_tone(repo: &Repository) -> (tone: Tone)
    ensures
        tone == (if repo.private {
            Tone::Yellow
        } else {
            Tone::Green
        }),
{
    if repo.private {
        Tone::Yellow
    } else {
        Tone::Green
    }
}

/// The mark in front of a row: a pointer for the selected row, a blank for
/// any other.
pub fn selector(row: usize, selected: usize) -> (mark: &'static str)
    ensures
        mark@ == (if row == selected {
            "▸"@
        } else {
            " "@
        }),
{
    if row == selected {
        "▸"
    } else {
        " "
    }
}

/// The scroll offset as the rows a terminal can scroll by.
pub fn scroll_rows(log_scroll: usize) -> (rows: u16)
    ensures
        rows == (if log_scroll <= u16::MAX {
            log_scroll as int
        } else {
            u16::MAX as int
        }),
{
    if log_scroll <= u16::MAX as usize {
        log_scroll as u16
    } else {
        u16::MAX
    }
}

/// The width of the rule under the banner in a terminal of `width` columns.
pub fn divider_width(width: usize) -> (inner: usize)
    ensures
        inner == (if width >= 24 {
            width - 4
        } else {
            20
        }),
{
    if width >= 24 {
        width - 4
    } else {
        20
    }
}

} // verus!
