//! The steps that a bargo command performs, as data: a command's decisions
//! are made when its plan is built, and the plan is then carried out step
//! by step, stopping at the first failure.

use vstd::prelude::*;
use crate::errors::{smart_error, smart_error_text, BargoError};
use crate::text::views;

verus! {

/// How a failed file-system operation is reported, given the system's
/// message for it.
#[derive(Debug, PartialEq)]
pub enum Failure {
    /// The system's message alone.
    Plain,
    /// The context, a colon, then the system's message.
    Context(String),
    /// A smart error on the context, a colon and the system's message,
    /// with suggestions.
    Smart { context: String, suggestions: Vec<String> },
}

/// The model of a `Failure`.
pub ghost enum FailureModel {
    Plain,
    Context(Seq<char>),
    Smart(Seq<char>, Seq<Seq<char>>),
}

impl View for Failure {
    type V = FailureModel;

    open spec fn view(&self) -> FailureModel {
        match self {
            Failure::Plain => FailureModel::Plain,
            Failure::Context(c) => FailureModel::Context(c@),
            Failure::Smart { context, suggestions } => FailureModel::Smart(context@, views(suggestions@)),
        }
    }
}

/// The text of the error that a failure reports for the system message `detail`.
pub open spec fn failure_text(f: FailureModel, detail: Seq<char>) -> Seq<char> {
    match f {
        FailureModel::Plain => detail,
        FailureModel::Context(c) => c + ": "@ + detail,
        FailureModel::Smart(c, s) => smart_error_text(c + ": "@ + detail, s),
    }
}

/// The error that `failure` reports for the system message `detail`.
pub fn failure_error(failure: &Failure, detail: &str) -> (res: BargoError)
    ensures
        res@ == failure_text(failure@, detail@),
{
    match failure {
        Failure::Plain => BargoError::new(String::from_str(detail)),
        Failure::Context(c) => {
            let mut m = c.clone();
            m.append(": ");
            m.append(detail);
            BargoError::new(m)
        },
        Failure::Smart { context, suggestions } => {
            let mut m = context.clone();
            m.append(": ");
            m.append(detail);
            smart_error(m.as_str(), suggestions)
        },
    }
}

/// How a tool is run and how its failure is reported.
#[derive(Debug, PartialEq)]
pub enum RunMode {
    /// Its output is shown; an unsuccessful exit is reported with the
    /// command line and exit code.
    Shown,
    /// As `Shown`, after checking that garaga is installed, and with
    /// troubleshooting hints added to a failure.
    Garaga,
    /// Its standard output is kept for the next stage of the command; an
    /// unsuccessful exit is reported as for `Shown`.
    Captured,
    /// Spawned on its own: a failure to start is reported through `spawn`;
    /// an unsuccessful exit as a smart error on `message` followed by the
    /// tool's standard output (when `with_stdout`) and standard error. Its
    /// standard output is kept for the next stage of the command.
    Direct { spawn: Failure, message: String, with_stdout: bool, suggestions: Vec<String> },
}

/// The model of a `RunMode`.
pub ghost enum RunModeModel {
    Shown,
    Garaga,
    Captured,
    Direct(FailureModel, Seq<char>, bool, Seq<Seq<char>>),
}

impl View for RunMode {
    type V = RunModeModel;

    open spec fn view(&self) -> RunModeModel {
        match self {
            RunMode::Shown => RunModeModel::Shown,
            RunMode::Garaga => RunModeModel::Garaga,
            RunMode::Captured => RunModeModel::Captured,
            RunMode::Direct { spawn, message, with_stdout, suggestions } => RunModeModel::Direct(
                spawn@,
                message@,
                *with_stdout,
                views(suggestions@),
            ),
        }
    }
}

/// One step of a command.
#[derive(Debug, PartialEq)]
pub enum Step {
    /// Print a line as it is.
    Say(String),
    /// Print a line as a success message.
    Success(String),
    /// Log a line at info level (planned in verbose mode only).
    Note(String),
    /// Stop unless every file exists; the error is enhanced when `enhance`.
    RequireFiles { files: Vec<String>, enhance: bool },
    /// Create a directory and its parents.
    MakeDir { path: String, failure: Failure },
    /// Start, or restart, the timer with this number.
    StartTimer(usize),
    /// Run `program` with `args`, in `cwd` when given; a failure is
    /// enhanced when `enhance`.
    Run { program: String, args: Vec<String>, cwd: Option<String>, mode: RunMode, enhance: bool },
    /// Remove a directory tree when it exists (failures as the system
    /// reports them); then print `removed` as a success message, or, when
    /// there was nothing to remove, `already_clean` as an informational one.
    CleanDir { path: String, removed: Option<String>, already_clean: Option<String> },
    /// Remove a directory tree when it exists.
    RemoveDirIfExists { path: String, failure: Failure },
    /// Rename `from` to `to` when `from` exists.
    MoveIfExists { from: String, to: String, failure: Failure },
    /// Rename `from` to `to`.
    Move { from: String, to: String, failure: Failure },
    /// When `from` exists, remove `to` if it exists, then rename `from` to `to`.
    ReplaceDir { from: String, to: String, remove_failure: Failure, move_failure: Failure },
    /// Write `contents` to `path`, replacing what is there.
    WriteFile { path: String, contents: String, failure: Failure },
    /// Write `contents` to `path`, creating its parent directory first, on
    /// a best-effort basis: a failure is printed as a warning when `warn`
    /// (with `failure_label` before the system's message) and otherwise
    /// ignored. Once written, `on_saved` is printed as a success message.
    SaveFile { path: String, contents: String, warn: bool, failure_label: String, on_saved: Option<String> },
    /// Stop with the error `missing` unless `program` is found on the PATH.
    RequireTool { program: String, missing: String },
    /// Print, as a success message, the operation result for the file at
    /// `path` with the time on the given timer.
    Report { label: String, path: String, timer: usize },
    /// Print, as a success message, `before`, the time on the timer, then `after`.
    ReportElapsed { before: String, timer: usize, after: String },
    /// Print, as a success message, `before`, the size of the file at
    /// `path`, then `after`.
    ReportSize { before: String, path: String, after: String },
    /// Record an operation in the summary.
    Summarize(String),
    /// Record `before`, the size of the file at `path`, then `after`.
    SummarizeSize { before: String, path: String, after: String },
    /// Print the summary.
    PrintSummary,
    /// Stop with an error of this message.
    Fail(String),
}

/// The model of a `Step`.
pub ghost enum StepModel {
    Say(Seq<char>),
    Success(Seq<char>),
    Note(Seq<char>),
    RequireFiles(Seq<Seq<char>>, bool),
    MakeDir(Seq<char>, FailureModel),
    StartTimer(nat),
    Run(Seq<char>, Seq<Seq<char>>, Option<Seq<char>>, RunModeModel, bool),
    CleanDir(Seq<char>, Option<Seq<char>>, Option<Seq<char>>),
    RemoveDirIfExists(Seq<char>, FailureModel),
    MoveIfExists(Seq<char>, Seq<char>, FailureModel),
    Move(Seq<char>, Seq<char>, FailureModel),
    ReplaceDir(Seq<char>, Seq<char>, FailureModel, FailureModel),
    WriteFile(Seq<char>, Seq<char>, FailureModel),
    SaveFile(Seq<char>, Seq<char>, bool, Seq<char>, Option<Seq<char>>),
    RequireTool(Seq<char>, Seq<char>),
    Report(Seq<char>, Seq<char>, nat),
    ReportElapsed(Seq<char>, nat, Seq<char>),
    ReportSize(Seq<char>, Seq<char>, Seq<char>),
    Summarize(Seq<char>),
    SummarizeSize(Seq<char>, Seq<char>, Seq<char>),
    PrintSummary,
    Fail(Seq<char>),
}

/// The view of an optional string.
pub open spec fn opt_view(o: Option<String>) -> Option<Seq<char>> {
    match o {
        Some(s) => Some(s@),
        None => None,
    }
}

impl View for Step {
    type V = StepModel;

    open spec fn view(&self) -> StepModel {
        match self {
            Step::Say(t) => StepModel::Say(t@),
            Step::Success(t) => StepModel::Success(t@),
            Step::Note(t) => StepModel::Note(t@),
            Step::RequireFiles { files, enhance } => StepModel::RequireFiles(views(files@), *enhance),
            Step::MakeDir { path, failure } => StepModel::MakeDir(path@, failure@),
            Step::StartTimer(n) => StepModel::StartTimer(*n as nat),
            Step::Run { program, args, cwd, mode, enhance } => StepModel::Run(
                program@,
                views(args@),
                opt_view(*cwd),
                mode@,
                *enhance,
            ),
            Step::CleanDir { path, removed, already_clean } => StepModel::CleanDir(
                path@,
                opt_view(*removed),
                opt_view(*already_clean),
            ),
            Step::RemoveDirIfExists { path, failure } => StepModel::RemoveDirIfExists(path@, failure@),
            Step::MoveIfExists { from, to, failure } => StepModel::MoveIfExists(from@, to@, failure@),
            Step::Move { from, to, failure } => StepModel::Move(from@, to@, failure@),
            Step::ReplaceDir { from, to, remove_failure, move_failure } => StepModel::ReplaceDir(
                from@,
                to@,
                remove_failure@,
                move_failure@,
            ),
            Step::WriteFile { path, contents, failure } => StepModel::WriteFile(path@, contents@, failure@),
            Step::SaveFile { path, contents, warn, failure_label, on_saved } => StepModel::SaveFile(
                path@,
                contents@,
                *warn,
                failure_label@,
                opt_view(*on_saved),
            ),
            Step::RequireTool { program, missing } => StepModel::RequireTool(program@, missing@),
            Step::Report { label, path, timer } => StepModel::Report(label@, path@, *timer as nat),
            Step::ReportElapsed { before, timer, after } => StepModel::ReportElapsed(
                before@,
                *timer as nat,
                after@,
            ),
            Step::ReportSize { before, path, after } => StepModel::ReportSize(before@, path@, after@),
            Step::Summarize(t) => StepModel::Summarize(t@),
            Step::SummarizeSize { before, path, after } => StepModel::SummarizeSize(before@, path@, after@),
            Step::PrintSummary => StepModel::PrintSummary,
            Step::Fail(m) => StepModel::Fail(m@),
        }
    }
}

/// The models of a plan's steps.
pub open spec fn plan_view(steps: Seq<Step>) -> Seq<StepModel> {
    steps.map_values(|s: Step| s@)
}

/// The step touches the file system or runs a tool.
pub open spec fn acts(s: StepModel) -> bool {
    match s {
        StepModel::MakeDir(..) => true,
        StepModel::Run(..) => true,
        StepModel::CleanDir(..) => true,
        StepModel::RemoveDirIfExists(..) => true,
        StepModel::MoveIfExists(..) => true,
        StepModel::Move(..) => true,
        StepModel::ReplaceDir(..) => true,
        StepModel::WriteFile(..) => true,
        StepModel::SaveFile(..) => true,
        _ => false,
    }
}

/// The step runs `program` with `sub` as its first argument.
pub open spec fn runs_sub(s: StepModel, program: Seq<char>, sub: Seq<char>) -> bool {
    match s {
        StepModel::Run(p, args, _, _, _) => p == program && args.len() > 0 && args[0] == sub,
        _ => false,
    }
}

/// The arguments of a step that runs a tool (none for any other step).
pub open spec fn step_args(s: StepModel) -> Seq<Seq<char>> {
    match s {
        StepModel::Run(_, args, _, _, _) => args,
        _ => seq![],
    }
}

/// In `args`, the option `flag` is given the value `value`.
pub open spec fn flag_set(args: Seq<Seq<char>>, flag: Seq<char>, value: Seq<char>) -> bool {
    exists|j: int| 0 <= j && j + 1 < args.len() && #[trigger] args[j] == flag && args[j + 1] == value
}

/// No step of the plan touches the file system or runs a tool.
pub open spec fn inert(plan: Seq<StepModel>) -> bool {
    forall|i: int| 0 <= i < plan.len() ==> !acts(#[trigger] plan[i])
}

/// The step is a log line.
pub open spec fn is_note(s: StepModel) -> bool {
    s is Note
}

/// The plan with its log lines left out.
pub open spec fn without_notes(plan: Seq<StepModel>) -> Seq<StepModel> {
    plan.filter(|s: StepModel| !is_note(s))
}

/// A line that quiet mode leaves out: any message but a dry-run preview.
pub open spec fn chatty(s: StepModel) -> bool {
    match s {
        StepModel::Say(t) => !(t.len() >= 11 && t.subrange(0, 11) == "Would run: "@),
        StepModel::Success(_) => true,
        StepModel::Report(..) => true,
        StepModel::ReportElapsed(..) => true,
        StepModel::ReportSize(..) => true,
        StepModel::PrintSummary => true,
        StepModel::SaveFile(_, _, _, _, saved) => saved is Some,
        StepModel::CleanDir(_, removed, clean) => removed is Some || clean is Some,
        _ => false,
    }
}

/// The plan prints nothing but dry-run previews.
pub open spec fn hushed(plan: Seq<StepModel>) -> bool {
    forall|i: int| 0 <= i < plan.len() ==> !chatty(#[trigger] plan[i])
}

/// Appends a step to a plan.
pub fn push_step(plan: &mut Vec<Step>, step: Step)
    ensures
        plan_view(final(plan)@) == plan_view(old(plan)@).push(step@),
{
    plan.push(step);
    assert(plan_view(plan@) =~= plan_view(old(plan)@).push(step@));
}

/// Appends the steps of `more` to a plan.
pub fn push_steps(plan: &mut Vec<Step>, more: Vec<Step>)
    ensures
        plan_view(final(plan)@) == plan_view(old(plan)@) + plan_view(more@),
{
    let mut more = more;
    let ghost m = more@;
    plan.append(&mut more);
    assert(plan_view(plan@) =~= plan_view(old(plan)@) + plan_view(m));
}


/// A plan is inert exactly when both of its parts are.
pub proof fn lemma_inert_add(a: Seq<StepModel>, b: Seq<StepModel>)
    ensures
        inert(a + b) == (inert(a) && inert(b)),
{
    if inert(a) && inert(b) {
        assert forall|i: int| 0 <= i < (a + b).len() implies !acts(#[trigger] (a + b)[i]) by {
            if i < a.len() {
                assert((a + b)[i] == a[i]);
            } else {
                assert((a + b)[i] == b[i - a.len()]);
            }
        }
    }
    if inert(a + b) {
        assert forall|i: int| 0 <= i < a.len() implies !acts(#[trigger] a[i]) by {
            assert((a + b)[i] == a[i]);
        }
        assert forall|i: int| 0 <= i < b.len() implies !acts(#[trigger] b[i]) by {
            assert((a + b)[i + a.len()] == b[i]);
        }
    }
}

/// A plan is hushed exactly when both of its parts are.
pub proof fn lemma_hushed_add(a: Seq<StepModel>, b: Seq<StepModel>)
    ensures
        hushed(a + b) == (hushed(a) && hushed(b)),
{
    if hushed(a) && hushed(b) {
        assert forall|i: int| 0 <= i < (a + b).len() implies !chatty(#[trigger] (a + b)[i]) by {
            if i < a.len() {
                assert((a + b)[i] == a[i]);
            } else {
                assert((a + b)[i] == b[i - a.len()]);
            }
        }
    }
    if hushed(a + b) {
        assert forall|i: int| 0 <= i < a.len() implies !chatty(#[trigger] a[i]) by {
            assert((a + b)[i] == a[i]);
        }
        assert forall|i: int| 0 <= i < b.len() implies !chatty(#[trigger] b[i]) by {
            assert((a + b)[i + a.len()] == b[i]);
        }
    }
}

/// Leaving out log lines distributes over the parts of a plan.
pub proof fn lemma_without_notes_add(a: Seq<StepModel>, b: Seq<StepModel>)
    ensures
        without_notes(a + b) == without_notes(a) + without_notes(b),
{
    Seq::filter_distributes_over_add(a, b, |s: StepModel| !is_note(s));
}

/// A plan with no log line is left as it is.
pub proof fn lemma_without_notes_none(p: Seq<StepModel>)
    requires
        forall|i: int| 0 <= i < p.len() ==> !is_note(#[trigger] p[i]),
    ensures
        without_notes(p) == p,
    decreases p.len(),
{
    if p.len() > 0 {
        let q = p.drop_last();
        assert forall|i: int| 0 <= i < q.len() implies !is_note(#[trigger] q[i]) by {
            assert(q[i] == p[i]);
        }
        lemma_without_notes_none(q);
        q.lemma_filter_push(p.last(), |s: StepModel| !is_note(s));
        assert(q.push(p.last()) =~= p);
    } else {
        p.lemma_filter_len(|s: StepModel| !is_note(s));
        assert(p.filter(|s: StepModel| !is_note(s)) =~= p);
    }
}

/// A plan of log lines alone leaves nothing.
pub proof fn lemma_without_notes_all(p: Seq<StepModel>)
    requires
        forall|i: int| 0 <= i < p.len() ==> is_note(#[trigger] p[i]),
    ensures
        without_notes(p) == Seq::<StepModel>::empty(),
    decreases p.len(),
{
    if p.len() > 0 {
        let q = p.drop_last();
        assert forall|i: int| 0 <= i < q.len() implies is_note(#[trigger] q[i]) by {
            assert(q[i] == p[i]);
        }
        lemma_without_notes_all(q);
        q.lemma_filter_push(p.last(), |s: StepModel| !is_note(s));
        assert(q.push(p.last()) =~= p);
    } else {
        p.lemma_filter_len(|s: StepModel| !is_note(s));
        assert(p.filter(|s: StepModel| !is_note(s)) =~= Seq::<StepModel>::empty());
    }
}


/// A dry-run preview is no message that quiet mode leaves out.
pub proof fn lemma_preview_not_chatty(rest: Seq<char>)
    ensures
        !chatty(StepModel::Say("Would run: "@ + rest)),
{
    reveal_strlit("Would run: ");
    assert(("Would run: "@ + rest).subrange(0, 11) =~= "Would run: "@);
}


/// The plan has no log line.
pub open spec fn note_free(p: Seq<StepModel>) -> bool {
    forall|i: int| 0 <= i < p.len() ==> !is_note(#[trigger] p[i])
}

/// Leaving out the log lines of a plan that ends with log lines and then a
/// note-free part leaves out those log lines and keeps that part.
pub proof fn lemma_strip_tail(x: Seq<StepModel>, n: Seq<StepModel>, b: Seq<StepModel>)
    requires
        note_free(b),
        forall|i: int| 0 <= i < n.len() ==> is_note(#[trigger] n[i]),
    ensures
        without_notes(x + n + b) == without_notes(x) + b,
{
    lemma_without_notes_none(b);
    lemma_without_notes_all(n);
    lemma_without_notes_add(x, n);
    lemma_without_notes_add(x + n, b);
    assert(without_notes(x) + Seq::<StepModel>::empty() =~= without_notes(x));
}


/// Leaving out log lines part by part: when it turns `pv` into `pq` and
/// `lv` into `lq`, it turns `pv + lv` into `pq + lq`.
pub proof fn lemma_strip_join(pv: Seq<StepModel>, pq: Seq<StepModel>, lv: Seq<StepModel>, lq: Seq<StepModel>)
    requires
        without_notes(pv) == pq,
        without_notes(lv) == lq,
    ensures
        without_notes(pv + lv) == pq + lq,
{
    lemma_without_notes_add(pv, lv);
}

} // verus!
