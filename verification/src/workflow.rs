//! Plans of the core commands: check, build, clean and rebuild.

use vstd::prelude::*;
use crate::cli::{build_nargo_args, nargo_args, Backend, Cli};
use crate::colors;
use crate::output::{paint, painted};
use crate::paths::{
    bytecode_path, get_bytecode_path, get_proof_path, get_public_inputs_path, get_vk_path,
    get_witness_path, join_path, path_join, proof_path, public_inputs_path, target_dir,
    target_path, vk_path, witness_path, Flavour,
};
use crate::plan::{
    hushed, inert, lemma_hushed_add, lemma_inert_add, lemma_preview_not_chatty, lemma_without_notes_add,
    lemma_without_notes_all, lemma_without_notes_none, opt_view, plan_view, push_step, push_steps,
    without_notes, Failure, FailureModel, RunMode, RunModeModel, Step, StepModel,
};
use crate::text::{concat, join, owned_all, seq_join, str_views, views};

verus! {

/// A log line when `on`, nothing otherwise.
pub open spec fn note_if(on: bool, text: Seq<char>) -> Seq<StepModel> {
    if on {
        seq![StepModel::Note(text)]
    } else {
        seq![]
    }
}

/// Running a tool whose output is shown.
pub open spec fn shown(program: Seq<char>, args: Seq<Seq<char>>, enhance: bool) -> StepModel {
    StepModel::Run(program, args, None, RunModeModel::Shown, enhance)
}

/// Moving `from` to `to` when it exists, reporting a failure in context.
pub open spec fn move_step(from: Seq<char>, to: Seq<char>) -> StepModel {
    StepModel::MoveIfExists(from, to, FailureModel::Context("Failed to move "@ + from + " to "@ + to))
}

/// Where nargo leaves a file before it is organized.
pub open spec fn nargo_output(name: Seq<char>) -> Seq<char> {
    path_join("target"@, name)
}

/// The steps that move nargo's bytecode and witness of `pkg` into the
/// target directory of `flavour`, creating it first.
pub open spec fn organize_build_plan(pkg: Seq<char>, flavour: Flavour) -> Seq<StepModel> {
    seq![
        StepModel::MakeDir(
            target_path(flavour),
            FailureModel::Context("Failed to create target directory "@ + target_path(flavour)),
        ),
        move_step(nargo_output(pkg + ".json"@), bytecode_path(pkg, flavour)),
        move_step(nargo_output(pkg + ".gz"@), witness_path(pkg, flavour)),
    ]
}

/// The steps that move bb's proof, verification key and public inputs into
/// the target directory of `flavour`, creating it first.
pub open spec fn organize_bb_plan(flavour: Flavour) -> Seq<StepModel> {
    seq![
        StepModel::MakeDir(
            target_path(flavour),
            FailureModel::Context("Failed to create target directory "@ + target_path(flavour)),
        ),
        move_step("target/proof"@, proof_path(flavour)),
        move_step("target/vk"@, vk_path(flavour)),
        move_step("target/public_inputs"@, public_inputs_path(flavour)),
    ]
}

fn dir_step(dir: &str) -> (res: Step)
    ensures
        res@ == StepModel::MakeDir(dir@, FailureModel::Context("Failed to create target directory "@ + dir@)),
{
    Step::MakeDir { path: String::from_str(dir), failure: Failure::Context(concat("Failed to create target directory ", dir)) }
}

fn move_if_exists(from: &str, to: &str) -> (res: Step)
    ensures
        res@ == move_step(from@, to@),
{
    let mut context = concat("Failed to move ", from);
    context.append(" to ");
    context.append(to);
    Step::MoveIfExists { from: String::from_str(from), to: String::from_str(to), failure: Failure::Context(context) }
}

/// Organize build artifacts by moving nargo output to the flavour's
/// directory: the steps that do it.
pub fn organize_build_artifacts(pkg_name: &str, flavour: Flavour) -> (res: Vec<Step>)
    ensures
        plan_view(res@) == organize_build_plan(pkg_name@, flavour),
{
    let mut plan: Vec<Step> = Vec::new();
    let dir = target_dir(flavour);
    push_step(&mut plan, dir_step(dir.as_str()));
    let json = concat(pkg_name, ".json");
    let src_json = join_path("target", json.as_str());
    let dst_json = get_bytecode_path(pkg_name, flavour);
    push_step(&mut plan, move_if_exists(src_json.as_str(), dst_json.as_str()));
    let gz = concat(pkg_name, ".gz");
    let src_gz = join_path("target", gz.as_str());
    let dst_gz = get_witness_path(pkg_name, flavour);
    push_step(&mut plan, move_if_exists(src_gz.as_str(), dst_gz.as_str()));
    assert(plan_view(plan@) =~= organize_build_plan(pkg_name@, flavour));
    plan
}

/// Organize bb artifacts by moving bb output to the flavour's directory:
/// the steps that do it.
pub fn organize_bb_artifacts(flavour: Flavour) -> (res: Vec<Step>)
    ensures
        plan_view(res@) == organize_bb_plan(flavour),
{
    let mut plan: Vec<Step> = Vec::new();
    let dir = target_dir(flavour);
    push_step(&mut plan, dir_step(dir.as_str()));
    let proof = get_proof_path(flavour);
    push_step(&mut plan, move_if_exists("target/proof", proof.as_str()));
    let vk = get_vk_path(flavour);
    push_step(&mut plan, move_if_exists("target/vk", vk.as_str()));
    let inputs = get_public_inputs_path(flavour);
    push_step(&mut plan, move_if_exists("target/public_inputs", inputs.as_str()));
    assert(plan_view(plan@) =~= organize_bb_plan(flavour));
    plan
}


/// A command line as bargo shows it: `lead`, the tool and its
/// subcommand, a space, then the arguments separated by spaces.
pub open spec fn command_text(lead: Seq<char>, cmd: Seq<char>, args: Seq<Seq<char>>) -> Seq<char> {
    lead + cmd + " "@ + seq_join(args, " "@)
}

/// The log line of a command about to run.
pub open spec fn running(cmd: Seq<char>, args: Seq<Seq<char>>) -> Seq<char> {
    command_text("Running: "@, cmd, args)
}

/// The line that a dry run prints for a command.
pub open spec fn would_run(cmd: Seq<char>, args: Seq<Seq<char>>) -> Seq<char> {
    command_text("Would run: "@, cmd, args)
}

/// Formats a command line as `command_text` describes it.
pub fn command_line(lead: &str, cmd: &str, args: &Vec<String>) -> (res: String)
    ensures
        res@ == command_text(lead@, cmd@, views(args@)),
{
    let mut s = concat(lead, cmd);
    s.append(" ");
    let joined = join(args, " ");
    s.append(joined.as_str());
    s
}

/// The plan holding `step` alone.
pub fn single(step: Step) -> (res: Vec<Step>)
    ensures
        plan_view(res@) == seq![step@],
{
    let mut plan: Vec<Step> = Vec::new();
    push_step(&mut plan, step);
    plan
}

/// A log line when `on`, nothing otherwise.
pub fn note_when(on: bool, text: String) -> (res: Vec<Step>)
    ensures
        plan_view(res@) == note_if(on, text@),
{
    if on {
        single(Step::Note(text))
    } else {
        let res: Vec<Step> = Vec::new();
        assert(plan_view(res@) =~= seq![]);
        res
    }
}

/// The steps when `on`, nothing otherwise.
pub open spec fn only_if(on: bool, steps: Seq<StepModel>) -> Seq<StepModel> {
    if on {
        steps
    } else {
        seq![]
    }
}

/// Keeps `steps` when `on`, drops them otherwise.
pub fn keep_when(on: bool, steps: Vec<Step>) -> (res: Vec<Step>)
    ensures
        plan_view(res@) == only_if(on, plan_view(steps@)),
{
    if on {
        steps
    } else {
        let res: Vec<Step> = Vec::new();
        assert(plan_view(res@) =~= seq![]);
        res
    }
}

/// What `nargo check` is planned as: the log line in verbose mode, then
/// the dry-run preview or the run of `nargo check` itself.
pub open spec fn check_plan(verbose: bool, dry_run: bool, pkg: Option<Seq<char>>) -> Seq<StepModel> {
    let args = nargo_args(pkg, seq![]);
    note_if(verbose, running("nargo check"@, args)) + if dry_run {
        seq![StepModel::Say(would_run("nargo check"@, args))]
    } else {
        seq![shown("nargo"@, nargo_args(pkg, seq!["check"@]), false)]
    }
}

/// Plan of `bargo check`.
pub fn plan_check(cli: &Cli) -> (res: Vec<Step>)
    ensures
        plan_view(res@) == check_plan(cli.verbose, cli.dry_run, opt_view(cli.pkg)),
{
    let empty: [&str; 0] = [];
    let args = build_nargo_args(cli, &empty);
    assert(str_views(empty@) =~= seq![]);
    let mut plan = note_when(cli.verbose, command_line("Running: ", "nargo check", &args));
    if cli.dry_run {
        push_step(&mut plan, Step::Say(command_line("Would run: ", "nargo check", &args)));
        assert(plan_view(plan@) =~= check_plan(cli.verbose, cli.dry_run, opt_view(cli.pkg)));
    } else {
        let names = ["check"];
        let check = build_nargo_args(cli, &names);
        assert(str_views(names@) =~= seq!["check"@]);
        push_step(
            &mut plan,
            Step::Run { program: String::from_str("nargo"), args: check, cwd: None, mode: RunMode::Shown, enhance: false },
        );
        assert(plan_view(plan@) =~= check_plan(cli.verbose, cli.dry_run, opt_view(cli.pkg)));
    }
    plan
}


/// Appends an owned copy of `s` to a list of arguments.
pub fn push_arg(args: &mut Vec<String>, s: &str)
    ensures
        views(final(args)@) == views(old(args)@).push(s@),
{
    args.push(String::from_str(s));
    assert(views(args@) =~= views(old(args)@).push(s@));
}

/// The steps that follow a successful `nargo execute`: the artifacts are
/// moved into `target/bb`, then, unless quiet, each is reported and the
/// summary (opening with `compiled` and the package name) is printed.
pub open spec fn execute_outputs_plan(pkg: Seq<char>, quiet: bool, color: bool, compiled: Seq<char>) -> Seq<StepModel> {
    organize_build_plan(pkg, Flavour::Bb) + only_if(
        !quiet,
        seq![
            StepModel::Report("Bytecode generated"@, bytecode_path(pkg, Flavour::Bb), 0),
            StepModel::StartTimer(1),
            StepModel::Report("Witness generated"@, witness_path(pkg, Flavour::Bb), 1),
            StepModel::Summarize(compiled + painted(pkg, colors::BRIGHT_CYAN@, color)),
            StepModel::SummarizeSize("Bytecode generated ("@, bytecode_path(pkg, Flavour::Bb), ")"@),
            StepModel::SummarizeSize("Witness generated ("@, witness_path(pkg, Flavour::Bb), ")"@),
            StepModel::PrintSummary,
        ],
    )
}

/// Running `nargo execute` for package `pkg`: the log line in verbose
/// mode, then the dry-run preview, or the run and what follows it.
pub open spec fn execute_plan(cli: Cli, pkg: Seq<char>, color: bool, compiled: Seq<char>) -> Seq<StepModel> {
    let args = nargo_args(opt_view(cli.pkg), seq![]);
    note_if(cli.verbose, running("nargo execute"@, args)) + if cli.dry_run {
        seq![StepModel::Say(would_run("nargo execute"@, args))]
    } else {
        seq![StepModel::StartTimer(0), shown("nargo"@, nargo_args(opt_view(cli.pkg), seq!["execute"@]), true)]
            + execute_outputs_plan(pkg, cli.quiet, color, compiled)
    }
}

fn execute_outputs(pkg: &str, quiet: bool, color: bool, compiled: &str) -> (res: Vec<Step>)
    ensures
        plan_view(res@) == execute_outputs_plan(pkg@, quiet, color, compiled@),
{
    let mut plan = organize_build_artifacts(pkg, Flavour::Bb);
    let mut tail: Vec<Step> = Vec::new();
    let bytecode = get_bytecode_path(pkg, Flavour::Bb);
    let witness = get_witness_path(pkg, Flavour::Bb);
    push_step(&mut tail, Step::Report { label: String::from_str("Bytecode generated"), path: bytecode.clone(), timer: 0 });
    push_step(&mut tail, Step::StartTimer(1));
    push_step(&mut tail, Step::Report { label: String::from_str("Witness generated"), path: witness.clone(), timer: 1 });
    let mut op = String::from_str(compiled);
    let name = paint(pkg, colors::BRIGHT_CYAN, color);
    op.append(name.as_str());
    push_step(&mut tail, Step::Summarize(op));
    push_step(
        &mut tail,
        Step::SummarizeSize { before: String::from_str("Bytecode generated ("), path: bytecode, after: String::from_str(")") },
    );
    push_step(
        &mut tail,
        Step::SummarizeSize { before: String::from_str("Witness generated ("), path: witness, after: String::from_str(")") },
    );
    push_step(&mut tail, Step::PrintSummary);
    let tail = keep_when(!quiet, tail);
    push_steps(&mut plan, tail);
    assert(plan_view(plan@) =~= execute_outputs_plan(pkg@, quiet, color, compiled@));
    plan
}

fn execute_steps(cli: &Cli, pkg: &str, color: bool, compiled: &str) -> (res: Vec<Step>)
    ensures
        plan_view(res@) == execute_plan(*cli, pkg@, color, compiled@),
{
    let empty: [&str; 0] = [];
    let args = build_nargo_args(cli, &empty);
    assert(str_views(empty@) =~= seq![]);
    let mut plan = note_when(cli.verbose, command_line("Running: ", "nargo execute", &args));
    if cli.dry_run {
        push_step(&mut plan, Step::Say(command_line("Would run: ", "nargo execute", &args)));
    } else {
        push_step(&mut plan, Step::StartTimer(0));
        let names = ["execute"];
        let run_args = build_nargo_args(cli, &names);
        assert(str_views(names@) =~= seq!["execute"@]);
        push_step(
            &mut plan,
            Step::Run { program: String::from_str("nargo"), args: run_args, cwd: None, mode: RunMode::Shown, enhance: true },
        );
        push_steps(&mut plan, execute_outputs(pkg, cli.quiet, color, compiled));
    }
    assert(plan_view(plan@) =~= execute_plan(*cli, pkg@, color, compiled@));
    plan
}

/// What `bargo build` is planned as for package `pkg`, given whether the
/// sources changed since the last build (`needs_rebuild`, consulted only
/// outside dry runs): an up-to-date build is only reported (nothing at
/// all is reported in quiet mode, where the build runs again).
pub open spec fn build_plan(cli: Cli, pkg: Seq<char>, color: bool, needs_rebuild: bool) -> Seq<StepModel> {
    if !cli.dry_run && !needs_rebuild && !cli.quiet {
        seq![StepModel::Success("Build is up to date"@)]
    } else {
        note_if(!cli.dry_run && needs_rebuild && cli.verbose, "Source files have changed, rebuilding..."@)
            + execute_plan(cli, pkg, color, "Circuit compiled for "@)
    }
}

/// Plan of `bargo build` for package `pkg_name`; `color` tells whether
/// output is colored and `needs_rebuild` whether the sources changed.
pub fn plan_build(cli: &Cli, pkg_name: &str, color: bool, needs_rebuild: bool) -> (res: Vec<Step>)
    ensures
        plan_view(res@) == build_plan(*cli, pkg_name@, color, needs_rebuild),
{
    if !cli.dry_run && !needs_rebuild && !cli.quiet {
        let res = single(Step::Success(String::from_str("Build is up to date")));
        return res;
    }
    let mut plan = note_when(
        !cli.dry_run && needs_rebuild && cli.verbose,
        String::from_str("Source files have changed, rebuilding..."),
    );
    push_steps(&mut plan, execute_steps(cli, pkg_name, color, "Circuit compiled for "));
    plan
}

/// How `Debug` names a backend.
pub open spec fn backend_name(backend: Backend) -> Seq<char> {
    match backend {
        Backend::Bb => "Bb"@,
        Backend::Starknet => "Starknet"@,
        Backend::All => "All"@,
    }
}

/// The directory that cleaning a backend removes.
pub open spec fn clean_dir(backend: Backend) -> Seq<char> {
    match backend {
        Backend::Bb => "target/bb"@,
        Backend::Starknet => "target/starknet"@,
        Backend::All => "target"@,
    }
}

/// What `bargo clean` is planned as: the log line in verbose mode, then the
/// dry-run preview or the removal of the backend's directory, reported
/// unless quiet.
pub open spec fn clean_plan(cli: Cli, backend: Backend) -> Seq<StepModel> {
    let label = clean_dir(backend) + "/"@;
    note_if(cli.verbose, "Cleaning artifacts for backend: "@ + backend_name(backend)) + if cli.dry_run {
        seq![StepModel::Say("Would run: rm -rf "@ + label)]
    } else {
        seq![
            StepModel::CleanDir(
                clean_dir(backend),
                if cli.quiet { None } else { Some("Removed "@ + label) },
                if cli.quiet { None } else { Some(label + " already clean"@) },
            ),
        ]
    }
}

fn backend_text(backend: Backend) -> (res: &'static str)
    ensures
        res@ == backend_name(backend),
{
    match backend {
        Backend::Bb => "Bb",
        Backend::Starknet => "Starknet",
        Backend::All => "All",
    }
}

fn clean_dir_text(backend: Backend) -> (res: &'static str)
    ensures
        res@ == clean_dir(backend),
{
    match backend {
        Backend::Bb => "target/bb",
        Backend::Starknet => "target/starknet",
        Backend::All => "target",
    }
}

/// Plan of `bargo clean` for a backend.
pub fn plan_clean(cli: &Cli, backend: Backend) -> (res: Vec<Step>)
    ensures
        plan_view(res@) == clean_plan(*cli, backend),
{
    let mut plan = note_when(cli.verbose, concat("Cleaning artifacts for backend: ", backend_text(backend)));
    let dir = clean_dir_text(backend);
    let label = concat(dir, "/");
    if cli.dry_run {
        push_step(&mut plan, Step::Say(concat("Would run: rm -rf ", label.as_str())));
    } else {
        let removed = if cli.quiet { None } else { Some(concat("Removed ", label.as_str())) };
        let clean = if cli.quiet { None } else { Some(concat(label.as_str(), " already clean")) };
        push_step(&mut plan, Step::CleanDir { path: String::from_str(dir), removed: removed, already_clean: clean });
    }
    assert(plan_view(plan@) =~= clean_plan(*cli, backend));
    plan
}

/// The first half of `bargo rebuild`, which needs no package name: the
/// backend's artifacts are cleaned, then the build is announced.
pub open spec fn rebuild_clean_plan(cli: Cli, backend: Backend) -> Seq<StepModel> {
    note_if(cli.verbose, "Step 1/2: Cleaning artifacts for backend: "@ + backend_name(backend))
        + only_if(!cli.quiet, seq![StepModel::Say("🧹 Cleaning build artifacts..."@)])
        + clean_plan(cli, backend)
        + only_if(backend != Backend::Starknet, seq![StepModel::Summarize("Build artifacts cleaned"@)])
        + note_if(cli.verbose, "Step 2/2: Building from scratch"@)
        + only_if(!cli.quiet, seq![StepModel::Say("\n🔨 Building circuit..."@)])
}

/// The second half of `bargo rebuild`, once the package name is known.
pub open spec fn rebuild_build_plan(cli: Cli, pkg: Seq<char>, color: bool) -> Seq<StepModel> {
    execute_plan(cli, pkg, color, "Circuit rebuilt for "@)
}

/// Plan of the first half of `bargo rebuild`.
pub fn plan_rebuild_clean(cli: &Cli, backend: Backend) -> (res: Vec<Step>)
    ensures
        plan_view(res@) == rebuild_clean_plan(*cli, backend),
{
    let mut plan = note_when(cli.verbose, concat("Step 1/2: Cleaning artifacts for backend: ", backend_text(backend)));
    push_steps(&mut plan, keep_when(!cli.quiet, single(Step::Say(String::from_str("🧹 Cleaning build artifacts...")))));
    push_steps(&mut plan, plan_clean(cli, backend));
    push_steps(
        &mut plan,
        keep_when(backend != Backend::Starknet, single(Step::Summarize(String::from_str("Build artifacts cleaned")))),
    );
    push_steps(&mut plan, note_when(cli.verbose, String::from_str("Step 2/2: Building from scratch")));
    push_steps(&mut plan, keep_when(!cli.quiet, single(Step::Say(String::from_str("\n🔨 Building circuit...")))));
    plan
}

/// Plan of the second half of `bargo rebuild`, for package `pkg_name`.
pub fn plan_rebuild_build(cli: &Cli, pkg_name: &str, color: bool) -> (res: Vec<Step>)
    ensures
        plan_view(res@) == rebuild_build_plan(*cli, pkg_name@, color),
{
    execute_steps(cli, pkg_name, color, "Circuit rebuilt for ")
}


/// The same options with verbose mode set to `verbose`.
pub open spec fn with_verbose(cli: Cli, verbose: bool) -> Cli {
    Cli { verbose: verbose, dry_run: cli.dry_run, pkg: cli.pkg, quiet: cli.quiet }
}

/// A log line neither acts nor prints a message, and is all that leaving
/// out log lines removes.
#[verifier::spinoff_prover]
pub proof fn lemma_note_if_quiet(on: bool, text: Seq<char>)
    ensures
        inert(note_if(on, text)),
        hushed(note_if(on, text)),
        without_notes(note_if(on, text)) == Seq::<StepModel>::empty(),
{
    lemma_without_notes_all(note_if(on, text));
}


#[verifier::spinoff_prover]
proof fn lemma_execute_outputs(pkg: Seq<char>, quiet: bool, color: bool, compiled: Seq<char>)
    ensures
        without_notes(execute_outputs_plan(pkg, quiet, color, compiled)) == execute_outputs_plan(pkg, quiet, color, compiled),
        quiet ==> hushed(execute_outputs_plan(pkg, quiet, color, compiled)),
{
    lemma_without_notes_none(execute_outputs_plan(pkg, quiet, color, compiled));
    if quiet {
        assert(execute_outputs_plan(pkg, quiet, color, compiled) =~= organize_build_plan(pkg, Flavour::Bb));
    }
}

#[verifier::spinoff_prover]
proof fn lemma_execute_plan_inert(cli: Cli, pkg: Seq<char>, color: bool, compiled: Seq<char>)
    requires
        cli.dry_run,
    ensures
        inert(execute_plan(cli, pkg, color, compiled)),
{
    let args = nargo_args(opt_view(cli.pkg), seq![]);
    let head = note_if(cli.verbose, running("nargo execute"@, args));
    let tail = seq![StepModel::Say(would_run("nargo execute"@, args))];
    lemma_note_if_quiet(cli.verbose, running("nargo execute"@, args));
    lemma_inert_add(head, tail);
}

#[verifier::spinoff_prover]
proof fn lemma_execute_plan_hushed(cli: Cli, pkg: Seq<char>, color: bool, compiled: Seq<char>)
    requires
        cli.quiet,
    ensures
        hushed(execute_plan(cli, pkg, color, compiled)),
{
    let args = nargo_args(opt_view(cli.pkg), seq![]);
    let head = note_if(cli.verbose, running("nargo execute"@, args));
    lemma_note_if_quiet(cli.verbose, running("nargo execute"@, args));
    if cli.dry_run {
        let tail = seq![StepModel::Say(would_run("nargo execute"@, args))];
        lemma_preview_not_chatty("nargo execute"@ + " "@ + seq_join(args, " "@));
        assert(would_run("nargo execute"@, args) =~= "Would run: "@ + ("nargo execute"@ + " "@ + seq_join(args, " "@)));
        lemma_hushed_add(head, tail);
    } else {
        let first = seq![StepModel::StartTimer(0), shown("nargo"@, nargo_args(opt_view(cli.pkg), seq!["execute"@]), true)];
        lemma_execute_outputs(pkg, cli.quiet, color, compiled);
        lemma_hushed_add(first, execute_outputs_plan(pkg, cli.quiet, color, compiled));
        lemma_hushed_add(head, first + execute_outputs_plan(pkg, cli.quiet, color, compiled));
    }
}

#[verifier::spinoff_prover]
proof fn lemma_execute_plan_terse(cli: Cli, pkg: Seq<char>, color: bool, compiled: Seq<char>)
    ensures
        without_notes(execute_plan(with_verbose(cli, true), pkg, color, compiled)) == execute_plan(
            with_verbose(cli, false),
            pkg,
            color,
            compiled,
        ),
{
    let args = nargo_args(opt_view(cli.pkg), seq![]);
    let head = note_if(true, running("nargo execute"@, args));
    lemma_note_if_quiet(true, running("nargo execute"@, args));
    if cli.dry_run {
        let tail = seq![StepModel::Say(would_run("nargo execute"@, args))];
        lemma_without_notes_add(head, tail);
        lemma_without_notes_none(tail);
        assert(execute_plan(with_verbose(cli, false), pkg, color, compiled) =~= tail);
    } else {
        let first = seq![StepModel::StartTimer(0), shown("nargo"@, nargo_args(opt_view(cli.pkg), seq!["execute"@]), true)];
        let rest = execute_outputs_plan(pkg, cli.quiet, color, compiled);
        lemma_execute_outputs(pkg, cli.quiet, color, compiled);
        lemma_without_notes_none(first);
        lemma_without_notes_add(first, rest);
        lemma_without_notes_add(head, first + rest);
        assert(execute_plan(with_verbose(cli, false), pkg, color, compiled) =~= first + rest);
    }
}

/// A dry run changes nothing: for every set of options with `--dry-run`,
/// the plans of check, build, clean and both halves of rebuild neither run
/// a tool nor touch the file system.
#[verifier::spinoff_prover]
pub proof fn law_dry_run_changes_nothing(cli: Cli, pkg: Seq<char>, color: bool, needs_rebuild: bool, backend: Backend)
    requires
        cli.dry_run,
    ensures
        inert(check_plan(cli.verbose, cli.dry_run, opt_view(cli.pkg))),
        inert(build_plan(cli, pkg, color, needs_rebuild)),
        inert(clean_plan(cli, backend)),
        inert(rebuild_clean_plan(cli, backend)),
        inert(rebuild_build_plan(cli, pkg, color)),
{
    let args = nargo_args(opt_view(cli.pkg), seq![]);
    lemma_note_if_quiet(cli.verbose, running("nargo check"@, args));
    lemma_inert_add(
        note_if(cli.verbose, running("nargo check"@, args)),
        seq![StepModel::Say(would_run("nargo check"@, args))],
    );
    lemma_execute_plan_inert(cli, pkg, color, "Circuit compiled for "@);
    lemma_execute_plan_inert(cli, pkg, color, "Circuit rebuilt for "@);
    lemma_note_if_quiet(false, "Source files have changed, rebuilding..."@);
    lemma_inert_add(
        note_if(false, "Source files have changed, rebuilding..."@),
        execute_plan(cli, pkg, color, "Circuit compiled for "@),
    );
    let label = clean_dir(backend) + "/"@;
    let c1 = note_if(cli.verbose, "Cleaning artifacts for backend: "@ + backend_name(backend));
    lemma_note_if_quiet(cli.verbose, "Cleaning artifacts for backend: "@ + backend_name(backend));
    lemma_inert_add(c1, seq![StepModel::Say("Would run: rm -rf "@ + label)]);
    let r1 = note_if(cli.verbose, "Step 1/2: Cleaning artifacts for backend: "@ + backend_name(backend));
    let r2 = only_if(!cli.quiet, seq![StepModel::Say("🧹 Cleaning build artifacts..."@)]);
    let r3 = clean_plan(cli, backend);
    let r4 = only_if(backend != Backend::Starknet, seq![StepModel::Summarize("Build artifacts cleaned"@)]);
    let r5 = note_if(cli.verbose, "Step 2/2: Building from scratch"@);
    let r6 = only_if(!cli.quiet, seq![StepModel::Say("\n🔨 Building circuit..."@)]);
    lemma_note_if_quiet(cli.verbose, "Step 1/2: Cleaning artifacts for backend: "@ + backend_name(backend));
    lemma_note_if_quiet(cli.verbose, "Step 2/2: Building from scratch"@);
    lemma_inert_add(r1, r2);
    lemma_inert_add(r1 + r2, r3);
    lemma_inert_add(r1 + r2 + r3, r4);
    lemma_inert_add(r1 + r2 + r3 + r4, r5);
    lemma_inert_add(r1 + r2 + r3 + r4 + r5, r6);
}

#[verifier::spinoff_prover]
proof fn lemma_check_quiet(cli: Cli)
    ensures
        hushed(check_plan(cli.verbose, cli.dry_run, opt_view(cli.pkg))),
{
    let args = nargo_args(opt_view(cli.pkg), seq![]);
    lemma_note_if_quiet(cli.verbose, running("nargo check"@, args));
    let tail = if cli.dry_run {
        seq![StepModel::Say(would_run("nargo check"@, args))]
    } else {
        seq![shown("nargo"@, nargo_args(opt_view(cli.pkg), seq!["check"@]), false)]
    };
    lemma_preview_not_chatty("nargo check"@ + " "@ + seq_join(args, " "@));
    assert(would_run("nargo check"@, args) =~= "Would run: "@ + ("nargo check"@ + " "@ + seq_join(args, " "@)));
    lemma_hushed_add(note_if(cli.verbose, running("nargo check"@, args)), tail);
}

#[verifier::spinoff_prover]
proof fn lemma_clean_quiet(cli: Cli, backend: Backend)
    requires
        cli.quiet,
    ensures
        hushed(clean_plan(cli, backend)),
{
    let label = clean_dir(backend) + "/"@;
    let c1 = note_if(cli.verbose, "Cleaning artifacts for backend: "@ + backend_name(backend));
    lemma_note_if_quiet(cli.verbose, "Cleaning artifacts for backend: "@ + backend_name(backend));
    let c2 = if cli.dry_run {
        seq![StepModel::Say("Would run: rm -rf "@ + label)]
    } else {
        seq![StepModel::CleanDir(clean_dir(backend), None, None)]
    };
    lemma_preview_not_chatty("rm -rf "@ + label);
    reveal_strlit("Would run: rm -rf ");
    reveal_strlit("Would run: ");
    reveal_strlit("rm -rf ");
    assert("Would run: rm -rf "@ + label =~= "Would run: "@ + ("rm -rf "@ + label));
    lemma_hushed_add(c1, c2);
    assert(clean_plan(cli, backend) =~= c1 + c2);
}

#[verifier::spinoff_prover]
proof fn lemma_rebuild_clean_quiet(cli: Cli, backend: Backend)
    requires
        cli.quiet,
    ensures
        hushed(rebuild_clean_plan(cli, backend)),
{
    lemma_clean_quiet(cli, backend);
    let r1 = note_if(cli.verbose, "Step 1/2: Cleaning artifacts for backend: "@ + backend_name(backend));
    let r2 = only_if(!cli.quiet, seq![StepModel::Say("🧹 Cleaning build artifacts..."@)]);
    let r3 = clean_plan(cli, backend);
    let r4 = only_if(backend != Backend::Starknet, seq![StepModel::Summarize("Build artifacts cleaned"@)]);
    let r5 = note_if(cli.verbose, "Step 2/2: Building from scratch"@);
    let r6 = only_if(!cli.quiet, seq![StepModel::Say("\n🔨 Building circuit..."@)]);
    lemma_note_if_quiet(cli.verbose, "Step 1/2: Cleaning artifacts for backend: "@ + backend_name(backend));
    lemma_note_if_quiet(cli.verbose, "Step 2/2: Building from scratch"@);
    lemma_hushed_add(r1, r2);
    lemma_hushed_add(r1 + r2, r3);
    lemma_hushed_add(r1 + r2 + r3, r4);
    lemma_hushed_add(r1 + r2 + r3 + r4, r5);
    lemma_hushed_add(r1 + r2 + r3 + r4 + r5, r6);
}

/// Quiet mode prints nothing of bargo's own but dry-run previews: for every
/// set of options with `--quiet`, the plans of check, build, clean and both
/// halves of rebuild hold no message, report or summary.
#[verifier::spinoff_prover]
pub proof fn law_quiet_prints_only_previews(cli: Cli, pkg: Seq<char>, color: bool, needs_rebuild: bool, backend: Backend)
    requires
        cli.quiet,
    ensures
        hushed(check_plan(cli.verbose, cli.dry_run, opt_view(cli.pkg))),
        hushed(build_plan(cli, pkg, color, needs_rebuild)),
        hushed(clean_plan(cli, backend)),
        hushed(rebuild_clean_plan(cli, backend)),
        hushed(rebuild_build_plan(cli, pkg, color)),
{
    lemma_check_quiet(cli);
    lemma_execute_plan_hushed(cli, pkg, color, "Circuit compiled for "@);
    lemma_execute_plan_hushed(cli, pkg, color, "Circuit rebuilt for "@);
    let n = note_if(
        !cli.dry_run && needs_rebuild && cli.verbose,
        "Source files have changed, rebuilding..."@,
    );
    lemma_note_if_quiet(!cli.dry_run && needs_rebuild && cli.verbose, "Source files have changed, rebuilding..."@);
    lemma_hushed_add(n, execute_plan(cli, pkg, color, "Circuit compiled for "@));
    lemma_clean_quiet(cli, backend);
    lemma_rebuild_clean_quiet(cli, backend);
}

/// Verbose mode only adds log lines: for every set of options, the plans
/// of check, build, clean and both halves of rebuild with `--verbose`,
/// their log lines left out, are the plans without it.
#[verifier::spinoff_prover]
#[verifier::rlimit(40)]
pub proof fn law_verbose_only_adds_log_lines(cli: Cli, pkg: Seq<char>, color: bool, needs_rebuild: bool, backend: Backend)
    ensures
        without_notes(check_plan(true, cli.dry_run, opt_view(cli.pkg))) == check_plan(false, cli.dry_run, opt_view(cli.pkg)),
        without_notes(build_plan(with_verbose(cli, true), pkg, color, needs_rebuild)) == build_plan(
            with_verbose(cli, false),
            pkg,
            color,
            needs_rebuild,
        ),
        without_notes(clean_plan(with_verbose(cli, true), backend)) == clean_plan(with_verbose(cli, false), backend),
        without_notes(rebuild_clean_plan(with_verbose(cli, true), backend)) == rebuild_clean_plan(
            with_verbose(cli, false),
            backend,
        ),
        without_notes(rebuild_build_plan(with_verbose(cli, true), pkg, color)) == rebuild_build_plan(
            with_verbose(cli, false),
            pkg,
            color,
        ),
{
    let v = with_verbose(cli, true);
    let q = with_verbose(cli, false);
    let args = nargo_args(opt_view(cli.pkg), seq![]);
    let tail = if cli.dry_run {
        seq![StepModel::Say(would_run("nargo check"@, args))]
    } else {
        seq![shown("nargo"@, nargo_args(opt_view(cli.pkg), seq!["check"@]), false)]
    };
    lemma_note_if_quiet(true, running("nargo check"@, args));
    lemma_without_notes_add(note_if(true, running("nargo check"@, args)), tail);
    lemma_without_notes_none(tail);
    assert(check_plan(false, cli.dry_run, opt_view(cli.pkg)) =~= tail);

    lemma_execute_plan_terse(cli, pkg, color, "Circuit compiled for "@);
    lemma_execute_plan_terse(cli, pkg, color, "Circuit rebuilt for "@);
    if !(!cli.dry_run && !needs_rebuild && !cli.quiet) {
        let n = note_if(!cli.dry_run && needs_rebuild, "Source files have changed, rebuilding..."@);
        lemma_note_if_quiet(!cli.dry_run && needs_rebuild, "Source files have changed, rebuilding..."@);
        lemma_without_notes_add(n, execute_plan(v, pkg, color, "Circuit compiled for "@));
        assert(note_if(false, "Source files have changed, rebuilding..."@) + execute_plan(q, pkg, color, "Circuit compiled for "@)
            =~= execute_plan(q, pkg, color, "Circuit compiled for "@));
    } else {
        lemma_without_notes_none(build_plan(v, pkg, color, needs_rebuild));
    }

    let label = clean_dir(backend) + "/"@;
    let c1 = note_if(true, "Cleaning artifacts for backend: "@ + backend_name(backend));
    let c2 = if cli.dry_run {
        seq![StepModel::Say("Would run: rm -rf "@ + label)]
    } else {
        seq![
            StepModel::CleanDir(
                clean_dir(backend),
                if cli.quiet { None } else { Some("Removed "@ + label) },
                if cli.quiet { None } else { Some(label + " already clean"@) },
            ),
        ]
    };
    lemma_note_if_quiet(true, "Cleaning artifacts for backend: "@ + backend_name(backend));
    lemma_without_notes_add(c1, c2);
    lemma_without_notes_none(c2);
    assert(clean_plan(v, backend) =~= c1 + c2);
    assert(clean_plan(q, backend) =~= c2);

    let r1 = note_if(true, "Step 1/2: Cleaning artifacts for backend: "@ + backend_name(backend));
    let r2 = only_if(!cli.quiet, seq![StepModel::Say("🧹 Cleaning build artifacts..."@)]);
    let r3 = clean_plan(v, backend);
    let r4 = only_if(backend != Backend::Starknet, seq![StepModel::Summarize("Build artifacts cleaned"@)]);
    let r5 = note_if(true, "Step 2/2: Building from scratch"@);
    let r6 = only_if(!cli.quiet, seq![StepModel::Say("\n🔨 Building circuit..."@)]);
    lemma_note_if_quiet(true, "Step 1/2: Cleaning artifacts for backend: "@ + backend_name(backend));
    lemma_note_if_quiet(true, "Step 2/2: Building from scratch"@);
    lemma_without_notes_none(r2);
    lemma_without_notes_none(r4);
    lemma_without_notes_none(r6);
    lemma_without_notes_add(r1, r2);
    lemma_without_notes_add(r1 + r2, r3);
    lemma_without_notes_add(r1 + r2 + r3, r4);
    lemma_without_notes_add(r1 + r2 + r3 + r4, r5);
    lemma_without_notes_add(r1 + r2 + r3 + r4 + r5, r6);
    assert(rebuild_clean_plan(q, backend) =~= r2 + c2 + r4 + r6);
    assert(without_notes(rebuild_clean_plan(v, backend)) =~= r2 + c2 + r4 + r6);
}


/// The package given on the command line reaches nargo's command line: with
/// `--pkg p` and `--dry-run`, the previews that check, build and rebuild
/// print end with `--package p`.
#[verifier::spinoff_prover]
pub proof fn law_package_flag_in_previews(cli: Cli, p: Seq<char>, pkg: Seq<char>, color: bool, needs_rebuild: bool)
    requires
        opt_view(cli.pkg) == Some(p),
        cli.dry_run,
    ensures
        check_plan(cli.verbose, cli.dry_run, opt_view(cli.pkg)).last() == StepModel::Say(
            would_run("nargo check"@, seq!["--package"@, p]),
        ),
        build_plan(cli, pkg, color, needs_rebuild).last() == StepModel::Say(
            would_run("nargo execute"@, seq!["--package"@, p]),
        ),
        rebuild_build_plan(cli, pkg, color).last() == StepModel::Say(would_run("nargo execute"@, seq!["--package"@, p])),
{
    assert(nargo_args(opt_view(cli.pkg), seq![]) =~= seq!["--package"@, p]);
}


/// Proof that the run of `nargo execute` of a plan carries the package:
/// the plan holds that run with `--package p`.
proof fn lemma_execute_runs_package(cli: Cli, p: Seq<char>, pkg: Seq<char>, color: bool, compiled: Seq<char>, pre: Seq<StepModel>)
    requires
        opt_view(cli.pkg) == Some(p),
        !cli.dry_run,
    ensures
        (pre + execute_plan(cli, pkg, color, compiled)).contains(shown("nargo"@, seq!["execute"@, "--package"@, p], true)),
{
    let n = note_if(cli.verbose, running("nargo execute"@, nargo_args(opt_view(cli.pkg), seq![])));
    let run = shown("nargo"@, seq!["execute"@, "--package"@, p], true);
    assert(nargo_args(opt_view(cli.pkg), seq!["execute"@]) =~= seq!["execute"@, "--package"@, p]);
    let whole = pre + execute_plan(cli, pkg, color, compiled);
    let k: int = (pre.len() + n.len() + 1) as int;
    assert(whole[k] == run);
}

/// The package given on the command line reaches nargo in real runs too:
/// with `--pkg p` and no dry run, check runs `nargo check --package p`, and
/// a build that is needed and the second half of rebuild run
/// `nargo execute --package p`, the commands that a dry run previews.
#[verifier::spinoff_prover]
pub proof fn law_package_flag_in_runs(cli: Cli, p: Seq<char>, pkg: Seq<char>, color: bool)
    requires
        opt_view(cli.pkg) == Some(p),
        !cli.dry_run,
    ensures
        check_plan(cli.verbose, cli.dry_run, opt_view(cli.pkg)).last() == shown("nargo"@, seq!["check"@, "--package"@, p], false),
        build_plan(cli, pkg, color, true).contains(shown("nargo"@, seq!["execute"@, "--package"@, p], true)),
        rebuild_build_plan(cli, pkg, color).contains(shown("nargo"@, seq!["execute"@, "--package"@, p], true)),
{
    assert(nargo_args(opt_view(cli.pkg), seq!["check"@]) =~= seq!["check"@, "--package"@, p]);
    let n = note_if(cli.verbose, "Source files have changed, rebuilding..."@);
    lemma_execute_runs_package(cli, p, pkg, color, "Circuit compiled for "@, n);
    lemma_execute_runs_package(cli, p, pkg, color, "Circuit rebuilt for "@, seq![]);
    assert(seq![] + execute_plan(cli, pkg, color, "Circuit rebuilt for "@) =~= rebuild_build_plan(cli, pkg, color));
}

/// Leaving out a log line leaves nothing, as not planning it does.
pub proof fn lemma_note_terse(text: Seq<char>)
    ensures
        without_notes(note_if(true, text)) == note_if(false, text),
{
    lemma_without_notes_all(note_if(true, text));
}

} // verus!
