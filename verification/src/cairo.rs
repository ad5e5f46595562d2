//! The Cairo workflow: a Starknet proof, a Cairo verifier generated by
//! garaga and built with scarb, its declaration and deployment with
//! starkli, calldata and on-chain verification.

use vstd::prelude::*;
use crate::cli::Cli;
use crate::errors::{create_smart_error, smart_error_text};
use crate::evm::{fail_step, say};
use crate::paths::{
    bytecode_path, get_bytecode_path, get_proof_path, get_public_inputs_path, get_vk_path,
    get_witness_path, join_path, path_join, proof_path, public_inputs_path, target_dir,
    target_path, vk_path, witness_path, Flavour, parent_of, path_parent,
};
use crate::plan::{opt_view, plan_view, push_step, push_steps, Failure, FailureModel, RunMode, RunModeModel, Step, StepModel};
use crate::proving::{build_outputs, make_dir, proof_artifact_list, proof_artifacts, run_shown, smart_failure, write_access_hints};
use crate::text::{concat, owned_all, str_views, views};
use crate::workflow::{command_line, keep_when, note_if, note_when, only_if, push_arg, running, shown, single, would_run};

verus! {

/// Get the path to the Cairo contracts directory.
pub fn get_cairo_contracts_dir() -> (res: String)
    ensures
        res@ == "./contracts/cairo"@,
{
    String::from_str("./contracts/cairo")
}

/// Get the path to the Starknet artifacts directory.
pub fn get_starknet_artifacts_dir() -> (res: String)
    ensures
        res@ == target_path(Flavour::Starknet),
{
    target_dir(Flavour::Starknet)
}

/// The directories where Cairo-related artifacts are kept.
pub open spec fn cairo_artifact_dirs() -> Seq<Seq<char>> {
    seq![target_path(Flavour::Starknet), "./contracts/cairo"@, "./target/bb"@]
}

/// Get all Cairo-related artifact paths.
pub fn get_cairo_artifact_paths() -> (res: Vec<String>)
    ensures
        views(res@) == cairo_artifact_dirs(),
{
    let mut v: Vec<String> = Vec::new();
    v.push(get_starknet_artifacts_dir());
    v.push(get_cairo_contracts_dir());
    v.push(String::from_str("./target/bb"));
    assert(views(v@) =~= cairo_artifact_dirs());
    v
}

/// The manifest of the Scarb project at `project_path`.
pub fn scarb_manifest_path(project_path: &str) -> (res: String)
    ensures
        res@ == path_join(project_path@, "Scarb.toml"@),
{
    join_path(project_path, "Scarb.toml")
}

/// The source directory of the Cairo project at `project_path`.
pub fn cairo_source_dir(project_path: &str) -> (res: String)
    ensures
        res@ == path_join(project_path@, "src"@),
{
    join_path(project_path, "src")
}

/// Check if Cairo project structure is valid, given whether its
/// `Scarb.toml` exists and whether its `src` exists and is a directory.
pub fn is_valid_cairo_project_structure(scarb_toml_exists: bool, src_exists: bool, src_is_dir: bool) -> (res: bool)
    ensures
        res == (scarb_toml_exists && src_exists && src_is_dir),
{
    scarb_toml_exists && src_exists && src_is_dir
}

/// Check if a directory contains a valid Scarb project, given whether its
/// `Scarb.toml` exists.
pub fn is_valid_scarb_project(scarb_toml_exists: bool) -> (res: bool)
    ensures
        res == scarb_toml_exists,
{
    scarb_toml_exists
}

/// The three suggestions given when a target directory cannot be created.
pub open spec fn project_root_hints() -> Seq<Seq<char>> {
    write_access_hints() + seq!["Verify you're running from the project root"@]
}

fn project_root_failure(context: &str) -> (res: Failure)
    ensures
        res@ == FailureModel::Smart(context@, project_root_hints()),
{
    let hints = [
        "Check directory permissions",
        "Ensure you have write access to the current directory",
        "Verify you're running from the project root",
    ];
    let f = smart_failure(context, &hints);
    assert(str_views(hints@) =~= project_root_hints());
    f
}

/// How a flavour is named in messages.
pub open spec fn flavour_name(flavour: Flavour) -> Seq<char> {
    match flavour {
        Flavour::Bb => "bb"@,
        Flavour::Evm => "evm"@,
        Flavour::Starknet => "starknet"@,
    }
}

/// Creating a flavour's target directory.
pub open spec fn ensure_target_step(flavour: Flavour) -> StepModel {
    StepModel::MakeDir(
        target_path(flavour),
        FailureModel::Smart("Failed to create target/"@ + flavour_name(flavour) + " directory"@, project_root_hints()),
    )
}

/// Ensure the target directory of a flavour exists: the step that creates it.
pub fn ensure_target_dir(flavour: Flavour) -> (res: Step)
    ensures
        res@ == ensure_target_step(flavour),
{
    let name = match flavour {
        Flavour::Bb => "bb",
        Flavour::Evm => "evm",
        Flavour::Starknet => "starknet",
    };
    let mut context = concat("Failed to create target/", name);
    context.append(" directory");
    Step::MakeDir { path: target_dir(flavour), failure: project_root_failure(context.as_str()) }
}

/// Ensure the Starknet target directory exists: the step that creates it.
pub fn ensure_starknet_target_dir() -> (res: Step)
    ensures
        res@ == ensure_target_step(Flavour::Starknet),
{
    ensure_target_dir(Flavour::Starknet)
}

/// Ensure the contracts directory exists: the step that creates it.
pub fn ensure_contracts_dir() -> (res: Step)
    ensures
        res@ == StepModel::MakeDir(
            "./contracts"@,
            FailureModel::Smart("Failed to create contracts directory"@, project_root_hints()),
        ),
{
    Step::MakeDir { path: String::from_str("./contracts"), failure: project_root_failure("Failed to create contracts directory") }
}

/// Ensure the Cairo contracts directory exists: the step that creates it.
pub fn ensure_cairo_contracts_dir() -> (res: Step)
    ensures
        res@ == StepModel::MakeDir("./contracts/cairo"@, FailureModel::Plain),
{
    Step::MakeDir { path: String::from_str("./contracts/cairo"), failure: Failure::Plain }
}

/// Validate Cairo workflow directory structure: the steps that create
/// the Starknet target directory, the contracts directory and the Cairo
/// contracts directory.
pub fn validate_cairo_directory_structure() -> (res: Vec<Step>)
    ensures
        plan_view(res@) == seq![
            ensure_target_step(Flavour::Starknet),
            StepModel::MakeDir(
                "./contracts"@,
                FailureModel::Smart("Failed to create contracts directory"@, project_root_hints()),
            ),
            StepModel::MakeDir("./contracts/cairo"@, FailureModel::Plain),
        ],
{
    let mut plan = single(ensure_starknet_target_dir());
    push_step(&mut plan, ensure_contracts_dir());
    push_step(&mut plan, ensure_cairo_contracts_dir());
    plan
}

/// Create standard Cairo project directory structure: the step that
/// creates its `src` directory.
pub fn create_cairo_project_structure(project_path: &str) -> (res: Step)
    ensures
        res@ == StepModel::MakeDir(path_join(project_path@, "src"@), FailureModel::Plain),
{
    Step::MakeDir { path: cairo_source_dir(project_path), failure: Failure::Plain }
}

/// Clean Cairo-specific build artifacts: the steps that remove the
/// Starknet target directory and the temporary project directories.
pub fn clean_cairo_artifacts() -> (res: Vec<Step>)
    ensures
        plan_view(res@) == seq![
            StepModel::RemoveDirIfExists("./target/starknet"@, FailureModel::Plain),
            StepModel::RemoveDirIfExists("./cairo_project"@, FailureModel::Plain),
            StepModel::RemoveDirIfExists("./temp_cairo"@, FailureModel::Plain),
        ],
{
    let mut plan = single(Step::RemoveDirIfExists { path: String::from_str("./target/starknet"), failure: Failure::Plain });
    push_step(&mut plan, Step::RemoveDirIfExists { path: String::from_str("./cairo_project"), failure: Failure::Plain });
    push_step(&mut plan, Step::RemoveDirIfExists { path: String::from_str("./temp_cairo"), failure: Failure::Plain });
    plan
}

/// The steps that move a generated project from `from` to `to`, replacing
/// what is there and creating the parent directory of `to` first.
pub open spec fn move_project_plan(from: Seq<char>, to: Seq<char>, source_exists: bool) -> Seq<StepModel> {
    if !source_exists {
        seq![
            StepModel::Fail(
                smart_error_text(
                    "Source directory does not exist: "@ + from,
                    seq![
                        "Check that the source directory was created correctly"@,
                        "Verify the path is correct"@,
                        "Ensure the previous generation step completed successfully"@,
                    ],
                ),
            ),
        ]
    } else {
        seq![
            StepModel::RemoveDirIfExists(
                to,
                FailureModel::Smart(
                    "Failed to remove existing destination directory "@ + to,
                    seq![
                        "Check directory permissions"@,
                        "Ensure no processes are using files in the directory"@,
                        "Verify you have write access"@,
                    ],
                ),
            ),
        ] + match path_parent(to) {
            Some(parent) => seq![
                StepModel::MakeDir(
                    parent,
                    FailureModel::Smart(
                        "Failed to create parent directory for "@ + to,
                        seq!["Check directory permissions"@, "Ensure you have write access to the parent directory"@],
                    ),
                ),
            ],
            None => seq![],
        } + seq![
            StepModel::Move(
                from,
                to,
                FailureModel::Smart(
                    "Failed to move directory from "@ + from + " to "@ + to,
                    seq![
                        "Check directory permissions"@,
                        "Ensure you have write access to both source and destination"@,
                        "Verify both paths are on the same filesystem"@,
                        "Check that no processes are using files in the source directory"@,
                    ],
                ),
            ),
        ]
    }
}

/// Move a generated project directory from `from` to `to`, given whether
/// `from` exists: the steps that do it.
pub fn move_generated_project(from: &str, to: &str, source_exists: bool) -> (res: Vec<Step>)
    ensures
        plan_view(res@) == move_project_plan(from@, to@, source_exists),
{
    if !source_exists {
        let hints = [
            "Check that the source directory was created correctly",
            "Verify the path is correct",
            "Ensure the previous generation step completed successfully",
        ];
        let f = fail_step(concat("Source directory does not exist: ", from).as_str(), &hints);
        assert(str_views(hints@) =~= seq![
            "Check that the source directory was created correctly"@,
            "Verify the path is correct"@,
            "Ensure the previous generation step completed successfully"@,
        ]);
        let plan = single(f);
        assert(plan_view(plan@) =~= move_project_plan(from@, to@, source_exists));
        return plan;
    }
    let remove_hints = [
        "Check directory permissions",
        "Ensure no processes are using files in the directory",
        "Verify you have write access",
    ];
    let remove = smart_failure(concat("Failed to remove existing destination directory ", to).as_str(), &remove_hints);
    assert(str_views(remove_hints@) =~= seq![
        "Check directory permissions"@,
        "Ensure no processes are using files in the directory"@,
        "Verify you have write access"@,
    ]);
    let mut plan = single(Step::RemoveDirIfExists { path: String::from_str(to), failure: remove });
    match parent_of(to) {
        Some(parent) => {
            let hints = ["Check directory permissions", "Ensure you have write access to the parent directory"];
            let failure = smart_failure(concat("Failed to create parent directory for ", to).as_str(), &hints);
            assert(str_views(hints@) =~= seq![
                "Check directory permissions"@,
                "Ensure you have write access to the parent directory"@,
            ]);
            push_step(&mut plan, Step::MakeDir { path: parent, failure: failure });
        },
        None => {},
    }
    let move_hints = [
        "Check directory permissions",
        "Ensure you have write access to both source and destination",
        "Verify both paths are on the same filesystem",
        "Check that no processes are using files in the source directory",
    ];
    let mut context = concat("Failed to move directory from ", from);
    context.append(" to ");
    context.append(to);
    let failure = smart_failure(context.as_str(), &move_hints);
    assert(str_views(move_hints@) =~= seq![
        "Check directory permissions"@,
        "Ensure you have write access to both source and destination"@,
        "Verify both paths are on the same filesystem"@,
        "Check that no processes are using files in the source directory"@,
    ]);
    push_step(&mut plan, Step::Move { from: String::from_str(from), to: String::from_str(to), failure: failure });
    assert(plan_view(plan@) =~= move_project_plan(from@, to@, source_exists));
    plan
}

/// Move generated Cairo project to the contracts directory (by default
/// from `./cairo_project` to `./contracts/cairo`), given whether the
/// source exists: the steps that do it.
pub fn move_cairo_project(from: Option<&str>, to: Option<&str>, source_exists: bool) -> (res: Vec<Step>)
    ensures
        plan_view(res@) == move_project_plan(
            match from {
                Some(f) => f@,
                None => "./cairo_project"@,
            },
            match to {
                Some(t) => t@,
                None => "./contracts/cairo"@,
            },
            source_exists,
        ),
{
    let source = match from {
        Some(f) => f,
        None => "./cairo_project",
    };
    let destination = match to {
        Some(t) => t,
        None => "./contracts/cairo",
    };
    move_generated_project(source, destination, source_exists)
}

/// Running garaga with `args`, after checking that it is installed.
pub open spec fn garaga_run(args: Seq<Seq<char>>, enhance: bool) -> StepModel {
    StepModel::Run("garaga"@, args, None, RunModeModel::Garaga, enhance)
}

fn garaga_step(args: Vec<String>, enhance: bool) -> (res: Step)
    ensures
        res@ == garaga_run(views(args@), enhance),
{
    Step::Run { program: String::from_str("garaga"), args: args, cwd: None, mode: RunMode::Garaga, enhance: enhance }
}

fn garaga_on(command: &str, project_path: &str) -> (res: Step)
    ensures
        res@ == garaga_run(seq![command@, project_path@], false),
{
    let items = [command, project_path];
    let args = owned_all(&items);
    assert(str_views(items@) =~= seq![command@, project_path@]);
    garaga_step(args, false)
}

/// Build a Cairo project using Scarb, through garaga: the run that does it.
pub fn build_cairo_project(project_path: &str) -> (res: Step)
    ensures
        res@ == garaga_run(seq!["build"@, project_path@], false),
{
    garaga_on("build", project_path)
}

/// Build the Cairo project at the default contracts/cairo location.
pub fn build_default_cairo_project() -> (res: Step)
    ensures
        res@ == garaga_run(seq!["build"@, "./contracts/cairo/"@], false),
{
    build_cairo_project("./contracts/cairo/")
}

/// Initialize a new Scarb project: the run that does it.
pub fn init_scarb_project(project_path: &str, project_name: &str) -> (res: Step)
    ensures
        res@ == garaga_run(seq!["init"@, project_path@, "--name"@, project_name@], false),
{
    let items = ["init", project_path, "--name", project_name];
    let args = owned_all(&items);
    assert(str_views(items@) =~= seq!["init"@, project_path@, "--name"@, project_name@]);
    garaga_step(args, false)
}

/// Clean build artifacts from a Scarb project: the run that does it.
pub fn clean_cairo_project(project_path: &str) -> (res: Step)
    ensures
        res@ == garaga_run(seq!["clean"@, project_path@], false),
{
    garaga_on("clean", project_path)
}

/// Test a Scarb project: the run that does it.
pub fn test_cairo_project(project_path: &str) -> (res: Step)
    ensures
        res@ == garaga_run(seq!["test"@, project_path@], false),
{
    garaga_on("test", project_path)
}

/// Check a Scarb project for compilation errors: the run that does it.
pub fn check_cairo_project(project_path: &str) -> (res: Step)
    ensures
        res@ == garaga_run(seq!["check"@, project_path@], false),
{
    garaga_on("check", project_path)
}

/// Build a Scarb project through garaga: the run that does it.
pub fn run_scarb_build(project: &str) -> (res: Step)
    ensures
        res@ == garaga_run(seq!["build"@, project@], false),
{
    garaga_on("build", project)
}

/// Arguments of `bb prove` for a Starknet proof.
pub open spec fn starknet_prove_args(pkg: Seq<char>) -> Seq<Seq<char>> {
    seq![
        "prove"@,
        "-s"@,
        "ultra_honk"@,
        "--oracle_hash"@,
        "starknet"@,
        "--zk"@,
        "-b"@,
        bytecode_path(pkg, Flavour::Bb),
        "-w"@,
        witness_path(pkg, Flavour::Bb),
        "-o"@,
        "./target/starknet/"@,
    ]
}

fn starknet_prove_arg_list(pkg: &str) -> (res: Vec<String>)
    ensures
        views(res@) == starknet_prove_args(pkg@),
{
    let bc = get_bytecode_path(pkg, Flavour::Bb);
    let wt = get_witness_path(pkg, Flavour::Bb);
    let items = [
        "prove",
        "-s",
        "ultra_honk",
        "--oracle_hash",
        "starknet",
        "--zk",
        "-b",
        bc.as_str(),
        "-w",
        wt.as_str(),
        "-o",
        "./target/starknet/",
    ];
    let args = owned_all(&items);
    assert(str_views(items@) =~= starknet_prove_args(pkg@));
    args
}

/// Generate a Starknet proof for package `pkg`: the run of bb that does it.
pub fn generate_starknet_proof(pkg: &str) -> (res: Step)
    ensures
        res@ == shown("bb"@, starknet_prove_args(pkg@), false),
{
    run_shown("bb", starknet_prove_arg_list(pkg), false)
}

/// The plan of the short `cairo gen`: the log line in verbose mode, then,
/// outside dry runs, the Starknet proof.
pub open spec fn quick_gen_plan(cli: Cli, pkg: Seq<char>) -> Seq<StepModel> {
    note_if(cli.verbose, "Generating Starknet proof"@) + only_if(
        !cli.dry_run,
        seq![shown("bb"@, starknet_prove_args(pkg), false)],
    )
}

/// Plan of the short `cairo gen` for package `pkg_name`.
pub fn run_gen(cli: &Cli, pkg_name: &str) -> (res: Vec<Step>)
    ensures
        plan_view(res@) == quick_gen_plan(*cli, pkg_name@),
{
    let mut plan = note_when(cli.verbose, String::from_str("Generating Starknet proof"));
    push_steps(&mut plan, keep_when(!cli.dry_run, single(generate_starknet_proof(pkg_name))));
    plan
}


/// Arguments of `bb write_vk` for a Starknet verification key.
pub open spec fn starknet_vk_args(pkg: Seq<char>) -> Seq<Seq<char>> {
    seq!["write_vk"@, "-b"@, bytecode_path(pkg, Flavour::Bb), "-o"@, "./target/starknet/"@, "--oracle_hash"@, "starknet"@]
}

/// Arguments of `garaga gen` for the Cairo verifier.
pub open spec fn garaga_gen_args() -> Seq<Seq<char>> {
    seq![
        "gen"@,
        "--system"@,
        "ultra_starknet_zk_honk"@,
        "--vk"@,
        vk_path(Flavour::Starknet),
        "--project-name"@,
        "cairo"@,
    ]
}

/// How `scarb build` is run: its output kept, a failure to start and an
/// unsuccessful exit each reported as a smart error.
pub open spec fn scarb_mode() -> RunModeModel {
    RunModeModel::Direct(
        FailureModel::Smart(
            "Failed to run scarb build"@,
            seq![
                "Ensure scarb is installed and available in PATH"@,
                "Check that the Cairo project was generated correctly"@,
                "Verify you're in the correct directory"@,
            ],
        ),
        "Scarb build failed: "@,
        false,
        seq![
            "Check the Cairo contract syntax"@,
            "Ensure all dependencies are available"@,
            "Review the error message above for details"@,
        ],
    )
}

/// The part of `bargo cairo gen` after the Starknet proof: the
/// verification key, the Cairo verifier generated by garaga and moved into
/// `contracts/cairo`, then built by scarb.
pub open spec fn cairo_gen_tail(cli: Cli, pkg: Seq<char>) -> Seq<StepModel> {
    note_if(cli.verbose, running("bb"@, starknet_vk_args(pkg))) + seq![
        StepModel::StartTimer(1),
        shown("bb"@, starknet_vk_args(pkg), true),
    ] + only_if(
        !cli.quiet,
        seq![
            StepModel::Report("Starknet VK generated"@, vk_path(Flavour::Starknet), 1),
            StepModel::SummarizeSize("Starknet verification key ("@, vk_path(Flavour::Starknet), ")"@),
        ],
    ) + seq![make_dir("./contracts"@, "Failed to create contracts directory"@)] + note_if(
        cli.verbose,
        running("garaga"@, garaga_gen_args()),
    ) + seq![
        StepModel::StartTimer(2),
        garaga_run(garaga_gen_args(), true),
        StepModel::ReplaceDir(
            "./cairo"@,
            "./contracts/cairo"@,
            FailureModel::Smart("Failed to remove existing cairo directory"@, seq!["Check directory permissions"@]),
            FailureModel::Smart(
                "Failed to move cairo directory"@,
                seq!["Check directory permissions"@, "Ensure you have write access to the contracts directory"@],
            ),
        ),
        StepModel::StartTimer(3),
    ] + note_if(cli.verbose, "Running: scarb build in contracts/cairo/"@) + seq![
        StepModel::Run("scarb"@, seq!["build"@], Some("./contracts/cairo"@), scarb_mode(), false),
    ] + only_if(
        !cli.quiet,
        seq![
            StepModel::Report("Cairo verifier generated"@, "./contracts/cairo/"@, 2),
            StepModel::ReportElapsed("Cairo project built successfully ("@, 3, ")"@),
            StepModel::Summarize("Cairo verifier contract generated"@),
            StepModel::Summarize("Cairo project compiled successfully"@),
            StepModel::PrintSummary,
        ],
    )
}

/// What `bargo cairo gen` is planned as for package `pkg`: outside dry
/// runs the inputs are checked and `target/starknet` is created, then bb
/// writes the Starknet proof and the rest follows; a dry run only prints
/// the commands.
pub open spec fn cairo_gen_plan(cli: Cli, pkg: Seq<char>) -> Seq<StepModel> {
    only_if(
        !cli.dry_run,
        seq![
            StepModel::RequireFiles(build_outputs(pkg), true),
            make_dir("./target/starknet"@, "Failed to create target/starknet directory"@),
        ],
    ) + note_if(cli.verbose, running("bb"@, starknet_prove_args(pkg))) + if cli.dry_run {
        seq![
            StepModel::Say(would_run("bb"@, starknet_prove_args(pkg))),
            StepModel::Say(would_run("bb"@, starknet_vk_args(pkg))),
            StepModel::Say(
                "Would run: garaga gen --system ultra_starknet_zk_honk --vk target/starknet/vk -o contracts/Verifier.cairo"@,
            ),
        ]
    } else {
        seq![StepModel::StartTimer(0), shown("bb"@, starknet_prove_args(pkg), true)] + only_if(
            !cli.quiet,
            seq![
                StepModel::Report("Starknet proof generated"@, proof_path(Flavour::Starknet), 0),
                StepModel::SummarizeSize("Starknet proof generated ("@, proof_path(Flavour::Starknet), ")"@),
            ],
        ) + cairo_gen_tail(cli, pkg)
    }
}

fn starknet_vk_arg_list(pkg: &str) -> (res: Vec<String>)
    ensures
        views(res@) == starknet_vk_args(pkg@),
{
    let bc = get_bytecode_path(pkg, Flavour::Bb);
    let items = ["write_vk", "-b", bc.as_str(), "-o", "./target/starknet/", "--oracle_hash", "starknet"];
    let args = owned_all(&items);
    assert(str_views(items@) =~= starknet_vk_args(pkg@));
    args
}

fn make_dir_step(dir: &str, context: &str) -> (res: Step)
    ensures
        res@ == make_dir(dir@, context@),
{
    let hints = ["Check directory permissions", "Ensure you have write access to the current directory"];
    let f = smart_failure(context, &hints);
    assert(str_views(hints@) =~= write_access_hints());
    Step::MakeDir { path: String::from_str(dir), failure: f }
}

fn scarb_run_mode() -> (res: RunMode)
    ensures
        res@ == scarb_mode(),
{
    let spawn_hints = [
        "Ensure scarb is installed and available in PATH",
        "Check that the Cairo project was generated correctly",
        "Verify you're in the correct directory",
    ];
    let spawn = smart_failure("Failed to run scarb build", &spawn_hints);
    assert(str_views(spawn_hints@) =~= seq![
        "Ensure scarb is installed and available in PATH"@,
        "Check that the Cairo project was generated correctly"@,
        "Verify you're in the correct directory"@,
    ]);
    let hints = [
        "Check the Cairo contract syntax",
        "Ensure all dependencies are available",
        "Review the error message above for details",
    ];
    let suggestions = owned_all(&hints);
    assert(str_views(hints@) =~= seq![
        "Check the Cairo contract syntax"@,
        "Ensure all dependencies are available"@,
        "Review the error message above for details"@,
    ]);
    RunMode::Direct { spawn: spawn, message: String::from_str("Scarb build failed: "), with_stdout: false, suggestions: suggestions }
}

#[verifier::rlimit(40)]
fn cairo_gen_tail_steps(cli: &Cli, pkg: &str) -> (res: Vec<Step>)
    ensures
        plan_view(res@) == cairo_gen_tail(*cli, pkg@),
{
    let vk_args = starknet_vk_arg_list(pkg);
    let mut plan = note_when(cli.verbose, command_line("Running: ", "bb", &vk_args));
    push_step(&mut plan, Step::StartTimer(1));
    push_step(&mut plan, run_shown("bb", vk_args, true));
    let vk = get_vk_path(Flavour::Starknet);
    let mut made: Vec<Step> = Vec::new();
    push_step(&mut made, Step::Report { label: String::from_str("Starknet VK generated"), path: vk.clone(), timer: 1 });
    push_step(
        &mut made,
        Step::SummarizeSize { before: String::from_str("Starknet verification key ("), path: vk.clone(), after: String::from_str(")") },
    );
    push_steps(&mut plan, keep_when(!cli.quiet, made));
    push_step(&mut plan, make_dir_step("./contracts", "Failed to create contracts directory"));
    let gen_items = ["gen", "--system", "ultra_starknet_zk_honk", "--vk", vk.as_str(), "--project-name", "cairo"];
    let gen_args = owned_all(&gen_items);
    assert(str_views(gen_items@) =~= garaga_gen_args());
    push_steps(&mut plan, note_when(cli.verbose, command_line("Running: ", "garaga", &gen_args)));
    push_step(&mut plan, Step::StartTimer(2));
    push_step(&mut plan, garaga_step(gen_args, true));
    let remove_hints = ["Check directory permissions"];
    let remove = smart_failure("Failed to remove existing cairo directory", &remove_hints);
    assert(str_views(remove_hints@) =~= seq!["Check directory permissions"@]);
    let move_hints = ["Check directory permissions", "Ensure you have write access to the contracts directory"];
    let moved = smart_failure("Failed to move cairo directory", &move_hints);
    assert(str_views(move_hints@) =~= seq![
        "Check directory permissions"@,
        "Ensure you have write access to the contracts directory"@,
    ]);
    push_step(
        &mut plan,
        Step::ReplaceDir {
            from: String::from_str("./cairo"),
            to: String::from_str("./contracts/cairo"),
            remove_failure: remove,
            move_failure: moved,
        },
    );
    push_step(&mut plan, Step::StartTimer(3));
    push_steps(&mut plan, note_when(cli.verbose, String::from_str("Running: scarb build in contracts/cairo/")));
    let mut build_args: Vec<String> = Vec::new();
    push_arg(&mut build_args, "build");
    assert(views(build_args@) =~= seq!["build"@]);
    push_step(
        &mut plan,
        Step::Run {
            program: String::from_str("scarb"),
            args: build_args,
            cwd: Some(String::from_str("./contracts/cairo")),
            mode: scarb_run_mode(),
            enhance: false,
        },
    );
    let mut done: Vec<Step> = Vec::new();
    push_step(
        &mut done,
        Step::Report { label: String::from_str("Cairo verifier generated"), path: String::from_str("./contracts/cairo/"), timer: 2 },
    );
    push_step(
        &mut done,
        Step::ReportElapsed { before: String::from_str("Cairo project built successfully ("), timer: 3, after: String::from_str(")") },
    );
    push_step(&mut done, Step::Summarize(String::from_str("Cairo verifier contract generated")));
    push_step(&mut done, Step::Summarize(String::from_str("Cairo project compiled successfully")));
    push_step(&mut done, Step::PrintSummary);
    push_steps(&mut plan, keep_when(!cli.quiet, done));
    assert(plan_view(plan@) =~= cairo_gen_tail(*cli, pkg@));
    plan
}

/// Plan of `bargo cairo gen` for package `pkg_name`.
pub fn plan_cairo_gen(cli: &Cli, pkg_name: &str) -> (res: Vec<Step>)
    ensures
        plan_view(res@) == cairo_gen_plan(*cli, pkg_name@),
{
    let mut files: Vec<String> = Vec::new();
    files.push(get_bytecode_path(pkg_name, Flavour::Bb));
    files.push(get_witness_path(pkg_name, Flavour::Bb));
    assert(views(files@) =~= build_outputs(pkg_name@));
    let mut checks = single(Step::RequireFiles { files: files, enhance: true });
    push_step(&mut checks, make_dir_step("./target/starknet", "Failed to create target/starknet directory"));
    let mut plan = keep_when(!cli.dry_run, checks);
    let prove_args = starknet_prove_arg_list(pkg_name);
    push_steps(&mut plan, note_when(cli.verbose, command_line("Running: ", "bb", &prove_args)));
    if cli.dry_run {
        push_step(&mut plan, Step::Say(command_line("Would run: ", "bb", &prove_args)));
        let vk_args = starknet_vk_arg_list(pkg_name);
        push_step(&mut plan, Step::Say(command_line("Would run: ", "bb", &vk_args)));
        push_step(
            &mut plan,
            say("Would run: garaga gen --system ultra_starknet_zk_honk --vk target/starknet/vk -o contracts/Verifier.cairo"),
        );
    } else {
        push_step(&mut plan, Step::StartTimer(0));
        push_step(&mut plan, run_shown("bb", prove_args, true));
        let proof = get_proof_path(Flavour::Starknet);
        let mut made: Vec<Step> = Vec::new();
        push_step(&mut made, Step::Report { label: String::from_str("Starknet proof generated"), path: proof.clone(), timer: 0 });
        push_step(
            &mut made,
            Step::SummarizeSize { before: String::from_str("Starknet proof generated ("), path: proof, after: String::from_str(")") },
        );
        push_steps(&mut plan, keep_when(!cli.quiet, made));
        push_steps(&mut plan, cairo_gen_tail_steps(cli, pkg_name));
    }
    assert(plan_view(plan@) =~= cairo_gen_plan(*cli, pkg_name@));
    plan
}


/// Running `program` with `args`, its standard output kept for the next
/// stage of the command.
pub open spec fn captured(program: Seq<char>, args: Seq<Seq<char>>, enhance: bool) -> StepModel {
    StepModel::Run(program, args, None, RunModeModel::Captured, enhance)
}

/// Arguments of `garaga calldata` for the Starknet artifacts.
pub open spec fn garaga_calldata_args() -> Seq<Seq<char>> {
    seq![
        "calldata"@,
        "--system"@,
        "ultra_starknet_zk_honk"@,
        "--proof"@,
        proof_path(Flavour::Starknet),
        "--vk"@,
        vk_path(Flavour::Starknet),
        "--public-inputs"@,
        public_inputs_path(Flavour::Starknet),
    ]
}

/// What `bargo cairo data` is planned as up to garaga's run, whose output
/// the second stage writes out.
pub open spec fn cairo_data_plan(cli: Cli) -> Seq<StepModel> {
    only_if(!cli.dry_run, seq![StepModel::RequireFiles(proof_artifacts(Flavour::Starknet), true)]) + note_if(
        cli.verbose,
        running("garaga"@, garaga_calldata_args()),
    ) + if cli.dry_run {
        seq![StepModel::Say(would_run("garaga"@, garaga_calldata_args()))]
    } else {
        seq![StepModel::StartTimer(0), captured("garaga"@, garaga_calldata_args(), true)]
    }
}

/// Plan of `bargo cairo data` up to garaga's run.
pub fn plan_cairo_data(cli: &Cli) -> (res: Vec<Step>)
    ensures
        plan_view(res@) == cairo_data_plan(*cli),
{
    let mut plan = keep_when(
        !cli.dry_run,
        single(Step::RequireFiles { files: proof_artifact_list(Flavour::Starknet), enhance: true }),
    );
    let proof = get_proof_path(Flavour::Starknet);
    let vk = get_vk_path(Flavour::Starknet);
    let inputs = get_public_inputs_path(Flavour::Starknet);
    let items = [
        "calldata",
        "--system",
        "ultra_starknet_zk_honk",
        "--proof",
        proof.as_str(),
        "--vk",
        vk.as_str(),
        "--public-inputs",
        inputs.as_str(),
    ];
    let args = owned_all(&items);
    assert(str_views(items@) =~= garaga_calldata_args());
    push_steps(&mut plan, note_when(cli.verbose, command_line("Running: ", "garaga", &args)));
    if cli.dry_run {
        push_step(&mut plan, Step::Say(command_line("Would run: ", "garaga", &args)));
    } else {
        push_step(&mut plan, Step::StartTimer(0));
        push_step(
            &mut plan,
            Step::Run { program: String::from_str("garaga"), args: args, cwd: None, mode: RunMode::Captured, enhance: true },
        );
    }
    assert(plan_view(plan@) =~= cairo_data_plan(*cli));
    plan
}

/// The second stage of `bargo cairo data`, given garaga's output: the
/// output, trimmed, is written to `target/starknet/calldata.json` and
/// reported unless quiet.
pub open spec fn cairo_data_finish_plan(cli: Cli, output: Seq<char>) -> Seq<StepModel> {
    seq![
        StepModel::WriteFile(
            "./target/starknet/calldata.json"@,
            crate::scan::trim(output),
            FailureModel::Smart(
                "Failed to write calldata file"@,
                seq!["Check directory permissions"@, "Ensure target/starknet directory exists"@],
            ),
        ),
    ] + only_if(
        !cli.quiet,
        seq![
            StepModel::Report("Calldata generated"@, "./target/starknet/calldata.json"@, 0),
            StepModel::SummarizeSize("Calldata for proof verification ("@, "./target/starknet/calldata.json"@, ")"@),
            StepModel::PrintSummary,
            StepModel::Say(""@),
            StepModel::Say("🎯 Next step:"@),
            StepModel::Say("  • Verify on-chain: bargo cairo verify-onchain"@),
        ],
    )
}

/// Plan of the second stage of `bargo cairo data`, given garaga's output.
pub fn plan_cairo_data_finish(cli: &Cli, output: &str) -> (res: Vec<Step>)
    ensures
        plan_view(res@) == cairo_data_finish_plan(*cli, output@),
{
    let hints = ["Check directory permissions", "Ensure target/starknet directory exists"];
    let failure = smart_failure("Failed to write calldata file", &hints);
    assert(str_views(hints@) =~= seq!["Check directory permissions"@, "Ensure target/starknet directory exists"@]);
    let mut plan = single(
        Step::WriteFile {
            path: String::from_str("./target/starknet/calldata.json"),
            contents: crate::scan::trim_str(output),
            failure: failure,
        },
    );
    let mut done: Vec<Step> = Vec::new();
    push_step(
        &mut done,
        Step::Report {
            label: String::from_str("Calldata generated"),
            path: String::from_str("./target/starknet/calldata.json"),
            timer: 0,
        },
    );
    push_step(
        &mut done,
        Step::SummarizeSize {
            before: String::from_str("Calldata for proof verification ("),
            path: String::from_str("./target/starknet/calldata.json"),
            after: String::from_str(")"),
        },
    );
    push_step(&mut done, Step::PrintSummary);
    push_step(&mut done, say(""));
    push_step(&mut done, say("🎯 Next step:"));
    push_step(&mut done, say("  • Verify on-chain: bargo cairo verify-onchain"));
    push_steps(&mut plan, keep_when(!cli.quiet, done));
    plan
}

/// Arguments of `garaga verify-onchain` for a contract address.
pub open spec fn garaga_verify_onchain_args(address: Seq<char>) -> Seq<Seq<char>> {
    seq![
        "verify-onchain"@,
        "--system"@,
        "ultra_starknet_zk_honk"@,
        "--contract-address"@,
        address,
        "--network"@,
        "mainnet"@,
        "--vk"@,
        vk_path(Flavour::Starknet),
        "--proof"@,
        proof_path(Flavour::Starknet),
        "--public-inputs"@,
        public_inputs_path(Flavour::Starknet),
    ]
}

/// The error when no contract address was given or saved.
pub open spec fn address_required_text() -> Seq<char> {
    smart_error_text(
        "Contract address is required for verification"@,
        seq![
            "Provide a contract address with --address <ADDRESS>"@,
            "Or run 'bargo cairo deploy' first to save the contract address"@,
            "The deploy command will save the contract address for verification"@,
        ],
    )
}

/// What `bargo cairo verify-onchain` is planned as, given the address on
/// the command line and the saved one (read from
/// `target/starknet/.bargo_contract_address`, when it could be): the
/// address given wins, the saved one is used trimmed, and without either
/// the command stops.
pub open spec fn cairo_verify_onchain_plan(cli: Cli, address: Option<Seq<char>>, saved: Option<Seq<char>>) -> Seq<StepModel> {
    match address {
        None if saved is None => seq![StepModel::Fail(address_required_text())],
        _ => {
            let addr = match address {
                Some(a) => a,
                None => crate::scan::trim(saved->0),
            };
            let args = garaga_verify_onchain_args(addr);
            only_if(
                address is None && !cli.quiet,
                seq![StepModel::Success("Using saved contract address: "@ + addr)],
            ) + only_if(!cli.dry_run, seq![StepModel::RequireFiles(proof_artifacts(Flavour::Starknet), true)])
                + note_if(cli.verbose, running("garaga"@, args)) + note_if(
                cli.verbose,
                "Verifying proof on-chain at address: "@ + addr,
            ) + if cli.dry_run {
                seq![StepModel::Say(would_run("garaga"@, args))]
            } else {
                seq![StepModel::StartTimer(0), garaga_run(args, true)] + only_if(
                    !cli.quiet,
                    seq![
                        StepModel::ReportElapsed("Proof verified on-chain successfully ("@, 0, ")"@),
                        StepModel::Summarize("On-chain verification completed at address: "@ + addr),
                        StepModel::PrintSummary,
                    ],
                )
            }
        },
    }
}

/// Plan of `bargo cairo verify-onchain`, given the address on the command
/// line and the saved one.
pub fn plan_cairo_verify_onchain(cli: &Cli, address: Option<&str>, saved: Option<&str>) -> (res: Vec<Step>)
    ensures
        plan_view(res@) == cairo_verify_onchain_plan(
            *cli,
            match address {
                Some(a) => Some(a@),
                None => None,
            },
            match saved {
                Some(t) => Some(t@),
                None => None,
            },
        ),
{
    let ghost ga = match address {
        Some(a) => Some(a@),
        None => None::<Seq<char>>,
    };
    let ghost gs = match saved {
        Some(t) => Some(t@),
        None => None::<Seq<char>>,
    };
    let addr = match address {
        Some(a) => String::from_str(a),
        None => match saved {
            Some(t) => crate::scan::trim_str(t),
            None => {
                let hints = [
                    "Provide a contract address with --address <ADDRESS>",
                    "Or run 'bargo cairo deploy' first to save the contract address",
                    "The deploy command will save the contract address for verification",
                ];
                let f = fail_step("Contract address is required for verification", &hints);
                assert(str_views(hints@) =~= seq![
                    "Provide a contract address with --address <ADDRESS>"@,
                    "Or run 'bargo cairo deploy' first to save the contract address"@,
                    "The deploy command will save the contract address for verification"@,
                ]);
                let plan = single(f);
                assert(plan_view(plan@) =~= cairo_verify_onchain_plan(*cli, ga, gs));
                return plan;
            },
        },
    };
    let mut plan = keep_when(
        address.is_none() && !cli.quiet,
        single(Step::Success(concat("Using saved contract address: ", addr.as_str()))),
    );
    push_steps(
        &mut plan,
        keep_when(!cli.dry_run, single(Step::RequireFiles { files: proof_artifact_list(Flavour::Starknet), enhance: true })),
    );
    let proof = get_proof_path(Flavour::Starknet);
    let vk = get_vk_path(Flavour::Starknet);
    let inputs = get_public_inputs_path(Flavour::Starknet);
    let items = [
        "verify-onchain",
        "--system",
        "ultra_starknet_zk_honk",
        "--contract-address",
        addr.as_str(),
        "--network",
        "mainnet",
        "--vk",
        vk.as_str(),
        "--proof",
        proof.as_str(),
        "--public-inputs",
        inputs.as_str(),
    ];
    let args = owned_all(&items);
    assert(str_views(items@) =~= garaga_verify_onchain_args(addr@));
    push_steps(&mut plan, note_when(cli.verbose, command_line("Running: ", "garaga", &args)));
    push_steps(&mut plan, note_when(cli.verbose, concat("Verifying proof on-chain at address: ", addr.as_str())));
    if cli.dry_run {
        push_step(&mut plan, Step::Say(command_line("Would run: ", "garaga", &args)));
    } else {
        push_step(&mut plan, Step::StartTimer(0));
        push_step(&mut plan, garaga_step(args, true));
        let mut done: Vec<Step> = Vec::new();
        push_step(
            &mut done,
            Step::ReportElapsed {
                before: String::from_str("Proof verified on-chain successfully ("),
                timer: 0,
                after: String::from_str(")"),
            },
        );
        push_step(&mut done, Step::Summarize(concat("On-chain verification completed at address: ", addr.as_str())));
        push_step(&mut done, Step::PrintSummary);
        push_steps(&mut plan, keep_when(!cli.quiet, done));
    }
    assert(plan_view(plan@) =~= cairo_verify_onchain_plan(*cli, ga, gs));
    plan
}


/// The Starknet settings that declaring and deploying read from the
/// environment (after loading `.secrets`).
pub struct StarknetEnv {
    /// `MAINNET_RPC_URL`.
    pub mainnet_rpc: Option<String>,
    /// `SEPOLIA_RPC_URL`.
    pub sepolia_rpc: Option<String>,
    /// `STARKNET_ACCOUNT`.
    pub account: Option<String>,
    /// `STARKNET_KEYSTORE`.
    pub keystore: Option<String>,
}

/// The error when an environment variable is not set.
pub open spec fn env_missing_text(var: Seq<char>, hints: Seq<Seq<char>>) -> Seq<char> {
    smart_error_text(var + " environment variable not found"@, hints)
}

/// The suggestions when `MAINNET_RPC_URL` is missing.
pub open spec fn mainnet_hints() -> Seq<Seq<char>> {
    seq![
        "Add to your .secrets file: MAINNET_RPC_URL=https://starknet-mainnet.g.alchemy.com/starknet/version/rpc/v0_8/your_key"@,
        "Ensure the .secrets file is loaded in your environment"@,
    ]
}

/// The suggestions when `SEPOLIA_RPC_URL` is missing.
pub open spec fn sepolia_hints() -> Seq<Seq<char>> {
    seq![
        "Add to your .secrets file: SEPOLIA_RPC_URL=https://starknet-sepolia.g.alchemy.com/starknet/version/rpc/v0_8/your_key"@,
        "Ensure the .secrets file is loaded in your environment"@,
    ]
}

/// The suggestions when `STARKNET_ACCOUNT` is missing.
pub open spec fn account_hints() -> Seq<Seq<char>> {
    seq![
        "Add to your .secrets file: STARKNET_ACCOUNT=path/to/account.json"@,
        "This should point to your starkli account configuration file"@,
    ]
}

/// The suggestions when `STARKNET_KEYSTORE` is missing.
pub open spec fn keystore_hints() -> Seq<Seq<char>> {
    seq![
        "Add to your .secrets file: STARKNET_KEYSTORE=path/to/keystore.json"@,
        "This should point to your starkli keystore file"@,
    ]
}

fn mainnet_missing() -> (res: Step)
    ensures
        res@ == StepModel::Fail(env_missing_text("MAINNET_RPC_URL"@, mainnet_hints())),
{
    let hints = [
        "Add to your .secrets file: MAINNET_RPC_URL=https://starknet-mainnet.g.alchemy.com/starknet/version/rpc/v0_8/your_key",
        "Ensure the .secrets file is loaded in your environment",
    ];
    let f = fail_step("MAINNET_RPC_URL environment variable not found", &hints);
    assert(str_views(hints@) =~= mainnet_hints());
    proof {
        reveal_strlit("MAINNET_RPC_URL environment variable not found");
        reveal_strlit("MAINNET_RPC_URL");
        reveal_strlit(" environment variable not found");
        assert("MAINNET_RPC_URL environment variable not found"@ =~= "MAINNET_RPC_URL"@ + " environment variable not found"@);
    }
    f
}

fn sepolia_missing() -> (res: Step)
    ensures
        res@ == StepModel::Fail(env_missing_text("SEPOLIA_RPC_URL"@, sepolia_hints())),
{
    let hints = [
        "Add to your .secrets file: SEPOLIA_RPC_URL=https://starknet-sepolia.g.alchemy.com/starknet/version/rpc/v0_8/your_key",
        "Ensure the .secrets file is loaded in your environment",
    ];
    let f = fail_step("SEPOLIA_RPC_URL environment variable not found", &hints);
    assert(str_views(hints@) =~= sepolia_hints());
    proof {
        reveal_strlit("SEPOLIA_RPC_URL environment variable not found");
        reveal_strlit("SEPOLIA_RPC_URL");
        reveal_strlit(" environment variable not found");
        assert("SEPOLIA_RPC_URL environment variable not found"@ =~= "SEPOLIA_RPC_URL"@ + " environment variable not found"@);
    }
    f
}

fn account_missing() -> (res: Step)
    ensures
        res@ == StepModel::Fail(env_missing_text("STARKNET_ACCOUNT"@, account_hints())),
{
    let hints = [
        "Add to your .secrets file: STARKNET_ACCOUNT=path/to/account.json",
        "This should point to your starkli account configuration file",
    ];
    let f = fail_step("STARKNET_ACCOUNT environment variable not found", &hints);
    assert(str_views(hints@) =~= account_hints());
    proof {
        reveal_strlit("STARKNET_ACCOUNT environment variable not found");
        reveal_strlit("STARKNET_ACCOUNT");
        reveal_strlit(" environment variable not found");
        assert("STARKNET_ACCOUNT environment variable not found"@ =~= "STARKNET_ACCOUNT"@ + " environment variable not found"@);
    }
    f
}

fn keystore_missing() -> (res: Step)
    ensures
        res@ == StepModel::Fail(env_missing_text("STARKNET_KEYSTORE"@, keystore_hints())),
{
    let hints = [
        "Add to your .secrets file: STARKNET_KEYSTORE=path/to/keystore.json",
        "This should point to your starkli keystore file",
    ];
    let f = fail_step("STARKNET_KEYSTORE environment variable not found", &hints);
    assert(str_views(hints@) =~= keystore_hints());
    proof {
        reveal_strlit("STARKNET_KEYSTORE environment variable not found");
        reveal_strlit("STARKNET_KEYSTORE");
        reveal_strlit(" environment variable not found");
        assert("STARKNET_KEYSTORE environment variable not found"@ =~= "STARKNET_KEYSTORE"@ + " environment variable not found"@);
    }
    f
}

/// Where the compiled Cairo verifier's contract class is.
pub open spec fn contract_class_path() -> Seq<char> {
    "./contracts/cairo/target/dev/cairo_UltraStarknetZKHonkVerifier.contract_class.json"@
}

/// Where the compiled Cairo verifier's CASM class is.
pub open spec fn casm_class_path() -> Seq<char> {
    "./contracts/cairo/target/dev/cairo_UltraStarknetZKHonkVerifier.compiled_contract_class.json"@
}

/// Arguments of `starkli declare`.
pub open spec fn declare_args(rpc: Seq<char>, account: Seq<char>, keystore: Seq<char>) -> Seq<Seq<char>> {
    seq![
        "declare"@,
        contract_class_path(),
        "--rpc"@,
        rpc,
        "--account"@,
        account,
        "--keystore"@,
        keystore,
        "--casm-file"@,
        casm_class_path(),
    ]
}

/// How `starkli declare` is run.
pub open spec fn declare_mode() -> RunModeModel {
    RunModeModel::Direct(
        FailureModel::Smart(
            "Failed to run starkli declare"@,
            seq![
                "Ensure starkli is installed and available in PATH"@,
                "Install with: curl -L https://get.starkli.sh | sh"@,
                "Check that the Cairo project was built correctly"@,
            ],
        ),
        "Starkli declare failed: "@,
        true,
        seq![
            "Check your account balance and network connectivity"@,
            "Verify the contract compilation was successful"@,
            "Ensure your private key and account address are correct"@,
        ],
    )
}

/// The RPC URL that declaring on `network` uses.
pub open spec fn declare_rpc(network: Seq<char>, mainnet: Option<Seq<char>>, sepolia: Option<Seq<char>>) -> Option<Seq<char>> {
    if network == "mainnet"@ {
        mainnet
    } else {
        sepolia
    }
}

/// What `bargo cairo declare` is planned as up to starkli's run, given the
/// network and the settings found in the environment: the compiled
/// project is checked (outside dry runs), then each missing setting stops
/// the command, in the order RPC URL, account, keystore.
pub open spec fn declare_plan(
    cli: Cli,
    network: Seq<char>,
    mainnet: Option<Seq<char>>,
    sepolia: Option<Seq<char>>,
    account: Option<Seq<char>>,
    keystore: Option<Seq<char>>,
) -> Seq<StepModel> {
    only_if(!cli.dry_run, seq![StepModel::RequireFiles(seq!["./contracts/cairo/Scarb.toml"@], true)]) + match declare_rpc(
        network,
        mainnet,
        sepolia,
    ) {
        None => if network == "mainnet"@ {
            seq![StepModel::Fail(env_missing_text("MAINNET_RPC_URL"@, mainnet_hints()))]
        } else {
            seq![StepModel::Fail(env_missing_text("SEPOLIA_RPC_URL"@, sepolia_hints()))]
        },
        Some(rpc) => match account {
            None => seq![StepModel::Fail(env_missing_text("STARKNET_ACCOUNT"@, account_hints()))],
            Some(acc) => match keystore {
                None => seq![StepModel::Fail(env_missing_text("STARKNET_KEYSTORE"@, keystore_hints()))],
                Some(ks) => note_if(cli.verbose, running("starkli"@, declare_args(rpc, acc, ks))) + if cli.dry_run {
                    seq![StepModel::Say(would_run("starkli"@, declare_args(rpc, acc, ks)))]
                } else {
                    seq![
                        StepModel::StartTimer(0),
                        StepModel::Run("starkli"@, declare_args(rpc, acc, ks), None, declare_mode(), false),
                    ]
                },
            },
        },
    }
}

fn owned_hints(items: &[&str]) -> (res: Vec<String>)
    ensures
        views(res@) == str_views(items@),
{
    owned_all(items)
}

fn declare_run_mode() -> (res: RunMode)
    ensures
        res@ == declare_mode(),
{
    let spawn_hints = [
        "Ensure starkli is installed and available in PATH",
        "Install with: curl -L https://get.starkli.sh | sh",
        "Check that the Cairo project was built correctly",
    ];
    let spawn = smart_failure("Failed to run starkli declare", &spawn_hints);
    assert(str_views(spawn_hints@) =~= seq![
        "Ensure starkli is installed and available in PATH"@,
        "Install with: curl -L https://get.starkli.sh | sh"@,
        "Check that the Cairo project was built correctly"@,
    ]);
    let hints = [
        "Check your account balance and network connectivity",
        "Verify the contract compilation was successful",
        "Ensure your private key and account address are correct",
    ];
    let suggestions = owned_hints(&hints);
    assert(str_views(hints@) =~= seq![
        "Check your account balance and network connectivity"@,
        "Verify the contract compilation was successful"@,
        "Ensure your private key and account address are correct"@,
    ]);
    RunMode::Direct { spawn: spawn, message: String::from_str("Starkli declare failed: "), with_stdout: true, suggestions: suggestions }
}

/// Plan of `bargo cairo declare` up to starkli's run.
pub fn plan_cairo_declare(cli: &Cli, network: &str, env: &StarknetEnv) -> (res: Vec<Step>)
    ensures
        plan_view(res@) == declare_plan(
            *cli,
            network@,
            opt_view(env.mainnet_rpc),
            opt_view(env.sepolia_rpc),
            opt_view(env.account),
            opt_view(env.keystore),
        ),
{
    let ghost goal = declare_plan(
        *cli,
        network@,
        opt_view(env.mainnet_rpc),
        opt_view(env.sepolia_rpc),
        opt_view(env.account),
        opt_view(env.keystore),
    );
    let mut files: Vec<String> = Vec::new();
    push_arg(&mut files, "./contracts/cairo/Scarb.toml");
    assert(views(files@) =~= seq!["./contracts/cairo/Scarb.toml"@]);
    let mut plan = keep_when(!cli.dry_run, single(Step::RequireFiles { files: files, enhance: true }));
    let mainnet = crate::text::str_eq(network, "mainnet");
    let rpc = if mainnet {
        &env.mainnet_rpc
    } else {
        &env.sepolia_rpc
    };
    match rpc {
        None => {
            if mainnet {
                push_step(&mut plan, mainnet_missing());
            } else {
                push_step(&mut plan, sepolia_missing());
            }
        },
        Some(rpc) => match &env.account {
            None => push_step(&mut plan, account_missing()),
            Some(acc) => match &env.keystore {
                None => push_step(&mut plan, keystore_missing()),
                Some(ks) => {
                    let items = [
                        "declare",
                        "./contracts/cairo/target/dev/cairo_UltraStarknetZKHonkVerifier.contract_class.json",
                        "--rpc",
                        rpc.as_str(),
                        "--account",
                        acc.as_str(),
                        "--keystore",
                        ks.as_str(),
                        "--casm-file",
                        "./contracts/cairo/target/dev/cairo_UltraStarknetZKHonkVerifier.compiled_contract_class.json",
                    ];
                    let args = owned_all(&items);
                    assert(str_views(items@) =~= declare_args(rpc@, acc@, ks@));
                    push_steps(&mut plan, note_when(cli.verbose, command_line("Running: ", "starkli", &args)));
                    if cli.dry_run {
                        push_step(&mut plan, Step::Say(command_line("Would run: ", "starkli", &args)));
                    } else {
                        push_step(&mut plan, Step::StartTimer(0));
                        push_step(
                            &mut plan,
                            Step::Run { program: String::from_str("starkli"), args: args, cwd: None, mode: declare_run_mode(), enhance: false },
                        );
                    }
                },
            },
        },
    }
    assert(plan_view(plan@) =~= goal);
    plan
}

/// The second stage of `bargo cairo declare`, given starkli's output: the
/// class hash found in it is shown, saved (best effort) to
/// `target/starknet/.bargo_class_hash` and reported; without one the
/// command stops.
pub open spec fn declare_finish_plan(cli: Cli, output: Seq<char>) -> Seq<StepModel> {
    match crate::scan::class_hash_in(output) {
        None => seq![
            StepModel::Fail(
                smart_error_text(
                    "Could not extract class hash from starkli output"@,
                    seq![
                        "The contract declaration may have failed"@,
                        "Check the starkli output above for details"@,
                        "Try running the command again"@,
                    ],
                ),
            ),
        ],
        Some(h) => only_if(
            !cli.quiet,
            seq![
                StepModel::Success("Class hash: "@ + h),
                StepModel::Say("🔗 View on Voyager: https://voyager.online/class/"@ + h),
            ],
        ) + seq![
            StepModel::SaveFile("target/starknet/.bargo_class_hash"@, h, cli.verbose, "Failed to save class hash to file"@, None),
        ] + only_if(
            !cli.quiet,
            seq![
                StepModel::ReportElapsed("Contract declared successfully ("@, 0, ")"@),
                StepModel::Summarize("Cairo verifier contract declared on Starknet (class hash: "@ + h + ")"@),
                StepModel::PrintSummary,
            ],
        ),
    }
}

/// Plan of the second stage of `bargo cairo declare`, given starkli's output.
pub fn plan_cairo_declare_finish(cli: &Cli, output: &str) -> (res: Vec<Step>)
    ensures
        plan_view(res@) == declare_finish_plan(*cli, output@),
{
    match crate::scan::extract_class_hash(output) {
        None => {
            let hints = [
                "The contract declaration may have failed",
                "Check the starkli output above for details",
                "Try running the command again",
            ];
            let f = fail_step("Could not extract class hash from starkli output", &hints);
            assert(str_views(hints@) =~= seq![
                "The contract declaration may have failed"@,
                "Check the starkli output above for details"@,
                "Try running the command again"@,
            ]);
            let plan = single(f);
            assert(plan_view(plan@) =~= declare_finish_plan(*cli, output@));
            plan
        },
        Some(h) => {
            let mut shown_hash: Vec<Step> = Vec::new();
            push_step(&mut shown_hash, Step::Success(concat("Class hash: ", h.as_str())));
            push_step(&mut shown_hash, say(concat("🔗 View on Voyager: https://voyager.online/class/", h.as_str()).as_str()));
            let mut plan = keep_when(!cli.quiet, shown_hash);
            push_step(
                &mut plan,
                Step::SaveFile {
                    path: String::from_str("target/starknet/.bargo_class_hash"),
                    contents: h.clone(),
                    warn: cli.verbose,
                    failure_label: String::from_str("Failed to save class hash to file"),
                    on_saved: None,
                },
            );
            let mut op = concat("Cairo verifier contract declared on Starknet (class hash: ", h.as_str());
            op.append(")");
            let mut done: Vec<Step> = Vec::new();
            push_step(
                &mut done,
                Step::ReportElapsed {
                    before: String::from_str("Contract declared successfully ("),
                    timer: 0,
                    after: String::from_str(")"),
                },
            );
            push_step(&mut done, Step::Summarize(op));
            push_step(&mut done, Step::PrintSummary);
            push_steps(&mut plan, keep_when(!cli.quiet, done));
            assert(plan_view(plan@) =~= declare_finish_plan(*cli, output@));
            plan
        },
    }
}


/// Arguments of `starkli deploy`.
pub open spec fn deploy_args(hash: Seq<char>, rpc: Seq<char>, account: Seq<char>, keystore: Seq<char>) -> Seq<Seq<char>> {
    seq!["deploy"@, hash, "--rpc"@, rpc, "--account"@, account, "--keystore"@, keystore]
}

/// How `starkli deploy` is run.
pub open spec fn deploy_mode() -> RunModeModel {
    RunModeModel::Direct(
        FailureModel::Smart("Failed to run starkli deploy"@, seq!["Ensure starkli is installed and available in PATH"@]),
        "Starkli deploy failed: "@,
        true,
        seq!["Check your account balance and network connectivity"@],
    )
}

/// The error when no class hash was given or saved.
pub open spec fn hash_required_text() -> Seq<char> {
    smart_error_text(
        "Class hash is required for deployment"@,
        seq![
            "Provide a class hash with --class-hash <HASH>"@,
            "Or run 'bargo cairo declare' first to save the class hash"@,
            "The declare command will save the class hash for deployment"@,
        ],
    )
}

/// The class hash that deploying uses: the one given, or else the saved one, trimmed.
pub open spec fn deploy_hash(class_hash: Option<Seq<char>>, saved: Option<Seq<char>>) -> Option<Seq<char>> {
    match class_hash {
        Some(h) => Some(h),
        None => match saved {
            Some(t) => Some(crate::scan::trim(t)),
            None => None,
        },
    }
}

/// What `bargo cairo deploy` is planned as up to starkli's run, given the
/// class hash on the command line, the saved one (read from
/// `target/starknet/.bargo_class_hash`, when it could be) and the settings
/// found in the environment; deploying always uses `MAINNET_RPC_URL`.
pub open spec fn deploy_plan(
    cli: Cli,
    class_hash: Option<Seq<char>>,
    saved: Option<Seq<char>>,
    mainnet: Option<Seq<char>>,
    account: Option<Seq<char>>,
    keystore: Option<Seq<char>>,
) -> Seq<StepModel> {
    match deploy_hash(class_hash, saved) {
        None => seq![StepModel::Fail(hash_required_text())],
        Some(hash) => only_if(
            class_hash is None && !cli.quiet,
            seq![StepModel::Success("Using saved class hash: "@ + hash)],
        ) + match mainnet {
            None => seq![StepModel::Fail(env_missing_text("MAINNET_RPC_URL"@, mainnet_hints()))],
            Some(rpc) => match account {
                None => seq![StepModel::Fail(env_missing_text("STARKNET_ACCOUNT"@, account_hints()))],
                Some(acc) => match keystore {
                    None => seq![StepModel::Fail(env_missing_text("STARKNET_KEYSTORE"@, keystore_hints()))],
                    Some(ks) => note_if(cli.verbose, running("starkli"@, deploy_args(hash, rpc, acc, ks))) + if cli.dry_run {
                        seq![StepModel::Say(would_run("starkli"@, deploy_args(hash, rpc, acc, ks)))]
                    } else {
                        seq![
                            StepModel::StartTimer(0),
                            StepModel::Run("starkli"@, deploy_args(hash, rpc, acc, ks), None, deploy_mode(), false),
                        ]
                    },
                },
            },
        },
    }
}

fn deploy_run_mode() -> (res: RunMode)
    ensures
        res@ == deploy_mode(),
{
    let spawn_hints = ["Ensure starkli is installed and available in PATH"];
    let spawn = smart_failure("Failed to run starkli deploy", &spawn_hints);
    assert(str_views(spawn_hints@) =~= seq!["Ensure starkli is installed and available in PATH"@]);
    let hints = ["Check your account balance and network connectivity"];
    let suggestions = owned_hints(&hints);
    assert(str_views(hints@) =~= seq!["Check your account balance and network connectivity"@]);
    RunMode::Direct { spawn: spawn, message: String::from_str("Starkli deploy failed: "), with_stdout: true, suggestions: suggestions }
}

/// The class hash that deploying uses, when there is one.
pub fn resolve_class_hash(class_hash: Option<&str>, saved: Option<&str>) -> (res: Option<String>)
    ensures
        opt_view(res) == deploy_hash(
            match class_hash {
                Some(h) => Some(h@),
                None => None,
            },
            match saved {
                Some(t) => Some(t@),
                None => None,
            },
        ),
{
    match class_hash {
        Some(h) => Some(String::from_str(h)),
        None => match saved {
            Some(t) => Some(crate::scan::trim_str(t)),
            None => None,
        },
    }
}

/// Plan of `bargo cairo deploy` up to starkli's run.
pub fn plan_cairo_deploy(cli: &Cli, class_hash: Option<&str>, saved: Option<&str>, env: &StarknetEnv) -> (res: Vec<Step>)
    ensures
        plan_view(res@) == deploy_plan(
            *cli,
            match class_hash {
                Some(h) => Some(h@),
                None => None,
            },
            match saved {
                Some(t) => Some(t@),
                None => None,
            },
            opt_view(env.mainnet_rpc),
            opt_view(env.account),
            opt_view(env.keystore),
        ),
{
    let ghost gh = match class_hash {
        Some(h) => Some(h@),
        None => None::<Seq<char>>,
    };
    let ghost gs = match saved {
        Some(t) => Some(t@),
        None => None::<Seq<char>>,
    };
    let ghost goal = deploy_plan(*cli, gh, gs, opt_view(env.mainnet_rpc), opt_view(env.account), opt_view(env.keystore));
    let hash = match resolve_class_hash(class_hash, saved) {
        Some(h) => h,
        None => {
            let hints = [
                "Provide a class hash with --class-hash <HASH>",
                "Or run 'bargo cairo declare' first to save the class hash",
                "The declare command will save the class hash for deployment",
            ];
            let f = fail_step("Class hash is required for deployment", &hints);
            assert(str_views(hints@) =~= seq![
                "Provide a class hash with --class-hash <HASH>"@,
                "Or run 'bargo cairo declare' first to save the class hash"@,
                "The declare command will save the class hash for deployment"@,
            ]);
            let plan = single(f);
            assert(plan_view(plan@) =~= goal);
            return plan;
        },
    };
    let mut plan = keep_when(
        class_hash.is_none() && !cli.quiet,
        single(Step::Success(concat("Using saved class hash: ", hash.as_str()))),
    );
    match &env.mainnet_rpc {
        None => push_step(&mut plan, mainnet_missing()),
        Some(rpc) => match &env.account {
            None => push_step(&mut plan, account_missing()),
            Some(acc) => match &env.keystore {
                None => push_step(&mut plan, keystore_missing()),
                Some(ks) => {
                    let items = ["deploy", hash.as_str(), "--rpc", rpc.as_str(), "--account", acc.as_str(), "--keystore", ks.as_str()];
                    let args = owned_all(&items);
                    assert(str_views(items@) =~= deploy_args(hash@, rpc@, acc@, ks@));
                    push_steps(&mut plan, note_when(cli.verbose, command_line("Running: ", "starkli", &args)));
                    if cli.dry_run {
                        push_step(&mut plan, Step::Say(command_line("Would run: ", "starkli", &args)));
                    } else {
                        push_step(&mut plan, Step::StartTimer(0));
                        push_step(
                            &mut plan,
                            Step::Run { program: String::from_str("starkli"), args: args, cwd: None, mode: deploy_run_mode(), enhance: false },
                        );
                    }
                },
            },
        },
    }
    assert(plan_view(plan@) =~= goal);
    plan
}

/// The second stage of `bargo cairo deploy`, given the class hash used and
/// starkli's output: the contract address found in it is saved (best
/// effort) to `target/starknet/.bargo_contract_address` and shown once
/// saved, then the deployment is reported.
pub open spec fn deploy_finish_plan(cli: Cli, hash: Seq<char>, output: Seq<char>) -> Seq<StepModel> {
    (match crate::scan::address_in(output) {
        Some(a) => seq![
            StepModel::SaveFile(
                "target/starknet/.bargo_contract_address"@,
                a,
                cli.verbose,
                "Failed to save contract address to file"@,
                if cli.quiet { None } else { Some("Contract address: "@ + a) },
            ),
        ],
        None => seq![],
    }) + only_if(
        !cli.quiet,
        seq![
            StepModel::ReportElapsed("Contract deployed successfully ("@, 0, ")"@),
            StepModel::Summarize(
                match crate::scan::address_in(output) {
                    Some(a) => "Cairo verifier deployed at address: "@ + a,
                    None => "Cairo verifier deployed with class hash: "@ + hash,
                },
            ),
            StepModel::PrintSummary,
        ],
    )
}

/// Plan of the second stage of `bargo cairo deploy`, given the class hash
/// used and starkli's output.
pub fn plan_cairo_deploy_finish(cli: &Cli, hash: &str, output: &str) -> (res: Vec<Step>)
    ensures
        plan_view(res@) == deploy_finish_plan(*cli, hash@, output@),
{
    let address = crate::scan::extract_contract_address(output);
    let mut plan: Vec<Step> = Vec::new();
    let op = match &address {
        Some(a) => {
            let saved = if cli.quiet {
                None
            } else {
                Some(concat("Contract address: ", a.as_str()))
            };
            push_step(
                &mut plan,
                Step::SaveFile {
                    path: String::from_str("target/starknet/.bargo_contract_address"),
                    contents: a.clone(),
                    warn: cli.verbose,
                    failure_label: String::from_str("Failed to save contract address to file"),
                    on_saved: saved,
                },
            );
            concat("Cairo verifier deployed at address: ", a.as_str())
        },
        None => concat("Cairo verifier deployed with class hash: ", hash),
    };
    let mut done: Vec<Step> = Vec::new();
    push_step(
        &mut done,
        Step::ReportElapsed { before: String::from_str("Contract deployed successfully ("), timer: 0, after: String::from_str(")") },
    );
    push_step(&mut done, Step::Summarize(op));
    push_step(&mut done, Step::PrintSummary);
    push_steps(&mut plan, keep_when(!cli.quiet, done));
    assert(plan_view(plan@) =~= deploy_finish_plan(*cli, hash@, output@));
    plan
}

} // verus!
