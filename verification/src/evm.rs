//! The EVM workflow: a keccak proof, a Solidity verifier in a Foundry
//! project, its deployment, calldata and on-chain verification.

use vstd::prelude::*;
use crate::cli::Cli;
use crate::errors::{create_smart_error, smart_error_text};
use crate::paths::{bytecode_path, get_bytecode_path, get_vk_path, get_witness_path, proof_path, vk_path, witness_path, Flavour};
use crate::plan::{plan_view, push_step, push_steps, Failure, FailureModel, Step, StepModel};
use crate::proving::{run_shown, smart_failure, solidity_args};
use crate::text::{owned_all, str_views, views};
use crate::workflow::{command_line, keep_when, note_if, note_when, only_if, running, shown, single, would_run};

verus! {

/// Stopping with a smart error of `message` and `suggestions`.
pub fn fail_step(message: &str, suggestions: &[&str]) -> (res: Step)
    ensures
        res@ == StepModel::Fail(smart_error_text(message@, str_views(suggestions@))),
{
    Step::Fail(create_smart_error(message, suggestions).message)
}

/// Printing a line as it is.
pub fn say(text: &str) -> (res: Step)
    ensures
        res@ == StepModel::Say(text@),
{
    Step::Say(String::from_str(text))
}

/// What `bargo evm gen` finds on disk before it starts.
#[derive(Clone, Copy)]
pub struct EvmGenProbes {
    /// `target/bb/proof` exists.
    pub proof: bool,
    /// `target/bb/vk` exists.
    pub vk: bool,
    /// The package's bytecode exists.
    pub bytecode: bool,
    /// The package's witness exists.
    pub witness: bool,
    /// `./contracts/evm` exists.
    pub foundry_root: bool,
}

/// The error when the inputs of a keccak proof are missing.
pub open spec fn missing_inputs_text() -> Seq<char> {
    smart_error_text(
        "Missing bytecode or witness files"@,
        seq!["Run 'bargo build' first to generate bytecode and witness"@, "Ensure your Noir circuit compiles successfully"@],
    )
}

/// Arguments of `bb prove` for a keccak proof in field format.
pub open spec fn keccak_prove_args(pkg: Seq<char>) -> Seq<Seq<char>> {
    seq![
        "prove"@,
        "-b"@,
        bytecode_path(pkg, Flavour::Bb),
        "-w"@,
        witness_path(pkg, Flavour::Bb),
        "-o"@,
        "./target/bb"@,
        "--oracle_hash"@,
        "keccak"@,
        "--output_format"@,
        "fields"@,
    ]
}

/// Arguments of `bb write_vk` for a keccak verification key.
pub open spec fn keccak_write_vk_args(pkg: Seq<char>) -> Seq<Seq<char>> {
    seq!["write_vk"@, "-b"@, bytecode_path(pkg, Flavour::Bb), "-o"@, "./target/bb"@, "--oracle_hash"@, "keccak"@]
}

/// The keccak proof and verification key of `bargo evm gen`, generated
/// when either is missing: from the bytecode and witness, or, when those
/// are missing too, not at all (the command stops).
pub open spec fn evm_keccak_part(cli: Cli, pkg: Seq<char>, p: EvmGenProbes) -> Seq<StepModel> {
    only_if(
        !p.proof || !p.vk,
        only_if(!cli.quiet, seq![StepModel::Say("🔄 Generating keccak-optimized proof and verification key..."@)])
            + if !p.bytecode || !p.witness {
            seq![StepModel::Fail(missing_inputs_text())]
        } else {
            note_if(cli.verbose, running("bb"@, keccak_prove_args(pkg))) + only_if(
                !cli.dry_run,
                seq![
                    StepModel::MakeDir(
                        "./target/bb"@,
                        FailureModel::Smart(
                            "Failed to create target/bb directory"@,
                            seq!["Check directory permissions"@, "Ensure you have write access"@],
                        ),
                    ),
                    StepModel::StartTimer(0),
                    shown("bb"@, keccak_prove_args(pkg), true),
                ] + only_if(!cli.quiet, seq![StepModel::Report("Keccak proof"@, proof_path(Flavour::Bb), 0)]),
            ) + note_if(cli.verbose, running("bb"@, keccak_write_vk_args(pkg))) + only_if(
                !cli.dry_run,
                seq![StepModel::StartTimer(1), shown("bb"@, keccak_write_vk_args(pkg), true)] + only_if(
                    !cli.quiet,
                    seq![
                        StepModel::Report("Keccak VK"@, vk_path(Flavour::Bb), 1),
                        StepModel::SummarizeSize(
                            "Verification key with keccak optimization ("@,
                            vk_path(Flavour::Bb),
                            ")"@,
                        ),
                    ],
                ),
            )
        },
    )
}

fn evm_keccak_steps(cli: &Cli, pkg: &str, p: EvmGenProbes) -> (res: Vec<Step>)
    ensures
        plan_view(res@) == evm_keccak_part(*cli, pkg@, p),
{
    let mut plan: Vec<Step> = Vec::new();
    if !p.proof || !p.vk {
        plan = keep_when(!cli.quiet, single(say("🔄 Generating keccak-optimized proof and verification key...")));
        if !p.bytecode || !p.witness {
            let hints = ["Run 'bargo build' first to generate bytecode and witness", "Ensure your Noir circuit compiles successfully"];
            let f = fail_step("Missing bytecode or witness files", &hints);
            assert(str_views(hints@) =~= seq![
                "Run 'bargo build' first to generate bytecode and witness"@,
                "Ensure your Noir circuit compiles successfully"@,
            ]);
            push_step(&mut plan, f);
        } else {
            let bc = get_bytecode_path(pkg, Flavour::Bb);
            let wt = get_witness_path(pkg, Flavour::Bb);
            let items = [
                "prove",
                "-b",
                bc.as_str(),
                "-w",
                wt.as_str(),
                "-o",
                "./target/bb",
                "--oracle_hash",
                "keccak",
                "--output_format",
                "fields",
            ];
            let prove_args = owned_all(&items);
            assert(str_views(items@) =~= keccak_prove_args(pkg@));
            push_steps(&mut plan, note_when(cli.verbose, command_line("Running: ", "bb", &prove_args)));
            let mut proving: Vec<Step> = Vec::new();
            let hints = ["Check directory permissions", "Ensure you have write access"];
            let failure = smart_failure("Failed to create target/bb directory", &hints);
            assert(str_views(hints@) =~= seq!["Check directory permissions"@, "Ensure you have write access"@]);
            push_step(&mut proving, Step::MakeDir { path: String::from_str("./target/bb"), failure: failure });
            push_step(&mut proving, Step::StartTimer(0));
            push_step(&mut proving, run_shown("bb", prove_args, true));
            let proof = crate::paths::get_proof_path(Flavour::Bb);
            let report = single(Step::Report { label: String::from_str("Keccak proof"), path: proof, timer: 0 });
            push_steps(&mut proving, keep_when(!cli.quiet, report));
            push_steps(&mut plan, keep_when(!cli.dry_run, proving));
            let vk_items = ["write_vk", "-b", bc.as_str(), "-o", "./target/bb", "--oracle_hash", "keccak"];
            let vk_args = owned_all(&vk_items);
            assert(str_views(vk_items@) =~= keccak_write_vk_args(pkg@));
            push_steps(&mut plan, note_when(cli.verbose, command_line("Running: ", "bb", &vk_args)));
            let mut keying: Vec<Step> = Vec::new();
            push_step(&mut keying, Step::StartTimer(1));
            push_step(&mut keying, run_shown("bb", vk_args, true));
            let vk = get_vk_path(Flavour::Bb);
            let mut reported: Vec<Step> = Vec::new();
            push_step(&mut reported, Step::Report { label: String::from_str("Keccak VK"), path: vk.clone(), timer: 1 });
            push_step(
                &mut reported,
                Step::SummarizeSize {
                    before: String::from_str("Verification key with keccak optimization ("),
                    path: vk,
                    after: String::from_str(")"),
                },
            );
            push_steps(&mut keying, keep_when(!cli.quiet, reported));
            push_steps(&mut plan, keep_when(!cli.dry_run, keying));
        }
    }
    assert(plan_view(plan@) =~= evm_keccak_part(*cli, pkg@, p));
    plan
}

/// Where `bargo evm gen` writes the Solidity verifier.
pub open spec fn evm_verifier_path() -> Seq<char> {
    "./contracts/evm/src/Verifier.sol"@
}

/// The Foundry configuration that `bargo evm gen` writes when none exists.
pub open spec fn foundry_toml_text() -> Seq<char> {
    "[profile.default]\nsolc_version = \"0.8.25\"\noptimizer = true\noptimizer_runs = 200\n\n[fmt]\nline_length = 100\ntab_width = 4\nbracket_spacing = true\n"@
}

/// Initializing the Foundry project of `bargo evm gen`.
pub open spec fn evm_init_part(cli: Cli) -> Seq<StepModel> {
    only_if(!cli.quiet, seq![StepModel::Say("🔨 Initializing Foundry project..."@)])
        + note_if(cli.verbose, "Running: forge init --force contracts/evm"@)
        + only_if(
        !cli.dry_run,
        seq![StepModel::StartTimer(2), shown("forge"@, seq!["init"@, "--force"@, "contracts/evm"@], true)]
            + only_if(
            !cli.quiet,
            seq![
                StepModel::ReportElapsed("Foundry project initialized ("@, 2, ")"@),
                StepModel::Summarize("Foundry project structure created"@),
            ],
        ),
    )
}

/// Writing the Solidity verifier of `bargo evm gen`.
pub open spec fn evm_solidity_part(cli: Cli) -> Seq<StepModel> {
    let sol = solidity_args(vk_path(Flavour::Bb), evm_verifier_path());
    only_if(!cli.quiet, seq![StepModel::Say("📝 Generating Solidity verifier contract..."@)]) + note_if(
        cli.verbose,
        running("bb"@, sol),
    ) + only_if(
        !cli.dry_run,
        seq![
            StepModel::MakeDir(
                "./contracts/evm/src"@,
                FailureModel::Smart("Failed to create src directory"@, seq!["Check directory permissions"@]),
            ),
            StepModel::StartTimer(3),
            shown("bb"@, sol, true),
        ] + only_if(
            !cli.quiet,
            seq![
                StepModel::Report("Solidity verifier"@, evm_verifier_path(), 3),
                StepModel::SummarizeSize("Solidity verifier contract ("@, evm_verifier_path(), ")"@),
            ],
        ),
    )
}

/// Writing the Foundry configuration of `bargo evm gen`.
pub open spec fn evm_toml_part(cli: Cli) -> Seq<StepModel> {
    only_if(!cli.quiet && cli.verbose, seq![StepModel::Say("📄 Creating foundry.toml configuration..."@)])
        + only_if(
        !cli.dry_run,
        seq![
            StepModel::WriteFile(
                "./contracts/evm/foundry.toml"@,
                foundry_toml_text(),
                FailureModel::Smart("Failed to create foundry.toml"@, seq!["Check directory permissions"@]),
            ),
        ] + only_if(
            !cli.quiet && cli.verbose,
            seq![StepModel::ReportSize("foundry.toml configuration created ("@, "./contracts/evm/foundry.toml"@, ")"@)],
        ) + seq![StepModel::Summarize("Foundry configuration file created"@)],
    )
}

/// Building the Foundry project of `bargo evm gen`.
pub open spec fn evm_build_part(cli: Cli) -> Seq<StepModel> {
    only_if(!cli.quiet, seq![StepModel::Say("🔨 Building Foundry project..."@)]) + note_if(
        cli.verbose,
        "Running: forge build --root contracts/evm"@,
    ) + only_if(
        !cli.dry_run,
        seq![StepModel::StartTimer(4), shown("forge"@, seq!["build"@, "--root"@, "contracts/evm"@], true)]
            + only_if(
            !cli.quiet,
            seq![
                StepModel::ReportElapsed("Foundry project compiled successfully ("@, 4, ")"@),
                StepModel::Summarize("Foundry project compiled successfully"@),
            ],
        ),
    )
}

/// The Foundry project of `bargo evm gen`: initialized when missing, the
/// Solidity verifier written into it, its configuration written when
/// missing, then built.
pub open spec fn evm_foundry_part(cli: Cli, p: EvmGenProbes, foundry_toml: bool) -> Seq<StepModel> {
    only_if(!p.foundry_root, evm_init_part(cli)) + evm_solidity_part(cli) + only_if(!foundry_toml, evm_toml_part(cli))
        + evm_build_part(cli)
}

fn check_hint_failure(context: &str) -> (res: Failure)
    ensures
        res@ == FailureModel::Smart(context@, seq!["Check directory permissions"@]),
{
    let hints = ["Check directory permissions"];
    let f = smart_failure(context, &hints);
    assert(str_views(hints@) =~= seq!["Check directory permissions"@]);
    f
}

fn evm_init_steps(cli: &Cli) -> (res: Vec<Step>)
    ensures
        plan_view(res@) == evm_init_part(*cli),
{
    let mut plan = keep_when(!cli.quiet, single(say("🔨 Initializing Foundry project...")));
    push_steps(&mut plan, note_when(cli.verbose, String::from_str("Running: forge init --force contracts/evm")));
    let mut run: Vec<Step> = Vec::new();
    push_step(&mut run, Step::StartTimer(2));
    let items = ["init", "--force", "contracts/evm"];
    let args = owned_all(&items);
    assert(str_views(items@) =~= seq!["init"@, "--force"@, "contracts/evm"@]);
    push_step(&mut run, run_shown("forge", args, true));
    let mut done: Vec<Step> = Vec::new();
    push_step(
        &mut done,
        Step::ReportElapsed { before: String::from_str("Foundry project initialized ("), timer: 2, after: String::from_str(")") },
    );
    push_step(&mut done, Step::Summarize(String::from_str("Foundry project structure created")));
    push_steps(&mut run, keep_when(!cli.quiet, done));
    push_steps(&mut plan, keep_when(!cli.dry_run, run));
    plan
}

fn evm_solidity_steps(cli: &Cli) -> (res: Vec<Step>)
    ensures
        plan_view(res@) == evm_solidity_part(*cli),
{
    let mut plan = keep_when(!cli.quiet, single(say("📝 Generating Solidity verifier contract...")));
    let vk = get_vk_path(Flavour::Bb);
    let sol_items = ["write_solidity_verifier", "-k", vk.as_str(), "-o", "./contracts/evm/src/Verifier.sol"];
    let sol = owned_all(&sol_items);
    assert(str_views(sol_items@) =~= solidity_args(vk_path(Flavour::Bb), evm_verifier_path()));
    push_steps(&mut plan, note_when(cli.verbose, command_line("Running: ", "bb", &sol)));
    let mut writing: Vec<Step> = Vec::new();
    push_step(
        &mut writing,
        Step::MakeDir { path: String::from_str("./contracts/evm/src"), failure: check_hint_failure("Failed to create src directory") },
    );
    push_step(&mut writing, Step::StartTimer(3));
    push_step(&mut writing, run_shown("bb", sol, true));
    let mut written: Vec<Step> = Vec::new();
    push_step(
        &mut written,
        Step::Report {
            label: String::from_str("Solidity verifier"),
            path: String::from_str("./contracts/evm/src/Verifier.sol"),
            timer: 3,
        },
    );
    push_step(
        &mut written,
        Step::SummarizeSize {
            before: String::from_str("Solidity verifier contract ("),
            path: String::from_str("./contracts/evm/src/Verifier.sol"),
            after: String::from_str(")"),
        },
    );
    push_steps(&mut writing, keep_when(!cli.quiet, written));
    push_steps(&mut plan, keep_when(!cli.dry_run, writing));
    plan
}

fn evm_toml_steps(cli: &Cli) -> (res: Vec<Step>)
    ensures
        plan_view(res@) == evm_toml_part(*cli),
{
    let mut toml = keep_when(!cli.quiet && cli.verbose, single(say("📄 Creating foundry.toml configuration...")));
    let mut write = single(
        Step::WriteFile {
            path: String::from_str("./contracts/evm/foundry.toml"),
            contents: String::from_str(
                "[profile.default]\nsolc_version = \"0.8.25\"\noptimizer = true\noptimizer_runs = 200\n\n[fmt]\nline_length = 100\ntab_width = 4\nbracket_spacing = true\n",
            ),
            failure: check_hint_failure("Failed to create foundry.toml"),
        },
    );
    let sized = single(
        Step::ReportSize {
            before: String::from_str("foundry.toml configuration created ("),
            path: String::from_str("./contracts/evm/foundry.toml"),
            after: String::from_str(")"),
        },
    );
    push_steps(&mut write, keep_when(!cli.quiet && cli.verbose, sized));
    push_step(&mut write, Step::Summarize(String::from_str("Foundry configuration file created")));
    push_steps(&mut toml, keep_when(!cli.dry_run, write));
    toml
}

fn evm_build_steps(cli: &Cli) -> (res: Vec<Step>)
    ensures
        plan_view(res@) == evm_build_part(*cli),
{
    let mut plan = keep_when(!cli.quiet, single(say("🔨 Building Foundry project...")));
    push_steps(&mut plan, note_when(cli.verbose, String::from_str("Running: forge build --root contracts/evm")));
    let mut build: Vec<Step> = Vec::new();
    push_step(&mut build, Step::StartTimer(4));
    let items = ["build", "--root", "contracts/evm"];
    let args = owned_all(&items);
    assert(str_views(items@) =~= seq!["build"@, "--root"@, "contracts/evm"@]);
    push_step(&mut build, run_shown("forge", args, true));
    let mut built: Vec<Step> = Vec::new();
    push_step(
        &mut built,
        Step::ReportElapsed {
            before: String::from_str("Foundry project compiled successfully ("),
            timer: 4,
            after: String::from_str(")"),
        },
    );
    push_step(&mut built, Step::Summarize(String::from_str("Foundry project compiled successfully")));
    push_steps(&mut build, keep_when(!cli.quiet, built));
    push_steps(&mut plan, keep_when(!cli.dry_run, build));
    plan
}

/// The closing lines of `bargo evm gen`: the summary and the next steps.
pub open spec fn evm_gen_closing() -> Seq<StepModel> {
    seq![
        StepModel::PrintSummary,
        StepModel::Say(""@),
        StepModel::Say("🎯 Next steps:"@),
        StepModel::Say("  1. Set up your .env file with RPC_URL and PRIVATE_KEY"@),
        StepModel::Say("  2. Deploy contract: bargo evm deploy --network sepolia"@),
        StepModel::Say("  3. Generate calldata: bargo evm calldata"@),
        StepModel::Say("  4. Verify on-chain: bargo evm verify-onchain"@),
    ]
}

/// What `bargo evm gen` is planned as for package `pkg`, once Foundry was
/// found, given what exists on disk before it starts (`p`) and whether
/// `contracts/evm/foundry.toml` exists once the Foundry project is in place
/// (`foundry_toml`): its two stages, one after the other.
pub open spec fn evm_gen_plan(cli: Cli, pkg: Seq<char>, p: EvmGenProbes, foundry_toml: bool) -> Seq<StepModel> {
    evm_keccak_part(cli, pkg, p) + evm_foundry_part(cli, p, foundry_toml) + only_if(!cli.quiet, evm_gen_closing())
}

/// The first stage of `bargo evm gen`: the keccak proof and key, the
/// Foundry project and the Solidity verifier.
pub open spec fn evm_gen_start_plan(cli: Cli, pkg: Seq<char>, p: EvmGenProbes) -> Seq<StepModel> {
    evm_keccak_part(cli, pkg, p) + only_if(!p.foundry_root, evm_init_part(cli)) + evm_solidity_part(cli)
}

/// The second stage of `bargo evm gen`, given whether
/// `contracts/evm/foundry.toml` exists after the first: the configuration
/// when it is missing, the build and the closing lines.
pub open spec fn evm_gen_finish_plan(cli: Cli, foundry_toml: bool) -> Seq<StepModel> {
    only_if(!foundry_toml, evm_toml_part(cli)) + evm_build_part(cli) + only_if(!cli.quiet, evm_gen_closing())
}

/// The two stages make up the whole plan.
pub proof fn lemma_evm_gen_stages(cli: Cli, pkg: Seq<char>, p: EvmGenProbes, foundry_toml: bool)
    ensures
        evm_gen_plan(cli, pkg, p, foundry_toml) == evm_gen_start_plan(cli, pkg, p) + evm_gen_finish_plan(cli, foundry_toml),
{
    lemma_regroup(
        evm_keccak_part(cli, pkg, p),
        only_if(!p.foundry_root, evm_init_part(cli)),
        evm_solidity_part(cli),
        only_if(!foundry_toml, evm_toml_part(cli)),
        evm_build_part(cli),
        only_if(!cli.quiet, evm_gen_closing()),
    );
}

proof fn lemma_regroup(a: Seq<StepModel>, b: Seq<StepModel>, c: Seq<StepModel>, d: Seq<StepModel>, e: Seq<StepModel>, f: Seq<StepModel>)
    ensures
        a + (b + c + d + e) + f == (a + b + c) + (d + e + f),
{
    assert(a + (b + c + d + e) + f =~= (a + b + c) + (d + e + f));
}

/// Plan of the first stage of `bargo evm gen` for package `pkg_name`, once
/// Foundry was found, given what exists on disk (`probes`).
pub fn plan_evm_gen(cli: &Cli, pkg_name: &str, probes: EvmGenProbes) -> (res: Vec<Step>)
    ensures
        plan_view(res@) == evm_gen_start_plan(*cli, pkg_name@, probes),
{
    let mut plan = evm_keccak_steps(cli, pkg_name, probes);
    push_steps(&mut plan, keep_when(!probes.foundry_root, evm_init_steps(cli)));
    push_steps(&mut plan, evm_solidity_steps(cli));
    plan
}

/// Plan of the second stage of `bargo evm gen`, given whether
/// `contracts/evm/foundry.toml` exists after the first.
pub fn plan_evm_gen_finish(cli: &Cli, foundry_toml: bool) -> (res: Vec<Step>)
    ensures
        plan_view(res@) == evm_gen_finish_plan(*cli, foundry_toml),
{
    let mut plan = keep_when(!foundry_toml, evm_toml_steps(cli));
    push_steps(&mut plan, evm_build_steps(cli));
    let mut closing: Vec<Step> = Vec::new();
    push_step(&mut closing, Step::PrintSummary);
    push_step(&mut closing, say(""));
    push_step(&mut closing, say("🎯 Next steps:"));
    push_step(&mut closing, say("  1. Set up your .env file with RPC_URL and PRIVATE_KEY"));
    push_step(&mut closing, say("  2. Deploy contract: bargo evm deploy --network sepolia"));
    push_step(&mut closing, say("  3. Generate calldata: bargo evm calldata"));
    push_step(&mut closing, say("  4. Verify on-chain: bargo evm verify-onchain"));
    push_steps(&mut plan, keep_when(!cli.quiet, closing));
    assert(plan_view(plan@) =~= evm_gen_finish_plan(*cli, foundry_toml));
    plan
}

/// Checking that Foundry is installed.
pub open spec fn foundry_check() -> StepModel {
    StepModel::RequireTool("forge"@, crate::tools::foundry_missing_text())
}

/// Validate that Foundry tools are available: the step that checks it.
pub fn validate_foundry_installation() -> (res: Step)
    ensures
        res@ == foundry_check(),
{
    Step::RequireTool {
        program: String::from_str("forge"),
        missing: String::from_str("forge command not found. Please install Foundry:\n\n  curl -L https://foundry.paradigm.xyz | bash\n  foundryup"),
    }
}

/// What a command found when it read a file.
#[derive(Debug, PartialEq)]
pub enum FileState {
    /// There is no such file.
    Missing,
    /// The file exists but could not be read; the system's message.
    Unreadable(String),
    /// The file's contents.
    Read(String),
}

/// The model of a `FileState`.
pub ghost enum FileStateModel {
    Missing,
    Unreadable(Seq<char>),
    Read(Seq<char>),
}

impl View for FileState {
    type V = FileStateModel;

    open spec fn view(&self) -> FileStateModel {
        match self {
            FileState::Missing => FileStateModel::Missing,
            FileState::Unreadable(e) => FileStateModel::Unreadable(e@),
            FileState::Read(t) => FileStateModel::Read(t@),
        }
    }
}

fn fail_with(message: String, suggestions: &[&str]) -> (res: Step)
    ensures
        res@ == StepModel::Fail(smart_error_text(message@, str_views(suggestions@))),
{
    fail_step(message.as_str(), suggestions)
}

/// Running `program` with `args`, its output kept for the next stage.
pub fn run_captured(program: &str, args: Vec<String>, enhance: bool) -> (res: Step)
    ensures
        res@ == crate::cairo::captured(program@, views(args@), enhance),
{
    Step::Run { program: String::from_str(program), args: args, cwd: None, mode: crate::plan::RunMode::Captured, enhance: enhance }
}

/// What `bargo evm calldata` is planned as up to cast's run, once Foundry
/// was found, given what reading the proof fields and the public input
/// fields in `target/bb` gave.
pub open spec fn calldata_plan(cli: Cli, proof_fields: FileStateModel, input_fields: FileStateModel) -> Seq<StepModel> {
    if proof_fields is Missing {
        seq![
            StepModel::Fail(
                smart_error_text(
                    "Proof fields file not found"@,
                    seq![
                        "Run 'bargo evm gen' first to generate field-formatted proof"@,
                        "This command requires the proof in JSON field format"@,
                    ],
                ),
            ),
        ]
    } else if input_fields is Missing {
        seq![
            StepModel::Fail(
                smart_error_text(
                    "Public inputs fields file not found"@,
                    seq![
                        "Public inputs fields should be generated during proving"@,
                        "Run 'bargo evm gen' to regenerate with field format"@,
                    ],
                ),
            ),
        ]
    } else {
        only_if(!cli.quiet, seq![StepModel::Say("📝 Generating calldata for proof verification..."@)]) + match proof_fields {
            FileStateModel::Unreadable(e) => seq![
                StepModel::Fail(
                    smart_error_text(
                        "Failed to read proof fields file: "@ + e,
                        seq!["Check file permissions and try regenerating the proof"@],
                    ),
                ),
            ],
            FileStateModel::Read(pf) => match input_fields {
                FileStateModel::Unreadable(e) => seq![
                    StepModel::Fail(
                        smart_error_text(
                            "Failed to read public inputs fields file: "@ + e,
                            seq!["Check file permissions and try regenerating the proof"@],
                        ),
                    ),
                ],
                FileStateModel::Read(inf) => seq![
                    StepModel::StartTimer(0),
                    crate::cairo::captured("cast"@, seq!["calldata"@, "--format-json"@, pf, inf], true),
                ],
                FileStateModel::Missing => seq![],
            },
            FileStateModel::Missing => seq![],
        }
    }
}

/// Plan of `bargo evm calldata` up to cast's run, once Foundry was found.
pub fn plan_evm_calldata(cli: &Cli, proof_fields: &FileState, input_fields: &FileState) -> (res: Vec<Step>)
    ensures
        plan_view(res@) == calldata_plan(*cli, proof_fields@, input_fields@),
{
    let ghost goal = calldata_plan(*cli, proof_fields@, input_fields@);
    if let FileState::Missing = proof_fields {
        let hints = [
            "Run 'bargo evm gen' first to generate field-formatted proof",
            "This command requires the proof in JSON field format",
        ];
        let plan = single(fail_step("Proof fields file not found", &hints));
        assert(str_views(hints@) =~= seq![
            "Run 'bargo evm gen' first to generate field-formatted proof"@,
            "This command requires the proof in JSON field format"@,
        ]);
        assert(plan_view(plan@) =~= goal);
        return plan;
    }
    if let FileState::Missing = input_fields {
        let hints = [
            "Public inputs fields should be generated during proving",
            "Run 'bargo evm gen' to regenerate with field format",
        ];
        let plan = single(fail_step("Public inputs fields file not found", &hints));
        assert(str_views(hints@) =~= seq![
            "Public inputs fields should be generated during proving"@,
            "Run 'bargo evm gen' to regenerate with field format"@,
        ]);
        assert(plan_view(plan@) =~= goal);
        return plan;
    }
    let mut plan = keep_when(!cli.quiet, single(say("📝 Generating calldata for proof verification...")));
    let hints = ["Check file permissions and try regenerating the proof"];
    assert(str_views(hints@) =~= seq!["Check file permissions and try regenerating the proof"@]);
    match proof_fields {
        FileState::Unreadable(e) => {
            push_step(&mut plan, fail_with(crate::text::concat("Failed to read proof fields file: ", e.as_str()), &hints));
        },
        FileState::Read(pf) => match input_fields {
            FileState::Unreadable(e) => {
                push_step(
                    &mut plan,
                    fail_with(crate::text::concat("Failed to read public inputs fields file: ", e.as_str()), &hints),
                );
            },
            FileState::Read(inf) => {
                let items = ["calldata", "--format-json", pf.as_str(), inf.as_str()];
                let args = owned_all(&items);
                assert(str_views(items@) =~= seq!["calldata"@, "--format-json"@, pf@, inf@]);
                push_step(&mut plan, Step::StartTimer(0));
                push_step(&mut plan, run_captured("cast", args, true));
            },
            FileState::Missing => {},
        },
        FileState::Missing => {},
    }
    assert(plan_view(plan@) =~= goal);
    plan
}

/// The second stage of `bargo evm calldata`, given cast's output: it is
/// written to `target/bb/calldata` and reported unless quiet.
pub open spec fn calldata_finish_plan(cli: Cli, output: Seq<char>) -> Seq<StepModel> {
    seq![
        StepModel::MakeDir(
            "./target/bb"@,
            FailureModel::Smart("Failed to create target/bb directory"@, seq!["Check directory permissions"@]),
        ),
        StepModel::WriteFile(
            "./target/bb/calldata"@,
            output,
            FailureModel::Smart("Failed to write calldata file"@, seq!["Check directory permissions"@]),
        ),
    ] + only_if(
        !cli.quiet,
        seq![
            StepModel::Report("Calldata generated"@, "./target/bb/calldata"@, 0),
            StepModel::SummarizeSize("Calldata for proof verification ("@, "./target/bb/calldata"@, ")"@),
            StepModel::PrintSummary,
            StepModel::Say(""@),
            StepModel::Say("🎯 Next step:"@),
            StepModel::Say("  • Verify on-chain: bargo evm verify-onchain"@),
        ],
    )
}

/// Plan of the second stage of `bargo evm calldata`, given cast's output.
pub fn plan_evm_calldata_finish(cli: &Cli, output: &str) -> (res: Vec<Step>)
    ensures
        plan_view(res@) == calldata_finish_plan(*cli, output@),
{
    let mut plan = single(
        Step::MakeDir { path: String::from_str("./target/bb"), failure: check_hint_failure("Failed to create target/bb directory") },
    );
    push_step(
        &mut plan,
        Step::WriteFile {
            path: String::from_str("./target/bb/calldata"),
            contents: String::from_str(output),
            failure: check_hint_failure("Failed to write calldata file"),
        },
    );
    let mut done: Vec<Step> = Vec::new();
    push_step(
        &mut done,
        Step::Report { label: String::from_str("Calldata generated"), path: String::from_str("./target/bb/calldata"), timer: 0 },
    );
    push_step(
        &mut done,
        Step::SummarizeSize {
            before: String::from_str("Calldata for proof verification ("),
            path: String::from_str("./target/bb/calldata"),
            after: String::from_str(")"),
        },
    );
    push_step(&mut done, Step::PrintSummary);
    push_step(&mut done, say(""));
    push_step(&mut done, say("🎯 Next step:"));
    push_step(&mut done, say("  • Verify on-chain: bargo evm verify-onchain"));
    push_steps(&mut plan, keep_when(!cli.quiet, done));
    plan
}

/// The error when `RPC_URL` is not set.
pub open spec fn rpc_missing_text() -> Seq<char> {
    smart_error_text(
        "RPC_URL environment variable not found"@,
        seq![
            "Create a .env file in your project root"@,
            "Add: RPC_URL=https://your-rpc-endpoint.com"@,
            "For Sepolia: RPC_URL=https://eth-sepolia.g.alchemy.com/v2/your-key"@,
            "For Mainnet: RPC_URL=https://eth-mainnet.g.alchemy.com/v2/your-key"@,
        ],
    )
}

/// The error when `PRIVATE_KEY` is not set.
pub open spec fn key_missing_text() -> Seq<char> {
    smart_error_text(
        "PRIVATE_KEY environment variable not found"@,
        seq![
            "Add to your .env file: PRIVATE_KEY=0x..."@,
            "Make sure your private key starts with 0x"@,
            "Never commit your .env file to version control"@,
        ],
    )
}

fn rpc_missing() -> (res: Step)
    ensures
        res@ == StepModel::Fail(rpc_missing_text()),
{
    let hints = [
        "Create a .env file in your project root",
        "Add: RPC_URL=https://your-rpc-endpoint.com",
        "For Sepolia: RPC_URL=https://eth-sepolia.g.alchemy.com/v2/your-key",
        "For Mainnet: RPC_URL=https://eth-mainnet.g.alchemy.com/v2/your-key",
    ];
    let f = fail_step("RPC_URL environment variable not found", &hints);
    assert(str_views(hints@) =~= seq![
        "Create a .env file in your project root"@,
        "Add: RPC_URL=https://your-rpc-endpoint.com"@,
        "For Sepolia: RPC_URL=https://eth-sepolia.g.alchemy.com/v2/your-key"@,
        "For Mainnet: RPC_URL=https://eth-mainnet.g.alchemy.com/v2/your-key"@,
    ]);
    f
}

fn key_missing() -> (res: Step)
    ensures
        res@ == StepModel::Fail(key_missing_text()),
{
    let hints = [
        "Add to your .env file: PRIVATE_KEY=0x...",
        "Make sure your private key starts with 0x",
        "Never commit your .env file to version control",
    ];
    let f = fail_step("PRIVATE_KEY environment variable not found", &hints);
    assert(str_views(hints@) =~= seq![
        "Add to your .env file: PRIVATE_KEY=0x..."@,
        "Make sure your private key starts with 0x"@,
        "Never commit your .env file to version control"@,
    ]);
    f
}

/// Arguments of `forge create` for the verifier.
pub open spec fn forge_create_args(rpc: Seq<char>, key: Seq<char>) -> Seq<Seq<char>> {
    seq![
        "create"@,
        "--rpc-url"@,
        rpc,
        "--private-key"@,
        key,
        "--legacy"@,
        "--constructor-args"@,
        ""@,
        "--broadcast"@,
        "--verify"@,
        "--unlocked"@,
        "--build-info"@,
        "contracts/evm/out/Verifier.sol/Verifier.json"@,
    ]
}

/// The error when the Solidity verifier contract has not been generated.
pub open spec fn verifier_missing_text() -> Seq<char> {
    smart_error_text(
        "Verifier contract not found (contracts/evm/src/Verifier.sol)"@,
        seq![
            "Run 'bargo evm gen' first to generate the Solidity verifier"@,
            "Ensure the Foundry project was created successfully"@,
        ],
    )
}

/// What `bargo evm deploy` is planned as up to forge's run, given the
/// settings found in the environment and whether the Solidity verifier
/// exists: the verifier contract is looked for first, then Foundry, then
/// the settings.
pub open spec fn evm_deploy_plan(cli: Cli, network: Seq<char>, rpc: Option<Seq<char>>, key: Option<Seq<char>>, verifier_exists: bool) -> Seq<StepModel> {
    if !verifier_exists {
        seq![StepModel::Fail(verifier_missing_text())]
    } else {
        seq![foundry_check()] + match rpc {
            None => seq![StepModel::Fail(rpc_missing_text())],
            Some(r) => match key {
                None => seq![StepModel::Fail(key_missing_text())],
                Some(k) => only_if(!cli.quiet, seq![StepModel::Say("🚀 Deploying verifier contract to "@ + network + "..."@)])
                    + note_if(cli.verbose, running("forge"@, forge_create_args(r, k))) + if cli.dry_run {
                    seq![StepModel::Say(would_run("forge"@, forge_create_args(r, k)))]
                } else {
                    seq![shown("forge"@, forge_create_args(r, k), true)]
                },
            },
        }
    }
}

fn forge_create_steps(cli: &Cli, network: &str, r: &str, k: &str) -> (res: Vec<Step>)
    ensures
        plan_view(res@) == only_if(!cli.quiet, seq![StepModel::Say("🚀 Deploying verifier contract to "@ + network@ + "..."@)])
            + note_if(cli.verbose, running("forge"@, forge_create_args(r@, k@))) + if cli.dry_run {
            seq![StepModel::Say(would_run("forge"@, forge_create_args(r@, k@)))]
        } else {
            seq![shown("forge"@, forge_create_args(r@, k@), true)]
        },
{
    let mut line = crate::text::concat("🚀 Deploying verifier contract to ", network);
    line.append("...");
    let mut plan = keep_when(!cli.quiet, single(Step::Say(line)));
    let items = [
        "create",
        "--rpc-url",
        r,
        "--private-key",
        k,
        "--legacy",
        "--constructor-args",
        "",
        "--broadcast",
        "--verify",
        "--unlocked",
        "--build-info",
        "contracts/evm/out/Verifier.sol/Verifier.json",
    ];
    let args = owned_all(&items);
    assert(str_views(items@) =~= forge_create_args(r@, k@));
    push_steps(&mut plan, note_when(cli.verbose, command_line("Running: ", "forge", &args)));
    if cli.dry_run {
        push_step(&mut plan, Step::Say(command_line("Would run: ", "forge", &args)));
    } else {
        push_step(&mut plan, run_shown("forge", args, true));
    }
    plan
}

/// Plan of `bargo evm deploy` up to forge's run.
pub fn plan_evm_deploy(cli: &Cli, network: &str, rpc: Option<&str>, key: Option<&str>, verifier_exists: bool) -> (res: Vec<Step>)
    ensures
        plan_view(res@) == evm_deploy_plan(
            *cli,
            network@,
            match rpc {
                Some(r) => Some(r@),
                None => None,
            },
            match key {
                Some(k) => Some(k@),
                None => None,
            },
            verifier_exists,
        ),
{
    let ghost gr = match rpc {
        Some(r) => Some(r@),
        None => None::<Seq<char>>,
    };
    let ghost gk = match key {
        Some(k) => Some(k@),
        None => None::<Seq<char>>,
    };
    let ghost goal = evm_deploy_plan(*cli, network@, gr, gk, verifier_exists);
    if !verifier_exists {
        let hints = [
            "Run 'bargo evm gen' first to generate the Solidity verifier",
            "Ensure the Foundry project was created successfully",
        ];
        let plan = single(fail_step("Verifier contract not found (contracts/evm/src/Verifier.sol)", &hints));
        assert(str_views(hints@) =~= seq![
            "Run 'bargo evm gen' first to generate the Solidity verifier"@,
            "Ensure the Foundry project was created successfully"@,
        ]);
        assert(plan_view(plan@) =~= goal);
        return plan;
    }
    let mut plan = single(validate_foundry_installation());
    let rest = match rpc {
        None => single(rpc_missing()),
        Some(r) => match key {
            None => single(key_missing()),
            Some(k) => forge_create_steps(cli, network, r, k),
        },
    };
    push_steps(&mut plan, rest);
    assert(plan_view(plan@) =~= goal);
    plan
}

/// What reading forge's deployment record gave.
pub enum DeployRecord {
    /// The record could not be read; the system's message.
    Unreadable(String),
    /// The record is not valid JSON; the parser's message.
    Invalid(String),
    /// The string at `returns.contract.address`, when there is one.
    Address(Option<String>),
}

/// The model of a `DeployRecord`.
pub ghost enum DeployRecordModel {
    Unreadable(Seq<char>),
    Invalid(Seq<char>),
    Address(Option<Seq<char>>),
}

impl View for DeployRecord {
    type V = DeployRecordModel;

    open spec fn view(&self) -> DeployRecordModel {
        match self {
            DeployRecord::Unreadable(e) => DeployRecordModel::Unreadable(e@),
            DeployRecord::Invalid(e) => DeployRecordModel::Invalid(e@),
            DeployRecord::Address(a) => DeployRecordModel::Address(crate::plan::opt_view(*a)),
        }
    }
}

/// What parsing `text` as JSON gives at the keys `outer`, `middle`,
/// `inner`: the parser's message when it is not JSON, otherwise the string
/// found there, if there is one. A name for what `json_string_at` returns.
pub uninterp spec fn json_string_in(text: Seq<char>, outer: Seq<char>, middle: Seq<char>, inner: Seq<char>) -> Result<Option<Seq<char>>, Seq<char>>;

/// The view of a parse result.
pub open spec fn parse_view(r: Result<Option<String>, String>) -> Result<Option<Seq<char>>, Seq<char>> {
    match r {
        Ok(a) => Ok(crate::plan::opt_view(a)),
        Err(e) => Err(e@),
    }
}

/// Calls `serde_json::from_str` to parse `text` as a JSON value, then
/// indexes it with `outer`, `middle` and `inner` (`Value`'s index gives
/// `Null` where a key is missing) and takes the string there
/// (`Value::as_str`). A parse error gives the parser's message. What it
/// returns is named (`json_string_in`), not stated.
#[verifier::external_body]
fn json_string_at(text: &str, outer: &str, middle: &str, inner: &str) -> (res: Result<Option<String>, String>)
    ensures
        parse_view(res) == json_string_in(text@, outer@, middle@, inner@),
{
    match serde_json::from_str::<serde_json::Value>(text) {
        Err(e) => Err(e.to_string()),
        Ok(v) => match v[outer][middle][inner].as_str() {
            Some(a) => Ok(Some(a.to_string())),
            None => Ok(None),
        },
    }
}

/// The record that a parse result of forge's deployment record makes.
pub open spec fn deploy_record_of(parsed: Result<Option<Seq<char>>, Seq<char>>) -> DeployRecordModel {
    match parsed {
        Ok(a) => DeployRecordModel::Address(a),
        Err(e) => DeployRecordModel::Invalid(e),
    }
}

/// What reading forge's deployment record gave, from what reading its
/// file gave: the system's message when it could not be read, otherwise
/// the parser's message, or the string at `returns.contract.address`.
pub fn read_deploy_record(contents: Result<String, String>) -> (res: DeployRecord)
    ensures
        match contents {
            Err(e) => res@ == DeployRecordModel::Unreadable(e@),
            Ok(t) => res@ == deploy_record_of(json_string_in(t@, "returns"@, "contract"@, "address"@)),
        },
{
    match contents {
        Err(e) => DeployRecord::Unreadable(e),
        Ok(t) => deploy_record_from(json_string_at(t.as_str(), "returns", "contract", "address")),
    }
}

/// The record that parsing forge's deployment record gave: the parser's
/// message, or the contract address when the record holds one.
pub fn deploy_record_from(parsed: Result<Option<String>, String>) -> (res: DeployRecord)
    ensures
        res@ == deploy_record_of(parse_view(parsed)),
{
    match parsed {
        Err(e) => DeployRecord::Invalid(e),
        Ok(a) => DeployRecord::Address(a),
    }
}

/// The second stage of `bargo evm deploy`, given what reading forge's
/// deployment record gave: the contract address (empty when the record
/// has none) is saved to `target/bb/.bargo_contract_address`.
pub open spec fn evm_deploy_finish_plan(cli: Cli, record: DeployRecordModel) -> Seq<StepModel> {
    match record {
        DeployRecordModel::Unreadable(e) => seq![
            StepModel::Fail(
                smart_error_text("Failed to read deployment output: "@ + e, seq!["Check that the deployment succeeded"@]),
            ),
        ],
        DeployRecordModel::Invalid(e) => seq![StepModel::Fail(e)],
        DeployRecordModel::Address(a) => seq![
            StepModel::WriteFile(
                "./target/bb/.bargo_contract_address"@,
                match a {
                    Some(x) => x,
                    None => seq![],
                },
                FailureModel::Smart("Failed to save contract address"@, seq!["Check directory permissions"@]),
            ),
        ] + only_if(
            !cli.quiet,
            seq![
                StepModel::PrintSummary,
                StepModel::Say(""@),
                StepModel::Say("🎯 Next steps:"@),
                StepModel::Say("  1. Generate calldata: bargo evm calldata"@),
                StepModel::Say("  2. Verify proof on-chain: bargo evm verify-onchain"@),
            ],
        ),
    }
}

/// Plan of the second stage of `bargo evm deploy`.
pub fn plan_evm_deploy_finish(cli: &Cli, record: &DeployRecord) -> (res: Vec<Step>)
    ensures
        plan_view(res@) == evm_deploy_finish_plan(*cli, record@),
{
    let plan = match record {
        DeployRecord::Unreadable(e) => {
            let hints = ["Check that the deployment succeeded"];
            let f = fail_with(crate::text::concat("Failed to read deployment output: ", e.as_str()), &hints);
            assert(str_views(hints@) =~= seq!["Check that the deployment succeeded"@]);
            single(f)
        },
        DeployRecord::Invalid(e) => single(Step::Fail(e.clone())),
        DeployRecord::Address(a) => {
            let contents = match a {
                Some(x) => x.clone(),
                None => String::new(),
            };
            let mut plan = single(
                Step::WriteFile {
                    path: String::from_str("./target/bb/.bargo_contract_address"),
                    contents: contents,
                    failure: check_hint_failure("Failed to save contract address"),
                },
            );
            let mut done: Vec<Step> = Vec::new();
            push_step(&mut done, Step::PrintSummary);
            push_step(&mut done, say(""));
            push_step(&mut done, say("🎯 Next steps:"));
            push_step(&mut done, say("  1. Generate calldata: bargo evm calldata"));
            push_step(&mut done, say("  2. Verify proof on-chain: bargo evm verify-onchain"));
            push_steps(&mut plan, keep_when(!cli.quiet, done));
            plan
        },
    };
    assert(plan_view(plan@) =~= evm_deploy_finish_plan(*cli, record@));
    plan
}


/// Arguments of `cast send` calling the verifier at `address` with `calldata`.
pub open spec fn cast_send_args(address: Seq<char>, calldata: Seq<char>, rpc: Seq<char>, key: Seq<char>) -> Seq<Seq<char>> {
    seq![
        "send"@,
        address,
        "verify(bytes,bytes32[])"@,
        calldata,
        "--rpc-url"@,
        rpc,
        "--private-key"@,
        key,
    ]
}

/// What `bargo evm verify-onchain` is planned as up to cast's run, once
/// Foundry was found, given the settings found in the environment and what
/// reading the saved contract address and calldata in `target/bb` gave;
/// both are used trimmed.
pub open spec fn evm_verify_onchain_plan(
    cli: Cli,
    rpc: Option<Seq<char>>,
    key: Option<Seq<char>>,
    address: FileStateModel,
    calldata: FileStateModel,
) -> Seq<StepModel> {
    match rpc {
        None => seq![StepModel::Fail(rpc_missing_text())],
        Some(r) => match key {
            None => seq![StepModel::Fail(key_missing_text())],
            Some(k) => match address {
                FileStateModel::Missing => seq![
                    StepModel::Fail(
                        smart_error_text(
                            "Contract address not found"@,
                            seq![
                                "Run 'bargo evm deploy' first to deploy the verifier contract"@,
                                "Ensure the deployment was successful"@,
                            ],
                        ),
                    ),
                ],
                FileStateModel::Unreadable(e) => seq![
                    StepModel::Fail(
                        smart_error_text(
                            "Failed to read contract address: "@ + e,
                            seq!["Check file permissions and try redeploying"@],
                        ),
                    ),
                ],
                FileStateModel::Read(a) => match calldata {
                    FileStateModel::Missing => seq![
                        StepModel::Fail(
                            smart_error_text(
                                "Calldata not found"@,
                                seq![
                                    "Run 'bargo evm calldata' first to generate calldata"@,
                                    "Ensure the proof and public inputs exist"@,
                                ],
                            ),
                        ),
                    ],
                    FileStateModel::Unreadable(e) => seq![
                        StepModel::Fail(
                            smart_error_text(
                                "Failed to read calldata: "@ + e,
                                seq!["Check file permissions and try regenerating calldata"@],
                            ),
                        ),
                    ],
                    FileStateModel::Read(c) => {
                        let args = cast_send_args(crate::scan::trim(a), crate::scan::trim(c), r, k);
                        only_if(
                            !cli.quiet,
                            seq![
                                StepModel::Say("🚀 Verifying proof on-chain..."@),
                                StepModel::Say("📍 Contract: "@ + crate::scan::trim(a)),
                            ],
                        ) + note_if(cli.verbose, running("cast"@, args)) + if cli.dry_run {
                            seq![StepModel::Say(would_run("cast"@, args))]
                        } else {
                            seq![StepModel::StartTimer(0), crate::cairo::captured("cast"@, args, true)]
                        }
                    },
                },
            },
        },
    }
}

fn verify_onchain_steps(cli: &Cli, address: &str, calldata: &str, rpc: &str, key: &str) -> (res: Vec<Step>)
    ensures
        plan_view(res@) == ({
            let args = cast_send_args(crate::scan::trim(address@), crate::scan::trim(calldata@), rpc@, key@);
            only_if(
                !cli.quiet,
                seq![
                    StepModel::Say("🚀 Verifying proof on-chain..."@),
                    StepModel::Say("📍 Contract: "@ + crate::scan::trim(address@)),
                ],
            ) + note_if(cli.verbose, running("cast"@, args)) + if cli.dry_run {
                seq![StepModel::Say(would_run("cast"@, args))]
            } else {
                seq![StepModel::StartTimer(0), crate::cairo::captured("cast"@, args, true)]
            }
        }),
{
    let a = crate::scan::trim_str(address);
    let c = crate::scan::trim_str(calldata);
    let mut intro: Vec<Step> = Vec::new();
    push_step(&mut intro, say("🚀 Verifying proof on-chain..."));
    push_step(&mut intro, Step::Say(crate::text::concat("📍 Contract: ", a.as_str())));
    let mut plan = keep_when(!cli.quiet, intro);
    let items = ["send", a.as_str(), "verify(bytes,bytes32[])", c.as_str(), "--rpc-url", rpc, "--private-key", key];
    let args = owned_all(&items);
    assert(str_views(items@) =~= cast_send_args(a@, c@, rpc@, key@));
    push_steps(&mut plan, note_when(cli.verbose, command_line("Running: ", "cast", &args)));
    if cli.dry_run {
        push_step(&mut plan, Step::Say(command_line("Would run: ", "cast", &args)));
    } else {
        push_step(&mut plan, Step::StartTimer(0));
        push_step(&mut plan, run_captured("cast", args, true));
    }
    plan
}

/// Plan of `bargo evm verify-onchain` up to cast's run, once Foundry was found.
pub fn plan_evm_verify_onchain(cli: &Cli, rpc: Option<&str>, key: Option<&str>, address: &FileState, calldata: &FileState) -> (res: Vec<Step>)
    ensures
        plan_view(res@) == evm_verify_onchain_plan(
            *cli,
            match rpc {
                Some(r) => Some(r@),
                None => None,
            },
            match key {
                Some(k) => Some(k@),
                None => None,
            },
            address@,
            calldata@,
        ),
{
    let ghost gr = match rpc {
        Some(r) => Some(r@),
        None => None::<Seq<char>>,
    };
    let ghost gk = match key {
        Some(k) => Some(k@),
        None => None::<Seq<char>>,
    };
    let ghost goal = evm_verify_onchain_plan(*cli, gr, gk, address@, calldata@);
    let plan = match rpc {
        None => single(rpc_missing()),
        Some(r) => match key {
            None => single(key_missing()),
            Some(k) => match address {
                FileState::Missing => {
                    let hints = [
                        "Run 'bargo evm deploy' first to deploy the verifier contract",
                        "Ensure the deployment was successful",
                    ];
                    assert(str_views(hints@) =~= seq![
                        "Run 'bargo evm deploy' first to deploy the verifier contract"@,
                        "Ensure the deployment was successful"@,
                    ]);
                    single(fail_step("Contract address not found", &hints))
                },
                FileState::Unreadable(e) => {
                    let hints = ["Check file permissions and try redeploying"];
                    assert(str_views(hints@) =~= seq!["Check file permissions and try redeploying"@]);
                    single(fail_with(crate::text::concat("Failed to read contract address: ", e.as_str()), &hints))
                },
                FileState::Read(a) => match calldata {
                    FileState::Missing => {
                        let hints = [
                            "Run 'bargo evm calldata' first to generate calldata",
                            "Ensure the proof and public inputs exist",
                        ];
                        assert(str_views(hints@) =~= seq![
                            "Run 'bargo evm calldata' first to generate calldata"@,
                            "Ensure the proof and public inputs exist"@,
                        ]);
                        single(fail_step("Calldata not found", &hints))
                    },
                    FileState::Unreadable(e) => {
                        let hints = ["Check file permissions and try regenerating calldata"];
                        assert(str_views(hints@) =~= seq!["Check file permissions and try regenerating calldata"@]);
                        single(fail_with(crate::text::concat("Failed to read calldata: ", e.as_str()), &hints))
                    },
                    FileState::Read(c) => verify_onchain_steps(cli, a.as_str(), c.as_str(), r, k),
                },
            },
        },
    };
    assert(plan_view(plan@) =~= goal);
    plan
}

/// The link to a transaction on Etherscan: on Sepolia when the RPC URL
/// mentions it, on mainnet otherwise.
pub open spec fn etherscan_line(rpc: Seq<char>, tx: Seq<char>) -> Seq<char> {
    if crate::text::contains(rpc, "sepolia"@) {
        "🔗 View on Etherscan: https://sepolia.etherscan.io/tx/"@ + tx
    } else {
        "🔗 View on Etherscan: https://etherscan.io/tx/"@ + tx
    }
}

/// The second stage of `bargo evm verify-onchain`, given the RPC URL and
/// cast's output: the transaction hash found in it is reported with its
/// Etherscan link; without one the command stops.
pub open spec fn evm_verify_onchain_finish_plan(cli: Cli, rpc: Seq<char>, output: Seq<char>) -> Seq<StepModel> {
    match crate::scan::tx_hash_in(output) {
        None => seq![
            StepModel::Fail(
                smart_error_text(
                    "Failed to parse transaction hash from cast output"@,
                    seq![
                        "Check that the transaction was successful"@,
                        "Verify your RPC_URL and PRIVATE_KEY are correct"@,
                        "Ensure you have sufficient funds for gas"@,
                        "Check that the contract address is correct"@,
                    ],
                ),
            ),
        ],
        Some(tx) => only_if(
            !cli.quiet,
            seq![
                StepModel::ReportElapsed("Proof verified on-chain successfully ("@, 0, ")"@),
                StepModel::Say("📋 Transaction hash: "@ + tx),
                StepModel::Say(etherscan_line(rpc, tx)),
                StepModel::Summarize("Proof verified on-chain (tx: "@ + tx + ")"@),
                StepModel::PrintSummary,
            ],
        ),
    }
}

/// Plan of the second stage of `bargo evm verify-onchain`.
pub fn plan_evm_verify_onchain_finish(cli: &Cli, rpc: &str, output: &str) -> (res: Vec<Step>)
    ensures
        plan_view(res@) == evm_verify_onchain_finish_plan(*cli, rpc@, output@),
{
    let plan = match crate::scan::extract_tx_hash(output) {
        None => {
            let hints = [
                "Check that the transaction was successful",
                "Verify your RPC_URL and PRIVATE_KEY are correct",
                "Ensure you have sufficient funds for gas",
                "Check that the contract address is correct",
            ];
            assert(str_views(hints@) =~= seq![
                "Check that the transaction was successful"@,
                "Verify your RPC_URL and PRIVATE_KEY are correct"@,
                "Ensure you have sufficient funds for gas"@,
                "Check that the contract address is correct"@,
            ]);
            single(fail_step("Failed to parse transaction hash from cast output", &hints))
        },
        Some(tx) => {
            let link = if crate::text::str_contains(rpc, "sepolia") {
                crate::text::concat("🔗 View on Etherscan: https://sepolia.etherscan.io/tx/", tx.as_str())
            } else {
                crate::text::concat("🔗 View on Etherscan: https://etherscan.io/tx/", tx.as_str())
            };
            let mut op = crate::text::concat("Proof verified on-chain (tx: ", tx.as_str());
            op.append(")");
            let mut done: Vec<Step> = Vec::new();
            push_step(
                &mut done,
                Step::ReportElapsed {
                    before: String::from_str("Proof verified on-chain successfully ("),
                    timer: 0,
                    after: String::from_str(")"),
                },
            );
            push_step(&mut done, Step::Say(crate::text::concat("📋 Transaction hash: ", tx.as_str())));
            push_step(&mut done, Step::Say(link));
            push_step(&mut done, Step::Summarize(op));
            push_step(&mut done, Step::PrintSummary);
            keep_when(!cli.quiet, done)
        },
    };
    assert(plan_view(plan@) =~= evm_verify_onchain_finish_plan(*cli, rpc@, output@));
    plan
}


/// Arguments of `bb prove` for an EVM proof in `target/evm`.
pub open spec fn evm_prove_args(pkg: Seq<char>) -> Seq<Seq<char>> {
    seq![
        "prove"@,
        "-b"@,
        bytecode_path(pkg, Flavour::Bb),
        "-w"@,
        witness_path(pkg, Flavour::Bb),
        "-o"@,
        "./target/evm/"@,
        "--oracle_hash"@,
        "keccak"@,
        "--output_format"@,
        "bytes_and_fields"@,
    ]
}

/// Arguments of `bb write_vk` for an EVM verification key in `target/evm`.
pub open spec fn evm_vk_args(pkg: Seq<char>) -> Seq<Seq<char>> {
    seq!["write_vk"@, "--oracle_hash"@, "keccak"@, "-b"@, bytecode_path(pkg, Flavour::Bb), "-o"@, "./target/evm/"@]
}

/// Arguments of `bb verify` for the EVM artifacts.
pub open spec fn evm_verify_args() -> Seq<Seq<char>> {
    seq![
        "verify"@,
        "-p"@,
        proof_path(Flavour::Evm),
        "-k"@,
        vk_path(Flavour::Evm),
        "-i"@,
        crate::paths::public_inputs_path(Flavour::Evm),
        "--oracle_hash"@,
        "keccak"@,
    ]
}

fn evm_prove_arg_list(pkg: &str) -> (res: Vec<String>)
    ensures
        views(res@) == evm_prove_args(pkg@),
{
    let bc = get_bytecode_path(pkg, Flavour::Bb);
    let wt = get_witness_path(pkg, Flavour::Bb);
    let items = [
        "prove",
        "-b",
        bc.as_str(),
        "-w",
        wt.as_str(),
        "-o",
        "./target/evm/",
        "--oracle_hash",
        "keccak",
        "--output_format",
        "bytes_and_fields",
    ];
    let args = owned_all(&items);
    assert(str_views(items@) =~= evm_prove_args(pkg@));
    args
}

fn evm_vk_arg_list(pkg: &str) -> (res: Vec<String>)
    ensures
        views(res@) == evm_vk_args(pkg@),
{
    let bc = get_bytecode_path(pkg, Flavour::Bb);
    let items = ["write_vk", "--oracle_hash", "keccak", "-b", bc.as_str(), "-o", "./target/evm/"];
    let args = owned_all(&items);
    assert(str_views(items@) =~= evm_vk_args(pkg@));
    args
}

/// Generate an EVM-compatible proof using bb with the keccak oracle hash:
/// the run that does it.
pub fn generate_evm_proof(pkg: &str) -> (res: Step)
    ensures
        res@ == shown("bb"@, evm_prove_args(pkg@), false),
{
    run_shown("bb", evm_prove_arg_list(pkg), false)
}

/// Generate an EVM-compatible verification key using bb: the run that does it.
pub fn generate_evm_vk(pkg: &str) -> (res: Step)
    ensures
        res@ == shown("bb"@, evm_vk_args(pkg@), false),
{
    run_shown("bb", evm_vk_arg_list(pkg), false)
}

/// Verify an EVM proof using bb: the run that does it (the package is not used).
pub fn verify_evm_proof(_pkg: &str) -> (res: Step)
    ensures
        res@ == shown("bb"@, evm_verify_args(), false),
{
    let proof = crate::paths::get_proof_path(Flavour::Evm);
    let vk = get_vk_path(Flavour::Evm);
    let inputs = crate::paths::get_public_inputs_path(Flavour::Evm);
    let items = ["verify", "-p", proof.as_str(), "-k", vk.as_str(), "-i", inputs.as_str(), "--oracle_hash", "keccak"];
    let args = owned_all(&items);
    assert(str_views(items@) =~= evm_verify_args());
    run_shown("bb", args, false)
}

/// Generate both EVM proof and verification key: the runs that do it.
pub fn generate_evm_proof_and_vk(pkg: &str) -> (res: Vec<Step>)
    ensures
        plan_view(res@) == seq![shown("bb"@, evm_prove_args(pkg@), false), shown("bb"@, evm_vk_args(pkg@), false)],
{
    let mut plan = single(generate_evm_proof(pkg));
    push_step(&mut plan, generate_evm_vk(pkg));
    plan
}

/// Write a Solidity verifier contract from `vk_path` to `output_path`
/// using bb: the run that does it.
pub fn write_solidity_verifier(vk_path: &str, output_path: &str) -> (res: Step)
    ensures
        res@ == shown("bb"@, solidity_args(vk_path@, output_path@), false),
{
    let items = ["write_solidity_verifier", "-k", vk_path, "-o", output_path];
    let args = owned_all(&items);
    assert(str_views(items@) =~= solidity_args(vk_path@, output_path@));
    run_shown("bb", args, false)
}

/// Write a Solidity verifier contract from the EVM verification key.
pub fn write_solidity_verifier_from_evm_vk(output_path: &str) -> (res: Step)
    ensures
        res@ == shown("bb"@, solidity_args(vk_path(Flavour::Evm), output_path@), false),
{
    let vk = get_vk_path(Flavour::Evm);
    write_solidity_verifier(vk.as_str(), output_path)
}

/// Validate that the EVM artifacts exist: the check that does it.
pub fn validate_evm_artifacts() -> (res: Step)
    ensures
        res@ == StepModel::RequireFiles(crate::proving::proof_artifacts(Flavour::Evm), false),
{
    Step::RequireFiles { files: crate::proving::proof_artifact_list(Flavour::Evm), enhance: false }
}

/// Generate a keccak proof into `target/evm`, creating it first: the steps
/// that do it.
pub fn generate_keccak_proof(pkg: &str) -> (res: Vec<Step>)
    ensures
        plan_view(res@) == seq![
            StepModel::MakeDir("./target/evm"@, FailureModel::Plain),
            shown("bb"@, evm_prove_args(pkg@), false),
        ],
{
    let mut plan = single(Step::MakeDir { path: String::from_str("./target/evm"), failure: Failure::Plain });
    push_step(&mut plan, generate_evm_proof(pkg));
    plan
}

/// Generate a keccak verification key into `target/evm`: the run that does it.
pub fn generate_keccak_vk(pkg: &str) -> (res: Step)
    ensures
        res@ == shown("bb"@, evm_vk_args(pkg@), false),
{
    generate_evm_vk(pkg)
}

/// Write the Solidity verifier contract `out` from `vk`: the run that does it.
pub fn write_verifier_contract(vk: &str, out: &str) -> (res: Step)
    ensures
        res@ == shown("bb"@, solidity_args(vk@, out@), false),
{
    write_solidity_verifier(vk, out)
}

/// Initialize a Foundry project at `project_path`: the run of forge that does it.
pub fn init_foundry_project(project_path: &str) -> (res: Step)
    ensures
        res@ == shown("forge"@, seq!["init"@, "--force"@, project_path@], false),
{
    let items = ["init", "--force", project_path];
    let args = owned_all(&items);
    assert(str_views(items@) =~= seq!["init"@, "--force"@, project_path@]);
    run_shown("forge", args, false)
}

/// Initialize the Foundry project at `contracts/evm`.
pub fn init_default_foundry_project() -> (res: Step)
    ensures
        res@ == shown("forge"@, seq!["init"@, "--force"@, "contracts/evm"@], false),
{
    init_foundry_project("contracts/evm")
}

/// Arguments of `forge create` for a contract, with constructor arguments
/// after `--constructor-args` when there are some.
pub open spec fn create_args(contract: Seq<char>, rpc: Seq<char>, key: Seq<char>, ctor: Option<Seq<Seq<char>>>) -> Seq<Seq<char>> {
    seq!["create"@, contract, "--rpc-url"@, rpc, "--private-key"@, key] + match ctor {
        Some(c) => seq!["--constructor-args"@] + c,
        None => seq![],
    }
}

/// Deploy a contract using Foundry: the run of `forge create` whose output
/// `deployed_address` reads.
pub fn deploy_contract(
    contract_path: &str,
    _contract_name: &str,
    rpc_url: &str,
    private_key: &str,
    constructor_args: Option<&[&str]>,
) -> (res: Step)
    ensures
        res@ == crate::cairo::captured(
            "forge"@,
            create_args(
                contract_path@,
                rpc_url@,
                private_key@,
                match constructor_args {
                    Some(c) => Some(str_views(c@)),
                    None => None,
                },
            ),
            false,
        ),
{
    let items = ["create", contract_path, "--rpc-url", rpc_url, "--private-key", private_key];
    let mut args = owned_all(&items);
    assert(str_views(items@) =~= seq!["create"@, contract_path@, "--rpc-url"@, rpc_url@, "--private-key"@, private_key@]);
    let ghost head = views(args@);
    match constructor_args {
        Some(c) => {
            crate::workflow::push_arg(&mut args, "--constructor-args");
            let mut more = owned_all(c);
            let ghost mid = views(args@);
            let ghost m = views(more@);
            args.append(&mut more);
            assert(views(args@) =~= mid + m);
            assert(views(args@) =~= head + (seq!["--constructor-args"@] + str_views(c@)));
        },
        None => {
            assert(views(args@) =~= head + Seq::<Seq<char>>::empty());
        },
    }
    run_captured("forge", args, false)
}

/// The address that `forge create` reports, or the error when its output
/// announces none.
pub fn deployed_address(stdout: &str) -> (res: Result<String, crate::errors::BargoError>)
    ensures
        match res {
            Ok(a) => crate::scan::deployed_address_in(stdout@) == Some(a@),
            Err(e) => crate::scan::deployed_address_in(stdout@) is None
                && e@ == "Could not parse contract address from forge output"@,
        },
{
    match crate::scan::extract_deployed_address(stdout) {
        Some(a) => Ok(a),
        None => Err(crate::errors::BargoError::new(String::from_str("Could not parse contract address from forge output"))),
    }
}

/// Deploy the default Verifier contract: the run of `forge create` that does it.
pub fn deploy_verifier_contract(rpc_url: &str, private_key: &str) -> (res: Step)
    ensures
        res@ == crate::cairo::captured(
            "forge"@,
            create_args("contracts/evm/src/Verifier.sol:Verifier"@, rpc_url@, private_key@, None),
            false,
        ),
{
    deploy_contract("contracts/evm/src/Verifier.sol:Verifier", "Verifier", rpc_url, private_key, None)
}

/// What the short `evm gen` is planned as for package `pkg`: a Foundry
/// project, a keccak proof and verification key in `target/evm`, and the
/// Solidity verifier; a dry run prints each command instead.
pub open spec fn quick_evm_gen_plan(cli: Cli, pkg: Seq<char>) -> Seq<StepModel> {
    note_if(cli.verbose, "Initializing Foundry project"@) + (if cli.dry_run {
        seq![StepModel::Say("Would run: forge init --force contracts/evm"@)]
    } else {
        seq![shown("forge"@, seq!["init"@, "--force"@, "contracts/evm"@], false)]
    }) + note_if(cli.verbose, "Generating keccak proof"@) + (if cli.dry_run {
        seq![
            StepModel::Say(
                "Would run: bb prove -b "@ + bytecode_path(pkg, Flavour::Bb) + " -w "@ + witness_path(pkg, Flavour::Bb)
                    + " -o ./target/evm/ --oracle_hash keccak --output_format bytes_and_fields"@,
            ),
        ]
    } else {
        seq![StepModel::MakeDir("./target/evm"@, FailureModel::Plain), shown("bb"@, evm_prove_args(pkg), false)]
    }) + note_if(cli.verbose, "Generating keccak VK"@) + (if cli.dry_run {
        seq![
            StepModel::Say(
                "Would run: bb write_vk --oracle_hash keccak -b "@ + bytecode_path(pkg, Flavour::Bb) + " -o ./target/evm/"@,
            ),
        ]
    } else {
        seq![shown("bb"@, evm_vk_args(pkg), false)]
    }) + (if cli.dry_run {
        seq![StepModel::Say("Would run: mkdir -p ./contracts/evm/src"@)]
    } else {
        seq![StepModel::MakeDir("./contracts/evm/src"@, FailureModel::Plain)]
    }) + note_if(cli.verbose, "Writing Solidity verifier"@) + if cli.dry_run {
        seq![
            StepModel::Say(
                "Would run: bb write_solidity_verifier -k "@ + vk_path(Flavour::Evm) + " -o contracts/evm/src/Verifier.sol"@,
            ),
        ]
    } else {
        seq![shown("bb"@, solidity_args(vk_path(Flavour::Evm), "contracts/evm/src/Verifier.sol"@), false)]
    }
}

/// Plan of the short `evm gen` for package `pkg_name`.
pub fn run_quick_evm_gen(cli: &Cli, pkg_name: &str) -> (res: Vec<Step>)
    ensures
        plan_view(res@) == quick_evm_gen_plan(*cli, pkg_name@),
{
    let bc = get_bytecode_path(pkg_name, Flavour::Bb);
    let wt = get_witness_path(pkg_name, Flavour::Bb);
    let vk = get_vk_path(Flavour::Evm);
    let mut plan = note_when(cli.verbose, String::from_str("Initializing Foundry project"));
    if cli.dry_run {
        push_step(&mut plan, say("Would run: forge init --force contracts/evm"));
    } else {
        push_step(&mut plan, init_foundry_project("contracts/evm"));
    }
    push_steps(&mut plan, note_when(cli.verbose, String::from_str("Generating keccak proof")));
    if cli.dry_run {
        let mut line = crate::text::concat("Would run: bb prove -b ", bc.as_str());
        line.append(" -w ");
        line.append(wt.as_str());
        line.append(" -o ./target/evm/ --oracle_hash keccak --output_format bytes_and_fields");
        push_step(&mut plan, Step::Say(line));
    } else {
        push_steps(&mut plan, generate_keccak_proof(pkg_name));
    }
    push_steps(&mut plan, note_when(cli.verbose, String::from_str("Generating keccak VK")));
    if cli.dry_run {
        let mut line = crate::text::concat("Would run: bb write_vk --oracle_hash keccak -b ", bc.as_str());
        line.append(" -o ./target/evm/");
        push_step(&mut plan, Step::Say(line));
    } else {
        push_step(&mut plan, generate_keccak_vk(pkg_name));
    }
    if cli.dry_run {
        push_step(&mut plan, say("Would run: mkdir -p ./contracts/evm/src"));
    } else {
        push_step(&mut plan, Step::MakeDir { path: String::from_str("./contracts/evm/src"), failure: Failure::Plain });
    }
    push_steps(&mut plan, note_when(cli.verbose, String::from_str("Writing Solidity verifier")));
    if cli.dry_run {
        let mut line = crate::text::concat("Would run: bb write_solidity_verifier -k ", vk.as_str());
        line.append(" -o contracts/evm/src/Verifier.sol");
        push_step(&mut plan, Step::Say(line));
    } else {
        push_step(&mut plan, write_verifier_contract(vk.as_str(), "contracts/evm/src/Verifier.sol"));
    }
    assert(plan_view(plan@) =~= quick_evm_gen_plan(*cli, pkg_name@));
    plan
}

} // verus!
