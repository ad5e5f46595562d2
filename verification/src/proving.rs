//! Proving with bb: the argument lists of bb's subcommands and the plans of
//! the commands that generate and verify proofs and verification keys.

use vstd::prelude::*;
use crate::cli::Cli;
use crate::paths::{
    bytecode_path, get_bytecode_path, get_proof_path, get_public_inputs_path, get_vk_path,
    get_witness_path, proof_path, public_inputs_path, target_dir, target_path, vk_path,
    witness_path, Flavour,
};
use crate::plan::{
    chatty, hushed, inert, lemma_hushed_add, lemma_inert_add, lemma_preview_not_chatty, lemma_strip_join, lemma_strip_tail,
    lemma_without_notes_add, lemma_without_notes_none, plan_view, push_step, push_steps, without_notes, Failure,
    FailureModel, RunMode, Step, StepModel,
};
use crate::text::{concat, owned_all, seq_join, str_views, views};
use crate::workflow::{
    command_line, keep_when, lemma_note_if_quiet, lemma_note_terse, note_if, note_when, only_if, running, shown, single,
    with_verbose, would_run,
};

verus! {

/// A failure reported as a smart error on a context, with suggestions.
pub fn smart_failure(context: &str, suggestions: &[&str]) -> (res: Failure)
    ensures
        res@ == FailureModel::Smart(context@, str_views(suggestions@)),
{
    Failure::Smart { context: String::from_str(context), suggestions: owned_all(suggestions) }
}

/// Running `program` with `args`, its output shown.
pub fn run_shown(program: &str, args: Vec<String>, enhance: bool) -> (res: Step)
    ensures
        res@ == shown(program@, views(args@), enhance),
{
    Step::Run { program: String::from_str(program), args: args, cwd: None, mode: RunMode::Shown, enhance: enhance }
}

/// The two suggestions given when a directory cannot be created.
pub open spec fn write_access_hints() -> Seq<Seq<char>> {
    seq!["Check directory permissions"@, "Ensure you have write access to the current directory"@]
}

fn write_access_failure(context: &str) -> (res: Failure)
    ensures
        res@ == FailureModel::Smart(context@, write_access_hints()),
{
    let hints = ["Check directory permissions", "Ensure you have write access to the current directory"];
    let f = smart_failure(context, &hints);
    assert(str_views(hints@) =~= write_access_hints());
    f
}

/// Creating `dir`, a failure reported with `context` and the write-access hints.
pub open spec fn make_dir(dir: Seq<char>, context: Seq<char>) -> StepModel {
    StepModel::MakeDir(dir, FailureModel::Smart(context, write_access_hints()))
}

fn make_dir_step(dir: &str, context: &str) -> (res: Step)
    ensures
        res@ == make_dir(dir@, context@),
{
    Step::MakeDir { path: String::from_str(dir), failure: write_access_failure(context) }
}

/// Arguments of `bb prove` with an oracle hash: the package's bytecode and
/// witness, the flavour's target directory with a trailing `/`, the oracle
/// hash, then the extra flags.
pub open spec fn oracle_proof_args(pkg: Seq<char>, flavour: Flavour, oracle: Seq<char>, extra: Seq<Seq<char>>) -> Seq<Seq<char>> {
    seq![
        "prove"@,
        "-b"@,
        bytecode_path(pkg, Flavour::Bb),
        "-w"@,
        witness_path(pkg, Flavour::Bb),
        "-o"@,
        target_path(flavour) + "/"@,
        "--oracle_hash"@,
        oracle,
    ] + extra
}

/// Arguments of `bb write_vk` with an oracle hash.
pub open spec fn oracle_vk_args(pkg: Seq<char>, flavour: Flavour, oracle: Seq<char>) -> Seq<Seq<char>> {
    seq![
        "write_vk"@,
        "--oracle_hash"@,
        oracle,
        "-b"@,
        bytecode_path(pkg, Flavour::Bb),
        "-o"@,
        target_path(flavour) + "/"@,
    ]
}

/// Arguments of `bb verify` on a flavour's artifacts.
pub open spec fn verify_args(flavour: Flavour) -> Seq<Seq<char>> {
    seq!["verify"@, "-k"@, vk_path(flavour), "-p"@, proof_path(flavour), "-i"@, public_inputs_path(flavour)]
}

fn oracle_proof_arg_list(pkg: &str, flavour: Flavour, oracle: &str, extra_flags: &[&str]) -> (res: Vec<String>)
    ensures
        views(res@) == oracle_proof_args(pkg@, flavour, oracle@, str_views(extra_flags@)),
{
    let bc = get_bytecode_path(pkg, Flavour::Bb);
    let wt = get_witness_path(pkg, Flavour::Bb);
    let dir = target_dir(flavour);
    let out = concat(dir.as_str(), "/");
    let items = ["prove", "-b", bc.as_str(), "-w", wt.as_str(), "-o", out.as_str(), "--oracle_hash", oracle];
    let mut args = owned_all(&items);
    let mut more = owned_all(extra_flags);
    let ghost a = views(args@);
    let ghost m = views(more@);
    args.append(&mut more);
    assert(views(args@) =~= a + m);
    assert(str_views(items@) =~= seq![
        "prove"@,
        "-b"@,
        bytecode_path(pkg@, Flavour::Bb),
        "-w"@,
        witness_path(pkg@, Flavour::Bb),
        "-o"@,
        target_path(flavour) + "/"@,
        "--oracle_hash"@,
        oracle@,
    ]);
    args
}

fn oracle_vk_arg_list(pkg: &str, flavour: Flavour, oracle: &str) -> (res: Vec<String>)
    ensures
        views(res@) == oracle_vk_args(pkg@, flavour, oracle@),
{
    let bc = get_bytecode_path(pkg, Flavour::Bb);
    let dir = target_dir(flavour);
    let out = concat(dir.as_str(), "/");
    let items = ["write_vk", "--oracle_hash", oracle, "-b", bc.as_str(), "-o", out.as_str()];
    let args = owned_all(&items);
    assert(str_views(items@) =~= oracle_vk_args(pkg@, flavour, oracle@));
    args
}

fn verify_arg_list(flavour: Flavour) -> (res: Vec<String>)
    ensures
        views(res@) == verify_args(flavour),
{
    let vk = get_vk_path(flavour);
    let proof = get_proof_path(flavour);
    let inputs = get_public_inputs_path(flavour);
    let items = ["verify", "-k", vk.as_str(), "-p", proof.as_str(), "-i", inputs.as_str()];
    let args = owned_all(&items);
    assert(str_views(items@) =~= verify_args(flavour));
    args
}

/// Generate proof with specific oracle hash and additional flags: the run
/// of bb that does it.
pub fn generate_proof_with_oracle(pkg: &str, flavour: Flavour, oracle: &str, extra_flags: &[&str]) -> (res: Step)
    ensures
        res@ == shown("bb"@, oracle_proof_args(pkg@, flavour, oracle@, str_views(extra_flags@)), false),
{
    run_shown("bb", oracle_proof_arg_list(pkg, flavour, oracle, extra_flags), false)
}

/// Generate verification key with specific oracle hash: the run of bb that
/// does it.
pub fn generate_vk_with_oracle(pkg: &str, flavour: Flavour, oracle: &str) -> (res: Step)
    ensures
        res@ == shown("bb"@, oracle_vk_args(pkg@, flavour, oracle@), false),
{
    run_shown("bb", oracle_vk_arg_list(pkg, flavour, oracle), false)
}

/// Verify proof using backend-specific artifacts: the run of bb that does it.
pub fn verify_proof_generic(flavour: Flavour) -> (res: Step)
    ensures
        res@ == shown("bb"@, verify_args(flavour), false),
{
    run_shown("bb", verify_arg_list(flavour), false)
}

/// Generating a proof, then a verification key, each announced in verbose mode.
pub open spec fn proof_and_vk_plan(pkg: Seq<char>, flavour: Flavour, oracle: Seq<char>, extra: Seq<Seq<char>>, verbose: bool) -> Seq<StepModel> {
    note_if(verbose, running("bb"@, oracle_proof_args(pkg, flavour, oracle, extra)))
        + seq![shown("bb"@, oracle_proof_args(pkg, flavour, oracle, extra), false)]
        + note_if(verbose, running("bb"@, oracle_vk_args(pkg, flavour, oracle)))
        + seq![shown("bb"@, oracle_vk_args(pkg, flavour, oracle), false)]
}

/// Generate proof and VK for a backend in one operation: the steps that do it.
pub fn generate_proof_and_vk(pkg: &str, flavour: Flavour, oracle: &str, extra_proof_flags: &[&str], verbose: bool) -> (res: Vec<Step>)
    ensures
        plan_view(res@) == proof_and_vk_plan(pkg@, flavour, oracle@, str_views(extra_proof_flags@), verbose),
{
    let proof_args = oracle_proof_arg_list(pkg, flavour, oracle, extra_proof_flags);
    let mut plan = note_when(verbose, command_line("Running: ", "bb", &proof_args));
    push_step(&mut plan, run_shown("bb", proof_args, false));
    let vk_args = oracle_vk_arg_list(pkg, flavour, oracle);
    push_steps(&mut plan, note_when(verbose, command_line("Running: ", "bb", &vk_args)));
    push_step(&mut plan, run_shown("bb", vk_args, false));
    plan
}

/// Arguments of `bb prove` as `bargo prove` runs it.
pub open spec fn bb_prove_args(pkg: Seq<char>) -> Seq<Seq<char>> {
    seq!["prove"@, "-b"@, bytecode_path(pkg, Flavour::Bb), "-w"@, witness_path(pkg, Flavour::Bb), "-o"@, "./target/bb/"@]
}

/// Arguments of `bb write_vk` as `bargo prove` runs it.
pub open spec fn bb_vk_args(pkg: Seq<char>) -> Seq<Seq<char>> {
    seq!["write_vk"@, "-b"@, bytecode_path(pkg, Flavour::Bb), "-o"@, "./target/bb/"@]
}

/// The files that proving needs: the package's bytecode and witness.
pub open spec fn build_outputs(pkg: Seq<char>) -> Seq<Seq<char>> {
    seq![bytecode_path(pkg, Flavour::Bb), witness_path(pkg, Flavour::Bb)]
}

/// The artifacts that verifying needs in a flavour's directory.
pub open spec fn proof_artifacts(flavour: Flavour) -> Seq<Seq<char>> {
    seq![proof_path(flavour), vk_path(flavour), public_inputs_path(flavour)]
}

/// The part of `bargo prove` that verifies the new proof.
pub open spec fn prove_verify_tail(cli: Cli) -> Seq<StepModel> {
    note_if(cli.verbose, running("bb"@, verify_args(Flavour::Bb)))
        + seq![StepModel::StartTimer(2), shown("bb"@, verify_args(Flavour::Bb), true)]
        + only_if(
        !cli.quiet,
        seq![
            StepModel::ReportElapsed("Proof verified successfully ("@, 2, ")"@),
            StepModel::Summarize("Proof verification completed"@),
        ],
    )
}

/// What `bargo prove` is planned as for package `pkg`: the inputs are
/// checked (outside dry runs), then bb writes the proof and the
/// verification key into `target/bb` and, unless `skip_verify`, verifies
/// the proof; each is reported unless quiet.
pub open spec fn prove_plan(cli: Cli, pkg: Seq<char>, skip_verify: bool) -> Seq<StepModel> {
    only_if(!cli.dry_run, seq![StepModel::RequireFiles(build_outputs(pkg), true)])
        + note_if(cli.verbose, running("bb"@, bb_prove_args(pkg)))
        + if cli.dry_run {
        seq![StepModel::Say(would_run("bb"@, bb_prove_args(pkg)))] + only_if(
            !skip_verify,
            seq![
                StepModel::Say(would_run("bb"@, bb_vk_args(pkg))),
                StepModel::Say("Would run: bb verify -k ./target/bb/vk -p ./target/bb/proof"@),
            ],
        )
    } else {
        seq![
            make_dir("./target/bb"@, "Failed to create target/bb directory"@),
            StepModel::StartTimer(0),
            shown("bb"@, bb_prove_args(pkg), true),
        ] + only_if(
            !cli.quiet,
            seq![
                StepModel::Report("Proof generated"@, proof_path(Flavour::Bb), 0),
                StepModel::SummarizeSize("Proof generated ("@, proof_path(Flavour::Bb), ")"@),
            ],
        ) + note_if(cli.verbose, running("bb"@, bb_vk_args(pkg))) + seq![
            StepModel::StartTimer(1),
            shown("bb"@, bb_vk_args(pkg), true),
        ] + only_if(
            !cli.quiet,
            seq![
                StepModel::Report("VK saved"@, vk_path(Flavour::Bb), 1),
                StepModel::SummarizeSize("Verification key generated ("@, vk_path(Flavour::Bb), ")"@),
            ],
        ) + only_if(!skip_verify, prove_verify_tail(cli))
    }
}

fn require(files: Vec<String>, enhance: bool) -> (res: Step)
    ensures
        res@ == StepModel::RequireFiles(views(files@), enhance),
{
    Step::RequireFiles { files: files, enhance: enhance }
}

fn build_output_list(pkg: &str) -> (res: Vec<String>)
    ensures
        views(res@) == build_outputs(pkg@),
{
    let mut files: Vec<String> = Vec::new();
    files.push(get_bytecode_path(pkg, Flavour::Bb));
    files.push(get_witness_path(pkg, Flavour::Bb));
    assert(views(files@) =~= build_outputs(pkg@));
    files
}

/// The artifacts that verifying needs in a flavour's directory.
pub fn proof_artifact_list(flavour: Flavour) -> (res: Vec<String>)
    ensures
        views(res@) == proof_artifacts(flavour),
{
    let mut files: Vec<String> = Vec::new();
    files.push(get_proof_path(flavour));
    files.push(get_vk_path(flavour));
    files.push(get_public_inputs_path(flavour));
    assert(views(files@) =~= proof_artifacts(flavour));
    files
}

fn bb_prove_arg_list(pkg: &str) -> (res: Vec<String>)
    ensures
        views(res@) == bb_prove_args(pkg@),
{
    let bc = get_bytecode_path(pkg, Flavour::Bb);
    let wt = get_witness_path(pkg, Flavour::Bb);
    let items = ["prove", "-b", bc.as_str(), "-w", wt.as_str(), "-o", "./target/bb/"];
    let args = owned_all(&items);
    assert(str_views(items@) =~= bb_prove_args(pkg@));
    args
}

fn bb_vk_arg_list(pkg: &str) -> (res: Vec<String>)
    ensures
        views(res@) == bb_vk_args(pkg@),
{
    let bc = get_bytecode_path(pkg, Flavour::Bb);
    let items = ["write_vk", "-b", bc.as_str(), "-o", "./target/bb/"];
    let args = owned_all(&items);
    assert(str_views(items@) =~= bb_vk_args(pkg@));
    args
}

fn prove_verify_steps(cli: &Cli) -> (res: Vec<Step>)
    ensures
        plan_view(res@) == prove_verify_tail(*cli),
{
    let args = verify_arg_list(Flavour::Bb);
    let mut plan = note_when(cli.verbose, command_line("Running: ", "bb", &args));
    push_step(&mut plan, Step::StartTimer(2));
    push_step(&mut plan, run_shown("bb", args, true));
    let mut tail: Vec<Step> = Vec::new();
    push_step(
        &mut tail,
        Step::ReportElapsed { before: String::from_str("Proof verified successfully ("), timer: 2, after: String::from_str(")") },
    );
    push_step(&mut tail, Step::Summarize(String::from_str("Proof verification completed")));
    push_steps(&mut plan, keep_when(!cli.quiet, tail));
    assert(plan_view(plan@) =~= prove_verify_tail(*cli));
    plan
}

/// Plan of `bargo prove` for package `pkg_name`.
#[verifier::rlimit(40)]
pub fn plan_prove(cli: &Cli, pkg_name: &str, skip_verify: bool) -> (res: Vec<Step>)
    ensures
        plan_view(res@) == prove_plan(*cli, pkg_name@, skip_verify),
{
    let mut plan = keep_when(!cli.dry_run, single(require(build_output_list(pkg_name), true)));
    let prove_args = bb_prove_arg_list(pkg_name);
    push_steps(&mut plan, note_when(cli.verbose, command_line("Running: ", "bb", &prove_args)));
    if cli.dry_run {
        push_step(&mut plan, Step::Say(command_line("Would run: ", "bb", &prove_args)));
        let mut more: Vec<Step> = Vec::new();
        let vk_args = bb_vk_arg_list(pkg_name);
        push_step(&mut more, Step::Say(command_line("Would run: ", "bb", &vk_args)));
        push_step(&mut more, Step::Say(String::from_str("Would run: bb verify -k ./target/bb/vk -p ./target/bb/proof")));
        push_steps(&mut plan, keep_when(!skip_verify, more));
    } else {
        push_step(&mut plan, make_dir_step("./target/bb", "Failed to create target/bb directory"));
        push_step(&mut plan, Step::StartTimer(0));
        push_step(&mut plan, run_shown("bb", prove_args, true));
        let mut proved: Vec<Step> = Vec::new();
        let proof = get_proof_path(Flavour::Bb);
        push_step(&mut proved, Step::Report { label: String::from_str("Proof generated"), path: proof.clone(), timer: 0 });
        push_step(
            &mut proved,
            Step::SummarizeSize { before: String::from_str("Proof generated ("), path: proof, after: String::from_str(")") },
        );
        push_steps(&mut plan, keep_when(!cli.quiet, proved));
        let vk_args = bb_vk_arg_list(pkg_name);
        push_steps(&mut plan, note_when(cli.verbose, command_line("Running: ", "bb", &vk_args)));
        push_step(&mut plan, Step::StartTimer(1));
        push_step(&mut plan, run_shown("bb", vk_args, true));
        let mut saved: Vec<Step> = Vec::new();
        let vk = get_vk_path(Flavour::Bb);
        push_step(&mut saved, Step::Report { label: String::from_str("VK saved"), path: vk.clone(), timer: 1 });
        push_step(
            &mut saved,
            Step::SummarizeSize { before: String::from_str("Verification key generated ("), path: vk, after: String::from_str(")") },
        );
        push_steps(&mut plan, keep_when(!cli.quiet, saved));
        if !skip_verify {
            push_steps(&mut plan, prove_verify_steps(cli));
        } else {
            proof {
                assert(only_if(false, prove_verify_tail(*cli)) =~= seq![]);
            }
        }
    }
    assert(plan_view(plan@) =~= prove_plan(*cli, pkg_name@, skip_verify));
    plan
}


/// What `bargo verify` is planned as: the artifacts in `target/bb` are
/// checked (outside dry runs), then bb verifies the proof, reported unless
/// quiet.
pub open spec fn verify_plan(cli: Cli) -> Seq<StepModel> {
    only_if(!cli.dry_run, seq![StepModel::RequireFiles(proof_artifacts(Flavour::Bb), true)])
        + note_if(cli.verbose, running("bb"@, verify_args(Flavour::Bb)))
        + if cli.dry_run {
        seq![StepModel::Say(would_run("bb"@, verify_args(Flavour::Bb)))]
    } else {
        seq![StepModel::StartTimer(0), shown("bb"@, verify_args(Flavour::Bb), true)] + only_if(
            !cli.quiet,
            seq![StepModel::ReportElapsed("Proof verified successfully ("@, 0, ")"@)],
        )
    }
}

/// Plan of `bargo verify`.
pub fn plan_verify(cli: &Cli) -> (res: Vec<Step>)
    ensures
        plan_view(res@) == verify_plan(*cli),
{
    let mut plan = keep_when(!cli.dry_run, single(require(proof_artifact_list(Flavour::Bb), true)));
    let args = verify_arg_list(Flavour::Bb);
    push_steps(&mut plan, note_when(cli.verbose, command_line("Running: ", "bb", &args)));
    if cli.dry_run {
        push_step(&mut plan, Step::Say(command_line("Would run: ", "bb", &args)));
    } else {
        push_step(&mut plan, Step::StartTimer(0));
        push_step(&mut plan, run_shown("bb", args, true));
        let report = single(
            Step::ReportElapsed { before: String::from_str("Proof verified successfully ("), timer: 0, after: String::from_str(")") },
        );
        push_steps(&mut plan, keep_when(!cli.quiet, report));
    }
    assert(plan_view(plan@) =~= verify_plan(*cli));
    plan
}

/// Arguments of `bb write_vk` with the keccak oracle, as the verifier
/// command runs it.
pub open spec fn keccak_vk_args(pkg: Seq<char>) -> Seq<Seq<char>> {
    seq!["write_vk"@, "--oracle_hash"@, "keccak"@, "-b"@, bytecode_path(pkg, Flavour::Bb), "-o"@, "./target/bb/"@]
}

/// Arguments of `bb write_solidity_verifier` writing `out` from `vk`.
pub open spec fn solidity_args(vk: Seq<char>, out: Seq<char>) -> Seq<Seq<char>> {
    seq!["write_solidity_verifier"@, "-k"@, vk, "-o"@, out]
}

/// What the Solidity verifier command is planned as for package `pkg`:
/// bb writes a keccak verification key into `target/bb`, then the
/// Solidity verifier into `contracts/`; each is reported unless quiet.
pub open spec fn verifier_plan(cli: Cli, pkg: Seq<char>) -> Seq<StepModel> {
    let sol = solidity_args(vk_path(Flavour::Bb), "./contracts/Verifier.sol"@);
    only_if(!cli.dry_run, seq![StepModel::RequireFiles(seq![bytecode_path(pkg, Flavour::Bb)], true)])
        + note_if(cli.verbose, running("bb"@, keccak_vk_args(pkg)))
        + if cli.dry_run {
        seq![
            StepModel::Say(would_run("bb"@, keccak_vk_args(pkg))),
            StepModel::Say("Would run: bb write_solidity_verifier -k ./target/bb/vk -o ./contracts/Verifier.sol"@),
        ]
    } else {
        seq![
            make_dir("./target/bb"@, "Failed to create target/bb directory"@),
            StepModel::StartTimer(0),
            shown("bb"@, keccak_vk_args(pkg), true),
        ] + only_if(
            !cli.quiet,
            seq![
                StepModel::Report("VK (keccak optimized)"@, vk_path(Flavour::Bb), 0),
                StepModel::SummarizeSize("Verification key with keccak optimization ("@, vk_path(Flavour::Bb), ")"@),
            ],
        ) + seq![make_dir("./contracts"@, "Failed to create contracts directory"@)] + note_if(
            cli.verbose,
            running("bb"@, sol),
        ) + seq![StepModel::StartTimer(1), shown("bb"@, sol, true)] + only_if(
            !cli.quiet,
            seq![
                StepModel::Report("Solidity verifier"@, "./contracts/Verifier.sol"@, 1),
                StepModel::SummarizeSize("Solidity verifier contract ("@, "./contracts/Verifier.sol"@, ")"@),
                StepModel::PrintSummary,
            ],
        )
    }
}

/// Plan of the Solidity verifier command for package `pkg_name`.
#[verifier::rlimit(40)]
pub fn plan_verifier(cli: &Cli, pkg_name: &str) -> (res: Vec<Step>)
    ensures
        plan_view(res@) == verifier_plan(*cli, pkg_name@),
{
    let mut files: Vec<String> = Vec::new();
    files.push(get_bytecode_path(pkg_name, Flavour::Bb));
    assert(views(files@) =~= seq![bytecode_path(pkg_name@, Flavour::Bb)]);
    let mut plan = keep_when(!cli.dry_run, single(require(files, true)));
    let bc = get_bytecode_path(pkg_name, Flavour::Bb);
    let items = ["write_vk", "--oracle_hash", "keccak", "-b", bc.as_str(), "-o", "./target/bb/"];
    let vk_args = owned_all(&items);
    assert(str_views(items@) =~= keccak_vk_args(pkg_name@));
    push_steps(&mut plan, note_when(cli.verbose, command_line("Running: ", "bb", &vk_args)));
    if cli.dry_run {
        push_step(&mut plan, Step::Say(command_line("Would run: ", "bb", &vk_args)));
        push_step(
            &mut plan,
            Step::Say(String::from_str("Would run: bb write_solidity_verifier -k ./target/bb/vk -o ./contracts/Verifier.sol")),
        );
    } else {
        push_step(&mut plan, make_dir_step("./target/bb", "Failed to create target/bb directory"));
        push_step(&mut plan, Step::StartTimer(0));
        push_step(&mut plan, run_shown("bb", vk_args, true));
        let vk = get_vk_path(Flavour::Bb);
        let mut made: Vec<Step> = Vec::new();
        push_step(&mut made, Step::Report { label: String::from_str("VK (keccak optimized)"), path: vk.clone(), timer: 0 });
        push_step(
            &mut made,
            Step::SummarizeSize {
                before: String::from_str("Verification key with keccak optimization ("),
                path: vk.clone(),
                after: String::from_str(")"),
            },
        );
        push_steps(&mut plan, keep_when(!cli.quiet, made));
        push_step(&mut plan, make_dir_step("./contracts", "Failed to create contracts directory"));
        let sol_items = ["write_solidity_verifier", "-k", vk.as_str(), "-o", "./contracts/Verifier.sol"];
        let sol = owned_all(&sol_items);
        assert(str_views(sol_items@) =~= solidity_args(vk_path(Flavour::Bb), "./contracts/Verifier.sol"@));
        push_steps(&mut plan, note_when(cli.verbose, command_line("Running: ", "bb", &sol)));
        push_step(&mut plan, Step::StartTimer(1));
        push_step(&mut plan, run_shown("bb", sol, true));
        let mut written: Vec<Step> = Vec::new();
        push_step(
            &mut written,
            Step::Report { label: String::from_str("Solidity verifier"), path: String::from_str("./contracts/Verifier.sol"), timer: 1 },
        );
        push_step(
            &mut written,
            Step::SummarizeSize {
                before: String::from_str("Solidity verifier contract ("),
                path: String::from_str("./contracts/Verifier.sol"),
                after: String::from_str(")"),
            },
        );
        push_step(&mut written, Step::PrintSummary);
        push_steps(&mut plan, keep_when(!cli.quiet, written));
    }
    assert(plan_view(plan@) =~= verifier_plan(*cli, pkg_name@));
    plan
}


#[verifier::spinoff_prover]
proof fn lemma_preview(cmd: Seq<char>, args: Seq<Seq<char>>)
    ensures
        !chatty(StepModel::Say(would_run(cmd, args))),
{
    lemma_preview_not_chatty(cmd + " "@ + seq_join(args, " "@));
    assert(would_run(cmd, args) =~= "Would run: "@ + (cmd + " "@ + seq_join(args, " "@)));
}

#[verifier::spinoff_prover]
proof fn lemma_literal_preview(text: Seq<char>)
    requires
        text.len() >= 11,
        text.subrange(0, 11) == "Would run: "@,
    ensures
        !chatty(StepModel::Say(text)),
{
}

/// A dry run of the proving commands changes nothing: with `--dry-run`,
/// the plans of prove, verify and the Solidity verifier command neither
/// run a tool nor touch the file system.
#[verifier::spinoff_prover]
pub proof fn law_proving_dry_run_changes_nothing(cli: Cli, pkg: Seq<char>, skip_verify: bool)
    requires
        cli.dry_run,
    ensures
        inert(prove_plan(cli, pkg, skip_verify)),
        inert(verify_plan(cli)),
        inert(verifier_plan(cli, pkg)),
{
    let n1 = note_if(cli.verbose, running("bb"@, bb_prove_args(pkg)));
    lemma_note_if_quiet(cli.verbose, running("bb"@, bb_prove_args(pkg)));
    let t1 = seq![StepModel::Say(would_run("bb"@, bb_prove_args(pkg)))] + only_if(
        !skip_verify,
        seq![
            StepModel::Say(would_run("bb"@, bb_vk_args(pkg))),
            StepModel::Say("Would run: bb verify -k ./target/bb/vk -p ./target/bb/proof"@),
        ],
    );
    assert(prove_plan(cli, pkg, skip_verify) =~= n1 + t1);
    lemma_inert_add(n1, t1);
    let n2 = note_if(cli.verbose, running("bb"@, verify_args(Flavour::Bb)));
    lemma_note_if_quiet(cli.verbose, running("bb"@, verify_args(Flavour::Bb)));
    let t2 = seq![StepModel::Say(would_run("bb"@, verify_args(Flavour::Bb)))];
    assert(verify_plan(cli) =~= n2 + t2);
    lemma_inert_add(n2, t2);
    let n3 = note_if(cli.verbose, running("bb"@, keccak_vk_args(pkg)));
    lemma_note_if_quiet(cli.verbose, running("bb"@, keccak_vk_args(pkg)));
    let t3 = seq![
        StepModel::Say(would_run("bb"@, keccak_vk_args(pkg))),
        StepModel::Say("Would run: bb write_solidity_verifier -k ./target/bb/vk -o ./contracts/Verifier.sol"@),
    ];
    assert(verifier_plan(cli, pkg) =~= n3 + t3);
    lemma_inert_add(n3, t3);
}

#[verifier::spinoff_prover]
proof fn lemma_prove_quiet(cli: Cli, pkg: Seq<char>, skip_verify: bool)
    requires
        cli.quiet,
    ensures
        hushed(prove_plan(cli, pkg, skip_verify)),
{
    let r = only_if(!cli.dry_run, seq![StepModel::RequireFiles(build_outputs(pkg), true)]);
    let n1 = note_if(cli.verbose, running("bb"@, bb_prove_args(pkg)));
    lemma_note_if_quiet(cli.verbose, running("bb"@, bb_prove_args(pkg)));
    lemma_hushed_add(r, n1);
    if cli.dry_run {
        lemma_preview("bb"@, bb_prove_args(pkg));
        lemma_preview("bb"@, bb_vk_args(pkg));
        reveal_strlit("Would run: bb verify -k ./target/bb/vk -p ./target/bb/proof");
        reveal_strlit("Would run: ");
        assert("Would run: bb verify -k ./target/bb/vk -p ./target/bb/proof"@.subrange(0, 11) =~= "Would run: "@);
        lemma_literal_preview("Would run: bb verify -k ./target/bb/vk -p ./target/bb/proof"@);
        let a = seq![StepModel::Say(would_run("bb"@, bb_prove_args(pkg)))];
        let b = only_if(
            !skip_verify,
            seq![
                StepModel::Say(would_run("bb"@, bb_vk_args(pkg))),
                StepModel::Say("Would run: bb verify -k ./target/bb/vk -p ./target/bb/proof"@),
            ],
        );
        lemma_hushed_add(a, b);
        lemma_hushed_add(r + n1, a + b);
    } else {
        let a = seq![
            make_dir("./target/bb"@, "Failed to create target/bb directory"@),
            StepModel::StartTimer(0),
            shown("bb"@, bb_prove_args(pkg), true),
        ];
        let n2 = note_if(cli.verbose, running("bb"@, bb_vk_args(pkg)));
        lemma_note_if_quiet(cli.verbose, running("bb"@, bb_vk_args(pkg)));
        let b = seq![StepModel::StartTimer(1), shown("bb"@, bb_vk_args(pkg), true)];
        let n3 = note_if(cli.verbose, running("bb"@, verify_args(Flavour::Bb)));
        lemma_note_if_quiet(cli.verbose, running("bb"@, verify_args(Flavour::Bb)));
        let c = seq![StepModel::StartTimer(2), shown("bb"@, verify_args(Flavour::Bb), true)];
        lemma_hushed_add(n3, c);
        assert(prove_verify_tail(cli) =~= n3 + c);
        let v = only_if(!skip_verify, prove_verify_tail(cli));
        assert(prove_plan(cli, pkg, skip_verify) =~= r + n1 + a + n2 + b + v);
        lemma_hushed_add(r + n1, a);
        lemma_hushed_add(r + n1 + a, n2);
        lemma_hushed_add(r + n1 + a + n2, b);
        lemma_hushed_add(r + n1 + a + n2 + b, v);
    }
}

#[verifier::spinoff_prover]
proof fn lemma_verify_quiet(cli: Cli)
    requires
        cli.quiet,
    ensures
        hushed(verify_plan(cli)),
{
    let r = only_if(!cli.dry_run, seq![StepModel::RequireFiles(proof_artifacts(Flavour::Bb), true)]);
    let n = note_if(cli.verbose, running("bb"@, verify_args(Flavour::Bb)));
    lemma_note_if_quiet(cli.verbose, running("bb"@, verify_args(Flavour::Bb)));
    lemma_preview("bb"@, verify_args(Flavour::Bb));
    let t = if cli.dry_run {
        seq![StepModel::Say(would_run("bb"@, verify_args(Flavour::Bb)))]
    } else {
        seq![StepModel::StartTimer(0), shown("bb"@, verify_args(Flavour::Bb), true)]
    };
    assert(verify_plan(cli) =~= r + n + t);
    lemma_hushed_add(r, n);
    lemma_hushed_add(r + n, t);
}

#[verifier::spinoff_prover]
proof fn lemma_verifier_quiet(cli: Cli, pkg: Seq<char>)
    requires
        cli.quiet,
    ensures
        hushed(verifier_plan(cli, pkg)),
{
    let sol = solidity_args(vk_path(Flavour::Bb), "./contracts/Verifier.sol"@);
    let r = only_if(!cli.dry_run, seq![StepModel::RequireFiles(seq![bytecode_path(pkg, Flavour::Bb)], true)]);
    let n1 = note_if(cli.verbose, running("bb"@, keccak_vk_args(pkg)));
    lemma_note_if_quiet(cli.verbose, running("bb"@, keccak_vk_args(pkg)));
    lemma_hushed_add(r, n1);
    if cli.dry_run {
        lemma_preview("bb"@, keccak_vk_args(pkg));
        reveal_strlit("Would run: bb write_solidity_verifier -k ./target/bb/vk -o ./contracts/Verifier.sol");
        reveal_strlit("Would run: ");
        assert("Would run: bb write_solidity_verifier -k ./target/bb/vk -o ./contracts/Verifier.sol"@.subrange(0, 11) =~= "Would run: "@);
        lemma_literal_preview("Would run: bb write_solidity_verifier -k ./target/bb/vk -o ./contracts/Verifier.sol"@);
        let t = seq![
            StepModel::Say(would_run("bb"@, keccak_vk_args(pkg))),
            StepModel::Say("Would run: bb write_solidity_verifier -k ./target/bb/vk -o ./contracts/Verifier.sol"@),
        ];
        lemma_hushed_add(r + n1, t);
    } else {
        let a = seq![
            make_dir("./target/bb"@, "Failed to create target/bb directory"@),
            StepModel::StartTimer(0),
            shown("bb"@, keccak_vk_args(pkg), true),
        ];
        let b = seq![make_dir("./contracts"@, "Failed to create contracts directory"@)];
        let n2 = note_if(cli.verbose, running("bb"@, sol));
        lemma_note_if_quiet(cli.verbose, running("bb"@, sol));
        let c = seq![StepModel::StartTimer(1), shown("bb"@, sol, true)];
        assert(verifier_plan(cli, pkg) =~= r + n1 + a + b + n2 + c);
        lemma_hushed_add(r + n1, a);
        lemma_hushed_add(r + n1 + a, b);
        lemma_hushed_add(r + n1 + a + b, n2);
        lemma_hushed_add(r + n1 + a + b + n2, c);
    }
}

/// Quiet proving commands print nothing of bargo's own but dry-run
/// previews: with `--quiet`, the plans of prove, verify and the Solidity
/// verifier command hold no message, report or summary.
#[verifier::spinoff_prover]
pub proof fn law_proving_quiet_prints_only_previews(cli: Cli, pkg: Seq<char>, skip_verify: bool)
    requires
        cli.quiet,
    ensures
        hushed(prove_plan(cli, pkg, skip_verify)),
        hushed(verify_plan(cli)),
        hushed(verifier_plan(cli, pkg)),
{
    lemma_prove_quiet(cli, pkg, skip_verify);
    lemma_verify_quiet(cli);
    lemma_verifier_quiet(cli, pkg);
}


#[verifier::spinoff_prover]
proof fn lemma_prove_terse(cli: Cli, pkg: Seq<char>, skip_verify: bool)
    ensures
        without_notes(prove_plan(with_verbose(cli, true), pkg, skip_verify)) == prove_plan(
            with_verbose(cli, false),
            pkg,
            skip_verify,
        ),
{
    let r = only_if(!cli.dry_run, seq![StepModel::RequireFiles(build_outputs(pkg), true)]);
    let x1 = running("bb"@, bb_prove_args(pkg));
    lemma_without_notes_none(r);
    lemma_note_terse(x1);
    lemma_strip_join(r, r, note_if(true, x1), note_if(false, x1));
    if cli.dry_run {
        let t = seq![StepModel::Say(would_run("bb"@, bb_prove_args(pkg)))] + only_if(
            !skip_verify,
            seq![
                StepModel::Say(would_run("bb"@, bb_vk_args(pkg))),
                StepModel::Say("Would run: bb verify -k ./target/bb/vk -p ./target/bb/proof"@),
            ],
        );
        lemma_without_notes_none(t);
        lemma_strip_join(r + note_if(true, x1), r + note_if(false, x1), t, t);
    } else {
        let a1 = seq![
            make_dir("./target/bb"@, "Failed to create target/bb directory"@),
            StepModel::StartTimer(0),
            shown("bb"@, bb_prove_args(pkg), true),
        ];
        let a2 = only_if(
            !cli.quiet,
            seq![
                StepModel::Report("Proof generated"@, proof_path(Flavour::Bb), 0),
                StepModel::SummarizeSize("Proof generated ("@, proof_path(Flavour::Bb), ")"@),
            ],
        );
        let x2 = running("bb"@, bb_vk_args(pkg));
        let b1 = seq![StepModel::StartTimer(1), shown("bb"@, bb_vk_args(pkg), true)];
        let b2 = only_if(
            !cli.quiet,
            seq![
                StepModel::Report("VK saved"@, vk_path(Flavour::Bb), 1),
                StepModel::SummarizeSize("Verification key generated ("@, vk_path(Flavour::Bb), ")"@),
            ],
        );
        let x3 = running("bb"@, verify_args(Flavour::Bb));
        let c1 = seq![StepModel::StartTimer(2), shown("bb"@, verify_args(Flavour::Bb), true)];
        let c2 = only_if(
            !cli.quiet,
            seq![
                StepModel::ReportElapsed("Proof verified successfully ("@, 2, ")"@),
                StepModel::Summarize("Proof verification completed"@),
            ],
        );
        lemma_without_notes_none(a1);
        lemma_without_notes_none(a2);
        lemma_without_notes_none(b1);
        lemma_without_notes_none(b2);
        lemma_without_notes_none(c1);
        lemma_without_notes_none(c2);
        lemma_note_terse(x2);
        lemma_note_terse(x3);
        lemma_strip_join(a1, a1, a2, a2);
        lemma_strip_join(a1 + a2, a1 + a2, note_if(true, x2), note_if(false, x2));
        lemma_strip_join(a1 + a2 + note_if(true, x2), a1 + a2 + note_if(false, x2), b1, b1);
        lemma_strip_join(a1 + a2 + note_if(true, x2) + b1, a1 + a2 + note_if(false, x2) + b1, b2, b2);
        lemma_strip_join(note_if(true, x3), note_if(false, x3), c1, c1);
        lemma_strip_join(note_if(true, x3) + c1, note_if(false, x3) + c1, c2, c2);
        let tv = prove_verify_tail(with_verbose(cli, true));
        let tq = prove_verify_tail(with_verbose(cli, false));
        assert(without_notes(tv) == tq);
        if skip_verify {
            lemma_without_notes_none(Seq::<StepModel>::empty());
        }
        assert(without_notes(only_if(!skip_verify, tv)) == only_if(!skip_verify, tq));
        lemma_strip_join(
            a1 + a2 + note_if(true, x2) + b1 + b2,
            a1 + a2 + note_if(false, x2) + b1 + b2,
            only_if(!skip_verify, tv),
            only_if(!skip_verify, tq),
        );
        lemma_strip_join(
            r + note_if(true, x1),
            r + note_if(false, x1),
            a1 + a2 + note_if(true, x2) + b1 + b2 + only_if(!skip_verify, tv),
            a1 + a2 + note_if(false, x2) + b1 + b2 + only_if(!skip_verify, tq),
        );
    }
}

#[verifier::spinoff_prover]
proof fn lemma_verify_terse(cli: Cli)
    ensures
        without_notes(verify_plan(with_verbose(cli, true))) == verify_plan(with_verbose(cli, false)),
{
    let v = with_verbose(cli, true);
    let q = with_verbose(cli, false);
    // verify
    let r2 = only_if(!cli.dry_run, seq![StepModel::RequireFiles(proof_artifacts(Flavour::Bb), true)]);
    let m = note_if(true, running("bb"@, verify_args(Flavour::Bb)));
    let t2 = if cli.dry_run {
        seq![StepModel::Say(would_run("bb"@, verify_args(Flavour::Bb)))]
    } else {
        seq![StepModel::StartTimer(0), shown("bb"@, verify_args(Flavour::Bb), true)] + only_if(
            !cli.quiet,
            seq![StepModel::ReportElapsed("Proof verified successfully ("@, 0, ")"@)],
        )
    };
    assert(without_notes(r2) == r2) by {
        lemma_without_notes_none(r2);
    }
    lemma_strip_tail(r2, m, t2);
    assert(verify_plan(v) =~= r2 + m + t2);
    assert(verify_plan(q) =~= r2 + t2);
}

#[verifier::spinoff_prover]
proof fn lemma_verifier_terse(cli: Cli, pkg: Seq<char>)
    ensures
        without_notes(verifier_plan(with_verbose(cli, true), pkg)) == verifier_plan(with_verbose(cli, false), pkg),
{
    let v = with_verbose(cli, true);
    let q = with_verbose(cli, false);
    // verifier
    let sol = solidity_args(vk_path(Flavour::Bb), "./contracts/Verifier.sol"@);
    let r3 = only_if(!cli.dry_run, seq![StepModel::RequireFiles(seq![bytecode_path(pkg, Flavour::Bb)], true)]);
    let k1 = note_if(true, running("bb"@, keccak_vk_args(pkg)));
    assert(without_notes(r3) == r3) by {
        lemma_without_notes_none(r3);
    }
    if cli.dry_run {
        let t3 = seq![
            StepModel::Say(would_run("bb"@, keccak_vk_args(pkg))),
            StepModel::Say("Would run: bb write_solidity_verifier -k ./target/bb/vk -o ./contracts/Verifier.sol"@),
        ];
        lemma_strip_tail(r3, k1, t3);
        assert(verifier_plan(v, pkg) =~= r3 + k1 + t3);
        assert(verifier_plan(q, pkg) =~= r3 + t3);
    } else {
        let a3 = seq![
            make_dir("./target/bb"@, "Failed to create target/bb directory"@),
            StepModel::StartTimer(0),
            shown("bb"@, keccak_vk_args(pkg), true),
        ] + only_if(
            !cli.quiet,
            seq![
                StepModel::Report("VK (keccak optimized)"@, vk_path(Flavour::Bb), 0),
                StepModel::SummarizeSize("Verification key with keccak optimization ("@, vk_path(Flavour::Bb), ")"@),
            ],
        ) + seq![make_dir("./contracts"@, "Failed to create contracts directory"@)];
        let k2 = note_if(true, running("bb"@, sol));
        let b3 = seq![StepModel::StartTimer(1), shown("bb"@, sol, true)] + only_if(
            !cli.quiet,
            seq![
                StepModel::Report("Solidity verifier"@, "./contracts/Verifier.sol"@, 1),
                StepModel::SummarizeSize("Solidity verifier contract ("@, "./contracts/Verifier.sol"@, ")"@),
                StepModel::PrintSummary,
            ],
        );
        lemma_strip_tail(r3, k1, a3);
        lemma_strip_tail(r3 + k1 + a3, k2, b3);
        assert(verifier_plan(v, pkg) =~= r3 + k1 + a3 + k2 + b3);
        assert(verifier_plan(q, pkg) =~= r3 + a3 + b3);
    }
}

/// Verbose proving commands only add log lines: for every set of options,
/// the plans of prove, verify and the Solidity verifier command with
/// `--verbose`, their log lines left out, are the plans without it.
#[verifier::spinoff_prover]
pub proof fn law_proving_verbose_only_adds_log_lines(cli: Cli, pkg: Seq<char>, skip_verify: bool)
    ensures
        without_notes(prove_plan(with_verbose(cli, true), pkg, skip_verify)) == prove_plan(
            with_verbose(cli, false),
            pkg,
            skip_verify,
        ),
        without_notes(verify_plan(with_verbose(cli, true))) == verify_plan(with_verbose(cli, false)),
        without_notes(verifier_plan(with_verbose(cli, true), pkg)) == verifier_plan(with_verbose(cli, false), pkg),
{
    lemma_prove_terse(cli, pkg, skip_verify);
    lemma_verify_terse(cli);
    lemma_verifier_terse(cli, pkg);
}

} // verus!
