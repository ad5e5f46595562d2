//! Properties of the Starknet and EVM workflows that span their commands.

use vstd::prelude::*;
use crate::cairo::{
    declare_finish_plan, deploy_finish_plan, cairo_data_plan, cairo_gen_plan, cairo_verify_onchain_plan, declare_args, declare_plan, declare_rpc, deploy_args,
    deploy_hash, deploy_plan, garaga_calldata_args, garaga_verify_onchain_args, quick_gen_plan,
};
use crate::cli::Cli;
use crate::evm::{
    calldata_plan, cast_send_args, evm_deploy_plan, evm_gen_plan, evm_verify_onchain_plan, forge_create_args,
    quick_evm_gen_plan, EvmGenProbes, FileStateModel,
};
use crate::plan::{
    flag_set, runs_sub, step_args, acts, chatty, hushed, inert, lemma_preview_not_chatty, lemma_strip_join, lemma_strip_tail, lemma_without_notes_none,
    without_notes,
    StepModel,
};
use crate::cairo::{cairo_gen_tail, captured, garaga_gen_args, scarb_mode, starknet_prove_args, starknet_vk_args};
use crate::paths::{proof_path, vk_path};
use crate::proving::solidity_args;
use crate::plan::FailureModel;
use crate::paths::Flavour;
use crate::proving::proof_artifacts;
use crate::scan::{
    address_in, class_hash_in, first_match, first_occurrence, is_address_line, is_class_hash_line, lemma_first_token_trimmed,
    lemma_trim_idempotent, lines, trim,
};
use crate::text::seq_join;
use crate::workflow::{lemma_note_terse, note_if, only_if, running, shown, with_verbose, would_run};

verus! {

/// A dry run of a Starknet command changes nothing: with `--dry-run`, the
/// plans of `cairo data`, `cairo verify-onchain`, `cairo declare`, `cairo
/// deploy`, `cairo gen` and the short `cairo gen` neither run a tool nor
/// touch the file system, whatever the inputs.
#[verifier::spinoff_prover]
pub proof fn law_cairo_dry_run_changes_nothing(
    cli: Cli,
    pkg: Seq<char>,
    address: Option<Seq<char>>,
    saved: Option<Seq<char>>,
    network: Seq<char>,
    mainnet: Option<Seq<char>>,
    sepolia: Option<Seq<char>>,
    account: Option<Seq<char>>,
    keystore: Option<Seq<char>>,
)
    requires
        cli.dry_run,
    ensures
        inert(cairo_data_plan(cli)),
        inert(cairo_verify_onchain_plan(cli, address, saved)),
        inert(declare_plan(cli, network, mainnet, sepolia, account, keystore)),
        inert(deploy_plan(cli, address, saved, mainnet, account, keystore)),
        inert(quick_gen_plan(cli, pkg)),
        inert(cairo_gen_plan(cli, pkg)),
{
}

/// A dry run of an EVM command changes nothing: with `--dry-run`, the plans
/// of `evm gen`, `evm deploy`, `evm verify-onchain` and the short `evm gen`
/// neither run a tool nor touch the file system, whatever the inputs.
#[verifier::spinoff_prover]
pub proof fn law_evm_dry_run_changes_nothing(
    cli: Cli,
    pkg: Seq<char>,
    probes: EvmGenProbes,
    foundry_toml: bool,
    network: Seq<char>,
    rpc: Option<Seq<char>>,
    key: Option<Seq<char>>,
    verifier_exists: bool,
    address: FileStateModel,
    calldata: FileStateModel,
)
    requires
        cli.dry_run,
    ensures
        inert(evm_gen_plan(cli, pkg, probes, foundry_toml)),
        inert(evm_deploy_plan(cli, network, rpc, key, verifier_exists)),
        inert(evm_verify_onchain_plan(cli, rpc, key, address, calldata)),
        inert(quick_evm_gen_plan(cli, pkg)),
{
    lemma_evm_gen_dry(cli, pkg, probes, foundry_toml);
    lemma_evm_deploy_dry(cli, network, rpc, key, verifier_exists);
    lemma_evm_verify_dry(cli, rpc, key, address, calldata);
    lemma_quick_evm_gen_dry(cli, pkg);
}

#[verifier::spinoff_prover]
proof fn lemma_evm_gen_dry(cli: Cli, pkg: Seq<char>, probes: EvmGenProbes, foundry_toml: bool)
    requires
        cli.dry_run,
    ensures
        inert(evm_gen_plan(cli, pkg, probes, foundry_toml)),
{
    let a = crate::evm::evm_keccak_part(cli, pkg, probes);
    let b = crate::evm::evm_foundry_part(cli, probes, foundry_toml);
    let c = crate::workflow::only_if(!cli.quiet, crate::evm::evm_gen_closing());
    assert(inert(a));
    assert(inert(crate::workflow::only_if(!probes.foundry_root, crate::evm::evm_init_part(cli))));
    assert(inert(crate::evm::evm_solidity_part(cli)));
    assert(inert(crate::workflow::only_if(!foundry_toml, crate::evm::evm_toml_part(cli))));
    assert(inert(crate::evm::evm_build_part(cli)));
    crate::plan::lemma_inert_add(
        crate::workflow::only_if(!probes.foundry_root, crate::evm::evm_init_part(cli)),
        crate::evm::evm_solidity_part(cli),
    );
    crate::plan::lemma_inert_add(
        crate::workflow::only_if(!probes.foundry_root, crate::evm::evm_init_part(cli)) + crate::evm::evm_solidity_part(cli),
        crate::workflow::only_if(!foundry_toml, crate::evm::evm_toml_part(cli)),
    );
    crate::plan::lemma_inert_add(
        crate::workflow::only_if(!probes.foundry_root, crate::evm::evm_init_part(cli)) + crate::evm::evm_solidity_part(cli)
            + crate::workflow::only_if(!foundry_toml, crate::evm::evm_toml_part(cli)),
        crate::evm::evm_build_part(cli),
    );
    assert(inert(c));
    crate::plan::lemma_inert_add(a, b);
    crate::plan::lemma_inert_add(a + b, c);
}

#[verifier::spinoff_prover]
proof fn lemma_evm_deploy_dry(cli: Cli, network: Seq<char>, rpc: Option<Seq<char>>, key: Option<Seq<char>>, verifier_exists: bool)
    requires
        cli.dry_run,
    ensures
        inert(evm_deploy_plan(cli, network, rpc, key, verifier_exists)),
{
}

#[verifier::spinoff_prover]
proof fn lemma_evm_verify_dry(cli: Cli, rpc: Option<Seq<char>>, key: Option<Seq<char>>, address: FileStateModel, calldata: FileStateModel)
    requires
        cli.dry_run,
    ensures
        inert(evm_verify_onchain_plan(cli, rpc, key, address, calldata)),
{
}

#[verifier::spinoff_prover]
proof fn lemma_quick_evm_gen_dry(cli: Cli, pkg: Seq<char>)
    requires
        cli.dry_run,
    ensures
        inert(quick_evm_gen_plan(cli, pkg)),
{
}


/// A dry-run preview of any command is no message that quiet mode leaves out.
#[verifier::spinoff_prover]
proof fn lemma_would_run_quiet(cmd: Seq<char>, args: Seq<Seq<char>>)
    ensures
        !chatty(StepModel::Say(would_run(cmd, args))),
{
    lemma_preview_not_chatty(cmd + " "@ + seq_join(args, " "@));
    assert(would_run(cmd, args) =~= "Would run: "@ + (cmd + " "@ + seq_join(args, " "@)));
}

/// Quiet Starknet and EVM commands print nothing of bargo's own but
/// dry-run previews: with `--quiet`, the plans of `cairo data`, `cairo
/// verify-onchain`, `cairo declare`, `cairo deploy`, `evm gen`, `evm
/// calldata`, `evm deploy` and `evm verify-onchain` hold no message,
/// report or summary, whatever the inputs.
#[verifier::spinoff_prover]
pub proof fn law_workflows_quiet(
    cli: Cli,
    pkg: Seq<char>,
    probes: EvmGenProbes,
    foundry_toml: bool,
    address: Option<Seq<char>>,
    saved: Option<Seq<char>>,
    network: Seq<char>,
    mainnet: Option<Seq<char>>,
    sepolia: Option<Seq<char>>,
    account: Option<Seq<char>>,
    keystore: Option<Seq<char>>,
    rpc: Option<Seq<char>>,
    key: Option<Seq<char>>,
    verifier_exists: bool,
    proof_fields: FileStateModel,
    input_fields: FileStateModel,
    address_file: FileStateModel,
    calldata_file: FileStateModel,
)
    requires
        cli.quiet,
    ensures
        hushed(cairo_data_plan(cli)),
        hushed(cairo_verify_onchain_plan(cli, address, saved)),
        hushed(declare_plan(cli, network, mainnet, sepolia, account, keystore)),
        hushed(deploy_plan(cli, address, saved, mainnet, account, keystore)),
        hushed(evm_gen_plan(cli, pkg, probes, foundry_toml)),
        hushed(calldata_plan(cli, proof_fields, input_fields)),
        hushed(evm_deploy_plan(cli, network, rpc, key, verifier_exists)),
        hushed(evm_verify_onchain_plan(cli, rpc, key, address_file, calldata_file)),
{
    lemma_cairo_data_quiet(cli);
    lemma_cairo_verify_quiet(cli, address, saved);
    lemma_declare_quiet(cli, network, mainnet, sepolia, account, keystore);
    lemma_deploy_quiet(cli, address, saved, mainnet, account, keystore);
    lemma_evm_gen_quiet(cli, pkg, probes, foundry_toml);
    lemma_calldata_quiet(cli, proof_fields, input_fields);
    lemma_evm_deploy_quiet(cli, network, rpc, key, verifier_exists);
    lemma_evm_verify_quiet(cli, rpc, key, address_file, calldata_file);
}

#[verifier::spinoff_prover]
proof fn lemma_cairo_data_quiet(cli: Cli)
    requires
        cli.quiet,
    ensures
        hushed(cairo_data_plan(cli)),
{
    lemma_would_run_quiet("garaga"@, garaga_calldata_args());
}

#[verifier::spinoff_prover]
proof fn lemma_cairo_verify_quiet(cli: Cli, address: Option<Seq<char>>, saved: Option<Seq<char>>)
    requires
        cli.quiet,
    ensures
        hushed(cairo_verify_onchain_plan(cli, address, saved)),
{
    let addr = match address {
        Some(a) => a,
        None => trim(saved->0),
    };
    lemma_would_run_quiet("garaga"@, garaga_verify_onchain_args(addr));
}

#[verifier::spinoff_prover]
proof fn lemma_declare_quiet(
    cli: Cli,
    network: Seq<char>,
    mainnet: Option<Seq<char>>,
    sepolia: Option<Seq<char>>,
    account: Option<Seq<char>>,
    keystore: Option<Seq<char>>,
)
    requires
        cli.quiet,
    ensures
        hushed(declare_plan(cli, network, mainnet, sepolia, account, keystore)),
{
    let drpc = declare_rpc(network, mainnet, sepolia);
    if drpc is Some && account is Some && keystore is Some {
        lemma_would_run_quiet("starkli"@, declare_args(drpc->0, account->0, keystore->0));
    }
}

#[verifier::spinoff_prover]
proof fn lemma_deploy_quiet(
    cli: Cli,
    address: Option<Seq<char>>,
    saved: Option<Seq<char>>,
    mainnet: Option<Seq<char>>,
    account: Option<Seq<char>>,
    keystore: Option<Seq<char>>,
)
    requires
        cli.quiet,
    ensures
        hushed(deploy_plan(cli, address, saved, mainnet, account, keystore)),
{
    let hash = deploy_hash(address, saved);
    if hash is Some && mainnet is Some && account is Some && keystore is Some {
        lemma_would_run_quiet("starkli"@, deploy_args(hash->0, mainnet->0, account->0, keystore->0));
    }
}

#[verifier::spinoff_prover]
proof fn lemma_evm_gen_quiet(cli: Cli, pkg: Seq<char>, probes: EvmGenProbes, foundry_toml: bool)
    requires
        cli.quiet,
    ensures
        hushed(evm_gen_plan(cli, pkg, probes, foundry_toml)),
{
    let a = crate::evm::evm_keccak_part(cli, pkg, probes);
    let i = crate::workflow::only_if(!probes.foundry_root, crate::evm::evm_init_part(cli));
    let so = crate::evm::evm_solidity_part(cli);
    let t = crate::workflow::only_if(!foundry_toml, crate::evm::evm_toml_part(cli));
    let bu = crate::evm::evm_build_part(cli);
    let c = crate::workflow::only_if(!cli.quiet, crate::evm::evm_gen_closing());
    assert(hushed(a));
    assert(hushed(i));
    assert(hushed(so));
    assert(hushed(t));
    assert(hushed(bu));
    assert(hushed(c));
    crate::plan::lemma_hushed_add(i, so);
    crate::plan::lemma_hushed_add(i + so, t);
    crate::plan::lemma_hushed_add(i + so + t, bu);
    crate::plan::lemma_hushed_add(a, i + so + t + bu);
    crate::plan::lemma_hushed_add(a + (i + so + t + bu), c);
    assert(evm_gen_plan(cli, pkg, probes, foundry_toml) =~= a + (i + so + t + bu) + c);
}

#[verifier::spinoff_prover]
proof fn lemma_calldata_quiet(cli: Cli, proof_fields: FileStateModel, input_fields: FileStateModel)
    requires
        cli.quiet,
    ensures
        hushed(calldata_plan(cli, proof_fields, input_fields)),
{
}

#[verifier::spinoff_prover]
proof fn lemma_evm_deploy_quiet(cli: Cli, network: Seq<char>, rpc: Option<Seq<char>>, key: Option<Seq<char>>, verifier_exists: bool)
    requires
        cli.quiet,
    ensures
        hushed(evm_deploy_plan(cli, network, rpc, key, verifier_exists)),
{
    if rpc is Some && key is Some {
        lemma_would_run_quiet("forge"@, forge_create_args(rpc->0, key->0));
    }
}

#[verifier::spinoff_prover]
proof fn lemma_evm_verify_quiet(
    cli: Cli,
    rpc: Option<Seq<char>>,
    key: Option<Seq<char>>,
    address_file: FileStateModel,
    calldata_file: FileStateModel,
)
    requires
        cli.quiet,
    ensures
        hushed(evm_verify_onchain_plan(cli, rpc, key, address_file, calldata_file)),
{
    if rpc is Some && key is Some && address_file is Read && calldata_file is Read {
        lemma_would_run_quiet(
            "cast"@,
            cast_send_args(trim(address_file->Read_0), trim(calldata_file->Read_0), rpc->0, key->0),
        );
    }
}


/// What `cairo declare` saves is what `cairo deploy` uses: when starkli's
/// output gives a class hash, the second stage of declare saves exactly
/// that hash to `target/starknet/.bargo_class_hash`, and a deploy without
/// `--class-hash` that reads the file back uses that same hash.
#[verifier::spinoff_prover]
pub proof fn law_declared_hash_is_deployed(cli: Cli, output: Seq<char>)
    requires
        class_hash_in(output) is Some,
    ensures
        exists|i: int|
            0 <= i < declare_finish_plan(cli, output).len() && #[trigger] declare_finish_plan(cli, output)[i]
                == StepModel::SaveFile(
                "target/starknet/.bargo_class_hash"@,
                class_hash_in(output)->0,
                cli.verbose,
                "Failed to save class hash to file"@,
                None,
            ),
        deploy_hash(None, Some(class_hash_in(output)->0)) == Some(class_hash_in(output)->0),
{
    let h = class_hash_in(output)->0;
    let l = first_match(lines(output), |l: Seq<char>| is_class_hash_line(l))->0;
    assert(h == trim(l));
    lemma_trim_idempotent(l);
    let i: int = if cli.quiet { 0 } else { 2 };
    assert(declare_finish_plan(cli, output)[i] == StepModel::SaveFile(
        "target/starknet/.bargo_class_hash"@,
        h,
        cli.verbose,
        "Failed to save class hash to file"@,
        None,
    ));
}

/// What `cairo deploy` saves is what `cairo verify-onchain` uses: when
/// starkli's output gives a contract address, the second stage of deploy
/// saves exactly that address to `target/starknet/.bargo_contract_address`,
/// and verify-onchain, which trims what it reads back, uses it unchanged.
#[verifier::spinoff_prover]
pub proof fn law_deployed_address_is_verified(cli: Cli, hash: Seq<char>, output: Seq<char>)
    requires
        address_in(output) is Some,
    ensures
        deploy_finish_plan(cli, hash, output)[0] == StepModel::SaveFile(
            "target/starknet/.bargo_contract_address"@,
            address_in(output)->0,
            cli.verbose,
            "Failed to save contract address to file"@,
            if cli.quiet { None } else { Some("Contract address: "@ + address_in(output)->0) },
        ),
        trim(address_in(output)->0) == address_in(output)->0,
{
    let l = first_match(lines(output), |l: Seq<char>| is_address_line(l))->0;
    lemma_first_token_trimmed(l.skip(first_occurrence(l, "0x"@)));
}


#[verifier::spinoff_prover]
proof fn lemma_cairo_data_terse(cli: Cli)
    ensures
        without_notes(cairo_data_plan(with_verbose(cli, true))) == cairo_data_plan(with_verbose(cli, false)),
{
    let r = only_if(!cli.dry_run, seq![StepModel::RequireFiles(proof_artifacts(Flavour::Starknet), true)]);
    let n = note_if(true, running("garaga"@, garaga_calldata_args()));
    let t = if cli.dry_run {
        seq![StepModel::Say(would_run("garaga"@, garaga_calldata_args()))]
    } else {
        seq![StepModel::StartTimer(0), captured("garaga"@, garaga_calldata_args(), true)]
    };
    lemma_without_notes_none(r);
    lemma_strip_tail(r, n, t);
    assert(cairo_data_plan(with_verbose(cli, true)) =~= r + n + t);
    assert(cairo_data_plan(with_verbose(cli, false)) =~= r + t);
}

#[verifier::spinoff_prover]
proof fn lemma_cairo_verify_terse(cli: Cli, address: Option<Seq<char>>, saved: Option<Seq<char>>)
    ensures
        without_notes(cairo_verify_onchain_plan(with_verbose(cli, true), address, saved)) == cairo_verify_onchain_plan(
            with_verbose(cli, false),
            address,
            saved,
        ),
{
    if address is None && saved is None {
        lemma_without_notes_none(seq![StepModel::Fail(crate::cairo::address_required_text())]);
    } else {
        let addr = match address {
            Some(a) => a,
            None => trim(saved->0),
        };
        let args = garaga_verify_onchain_args(addr);
        let a = only_if(address is None && !cli.quiet, seq![StepModel::Success("Using saved contract address: "@ + addr)])
            + only_if(!cli.dry_run, seq![StepModel::RequireFiles(proof_artifacts(Flavour::Starknet), true)]);
        let n = note_if(true, running("garaga"@, args)) + note_if(true, "Verifying proof on-chain at address: "@ + addr);
        let t = if cli.dry_run {
            seq![StepModel::Say(would_run("garaga"@, args))]
        } else {
            seq![StepModel::StartTimer(0), crate::cairo::garaga_run(args, true)] + only_if(
                !cli.quiet,
                seq![
                    StepModel::ReportElapsed("Proof verified on-chain successfully ("@, 0, ")"@),
                    StepModel::Summarize("On-chain verification completed at address: "@ + addr),
                    StepModel::PrintSummary,
                ],
            )
        };
        lemma_without_notes_none(a);
        lemma_strip_tail(a, n, t);
        assert(cairo_verify_onchain_plan(with_verbose(cli, true), address, saved) =~= a + n + t);
        assert(cairo_verify_onchain_plan(with_verbose(cli, false), address, saved) =~= a + t);
    }
}

#[verifier::spinoff_prover]
proof fn lemma_declare_terse(
    cli: Cli,
    network: Seq<char>,
    mainnet: Option<Seq<char>>,
    sepolia: Option<Seq<char>>,
    account: Option<Seq<char>>,
    keystore: Option<Seq<char>>,
)
    ensures
        without_notes(declare_plan(with_verbose(cli, true), network, mainnet, sepolia, account, keystore)) == declare_plan(
            with_verbose(cli, false),
            network,
            mainnet,
            sepolia,
            account,
            keystore,
        ),
{
    let v = with_verbose(cli, true);
    let q = with_verbose(cli, false);
    let r = only_if(!cli.dry_run, seq![StepModel::RequireFiles(seq!["./contracts/cairo/Scarb.toml"@], true)]);
    let drpc = declare_rpc(network, mainnet, sepolia);
    if drpc is Some && account is Some && keystore is Some {
        let args = declare_args(drpc->0, account->0, keystore->0);
        let n = note_if(true, running("starkli"@, args));
        let t = if cli.dry_run {
            seq![StepModel::Say(would_run("starkli"@, args))]
        } else {
            seq![StepModel::StartTimer(0), StepModel::Run("starkli"@, args, None, crate::cairo::declare_mode(), false)]
        };
        lemma_without_notes_none(r);
        lemma_strip_tail(r, n, t);
        assert(declare_plan(v, network, mainnet, sepolia, account, keystore) =~= r + n + t);
        assert(declare_plan(q, network, mainnet, sepolia, account, keystore) =~= r + t);
    } else {
        lemma_without_notes_none(declare_plan(v, network, mainnet, sepolia, account, keystore));
    }
}

#[verifier::spinoff_prover]
proof fn lemma_deploy_terse(
    cli: Cli,
    class_hash: Option<Seq<char>>,
    saved: Option<Seq<char>>,
    mainnet: Option<Seq<char>>,
    account: Option<Seq<char>>,
    keystore: Option<Seq<char>>,
)
    ensures
        without_notes(deploy_plan(with_verbose(cli, true), class_hash, saved, mainnet, account, keystore)) == deploy_plan(
            with_verbose(cli, false),
            class_hash,
            saved,
            mainnet,
            account,
            keystore,
        ),
{
    let v = with_verbose(cli, true);
    let q = with_verbose(cli, false);
    let hash = deploy_hash(class_hash, saved);
    if hash is Some && mainnet is Some && account is Some && keystore is Some {
        let h = hash->0;
        let a = only_if(class_hash is None && !cli.quiet, seq![StepModel::Success("Using saved class hash: "@ + h)]);
        let args = deploy_args(h, mainnet->0, account->0, keystore->0);
        let n = note_if(true, running("starkli"@, args));
        let t = if cli.dry_run {
            seq![StepModel::Say(would_run("starkli"@, args))]
        } else {
            seq![StepModel::StartTimer(0), StepModel::Run("starkli"@, args, None, crate::cairo::deploy_mode(), false)]
        };
        lemma_without_notes_none(a);
        lemma_strip_tail(a, n, t);
        assert(deploy_plan(v, class_hash, saved, mainnet, account, keystore) =~= a + n + t);
        assert(deploy_plan(q, class_hash, saved, mainnet, account, keystore) =~= a + t);
    } else {
        lemma_without_notes_none(deploy_plan(v, class_hash, saved, mainnet, account, keystore));
    }
}

#[verifier::spinoff_prover]
proof fn lemma_evm_deploy_terse(cli: Cli, network: Seq<char>, rpc: Option<Seq<char>>, key: Option<Seq<char>>, verifier_exists: bool)
    ensures
        without_notes(evm_deploy_plan(with_verbose(cli, true), network, rpc, key, verifier_exists)) == evm_deploy_plan(
            with_verbose(cli, false),
            network,
            rpc,
            key,
            verifier_exists,
        ),
{
    let v = with_verbose(cli, true);
    let q = with_verbose(cli, false);
    if rpc is Some && key is Some && verifier_exists {
        let args = forge_create_args(rpc->0, key->0);
        let a = only_if(!cli.quiet, seq![StepModel::Say("🚀 Deploying verifier contract to "@ + network + "..."@)]);
        let n = note_if(true, running("forge"@, args));
        let t = if cli.dry_run {
            seq![StepModel::Say(would_run("forge"@, args))]
        } else {
            seq![shown("forge"@, args, true)]
        };
        let h = seq![crate::evm::foundry_check()];
        lemma_without_notes_none(a);
        lemma_without_notes_none(h);
        lemma_strip_tail(a, n, t);
        lemma_strip_join(h, h, a + n + t, a + t);
        assert(evm_deploy_plan(v, network, rpc, key, verifier_exists) =~= h + (a + n + t));
        assert(evm_deploy_plan(q, network, rpc, key, verifier_exists) =~= h + (a + t));
    } else {
        lemma_without_notes_none(evm_deploy_plan(v, network, rpc, key, verifier_exists));
    }
}

#[verifier::spinoff_prover]
proof fn lemma_evm_verify_terse(
    cli: Cli,
    rpc: Option<Seq<char>>,
    key: Option<Seq<char>>,
    address: FileStateModel,
    calldata: FileStateModel,
)
    ensures
        without_notes(evm_verify_onchain_plan(with_verbose(cli, true), rpc, key, address, calldata))
            == evm_verify_onchain_plan(with_verbose(cli, false), rpc, key, address, calldata),
{
    let v = with_verbose(cli, true);
    let q = with_verbose(cli, false);
    if rpc is Some && key is Some && address is Read && calldata is Read {
        let a = trim(address->Read_0);
        let args = cast_send_args(a, trim(calldata->Read_0), rpc->0, key->0);
        let p = only_if(
            !cli.quiet,
            seq![StepModel::Say("🚀 Verifying proof on-chain..."@), StepModel::Say("📍 Contract: "@ + a)],
        );
        let n = note_if(true, running("cast"@, args));
        let t = if cli.dry_run {
            seq![StepModel::Say(would_run("cast"@, args))]
        } else {
            seq![StepModel::StartTimer(0), captured("cast"@, args, true)]
        };
        lemma_without_notes_none(p);
        lemma_strip_tail(p, n, t);
        assert(evm_verify_onchain_plan(v, rpc, key, address, calldata) =~= p + n + t);
        assert(evm_verify_onchain_plan(q, rpc, key, address, calldata) =~= p + t);
    } else {
        lemma_without_notes_none(evm_verify_onchain_plan(v, rpc, key, address, calldata));
    }
}

/// Verbose Starknet and EVM commands only add log lines: for every set of
/// options and inputs, the plans of `cairo data`, `cairo verify-onchain`,
/// `cairo declare`, `cairo deploy`, `evm deploy` and `evm verify-onchain`
/// with `--verbose`, their log lines left out, are the plans without it.
#[verifier::spinoff_prover]
pub proof fn law_workflows_verbose_only_adds_log_lines(
    cli: Cli,
    address: Option<Seq<char>>,
    saved: Option<Seq<char>>,
    network: Seq<char>,
    mainnet: Option<Seq<char>>,
    sepolia: Option<Seq<char>>,
    account: Option<Seq<char>>,
    keystore: Option<Seq<char>>,
    rpc: Option<Seq<char>>,
    key: Option<Seq<char>>,
    verifier_exists: bool,
    address_file: FileStateModel,
    calldata_file: FileStateModel,
)
    ensures
        without_notes(cairo_data_plan(with_verbose(cli, true))) == cairo_data_plan(with_verbose(cli, false)),
        without_notes(cairo_verify_onchain_plan(with_verbose(cli, true), address, saved)) == cairo_verify_onchain_plan(
            with_verbose(cli, false),
            address,
            saved,
        ),
        without_notes(declare_plan(with_verbose(cli, true), network, mainnet, sepolia, account, keystore)) == declare_plan(
            with_verbose(cli, false),
            network,
            mainnet,
            sepolia,
            account,
            keystore,
        ),
        without_notes(deploy_plan(with_verbose(cli, true), address, saved, mainnet, account, keystore)) == deploy_plan(
            with_verbose(cli, false),
            address,
            saved,
            mainnet,
            account,
            keystore,
        ),
        without_notes(evm_deploy_plan(with_verbose(cli, true), network, rpc, key, verifier_exists)) == evm_deploy_plan(
            with_verbose(cli, false),
            network,
            rpc,
            key,
            verifier_exists,
        ),
        without_notes(evm_verify_onchain_plan(with_verbose(cli, true), rpc, key, address_file, calldata_file))
            == evm_verify_onchain_plan(with_verbose(cli, false), rpc, key, address_file, calldata_file),
{
    lemma_cairo_data_terse(cli);
    lemma_cairo_verify_terse(cli, address, saved);
    lemma_declare_terse(cli, network, mainnet, sepolia, account, keystore);
    lemma_deploy_terse(cli, address, saved, mainnet, account, keystore);
    lemma_evm_deploy_terse(cli, network, rpc, key, verifier_exists);
    lemma_evm_verify_terse(cli, rpc, key, address_file, calldata_file);
}


#[verifier::spinoff_prover]
proof fn lemma_cairo_gen_tail_terse(cli: Cli, pkg: Seq<char>)
    ensures
        without_notes(cairo_gen_tail(with_verbose(cli, true), pkg)) == cairo_gen_tail(with_verbose(cli, false), pkg),
{
    let vk = running("bb"@, starknet_vk_args(pkg));
    let gen = running("garaga"@, garaga_gen_args());
    let scarb = "Running: scarb build in contracts/cairo/"@;
    let a1 = seq![StepModel::StartTimer(1), shown("bb"@, starknet_vk_args(pkg), true)];
    let a2 = only_if(
        !cli.quiet,
        seq![
            StepModel::Report("Starknet VK generated"@, vk_path(Flavour::Starknet), 1),
            StepModel::SummarizeSize("Starknet verification key ("@, vk_path(Flavour::Starknet), ")"@),
        ],
    );
    let a3 = seq![crate::proving::make_dir("./contracts"@, "Failed to create contracts directory"@)];
    let c = seq![
        StepModel::StartTimer(2),
        crate::cairo::garaga_run(garaga_gen_args(), true),
        StepModel::ReplaceDir(
            "./cairo"@,
            "./contracts/cairo"@,
            FailureModel::Smart("Failed to remove existing cairo directory"@, seq!["Check directory permissions"@]),
            FailureModel::Smart(
                "Failed to move cairo directory"@,
                seq!["Check directory permissions"@, "Ensure you have write access to the contracts directory"@],
            ),
        ),
        StepModel::StartTimer(3),
    ];
    let d1 = seq![StepModel::Run("scarb"@, seq!["build"@], Some("./contracts/cairo"@), scarb_mode(), false)];
    let d2 = only_if(
        !cli.quiet,
        seq![
            StepModel::Report("Cairo verifier generated"@, "./contracts/cairo/"@, 2),
            StepModel::ReportElapsed("Cairo project built successfully ("@, 3, ")"@),
            StepModel::Summarize("Cairo verifier contract generated"@),
            StepModel::Summarize("Cairo project compiled successfully"@),
            StepModel::PrintSummary,
        ],
    );
    lemma_note_terse(vk);
    lemma_note_terse(gen);
    lemma_note_terse(scarb);
    lemma_without_notes_none(a1);
    lemma_without_notes_none(a2);
    lemma_without_notes_none(a3);
    lemma_without_notes_none(c);
    lemma_without_notes_none(d1);
    lemma_without_notes_none(d2);
    let p1v = note_if(true, vk) + a1;
    let p1q = note_if(false, vk) + a1;
    lemma_strip_join(note_if(true, vk), note_if(false, vk), a1, a1);
    lemma_strip_join(p1v, p1q, a2, a2);
    lemma_strip_join(p1v + a2, p1q + a2, a3, a3);
    lemma_strip_join(p1v + a2 + a3, p1q + a2 + a3, note_if(true, gen), note_if(false, gen));
    lemma_strip_join(p1v + a2 + a3 + note_if(true, gen), p1q + a2 + a3 + note_if(false, gen), c, c);
    lemma_strip_join(
        p1v + a2 + a3 + note_if(true, gen) + c,
        p1q + a2 + a3 + note_if(false, gen) + c,
        note_if(true, scarb),
        note_if(false, scarb),
    );
    lemma_strip_join(
        p1v + a2 + a3 + note_if(true, gen) + c + note_if(true, scarb),
        p1q + a2 + a3 + note_if(false, gen) + c + note_if(false, scarb),
        d1,
        d1,
    );
    lemma_strip_join(
        p1v + a2 + a3 + note_if(true, gen) + c + note_if(true, scarb) + d1,
        p1q + a2 + a3 + note_if(false, gen) + c + note_if(false, scarb) + d1,
        d2,
        d2,
    );
}


#[verifier::spinoff_prover]
#[verifier::rlimit(80)]
proof fn lemma_cairo_gen_terse(cli: Cli, pkg: Seq<char>)
    ensures
        without_notes(cairo_gen_plan(with_verbose(cli, true), pkg)) == cairo_gen_plan(with_verbose(cli, false), pkg),
{
    let v = with_verbose(cli, true);
    let q = with_verbose(cli, false);
    let r = only_if(
        !cli.dry_run,
        seq![
            StepModel::RequireFiles(crate::proving::build_outputs(pkg), true),
            crate::proving::make_dir("./target/starknet"@, "Failed to create target/starknet directory"@),
        ],
    );
    let n1 = note_if(true, running("bb"@, starknet_prove_args(pkg)));
    lemma_without_notes_none(r);
    if cli.dry_run {
        let t = seq![
            StepModel::Say(would_run("bb"@, starknet_prove_args(pkg))),
            StepModel::Say(would_run("bb"@, starknet_vk_args(pkg))),
            StepModel::Say(
                "Would run: garaga gen --system ultra_starknet_zk_honk --vk target/starknet/vk -o contracts/Verifier.cairo"@,
            ),
        ];
        lemma_strip_tail(r, n1, t);
        assert(cairo_gen_plan(v, pkg) =~= r + n1 + t);
        assert(cairo_gen_plan(q, pkg) =~= r + t);
    } else {
        let a = seq![StepModel::StartTimer(0), shown("bb"@, starknet_prove_args(pkg), true)] + only_if(
            !cli.quiet,
            seq![
                StepModel::Report("Starknet proof generated"@, proof_path(Flavour::Starknet), 0),
                StepModel::SummarizeSize("Starknet proof generated ("@, proof_path(Flavour::Starknet), ")"@),
            ],
        );
        let tv = cairo_gen_tail(v, pkg);
        let tq = cairo_gen_tail(q, pkg);
        lemma_cairo_gen_tail_terse(cli, pkg);
        lemma_strip_tail(r, n1, a);
        crate::plan::lemma_without_notes_add(r + n1 + a, tv);
        assert(cairo_gen_plan(v, pkg) =~= r + n1 + a + tv);
        assert(cairo_gen_plan(q, pkg) =~= r + a + tq);
    }
}

/// Verbose `cairo gen` only adds log lines: for every set of options, its
/// plan with `--verbose`, log lines left out, is its plan without it.
#[verifier::spinoff_prover]
pub proof fn law_cairo_gen_verbose_only_adds_log_lines(cli: Cli, pkg: Seq<char>)
    ensures
        without_notes(cairo_gen_plan(with_verbose(cli, true), pkg)) == cairo_gen_plan(with_verbose(cli, false), pkg),
{
    lemma_cairo_gen_terse(cli, pkg);
}


#[verifier::spinoff_prover]
proof fn lemma_keccak_terse(cli: Cli, pkg: Seq<char>, p: EvmGenProbes)
    ensures
        without_notes(crate::evm::evm_keccak_part(with_verbose(cli, true), pkg, p)) == crate::evm::evm_keccak_part(
            with_verbose(cli, false),
            pkg,
            p,
        ),
{
    let e = Seq::<StepModel>::empty();
    lemma_without_notes_none(e);
    if !p.proof || !p.vk {
        let head = only_if(!cli.quiet, seq![StepModel::Say("🔄 Generating keccak-optimized proof and verification key..."@)]);
        lemma_without_notes_none(head);
        if !p.bytecode || !p.witness {
            let f = seq![StepModel::Fail(crate::evm::missing_inputs_text())];
            lemma_without_notes_none(f);
            lemma_strip_join(head, head, f, f);
        } else {
            let x1 = running("bb"@, crate::evm::keccak_prove_args(pkg));
            let a = only_if(
                !cli.dry_run,
                seq![
                    StepModel::MakeDir(
                        "./target/bb"@,
                        FailureModel::Smart(
                            "Failed to create target/bb directory"@,
                            seq!["Check directory permissions"@, "Ensure you have write access"@],
                        ),
                    ),
                    StepModel::StartTimer(0),
                    shown("bb"@, crate::evm::keccak_prove_args(pkg), true),
                ] + only_if(!cli.quiet, seq![StepModel::Report("Keccak proof"@, proof_path(Flavour::Bb), 0)]),
            );
            let x2 = running("bb"@, crate::evm::keccak_write_vk_args(pkg));
            let b = only_if(
                !cli.dry_run,
                seq![StepModel::StartTimer(1), shown("bb"@, crate::evm::keccak_write_vk_args(pkg), true)] + only_if(
                    !cli.quiet,
                    seq![
                        StepModel::Report("Keccak VK"@, vk_path(Flavour::Bb), 1),
                        StepModel::SummarizeSize(
                            "Verification key with keccak optimization ("@,
                            vk_path(Flavour::Bb),
                            ")"@,
                        ),
                    ],
                ),
            );
            lemma_without_notes_none(a);
            lemma_without_notes_none(b);
            lemma_note_terse(x1);
            lemma_note_terse(x2);
            lemma_strip_join(note_if(true, x1), note_if(false, x1), a, a);
            lemma_strip_join(note_if(true, x1) + a, note_if(false, x1) + a, note_if(true, x2), note_if(false, x2));
            lemma_strip_join(note_if(true, x1) + a + note_if(true, x2), note_if(false, x1) + a + note_if(false, x2), b, b);
            lemma_strip_join(
                head,
                head,
                note_if(true, x1) + a + note_if(true, x2) + b,
                note_if(false, x1) + a + note_if(false, x2) + b,
            );
        }
    }
}

#[verifier::spinoff_prover]
proof fn lemma_init_terse(cli: Cli)
    ensures
        without_notes(crate::evm::evm_init_part(with_verbose(cli, true))) == crate::evm::evm_init_part(
            with_verbose(cli, false),
        ),
{
    let i1 = only_if(!cli.quiet, seq![StepModel::Say("🔨 Initializing Foundry project..."@)]);
    let ix = "Running: forge init --force contracts/evm"@;
    let i2 = only_if(
        !cli.dry_run,
        seq![StepModel::StartTimer(2), shown("forge"@, seq!["init"@, "--force"@, "contracts/evm"@], true)] + only_if(
            !cli.quiet,
            seq![
                StepModel::ReportElapsed("Foundry project initialized ("@, 2, ")"@),
                StepModel::Summarize("Foundry project structure created"@),
            ],
        ),
    );
    lemma_without_notes_none(i1);
    lemma_without_notes_none(i2);
    lemma_note_terse(ix);
    lemma_strip_join(i1, i1, note_if(true, ix), note_if(false, ix));
    lemma_strip_join(i1 + note_if(true, ix), i1 + note_if(false, ix), i2, i2);
}

#[verifier::spinoff_prover]
proof fn lemma_solidity_terse(cli: Cli)
    ensures
        without_notes(crate::evm::evm_solidity_part(with_verbose(cli, true))) == crate::evm::evm_solidity_part(
            with_verbose(cli, false),
        ),
{
    let sol = solidity_args(vk_path(Flavour::Bb), crate::evm::evm_verifier_path());
    let s1 = only_if(!cli.quiet, seq![StepModel::Say("📝 Generating Solidity verifier contract..."@)]);
    let sx = running("bb"@, sol);
    let s2 = only_if(
        !cli.dry_run,
        seq![
            StepModel::MakeDir(
                "./contracts/evm/src"@,
                FailureModel::Smart("Failed to create src directory"@, seq!["Check directory permissions"@]),
            ),
            StepModel::StartTimer(3),
            shown("bb"@, sol, true),
        ] + only_if(
            !cli.quiet,
            seq![
                StepModel::Report("Solidity verifier"@, crate::evm::evm_verifier_path(), 3),
                StepModel::SummarizeSize("Solidity verifier contract ("@, crate::evm::evm_verifier_path(), ")"@),
            ],
        ),
    );
    lemma_without_notes_none(s1);
    lemma_without_notes_none(s2);
    lemma_note_terse(sx);
    lemma_strip_join(s1, s1, note_if(true, sx), note_if(false, sx));
    lemma_strip_join(s1 + note_if(true, sx), s1 + note_if(false, sx), s2, s2);
}

#[verifier::spinoff_prover]
proof fn lemma_build_terse(cli: Cli)
    ensures
        without_notes(crate::evm::evm_build_part(with_verbose(cli, true))) == crate::evm::evm_build_part(
            with_verbose(cli, false),
        ),
{
    let b1 = only_if(!cli.quiet, seq![StepModel::Say("🔨 Building Foundry project..."@)]);
    let bx = "Running: forge build --root contracts/evm"@;
    let b2 = only_if(
        !cli.dry_run,
        seq![StepModel::StartTimer(4), shown("forge"@, seq!["build"@, "--root"@, "contracts/evm"@], true)] + only_if(
            !cli.quiet,
            seq![
                StepModel::ReportElapsed("Foundry project compiled successfully ("@, 4, ")"@),
                StepModel::Summarize("Foundry project compiled successfully"@),
            ],
        ),
    );
    lemma_without_notes_none(b1);
    lemma_without_notes_none(b2);
    lemma_note_terse(bx);
    lemma_strip_join(b1, b1, note_if(true, bx), note_if(false, bx));
    lemma_strip_join(b1 + note_if(true, bx), b1 + note_if(false, bx), b2, b2);
}

#[verifier::spinoff_prover]
proof fn lemma_toml_terse(cli: Cli, p: EvmGenProbes, foundry_toml: bool)
    requires
        foundry_toml || cli.quiet,
    ensures
        ({
            let tv = only_if(!foundry_toml, crate::evm::evm_toml_part(with_verbose(cli, true)));
            let tq = only_if(!foundry_toml, crate::evm::evm_toml_part(with_verbose(cli, false)));
            &&& tv == tq
            &&& without_notes(tq) == tq
        }),
{
    let tq = only_if(!foundry_toml, crate::evm::evm_toml_part(with_verbose(cli, false)));
    if !foundry_toml {
        assert(crate::evm::evm_toml_part(with_verbose(cli, true)) =~= crate::evm::evm_toml_part(with_verbose(cli, false)));
    }
    lemma_without_notes_none(tq);
}

#[verifier::spinoff_prover]
proof fn lemma_foundry_terse(cli: Cli, p: EvmGenProbes, foundry_toml: bool)
    requires
        foundry_toml || cli.quiet,
    ensures
        without_notes(crate::evm::evm_foundry_part(with_verbose(cli, true), p, foundry_toml)) == crate::evm::evm_foundry_part(
            with_verbose(cli, false),
            p,
            foundry_toml,
        ),
{
    let v = with_verbose(cli, true);
    let q = with_verbose(cli, false);
    lemma_without_notes_none(Seq::<StepModel>::empty());
    lemma_init_terse(cli);
    lemma_solidity_terse(cli);
    lemma_build_terse(cli);
    let iv = only_if(!p.foundry_root, crate::evm::evm_init_part(v));
    let iq = only_if(!p.foundry_root, crate::evm::evm_init_part(q));
    let sv = crate::evm::evm_solidity_part(v);
    let sq = crate::evm::evm_solidity_part(q);
    let tv = only_if(!foundry_toml, crate::evm::evm_toml_part(v));
    let tq = only_if(!foundry_toml, crate::evm::evm_toml_part(q));
    lemma_toml_terse(cli, p, foundry_toml);
    let bv = crate::evm::evm_build_part(v);
    let bq = crate::evm::evm_build_part(q);
    lemma_strip_join(iv, iq, sv, sq);
    lemma_strip_join(iv + sv, iq + sq, tv, tq);
    lemma_strip_join(iv + sv + tv, iq + sq + tq, bv, bq);
}

/// Verbose `evm gen` only adds log lines, unless it writes the Foundry
/// configuration while printing: for every set of options and every state
/// of the disk where `contracts/evm/foundry.toml` exists once the Foundry
/// project is in place (`foundry_toml`) or `--quiet` is given, its plan
/// (both stages) with `--verbose`, log lines left out, is its plan
/// without it.
#[verifier::spinoff_prover]
pub proof fn law_evm_gen_verbose_only_adds_log_lines(cli: Cli, pkg: Seq<char>, probes: EvmGenProbes, foundry_toml: bool)
    requires
        foundry_toml || cli.quiet,
    ensures
        without_notes(evm_gen_plan(with_verbose(cli, true), pkg, probes, foundry_toml)) == evm_gen_plan(
            with_verbose(cli, false),
            pkg,
            probes,
            foundry_toml,
        ),
{
    let v = with_verbose(cli, true);
    let q = with_verbose(cli, false);
    lemma_keccak_terse(cli, pkg, probes);
    lemma_foundry_terse(cli, probes, foundry_toml);
    let c = only_if(!cli.quiet, crate::evm::evm_gen_closing());
    lemma_without_notes_none(c);
    lemma_strip_join(
        crate::evm::evm_keccak_part(v, pkg, probes),
        crate::evm::evm_keccak_part(q, pkg, probes),
        crate::evm::evm_foundry_part(v, probes, foundry_toml),
        crate::evm::evm_foundry_part(q, probes, foundry_toml),
    );
    lemma_strip_join(
        crate::evm::evm_keccak_part(v, pkg, probes) + crate::evm::evm_foundry_part(v, probes, foundry_toml),
        crate::evm::evm_keccak_part(q, pkg, probes) + crate::evm::evm_foundry_part(q, probes, foundry_toml),
        c,
        c,
    );
}

/// `cairo gen` writes the verification key with the oracle of its proof:
/// outside dry runs, its plan runs `bb prove` and then `bb write_vk`, both
/// with `--oracle_hash starknet`, the oracle the Starknet verifier expects.
#[verifier::spinoff_prover]
pub proof fn law_cairo_gen_key_matches_proof_oracle(cli: Cli, pkg: Seq<char>)
    requires
        !cli.dry_run,
    ensures
        exists|i: int, k: int|
            #![trigger cairo_gen_plan(cli, pkg)[i], cairo_gen_plan(cli, pkg)[k]]
            0 <= i < k < cairo_gen_plan(cli, pkg).len() && runs_sub(cairo_gen_plan(cli, pkg)[i], "bb"@, "prove"@)
                && flag_set(step_args(cairo_gen_plan(cli, pkg)[i]), "--oracle_hash"@, "starknet"@)
                && runs_sub(cairo_gen_plan(cli, pkg)[k], "bb"@, "write_vk"@)
                && flag_set(step_args(cairo_gen_plan(cli, pkg)[k]), "--oracle_hash"@, "starknet"@)
                && flag_set(step_args(cairo_gen_plan(cli, pkg)[i]), "-b"@, crate::paths::bytecode_path(pkg, Flavour::Bb))
                && flag_set(step_args(cairo_gen_plan(cli, pkg)[i]), "-w"@, crate::paths::witness_path(pkg, Flavour::Bb))
                && flag_set(step_args(cairo_gen_plan(cli, pkg)[k]), "-b"@, crate::paths::bytecode_path(pkg, Flavour::Bb))
                && flag_set(step_args(cairo_gen_plan(cli, pkg)[i]), "-o"@, "./target/starknet/"@)
                && flag_set(step_args(cairo_gen_plan(cli, pkg)[k]), "-o"@, "./target/starknet/"@)
                && flag_set(step_args(cairo_gen_plan(cli, pkg)[i]), "-s"@, "ultra_honk"@)
                && step_args(cairo_gen_plan(cli, pkg)[i]).contains("--zk"@),
{
    let plan = cairo_gen_plan(cli, pkg);
    let r = seq![
        StepModel::RequireFiles(crate::proving::build_outputs(pkg), true),
        crate::proving::make_dir("./target/starknet"@, "Failed to create target/starknet directory"@),
    ];
    let n0 = note_if(cli.verbose, running("bb"@, starknet_prove_args(pkg)));
    let a = seq![StepModel::StartTimer(0), shown("bb"@, starknet_prove_args(pkg), true)];
    let q1 = only_if(
        !cli.quiet,
        seq![
            StepModel::Report("Starknet proof generated"@, proof_path(Flavour::Starknet), 0),
            StepModel::SummarizeSize("Starknet proof generated ("@, proof_path(Flavour::Starknet), ")"@),
        ],
    );
    let tail = cairo_gen_tail(cli, pkg);
    let nv = note_if(cli.verbose, running("bb"@, starknet_vk_args(pkg)));
    let b = seq![StepModel::StartTimer(1), shown("bb"@, starknet_vk_args(pkg), true)];
    assert(plan =~= r + n0 + a + q1 + tail);
    let i = (r.len() + n0.len() + 1) as int;
    assert(plan[i] == shown("bb"@, starknet_prove_args(pkg), true));
    assert(tail[(nv.len() + 1) as int] == shown("bb"@, starknet_vk_args(pkg), true));
    let k = (r.len() + n0.len() + a.len() + q1.len() + nv.len() + 1) as int;
    assert(plan[k] == tail[(nv.len() + 1) as int]);
    let pa = starknet_prove_args(pkg);
    let va = starknet_vk_args(pkg);
    assert(pa[3] == "--oracle_hash"@ && pa[4] == "starknet"@);
    assert(flag_set(pa, "--oracle_hash"@, "starknet"@));
    assert(va[5] == "--oracle_hash"@ && va[6] == "starknet"@);
    assert(flag_set(va, "--oracle_hash"@, "starknet"@));
    assert(pa[6] == "-b"@ && pa[7] == crate::paths::bytecode_path(pkg, Flavour::Bb));
    assert(flag_set(pa, "-b"@, crate::paths::bytecode_path(pkg, Flavour::Bb)));
    assert(pa[8] == "-w"@ && pa[9] == crate::paths::witness_path(pkg, Flavour::Bb));
    assert(flag_set(pa, "-w"@, crate::paths::witness_path(pkg, Flavour::Bb)));
    assert(pa[10] == "-o"@ && pa[11] == "./target/starknet/"@);
    assert(flag_set(pa, "-o"@, "./target/starknet/"@));
    assert(va[1] == "-b"@ && va[2] == crate::paths::bytecode_path(pkg, Flavour::Bb));
    assert(flag_set(va, "-b"@, crate::paths::bytecode_path(pkg, Flavour::Bb)));
    assert(va[3] == "-o"@ && va[4] == "./target/starknet/"@);
    assert(flag_set(va, "-o"@, "./target/starknet/"@));
    assert(pa[1] == "-s"@ && pa[2] == "ultra_honk"@);
    assert(flag_set(pa, "-s"@, "ultra_honk"@));
    assert(pa[5] == "--zk"@);
    assert(pa.contains("--zk"@));
}

/// `evm gen` makes a keccak verification key for its keccak proof: when
/// the proof or the key is missing and the build outputs are there, its
/// first stage (outside dry runs) runs `bb prove` and then `bb write_vk`,
/// both with `--oracle_hash keccak`, the oracle the Solidity verifier uses.
#[verifier::spinoff_prover]
pub proof fn law_evm_gen_key_matches_proof_oracle(cli: Cli, pkg: Seq<char>, p: EvmGenProbes)
    requires
        !cli.dry_run,
        !p.proof || !p.vk,
        p.bytecode && p.witness,
    ensures
        exists|i: int, k: int|
            #![trigger crate::evm::evm_gen_start_plan(cli, pkg, p)[i], crate::evm::evm_gen_start_plan(cli, pkg, p)[k]]
            0 <= i < k < crate::evm::evm_gen_start_plan(cli, pkg, p).len()
                && runs_sub(crate::evm::evm_gen_start_plan(cli, pkg, p)[i], "bb"@, "prove"@)
                && flag_set(step_args(crate::evm::evm_gen_start_plan(cli, pkg, p)[i]), "--oracle_hash"@, "keccak"@)
                && runs_sub(crate::evm::evm_gen_start_plan(cli, pkg, p)[k], "bb"@, "write_vk"@)
                && flag_set(step_args(crate::evm::evm_gen_start_plan(cli, pkg, p)[k]), "--oracle_hash"@, "keccak"@)
                && flag_set(step_args(crate::evm::evm_gen_start_plan(cli, pkg, p)[i]), "-b"@, crate::paths::bytecode_path(pkg, Flavour::Bb))
                && flag_set(step_args(crate::evm::evm_gen_start_plan(cli, pkg, p)[i]), "-w"@, crate::paths::witness_path(pkg, Flavour::Bb))
                && flag_set(step_args(crate::evm::evm_gen_start_plan(cli, pkg, p)[k]), "-b"@, crate::paths::bytecode_path(pkg, Flavour::Bb))
                && flag_set(step_args(crate::evm::evm_gen_start_plan(cli, pkg, p)[i]), "-o"@, "./target/bb"@)
                && flag_set(step_args(crate::evm::evm_gen_start_plan(cli, pkg, p)[k]), "-o"@, "./target/bb"@)
                && flag_set(step_args(crate::evm::evm_gen_start_plan(cli, pkg, p)[i]), "--output_format"@, "fields"@),
{
    let plan = crate::evm::evm_gen_start_plan(cli, pkg, p);
    let kp = crate::evm::evm_keccak_part(cli, pkg, p);
    let head = only_if(!cli.quiet, seq![StepModel::Say("🔄 Generating keccak-optimized proof and verification key..."@)]);
    let n1 = note_if(cli.verbose, running("bb"@, crate::evm::keccak_prove_args(pkg)));
    let a = seq![
        StepModel::MakeDir(
            "./target/bb"@,
            FailureModel::Smart(
                "Failed to create target/bb directory"@,
                seq!["Check directory permissions"@, "Ensure you have write access"@],
            ),
        ),
        StepModel::StartTimer(0),
        shown("bb"@, crate::evm::keccak_prove_args(pkg), true),
    ] + only_if(!cli.quiet, seq![StepModel::Report("Keccak proof"@, proof_path(Flavour::Bb), 0)]);
    let n2 = note_if(cli.verbose, running("bb"@, crate::evm::keccak_write_vk_args(pkg)));
    let b = seq![StepModel::StartTimer(1), shown("bb"@, crate::evm::keccak_write_vk_args(pkg), true)] + only_if(
        !cli.quiet,
        seq![
            StepModel::Report("Keccak VK"@, vk_path(Flavour::Bb), 1),
            StepModel::SummarizeSize("Verification key with keccak optimization ("@, vk_path(Flavour::Bb), ")"@),
        ],
    );
    assert(kp =~= head + (n1 + a + n2 + b));
    let rest = only_if(!p.foundry_root, crate::evm::evm_init_part(cli)) + crate::evm::evm_solidity_part(cli);
    assert(plan =~= head + n1 + a + n2 + b + rest);
    let i = (head.len() + n1.len() + 2) as int;
    let k = (head.len() + n1.len() + a.len() + n2.len() + 1) as int;
    assert(a[2] == shown("bb"@, crate::evm::keccak_prove_args(pkg), true));
    assert(plan[i] == a[2]);
    assert(b[1] == shown("bb"@, crate::evm::keccak_write_vk_args(pkg), true));
    assert(plan[k] == b[1]);
    let pa = crate::evm::keccak_prove_args(pkg);
    let va = crate::evm::keccak_write_vk_args(pkg);
    assert(pa[7] == "--oracle_hash"@ && pa[8] == "keccak"@);
    assert(flag_set(pa, "--oracle_hash"@, "keccak"@));
    assert(va[5] == "--oracle_hash"@ && va[6] == "keccak"@);
    assert(flag_set(va, "--oracle_hash"@, "keccak"@));
    assert(pa[1] == "-b"@ && pa[2] == crate::paths::bytecode_path(pkg, Flavour::Bb));
    assert(flag_set(pa, "-b"@, crate::paths::bytecode_path(pkg, Flavour::Bb)));
    assert(pa[3] == "-w"@ && pa[4] == crate::paths::witness_path(pkg, Flavour::Bb));
    assert(flag_set(pa, "-w"@, crate::paths::witness_path(pkg, Flavour::Bb)));
    assert(pa[5] == "-o"@ && pa[6] == "./target/bb"@);
    assert(flag_set(pa, "-o"@, "./target/bb"@));
    assert(va[1] == "-b"@ && va[2] == crate::paths::bytecode_path(pkg, Flavour::Bb));
    assert(flag_set(va, "-b"@, crate::paths::bytecode_path(pkg, Flavour::Bb)));
    assert(va[3] == "-o"@ && va[4] == "./target/bb"@);
    assert(flag_set(va, "-o"@, "./target/bb"@));
    assert(pa[9] == "--output_format"@ && pa[10] == "fields"@);
    assert(flag_set(pa, "--output_format"@, "fields"@));
}

/// `evm deploy` sends the verifier to the network: once the verifier, the
/// RPC URL and the key are there, outside dry runs it runs `forge create`
/// with `--broadcast`, against the given RPC URL and with the given key.
#[verifier::spinoff_prover]
pub proof fn law_evm_deploy_broadcasts(cli: Cli, network: Seq<char>, rpc: Seq<char>, key: Seq<char>)
    requires
        !cli.dry_run,
    ensures
        exists|i: int|
            #![trigger evm_deploy_plan(cli, network, Some(rpc), Some(key), true)[i]]
            0 <= i < evm_deploy_plan(cli, network, Some(rpc), Some(key), true).len()
                && runs_sub(evm_deploy_plan(cli, network, Some(rpc), Some(key), true)[i], "forge"@, "create"@)
                && step_args(evm_deploy_plan(cli, network, Some(rpc), Some(key), true)[i]).contains("--broadcast"@)
                && flag_set(step_args(evm_deploy_plan(cli, network, Some(rpc), Some(key), true)[i]), "--rpc-url"@, rpc)
                && flag_set(step_args(evm_deploy_plan(cli, network, Some(rpc), Some(key), true)[i]), "--private-key"@, key)
                && flag_set(
                    step_args(evm_deploy_plan(cli, network, Some(rpc), Some(key), true)[i]),
                    "--build-info"@,
                    "contracts/evm/out/Verifier.sol/Verifier.json"@,
                ),
{
    let plan = evm_deploy_plan(cli, network, Some(rpc), Some(key), true);
    let h = seq![crate::evm::foundry_check()];
    let a = only_if(!cli.quiet, seq![StepModel::Say("🚀 Deploying verifier contract to "@ + network + "..."@)]);
    let n = note_if(cli.verbose, running("forge"@, forge_create_args(rpc, key)));
    let run = shown("forge"@, forge_create_args(rpc, key), true);
    assert(plan =~= h + a + n + seq![run]);
    let i = (h.len() + a.len() + n.len()) as int;
    assert(plan[i] == run);
    let args = forge_create_args(rpc, key);
    assert(args[8] == "--broadcast"@);
    assert(args.contains("--broadcast"@));
    assert(args[1] == "--rpc-url"@ && args[2] == rpc);
    assert(flag_set(args, "--rpc-url"@, rpc));
    assert(args[3] == "--private-key"@ && args[4] == key);
    assert(flag_set(args, "--private-key"@, key));
    assert(args[11] == "--build-info"@ && args[12] == "contracts/evm/out/Verifier.sol/Verifier.json"@);
    assert(flag_set(args, "--build-info"@, "contracts/evm/out/Verifier.sol/Verifier.json"@));
}

/// `bargo prove` verifies what it proved unless told to skip it: outside
/// dry runs and without `skip_verify`, quiet or not, its plan runs
/// `bb prove`, then `bb write_vk`, then `bb verify` on the verification key,
/// the proof and the public inputs in `target/bb`.
#[verifier::spinoff_prover]
pub proof fn law_prove_verifies_the_proof(cli: Cli, pkg: Seq<char>)
    requires
        !cli.dry_run,
    ensures
        exists|i: int, j: int, k: int|
            #![trigger crate::proving::prove_plan(cli, pkg, false)[i], crate::proving::prove_plan(cli, pkg, false)[j], crate::proving::prove_plan(cli, pkg, false)[k]]
            0 <= i < j < k < crate::proving::prove_plan(cli, pkg, false).len()
                && runs_sub(crate::proving::prove_plan(cli, pkg, false)[i], "bb"@, "prove"@)
                && runs_sub(crate::proving::prove_plan(cli, pkg, false)[j], "bb"@, "write_vk"@)
                && runs_sub(crate::proving::prove_plan(cli, pkg, false)[k], "bb"@, "verify"@)
                && flag_set(step_args(crate::proving::prove_plan(cli, pkg, false)[i]), "-b"@, crate::paths::bytecode_path(pkg, Flavour::Bb))
                && flag_set(step_args(crate::proving::prove_plan(cli, pkg, false)[i]), "-w"@, crate::paths::witness_path(pkg, Flavour::Bb))
                && flag_set(step_args(crate::proving::prove_plan(cli, pkg, false)[j]), "-b"@, crate::paths::bytecode_path(pkg, Flavour::Bb))
                && flag_set(step_args(crate::proving::prove_plan(cli, pkg, false)[k]), "-k"@, vk_path(Flavour::Bb))
                && flag_set(step_args(crate::proving::prove_plan(cli, pkg, false)[k]), "-p"@, proof_path(Flavour::Bb))
                && flag_set(
                    step_args(crate::proving::prove_plan(cli, pkg, false)[k]),
                    "-i"@,
                    crate::paths::public_inputs_path(Flavour::Bb),
                ),
{
    let plan = crate::proving::prove_plan(cli, pkg, false);
    let r = seq![StepModel::RequireFiles(crate::proving::build_outputs(pkg), true)];
    let n0 = note_if(cli.verbose, running("bb"@, crate::proving::bb_prove_args(pkg)));
    let a = seq![
        crate::proving::make_dir("./target/bb"@, "Failed to create target/bb directory"@),
        StepModel::StartTimer(0),
        shown("bb"@, crate::proving::bb_prove_args(pkg), true),
    ];
    let q1 = only_if(
        !cli.quiet,
        seq![
            StepModel::Report("Proof generated"@, proof_path(Flavour::Bb), 0),
            StepModel::SummarizeSize("Proof generated ("@, proof_path(Flavour::Bb), ")"@),
        ],
    );
    let n1 = note_if(cli.verbose, running("bb"@, crate::proving::bb_vk_args(pkg)));
    let b = seq![StepModel::StartTimer(1), shown("bb"@, crate::proving::bb_vk_args(pkg), true)];
    let q2 = only_if(
        !cli.quiet,
        seq![
            StepModel::Report("VK saved"@, vk_path(Flavour::Bb), 1),
            StepModel::SummarizeSize("Verification key generated ("@, vk_path(Flavour::Bb), ")"@),
        ],
    );
    let t = crate::proving::prove_verify_tail(cli);
    let nv = note_if(cli.verbose, running("bb"@, crate::proving::verify_args(Flavour::Bb)));
    assert(plan =~= r + n0 + a + q1 + n1 + b + q2 + t);
    let i = (r.len() + n0.len() + 2) as int;
    let j = (r.len() + n0.len() + a.len() + q1.len() + n1.len() + 1) as int;
    let k = (r.len() + n0.len() + a.len() + q1.len() + n1.len() + b.len() + q2.len() + nv.len() + 1) as int;
    assert(plan[i] == a[2]);
    assert(plan[j] == b[1]);
    assert(t[(nv.len() + 1) as int] == shown("bb"@, crate::proving::verify_args(Flavour::Bb), true));
    assert(plan[k] == t[(nv.len() + 1) as int]);
    let pa = crate::proving::bb_prove_args(pkg);
    let ka = crate::proving::bb_vk_args(pkg);
    assert(pa[1] == "-b"@ && pa[2] == crate::paths::bytecode_path(pkg, Flavour::Bb));
    assert(flag_set(pa, "-b"@, crate::paths::bytecode_path(pkg, Flavour::Bb)));
    assert(pa[3] == "-w"@ && pa[4] == crate::paths::witness_path(pkg, Flavour::Bb));
    assert(flag_set(pa, "-w"@, crate::paths::witness_path(pkg, Flavour::Bb)));
    assert(ka[1] == "-b"@ && ka[2] == crate::paths::bytecode_path(pkg, Flavour::Bb));
    assert(flag_set(ka, "-b"@, crate::paths::bytecode_path(pkg, Flavour::Bb)));
    let va = crate::proving::verify_args(Flavour::Bb);
    assert(va[1] == "-k"@ && va[2] == vk_path(Flavour::Bb));
    assert(flag_set(va, "-k"@, vk_path(Flavour::Bb)));
    assert(va[3] == "-p"@ && va[4] == proof_path(Flavour::Bb));
    assert(flag_set(va, "-p"@, proof_path(Flavour::Bb)));
    assert(va[5] == "-i"@ && va[6] == crate::paths::public_inputs_path(Flavour::Bb));
    assert(flag_set(va, "-i"@, crate::paths::public_inputs_path(Flavour::Bb)));
}

/// No step of `plan` runs `program` with `sub` as its first argument.
pub open spec fn never_runs(plan: Seq<StepModel>, program: Seq<char>, sub: Seq<char>) -> bool {
    forall|i: int| 0 <= i < plan.len() ==> !runs_sub(#[trigger] plan[i], program, sub)
}

/// `bargo prove` with `skip_verify` does not verify: no step of its plan,
/// dry run or not, runs `bb verify`.
#[verifier::spinoff_prover]
pub proof fn law_prove_skip_verify_skips(cli: Cli, pkg: Seq<char>)
    ensures
        never_runs(crate::proving::prove_plan(cli, pkg, true), "bb"@, "verify"@),
{
    reveal_strlit("prove");
    reveal_strlit("write_vk");
    reveal_strlit("verify");
    let v = "verify"@;
    let pa = crate::proving::bb_prove_args(pkg);
    let ka = crate::proving::bb_vk_args(pkg);
    assert(pa[0] != v) by {
        assert(pa[0].len() == 5);
    }
    assert(ka[0] != v) by {
        assert(ka[0].len() == 8);
    }
    let plan = crate::proving::prove_plan(cli, pkg, true);
    assert forall|i: int| 0 <= i < plan.len() implies !runs_sub(#[trigger] plan[i], "bb"@, v) by {
        let s = plan[i];
        if runs_sub(s, "bb"@, v) {
            assert(s == shown("bb"@, pa, true) || s == shown("bb"@, ka, true));
        }
    }
}

/// `cairo gen` builds the Cairo verifier from the Starknet key it wrote:
/// outside dry runs, after `bb write_vk` its plan runs `garaga gen` for the
/// `ultra_starknet_zk_honk` system on the key at `target/starknet/vk`.
#[verifier::spinoff_prover]
pub proof fn law_cairo_verifier_from_its_key(cli: Cli, pkg: Seq<char>)
    requires
        !cli.dry_run,
    ensures
        exists|k: int, g: int|
            #![trigger cairo_gen_plan(cli, pkg)[k], cairo_gen_plan(cli, pkg)[g]]
            0 <= k < g < cairo_gen_plan(cli, pkg).len() && runs_sub(cairo_gen_plan(cli, pkg)[k], "bb"@, "write_vk"@)
                && runs_sub(cairo_gen_plan(cli, pkg)[g], "garaga"@, "gen"@)
                && flag_set(step_args(cairo_gen_plan(cli, pkg)[g]), "--system"@, "ultra_starknet_zk_honk"@)
                && flag_set(step_args(cairo_gen_plan(cli, pkg)[g]), "--vk"@, vk_path(Flavour::Starknet)),
{
    let plan = cairo_gen_plan(cli, pkg);
    let r = seq![
        StepModel::RequireFiles(crate::proving::build_outputs(pkg), true),
        crate::proving::make_dir("./target/starknet"@, "Failed to create target/starknet directory"@),
    ];
    let n0 = note_if(cli.verbose, running("bb"@, starknet_prove_args(pkg)));
    let a = seq![StepModel::StartTimer(0), shown("bb"@, starknet_prove_args(pkg), true)];
    let q1 = only_if(
        !cli.quiet,
        seq![
            StepModel::Report("Starknet proof generated"@, proof_path(Flavour::Starknet), 0),
            StepModel::SummarizeSize("Starknet proof generated ("@, proof_path(Flavour::Starknet), ")"@),
        ],
    );
    let tail = cairo_gen_tail(cli, pkg);
    let nv = note_if(cli.verbose, running("bb"@, starknet_vk_args(pkg)));
    let qv = only_if(
        !cli.quiet,
        seq![
            StepModel::Report("Starknet VK generated"@, vk_path(Flavour::Starknet), 1),
            StepModel::SummarizeSize("Starknet verification key ("@, vk_path(Flavour::Starknet), ")"@),
        ],
    );
    let ng = note_if(cli.verbose, running("garaga"@, garaga_gen_args()));
    assert(plan =~= r + n0 + a + q1 + tail);
    let base = (r.len() + n0.len() + a.len() + q1.len()) as int;
    let kt = (nv.len() + 1) as int;
    let gt = (nv.len() + 2 + qv.len() + 1 + ng.len() + 1) as int;
    assert(tail[kt] == shown("bb"@, starknet_vk_args(pkg), true));
    assert(tail[gt] == crate::cairo::garaga_run(garaga_gen_args(), true));
    assert(plan[base + kt] == tail[kt]);
    assert(plan[base + gt] == tail[gt]);
    let ga = garaga_gen_args();
    assert(ga[1] == "--system"@ && ga[2] == "ultra_starknet_zk_honk"@);
    assert(flag_set(ga, "--system"@, "ultra_starknet_zk_honk"@));
    assert(ga[3] == "--vk"@ && ga[4] == vk_path(Flavour::Starknet));
    assert(flag_set(ga, "--vk"@, vk_path(Flavour::Starknet)));
}

/// `evm gen` builds the Solidity verifier from the keccak key: outside dry
/// runs its first stage runs `bb write_solidity_verifier` on the key at
/// `target/bb/vk`, writing `contracts/evm/src/Verifier.sol`, the contract
/// that `evm deploy` deploys.
#[verifier::spinoff_prover]
pub proof fn law_evm_verifier_from_its_key(cli: Cli, pkg: Seq<char>, p: EvmGenProbes)
    requires
        !cli.dry_run,
        (p.proof && p.vk) || (p.bytecode && p.witness),
    ensures
        exists|s: int|
            #![trigger crate::evm::evm_gen_start_plan(cli, pkg, p)[s]]
            0 <= s < crate::evm::evm_gen_start_plan(cli, pkg, p).len()
                && runs_sub(crate::evm::evm_gen_start_plan(cli, pkg, p)[s], "bb"@, "write_solidity_verifier"@)
                && flag_set(step_args(crate::evm::evm_gen_start_plan(cli, pkg, p)[s]), "-k"@, vk_path(Flavour::Bb))
                && flag_set(step_args(crate::evm::evm_gen_start_plan(cli, pkg, p)[s]), "-o"@, "./contracts/evm/src/Verifier.sol"@),
{
    let plan = crate::evm::evm_gen_start_plan(cli, pkg, p);
    let kp = crate::evm::evm_keccak_part(cli, pkg, p);
    let ip = only_if(!p.foundry_root, crate::evm::evm_init_part(cli));
    let sol = solidity_args(vk_path(Flavour::Bb), crate::evm::evm_verifier_path());
    let s1 = only_if(!cli.quiet, seq![StepModel::Say("📝 Generating Solidity verifier contract..."@)]);
    let sn = note_if(cli.verbose, running("bb"@, sol));
    let sp = crate::evm::evm_solidity_part(cli);
    assert(plan =~= kp + ip + sp);
    let at = (s1.len() + sn.len() + 2) as int;
    assert(sp[at] == shown("bb"@, sol, true));
    let s = (kp.len() + ip.len()) as int + at;
    assert(plan[s] == sp[at]);
    assert(sol[1] == "-k"@ && sol[2] == vk_path(Flavour::Bb));
    assert(flag_set(sol, "-k"@, vk_path(Flavour::Bb)));
    assert(sol[3] == "-o"@ && sol[4] == "./contracts/evm/src/Verifier.sol"@);
    assert(flag_set(sol, "-o"@, "./contracts/evm/src/Verifier.sol"@));
}

} // verus!
