use bargo::cairo::{
    build_cairo_project, build_default_cairo_project, check_cairo_project, clean_cairo_artifacts, clean_cairo_project,
    create_cairo_project_structure, ensure_starknet_target_dir, generate_starknet_proof, init_scarb_project, run_gen,
    run_scarb_build, test_cairo_project, validate_cairo_directory_structure,
};
use bargo::cli::Cli;
use bargo::evm::{
    deploy_contract, deploy_verifier_contract, generate_evm_proof, generate_evm_vk, generate_keccak_proof,
    init_default_foundry_project, run_quick_evm_gen, validate_evm_artifacts, validate_foundry_installation,
    verify_evm_proof, write_solidity_verifier_from_evm_vk,
};
use bargo::paths::{workspace_target, Flavour};
use bargo::plan::{Failure, RunMode, Step};
use bargo::proving::{generate_proof_and_vk, generate_vk_with_oracle, verify_proof_generic};

fn strings(items: &[&str]) -> Vec<String> {
    items.iter().map(|s| s.to_string()).collect()
}

fn args_of(step: &Step) -> (String, Vec<String>) {
    match step {
        Step::Run { program, args, .. } => (program.clone(), args.clone()),
        other => panic!("expected a run, got {:?}", other),
    }
}

#[test]
fn garaga_builders() {
    assert_eq!(args_of(&build_cairo_project("p")), ("garaga".to_string(), strings(&["build", "p"])));
    assert_eq!(args_of(&build_default_cairo_project()).1, strings(&["build", "./contracts/cairo/"]));
    assert_eq!(args_of(&init_scarb_project("p", "n")).1, strings(&["init", "p", "--name", "n"]));
    assert_eq!(args_of(&clean_cairo_project("p")).1, strings(&["clean", "p"]));
    assert_eq!(args_of(&test_cairo_project("p")).1, strings(&["test", "p"]));
    assert_eq!(args_of(&check_cairo_project("p")).1, strings(&["check", "p"]));
    assert_eq!(args_of(&run_scarb_build("p")).1, strings(&["build", "p"]));
    assert!(matches!(build_cairo_project("p"), Step::Run { mode: RunMode::Garaga, .. }));
}

#[test]
fn starknet_builders() {
    assert_eq!(
        args_of(&generate_starknet_proof("demo")).1,
        strings(&[
            "prove", "-s", "ultra_honk", "--oracle_hash", "starknet", "--zk", "-b", "target/bb/demo.json", "-w",
            "target/bb/demo.gz", "-o", "./target/starknet/",
        ])
    );
    let quiet = Cli { verbose: true, dry_run: true, pkg: None, quiet: false };
    assert_eq!(run_gen(&quiet, "demo"), vec![Step::Note("Generating Starknet proof".to_string())]);
    match ensure_starknet_target_dir() {
        Step::MakeDir { path, failure: Failure::Smart { context, suggestions } } => {
            assert_eq!(path, "target/starknet");
            assert_eq!(context, "Failed to create target/starknet directory");
            assert_eq!(suggestions.len(), 3);
        }
        other => panic!("unexpected {:?}", other),
    }
    assert_eq!(validate_cairo_directory_structure().len(), 3);
    assert_eq!(
        create_cairo_project_structure("proj"),
        Step::MakeDir { path: "proj/src".to_string(), failure: Failure::Plain }
    );
    assert_eq!(clean_cairo_artifacts().len(), 3);
}

#[test]
fn bb_builders() {
    assert_eq!(
        args_of(&generate_vk_with_oracle("demo", Flavour::Starknet, "starknet")).1,
        strings(&["write_vk", "--oracle_hash", "starknet", "-b", "target/bb/demo.json", "-o", "target/starknet/"])
    );
    assert_eq!(
        args_of(&verify_proof_generic(Flavour::Evm)).1,
        strings(&["verify", "-k", "target/evm/vk", "-p", "target/evm/proof", "-i", "target/evm/public_inputs"])
    );
    let both = generate_proof_and_vk("demo", Flavour::Evm, "keccak", &["--output_format", "bytes_and_fields"], true);
    assert_eq!(both.len(), 4);
    assert_eq!(
        both[0],
        Step::Note(
            "Running: bb prove -b target/bb/demo.json -w target/bb/demo.gz -o target/evm/ --oracle_hash keccak --output_format bytes_and_fields"
                .to_string()
        )
    );
    assert_eq!(generate_proof_and_vk("demo", Flavour::Bb, "keccak", &[], false).len(), 2);
    assert_eq!(workspace_target(), "target/bb");
}

#[test]
fn evm_builders() {
    assert_eq!(
        args_of(&generate_evm_proof("demo")).1,
        strings(&[
            "prove", "-b", "target/bb/demo.json", "-w", "target/bb/demo.gz", "-o", "./target/evm/", "--oracle_hash",
            "keccak", "--output_format", "bytes_and_fields",
        ])
    );
    assert_eq!(
        args_of(&generate_evm_vk("demo")).1,
        strings(&["write_vk", "--oracle_hash", "keccak", "-b", "target/bb/demo.json", "-o", "./target/evm/"])
    );
    assert_eq!(args_of(&verify_evm_proof("demo")).1.last().unwrap(), "keccak");
    assert_eq!(
        args_of(&write_solidity_verifier_from_evm_vk("out.sol")).1,
        strings(&["write_solidity_verifier", "-k", "target/evm/vk", "-o", "out.sol"])
    );
    assert_eq!(
        validate_evm_artifacts(),
        Step::RequireFiles { files: strings(&["target/evm/proof", "target/evm/vk", "target/evm/public_inputs"]), enhance: false }
    );
    assert_eq!(generate_keccak_proof("demo")[0], Step::MakeDir { path: "./target/evm".to_string(), failure: Failure::Plain });
    assert_eq!(args_of(&init_default_foundry_project()), ("forge".to_string(), strings(&["init", "--force", "contracts/evm"])));
    assert!(matches!(validate_foundry_installation(), Step::RequireTool { .. }));
}

#[test]
fn forge_create_arguments() {
    let with_args = deploy_contract("C.sol:C", "C", "https://rpc", "0xkey", Some(&["1", "two"]));
    assert_eq!(
        args_of(&with_args).1,
        strings(&["create", "C.sol:C", "--rpc-url", "https://rpc", "--private-key", "0xkey", "--constructor-args", "1", "two"])
    );
    assert!(matches!(with_args, Step::Run { mode: RunMode::Captured, .. }));
    assert_eq!(
        args_of(&deploy_verifier_contract("r", "k")).1,
        strings(&["create", "contracts/evm/src/Verifier.sol:Verifier", "--rpc-url", "r", "--private-key", "k"])
    );
}

#[test]
fn quick_evm_gen_previews() {
    let c = Cli { verbose: false, dry_run: true, pkg: None, quiet: false };
    let plan = run_quick_evm_gen(&c, "demo");
    assert_eq!(
        plan,
        vec![
            Step::Say("Would run: forge init --force contracts/evm".to_string()),
            Step::Say("Would run: bb prove -b target/bb/demo.json -w target/bb/demo.gz -o ./target/evm/ --oracle_hash keccak --output_format bytes_and_fields".to_string()),
            Step::Say("Would run: bb write_vk --oracle_hash keccak -b target/bb/demo.json -o ./target/evm/".to_string()),
            Step::Say("Would run: mkdir -p ./contracts/evm/src".to_string()),
            Step::Say("Would run: bb write_solidity_verifier -k target/evm/vk -o contracts/evm/src/Verifier.sol".to_string()),
        ]
    );
}
