use bargo::cairo::{
    get_cairo_artifact_paths, get_cairo_contracts_dir, get_starknet_artifacts_dir, is_valid_cairo_project_structure,
    is_valid_scarb_project, move_cairo_project, plan_cairo_data, plan_cairo_data_finish, plan_cairo_declare,
    plan_cairo_declare_finish, plan_cairo_deploy, plan_cairo_deploy_finish, plan_cairo_gen, plan_cairo_verify_onchain,
    resolve_class_hash, scarb_manifest_path, StarknetEnv,
};
use bargo::cli::Cli;
use bargo::evm::{
    deployed_address, plan_evm_calldata, plan_evm_calldata_finish, plan_evm_deploy, plan_evm_deploy_finish, plan_evm_gen, plan_evm_gen_finish,
    plan_evm_verify_onchain, plan_evm_verify_onchain_finish, read_deploy_record, DeployRecord, EvmGenProbes, FileState,
};
use bargo::plan::{RunMode, Step};

fn cli(verbose: bool, dry_run: bool, quiet: bool) -> Cli {
    Cli { verbose, dry_run, pkg: None, quiet }
}

fn strings(items: &[&str]) -> Vec<String> {
    items.iter().map(|s| s.to_string()).collect()
}

fn acts(step: &Step) -> bool {
    matches!(
        step,
        Step::MakeDir { .. }
            | Step::Run { .. }
            | Step::CleanDir { .. }
            | Step::RemoveDirIfExists { .. }
            | Step::MoveIfExists { .. }
            | Step::Move { .. }
            | Step::ReplaceDir { .. }
            | Step::WriteFile { .. }
            | Step::SaveFile { .. }
    )
}

fn failure(plan: &[Step]) -> Option<String> {
    plan.iter().find_map(|s| match s {
        Step::Fail(m) => Some(m.clone()),
        _ => None,
    })
}

fn env(mainnet: bool, sepolia: bool, account: bool, keystore: bool) -> StarknetEnv {
    StarknetEnv {
        mainnet_rpc: if mainnet { Some("https://main".to_string()) } else { None },
        sepolia_rpc: if sepolia { Some("https://sep".to_string()) } else { None },
        account: if account { Some("acct.json".to_string()) } else { None },
        keystore: if keystore { Some("keys.json".to_string()) } else { None },
    }
}

const HASH: &str = "0x0123456789abcdef0123456789abcdef0123456789abcdef0123456789abcdef";

#[test]
fn cairo_directories() {
    assert_eq!(get_cairo_contracts_dir(), "./contracts/cairo");
    assert_eq!(get_starknet_artifacts_dir(), "target/starknet");
    assert_eq!(get_cairo_artifact_paths(), strings(&["target/starknet", "./contracts/cairo", "./target/bb"]));
    assert_eq!(scarb_manifest_path("./contracts/cairo"), "./contracts/cairo/Scarb.toml");
    assert!(is_valid_cairo_project_structure(true, true, true));
    assert!(!is_valid_cairo_project_structure(true, true, false));
    assert!(is_valid_scarb_project(true));
    assert!(!is_valid_scarb_project(false));
}

#[test]
fn moving_a_missing_project_fails() {
    let plan = move_cairo_project(None, None, false);
    let m = failure(&plan).unwrap();
    assert!(m.starts_with("❌ Source directory does not exist: ./cairo_project"));
    let plan = move_cairo_project(Some("./gen"), Some("./contracts/cairo"), true);
    assert_eq!(plan.len(), 3);
    match &plan[1] {
        Step::MakeDir { path, .. } => assert_eq!(path, "./contracts"),
        other => panic!("unexpected {:?}", other),
    }
    // The rename is unconditional: it fails when the source has gone.
    assert!(matches!(&plan[2], Step::Move { from, to, .. } if from == "./gen" && to == "./contracts/cairo"));
}

#[test]
fn cairo_gen_dry_run_only_prints() {
    let plan = plan_cairo_gen(&cli(false, true, false), "demo");
    assert!(!plan.iter().any(acts));
    assert_eq!(plan.len(), 3);
    assert!(plan.iter().all(|s| matches!(s, Step::Say(t) if t.starts_with("Would run: "))));
}

#[test]
fn cairo_gen_runs_bb_garaga_and_scarb() {
    let plan = plan_cairo_gen(&cli(false, false, false), "demo");
    let programs: Vec<String> = plan
        .iter()
        .filter_map(|s| match s {
            Step::Run { program, .. } => Some(program.clone()),
            _ => None,
        })
        .collect();
    assert_eq!(programs, strings(&["bb", "bb", "garaga", "scarb"]));
    assert!(plan.iter().any(|s| matches!(s, Step::Run { mode: RunMode::Garaga, .. })));
    assert!(plan.iter().any(|s| matches!(s, Step::ReplaceDir { .. })));
}

#[test]
fn cairo_data_writes_trimmed_output() {
    let plan = plan_cairo_data(&cli(false, false, false));
    assert!(plan.iter().any(|s| matches!(s, Step::Run { mode: RunMode::Captured, .. })));
    let finish = plan_cairo_data_finish(&cli(false, false, true), "  [1, 2, 3]\n");
    match &finish[0] {
        Step::WriteFile { path, contents, .. } => {
            assert_eq!(path, "./target/starknet/calldata.json");
            assert_eq!(contents, "[1, 2, 3]");
        }
        other => panic!("unexpected {:?}", other),
    }
    assert_eq!(finish.len(), 1);
}

#[test]
fn cairo_verify_onchain_address_sources() {
    let missing = plan_cairo_verify_onchain(&cli(false, false, false), None, None);
    assert!(failure(&missing).unwrap().contains("Contract address is required for verification"));
    let saved = plan_cairo_verify_onchain(&cli(false, true, false), None, Some("  0xabc \n"));
    assert_eq!(saved[0], Step::Success("Using saved contract address: 0xabc".to_string()));
    let given = plan_cairo_verify_onchain(&cli(false, true, false), Some("0xdef"), Some("0xabc"));
    assert!(given.iter().any(|s| matches!(s, Step::Say(t) if t.contains("--contract-address 0xdef"))));
}

#[test]
fn declare_reports_missing_settings_in_order() {
    let c = cli(false, false, false);
    let m = failure(&plan_cairo_declare(&c, "sepolia", &env(true, false, true, true))).unwrap();
    assert!(m.starts_with("❌ SEPOLIA_RPC_URL environment variable not found"));
    let m = failure(&plan_cairo_declare(&c, "mainnet", &env(false, true, false, false))).unwrap();
    assert!(m.starts_with("❌ MAINNET_RPC_URL environment variable not found"));
    let m = failure(&plan_cairo_declare(&c, "mainnet", &env(true, false, false, false))).unwrap();
    assert!(m.starts_with("❌ STARKNET_ACCOUNT environment variable not found"));
    let m = failure(&plan_cairo_declare(&c, "mainnet", &env(true, false, true, false))).unwrap();
    assert!(m.starts_with("❌ STARKNET_KEYSTORE environment variable not found"));
    let ok = plan_cairo_declare(&c, "mainnet", &env(true, false, true, true));
    assert!(failure(&ok).is_none());
    match ok.last().unwrap() {
        Step::Run { program, args, mode: RunMode::Direct { message, with_stdout, .. }, .. } => {
            assert_eq!(program, "starkli");
            assert_eq!(args[3], "https://main");
            assert_eq!(message, "Starkli declare failed: ");
            assert!(*with_stdout);
        }
        other => panic!("unexpected {:?}", other),
    }
}

#[test]
fn declare_finish_saves_the_class_hash() {
    let output = format!("Declaring Cairo 1 class...\n  {}  \nDone\n", HASH);
    let plan = plan_cairo_declare_finish(&cli(false, false, false), &output);
    assert_eq!(plan[0], Step::Success(format!("Class hash: {}", HASH)));
    assert!(plan.contains(&Step::SaveFile {
        path: "target/starknet/.bargo_class_hash".to_string(),
        contents: HASH.to_string(),
        warn: false,
        failure_label: "Failed to save class hash to file".to_string(),
        on_saved: None,
    }));
    let none = plan_cairo_declare_finish(&cli(false, false, false), "0x1234\n");
    assert!(failure(&none).unwrap().contains("Could not extract class hash from starkli output"));
}

#[test]
fn declared_hash_round_trips_into_deploy() {
    let output = format!("{}\n", HASH);
    let plan = plan_cairo_declare_finish(&cli(false, false, true), &output);
    let saved = plan
        .iter()
        .find_map(|s| match s {
            Step::SaveFile { contents, .. } => Some(contents.clone()),
            _ => None,
        })
        .unwrap();
    assert_eq!(resolve_class_hash(None, Some(&saved)), Some(HASH.to_string()));
}

#[test]
fn deploy_uses_saved_hash_and_saves_address() {
    let plan = plan_cairo_deploy(&cli(false, false, false), None, Some("0xfeed\n"), &env(true, false, true, true));
    assert_eq!(plan[0], Step::Success("Using saved class hash: 0xfeed".to_string()));
    let missing = plan_cairo_deploy(&cli(false, false, false), None, None, &env(true, true, true, true));
    assert!(failure(&missing).unwrap().contains("Class hash is required for deployment"));
    let output = format!("Deploying class...\nContract deployed: {} (pending)\n", HASH);
    let finish = plan_cairo_deploy_finish(&cli(false, false, false), "0xfeed", &output);
    assert_eq!(
        finish[0],
        Step::SaveFile {
            path: "target/starknet/.bargo_contract_address".to_string(),
            contents: HASH.to_string(),
            warn: false,
            failure_label: "Failed to save contract address to file".to_string(),
            on_saved: Some(format!("Contract address: {}", HASH)),
        }
    );
    assert!(finish.contains(&Step::Summarize(format!("Cairo verifier deployed at address: {}", HASH))));
    let none = plan_cairo_deploy_finish(&cli(false, false, false), "0xfeed", "nothing here");
    assert!(none.contains(&Step::Summarize("Cairo verifier deployed with class hash: 0xfeed".to_string())));
}

fn probes(proof: bool, inputs: bool, root: bool) -> EvmGenProbes {
    EvmGenProbes { proof, vk: proof, bytecode: inputs, witness: inputs, foundry_root: root }
}

/// Both stages of `evm gen`, given whether foundry.toml exists between them.
fn evm_gen(c: &Cli, pkg: &str, p: EvmGenProbes, toml: bool) -> Vec<Step> {
    let mut plan = plan_evm_gen(c, pkg, p);
    plan.extend(plan_evm_gen_finish(c, toml));
    plan
}

#[test]
fn evm_gen_needs_build_outputs() {
    let plan = plan_evm_gen(&cli(false, false, false), "demo", probes(false, false, true));
    assert!(failure(&plan).unwrap().starts_with("❌ Missing bytecode or witness files"));
}

#[test]
fn evm_gen_full_run() {
    let plan = evm_gen(&cli(true, false, false), "demo", probes(false, true, false), false);
    assert!(failure(&plan).is_none());
    let programs: Vec<String> = plan
        .iter()
        .filter_map(|s| match s {
            Step::Run { program, .. } => Some(program.clone()),
            _ => None,
        })
        .collect();
    assert_eq!(programs, strings(&["bb", "bb", "forge", "bb", "forge"]));
    assert!(plan.iter().any(|s| matches!(s, Step::WriteFile { path, .. } if path == "./contracts/evm/foundry.toml")));
    assert!(plan.contains(&Step::Say("  4. Verify on-chain: bargo evm verify-onchain".to_string())));
    // Once `forge init` has created foundry.toml, it is left as forge wrote it.
    let after_init = plan_evm_gen_finish(&cli(true, false, false), true);
    assert!(!after_init.iter().any(|s| matches!(s, Step::WriteFile { .. })));
}

#[test]
fn evm_gen_skips_existing_parts() {
    let plan = evm_gen(&cli(false, false, true), "demo", probes(true, true, true), true);
    let programs: Vec<String> = plan
        .iter()
        .filter_map(|s| match s {
            Step::Run { program, .. } => Some(program.clone()),
            _ => None,
        })
        .collect();
    assert_eq!(programs, strings(&["bb", "forge"]));
}

#[test]
fn evm_calldata_flow() {
    let c = cli(false, false, false);
    let missing = plan_evm_calldata(&c, &FileState::Missing, &FileState::Read("[]".to_string()));
    assert!(failure(&missing).unwrap().contains("Proof fields file not found"));
    let bad = plan_evm_calldata(&c, &FileState::Read("[1]".to_string()), &FileState::Unreadable("denied".to_string()));
    assert!(failure(&bad).unwrap().contains("Failed to read public inputs fields file: denied"));
    let ok = plan_evm_calldata(&c, &FileState::Read("[1]".to_string()), &FileState::Read("[2]".to_string()));
    match ok.last().unwrap() {
        Step::Run { program, args, mode: RunMode::Captured, .. } => {
            assert_eq!(program, "cast");
            assert_eq!(args, &strings(&["calldata", "--format-json", "[1]", "[2]"]));
        }
        other => panic!("unexpected {:?}", other),
    }
    let finish = plan_evm_calldata_finish(&c, "0xdeadbeef\n");
    assert!(finish.iter().any(|s| matches!(s, Step::WriteFile { contents, .. } if contents == "0xdeadbeef\n")));
}

#[test]
fn evm_deploy_flow() {
    let c = cli(false, false, false);
    let m = failure(&plan_evm_deploy(&c, "sepolia", None, Some("0x1"), true)).unwrap();
    assert!(m.starts_with("❌ RPC_URL environment variable not found"));
    let m = failure(&plan_evm_deploy(&c, "sepolia", Some("https://r"), None, true)).unwrap();
    assert!(m.starts_with("❌ PRIVATE_KEY environment variable not found"));
    let m = failure(&plan_evm_deploy(&c, "sepolia", None, None, false)).unwrap();
    assert!(m.starts_with("❌ Verifier contract not found (contracts/evm/src/Verifier.sol)"));
    let ok = plan_evm_deploy(&c, "sepolia", Some("https://r"), Some("0x1"), true);
    assert!(matches!(&ok[0], Step::RequireTool { program, .. } if program == "forge"));
    assert_eq!(ok[1], Step::Say("🚀 Deploying verifier contract to sepolia...".to_string()));
    let finish = plan_evm_deploy_finish(&c, &DeployRecord::Address(None));
    assert!(finish.iter().any(|s| matches!(s, Step::WriteFile { contents, .. } if contents.is_empty())));
    let invalid = plan_evm_deploy_finish(&c, &DeployRecord::Invalid("expected value".to_string()));
    assert_eq!(invalid, vec![Step::Fail("expected value".to_string())]);
}

#[test]
fn evm_verify_onchain_flow() {
    let c = cli(false, true, false);
    let m = failure(&plan_evm_verify_onchain(&c, Some("r"), Some("k"), &FileState::Missing, &FileState::Missing)).unwrap();
    assert!(m.contains("Contract address not found"));
    let m = failure(&plan_evm_verify_onchain(
        &c,
        Some("r"),
        Some("k"),
        &FileState::Read("0xa".to_string()),
        &FileState::Missing,
    ))
    .unwrap();
    assert!(m.contains("Calldata not found"));
    let ok = plan_evm_verify_onchain(
        &c,
        Some("https://sepolia.rpc"),
        Some("0xk"),
        &FileState::Read("0xa\n".to_string()),
        &FileState::Read(" 0xcd ".to_string()),
    );
    assert_eq!(
        ok.last().unwrap(),
        &Step::Say("Would run: cast send 0xa verify(bytes,bytes32[]) 0xcd --rpc-url https://sepolia.rpc --private-key 0xk".to_string())
    );
    let tx = format!("{{\n  \"transactionHash\": \"{}\",\n}}", HASH);
    let finish = plan_evm_verify_onchain_finish(&cli(false, false, false), "https://sepolia.rpc", &tx);
    assert!(finish.contains(&Step::Say(format!("📋 Transaction hash: {}", HASH))));
    assert!(finish.contains(&Step::Say(format!("🔗 View on Etherscan: https://sepolia.etherscan.io/tx/{}", HASH))));
    let main = plan_evm_verify_onchain_finish(&cli(false, false, false), "https://eth.rpc", &format!("{}\n", HASH));
    assert!(main.contains(&Step::Say(format!("🔗 View on Etherscan: https://etherscan.io/tx/{}", HASH))));
    let none = plan_evm_verify_onchain_finish(&cli(false, false, false), "r", "status 1");
    assert!(failure(&none).unwrap().contains("Failed to parse transaction hash from cast output"));
}

#[test]
fn forge_create_output_is_parsed() {
    let out = "Compiling...\nDeployer: 0x1\nDeployed to: 0xABCDEF  \nTransaction hash: 0x2\n";
    assert_eq!(deployed_address(out).unwrap(), "0xABCDEF");
    assert_eq!(deployed_address("nothing").unwrap_err().message, "Could not parse contract address from forge output");
}

#[test]
fn dry_runs_of_workflows_do_nothing() {
    let c = cli(true, true, false);
    let e = env(true, true, true, true);
    let plans = vec![
        plan_cairo_data(&c),
        plan_cairo_verify_onchain(&c, Some("0xa"), None),
        plan_cairo_declare(&c, "sepolia", &e),
        plan_cairo_deploy(&c, Some("0xh"), None, &e),
        plan_cairo_gen(&c, "demo"),
        evm_gen(&c, "demo", probes(false, true, false), false),
        plan_evm_deploy(&c, "mainnet", Some("r"), Some("k"), true),
        plan_evm_verify_onchain(&c, Some("r"), Some("k"), &FileState::Read("a".to_string()), &FileState::Read("c".to_string())),
    ];
    for plan in plans {
        assert!(!plan.iter().any(acts), "{:?}", plan);
    }
}

#[test]
fn verbose_workflows_only_add_log_lines() {
    let strip = |plan: Vec<Step>| plan.into_iter().filter(|s| !matches!(s, Step::Note(_))).collect::<Vec<_>>();
    let e = env(true, true, true, true);
    for dry_run in [false, true] {
        for quiet in [false, true] {
            let loud = cli(true, dry_run, quiet);
            let plain = cli(false, dry_run, quiet);
            assert_eq!(strip(plan_cairo_gen(&loud, "demo")), plan_cairo_gen(&plain, "demo"));
            assert_eq!(strip(plan_cairo_data(&loud)), plan_cairo_data(&plain));
            assert_eq!(
                strip(plan_cairo_verify_onchain(&loud, None, Some("0xa"))),
                plan_cairo_verify_onchain(&plain, None, Some("0xa"))
            );
            assert_eq!(strip(plan_cairo_declare(&loud, "sepolia", &e)), plan_cairo_declare(&plain, "sepolia", &e));
            assert_eq!(
                strip(plan_cairo_deploy(&loud, Some("0xh"), None, &e)),
                plan_cairo_deploy(&plain, Some("0xh"), None, &e)
            );
            assert_eq!(
                strip(evm_gen(&loud, "demo", probes(false, true, false), true)),
                evm_gen(&plain, "demo", probes(false, true, false), true)
            );
            assert_eq!(
                strip(plan_evm_deploy(&loud, "mainnet", Some("r"), Some("k"), true)),
                plan_evm_deploy(&plain, "mainnet", Some("r"), Some("k"), true)
            );
        }
    }
    // Writing foundry.toml without --quiet prints more with --verbose.
    let loud = cli(true, false, false);
    let plain = cli(false, false, false);
    assert_ne!(
        strip(evm_gen(&loud, "demo", probes(false, true, false), false)),
        evm_gen(&plain, "demo", probes(false, true, false), false)
    );
}

#[test]
fn test_missing_verifier_contract_error_context() {
    let c = Cli { verbose: true, dry_run: false, pkg: Some("test_pkg".to_string()), quiet: false };
    let plan = plan_evm_deploy(&c, "localhost", None, None, false);
    let error_string = failure(&plan).expect("Expected deploy to fail when verifier contract is missing");
    assert!(
        error_string.contains("Verifier contract") || error_string.contains("contract"),
        "Error should mention missing verifier contract: {}",
        error_string
    );
    assert!(
        error_string.contains("Suggestions") || error_string.contains("bargo evm gen"),
        "Error should contain helpful suggestions: {}",
        error_string
    );
    assert!(!plan.iter().any(acts));
}

#[test]
fn deploy_records_are_read() {
    let text = r#"{"returns":{"contract":{"address":"0xABC"}}}"#.to_string();
    assert!(matches!(read_deploy_record(Ok(text)), DeployRecord::Address(Some(a)) if a == "0xABC"));
    assert!(matches!(read_deploy_record(Ok("{}".to_string())), DeployRecord::Address(None)));
    assert!(matches!(read_deploy_record(Ok("not json".to_string())), DeployRecord::Invalid(_)));
    assert!(matches!(read_deploy_record(Err("denied".to_string())), DeployRecord::Unreadable(m) if m == "denied"));
}
