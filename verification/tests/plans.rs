use bargo::cli::{build_nargo_args, Backend, Cli};
use bargo::plan::{Failure, RunMode, Step};
use bargo::proving::{plan_prove, plan_verifier, plan_verify};
use bargo::workflow::{
    organize_bb_artifacts, organize_build_artifacts, plan_build, plan_check, plan_clean, plan_rebuild_build,
    plan_rebuild_clean,
};
use bargo::paths::Flavour;

fn cli(verbose: bool, dry_run: bool, pkg: Option<&str>, quiet: bool) -> Cli {
    Cli { verbose, dry_run, pkg: pkg.map(|p| p.to_string()), quiet }
}

fn strings(items: &[&str]) -> Vec<String> {
    items.iter().map(|s| s.to_string()).collect()
}

fn acts(step: &Step) -> bool {
    matches!(
        step,
        Step::MakeDir { .. }
            | Step::Run { .. }
            | Step::CleanDir { .. }
            | Step::RemoveDirIfExists { .. }
            | Step::MoveIfExists { .. }
            | Step::Move { .. }
            | Step::ReplaceDir { .. }
            | Step::WriteFile { .. }
            | Step::SaveFile { .. }
    )
}

fn prints(step: &Step) -> bool {
    match step {
        Step::Say(t) => !t.starts_with("Would run: "),
        Step::Success(_) | Step::Report { .. } | Step::ReportElapsed { .. } | Step::ReportSize { .. } => true,
        Step::PrintSummary => true,
        Step::CleanDir { removed, already_clean, .. } => removed.is_some() || already_clean.is_some(),
        Step::SaveFile { on_saved, .. } => on_saved.is_some(),
        _ => false,
    }
}

fn is_note(step: &Step) -> bool {
    matches!(step, Step::Note(_))
}

fn runs(plan: &[Step]) -> Vec<(String, Vec<String>)> {
    plan.iter()
        .filter_map(|s| match s {
            Step::Run { program, args, .. } => Some((program.clone(), args.clone())),
            _ => None,
        })
        .collect()
}

fn says(plan: &[Step]) -> Vec<String> {
    plan.iter()
        .filter_map(|s| match s {
            Step::Say(t) => Some(t.clone()),
            _ => None,
        })
        .collect()
}

#[test]
fn nargo_args_carry_the_package() {
    assert_eq!(build_nargo_args(&cli(false, false, None, false), &["check"]), strings(&["check"]));
    assert_eq!(
        build_nargo_args(&cli(false, false, Some("demo"), false), &["execute"]),
        strings(&["execute", "--package", "demo"])
    );
}

#[test]
fn check_runs_nargo_check() {
    let plan = plan_check(&cli(false, false, None, false));
    assert_eq!(
        plan,
        vec![Step::Run {
            program: "nargo".to_string(),
            args: strings(&["check"]),
            cwd: None,
            mode: RunMode::Shown,
            enhance: false
        }]
    );
}

#[test]
fn check_dry_run_previews_with_package() {
    let plan = plan_check(&cli(true, true, Some("demo"), false));
    assert_eq!(
        plan,
        vec![
            Step::Note("Running: nargo check --package demo".to_string()),
            Step::Say("Would run: nargo check --package demo".to_string()),
        ]
    );
}

#[test]
fn check_runs_with_the_package_it_previews() {
    let plan = plan_check(&cli(false, false, Some("demo"), false));
    assert_eq!(runs(&plan), vec![("nargo".to_string(), strings(&["check", "--package", "demo"]))]);
}

#[test]
fn build_up_to_date_is_reported() {
    let plan = plan_build(&cli(false, false, None, false), "demo", false, false);
    assert_eq!(plan, vec![Step::Success("Build is up to date".to_string())]);
}

#[test]
fn quiet_build_runs_even_when_up_to_date() {
    let plan = plan_build(&cli(false, false, None, true), "demo", false, false);
    assert_eq!(runs(&plan), vec![("nargo".to_string(), strings(&["execute"]))]);
    assert!(!plan.iter().any(prints));
}

#[test]
fn build_moves_artifacts_and_reports() {
    let plan = plan_build(&cli(true, false, Some("demo"), false), "demo", false, true);
    assert_eq!(plan[0], Step::Note("Source files have changed, rebuilding...".to_string()));
    assert_eq!(plan[1], Step::Note("Running: nargo execute --package demo".to_string()));
    assert_eq!(plan[2], Step::StartTimer(0));
    assert_eq!(runs(&plan), vec![("nargo".to_string(), strings(&["execute", "--package", "demo"]))]);
    assert!(plan.contains(&Step::MoveIfExists {
        from: "target/demo.json".to_string(),
        to: "target/bb/demo.json".to_string(),
        failure: Failure::Context("Failed to move target/demo.json to target/bb/demo.json".to_string()),
    }));
    assert!(plan.contains(&Step::Summarize("Circuit compiled for demo".to_string())));
    assert_eq!(plan.last(), Some(&Step::PrintSummary));
}

#[test]
fn build_dry_run_previews_only() {
    let plan = plan_build(&cli(false, true, None, false), "demo", false, true);
    assert_eq!(plan, vec![Step::Say("Would run: nargo execute ".to_string())]);
}

#[test]
fn organize_steps_for_each_flavour() {
    let plan = organize_build_artifacts("pkg", Flavour::Evm);
    assert_eq!(plan.len(), 3);
    assert_eq!(
        plan[0],
        Step::MakeDir {
            path: "target/evm".to_string(),
            failure: Failure::Context("Failed to create target directory target/evm".to_string())
        }
    );
    let bb = organize_bb_artifacts(Flavour::Starknet);
    assert_eq!(bb.len(), 4);
    assert!(bb.contains(&Step::MoveIfExists {
        from: "target/vk".to_string(),
        to: "target/starknet/vk".to_string(),
        failure: Failure::Context("Failed to move target/vk to target/starknet/vk".to_string()),
    }));
}

#[test]
fn clean_each_backend() {
    assert_eq!(
        plan_clean(&cli(false, false, None, false), Backend::All),
        vec![Step::CleanDir {
            path: "target".to_string(),
            removed: Some("Removed target/".to_string()),
            already_clean: Some("target/ already clean".to_string()),
        }]
    );
    assert_eq!(
        plan_clean(&cli(true, true, None, false), Backend::Starknet),
        vec![
            Step::Note("Cleaning artifacts for backend: Starknet".to_string()),
            Step::Say("Would run: rm -rf target/starknet/".to_string()),
        ]
    );
    assert_eq!(
        plan_clean(&cli(false, false, None, true), Backend::Bb),
        vec![Step::CleanDir { path: "target/bb".to_string(), removed: None, already_clean: None }]
    );
}

#[test]
fn rebuild_cleans_then_builds() {
    let first = plan_rebuild_clean(&cli(false, false, None, false), Backend::All);
    assert_eq!(first[0], Step::Say("🧹 Cleaning build artifacts...".to_string()));
    assert!(first.contains(&Step::Summarize("Build artifacts cleaned".to_string())));
    assert_eq!(first.last(), Some(&Step::Say("\n🔨 Building circuit...".to_string())));
    let starknet = plan_rebuild_clean(&cli(false, false, None, false), Backend::Starknet);
    assert!(!starknet.contains(&Step::Summarize("Build artifacts cleaned".to_string())));
    let second = plan_rebuild_build(&cli(false, false, None, false), "demo", false);
    assert!(second.contains(&Step::Summarize("Circuit rebuilt for demo".to_string())));
}

#[test]
fn prove_dry_run_previews_three_commands() {
    let plan = plan_prove(&cli(false, true, None, false), "demo", false);
    assert_eq!(
        says(&plan),
        strings(&[
            "Would run: bb prove -b target/bb/demo.json -w target/bb/demo.gz -o ./target/bb/",
            "Would run: bb write_vk -b target/bb/demo.json -o ./target/bb/",
            "Would run: bb verify -k ./target/bb/vk -p ./target/bb/proof",
        ])
    );
    let skip = plan_prove(&cli(false, true, None, false), "demo", true);
    assert_eq!(says(&skip).len(), 1);
}

#[test]
fn prove_runs_prove_vk_and_verify() {
    let plan = plan_prove(&cli(false, false, None, false), "demo", false);
    assert_eq!(
        plan[0],
        Step::RequireFiles { files: strings(&["target/bb/demo.json", "target/bb/demo.gz"]), enhance: true }
    );
    let tools = runs(&plan);
    assert_eq!(tools.len(), 3);
    assert_eq!(tools[1].1, strings(&["write_vk", "-b", "target/bb/demo.json", "-o", "./target/bb/"]));
    assert_eq!(
        tools[2].1,
        strings(&["verify", "-k", "target/bb/vk", "-p", "target/bb/proof", "-i", "target/bb/public_inputs"])
    );
    assert!(!plan.contains(&Step::PrintSummary));
}

#[test]
fn verify_checks_artifacts_first() {
    let plan = plan_verify(&cli(false, false, None, true));
    assert_eq!(
        plan[0],
        Step::RequireFiles {
            files: strings(&["target/bb/proof", "target/bb/vk", "target/bb/public_inputs"]),
            enhance: true
        }
    );
    assert_eq!(plan.len(), 3);
}

#[test]
fn verifier_writes_keccak_vk_then_solidity() {
    let plan = plan_verifier(&cli(false, false, None, false), "demo");
    let tools = runs(&plan);
    assert_eq!(
        tools[0].1,
        strings(&["write_vk", "--oracle_hash", "keccak", "-b", "target/bb/demo.json", "-o", "./target/bb/"])
    );
    assert_eq!(
        tools[1].1,
        strings(&["write_solidity_verifier", "-k", "target/bb/vk", "-o", "./contracts/Verifier.sol"])
    );
}

#[test]
fn dry_runs_of_core_commands_do_nothing() {
    for verbose in [false, true] {
        for quiet in [false, true] {
            let c = cli(verbose, true, Some("demo"), quiet);
            let plans = vec![
                plan_check(&c),
                plan_build(&c, "demo", false, true),
                plan_clean(&c, Backend::All),
                plan_rebuild_clean(&c, Backend::Bb),
                plan_rebuild_build(&c, "demo", false),
                plan_prove(&c, "demo", false),
                plan_verify(&c),
                plan_verifier(&c, "demo"),
            ];
            for plan in plans {
                assert!(!plan.iter().any(acts), "{:?}", plan);
            }
        }
    }
}

#[test]
fn quiet_core_commands_print_only_previews() {
    for dry_run in [false, true] {
        let c = cli(true, dry_run, None, true);
        let plans = vec![
            plan_check(&c),
            plan_build(&c, "demo", false, false),
            plan_clean(&c, Backend::Starknet),
            plan_rebuild_clean(&c, Backend::All),
            plan_rebuild_build(&c, "demo", true),
            plan_prove(&c, "demo", false),
            plan_verify(&c),
            plan_verifier(&c, "demo"),
        ];
        for plan in plans {
            assert!(!plan.iter().any(prints), "{:?}", plan);
        }
    }
}

#[test]
fn verbose_only_adds_log_lines() {
    for dry_run in [false, true] {
        let loud = cli(true, dry_run, Some("p"), false);
        let plain = cli(false, dry_run, Some("p"), false);
        let strip = |plan: Vec<Step>| plan.into_iter().filter(|s| !is_note(s)).collect::<Vec<_>>();
        assert_eq!(strip(plan_check(&loud)), plan_check(&plain));
        assert_eq!(strip(plan_build(&loud, "p", true, true)), plan_build(&plain, "p", true, true));
        assert_eq!(strip(plan_clean(&loud, Backend::Bb)), plan_clean(&plain, Backend::Bb));
        assert_eq!(strip(plan_rebuild_clean(&loud, Backend::All)), plan_rebuild_clean(&plain, Backend::All));
        assert_eq!(strip(plan_rebuild_build(&loud, "p", false)), plan_rebuild_build(&plain, "p", false));
    }
}
