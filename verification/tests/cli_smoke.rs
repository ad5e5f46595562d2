//! The dry-run and error scenarios of the command line, checked on the
//! plans the commands carry out: what a plan prints is its `Say` lines, and
//! a command succeeds when its plan holds no failure.

use bargo::cairo::{plan_cairo_data, plan_cairo_gen};
use bargo::cli::{Backend, Cli};
use bargo::errors::{command_failed, enhance_error_with_suggestions, validate_files_exist};
use bargo::evm::{plan_evm_gen, plan_evm_gen_finish, EvmGenProbes};
use bargo::manifest::{manifest_paths, path_ancestors, select_project_root};
use bargo::plan::Step;
use bargo::workflow::{plan_build, plan_check, plan_clean, plan_rebuild_build, plan_rebuild_clean};

fn flags(verbose: bool, dry_run: bool, pkg: Option<&str>) -> Cli {
    Cli { verbose, dry_run, pkg: pkg.map(|p| p.to_string()), quiet: false }
}

fn stdout(plan: &[Step]) -> String {
    plan.iter()
        .filter_map(|s| match s {
            Step::Say(t) => Some(format!("{}\n", t)),
            _ => None,
        })
        .collect()
}

fn succeeds(plan: &[Step]) -> bool {
    !plan.iter().any(|s| matches!(s, Step::Fail(_)))
}

fn pkg_of(c: &Cli) -> &str {
    c.pkg.as_deref().unwrap_or("demo")
}

fn build(c: &Cli) -> Vec<Step> {
    plan_build(c, pkg_of(c), false, true)
}

fn rebuild(c: &Cli) -> Vec<Step> {
    let mut plan = plan_rebuild_clean(c, Backend::All);
    plan.extend(plan_rebuild_build(c, pkg_of(c), false));
    plan
}

/// `evm gen` after `bargo build`: the bytecode and witness are there.
fn evm_gen(c: &Cli) -> Vec<Step> {
    let probes = EvmGenProbes { proof: false, vk: false, bytecode: true, witness: true, foundry_root: false };
    let mut plan = plan_evm_gen(c, pkg_of(c), probes);
    plan.extend(plan_evm_gen_finish(c, false));
    plan
}

#[test]
fn cli_still_builds_and_parses() {
    assert!(succeeds(&build(&flags(false, true, None))));
}

#[test]
fn pkg_flag_is_propagated() {
    assert!(stdout(&build(&flags(false, true, Some("my_pkg")))).contains("--package my_pkg"));
}

#[test]
fn check_command_dry_run() {
    assert!(succeeds(&plan_check(&flags(false, true, None))));
}

#[test]
fn check_command_pkg_flag_propagated() {
    assert!(stdout(&plan_check(&flags(false, true, Some("my_pkg")))).contains("--package my_pkg"));
}

#[test]
fn verbose_flag_shows_command() {
    assert!(stdout(&plan_check(&flags(true, true, None))).contains("Would run: nargo check"));
}

#[test]
fn all_global_flags_work_together() {
    let out = stdout(&plan_check(&flags(true, true, Some("test_pkg"))));
    assert!(out.contains("--package test_pkg"));
    assert!(out.contains("Would run: nargo check"));
}

#[test]
fn clean_command_dry_run() {
    assert!(succeeds(&plan_clean(&flags(false, true, None), Backend::All)));
}

#[test]
fn clean_command_dry_run_shows_action() {
    assert!(stdout(&plan_clean(&flags(false, true, None), Backend::All)).contains("Would run: rm -rf target/"));
}

#[test]
fn rebuild_command_dry_run() {
    assert!(succeeds(&rebuild(&flags(false, true, Some("test_pkg")))));
}

#[test]
fn rebuild_command_pkg_flag_propagated() {
    assert!(stdout(&rebuild(&flags(false, true, Some("my_pkg")))).contains("--package my_pkg"));
}

#[test]
fn cairo_gen_dry_run() {
    assert!(succeeds(&plan_cairo_gen(&flags(false, true, Some("test_pkg")), "test_pkg")));
}

#[test]
fn cairo_gen_pkg_flag_propagated() {
    assert!(succeeds(&plan_cairo_gen(&flags(false, true, Some("my_pkg")), "my_pkg")));
}

#[test]
fn evm_gen_dry_run() {
    assert!(succeeds(&evm_gen(&flags(false, true, Some("test_pkg")))));
}

#[test]
fn evm_gen_pkg_flag_propagated() {
    assert!(succeeds(&evm_gen(&flags(false, true, Some("my_pkg")))));
}

#[test]
fn test_missing_project_error_context() {
    let dirs = path_ancestors("/work/no_project/src");
    assert_eq!(dirs, vec!["/work/no_project/src", "/work/no_project", "/work", "/"]);
    assert_eq!(manifest_paths(&dirs)[3], "/Nargo.toml");
    let none = vec![false; dirs.len()];
    let result = select_project_root(&dirs, &none);
    assert!(result.is_err(), "Expected build to fail when Nargo.toml is missing");
    let error_string = result.unwrap_err().message;
    assert!(
        error_string.contains("Nargo.toml") || error_string.contains("project"),
        "Error should mention missing project configuration: {}",
        error_string
    );
    assert!(
        error_string.contains("directory") || error_string.contains("Noir project"),
        "Error should contain helpful context about project location: {}",
        error_string
    );
}

/// The error that a plan's file check gives when none of its files exists.
fn missing_files_error(plan: &[Step]) -> String {
    for step in plan {
        if let Step::RequireFiles { files, enhance } = step {
            let exists = vec![false; files.len()];
            let e = validate_files_exist(files, &exists).unwrap_err();
            return if *enhance { enhance_error_with_suggestions(e) } else { e }.message;
        }
    }
    panic!("the plan checks no files: {:?}", plan)
}

#[test]
fn test_missing_proof_artifacts_error_context() {
    let c = flags(true, false, Some("test_pkg"));
    let error_string = missing_files_error(&plan_cairo_data(&c));
    assert!(
        error_string.contains("proof") || error_string.contains("vk") || error_string.contains("missing"),
        "Error should mention missing proof artifacts: {}",
        error_string
    );
    assert!(
        error_string.contains("Suggestions") || error_string.contains("bargo"),
        "Error should contain helpful suggestions: {}",
        error_string
    );
}

#[test]
fn test_file_operation_error_context() {
    let plan = plan_clean(&flags(true, true, Some("nonexistent_package")), Backend::All);
    assert!(succeeds(&plan));
}

#[test]
fn test_workflow_error_propagation() {
    let c = Cli { verbose: false, dry_run: false, pkg: None, quiet: true };
    let plan = plan_check(&c);
    let (program, args) = plan
        .iter()
        .find_map(|s| match s {
            Step::Run { program, args, .. } => Some((program.clone(), args.clone())),
            _ => None,
        })
        .expect("check runs nargo");
    let error_string = command_failed(&program, &args, Some(1)).message;
    assert!(!error_string.is_empty(), "Error should not be empty");
    assert!(
        error_string.contains("nargo") || error_string.contains("failed"),
        "Error should contain meaningful failure context: {}",
        error_string
    );
}
