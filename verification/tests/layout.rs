use bargo::errors::validate_required_files;
use bargo::manifest::{get_package_name, parse_package_name, select_project_root, TomlConfig};
use bargo::paths::{
    get_bytecode_path, get_proof_path, get_public_inputs_path, get_vk_path, get_witness_path, target_dir, Flavour,
};
use bargo::proving::generate_proof_with_oracle;
use bargo::plan::Step;
use std::io::Write;
use std::path::{Path, PathBuf};
use tempfile::TempDir;

struct TestProject {
    _dir: TempDir,
    root: PathBuf,
    src: TempDir,
    manifest: String,
}

fn write_file(dir: &Path, name: &str, contents: &str) {
    let mut file = tempfile::NamedTempFile::new_in(dir).unwrap();
    file.write_all(contents.as_bytes()).unwrap();
    file.persist(dir.join(name)).unwrap();
}

fn create_test_project(name: &str) -> TestProject {
    let dir = TempDir::new().unwrap();
    let root = dir.path().to_path_buf();
    let nargo_toml = format!(
        "[package]\nname = \"{}\"\ntype = \"bin\"\nauthors = [\"test\"]\n",
        name
    );
    write_file(&root, "Nargo.toml", &nargo_toml);
    let src = tempfile::Builder::new().prefix("src").tempdir_in(&root).unwrap();
    write_file(src.path(), "main.nr", "fn main() {}");
    TestProject { _dir: dir, root, src, manifest: nargo_toml }
}

fn find_project_root(start: &Path) -> Result<PathBuf, String> {
    let ancestors: Vec<String> = start.ancestors().map(|p| p.display().to_string()).collect();
    let flags: Vec<bool> = start.ancestors().map(|p| p.join("Nargo.toml").exists()).collect();
    select_project_root(&ancestors, &flags).map(PathBuf::from).map_err(|e| e.message)
}

fn config_of(text: &str) -> TomlConfig {
    let value: toml::Value = toml::from_str(text).unwrap();
    if let Some(package) = value.get("package") {
        TomlConfig::Package { name: package.get("name").and_then(|n| n.as_str()).map(|s| s.to_string()) }
    } else {
        TomlConfig::Workspace
    }
}

fn check_find_project_root() {
    let project = create_test_project("test_pkg");
    let found_root = find_project_root(project.src.path()).unwrap();
    assert_eq!(found_root, project.root);
}

fn check_parse_package_name() {
    let project = create_test_project("my_package");
    let nargo_toml = project.root.join("Nargo.toml");
    assert!(nargo_toml.exists());
    let config = config_of(&project.manifest);
    let name = parse_package_name(&nargo_toml.display().to_string(), config).unwrap();
    assert_eq!(name, "my_package");
}

fn check_get_package_name_with_override() {
    let override_name = "override_pkg".to_string();
    let name = get_package_name(Some(&override_name), Ok(String::from("from_manifest"))).unwrap();
    assert_eq!(name, "override_pkg");
}

fn path(s: String) -> PathBuf {
    PathBuf::from(s)
}

#[test]
fn util_test_find_project_root() {
    check_find_project_root();
}

#[test]
fn paths_test_find_project_root() {
    check_find_project_root();
}

#[test]
fn tests_test_find_project_root() {
    check_find_project_root();
}

#[test]
fn util_test_parse_package_name() {
    check_parse_package_name();
}

#[test]
fn paths_test_parse_package_name() {
    check_parse_package_name();
}

#[test]
fn tests_test_parse_package_name() {
    check_parse_package_name();
}

#[test]
fn util_test_get_package_name_with_override() {
    check_get_package_name_with_override();
}

#[test]
fn paths_test_get_package_name_with_override() {
    check_get_package_name_with_override();
}

#[test]
fn tests_test_get_package_name_with_override() {
    check_get_package_name_with_override();
}

#[test]
fn util_test_path_helpers() {
    assert_eq!(path(get_bytecode_path("test", Flavour::Bb)), PathBuf::from("target/bb/test.json"));
    assert_eq!(path(get_witness_path("test", Flavour::Bb)), PathBuf::from("target/bb/test.gz"));
    assert_eq!(path(get_proof_path(Flavour::Bb)), PathBuf::from("target/bb/proof"));
    assert_eq!(path(get_vk_path(Flavour::Bb)), PathBuf::from("target/bb/vk"));
}

#[test]
fn paths_test_path_helpers() {
    assert_eq!(path(get_bytecode_path("test", Flavour::Bb)), PathBuf::from("target/bb/test.json"));
    assert_eq!(path(get_witness_path("test", Flavour::Bb)), PathBuf::from("target/bb/test.gz"));
    assert_eq!(path(get_proof_path(Flavour::Bb)), PathBuf::from("target/bb/proof"));
    assert_eq!(path(get_vk_path(Flavour::Bb)), PathBuf::from("target/bb/vk"));
}

#[test]
fn tests_test_path_helpers() {
    assert_eq!(path(get_bytecode_path("test", Flavour::Bb)), PathBuf::from("target/bb/test.json"));
    assert_eq!(path(get_witness_path("test", Flavour::Bb)), PathBuf::from("target/bb/test.gz"));
    assert_eq!(path(get_proof_path(Flavour::Bb)), PathBuf::from("target/bb/proof"));
    assert_eq!(path(get_vk_path(Flavour::Bb)), PathBuf::from("target/bb/vk"));
    assert_eq!(path(get_public_inputs_path(Flavour::Bb)), PathBuf::from("target/bb/public_inputs"));

    assert_eq!(path(get_bytecode_path("test", Flavour::Evm)), PathBuf::from("target/evm/test.json"));
    assert_eq!(path(get_witness_path("test", Flavour::Evm)), PathBuf::from("target/evm/test.gz"));
    assert_eq!(path(get_proof_path(Flavour::Evm)), PathBuf::from("target/evm/proof"));
    assert_eq!(path(get_vk_path(Flavour::Evm)), PathBuf::from("target/evm/vk"));
    assert_eq!(path(get_public_inputs_path(Flavour::Evm)), PathBuf::from("target/evm/public_inputs"));

    assert_eq!(path(get_bytecode_path("test", Flavour::Starknet)), PathBuf::from("target/starknet/test.json"));
    assert_eq!(path(get_witness_path("test", Flavour::Starknet)), PathBuf::from("target/starknet/test.gz"));
    assert_eq!(path(get_proof_path(Flavour::Starknet)), PathBuf::from("target/starknet/proof"));
    assert_eq!(path(get_vk_path(Flavour::Starknet)), PathBuf::from("target/starknet/vk"));
    assert_eq!(path(get_public_inputs_path(Flavour::Starknet)), PathBuf::from("target/starknet/public_inputs"));
}

#[test]
fn test_target_dir_all_flavours() {
    assert_eq!(path(target_dir(Flavour::Bb)), PathBuf::from("target/bb"));
    assert_eq!(path(target_dir(Flavour::Evm)), PathBuf::from("target/evm"));
    assert_eq!(path(target_dir(Flavour::Starknet)), PathBuf::from("target/starknet"));
}

#[test]
fn tests_test_flavour_consistency() {
    let flavours = [Flavour::Bb, Flavour::Evm, Flavour::Starknet];
    for flavour in flavours.iter() {
        let target = path(target_dir(*flavour));
        let proof = path(get_proof_path(*flavour));
        let vk = path(get_vk_path(*flavour));
        let public_inputs = path(get_public_inputs_path(*flavour));
        assert!(proof.starts_with(&target));
        assert!(vk.starts_with(&target));
        assert!(public_inputs.starts_with(&target));
        assert_eq!(proof.file_name().unwrap(), "proof");
        assert_eq!(vk.file_name().unwrap(), "vk");
        assert_eq!(public_inputs.file_name().unwrap(), "public_inputs");
    }
}

#[test]
fn test_target_dir_paths() {
    assert_eq!(target_dir(Flavour::Bb), "target/bb");
    assert_eq!(target_dir(Flavour::Evm), "target/evm");
    assert_eq!(target_dir(Flavour::Starknet), "target/starknet");
}

#[test]
fn test_path_resolution() {
    let bytecode_path = get_bytecode_path("test_pkg", Flavour::Bb);
    let witness_path = get_witness_path("test_pkg", Flavour::Bb);
    let proof_path = get_proof_path(Flavour::Evm);
    let vk_path = get_vk_path(Flavour::Starknet);
    assert!(bytecode_path.contains("test_pkg.json"));
    assert!(witness_path.contains("test_pkg.gz"));
    assert!(proof_path.contains("target/evm"));
    assert!(vk_path.contains("target/starknet"));
}

#[test]
fn backends_test_flavour_consistency() {
    let flavours = vec![Flavour::Bb, Flavour::Evm, Flavour::Starknet];
    for flavour in flavours {
        let target_dir = target_dir(flavour);
        let proof_path = get_proof_path(flavour);
        let vk_path = get_vk_path(flavour);
        let public_inputs_path = get_public_inputs_path(flavour);
        assert!(!target_dir.is_empty());
        assert!(!proof_path.is_empty());
        assert!(!vk_path.is_empty());
        assert!(!public_inputs_path.is_empty());
        assert!(target_dir.starts_with("target/"));
        assert!(proof_path.starts_with("target/"));
        assert!(vk_path.starts_with("target/"));
        assert!(public_inputs_path.starts_with("target/"));
    }
}

#[test]
fn test_oracle_hash_types() {
    let oracles = vec!["keccak", "starknet", "custom"];
    for oracle in oracles {
        assert!(!oracle.is_empty(), "Oracle hash should not be empty");
        assert!(
            oracle.chars().all(|c| c.is_ascii_alphanumeric() || c == '_'),
            "Oracle hash should be alphanumeric: {}",
            oracle
        );
        match generate_proof_with_oracle("pkg", Flavour::Bb, oracle, &[]) {
            Step::Run { args, .. } => assert_eq!(args.last().unwrap(), oracle),
            _ => panic!("expected a run of bb"),
        }
    }
}

#[test]
fn test_extra_flags_handling() {
    let test_flags: Vec<Vec<&str>> = vec![
        vec!["--output_format", "bytes_and_fields"],
        vec!["--scheme", "ultra_honk", "--zk"],
        vec![],
        vec!["--single-flag"],
    ];
    for flags in test_flags {
        for flag in &flags {
            assert!(!flag.is_empty(), "Flag should not be empty");
            if flag.starts_with("--") {
                assert!(flag.len() > 2, "Flag should have content after --");
            }
        }
        match generate_proof_with_oracle("pkg", Flavour::Evm, "keccak", &flags) {
            Step::Run { args, .. } => {
                assert_eq!(args.len(), 9 + flags.len());
                assert_eq!(&args[9..], &flags.iter().map(|f| f.to_string()).collect::<Vec<_>>()[..]);
            }
            _ => panic!("expected a run of bb"),
        }
    }
}

#[test]
fn test_package_name_handling() {
    let valid_names = vec!["wkshp", "test_package", "my-circuit", "package123"];
    let invalid_names = vec!["", ".", "..", "/invalid", "\\invalid"];
    for name in valid_names {
        let bytecode_path = get_bytecode_path(name, Flavour::Bb);
        assert!(bytecode_path.contains(name));
        assert!(bytecode_path.ends_with(".json"));
    }
    for name in invalid_names {
        let bytecode_path = get_bytecode_path(name, Flavour::Bb);
        let _ = bytecode_path.len();
    }
}

#[test]
fn test_validate_required_files_empty_list() {
    let files: Vec<String> = vec![];
    let exists: Vec<bool> = vec![];
    let result = validate_required_files(&files, &exists);
    assert!(result.is_ok(), "Empty file list should be valid");
}

#[test]
fn test_validate_required_files_multiple_missing() {
    let temp_dir = TempDir::new().unwrap();
    let file1 = temp_dir.path().join("missing1.txt");
    let file2 = temp_dir.path().join("missing2.txt");
    let files = vec![file1.display().to_string(), file2.display().to_string()];
    let exists: Vec<bool> = vec![file1.exists(), file2.exists()];
    let result = validate_required_files(&files, &exists);
    assert!(result.is_err());
    let error_msg = result.unwrap_err().message;
    assert!(error_msg.contains("missing1.txt"));
    assert!(error_msg.contains("missing2.txt"));
}

#[test]
fn test_ensure_available() {
    match bargo::tools::ensure_available() {
        Ok(_) => println!("garaga is available"),
        Err(e) => {
            println!("garaga not available: {}", e.message);
            assert!(e.message.contains("pipx install garaga"));
        }
    }
}
