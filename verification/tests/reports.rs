use bargo::errors::{
    command_failed, create_smart_error, enhance_error_with_suggestions, validate_files_exist, validate_required_files,
    BargoError,
};
use bargo::manifest::{parse_package_name, select_project_root, workspace_dir_name, TomlConfig};
use bargo::output::{
    banner_text, colorize, colorize_for, coloring_for, error, error_for, info, info_for, path, path_for, success, success_for,
    warning, warning_for,
};
use bargo::rebuild::{needs_rebuild_from_times, rebuild_paths, BuildTimes};
use bargo::scan::{
    extract_class_hash, extract_contract_address, extract_tx_hash, first_token_of, last_token_of, nth_piece,
    split_lines, trim_str,
};
use bargo::summary::OperationSummary;
use bargo::timing::{format_duration, format_file_size, render_operation_result, Timer};
use bargo::tools::{doctor_report, garaga_failure, locate_tool, locate_tools, require_tool, ToolLookup, ToolPaths};

fn strings(items: &[&str]) -> Vec<String> {
    items.iter().map(|s| s.to_string()).collect()
}

#[test]
fn lines_follow_str_lines() {
    for text in ["", "a", "a\n", "a\r\nb", "a\r\n\r\nb\n", "x\r", "\n\n", "one\ntwo\r\nthree\r"] {
        let expected: Vec<String> = text.lines().map(|l| l.to_string()).collect();
        assert_eq!(split_lines(text), expected, "{:?}", text);
    }
}

#[test]
fn trim_follows_str_trim() {
    for text in ["", "  a  ", "\t\u{a0}x y\u{3000}\n", "\u{2003}", "no-space", "\u{85}z\u{2028}"] {
        assert_eq!(trim_str(text), text.trim(), "{:?}", text);
    }
}

#[test]
fn tokens_follow_split_whitespace() {
    for text in ["", "  ", "a b c", "  lead trail  ", "one", "x\u{2009}y"] {
        assert_eq!(first_token_of(text), text.split_whitespace().next().unwrap_or(""), "{:?}", text);
        assert_eq!(last_token_of(text), text.split_whitespace().last().unwrap_or(""), "{:?}", text);
    }
}

#[test]
fn pieces_follow_split() {
    for text in ["", "a\"b\"c\"d\"e", "\"\"\"", "no quotes", "\"k\": \"v\""] {
        for n in 0..6 {
            assert_eq!(nth_piece(text, '"', n), text.split('"').nth(n).map(|s| s.to_string()), "{:?} {}", text, n);
        }
    }
}

#[test]
fn class_hash_needs_sixty_bytes() {
    let short = format!("0x{}", "a".repeat(57));
    let long = format!("0x{}", "a".repeat(58));
    assert_eq!(extract_class_hash(&format!("{}\n", short)), None);
    assert_eq!(extract_class_hash(&format!("noise\n   {}   \n", long)), Some(long.clone()));
    let accented = format!("0x{}é", "a".repeat(56));
    assert_eq!(accented.len(), 60);
    assert_eq!(extract_class_hash(&accented), Some(accented.clone()));
}

#[test]
fn contract_address_from_first_long_tail() {
    let addr = format!("0x{}", "1".repeat(64));
    let out = format!("short 0x12\nContract deployed at {} successfully\n", addr);
    assert_eq!(extract_contract_address(&out), Some(addr));
    assert_eq!(extract_contract_address("0x12 only"), None);
}

#[test]
fn tx_hash_from_receipt_or_bare_line() {
    let hash = format!("0x{}", "f".repeat(64));
    assert_eq!(extract_tx_hash(&format!("\"transactionHash\": \"{}\"", hash)), Some(hash.clone()));
    assert_eq!(extract_tx_hash(&format!("transactionHash {}\n{}\n", hash, hash)), Some(hash.clone()));
    assert_eq!(extract_tx_hash("transactionHash only"), None);
    assert_eq!(extract_tx_hash(&format!(" {}\n", hash)), None);
}

fn lookup(program: &str, path: Option<String>) -> ToolLookup {
    ToolLookup { program: program.to_string(), path }
}

#[test]
fn lookups_name_their_programs() {
    let t = locate_tools();
    let names = [&t.nargo, &t.bb, &t.garaga, &t.forge, &t.cast].map(|l| l.program.clone());
    assert_eq!(names, ["nargo", "bb", "garaga", "forge", "cast"].map(String::from));
    assert_eq!(locate_tool("scarb").program, "scarb");
    assert!(locate_tool("surely-not-a-real-program-name").path.is_none());
}

#[test]
fn required_tool_checks() {
    assert!(require_tool(&lookup("forge", Some("/bin/forge".to_string())), "gone").is_ok());
    assert_eq!(require_tool(&lookup("forge", None), "forge is missing").unwrap_err().message, "forge is missing");
}

#[test]
fn doctor_reports_missing_required_tools() {
    let tools = ToolPaths {
        nargo: lookup("nargo", Some("/usr/bin/nargo".to_string())),
        bb: lookup("bb", None),
        garaga: lookup("garaga", None),
        forge: lookup("forge", Some("/bin/forge".to_string())),
        cast: lookup("cast", None),
    };
    let (lines, all_good) = doctor_report(&tools, false);
    assert!(!all_good);
    assert_eq!(lines[0], "🔍 Checking system dependencies...\n");
    assert_eq!(lines[1], "✅ nargo: /usr/bin/nargo");
    assert_eq!(lines[2], "❌ bb: not found");
    assert_eq!(lines[3], "   Install from: https://github.com/AztecProtocol/aztec-packages");
    assert!(lines.contains(&"⚠️  garaga: not found (optional - needed for Cairo features)".to_string()));
    assert!(lines.contains(&"✅ forge: /bin/forge".to_string()));
    assert_eq!(lines.last().unwrap(), "   Cairo features also require: garaga");
    let (quiet_lines, quiet_good) = doctor_report(&tools, true);
    assert!(quiet_lines.is_empty());
    assert!(!quiet_good);
}

#[test]
fn doctor_all_good() {
    let tools = ToolPaths {
        nargo: lookup("nargo", Some("n".to_string())),
        bb: lookup("bb", Some("b".to_string())),
        garaga: lookup("garaga", None),
        forge: lookup("forge", None),
        cast: lookup("cast", None),
    };
    let (lines, all_good) = doctor_report(&tools, false);
    assert!(all_good);
    assert_eq!(&lines[lines.len() - 2..], &strings(&["🎉 All required dependencies are available!", "   You can use all bargo features."])[..]);
}

#[test]
fn durations_match_float_formatting() {
    for (secs, nanos) in [(0u64, 0u32), (0, 999_999_999), (0, 5_000_000), (1, 0), (1, 49_999_999), (1, 50_000_001), (1, 250_000_000), (2, 349_999_999), (12, 950_000_001), (12, 949_999_999), (59, 999_999_999), (1, 50_000_000), (2, 50_000_000), (3, 150_000_000), (7, 450_000_000), (1 << 40, 50_000_001), (u64::MAX, 999_999_999)] {
        let expected = if secs > 0 {
            format!("{:.1}s", secs as f64 + nanos as f64 / 1e9)
        } else {
            format!("{}ms", nanos / 1_000_000)
        };
        assert_eq!(format_duration(secs, nanos), expected, "{} {}", secs, nanos);
    }
    assert_eq!(format_duration(1, 50_000_000), "1.1s");
    assert_eq!(format_duration(1, 500_000_000), "1.5s");
    assert_eq!(format_duration(0, 250_000_000), "250ms");
}

#[test]
fn file_sizes_match_float_formatting() {
    assert_eq!(format_file_size(None), "unknown size");
    for size in [0u64, 1, 1023, 1024, 1536, 1075, 1126, 10_239, 1_048_575, 1_048_576, 1_572_864, 123_456_789] {
        let expected = if size < 1024 {
            format!("{} B", size)
        } else if size < 1024 * 1024 {
            format!("{:.1} KB", size as f64 / 1024.0)
        } else {
            format!("{:.1} MB", size as f64 / (1024.0 * 1024.0))
        };
        assert_eq!(format_file_size(Some(size)), expected, "{}", size);
    }
}

#[test]
fn operation_result_layout() {
    assert_eq!(
        render_operation_result("Proof generated", "target/bb/proof", Some(2048), 1, 500_000_000),
        "Proof generated → target/bb/proof (2.0 KB, 1.5s)"
    );
    let timer = Timer::start();
    let elapsed = timer.elapsed();
    assert!(elapsed.ends_with("ms") || elapsed.ends_with('s'));
}

#[test]
fn smart_errors_list_suggestions() {
    assert_eq!(create_smart_error("Boom", &[]).message, "❌ Boom");
    assert_eq!(
        create_smart_error("Boom", &["one", "two"]).message,
        "❌ Boom\n\n💡 Suggestions:\n   • one\n   • two"
    );
}

#[test]
fn enhancement_adds_hints_only_when_known() {
    let plain = enhance_error_with_suggestions(BargoError::new("something else".to_string()));
    assert_eq!(plain.message, "something else");
    let nargo = enhance_error_with_suggestions(BargoError::new("nargo: command not found".to_string()));
    assert!(nargo.message.starts_with("nargo: command not found\n\n💡 Suggestions:"));
    assert!(nargo.message.contains("noirup"));
    let missing = enhance_error_with_suggestions(BargoError::new(
        "Required files are missing: target/bb/x.json".to_string(),
    ));
    assert!(missing.message.contains("Run `bargo build`"));
    let proof = enhance_error_with_suggestions(BargoError::new("Required files are missing: target/bb/proof".to_string()));
    assert!(proof.message.contains("Run `bargo prove`"));
}

#[test]
fn required_files_report_every_missing_one() {
    let files = strings(&["a.json", "b.gz", "c"]);
    assert!(validate_required_files(&files, &vec![true, true, true]).is_ok());
    let err = validate_required_files(&files, &vec![false, true, false]).unwrap_err();
    assert!(err.message.starts_with("❌ Required files are missing: a.json, c"));
    let plain = validate_files_exist(&files, &vec![true, false, true]).unwrap_err();
    assert!(plain.message.contains("b.gz"));
}

#[test]
fn failed_commands_name_their_exit_code() {
    assert_eq!(command_failed("bb", &strings(&["prove", "-b", "x"]), Some(2)).message, "bb prove -b x failed with exit code 2");
    assert_eq!(command_failed("nargo", &strings(&["execute"]), None).message, "nargo execute failed with exit code -1");
}

#[test]
fn garaga_failures_get_troubleshooting() {
    let e = garaga_failure(BargoError::new("garaga gen failed with exit code 1".to_string()));
    assert!(e.message.starts_with("garaga gen failed with exit code 1\n\nTroubleshooting:"));
}

#[test]
fn colors_switch_off_with_no_color() {
    assert_eq!(colorize("text", "\x1b[31m", true), "text");
    assert_eq!(success("done", true), "✅ done");
    assert_eq!(error("bad", true), "❌ bad");
    assert_eq!(warning("hm", true), "⚠️ hm");
    assert_eq!(info("fyi", true), "ℹ️ fyi");
    assert_eq!(path("target/bb", true), "target/bb");
}

#[test]
fn colors_follow_the_terminal() {
    assert!(coloring_for(false, true));
    assert!(!coloring_for(false, false));
    assert!(!coloring_for(true, true));
    assert_eq!(colorize_for("text", "\x1b[31m", false, true), "\x1b[31mtext\x1b[0m");
    assert_eq!(colorize_for("text", "\x1b[31m", false, false), "text");
    assert_eq!(colorize_for("text", "\x1b[31m", true, true), "text");
    assert_eq!(success_for("done", false, true), "\x1b[92m✅ done\x1b[0m");
    assert_eq!(error_for("bad", false, true), "\x1b[31m❌ bad\x1b[0m");
    assert_eq!(warning_for("hm", false, true), "\x1b[33m⚠️ hm\x1b[0m");
    assert_eq!(info_for("fyi", false, true), "\x1b[94mℹ️ fyi\x1b[0m");
    assert_eq!(path_for("target/bb", false, true), "\x1b[96mtarget/bb\x1b[0m");
    assert_eq!(success_for("done", false, false), "✅ done");
    assert_eq!(path_for("target/bb", true, false), "target/bb");
}

#[test]
fn banners_name_their_operation() {
    assert!(banner_text("build").contains("BUILDING NOIR CIRCUIT"));
    assert!(banner_text("clean").contains("CLEANING BUILD ARTIFACTS"));
    assert!(banner_text("evm gen").contains("RUNNING BARGO OPERATION"));
}

#[test]
fn summary_lists_operations_in_order() {
    let mut summary = OperationSummary::new();
    assert!(summary.render(0, 0, false).is_empty());
    summary.add_operation("first");
    summary.add_operation("second");
    assert_eq!(
        summary.render(1, 200_000_000, false),
        strings(&["\n🎉 Summary:", "   • first", "   • second", "   Total time: 1.2s"])
    );
    assert_eq!(summary.operations(), &strings(&["first", "second"]));
}

#[test]
fn rebuild_decisions() {
    let base = |sources: Vec<i128>| BuildTimes {
        bytecode: Some(100),
        witness: Some(90),
        nargo_toml: Some(10),
        prover_toml: None,
        sources,
    };
    assert!(!needs_rebuild_from_times(&base(vec![50, 89])));
    assert!(needs_rebuild_from_times(&base(vec![50, 91])));
    let mut missing = base(vec![]);
    missing.witness = None;
    assert!(needs_rebuild_from_times(&missing));
    let mut prover = base(vec![]);
    prover.prover_toml = Some(95);
    assert!(needs_rebuild_from_times(&prover));
    let paths = rebuild_paths("/work/demo", "demo");
    assert_eq!(paths.bytecode, "/work/demo/target/bb/demo.json");
    assert_eq!(paths.prover_toml, "/work/demo/Prover.toml");
}

#[test]
fn project_root_is_the_nearest_manifest() {
    let ancestors = strings(&["/a/b/c", "/a/b", "/a", "/"]);
    assert_eq!(select_project_root(&ancestors, &vec![false, true, true, false]).unwrap(), "/a/b");
    let err = select_project_root(&ancestors, &vec![false, false, false, false]).unwrap_err();
    assert!(err.message.starts_with("Could not find Nargo.toml"));
}

#[test]
fn workspace_names_come_from_the_directory() {
    assert_eq!(workspace_dir_name("/w/circuits/Nargo.toml"), Some("circuits".to_string()));
    assert_eq!(
        parse_package_name("/w/circuits/Nargo.toml", TomlConfig::Workspace).unwrap(),
        "circuits"
    );
    let err = parse_package_name("/p/Nargo.toml", TomlConfig::Package { name: None }).unwrap_err();
    assert_eq!(err.message, "Missing 'name' field in [package] section of Nargo.toml at /p/Nargo.toml");
}
