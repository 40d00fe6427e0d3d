//! The build helper's verified decisions, on concrete inputs.

use rt_worker::build_plan::{
    cargo_build_args, config_from_parts, lib_file_name, lib_prefix, lib_suffix, profile_dir,
    resolve_cargo, resolve_target, resolve_target_dir, select_packages, try_main, PlanError,
    ToolAction,
};
use rt_worker::textops::{contains_sub, replace_all, subst_line};

#[test]
fn dispatch_picks_known_subcommands() {
    assert_eq!(try_main(&String::from("build")), ToolAction::Build);
    assert_eq!(try_main(&String::from("debug")), ToolAction::Debug);
    assert_eq!(try_main(&String::from("install")), ToolAction::Help);
    assert_eq!(try_main(&String::from("")), ToolAction::Help);
}

#[test]
fn target_resolution_follows_fallbacks() {
    assert_eq!(
        resolve_target(Some(String::from("a-b-c")), Some(String::from("x"))),
        String::from("a-b-c")
    );
    assert_eq!(resolve_target(None, Some(String::from("x"))), String::from("x"));
    assert_eq!(resolve_target(None, None), String::from(""));
}

#[test]
fn target_dir_resolution_follows_fallbacks() {
    assert_eq!(
        resolve_target_dir(Some(String::from("out")), None, None),
        String::from("out")
    );
    assert_eq!(
        resolve_target_dir(None, Some(String::from("d1")), Some(String::from("d2"))),
        String::from("d1")
    );
    assert_eq!(
        resolve_target_dir(None, None, Some(String::from("d2"))),
        String::from("d2")
    );
    assert_eq!(resolve_target_dir(None, None, None), String::from("target"));
}

#[test]
fn all_packages_when_nothing_requested() {
    let known = vec![String::from("eg-worker-rs")];
    let sel = select_packages(&vec![], false, &known).unwrap();
    assert_eq!(sel, known);
    let sel = select_packages(&vec![String::from("other")], true, &known).unwrap();
    assert_eq!(sel, known);
}

#[test]
fn requested_packages_kept_in_order() {
    let known = vec![String::from("a"), String::from("b"), String::from("c")];
    let req = vec![String::from("c"), String::from("a")];
    let sel = select_packages(&req, false, &known).unwrap();
    assert_eq!(sel, req);
}

#[test]
fn unknown_project_is_an_error() {
    let known = vec![String::from("eg-worker-rs")];
    let req = vec![String::from("eg-worker-rs"), String::from("nope")];
    let err = select_packages(&req, false, &known).unwrap_err();
    assert_eq!(err, PlanError::UnknownProject(String::from("nope")));
}

#[test]
fn config_assembles_every_decision() {
    let known = vec![String::from("eg-worker-rs")];
    let conf = config_from_parts(
        String::from("build"),
        None,
        Some(String::from("x86_64-unknown-linux-gnu")),
        None,
        None,
        None,
        true,
        false,
        &vec![],
        &known,
    )
    .unwrap();
    assert_eq!(conf.subcommand, String::from("build"));
    assert_eq!(conf.target, String::from("x86_64-unknown-linux-gnu"));
    assert_eq!(conf.target_dir, String::from("target"));
    assert!(conf.release);
    assert_eq!(conf.packages, known);
}

#[test]
fn config_reports_first_unknown_project() {
    let known = vec![String::from("a")];
    let err = config_from_parts(
        String::from("build"),
        None,
        None,
        None,
        None,
        None,
        false,
        false,
        &vec![String::from("z"), String::from("y")],
        &known,
    )
    .unwrap_err();
    assert_eq!(err, PlanError::UnknownProject(String::from("z")));
}

#[test]
fn profile_dir_follows_release_flag() {
    assert_eq!(profile_dir(true), "release");
    assert_eq!(profile_dir(false), "debug");
}

#[test]
fn library_naming_by_target_then_host() {
    assert_eq!(lib_prefix("x86_64-apple-darwin", false, false), "lib");
    assert_eq!(lib_suffix("x86_64-apple-darwin", false, false), ".dylib");
    assert_eq!(lib_prefix("x86_64-pc-windows-msvc", false, false), "");
    assert_eq!(lib_suffix("x86_64-pc-windows-msvc", false, false), ".dll");
    assert_eq!(lib_prefix("x86_64-unknown-linux-gnu", false, false), "lib");
    assert_eq!(lib_suffix("x86_64-unknown-linux-gnu", false, false), ".so");
    // An empty triple defers to the host's convention.
    assert_eq!(lib_suffix("", true, false), ".dylib");
    assert_eq!(lib_prefix("", false, true), "");
    assert_eq!(lib_suffix("", false, true), ".dll");
    assert_eq!(lib_suffix("", false, false), ".so");
    // The triple wins over the host flags.
    assert_eq!(lib_suffix("aarch64-apple-darwin", false, true), ".dylib");
}

#[test]
fn library_file_name_concatenates() {
    assert_eq!(lib_file_name("lib", "eg_worker_rs", ".so"), String::from("libeg_worker_rs.so"));
    assert_eq!(lib_file_name("", "eg_worker_rs", ".dll"), String::from("eg_worker_rs.dll"));
}

#[test]
fn cargo_args_exact_for_full_config() {
    let args = cargo_build_args(
        true,
        &String::from("triple"),
        &String::from("out"),
        &vec![String::from("p1"), String::from("p2")],
    );
    let expected: Vec<String> = ["--release", "--target", "triple", "--target-dir", "out", "-p",
        "p1", "-p", "p2"]
        .iter()
        .map(|s| String::from(*s))
        .collect();
    assert_eq!(args, expected);
}

#[test]
fn cargo_args_omit_empty_target_and_release() {
    let args = cargo_build_args(false, &String::from(""), &String::from("target"), &vec![]);
    let expected: Vec<String> =
        ["--target-dir", "target"].iter().map(|s| String::from(*s)).collect();
    assert_eq!(args, expected);
}

#[test]
fn substring_search() {
    assert!(contains_sub(b"x86_64-apple-darwin", b"apple"));
    assert!(!contains_sub(b"x86_64-unknown-linux-gnu", b"apple"));
    assert!(contains_sub(b"abc", b""));
    assert!(!contains_sub(b"ab", b"abc"));
}

#[test]
fn cargo_executable_follows_fallback() {
    assert_eq!(resolve_cargo(Some(String::from("/opt/tools/cargo"))), "/opt/tools/cargo");
    assert_eq!(resolve_cargo(None), "cargo");
}

#[test]
fn token_replacement() {
    let out = replace_all(b"lib @NAME@ and @NAME@", b"@NAME@", b"worker");
    assert_eq!(out, b"lib worker and worker".to_vec());
    // No occurrence leaves the line untouched.
    let out = replace_all(b"nothing here", b"@NAME@", b"worker");
    assert_eq!(out, b"nothing here".to_vec());
    // Replacement never rescans what it produced.
    let out = replace_all(b"aa", b"a", b"aa");
    assert_eq!(out, b"aaaa".to_vec());
    // An empty token names nothing and changes nothing.
    let out = replace_all(b"unchanged", b"", b"worker");
    assert_eq!(out, b"unchanged".to_vec());
}

#[test]
fn manifest_line_substitution() {
    let line = b"lv2:binary <@LIB_FILE_NAME@> ;".to_vec();
    let subs = vec![(b"@LIB_FILE_NAME@".to_vec(), b"libeg_worker_rs.so".to_vec())];
    let out = subst_line(&line, &subs);
    assert_eq!(out, b"lv2:binary <libeg_worker_rs.so> ;".to_vec());
    // Later pairs see the earlier pairs' output.
    let subs = vec![
        (b"@A@".to_vec(), b"@B@".to_vec()),
        (b"@B@".to_vec(), b"done".to_vec()),
    ];
    let out = subst_line(&b"@A@ @B@".to_vec(), &subs);
    assert_eq!(out, b"done done".to_vec());
}
