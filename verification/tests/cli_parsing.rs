//! The command-line front end, run against the real option parser.

use rt_worker::build_plan::PlanError;
use rt_worker::cli::{build_cli_options, config_from_cli, CliError};

fn strings(words: &[&str]) -> Vec<String> {
    words.iter().map(|w| String::from(*w)).collect()
}

#[test]
fn cli_settles_full_configuration() {
    let args = strings(&["--release", "--target", "x86_64-apple-darwin", "-p", "eg-worker-rs"]);
    let known = strings(&["eg-worker-rs", "eg-preset-rs"]);
    let conf =
        config_from_cli(String::from("build"), &args, None, None, None, &known).unwrap();
    assert_eq!(conf.subcommand, "build");
    assert!(conf.release);
    assert_eq!(conf.target, "x86_64-apple-darwin");
    assert_eq!(conf.target_dir, "target");
    assert_eq!(conf.packages, strings(&["eg-worker-rs"]));
}

#[test]
fn cli_defaults_select_every_package() {
    let known = strings(&["eg-worker-rs", "eg-preset-rs"]);
    let conf = config_from_cli(String::from("build"), &vec![], None, None, None, &known)
        .unwrap();
    assert!(!conf.release);
    assert_eq!(conf.target, "");
    assert_eq!(conf.packages, known);
}

#[test]
fn cli_takes_environment_fallbacks() {
    let known = strings(&["a"]);
    let conf = config_from_cli(
        String::from("build"),
        &vec![],
        Some(String::from("aarch64-unknown-linux-gnu")),
        Some(String::from("elsewhere")),
        None,
        &known,
    )
    .unwrap();
    assert_eq!(conf.target, "aarch64-unknown-linux-gnu");
    assert_eq!(conf.target_dir, "elsewhere");
}

#[test]
fn cli_rejects_unparsable_words() {
    let args = strings(&["--no-such-option"]);
    let err = config_from_cli(String::from("build"), &args, None, None, None, &strings(&["a"]))
        .unwrap_err();
    assert!(matches!(err, CliError::Parse(_)));
}

#[test]
fn cli_reports_unknown_project() {
    let args = strings(&["-p", "missing"]);
    let err = config_from_cli(String::from("build"), &args, None, None, None, &strings(&["a"]))
        .unwrap_err();
    assert_eq!(
        err,
        CliError::Plan(PlanError::UnknownProject(String::from("missing")))
    );
}

#[test]
fn cli_option_set_drives_usage_text() {
    let opts = build_cli_options();
    let usage = opts.usage("Usage: helper SUBCOMMAND [options]");
    assert!(usage.contains("--release"));
    assert!(usage.contains("--target-dir"));
    assert!(usage.contains("--project NAME"));
}
