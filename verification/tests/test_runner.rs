use quasar::project::{RustTesting, Testing, TypeScriptTesting};
use quasar::test_runner::{
    command_argv, exit_code, failed_message, run, select_test_runner, spawn_failure_prefix,
    test_argv, typescript_commands, TestRunner,
};

fn testing(language: &str, rust: Option<&str>, ts: Option<(&str, &str)>) -> Testing {
    Testing {
        language: language.to_string(),
        rust: rust.map(|t| RustTesting { framework: "quasar-svm".to_string(), test: t.to_string() }),
        typescript: ts.map(|(i, t)| TypeScriptTesting {
            framework: "quasar-svm".to_string(),
            sdk: "kit".to_string(),
            install: i.to_string(),
            test: t.to_string(),
        }),
    }
}

#[test]
fn run_plans_build_and_watch() {
    let r = run(true, Some("init".to_string()), false, false, Some("debug".to_string()));
    assert!(!r.watch);
    let b = r.build.unwrap();
    assert!(b.debug);
    assert_eq!(b.features.as_deref(), Some("debug"));
    assert_eq!(r.filter.as_deref(), Some("init"));
    let r = run(false, None, true, true, None);
    assert!(r.watch);
    assert!(r.build.is_none());
    assert!(r.filter.is_none());
}

#[test]
fn runner_follows_configuration() {
    match select_test_runner(&testing("typescript", None, Some(("pnpm install", "pnpm test")))) {
        TestRunner::TypeScript { install, test } => {
            assert_eq!(install, "pnpm install");
            assert_eq!(test, "pnpm test");
        }
        _ => panic!("expected TypeScript"),
    }
    match select_test_runner(&testing("typescript", None, None)) {
        TestRunner::TypeScript { install, test } => {
            assert_eq!(install, "npm install");
            assert_eq!(test, "npx vitest run");
        }
        _ => panic!("expected TypeScript"),
    }
    match select_test_runner(&testing("rust", None, None)) {
        TestRunner::Rust { test } => assert_eq!(test, "cargo test tests::"),
        _ => panic!("expected Rust"),
    }
    match select_test_runner(&testing("rust", Some("cargo test"), None)) {
        TestRunner::Rust { test } => assert_eq!(test, "cargo test"),
        _ => panic!("expected Rust"),
    }
    assert!(matches!(select_test_runner(&testing("none", None, None)), TestRunner::NotConfigured));
}

#[test]
fn command_lines() {
    assert_eq!(command_argv("  pnpm   install "), vec!["pnpm", "install"]);
    assert_eq!(test_argv("cargo test tests::", None), vec!["cargo", "test", "tests::"]);
    assert_eq!(test_argv("npx vitest run", Some("init")), vec!["npx", "vitest", "run", "-t", "init"]);
    let cmds = typescript_commands("pnpm install", "pnpm test", false, Some("x"));
    assert_eq!(cmds, vec![vec!["pnpm", "install"], vec!["pnpm", "test", "-t", "x"]]);
    let cmds = typescript_commands("pnpm install", "pnpm test", true, None);
    assert_eq!(cmds, vec![vec!["pnpm", "test"]]);
}

#[test]
fn exit_codes_and_messages() {
    assert_eq!(exit_code(true, Some(0)), None);
    assert_eq!(exit_code(false, Some(3)), Some(3));
    assert_eq!(exit_code(false, None), Some(1));
    assert_eq!(failed_message("pnpm install"), "pnpm install failed");
    assert_eq!(spawn_failure_prefix("pnpm test"), "failed to run pnpm test: ");
}
