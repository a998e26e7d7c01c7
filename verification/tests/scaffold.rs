use quasar::keypair::ProgramKeypair;
use quasar::options::{PackageManager, RustFramework, Template, TestLanguage, Toolchain, TypeScriptSdk};
use quasar::scaffold::{existing_project_message, scaffold_plan, Step};
use quasar::templates::{generate_cargo_toml, generate_lib_rs, GITIGNORE, STATE_RS};

fn keypair() -> ProgramKeypair {
    ProgramKeypair { program_id: "Prog111".to_string(), keypair_json: "[1,2]".to_string() }
}

fn describe(steps: &[Step]) -> Vec<String> {
    steps
        .iter()
        .map(|s| match s {
            Step::Dir(p) => format!("dir {p}"),
            Step::Config => "config".to_string(),
            Step::File(p, _) => format!("file {p}"),
        })
        .collect()
}

#[test]
fn minimal_rust_project_on_solana() {
    let langs = vec!["rust".to_string()];
    let plan = scaffold_plan(
        "my-program",
        Toolchain::Solana,
        TestLanguage::Rust,
        Some(RustFramework::QuasarSVM),
        None,
        Template::Minimal,
        None,
        &langs,
        &keypair(),
    );
    assert_eq!(
        describe(&plan.steps),
        vec![
            "dir src",
            "config",
            "file Cargo.toml",
            "file .gitignore",
            "dir target/deploy",
            "file target/deploy/my-program-keypair.json",
            "file src/lib.rs",
            "file src/tests.rs",
        ]
    );
    match &plan.steps[2] {
        Step::File(_, c) => assert_eq!(
            c,
            &generate_cargo_toml("my-program", Toolchain::Solana, TestLanguage::Rust, Some(RustFramework::QuasarSVM))
        ),
        _ => panic!(),
    }
    match &plan.steps[3] {
        Step::File(_, c) => assert_eq!(c, GITIGNORE),
        _ => panic!(),
    }
    match &plan.steps[5] {
        Step::File(_, c) => assert_eq!(c, "[1,2]"),
        _ => panic!(),
    }
    match &plan.steps[6] {
        Step::File(_, c) => assert_eq!(c, &generate_lib_rs("my_program", "Prog111", Template::Minimal, true)),
        _ => panic!(),
    }
    assert_eq!(plan.config.project_name, "my-program");
    assert_eq!(plan.config.toolchain_type, "solana");
    assert_eq!(plan.config.testing.language, "rust");
    let rust = plan.config.testing.rust.as_ref().unwrap();
    assert_eq!(rust.framework, "quasar-svm");
    assert_eq!(rust.test, "cargo test tests::");
    assert!(plan.config.testing.typescript.is_none());
    assert_eq!(plan.config.client_languages, langs);
}

#[test]
fn full_typescript_project_on_upstream() {
    let langs = vec!["rust".to_string(), "typescript".to_string()];
    let plan = scaffold_plan(
        "app",
        Toolchain::Upstream,
        TestLanguage::TypeScript,
        None,
        Some(TypeScriptSdk::Kit),
        Template::Full,
        Some(&PackageManager::Bun),
        &langs,
        &keypair(),
    );
    assert_eq!(
        describe(&plan.steps),
        vec![
            "dir src",
            "config",
            "file Cargo.toml",
            "dir .cargo",
            "file .cargo/config.toml",
            "file .gitignore",
            "dir target/deploy",
            "file target/deploy/app-keypair.json",
            "file src/lib.rs",
            "dir src/instructions",
            "file src/instructions/mod.rs",
            "file src/instructions/initialize.rs",
            "file src/state.rs",
            "file src/errors.rs",
            "dir tests",
            "file package.json",
            "file tsconfig.json",
            "file tests/app.test.ts",
        ]
    );
    match &plan.steps[12] {
        Step::File(_, c) => assert_eq!(c, STATE_RS),
        _ => panic!(),
    }
    let ts = plan.config.testing.typescript.as_ref().unwrap();
    assert_eq!(ts.framework, "quasar-svm");
    assert_eq!(ts.sdk, "kit");
    assert_eq!(ts.install, "bun install");
    assert_eq!(ts.test, "bun test");
    assert!(plan.config.testing.rust.is_none());
    assert_eq!(plan.config.toolchain_type, "upstream");
}

#[test]
fn refusal_messages() {
    assert_eq!(existing_project_message(".", true), "current directory already contains a project");
    assert_eq!(existing_project_message("demo", false), "directory 'demo' already exists");
}
