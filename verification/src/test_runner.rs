//! `quasar test`: whether to build first, which test tool runs, with which
//! command line, and how its exit status is reported.
use vstd::prelude::*;
use crate::options::{PackageManager, RustFramework, TestLanguage, Toolchain, TypeScriptSdk};
use crate::project::{
    has_rust_tests, has_rust_tests_spec, has_typescript_tests, has_typescript_tests_spec,
    quasar_toml_spec, QuasarToml, Testing, DEFAULT_RUST_TEST,
};
use crate::text::{split_whitespace, words};

verus! {

/// A build that runs before the tests.
pub struct BuildRequest {
    pub debug: bool,
    pub features: Option<String>,
}

/// What `quasar test` was asked to do.
pub struct TestRequest {
    /// Rerun the tests whenever the sources change.
    pub watch: bool,
    /// The build that precedes every test run, unless building is skipped.
    pub build: Option<BuildRequest>,
    /// Only the tests whose names match.
    pub filter: Option<String>,
}

pub open spec fn opt_view(o: Option<String>) -> Option<Seq<char>> {
    match o {
        Some(s) => Some(s@),
        None => None,
    }
}

/// Plans a test run: watching or once, with a build before each run unless
/// `no_build`, and the given filter.
pub fn run(
    debug: bool,
    filter: Option<String>,
    watch: bool,
    no_build: bool,
    features: Option<String>,
) -> (r: TestRequest)
    ensures
        r.watch == watch,
        r.build is Some <==> !no_build,
        r.build matches Some(b) ==> b.debug == debug && opt_view(b.features) == opt_view(
            features,
        ),
        opt_view(r.filter) == opt_view(filter),
{
    TestRequest {
        watch,
        build: if no_build {
            None
        } else {
            Some(BuildRequest { debug, features })
        },
        filter,
    }
}

/// The tool that runs the project's tests.
pub enum TestRunner {
    /// vitest through the package manager: install (when the packages are
    /// missing), then test.
    TypeScript { install: String, test: String },
    /// `cargo test` (or the configured command).
    Rust { test: String },
    /// No test framework is configured.
    NotConfigured,
}

pub const DEFAULT_TS_INSTALL: &'static str = "npm install";

pub const DEFAULT_TS_TEST: &'static str = "npx vitest run";

/// TypeScript tests take precedence over Rust ones; a missing command falls
/// back to its default.
pub open spec fn runner_spec(t: Testing, r: TestRunner) -> bool {
    if has_typescript_tests_spec(t) {
        r matches TestRunner::TypeScript { install, test } && install@ == (match t.typescript {
            Some(ts) => ts.install@,
            None => DEFAULT_TS_INSTALL@,
        }) && test@ == (match t.typescript {
            Some(ts) => ts.test@,
            None => DEFAULT_TS_TEST@,
        })
    } else if has_rust_tests_spec(t) {
        r matches TestRunner::Rust { test } && test@ == (match t.rust {
            Some(rt) => rt.test@,
            None => DEFAULT_RUST_TEST@,
        })
    } else {
        r is NotConfigured
    }
}

pub fn select_test_runner(t: &Testing) -> (r: TestRunner)
    ensures
        runner_spec(*t, r),
{
    if has_typescript_tests(t) {
        let (install, test) = match &t.typescript {
            Some(ts) => (ts.install.clone(), ts.test.clone()),
            None => (String::from_str(DEFAULT_TS_INSTALL), String::from_str(DEFAULT_TS_TEST)),
        };
        TestRunner::TypeScript { install, test }
    } else if has_rust_tests(t) {
        let test = match &t.rust {
            Some(rt) => rt.test.clone(),
            None => String::from_str(DEFAULT_RUST_TEST),
        };
        TestRunner::Rust { test }
    } else {
        TestRunner::NotConfigured
    }
}

pub open spec fn strings_view(v: Seq<String>) -> Seq<Seq<char>> {
    v.map_values(|w: String| w@)
}

/// The program and arguments of a command line: its whitespace-separated
/// words. The command line must hold a word.
pub fn command_argv(cmd: &str) -> (argv: Vec<String>)
    requires
        words(cmd@).len() > 0,
    ensures
        strings_view(argv@) == words(cmd@),
        argv@.len() > 0,
{
    split_whitespace(cmd)
}

/// The test command's words, then `-t <pattern>` when a filter is given.
pub open spec fn test_argv_spec(cmd: Seq<char>, filter: Option<Seq<char>>) -> Seq<Seq<char>> {
    match filter {
        Some(p) => words(cmd) + seq!["-t"@, p],
        None => words(cmd),
    }
}

pub fn test_argv(cmd: &str, filter: Option<&str>) -> (argv: Vec<String>)
    requires
        words(cmd@).len() > 0,
    ensures
        strings_view(argv@) == test_argv_spec(
            cmd@,
            match filter {
                Some(p) => Some(p@),
                None => None,
            },
        ),
        argv@.len() > 0,
{
    let mut argv = split_whitespace(cmd);
    if let Some(pattern) = filter {
        let ghost before = argv@;
        argv.push(String::from_str("-t"));
        argv.push(pattern.to_owned());
        assert(strings_view(argv@) =~= strings_view(before) + seq!["-t"@, pattern@]);
    }
    argv
}

/// The command lines a TypeScript test run executes: the install command
/// when `node_modules` is missing, then the test command with the filter.
pub fn typescript_commands(
    install: &str,
    test: &str,
    node_modules_exists: bool,
    filter: Option<&str>,
) -> (cmds: Vec<Vec<String>>)
    requires
        words(install@).len() > 0,
        words(test@).len() > 0,
    ensures
        cmds@.len() == if node_modules_exists {
            1int
        } else {
            2int
        },
        !node_modules_exists ==> strings_view(cmds@[0]@) == words(install@),
        strings_view(cmds@[cmds@.len() - 1]@) == test_argv_spec(
            test@,
            match filter {
                Some(p) => Some(p@),
                None => None,
            },
        ),
{
    let mut cmds: Vec<Vec<String>> = Vec::new();
    if !node_modules_exists {
        cmds.push(command_argv(install));
    }
    cmds.push(test_argv(test, filter));
    cmds
}

/// The exit code a finished command leads to: none when it succeeded, else
/// its own code, or 1 when it has none (killed by a signal).
pub fn exit_code(success: bool, code: Option<i32>) -> (r: Option<i32>)
    ensures
        success ==> r is None,
        !success ==> r == Some(
            match code {
                Some(c) => c,
                None => 1i32,
            },
        ),
{
    if success {
        None
    } else {
        match code {
            Some(c) => Some(c),
            None => Some(1),
        }
    }
}

/// `<cmd> failed`.
pub fn failed_message(cmd: &str) -> (m: String)
    ensures
        m@ == cmd@ + " failed"@,
{
    let mut m = String::from_str(cmd);
    m.append(" failed");
    m
}

/// `failed to run <cmd>: `, followed by the error when reported.
pub fn spawn_failure_prefix(cmd: &str) -> (m: String)
    ensures
        m@ == "failed to run "@ + cmd@ + ": "@,
{
    let mut m = String::from_str("failed to run ");
    m.append(cmd);
    m.append(": ");
    m
}

/// A project that `quasar init` configured is tested the way it was set up:
/// with TypeScript tests through the chosen package manager's install and
/// test commands, with Rust tests through `cargo test tests::`, and without
/// tests by nothing.
pub proof fn scaffolded_project_runs_its_tests(
    t: QuasarToml,
    name: Seq<char>,
    toolchain: Toolchain,
    test_language: TestLanguage,
    rust_framework: Option<RustFramework>,
    ts_sdk: Option<TypeScriptSdk>,
    package_manager: Option<PackageManager>,
    client_languages: Seq<Seq<char>>,
    r: TestRunner,
)
    requires
        quasar_toml_spec(
            t,
            name,
            toolchain,
            test_language,
            rust_framework,
            ts_sdk,
            package_manager,
            client_languages,
        ),
        rust_framework is Some <==> test_language == TestLanguage::Rust,
        ts_sdk is Some <==> test_language == TestLanguage::TypeScript,
        test_language == TestLanguage::TypeScript ==> package_manager is Some,
        runner_spec(t.testing, r),
    ensures
        match test_language {
            TestLanguage::NoTests => r is NotConfigured,
            TestLanguage::Rust => r matches TestRunner::Rust { test } && test@ == DEFAULT_RUST_TEST@,
            TestLanguage::TypeScript => r matches TestRunner::TypeScript { install, test }
                && install@ == package_manager.unwrap().install_cmd_view() && test@
                == package_manager.unwrap().test_cmd_view(),
        },
{
    reveal_strlit("none");
    reveal_strlit("rust");
    reveal_strlit("typescript");
    assert("none"@[0] != "rust"@[0]);
    assert("none"@[0] != "typescript"@[0]);
    assert("rust"@[0] != "typescript"@[0]);
}

} // verus!
