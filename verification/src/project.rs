//! The project configuration, `Quasar.toml`: what `quasar init` writes and
//! what `quasar test` reads.
use vstd::prelude::*;
use crate::options::{PackageManager, RustFramework, TestLanguage, Toolchain, TypeScriptSdk};
use crate::text::str_eq;

verus! {

/// `[testing.rust]`.
pub struct RustTesting {
    pub framework: String,
    pub test: String,
}

/// `[testing.typescript]`.
pub struct TypeScriptTesting {
    pub framework: String,
    pub sdk: String,
    pub install: String,
    pub test: String,
}

/// `[testing]`.
pub struct Testing {
    pub language: String,
    pub rust: Option<RustTesting>,
    pub typescript: Option<TypeScriptTesting>,
}

/// The whole `Quasar.toml`.
pub struct QuasarToml {
    /// `[project] name`.
    pub project_name: String,
    /// `[toolchain] type`.
    pub toolchain_type: String,
    pub testing: Testing,
    /// `[clients] languages`.
    pub client_languages: Vec<String>,
}

pub const DEFAULT_RUST_TEST: &'static str = "cargo test tests::";

pub const TS_TEST_FRAMEWORK: &'static str = "quasar-svm";

/// `Some` holds the test languages' sections that the configuration has:
/// the Rust one exactly for Rust tests with a framework, the TypeScript one
/// exactly for TypeScript tests with an SDK.
pub open spec fn quasar_toml_spec(
    t: QuasarToml,
    name: Seq<char>,
    toolchain: Toolchain,
    test_language: TestLanguage,
    rust_framework: Option<RustFramework>,
    ts_sdk: Option<TypeScriptSdk>,
    package_manager: Option<PackageManager>,
    client_languages: Seq<Seq<char>>,
) -> bool {
    &&& t.project_name@ == name
    &&& t.toolchain_type@ == toolchain.label_view()
    &&& t.testing.language@ == test_language.label_view()
    &&& match (test_language, rust_framework) {
        (TestLanguage::Rust, Some(fw)) => t.testing.rust matches Some(r) && r.framework@
            == fw.label_view() && r.test@ == DEFAULT_RUST_TEST@,
        _ => t.testing.rust is None,
    }
    &&& match (test_language, ts_sdk) {
        (TestLanguage::TypeScript, Some(sdk)) => t.testing.typescript matches Some(ts)
            && ts.framework@ == TS_TEST_FRAMEWORK@ && ts.sdk@ == sdk.label_view() && ts.install@
            == package_manager.unwrap().install_cmd_view() && ts.test@
            == package_manager.unwrap().test_cmd_view(),
        _ => t.testing.typescript is None,
    }
    &&& t.client_languages@.map_values(|l: String| l@) == client_languages
}

fn clone_strings(v: &Vec<String>) -> (r: Vec<String>)
    ensures
        r@.map_values(|l: String| l@) == v@.map_values(|l: String| l@),
{
    let mut r: Vec<String> = Vec::new();
    let mut i: usize = 0;
    while i < v.len()
        invariant
            i <= v@.len(),
            r@.map_values(|l: String| l@) == v@.take(i as int).map_values(|l: String| l@),
        decreases v@.len() - i,
    {
        let ghost before = r@;
        let c = v[i].clone();
        assert(c@ == v@[i as int]@);
        r.push(c);
        assert(r@.map_values(|l: String| l@) =~= before.map_values(|l: String| l@).push(c@));
        assert(v@.take(i + 1).map_values(|l: String| l@) =~= v@.take(i as int).map_values(
            |l: String| l@,
        ).push(v@[i as int]@));
        i = i + 1;
    }
    assert(v@.take(v@.len() as int) =~= v@);
    r
}

/// The configuration of a new project. The package manager must be given
/// for TypeScript tests with an SDK.
pub fn quasar_toml(
    name: &str,
    toolchain: Toolchain,
    test_language: TestLanguage,
    rust_framework: Option<RustFramework>,
    ts_sdk: Option<TypeScriptSdk>,
    package_manager: Option<&PackageManager>,
    client_languages: &Vec<String>,
) -> (t: QuasarToml)
    requires
        test_language == TestLanguage::TypeScript && ts_sdk is Some ==> package_manager is Some,
    ensures
        quasar_toml_spec(
            t,
            name@,
            toolchain,
            test_language,
            rust_framework,
            ts_sdk,
            match package_manager {
                Some(p) => Some(*p),
                None => None,
            },
            client_languages@.map_values(|l: String| l@),
        ),
{
    let rust = match (test_language, rust_framework) {
        (TestLanguage::Rust, Some(fw)) => Some(
            RustTesting {
                framework: String::from_str(fw.label()),
                test: String::from_str(DEFAULT_RUST_TEST),
            },
        ),
        _ => None,
    };
    let typescript = match (test_language, ts_sdk) {
        (TestLanguage::TypeScript, Some(sdk)) => {
            let pm = package_manager.unwrap();
            Some(
                TypeScriptTesting {
                    framework: String::from_str(TS_TEST_FRAMEWORK),
                    sdk: String::from_str(sdk.label()),
                    install: String::from_str(pm.install_cmd()),
                    test: String::from_str(pm.test_cmd()),
                },
            )
        },
        _ => None,
    };
    QuasarToml {
        project_name: String::from_str(name),
        toolchain_type: String::from_str(toolchain.label()),
        testing: Testing { language: String::from_str(test_language.label()), rust, typescript },
        client_languages: clone_strings(client_languages),
    }
}

/// The project is tested with TypeScript.
pub open spec fn has_typescript_tests_spec(t: Testing) -> bool {
    t.language@ == "typescript"@
}

/// The project is tested with Rust.
pub open spec fn has_rust_tests_spec(t: Testing) -> bool {
    t.language@ == "rust"@
}

pub fn has_typescript_tests(t: &Testing) -> (b: bool)
    ensures
        b == has_typescript_tests_spec(*t),
{
    str_eq(t.language.as_str(), "typescript")
}

pub fn has_rust_tests(t: &Testing) -> (b: bool)
    ensures
        b == has_rust_tests_spec(*t),
{
    str_eq(t.language.as_str(), "rust")
}

} // verus!
