//! The directories and files `quasar init` creates, in order, relative to
//! the project directory.
use vstd::prelude::*;
use crate::keypair::ProgramKeypair;
use crate::options::{PackageManager, RustFramework, Template, TestLanguage, Toolchain, TypeScriptSdk};
use crate::project::{quasar_toml, quasar_toml_spec, QuasarToml};
use crate::templates::{
    cargo_toml, generate_cargo_toml, generate_lib_rs, generate_package_json, generate_test_ts,
    generate_tests_rs, lib_rs, package_json, test_ts, tests_rs, CARGO_CONFIG, ERRORS_RS,
    GITIGNORE, INSTRUCTIONS_MOD, INSTRUCTION_INITIALIZE, STATE_RS, TS_TEST_TSCONFIG,
};
use crate::text::{dashes_to_underscores, replace_dashes};

verus! {

/// One thing to create.
pub enum Step {
    /// Create this directory and its parents.
    Dir(String),
    /// Write `Quasar.toml` from the plan's configuration.
    Config,
    /// Write this file with these contents.
    File(String, String),
}

/// A step with its strings taken by their chars.
pub enum StepView {
    Dir(Seq<char>),
    Config,
    File(Seq<char>, Seq<char>),
}

pub open spec fn step_view(s: Step) -> StepView {
    match s {
        Step::Dir(p) => StepView::Dir(p@),
        Step::Config => StepView::Config,
        Step::File(p, c) => StepView::File(p@, c@),
    }
}

pub open spec fn steps_view(s: Seq<Step>) -> Seq<StepView> {
    s.map_values(|x: Step| step_view(x))
}

/// Everything a new project is made of.
pub struct ScaffoldPlan {
    pub config: QuasarToml,
    pub steps: Vec<Step>,
}

/// `src/`, `Quasar.toml` and `Cargo.toml`.
pub open spec fn head_steps(
    name: Seq<char>,
    toolchain: Toolchain,
    test_language: TestLanguage,
    rust_framework: Option<RustFramework>,
) -> Seq<StepView> {
    seq![
        StepView::Dir("src"@),
        StepView::Config,
        StepView::File("Cargo.toml"@, cargo_toml(name, toolchain, test_language, rust_framework)),
    ]
}

/// The cargo configuration that the upstream toolchain needs.
pub open spec fn cargo_config_steps(toolchain: Toolchain) -> Seq<StepView> {
    if toolchain == Toolchain::Upstream {
        seq![StepView::Dir(".cargo"@), StepView::File(".cargo/config.toml"@, CARGO_CONFIG@)]
    } else {
        Seq::empty()
    }
}

/// `.gitignore`, the program keypair and `src/lib.rs`.
pub open spec fn program_steps(
    name: Seq<char>,
    test_language: TestLanguage,
    template: Template,
    program_id: Seq<char>,
    keypair_json: Seq<char>,
) -> Seq<StepView> {
    seq![
        StepView::File(".gitignore"@, GITIGNORE@),
        StepView::Dir("target/deploy"@),
        StepView::File("target/deploy/"@ + name + "-keypair.json"@, keypair_json),
        StepView::File(
            "src/lib.rs"@,
            lib_rs(
                dashes_to_underscores(name),
                program_id,
                template,
                test_language == TestLanguage::Rust,
            ),
        ),
    ]
}

/// The instruction, state and error modules of the full template.
pub open spec fn template_steps(template: Template) -> Seq<StepView> {
    if template == Template::Full {
        seq![
            StepView::Dir("src/instructions"@),
            StepView::File("src/instructions/mod.rs"@, INSTRUCTIONS_MOD@),
            StepView::File("src/instructions/initialize.rs"@, INSTRUCTION_INITIALIZE@),
            StepView::File("src/state.rs"@, STATE_RS@),
            StepView::File("src/errors.rs"@, ERRORS_RS@),
        ]
    } else {
        Seq::empty()
    }
}

/// The Rust test module, when a Rust framework is chosen.
pub open spec fn rust_test_steps(
    name: Seq<char>,
    rust_framework: Option<RustFramework>,
    template: Template,
    toolchain: Toolchain,
) -> Seq<StepView> {
    match rust_framework {
        Some(fw) => seq![
            StepView::File(
                "src/tests.rs"@,
                tests_rs(dashes_to_underscores(name), fw, template, toolchain),
            ),
        ],
        None => Seq::empty(),
    }
}

/// The TypeScript test project, when an SDK is chosen.
pub open spec fn ts_test_steps(name: Seq<char>, ts_sdk: Option<TypeScriptSdk>, toolchain: Toolchain) -> Seq<StepView> {
    match ts_sdk {
        Some(sdk) => seq![
            StepView::Dir("tests"@),
            StepView::File("package.json"@, package_json(name, sdk)),
            StepView::File("tsconfig.json"@, TS_TEST_TSCONFIG@),
            StepView::File("tests/"@ + name + ".test.ts"@, test_ts(name, sdk, toolchain)),
        ],
        None => Seq::empty(),
    }
}

/// The steps, in order: `src/`, `Quasar.toml`, `Cargo.toml`, the cargo
/// configuration (upstream toolchain only), `.gitignore`, the program
/// keypair under `target/deploy/`, `src/lib.rs`, the full template's
/// modules, the Rust test module, and the TypeScript test project.
pub open spec fn scaffold_steps(
    name: Seq<char>,
    toolchain: Toolchain,
    test_language: TestLanguage,
    rust_framework: Option<RustFramework>,
    ts_sdk: Option<TypeScriptSdk>,
    template: Template,
    program_id: Seq<char>,
    keypair_json: Seq<char>,
) -> Seq<StepView> {
    head_steps(name, toolchain, test_language, rust_framework) + cargo_config_steps(toolchain)
        + program_steps(name, test_language, template, program_id, keypair_json)
        + template_steps(template) + rust_test_steps(name, rust_framework, template, toolchain)
        + ts_test_steps(name, ts_sdk, toolchain)
}

fn concat3(a: &str, b: &str, c: &str) -> (r: String)
    ensures
        r@ == a@ + b@ + c@,
{
    let mut r = String::from_str(a);
    r.append(b);
    r.append(c);
    r
}

fn push_step(steps: &mut Vec<Step>, s: Step)
    ensures
        steps_view(final(steps)@) == steps_view(old(steps)@).push(step_view(s)),
{
    let ghost before = steps@;
    steps.push(s);
    assert(steps_view(steps@) =~= steps_view(before).push(step_view(s)));
}

fn push_head(
    steps: &mut Vec<Step>,
    name: &str,
    toolchain: Toolchain,
    test_language: TestLanguage,
    rust_framework: Option<RustFramework>,
)
    ensures
        steps_view(final(steps)@) == steps_view(old(steps)@) + head_steps(
            name@,
            toolchain,
            test_language,
            rust_framework,
        ),
{
    let ghost before = steps_view(steps@);
    push_step(steps, Step::Dir(String::from_str("src")));
    push_step(steps, Step::Config);
    push_step(
        steps,
        Step::File(
            String::from_str("Cargo.toml"),
            generate_cargo_toml(name, toolchain, test_language, rust_framework),
        ),
    );
    assert(steps_view(steps@) =~= before + head_steps(
        name@,
        toolchain,
        test_language,
        rust_framework,
    ));
}

fn push_cargo_config(steps: &mut Vec<Step>, toolchain: Toolchain)
    ensures
        steps_view(final(steps)@) == steps_view(old(steps)@) + cargo_config_steps(toolchain),
{
    let ghost before = steps_view(steps@);
    if toolchain == Toolchain::Upstream {
        push_step(steps, Step::Dir(String::from_str(".cargo")));
        push_step(
            steps,
            Step::File(String::from_str(".cargo/config.toml"), String::from_str(CARGO_CONFIG)),
        );
    }
    assert(steps_view(steps@) =~= before + cargo_config_steps(toolchain));
}

fn push_program(
    steps: &mut Vec<Step>,
    name: &str,
    test_language: TestLanguage,
    template: Template,
    keypair: &ProgramKeypair,
)
    ensures
        steps_view(final(steps)@) == steps_view(old(steps)@) + program_steps(
            name@,
            test_language,
            template,
            keypair.program_id@,
            keypair.keypair_json@,
        ),
{
    let ghost before = steps_view(steps@);
    let module_name = replace_dashes(name);
    push_step(steps, Step::File(String::from_str(".gitignore"), String::from_str(GITIGNORE)));
    push_step(steps, Step::Dir(String::from_str("target/deploy")));
    push_step(
        steps,
        Step::File(concat3("target/deploy/", name, "-keypair.json"), keypair.keypair_json.clone()),
    );
    let has_rust_tests = test_language == TestLanguage::Rust;
    push_step(
        steps,
        Step::File(
            String::from_str("src/lib.rs"),
            generate_lib_rs(
                module_name.as_str(),
                keypair.program_id.as_str(),
                template,
                has_rust_tests,
            ),
        ),
    );
    assert(steps_view(steps@) =~= before + program_steps(
        name@,
        test_language,
        template,
        keypair.program_id@,
        keypair.keypair_json@,
    ));
}

fn push_template(steps: &mut Vec<Step>, template: Template)
    ensures
        steps_view(final(steps)@) == steps_view(old(steps)@) + template_steps(template),
{
    let ghost before = steps_view(steps@);
    if template == Template::Full {
        push_step(steps, Step::Dir(String::from_str("src/instructions")));
        push_step(
            steps,
            Step::File(
                String::from_str("src/instructions/mod.rs"),
                String::from_str(INSTRUCTIONS_MOD),
            ),
        );
        push_step(
            steps,
            Step::File(
                String::from_str("src/instructions/initialize.rs"),
                String::from_str(INSTRUCTION_INITIALIZE),
            ),
        );
        push_step(steps, Step::File(String::from_str("src/state.rs"), String::from_str(STATE_RS)));
        push_step(
            steps,
            Step::File(String::from_str("src/errors.rs"), String::from_str(ERRORS_RS)),
        );
    }
    assert(steps_view(steps@) =~= before + template_steps(template));
}

fn push_tests(
    steps: &mut Vec<Step>,
    name: &str,
    rust_framework: Option<RustFramework>,
    ts_sdk: Option<TypeScriptSdk>,
    template: Template,
    toolchain: Toolchain,
)
    ensures
        steps_view(final(steps)@) == steps_view(old(steps)@) + rust_test_steps(
            name@,
            rust_framework,
            template,
            toolchain,
        ) + ts_test_steps(name@, ts_sdk, toolchain),
{
    let ghost before = steps_view(steps@);
    if let Some(fw) = rust_framework {
        let module_name = replace_dashes(name);
        push_step(
            steps,
            Step::File(
                String::from_str("src/tests.rs"),
                generate_tests_rs(module_name.as_str(), fw, template, toolchain),
            ),
        );
    }
    let ghost mid = steps_view(steps@);
    assert(mid =~= before + rust_test_steps(name@, rust_framework, template, toolchain));
    if let Some(sdk) = ts_sdk {
        push_step(steps, Step::Dir(String::from_str("tests")));
        push_step(
            steps,
            Step::File(String::from_str("package.json"), generate_package_json(name, sdk)),
        );
        push_step(
            steps,
            Step::File(String::from_str("tsconfig.json"), String::from_str(TS_TEST_TSCONFIG)),
        );
        push_step(
            steps,
            Step::File(concat3("tests/", name, ".test.ts"), generate_test_ts(name, sdk, toolchain)),
        );
    }
    assert(steps_view(steps@) =~= mid + ts_test_steps(name@, ts_sdk, toolchain));
}

/// The plan of a new project named `name`, with its program keypair. The
/// package manager must be given for TypeScript tests with an SDK.
pub fn scaffold_plan(
    name: &str,
    toolchain: Toolchain,
    test_language: TestLanguage,
    rust_framework: Option<RustFramework>,
    ts_sdk: Option<TypeScriptSdk>,
    template: Template,
    package_manager: Option<&PackageManager>,
    client_languages: &Vec<String>,
    keypair: &ProgramKeypair,
) -> (plan: ScaffoldPlan)
    requires
        test_language == TestLanguage::TypeScript && ts_sdk is Some ==> package_manager is Some,
    ensures
        quasar_toml_spec(
            plan.config,
            name@,
            toolchain,
            test_language,
            rust_framework,
            ts_sdk,
            match package_manager {
                Some(p) => Some(*p),
                None => None,
            },
            client_languages@.map_values(|l: String| l@),
        ),
        steps_view(plan.steps@) == scaffold_steps(
            name@,
            toolchain,
            test_language,
            rust_framework,
            ts_sdk,
            template,
            keypair.program_id@,
            keypair.keypair_json@,
        ),
{
    let config = quasar_toml(
        name,
        toolchain,
        test_language,
        rust_framework,
        ts_sdk,
        package_manager,
        client_languages,
    );
    let mut steps: Vec<Step> = Vec::new();
    assert(steps_view(steps@) =~= Seq::<StepView>::empty());
    push_head(&mut steps, name, toolchain, test_language, rust_framework);
    push_cargo_config(&mut steps, toolchain);
    push_program(&mut steps, name, test_language, template, keypair);
    push_template(&mut steps, template);
    push_tests(&mut steps, name, rust_framework, ts_sdk, template, toolchain);
    assert(steps_view(steps@) =~= scaffold_steps(
        name@,
        toolchain,
        test_language,
        rust_framework,
        ts_sdk,
        template,
        keypair.program_id@,
        keypair.keypair_json@,
    ));
    ScaffoldPlan { config, steps }
}

/// The refusal when the target already holds a project: the current
/// directory with a `Cargo.toml` or `Quasar.toml`, or an existing directory.
pub fn existing_project_message(dir: &str, current_dir: bool) -> (m: String)
    ensures
        current_dir ==> m@ == "current directory already contains a project"@,
        !current_dir ==> m@ == "directory '"@ + dir@ + "' already exists"@,
{
    if current_dir {
        String::from_str("current directory already contains a project")
    } else {
        concat3("directory '", dir, "' already exists")
    }
}

/// The contents of the first file that the steps write at `path`.
pub open spec fn file_at(steps: Seq<StepView>, path: Seq<char>) -> Option<Seq<char>>
    decreases steps.len(),
{
    if steps.len() == 0 {
        None
    } else {
        match steps[0] {
            StepView::File(p, c) => if p == path {
                Some(c)
            } else {
                file_at(steps.drop_first(), path)
            },
            _ => file_at(steps.drop_first(), path),
        }
    }
}

proof fn lemma_file_at_concat(a: Seq<StepView>, b: Seq<StepView>, path: Seq<char>)
    ensures
        file_at(a + b, path) == (if file_at(a, path) is Some {
            file_at(a, path)
        } else {
            file_at(b, path)
        }),
    decreases a.len(),
{
    if a.len() == 0 {
        assert(a + b =~= b);
    } else {
        assert((a + b).drop_first() =~= a.drop_first() + b);
        lemma_file_at_concat(a.drop_first(), b, path);
    }
}

/// The steps before the test modules write nothing at `src/tests.rs`.
proof fn lemma_no_tests_rs_before_tests(
    name: Seq<char>,
    toolchain: Toolchain,
    test_language: TestLanguage,
    rust_framework: Option<RustFramework>,
    template: Template,
    program_id: Seq<char>,
    keypair_json: Seq<char>,
)
    ensures
        file_at(
            head_steps(name, toolchain, test_language, rust_framework) + cargo_config_steps(toolchain)
                + program_steps(name, test_language, template, program_id, keypair_json)
                + template_steps(template),
            "src/tests.rs"@,
        ) is None,
{
    reveal_strlit("src/tests.rs");
    reveal_strlit("Cargo.toml");
    reveal_strlit(".cargo/config.toml");
    reveal_strlit(".gitignore");
    reveal_strlit("target/deploy/");
    reveal_strlit("src/lib.rs");
    reveal_strlit("src/instructions/mod.rs");
    reveal_strlit("src/instructions/initialize.rs");
    reveal_strlit("src/state.rs");
    reveal_strlit("src/errors.rs");
    let t = "src/tests.rs"@;
    let h = head_steps(name, toolchain, test_language, rust_framework);
    let c = cargo_config_steps(toolchain);
    let p = program_steps(name, test_language, template, program_id, keypair_json);
    let m = template_steps(template);
    assert("Cargo.toml"@[0] != t[0]);
    assert(".cargo/config.toml"@[0] != t[0]);
    assert(".gitignore"@[0] != t[0]);
    assert(("target/deploy/"@ + name + "-keypair.json"@)[0] != t[0]);
    assert("src/lib.rs"@[4] != t[4]);
    assert("src/instructions/mod.rs"@[4] != t[4]);
    assert("src/instructions/initialize.rs"@[4] != t[4]);
    assert("src/state.rs"@[4] != t[4]);
    assert("src/errors.rs"@[4] != t[4]);
    reveal_with_fuel(file_at, 6);
    assert(file_at(h, t) is None);
    assert(file_at(c, t) is None);
    assert(file_at(p, t) is None);
    assert(file_at(m, t) is None);
    lemma_file_at_concat(h, c, t);
    lemma_file_at_concat(h + c, p, t);
    lemma_file_at_concat(h + c + p, m, t);
}

/// The program module `src/lib.rs` of a new project.
proof fn lemma_lib_rs_of(
    name: Seq<char>,
    toolchain: Toolchain,
    test_language: TestLanguage,
    rust_framework: Option<RustFramework>,
    ts_sdk: Option<TypeScriptSdk>,
    template: Template,
    program_id: Seq<char>,
    keypair_json: Seq<char>,
)
    ensures
        file_at(
            scaffold_steps(name, toolchain, test_language, rust_framework, ts_sdk, template, program_id, keypair_json),
            "src/lib.rs"@,
        ) == Some(lib_rs(dashes_to_underscores(name), program_id, template, test_language == TestLanguage::Rust)),
{
    reveal_strlit("src/lib.rs");
    reveal_strlit("Cargo.toml");
    reveal_strlit(".cargo/config.toml");
    reveal_strlit(".gitignore");
    reveal_strlit("target/deploy/");
    let l = "src/lib.rs"@;
    let h = head_steps(name, toolchain, test_language, rust_framework);
    let c = cargo_config_steps(toolchain);
    let p = program_steps(name, test_language, template, program_id, keypair_json);
    let rest = template_steps(template) + rust_test_steps(name, rust_framework, template, toolchain)
        + ts_test_steps(name, ts_sdk, toolchain);
    assert("Cargo.toml"@[0] != l[0]);
    assert(".cargo/config.toml"@[0] != l[0]);
    assert(".gitignore"@[0] != l[0]);
    assert(("target/deploy/"@ + name + "-keypair.json"@)[0] != l[0]);
    reveal_with_fuel(file_at, 5);
    assert(file_at(h, l) is None);
    assert(file_at(c, l) is None);
    assert(file_at(p, l) == Some(lib_rs(dashes_to_underscores(name), program_id, template, test_language == TestLanguage::Rust)));
    lemma_file_at_concat(h, c, l);
    lemma_file_at_concat(h + c, p, l);
    lemma_file_at_concat(h + c + p, rest, l);
    assert(scaffold_steps(name, toolchain, test_language, rust_framework, ts_sdk, template, program_id, keypair_json)
        =~= h + c + p + rest);
}

/// A new project's Rust test module depends on the project's name only
/// through its module name (dashes turned into underscores), and so does
/// `src/lib.rs`: two names that are the same up to `-` and `_` get the same
/// `src/tests.rs` and `src/lib.rs`; `src/tests.rs` is written exactly when a
/// Rust framework is chosen.
pub proof fn rust_tests_follow_module_name(
    a: Seq<char>,
    b: Seq<char>,
    toolchain: Toolchain,
    test_language: TestLanguage,
    rust_framework: Option<RustFramework>,
    ts_sdk: Option<TypeScriptSdk>,
    template: Template,
    program_id: Seq<char>,
    keypair_a: Seq<char>,
    keypair_b: Seq<char>,
)
    requires
        dashes_to_underscores(a) == dashes_to_underscores(b),
    ensures
        file_at(
            scaffold_steps(a, toolchain, test_language, rust_framework, ts_sdk, template, program_id, keypair_a),
            "src/tests.rs"@,
        ) == file_at(
            scaffold_steps(b, toolchain, test_language, rust_framework, ts_sdk, template, program_id, keypair_b),
            "src/tests.rs"@,
        ),
        file_at(
            scaffold_steps(a, toolchain, test_language, rust_framework, ts_sdk, template, program_id, keypair_a),
            "src/tests.rs"@,
        ) is Some <==> rust_framework is Some,
        file_at(
            scaffold_steps(a, toolchain, test_language, rust_framework, ts_sdk, template, program_id, keypair_a),
            "src/lib.rs"@,
        ) == file_at(
            scaffold_steps(b, toolchain, test_language, rust_framework, ts_sdk, template, program_id, keypair_b),
            "src/lib.rs"@,
        ),
{
    lemma_lib_rs_of(a, toolchain, test_language, rust_framework, ts_sdk, template, program_id, keypair_a);
    lemma_lib_rs_of(b, toolchain, test_language, rust_framework, ts_sdk, template, program_id, keypair_b);
    lemma_tests_rs_of(a, toolchain, test_language, rust_framework, ts_sdk, template, program_id, keypair_a);
    lemma_tests_rs_of(b, toolchain, test_language, rust_framework, ts_sdk, template, program_id, keypair_b);
}

proof fn lemma_tests_rs_of(
    name: Seq<char>,
    toolchain: Toolchain,
    test_language: TestLanguage,
    rust_framework: Option<RustFramework>,
    ts_sdk: Option<TypeScriptSdk>,
    template: Template,
    program_id: Seq<char>,
    keypair_json: Seq<char>,
)
    ensures
        file_at(
            scaffold_steps(name, toolchain, test_language, rust_framework, ts_sdk, template, program_id, keypair_json),
            "src/tests.rs"@,
        ) == match rust_framework {
            Some(fw) => Some(tests_rs(dashes_to_underscores(name), fw, template, toolchain)),
            None => None::<Seq<char>>,
        },
{
    reveal_strlit("src/tests.rs");
    reveal_strlit("tests");
    reveal_strlit("package.json");
    reveal_strlit("tsconfig.json");
    reveal_strlit("tests/");
    let t = "src/tests.rs"@;
    let pre = head_steps(name, toolchain, test_language, rust_framework) + cargo_config_steps(toolchain)
        + program_steps(name, test_language, template, program_id, keypair_json)
        + template_steps(template);
    let r = rust_test_steps(name, rust_framework, template, toolchain);
    let ts = ts_test_steps(name, ts_sdk, toolchain);
    lemma_no_tests_rs_before_tests(name, toolchain, test_language, rust_framework, template, program_id, keypair_json);
    assert("package.json"@[0] != t[0]);
    assert("tsconfig.json"@[0] != t[0]);
    assert(("tests/"@ + name + ".test.ts"@)[0] != t[0]);
    reveal_with_fuel(file_at, 5);
    assert(file_at(ts, t) is None);
    lemma_file_at_concat(pre, r, t);
    lemma_file_at_concat(pre + r, ts, t);
    assert(scaffold_steps(name, toolchain, test_language, rust_framework, ts_sdk, template, program_id, keypair_json)
        == pre + r + ts);
}

} // verus!
