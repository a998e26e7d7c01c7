//! The decisions of `quasar init` around the prompts: the crate name, the
//! client languages, the summary line, and the next steps shown at the end.
use vstd::prelude::*;
use crate::options::{Selection, TestLanguage, selection_wf};
use crate::style::{bold, dim, BOLD, DIM, RESET};
use crate::text::str_eq;

verus! {

pub const DEFAULT_CRATE_NAME: &'static str = "my-program";

/// The crate name: the project name, or, when scaffolding into `.`, the
/// current directory's name (`my-program` when it has none).
pub fn crate_name(name: &str, current_dir_name: Option<&str>) -> (r: String)
    ensures
        name@ == "."@ ==> r@ == (match current_dir_name {
            Some(d) => d@,
            None => DEFAULT_CRATE_NAME@,
        }),
        name@ != "."@ ==> r@ == name@,
{
    if str_eq(name, ".") {
        match current_dir_name {
            Some(d) => d.to_owned(),
            None => String::from_str(DEFAULT_CRATE_NAME),
        }
    } else {
        name.to_owned()
    }
}

pub open spec fn strings_view(v: Seq<String>) -> Seq<Seq<char>> {
    v.map_values(|w: String| w@)
}

/// The client languages always generated: Rust, and TypeScript when the
/// tests are in TypeScript.
pub open spec fn forced_languages(ts_tests: bool) -> Seq<Seq<char>> {
    if ts_tests {
        seq!["rust"@, "typescript"@]
    } else {
        seq!["rust"@]
    }
}

/// The client languages when no prompt is shown.
pub fn default_client_languages(ts_tests: bool) -> (r: Vec<String>)
    ensures
        strings_view(r@) == forced_languages(ts_tests),
{
    let mut r: Vec<String> = Vec::new();
    r.push(String::from_str("rust"));
    if ts_tests {
        r.push(String::from_str("typescript"));
    }
    assert(strings_view(r@) =~= forced_languages(ts_tests));
    r
}

/// The languages the prompt offers besides the forced ones, each as
/// (shown name, configuration name): TypeScript unless forced, Golang,
/// Python.
pub open spec fn optional_languages(ts_tests: bool) -> Seq<(Seq<char>, Seq<char>)> {
    if ts_tests {
        seq![("Golang"@, "golang"@), ("Python"@, "python"@)]
    } else {
        seq![("TypeScript"@, "typescript"@), ("Golang"@, "golang"@), ("Python"@, "python"@)]
    }
}

pub open spec fn pairs_view(v: Seq<(&'static str, &'static str)>) -> Seq<(Seq<char>, Seq<char>)> {
    v.map_values(|p: (&'static str, &'static str)| (p.0@, p.1@))
}

pub fn optional_client_languages(ts_tests: bool) -> (r: Vec<(&'static str, &'static str)>)
    ensures
        pairs_view(r@) == optional_languages(ts_tests),
{
    let mut r: Vec<(&'static str, &'static str)> = Vec::new();
    if !ts_tests {
        r.push(("TypeScript", "typescript"));
    }
    r.push(("Golang", "golang"));
    r.push(("Python", "python"));
    assert(pairs_view(r@) =~= optional_languages(ts_tests));
    r
}

/// `Additional client languages (Rust[, TypeScript] always included)`.
pub fn client_languages_prompt(ts_tests: bool) -> (r: String)
    ensures
        r@ == "Additional client languages ("@ + (if ts_tests {
            "Rust, TypeScript"@
        } else {
            "Rust"@
        }) + " always included)"@,
{
    let mut r = String::from_str("Additional client languages (");
    if ts_tests {
        r.append("Rust, TypeScript");
    } else {
        r.append("Rust");
    }
    r.append(" always included)");
    r
}

/// The client languages after the prompt: the forced ones, then the
/// selected optional ones in the order selected.
pub fn chosen_client_languages(ts_tests: bool, selected: &Vec<usize>) -> (r: Vec<String>)
    requires
        forall|i: int| 0 <= i < selected@.len() ==> selected@[i] < optional_languages(ts_tests).len(),
    ensures
        strings_view(r@) == forced_languages(ts_tests) + selected@.map_values(
            |i: usize| optional_languages(ts_tests)[i as int].1,
        ),
{
    let optional = optional_client_languages(ts_tests);
    let mut r = default_client_languages(ts_tests);
    let mut k: usize = 0;
    while k < selected.len()
        invariant
            forall|i: int| 0 <= i < selected@.len() ==> selected@[i] < optional_languages(
                ts_tests,
            ).len(),
            pairs_view(optional@) == optional_languages(ts_tests),
            k <= selected@.len(),
            strings_view(r@) == forced_languages(ts_tests) + selected@.take(k as int).map_values(
                |i: usize| optional_languages(ts_tests)[i as int].1,
            ),
        decreases selected@.len() - k,
    {
        let idx = selected[k];
        let ghost before = r@;
        assert(optional@[idx as int].1@ == optional_languages(ts_tests)[idx as int].1);
        r.push(optional[idx].1.to_owned());
        assert(strings_view(r@) =~= strings_view(before).push(
            optional_languages(ts_tests)[idx as int].1,
        ));
        assert(selected@.take(k + 1).map_values(
            |i: usize| optional_languages(ts_tests)[i as int].1,
        ) =~= selected@.take(k as int).map_values(
            |i: usize| optional_languages(ts_tests)[i as int].1,
        ).push(optional_languages(ts_tests)[idx as int].1));
        k = k + 1;
    }
    assert(selected@.take(selected@.len() as int) =~= selected@);
    r
}

/// The test setup as the summary names it: `no tests`,
/// `rust/<framework>` or `typescript/<sdk>`.
pub open spec fn framework_label(s: Selection) -> Seq<char> {
    match s.test_language {
        TestLanguage::NoTests => "no tests"@,
        TestLanguage::Rust => "rust/"@ + s.rust_framework.unwrap().label_view(),
        TestLanguage::TypeScript => "typescript/"@ + s.ts_sdk.unwrap().label_view(),
    }
}

pub fn framework_label_of(s: &Selection) -> (r: String)
    requires
        selection_wf(*s),
    ensures
        r@ == framework_label(*s),
{
    match s.test_language {
        TestLanguage::NoTests => String::from_str("no tests"),
        TestLanguage::Rust => {
            let mut r = String::from_str("rust/");
            r.append(s.rust_framework.unwrap().label());
            r
        },
        TestLanguage::TypeScript => {
            let mut r = String::from_str("typescript/");
            r.append(s.ts_sdk.unwrap().label());
            r
        },
    }
}

pub open spec fn bold_spec(s: Seq<char>) -> Seq<char> {
    BOLD@ + s + RESET@
}

pub open spec fn dim_spec(s: Seq<char>) -> Seq<char> {
    DIM@ + s + RESET@
}

/// The line printed when the prompts are skipped:
/// `  Using: <toolchain> + <tests> <template> + <git>`, styled.
pub open spec fn summary_spec(s: Selection) -> Seq<char> {
    "  "@ + dim_spec("Using:"@) + " "@ + bold_spec(s.toolchain.label_view()) + " "@ + dim_spec(
        "+"@,
    ) + " "@ + bold_spec(framework_label(s)) + " "@ + bold_spec(s.template.label_view()) + " "@
        + dim_spec("+"@) + " "@ + bold_spec(s.git.summary_label_view())
}

pub fn summary_line(s: &Selection) -> (r: String)
    requires
        selection_wf(*s),
    ensures
        r@ == summary_spec(*s),
{
    let mut r = String::from_str("  ");
    r.append(dim("Using:").as_str());
    r.append(" ");
    r.append(bold(s.toolchain.label()).as_str());
    r.append(" ");
    r.append(dim("+").as_str());
    r.append(" ");
    r.append(bold(framework_label_of(s).as_str()).as_str());
    r.append(" ");
    r.append(bold(s.template.label()).as_str());
    r.append(" ");
    r.append(dim("+").as_str());
    r.append(" ");
    r.append(bold(s.git.summary_label()).as_str());
    assert(r@ =~= summary_spec(*s));
    r
}

/// The commands suggested after scaffolding: `cd <name>` unless the project
/// is the current directory, `quasar build`, and `quasar test` when there
/// are tests.
pub open spec fn next_steps_spec(name: Seq<char>, test_language: TestLanguage) -> Seq<Seq<char>> {
    (if name != "."@ {
        seq!["cd "@ + name]
    } else {
        Seq::empty()
    }) + seq!["quasar build"@] + (if test_language != TestLanguage::NoTests {
        seq!["quasar test"@]
    } else {
        Seq::empty()
    })
}

pub fn next_steps(name: &str, test_language: TestLanguage) -> (r: Vec<String>)
    ensures
        strings_view(r@) == next_steps_spec(name@, test_language),
{
    let mut r: Vec<String> = Vec::new();
    if !str_eq(name, ".") {
        let mut cd = String::from_str("cd ");
        cd.append(name);
        r.push(cd);
    }
    r.push(String::from_str("quasar build"));
    if test_language != TestLanguage::NoTests {
        r.push(String::from_str("quasar test"));
    }
    assert(strings_view(r@) =~= next_steps_spec(name@, test_language));
    r
}

} // verus!
