//! The choices `quasar init` makes: toolchain, test language and framework,
//! TypeScript SDK, template, git setup and package manager; how each is
//! named, how a default is read from a flag or a saved preference, and what
//! is saved for the next run.
use vstd::prelude::*;
use crate::text::{opt_is, opt_str_view, str_eq};

verus! {

#[derive(Debug, Clone, Copy, PartialEq, Eq, Structural)]
pub enum Toolchain {
    Solana,
    Upstream,
}

#[derive(Debug, Clone, Copy, PartialEq, Eq, Structural)]
pub enum TestLanguage {
    NoTests,
    Rust,
    TypeScript,
}

#[derive(Debug, Clone, Copy, PartialEq, Eq, Structural)]
pub enum RustFramework {
    QuasarSVM,
    Mollusk,
}

#[derive(Debug, Clone, Copy, PartialEq, Eq, Structural)]
pub enum TypeScriptSdk {
    Kit,
    Web3js,
}

#[derive(Debug, Clone, Copy, PartialEq, Eq, Structural)]
pub enum Template {
    Minimal,
    Full,
}

#[derive(Debug, Clone, Copy, PartialEq, Eq, Structural)]
pub enum GitSetup {
    InitializeAndCommit,
    Initialize,
    Skip,
}

#[derive(Debug, Clone)]
pub enum PackageManager {
    Pnpm,
    Bun,
    Npm,
    Yarn,
    Other { install: String, test: String },
}

/// The chars of an optional owned string.
pub open spec fn ostr(o: Option<String>) -> Option<Seq<char>> {
    match o {
        Some(s) => Some(s@),
        None => None,
    }
}

/// `a` when it holds a value, else `b`.
pub open spec fn pick(a: Option<Seq<char>>, b: Option<Seq<char>>) -> Option<Seq<char>> {
    if a is Some {
        a
    } else {
        b
    }
}

/// Borrows the string inside an optional owned string.
pub fn as_opt_str(o: &Option<String>) -> (r: Option<&str>)
    ensures
        opt_str_view(r) == ostr(*o),
{
    match o {
        Some(s) => Some(s.as_str()),
        None => None,
    }
}

impl Toolchain {
    pub open spec fn label_view(self) -> Seq<char> {
        match self {
            Toolchain::Solana => "solana"@,
            Toolchain::Upstream => "upstream"@,
        }
    }

    /// The name shown to the user and written to the configuration.
    pub fn label(&self) -> (s: &'static str)
        ensures
            s@ == self.label_view(),
    {
        match self {
            Toolchain::Solana => "solana",
            Toolchain::Upstream => "upstream",
        }
    }

    pub open spec fn from_index_spec(idx: usize) -> Toolchain {
        if idx == 0 {
            Toolchain::Solana
        } else {
            Toolchain::Upstream
        }
    }

    /// The toolchain at position `idx` of the toolchain prompt.
    pub fn from_index(idx: usize) -> (t: Toolchain)
        ensures
            t == Self::from_index_spec(idx),
    {
        if idx == 0 {
            Toolchain::Solana
        } else {
            Toolchain::Upstream
        }
    }
}

impl TestLanguage {
    pub open spec fn label_view(self) -> Seq<char> {
        match self {
            TestLanguage::NoTests => "none"@,
            TestLanguage::Rust => "rust"@,
            TestLanguage::TypeScript => "typescript"@,
        }
    }

    pub fn label(&self) -> (s: &'static str)
        ensures
            s@ == self.label_view(),
    {
        match self {
            TestLanguage::NoTests => "none",
            TestLanguage::Rust => "rust",
            TestLanguage::TypeScript => "typescript",
        }
    }

    pub open spec fn from_index_spec(idx: usize) -> TestLanguage {
        if idx == 1 {
            TestLanguage::Rust
        } else if idx == 2 {
            TestLanguage::TypeScript
        } else {
            TestLanguage::NoTests
        }
    }

    pub fn from_index(idx: usize) -> (t: TestLanguage)
        ensures
            t == Self::from_index_spec(idx),
    {
        if idx == 1 {
            TestLanguage::Rust
        } else if idx == 2 {
            TestLanguage::TypeScript
        } else {
            TestLanguage::NoTests
        }
    }
}

impl RustFramework {
    pub open spec fn label_view(self) -> Seq<char> {
        match self {
            RustFramework::QuasarSVM => "quasar-svm"@,
            RustFramework::Mollusk => "mollusk"@,
        }
    }

    pub fn label(&self) -> (s: &'static str)
        ensures
            s@ == self.label_view(),
    {
        match self {
            RustFramework::QuasarSVM => "quasar-svm",
            RustFramework::Mollusk => "mollusk",
        }
    }

    pub open spec fn from_index_spec(idx: usize) -> RustFramework {
        if idx == 1 {
            RustFramework::Mollusk
        } else {
            RustFramework::QuasarSVM
        }
    }

    pub fn from_index(idx: usize) -> (t: RustFramework)
        ensures
            t == Self::from_index_spec(idx),
    {
        if idx == 1 {
            RustFramework::Mollusk
        } else {
            RustFramework::QuasarSVM
        }
    }
}

impl TypeScriptSdk {
    pub open spec fn label_view(self) -> Seq<char> {
        match self {
            TypeScriptSdk::Kit => "kit"@,
            TypeScriptSdk::Web3js => "web3.js"@,
        }
    }

    pub fn label(&self) -> (s: &'static str)
        ensures
            s@ == self.label_view(),
    {
        match self {
            TypeScriptSdk::Kit => "kit",
            TypeScriptSdk::Web3js => "web3.js",
        }
    }

    pub open spec fn from_index_spec(idx: usize) -> TypeScriptSdk {
        if idx == 1 {
            TypeScriptSdk::Web3js
        } else {
            TypeScriptSdk::Kit
        }
    }

    pub fn from_index(idx: usize) -> (t: TypeScriptSdk)
        ensures
            t == Self::from_index_spec(idx),
    {
        if idx == 1 {
            TypeScriptSdk::Web3js
        } else {
            TypeScriptSdk::Kit
        }
    }
}

impl Template {
    pub open spec fn label_view(self) -> Seq<char> {
        match self {
            Template::Minimal => "minimal"@,
            Template::Full => "full"@,
        }
    }

    pub fn label(&self) -> (s: &'static str)
        ensures
            s@ == self.label_view(),
    {
        match self {
            Template::Minimal => "minimal",
            Template::Full => "full",
        }
    }

    pub open spec fn from_index_spec(idx: usize) -> Template {
        if idx == 0 {
            Template::Minimal
        } else {
            Template::Full
        }
    }

    pub fn from_index(idx: usize) -> (t: Template)
        ensures
            t == Self::from_index_spec(idx),
    {
        if idx == 0 {
            Template::Minimal
        } else {
            Template::Full
        }
    }
}

impl GitSetup {
    pub open spec fn label_view(self) -> Seq<char> {
        match self {
            GitSetup::InitializeAndCommit => "commit"@,
            GitSetup::Initialize => "init"@,
            GitSetup::Skip => "skip"@,
        }
    }

    /// The name saved as the git preference.
    pub fn label(&self) -> (s: &'static str)
        ensures
            s@ == self.label_view(),
    {
        match self {
            GitSetup::InitializeAndCommit => "commit",
            GitSetup::Initialize => "init",
            GitSetup::Skip => "skip",
        }
    }

    pub open spec fn from_config_spec(value: Option<Seq<char>>) -> GitSetup {
        if value == Some("init"@) {
            GitSetup::Initialize
        } else if value == Some("skip"@) {
            GitSetup::Skip
        } else {
            GitSetup::InitializeAndCommit
        }
    }

    /// The git setup a saved preference names; anything else means
    /// initialize and commit.
    pub fn from_config(value: Option<&str>) -> (g: GitSetup)
        ensures
            g == Self::from_config_spec(opt_str_view(value)),
    {
        if opt_is(value, "init") {
            GitSetup::Initialize
        } else if opt_is(value, "skip") {
            GitSetup::Skip
        } else {
            GitSetup::InitializeAndCommit
        }
    }

    pub open spec fn from_index_spec(idx: usize) -> GitSetup {
        if idx == 1 {
            GitSetup::Initialize
        } else if idx == 2 {
            GitSetup::Skip
        } else {
            GitSetup::InitializeAndCommit
        }
    }

    /// The git setup at position `idx` of the git prompt.
    pub fn from_index(idx: usize) -> (g: GitSetup)
        ensures
            g == Self::from_index_spec(idx),
    {
        if idx == 1 {
            GitSetup::Initialize
        } else if idx == 2 {
            GitSetup::Skip
        } else {
            GitSetup::InitializeAndCommit
        }
    }

    pub open spec fn index_spec(self) -> usize {
        match self {
            GitSetup::InitializeAndCommit => 0,
            GitSetup::Initialize => 1,
            GitSetup::Skip => 2,
        }
    }

    /// The position of this setup in the git prompt.
    pub fn index(self) -> (i: usize)
        ensures
            i == self.index_spec(),
    {
        match self {
            GitSetup::InitializeAndCommit => 0,
            GitSetup::Initialize => 1,
            GitSetup::Skip => 2,
        }
    }

    pub open spec fn prompt_label_view(self) -> Seq<char> {
        match self {
            GitSetup::InitializeAndCommit => "Initialize + Commit"@,
            GitSetup::Initialize => "Initialize"@,
            GitSetup::Skip => "Skip"@,
        }
    }

    pub fn prompt_label(self) -> (s: &'static str)
        ensures
            s@ == self.prompt_label_view(),
    {
        match self {
            GitSetup::InitializeAndCommit => "Initialize + Commit",
            GitSetup::Initialize => "Initialize",
            GitSetup::Skip => "Skip",
        }
    }

    pub open spec fn summary_label_view(self) -> Seq<char> {
        match self {
            GitSetup::InitializeAndCommit => "git: init + commit"@,
            GitSetup::Initialize => "git: init"@,
            GitSetup::Skip => "git: skip"@,
        }
    }

    pub fn summary_label(self) -> (s: &'static str)
        ensures
            s@ == self.summary_label_view(),
    {
        match self {
            GitSetup::InitializeAndCommit => "git: init + commit",
            GitSetup::Initialize => "git: init",
            GitSetup::Skip => "git: skip",
        }
    }
}

impl PackageManager {
    pub open spec fn install_cmd_view(self) -> Seq<char> {
        match self {
            PackageManager::Pnpm => "pnpm install"@,
            PackageManager::Bun => "bun install"@,
            PackageManager::Npm => "npm install"@,
            PackageManager::Yarn => "yarn install"@,
            PackageManager::Other { install, .. } => install@,
        }
    }

    pub fn install_cmd(&self) -> (s: &str)
        ensures
            s@ == self.install_cmd_view(),
    {
        match self {
            PackageManager::Pnpm => "pnpm install",
            PackageManager::Bun => "bun install",
            PackageManager::Npm => "npm install",
            PackageManager::Yarn => "yarn install",
            PackageManager::Other { install, .. } => install.as_str(),
        }
    }

    pub open spec fn test_cmd_view(self) -> Seq<char> {
        match self {
            PackageManager::Pnpm => "pnpm test"@,
            PackageManager::Bun => "bun test"@,
            PackageManager::Npm => "npm test"@,
            PackageManager::Yarn => "yarn test"@,
            PackageManager::Other { test, .. } => test@,
        }
    }

    pub fn test_cmd(&self) -> (s: &str)
        ensures
            s@ == self.test_cmd_view(),
    {
        match self {
            PackageManager::Pnpm => "pnpm test",
            PackageManager::Bun => "bun test",
            PackageManager::Npm => "npm test",
            PackageManager::Yarn => "yarn test",
            PackageManager::Other { test, .. } => test.as_str(),
        }
    }

    pub open spec fn label_view(self) -> Seq<char> {
        match self {
            PackageManager::Pnpm => "pnpm"@,
            PackageManager::Bun => "bun"@,
            PackageManager::Npm => "npm"@,
            PackageManager::Yarn => "yarn"@,
            PackageManager::Other { .. } => "other"@,
        }
    }

    /// The name saved as the package-manager preference.
    pub fn label(&self) -> (s: &'static str)
        ensures
            s@ == self.label_view(),
    {
        match self {
            PackageManager::Pnpm => "pnpm",
            PackageManager::Bun => "bun",
            PackageManager::Npm => "npm",
            PackageManager::Yarn => "yarn",
            PackageManager::Other { .. } => "other",
        }
    }

    pub open spec fn from_config_spec(value: Option<Seq<char>>) -> usize {
        if value == Some("bun"@) {
            1
        } else if value == Some("npm"@) {
            2
        } else if value == Some("yarn"@) {
            3
        } else {
            0
        }
    }

    /// The prompt position of the package manager a saved preference names
    /// (pnpm by default).
    pub fn from_config(value: Option<&str>) -> (i: usize)
        ensures
            i == Self::from_config_spec(opt_str_view(value)),
    {
        if opt_is(value, "bun") {
            1
        } else if opt_is(value, "npm") {
            2
        } else if opt_is(value, "yarn") {
            3
        } else {
            0
        }
    }

    /// The prompt position of a named package manager (`Other` has none of
    /// its own: it stands last).
    pub open spec fn index_spec(self) -> usize {
        match self {
            PackageManager::Pnpm => 0,
            PackageManager::Bun => 1,
            PackageManager::Npm => 2,
            PackageManager::Yarn => 3,
            PackageManager::Other { .. } => 4,
        }
    }

    /// The package manager at position `idx` of the prompt, or `None` for
    /// the last position, where the user writes the commands.
    pub fn from_index(idx: usize) -> (pm: Option<PackageManager>)
        ensures
            idx <= 3 <==> pm is Some,
            pm matches Some(p) ==> p.index_spec() == idx && !(p is Other),
    {
        if idx == 0 {
            Some(PackageManager::Pnpm)
        } else if idx == 1 {
            Some(PackageManager::Bun)
        } else if idx == 2 {
            Some(PackageManager::Npm)
        } else if idx == 3 {
            Some(PackageManager::Yarn)
        } else {
            None
        }
    }
}

/// The five choices that can be given as flags.
pub struct Overrides {
    pub test_language: Option<String>,
    pub rust_framework: Option<String>,
    pub ts_sdk: Option<String>,
    pub template: Option<String>,
    pub toolchain: Option<String>,
}

/// Saved preferences: what the previous run chose.
pub struct Preferences {
    pub toolchain: Option<String>,
    pub test_language: Option<String>,
    pub rust_framework: Option<String>,
    pub ts_sdk: Option<String>,
    pub template: Option<String>,
    pub git: Option<String>,
    pub package_manager: Option<String>,
}

/// Which flag a value was given for.
#[derive(Debug, Clone, Copy, PartialEq, Eq, Structural)]
pub enum ChoiceKind {
    TestLanguage,
    RustFramework,
    TypeScriptSdk,
    Template,
    Toolchain,
}

impl ChoiceKind {
    /// Whether `v` is one of the values the flag accepts.
    pub open spec fn accepts(self, v: Seq<char>) -> bool {
        match self {
            ChoiceKind::TestLanguage => v == "none"@ || v == "rust"@ || v == "typescript"@,
            ChoiceKind::RustFramework => v == "quasar-svm"@ || v == "mollusk"@,
            ChoiceKind::TypeScriptSdk => v == "kit"@ || v == "web3.js"@,
            ChoiceKind::Template => v == "minimal"@ || v == "full"@,
            ChoiceKind::Toolchain => v == "solana"@ || v == "upstream"@,
        }
    }

    pub fn is_valid(self, v: &str) -> (b: bool)
        ensures
            b == self.accepts(v@),
    {
        match self {
            ChoiceKind::TestLanguage => str_eq(v, "none") || str_eq(v, "rust") || str_eq(
                v,
                "typescript",
            ),
            ChoiceKind::RustFramework => str_eq(v, "quasar-svm") || str_eq(v, "mollusk"),
            ChoiceKind::TypeScriptSdk => str_eq(v, "kit") || str_eq(v, "web3.js"),
            ChoiceKind::Template => str_eq(v, "minimal") || str_eq(v, "full"),
            ChoiceKind::Toolchain => str_eq(v, "solana") || str_eq(v, "upstream"),
        }
    }

    pub open spec fn what_view(self) -> Seq<char> {
        match self {
            ChoiceKind::TestLanguage => "test language"@,
            ChoiceKind::RustFramework => "rust framework"@,
            ChoiceKind::TypeScriptSdk => "TypeScript SDK"@,
            ChoiceKind::Template => "template"@,
            ChoiceKind::Toolchain => "toolchain"@,
        }
    }

    /// What the flag chooses, as the error message names it.
    pub fn what(self) -> (s: &'static str)
        ensures
            s@ == self.what_view(),
    {
        match self {
            ChoiceKind::TestLanguage => "test language",
            ChoiceKind::RustFramework => "rust framework",
            ChoiceKind::TypeScriptSdk => "TypeScript SDK",
            ChoiceKind::Template => "template",
            ChoiceKind::Toolchain => "toolchain",
        }
    }

    pub open spec fn valid_hint_view(self) -> Seq<char> {
        match self {
            ChoiceKind::TestLanguage => "valid: none, rust, typescript"@,
            ChoiceKind::RustFramework => "valid: quasar-svm, mollusk"@,
            ChoiceKind::TypeScriptSdk => "valid: kit, web3.js"@,
            ChoiceKind::Template => "valid: minimal, full"@,
            ChoiceKind::Toolchain => "valid: solana, upstream"@,
        }
    }

    /// The line that lists the accepted values.
    pub fn valid_hint(self) -> (s: &'static str)
        ensures
            s@ == self.valid_hint_view(),
    {
        match self {
            ChoiceKind::TestLanguage => "valid: none, rust, typescript",
            ChoiceKind::RustFramework => "valid: quasar-svm, mollusk",
            ChoiceKind::TypeScriptSdk => "valid: kit, web3.js",
            ChoiceKind::Template => "valid: minimal, full",
            ChoiceKind::Toolchain => "valid: solana, upstream",
        }
    }

    /// `unknown <what>: <value>`, the message for a value the flag refuses.
    pub fn unknown_message(self, v: &str) -> (m: String)
        ensures
            m@ == "unknown "@ + self.what_view() + ": "@ + v@,
    {
        let mut m = String::from_str("unknown ");
        m.append(self.what());
        m.append(": ");
        m.append(v);
        m
    }
}

/// Whether an optional flag value is absent or accepted.
pub open spec fn flag_ok(kind: ChoiceKind, v: Option<Seq<char>>) -> bool {
    match v {
        Some(s) => kind.accepts(s),
        None => true,
    }
}

/// The first flag, in the order test language, rust framework, TypeScript
/// SDK, template, toolchain, whose value is not accepted.
pub open spec fn first_bad_flag(ov: Overrides) -> Option<ChoiceKind> {
    if !flag_ok(ChoiceKind::TestLanguage, ostr(ov.test_language)) {
        Some(ChoiceKind::TestLanguage)
    } else if !flag_ok(ChoiceKind::RustFramework, ostr(ov.rust_framework)) {
        Some(ChoiceKind::RustFramework)
    } else if !flag_ok(ChoiceKind::TypeScriptSdk, ostr(ov.ts_sdk)) {
        Some(ChoiceKind::TypeScriptSdk)
    } else if !flag_ok(ChoiceKind::Template, ostr(ov.template)) {
        Some(ChoiceKind::Template)
    } else if !flag_ok(ChoiceKind::Toolchain, ostr(ov.toolchain)) {
        Some(ChoiceKind::Toolchain)
    } else {
        None
    }
}

fn check_flag(kind: ChoiceKind, v: &Option<String>) -> (ok: bool)
    ensures
        ok == flag_ok(kind, ostr(*v)),
{
    match v {
        Some(s) => kind.is_valid(s.as_str()),
        None => true,
    }
}

/// Checks the flag values before anything else is done: the first flag
/// whose value is unknown, with that value.
pub fn validate_overrides(ov: &Overrides) -> (r: Result<(), (ChoiceKind, String)>)
    ensures
        match r {
            Ok(()) => first_bad_flag(*ov) is None,
            Err((kind, value)) => first_bad_flag(*ov) == Some(kind) && ostr(
                match kind {
                    ChoiceKind::TestLanguage => ov.test_language,
                    ChoiceKind::RustFramework => ov.rust_framework,
                    ChoiceKind::TypeScriptSdk => ov.ts_sdk,
                    ChoiceKind::Template => ov.template,
                    ChoiceKind::Toolchain => ov.toolchain,
                },
            ) == Some(value@),
        },
{
    if !check_flag(ChoiceKind::TestLanguage, &ov.test_language) {
        return Err((ChoiceKind::TestLanguage, ov.test_language.clone().unwrap()));
    }
    if !check_flag(ChoiceKind::RustFramework, &ov.rust_framework) {
        return Err((ChoiceKind::RustFramework, ov.rust_framework.clone().unwrap()));
    }
    if !check_flag(ChoiceKind::TypeScriptSdk, &ov.ts_sdk) {
        return Err((ChoiceKind::TypeScriptSdk, ov.ts_sdk.clone().unwrap()));
    }
    if !check_flag(ChoiceKind::Template, &ov.template) {
        return Err((ChoiceKind::Template, ov.template.clone().unwrap()));
    }
    if !check_flag(ChoiceKind::Toolchain, &ov.toolchain) {
        return Err((ChoiceKind::Toolchain, ov.toolchain.clone().unwrap()));
    }
    Ok(())
}

/// Prompts are skipped when `--yes`, a project name, or any choice flag is
/// given.
pub open spec fn skips_prompts(yes: bool, name_given: bool, ov: Overrides) -> bool {
    yes || name_given || ov.test_language is Some || ov.rust_framework is Some || ov.ts_sdk is Some
        || ov.template is Some || ov.toolchain is Some
}

pub fn skip_prompts(yes: bool, name_given: bool, ov: &Overrides) -> (b: bool)
    ensures
        b == skips_prompts(yes, name_given, *ov),
{
    yes || name_given || ov.test_language.is_some() || ov.rust_framework.is_some()
        || ov.ts_sdk.is_some() || ov.template.is_some() || ov.toolchain.is_some()
}

/// The prompt positions preselected for each choice.
#[derive(Debug, Clone, Copy, PartialEq, Eq, Structural)]
pub struct DefaultIndices {
    pub toolchain: usize,
    pub test_language: usize,
    pub rust_framework: usize,
    pub ts_sdk: usize,
    pub template: usize,
    pub git: GitSetup,
    pub package_manager: usize,
}

pub open spec fn toolchain_default(v: Option<Seq<char>>) -> usize {
    if v == Some("upstream"@) {
        1
    } else {
        0
    }
}

pub open spec fn test_language_default(v: Option<Seq<char>>) -> usize {
    if v == Some("none"@) {
        0
    } else if v == Some("typescript"@) {
        2
    } else {
        1
    }
}

pub open spec fn rust_framework_default(v: Option<Seq<char>>) -> usize {
    if v == Some("mollusk"@) {
        1
    } else {
        0
    }
}

pub open spec fn ts_sdk_default(v: Option<Seq<char>>) -> usize {
    if v == Some("web3.js"@) {
        1
    } else {
        0
    }
}

pub open spec fn template_default(v: Option<Seq<char>>) -> usize {
    if v == Some("full"@) {
        1
    } else {
        0
    }
}

/// Each default is the flag's value if given, else the saved preference.
pub open spec fn defaults_spec(ov: Overrides, saved: Preferences) -> DefaultIndices {
    DefaultIndices {
        toolchain: toolchain_default(pick(ostr(ov.toolchain), ostr(saved.toolchain))),
        test_language: test_language_default(
            pick(ostr(ov.test_language), ostr(saved.test_language)),
        ),
        rust_framework: rust_framework_default(
            pick(ostr(ov.rust_framework), ostr(saved.rust_framework)),
        ),
        ts_sdk: ts_sdk_default(pick(ostr(ov.ts_sdk), ostr(saved.ts_sdk))),
        template: template_default(pick(ostr(ov.template), ostr(saved.template))),
        git: GitSetup::from_config_spec(ostr(saved.git)),
        package_manager: PackageManager::from_config_spec(ostr(saved.package_manager)),
    }
}

fn pick_str<'a>(a: &'a Option<String>, b: &'a Option<String>) -> (r: Option<&'a str>)
    ensures
        opt_str_view(r) == pick(ostr(*a), ostr(*b)),
{
    match a {
        Some(s) => Some(s.as_str()),
        None => as_opt_str(b),
    }
}

/// The preselected position of every prompt.
pub fn default_indices(ov: &Overrides, saved: &Preferences) -> (d: DefaultIndices)
    ensures
        d == defaults_spec(*ov, *saved),
{
    let tc = pick_str(&ov.toolchain, &saved.toolchain);
    let tl = pick_str(&ov.test_language, &saved.test_language);
    let fw = pick_str(&ov.rust_framework, &saved.rust_framework);
    let sdk = pick_str(&ov.ts_sdk, &saved.ts_sdk);
    let tpl = pick_str(&ov.template, &saved.template);
    DefaultIndices {
        toolchain: if opt_is(tc, "upstream") {
            1
        } else {
            0
        },
        test_language: if opt_is(tl, "none") {
            0
        } else if opt_is(tl, "typescript") {
            2
        } else {
            1
        },
        rust_framework: if opt_is(fw, "mollusk") {
            1
        } else {
            0
        },
        ts_sdk: if opt_is(sdk, "web3.js") {
            1
        } else {
            0
        },
        template: if opt_is(tpl, "full") {
            1
        } else {
            0
        },
        git: GitSetup::from_config(as_opt_str(&saved.git)),
        package_manager: PackageManager::from_config(as_opt_str(&saved.package_manager)),
    }
}

/// Everything `quasar init` decided, but the package manager.
#[derive(Debug, Clone, Copy, PartialEq, Eq, Structural)]
pub struct Selection {
    pub toolchain: Toolchain,
    pub test_language: TestLanguage,
    /// Only chosen when the tests are in Rust.
    pub rust_framework: Option<RustFramework>,
    /// Only chosen when the tests are in TypeScript.
    pub ts_sdk: Option<TypeScriptSdk>,
    pub template: Template,
    pub git: GitSetup,
}

/// A selection whose framework and SDK match its test language.
pub open spec fn selection_wf(s: Selection) -> bool {
    &&& (s.rust_framework is Some <==> s.test_language == TestLanguage::Rust)
    &&& (s.ts_sdk is Some <==> s.test_language == TestLanguage::TypeScript)
}

pub open spec fn select_spec(
    toolchain: usize,
    test_language: usize,
    rust_framework: usize,
    ts_sdk: usize,
    template: usize,
    git: GitSetup,
    no_git: bool,
) -> Selection {
    let tl = TestLanguage::from_index_spec(test_language);
    Selection {
        toolchain: Toolchain::from_index_spec(toolchain),
        test_language: tl,
        rust_framework: if tl == TestLanguage::Rust {
            Some(RustFramework::from_index_spec(rust_framework))
        } else {
            None
        },
        ts_sdk: if tl == TestLanguage::TypeScript {
            Some(TypeScriptSdk::from_index_spec(ts_sdk))
        } else {
            None
        },
        template: Template::from_index_spec(template),
        git: if no_git {
            GitSetup::Skip
        } else {
            git
        },
    }
}

/// The selection made of prompt positions (chosen, or the defaults when
/// prompts are skipped); `--no-git` skips git whatever was chosen.
pub fn select(
    toolchain: usize,
    test_language: usize,
    rust_framework: usize,
    ts_sdk: usize,
    template: usize,
    git: GitSetup,
    no_git: bool,
) -> (s: Selection)
    ensures
        s == select_spec(toolchain, test_language, rust_framework, ts_sdk, template, git, no_git),
        selection_wf(s),
{
    let tl = TestLanguage::from_index(test_language);
    Selection {
        toolchain: Toolchain::from_index(toolchain),
        test_language: tl,
        rust_framework: if tl == TestLanguage::Rust {
            Some(RustFramework::from_index(rust_framework))
        } else {
            None
        },
        ts_sdk: if tl == TestLanguage::TypeScript {
            Some(TypeScriptSdk::from_index(ts_sdk))
        } else {
            None
        },
        template: Template::from_index(template),
        git: if no_git {
            GitSetup::Skip
        } else {
            git
        },
    }
}

/// The selection made when no prompt is shown: every choice at its default.
pub fn select_defaults(d: &DefaultIndices, no_git: bool) -> (s: Selection)
    ensures
        s == select_spec(
            d.toolchain,
            d.test_language,
            d.rust_framework,
            d.ts_sdk,
            d.template,
            d.git,
            no_git,
        ),
{
    select(d.toolchain, d.test_language, d.rust_framework, d.ts_sdk, d.template, d.git, no_git)
}

/// The preferences saved after a run: every choice by its label; the git
/// preference is kept as it was under `--no-git`, the package manager as it
/// was when none was chosen.
pub open spec fn saved_spec(
    s: Selection,
    pm: Option<PackageManager>,
    no_git: bool,
    previous: Preferences,
) -> (Option<Seq<char>>, Option<Seq<char>>, Option<Seq<char>>, Option<Seq<char>>, Option<Seq<char>>, Option<Seq<char>>, Option<Seq<char>>) {
    (
        Some(s.toolchain.label_view()),
        Some(s.test_language.label_view()),
        match s.rust_framework {
            Some(f) => Some(f.label_view()),
            None => None,
        },
        match s.ts_sdk {
            Some(k) => Some(k.label_view()),
            None => None,
        },
        Some(s.template.label_view()),
        if no_git {
            ostr(previous.git)
        } else {
            Some(s.git.label_view())
        },
        match pm {
            Some(p) => Some(p.label_view()),
            None => ostr(previous.package_manager),
        },
    )
}

pub open spec fn prefs_view(p: Preferences) -> (Option<Seq<char>>, Option<Seq<char>>, Option<Seq<char>>, Option<Seq<char>>, Option<Seq<char>>, Option<Seq<char>>, Option<Seq<char>>) {
    (
        ostr(p.toolchain),
        ostr(p.test_language),
        ostr(p.rust_framework),
        ostr(p.ts_sdk),
        ostr(p.template),
        ostr(p.git),
        ostr(p.package_manager),
    )
}

fn owned(s: &str) -> (r: Option<String>)
    ensures
        ostr(r) == Some(s@),
{
    Some(s.to_owned())
}

fn clone_opt(o: &Option<String>) -> (r: Option<String>)
    ensures
        ostr(r) == ostr(*o),
{
    match o {
        Some(s) => Some(s.clone()),
        None => None,
    }
}

/// The preferences to save for the next run.
pub fn preferences_to_save(
    s: &Selection,
    pm: Option<&PackageManager>,
    no_git: bool,
    previous: &Preferences,
) -> (p: Preferences)
    ensures
        prefs_view(p) == saved_spec(
            *s,
            match pm {
                Some(x) => Some(*x),
                None => None,
            },
            no_git,
            *previous,
        ),
{
    Preferences {
        toolchain: owned(s.toolchain.label()),
        test_language: owned(s.test_language.label()),
        rust_framework: match s.rust_framework {
            Some(f) => owned(f.label()),
            None => None,
        },
        ts_sdk: match s.ts_sdk {
            Some(k) => owned(k.label()),
            None => None,
        },
        template: owned(s.template.label()),
        git: if no_git {
            clone_opt(&previous.git)
        } else {
            owned(s.git.label())
        },
        package_manager: match pm {
            Some(p) => owned(p.label()),
            None => clone_opt(&previous.package_manager),
        },
    }
}

/// A saved git preference is read back as the same setup.
pub proof fn git_setup_round_trip(g: GitSetup)
    ensures
        GitSetup::from_config_spec(Some(g.label_view())) == g,
{
    reveal_strlit("commit");
    reveal_strlit("init");
    reveal_strlit("skip");
    assert("commit"@.len() != "init"@.len());
    assert("commit"@.len() != "skip"@.len());
    assert("init"@[0] != "skip"@[0]);
}

/// The git prompt position of a setup leads back to that setup.
pub proof fn git_setup_index_round_trip(g: GitSetup)
    ensures
        GitSetup::from_index_spec(g.index_spec()) == g,
{
}

/// A saved named package manager is preselected at its own position.
pub proof fn package_manager_round_trip(pm: PackageManager)
    requires
        !(pm is Other),
    ensures
        PackageManager::from_config_spec(Some(pm.label_view())) == pm.index_spec(),
{
    reveal_strlit("pnpm");
    reveal_strlit("bun");
    reveal_strlit("npm");
    reveal_strlit("yarn");
    assert("pnpm"@.len() != "bun"@.len());
    assert("pnpm"@[0] != "npm"@[0]);
    assert("pnpm"@[0] != "yarn"@[0]);
    assert("bun"@[0] != "npm"@[0]);
    assert("bun"@.len() != "yarn"@.len());
    assert("npm"@.len() != "yarn"@.len());
}

/// What a run saves is what the next run, given no flags, selects again:
/// every choice, the git setup and the package manager come back unchanged.
pub proof fn saved_preferences_round_trip(
    s: Selection,
    pm: Option<PackageManager>,
    previous: Preferences,
    next_saved: Preferences,
    no_flags: Overrides,
)
    requires
        selection_wf(s),
        pm matches Some(p) ==> !(p is Other),
        prefs_view(next_saved) == saved_spec(s, pm, false, previous),
        no_flags.test_language is None,
        no_flags.rust_framework is None,
        no_flags.ts_sdk is None,
        no_flags.template is None,
        no_flags.toolchain is None,
    ensures
        ({
            let d = defaults_spec(no_flags, next_saved);
            &&& select_spec(
                d.toolchain,
                d.test_language,
                d.rust_framework,
                d.ts_sdk,
                d.template,
                d.git,
                false,
            ) == s
            &&& pm matches Some(p) ==> d.package_manager == p.index_spec()
        }),
{
    reveal_strlit("solana");
    reveal_strlit("upstream");
    reveal_strlit("none");
    reveal_strlit("rust");
    reveal_strlit("typescript");
    reveal_strlit("quasar-svm");
    reveal_strlit("mollusk");
    reveal_strlit("kit");
    reveal_strlit("web3.js");
    reveal_strlit("minimal");
    reveal_strlit("full");
    assert("solana"@[0] != "upstream"@[0]);
    assert("rust"@[0] != "none"@[0]);
    assert("rust"@[0] != "typescript"@[0]);
    assert("none"@[0] != "typescript"@[0]);
    assert("quasar-svm"@[0] != "mollusk"@[0]);
    assert("kit"@[0] != "web3.js"@[0]);
    assert("minimal"@[0] != "full"@[0]);
    git_setup_round_trip(s.git);
    if let Some(p) = pm {
        package_manager_round_trip(p);
    }
}

/// Every choice's own name is accepted by its flag: the flags take exactly
/// the names the choices are shown and saved under.
pub proof fn choice_labels_are_accepted(
    tl: TestLanguage,
    fw: RustFramework,
    sdk: TypeScriptSdk,
    tpl: Template,
    tc: Toolchain,
)
    ensures
        ChoiceKind::TestLanguage.accepts(tl.label_view()),
        ChoiceKind::RustFramework.accepts(fw.label_view()),
        ChoiceKind::TypeScriptSdk.accepts(sdk.label_view()),
        ChoiceKind::Template.accepts(tpl.label_view()),
        ChoiceKind::Toolchain.accepts(tc.label_view()),
{
}

/// Flags that each name a choice pass validation.
pub proof fn choice_flags_pass_validation(
    ov: Overrides,
    tl: TestLanguage,
    fw: RustFramework,
    sdk: TypeScriptSdk,
    tpl: Template,
    tc: Toolchain,
)
    requires
        ov.test_language is Some ==> ostr(ov.test_language) == Some(tl.label_view()),
        ov.rust_framework is Some ==> ostr(ov.rust_framework) == Some(fw.label_view()),
        ov.ts_sdk is Some ==> ostr(ov.ts_sdk) == Some(sdk.label_view()),
        ov.template is Some ==> ostr(ov.template) == Some(tpl.label_view()),
        ov.toolchain is Some ==> ostr(ov.toolchain) == Some(tc.label_view()),
    ensures
        first_bad_flag(ov) is None,
{
    choice_labels_are_accepted(tl, fw, sdk, tpl, tc);
}

/// A flag that names a choice makes that choice the preselected one,
/// whatever the saved preferences say.
pub proof fn flags_decide_defaults(
    ov: Overrides,
    saved: Preferences,
    tl: TestLanguage,
    fw: RustFramework,
    sdk: TypeScriptSdk,
    tpl: Template,
    tc: Toolchain,
)
    ensures
        ostr(ov.test_language) == Some(tl.label_view()) ==> TestLanguage::from_index_spec(
            defaults_spec(ov, saved).test_language,
        ) == tl,
        ostr(ov.rust_framework) == Some(fw.label_view()) ==> RustFramework::from_index_spec(
            defaults_spec(ov, saved).rust_framework,
        ) == fw,
        ostr(ov.ts_sdk) == Some(sdk.label_view()) ==> TypeScriptSdk::from_index_spec(
            defaults_spec(ov, saved).ts_sdk,
        ) == sdk,
        ostr(ov.template) == Some(tpl.label_view()) ==> Template::from_index_spec(
            defaults_spec(ov, saved).template,
        ) == tpl,
        ostr(ov.toolchain) == Some(tc.label_view()) ==> Toolchain::from_index_spec(
            defaults_spec(ov, saved).toolchain,
        ) == tc,
{
    reveal_strlit("solana");
    reveal_strlit("upstream");
    reveal_strlit("none");
    reveal_strlit("rust");
    reveal_strlit("typescript");
    reveal_strlit("quasar-svm");
    reveal_strlit("mollusk");
    reveal_strlit("kit");
    reveal_strlit("web3.js");
    reveal_strlit("minimal");
    reveal_strlit("full");
    assert("solana"@[0] != "upstream"@[0]);
    assert("rust"@[0] != "none"@[0]);
    assert("rust"@[0] != "typescript"@[0]);
    assert("none"@[0] != "typescript"@[0]);
    assert("quasar-svm"@[0] != "mollusk"@[0]);
    assert("kit"@[0] != "web3.js"@[0]);
    assert("minimal"@[0] != "full"@[0]);
}

} // verus!
