use quasar::options::{
    default_indices, preferences_to_save, select, select_defaults, skip_prompts, validate_overrides,
    ChoiceKind, GitSetup, Overrides, PackageManager, Preferences, RustFramework, Selection, Template,
    TestLanguage, Toolchain, TypeScriptSdk,
};

fn no_overrides() -> Overrides {
    Overrides { test_language: None, rust_framework: None, ts_sdk: None, template: None, toolchain: None }
}

fn no_prefs() -> Preferences {
    Preferences {
        toolchain: None,
        test_language: None,
        rust_framework: None,
        ts_sdk: None,
        template: None,
        git: None,
        package_manager: None,
    }
}

fn s(v: &str) -> Option<String> {
    Some(v.to_string())
}

#[test]
fn git_setup_from_config() {
    assert_eq!(GitSetup::from_config(Some("init")), GitSetup::Initialize);
    assert_eq!(GitSetup::from_config(Some("skip")), GitSetup::Skip);
    assert_eq!(GitSetup::from_config(Some("commit")), GitSetup::InitializeAndCommit);
    assert_eq!(GitSetup::from_config(Some("bogus")), GitSetup::InitializeAndCommit);
    assert_eq!(GitSetup::from_config(None), GitSetup::InitializeAndCommit);
}

#[test]
fn git_setup_indices_and_labels() {
    for g in [GitSetup::InitializeAndCommit, GitSetup::Initialize, GitSetup::Skip] {
        assert_eq!(GitSetup::from_index(g.index()), g);
        assert_eq!(GitSetup::from_config(Some(g.label())), g);
    }
    assert_eq!(GitSetup::from_index(7), GitSetup::InitializeAndCommit);
    assert_eq!(GitSetup::InitializeAndCommit.prompt_label(), "Initialize + Commit");
    assert_eq!(GitSetup::Initialize.prompt_label(), "Initialize");
    assert_eq!(GitSetup::Skip.prompt_label(), "Skip");
    assert_eq!(GitSetup::InitializeAndCommit.summary_label(), "git: init + commit");
    assert_eq!(GitSetup::Initialize.summary_label(), "git: init");
    assert_eq!(GitSetup::Skip.summary_label(), "git: skip");
    assert_eq!(GitSetup::InitializeAndCommit.label(), "commit");
}

#[test]
fn package_manager_commands() {
    assert_eq!(PackageManager::Pnpm.install_cmd(), "pnpm install");
    assert_eq!(PackageManager::Bun.test_cmd(), "bun test");
    assert_eq!(PackageManager::Npm.install_cmd(), "npm install");
    assert_eq!(PackageManager::Yarn.test_cmd(), "yarn test");
    let other = PackageManager::Other { install: "make deps".to_string(), test: "make check".to_string() };
    assert_eq!(other.install_cmd(), "make deps");
    assert_eq!(other.test_cmd(), "make check");
    assert_eq!(other.label(), "other");
}

#[test]
fn package_manager_from_config() {
    assert_eq!(PackageManager::from_config(Some("bun")), 1);
    assert_eq!(PackageManager::from_config(Some("npm")), 2);
    assert_eq!(PackageManager::from_config(Some("yarn")), 3);
    assert_eq!(PackageManager::from_config(Some("pnpm")), 0);
    assert_eq!(PackageManager::from_config(Some("other")), 0);
    assert_eq!(PackageManager::from_config(None), 0);
    assert!(PackageManager::from_index(4).is_none());
    for (i, pm) in [PackageManager::Pnpm, PackageManager::Bun, PackageManager::Npm, PackageManager::Yarn]
        .iter()
        .enumerate()
    {
        assert_eq!(PackageManager::from_config(Some(pm.label())), i);
        assert_eq!(PackageManager::from_index(i).unwrap().label(), pm.label());
    }
}

#[test]
fn labels_of_choices() {
    assert_eq!(Toolchain::Solana.label(), "solana");
    assert_eq!(Toolchain::Upstream.label(), "upstream");
    assert_eq!(TestLanguage::NoTests.label(), "none");
    assert_eq!(TestLanguage::Rust.label(), "rust");
    assert_eq!(TestLanguage::TypeScript.label(), "typescript");
    assert_eq!(RustFramework::QuasarSVM.label(), "quasar-svm");
    assert_eq!(RustFramework::Mollusk.label(), "mollusk");
    assert_eq!(TypeScriptSdk::Kit.label(), "kit");
    assert_eq!(TypeScriptSdk::Web3js.label(), "web3.js");
    assert_eq!(Template::Minimal.label(), "minimal");
    assert_eq!(Template::Full.label(), "full");
}

#[test]
fn overrides_are_validated_in_order() {
    assert!(validate_overrides(&no_overrides()).is_ok());
    let ok = Overrides {
        test_language: s("typescript"),
        rust_framework: s("mollusk"),
        ts_sdk: s("web3.js"),
        template: s("full"),
        toolchain: s("upstream"),
    };
    assert!(validate_overrides(&ok).is_ok());
    let bad = Overrides { template: s("huge"), toolchain: s("gcc"), ..no_overrides() };
    let (kind, value) = validate_overrides(&bad).unwrap_err();
    assert_eq!(kind, ChoiceKind::Template);
    assert_eq!(value, "huge");
    assert_eq!(kind.unknown_message(&value), "unknown template: huge");
    assert_eq!(kind.valid_hint(), "valid: minimal, full");
    let bad_lang = Overrides { test_language: s("go"), ..no_overrides() };
    let (kind, _) = validate_overrides(&bad_lang).unwrap_err();
    assert_eq!(kind.unknown_message("go"), "unknown test language: go");
    assert_eq!(kind.valid_hint(), "valid: none, rust, typescript");
    assert_eq!(ChoiceKind::TypeScriptSdk.unknown_message("x"), "unknown TypeScript SDK: x");
}

#[test]
fn prompts_skipped_by_name_yes_or_flags() {
    assert!(!skip_prompts(false, false, &no_overrides()));
    assert!(skip_prompts(true, false, &no_overrides()));
    assert!(skip_prompts(false, true, &no_overrides()));
    assert!(skip_prompts(false, false, &Overrides { toolchain: s("solana"), ..no_overrides() }));
}

#[test]
fn defaults_prefer_flags_over_saved_preferences() {
    let saved = Preferences {
        toolchain: s("upstream"),
        test_language: s("typescript"),
        rust_framework: s("mollusk"),
        ts_sdk: s("web3.js"),
        template: s("full"),
        git: s("skip"),
        package_manager: s("yarn"),
    };
    let d = default_indices(&no_overrides(), &saved);
    assert_eq!((d.toolchain, d.test_language, d.rust_framework, d.ts_sdk, d.template), (1, 2, 1, 1, 1));
    assert_eq!(d.git, GitSetup::Skip);
    assert_eq!(d.package_manager, 3);
    let flags = Overrides { test_language: s("none"), toolchain: s("solana"), ..no_overrides() };
    let d = default_indices(&flags, &saved);
    assert_eq!(d.toolchain, 0);
    assert_eq!(d.test_language, 0);
    let d = default_indices(&no_overrides(), &no_prefs());
    assert_eq!((d.toolchain, d.test_language, d.rust_framework, d.ts_sdk, d.template), (0, 1, 0, 0, 0));
    assert_eq!(d.git, GitSetup::InitializeAndCommit);
    assert_eq!(d.package_manager, 0);
}

#[test]
fn selection_follows_test_language() {
    let sel = select(0, 1, 1, 1, 0, GitSetup::Initialize, false);
    assert_eq!(
        sel,
        Selection {
            toolchain: Toolchain::Solana,
            test_language: TestLanguage::Rust,
            rust_framework: Some(RustFramework::Mollusk),
            ts_sdk: None,
            template: Template::Minimal,
            git: GitSetup::Initialize,
        }
    );
    let ts = select(1, 2, 1, 1, 1, GitSetup::Initialize, true);
    assert_eq!(ts.rust_framework, None);
    assert_eq!(ts.ts_sdk, Some(TypeScriptSdk::Web3js));
    assert_eq!(ts.git, GitSetup::Skip);
    assert_eq!(ts.toolchain, Toolchain::Upstream);
    assert_eq!(ts.template, Template::Full);
}

#[test]
fn saved_preferences_are_selected_again() {
    let sel = select(1, 2, 0, 1, 1, GitSetup::Initialize, false);
    let pm = PackageManager::Bun;
    let prefs = preferences_to_save(&sel, Some(&pm), false, &no_prefs());
    assert_eq!(prefs.toolchain, s("upstream"));
    assert_eq!(prefs.test_language, s("typescript"));
    assert_eq!(prefs.rust_framework, None);
    assert_eq!(prefs.ts_sdk, s("web3.js"));
    assert_eq!(prefs.template, s("full"));
    assert_eq!(prefs.git, s("init"));
    assert_eq!(prefs.package_manager, s("bun"));
    let d = default_indices(&no_overrides(), &prefs);
    assert_eq!(select_defaults(&d, false), sel);
    assert_eq!(d.package_manager, 1);
}

#[test]
fn no_git_keeps_previous_git_preference() {
    let previous = Preferences { git: s("init"), package_manager: s("npm"), ..no_prefs() };
    let sel = select(0, 0, 0, 0, 0, GitSetup::InitializeAndCommit, true);
    let prefs = preferences_to_save(&sel, None, true, &previous);
    assert_eq!(prefs.git, s("init"));
    assert_eq!(prefs.package_manager, s("npm"));
    assert_eq!(prefs.test_language, s("none"));
}
