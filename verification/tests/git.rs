use quasar::git::{is_current_dir, next_git_action, should_initialize_git, GitAction};
use quasar::options::GitSetup;

/// Runs the setup with `fail_on` as the command whose first argument fails,
/// recording the command lines; returns whether it succeeded.
fn simulate(setup: GitSetup, fail_on: Option<&str>, log: &mut Vec<String>) -> bool {
    let mut done = 0;
    let mut ok = true;
    loop {
        match next_git_action(setup, done, ok) {
            GitAction::Run(args) => {
                log.push(args.join(" "));
                ok = Some(args[0]) != fail_on;
                done += 1;
            }
            GitAction::Finish(result) => return result,
        }
    }
}

#[test]
fn initialize_git_repo_runs_init_add_and_commit() {
    let mut log = Vec::new();
    let ok = simulate(GitSetup::InitializeAndCommit, None, &mut log);
    assert!(ok);
    assert_eq!(log, vec!["init --quiet", "add .", "commit -am chore: initial commit --quiet"]);
}

#[test]
fn initialize_git_repo_can_skip_initial_commit() {
    let mut log = Vec::new();
    let ok = simulate(GitSetup::Initialize, None, &mut log);
    assert!(ok);
    assert_eq!(log, vec!["init --quiet"]);
}

#[test]
fn initialize_git_repo_stops_when_git_init_fails() {
    let mut log = Vec::new();
    let ok = simulate(GitSetup::InitializeAndCommit, Some("init"), &mut log);
    assert!(!ok);
    assert_eq!(log, vec!["init --quiet"]);
}

#[test]
fn git_setup_stops_when_add_fails() {
    let mut log = Vec::new();
    assert!(!simulate(GitSetup::InitializeAndCommit, Some("add"), &mut log));
    assert_eq!(log, vec!["init --quiet", "add ."]);
}

#[test]
fn git_initialization_decision() {
    assert!(should_initialize_git(GitSetup::Initialize, false));
    assert!(!should_initialize_git(GitSetup::Initialize, true));
    assert!(!should_initialize_git(GitSetup::Skip, false));
    assert!(is_current_dir("."));
    assert!(!is_current_dir("./x"));
}
