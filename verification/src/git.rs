//! Setting up git in a new project: which `git` commands run, in which
//! order, and when the setup stops.
use vstd::prelude::*;
use crate::options::GitSetup;
use crate::text::str_eq;

verus! {

/// The next thing to do while setting up git.
#[derive(Debug, PartialEq, Eq)]
pub enum GitAction {
    /// Run `git` with these arguments in the project directory.
    Run(Vec<&'static str>),
    /// Stop; the flag tells whether the setup succeeded.
    Finish(bool),
}

pub open spec fn args_view(args: Seq<&'static str>) -> Seq<Seq<char>> {
    args.map_values(|a: &'static str| a@)
}

/// The `git` invocations of a setup: `init --quiet`, then, to commit,
/// `add .` and `commit -am "chore: initial commit" --quiet`.
pub open spec fn git_commands(setup: GitSetup) -> Seq<Seq<Seq<char>>> {
    let init = seq!["init"@, "--quiet"@];
    match setup {
        GitSetup::InitializeAndCommit => seq![
            init,
            seq!["add"@, "."@],
            seq!["commit"@, "-am"@, "chore: initial commit"@, "--quiet"@],
        ],
        _ => seq![init],
    }
}

pub open spec fn next_spec(setup: GitSetup, completed: nat, last_ok: bool) -> Option<Seq<Seq<char>>> {
    if last_ok && completed < git_commands(setup).len() {
        Some(git_commands(setup)[completed as int])
    } else {
        None
    }
}

/// What to do after `completed` commands ran, the last of them with outcome
/// `last_ok` (`true` before the first): run the next command while every
/// command so far succeeded, else stop with whether all of them did.
pub fn next_git_action(setup: GitSetup, completed: usize, last_ok: bool) -> (a: GitAction)
    ensures
        match a {
            GitAction::Run(args) => next_spec(setup, completed as nat, last_ok) == Some(
                args_view(args@),
            ),
            GitAction::Finish(ok) => next_spec(setup, completed as nat, last_ok) is None && ok
                == last_ok,
        },
{
    if !last_ok {
        return GitAction::Finish(false);
    }
    let n: usize = match setup {
        GitSetup::InitializeAndCommit => 3,
        _ => 1,
    };
    if completed >= n {
        return GitAction::Finish(true);
    }
    let args: Vec<&'static str> = if completed == 0 {
        vec!["init", "--quiet"]
    } else if completed == 1 {
        vec!["add", "."]
    } else {
        vec!["commit", "-am", "chore: initial commit", "--quiet"]
    };
    assert(args_view(args@) =~= git_commands(setup)[completed as int]);
    GitAction::Run(args)
}

/// Runs the setup against the outcomes `results` of the commands, in order:
/// the commands that run, and whether the setup succeeded.
pub open spec fn git_run(setup: GitSetup, results: Seq<bool>, completed: nat, last_ok: bool) -> (Seq<Seq<Seq<char>>>, bool)
    decreases results.len(),
{
    match next_spec(setup, completed, last_ok) {
        None => (Seq::empty(), last_ok),
        Some(cmd) => if results.len() == 0 {
            (seq![cmd], false)
        } else {
            let rest = git_run(setup, results.drop_first(), completed + 1, results[0]);
            (seq![cmd] + rest.0, rest.1)
        },
    }
}

/// Setting up git runs its commands in order and stops at the first that
/// fails: with outcomes `results` (one for each command that runs), the
/// commands run are those up to and including the first failure, or all of
/// them; and the setup succeeds exactly when every command did.
pub proof fn git_setup_stops_at_first_failure(setup: GitSetup, results: Seq<bool>)
    requires
        results.len() == git_commands(setup).len(),
    ensures
        ({
            let run = git_run(setup, results, 0, true);
            let stop = if exists|i: int| 0 <= i < results.len() && !results[i] {
                (choose|i: int| 0 <= i < results.len() && !results[i] && forall|j: int|
                    0 <= j < i ==> results[j]) + 1
            } else {
                results.len() as int
            };
            &&& run.1 == (forall|i: int| 0 <= i < results.len() ==> results[i])
            &&& run.0 == git_commands(setup).take(stop)
        }),
{
    let cmds = git_commands(setup);
    reveal_with_fuel(git_run, 4);
    if setup == GitSetup::InitializeAndCommit {
        assert(cmds.take(1) =~= seq![cmds[0]]);
        assert(cmds.take(2) =~= seq![cmds[0], cmds[1]]);
        assert(cmds.take(3) =~= cmds);
        if !results[0] {
            assert(forall|j: int| 0 <= j < 0 ==> results[j]);
        } else if !results[1] {
            assert(forall|j: int| 0 <= j < 1 ==> results[j]);
        } else if !results[2] {
            assert(forall|j: int| 0 <= j < 2 ==> results[j]);
        }
        assert(git_run(setup, results.drop_first().drop_first().drop_first(), 3, results[2]).0
            =~= Seq::empty());
        assert(seq![cmds[0]] + (seq![cmds[1]] + (seq![cmds[2]] + Seq::<Seq<Seq<char>>>::empty()))
            =~= cmds);
        assert(seq![cmds[0]] + (seq![cmds[1]] + Seq::<Seq<Seq<char>>>::empty()) =~= cmds.take(2));
        assert(seq![cmds[0]] + Seq::<Seq<Seq<char>>>::empty() =~= cmds.take(1));
    } else {
        assert(cmds.take(1) =~= cmds);
        if !results[0] {
            assert(forall|j: int| 0 <= j < 0 ==> results[j]);
        }
        assert(seq![cmds[0]] + Seq::<Seq<Seq<char>>>::empty() =~= cmds);
    }
}

/// Git is set up unless the choice is to skip it or the project already is
/// a git repository.
pub fn should_initialize_git(setup: GitSetup, already_git: bool) -> (b: bool)
    ensures
        b == (setup != GitSetup::Skip && !already_git),
{
    !matches!(setup, GitSetup::Skip) && !already_git
}

/// Whether the project is scaffolded into the current directory (`.`): its
/// `.git` is then looked for there, its crate name comes from the
/// directory's name, and no `cd` step is shown.
pub fn is_current_dir(name: &str) -> (b: bool)
    ensures
        b == (name@ == "."@),
{
    str_eq(name, ".")
}

} // verus!
