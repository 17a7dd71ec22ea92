use twig::config::GlobalConfig;
use twig::config::Project;
use twig::config::WorktreeConfig;
use twig::git::create_worktree;
use twig::git::delete_worktree;
use twig::git::get_default_branch;
use twig::git::merge_branch_to_default;
use twig::git::GitCommand;
use twig::git::Outcome;
use twig::git::Status;
use twig::git::WorktreeError;
use twig::worktree::parse_head_branch;
use twig::worktree::Action;
use twig::worktree::BranchStage;
use twig::worktree::CreateStage;
use twig::worktree::DeleteStage;
use twig::worktree::MergeStage;

fn strings(items: &[&str]) -> Vec<String> {
    items.iter().map(|s| s.to_string()).collect()
}

fn project(copy: &[&str], symlink: &[&str]) -> Project {
    Project {
        name: "site".to_string(),
        root: "/src/site".to_string(),
        worktree: Some(WorktreeConfig {
            copy: strings(copy),
            symlink: strings(symlink),
            post_create: Vec::new(),
        }),
    }
}

fn bare_project() -> Project {
    Project { name: "site".to_string(), root: "/src/site".to_string(), worktree: None }
}

fn config() -> GlobalConfig {
    GlobalConfig { worktree_base: "/wt".to_string() }
}

fn outcome(status: Status, stdout: &str, stderr: &str) -> Outcome {
    Outcome { status, stdout: stdout.to_string(), stderr: stderr.to_string() }
}

fn yes() -> Outcome {
    outcome(Status::Succeeded, "", "")
}

fn no() -> Outcome {
    outcome(Status::Failed, "", "")
}

fn git(command: GitCommand) -> Option<Action> {
    Some(Action::Git(command))
}

fn rev_parse(name: &str) -> Option<Action> {
    git(GitCommand::RevParse { name: name.to_string() })
}

fn add(branch: &str, path: &str, create: bool) -> Option<Action> {
    git(GitCommand::WorktreeAdd { path: path.to_string(), branch: branch.to_string(), create })
}

fn path_exists(path: &str) -> Option<Action> {
    Some(Action::PathExists { path: path.to_string() })
}

fn parents(path: &str) -> Option<Action> {
    Some(Action::CreateParentDirs { path: path.to_string() })
}

#[test]
fn create_fails_before_git_where_the_path_is_taken() {
    let mut machine = create_worktree(&config(), &bare_project(), "feature/x");
    assert_eq!(machine.path(), "/wt/site/feature-x");
    assert_eq!(machine.stage(), CreateStage::CheckPath);
    assert_eq!(machine.request(), path_exists("/wt/site/feature-x"));
    assert_eq!(machine.result(), None);
    machine.advance(&yes());
    assert_eq!(machine.stage(), CreateStage::Failed);
    assert_eq!(machine.request(), None);
    let expected = WorktreeError::AlreadyExists { path: "/wt/site/feature-x".to_string() };
    assert_eq!(machine.result(), Some(Err(expected.clone())));
    machine.advance(&yes());
    machine.advance(&no());
    assert_eq!(machine.request(), None);
    assert_eq!(machine.result(), Some(Err(expected)));
}

#[test]
fn create_checks_out_a_branch_that_is_only_on_the_remote() {
    let mut machine = create_worktree(&config(), &bare_project(), "feature/x");
    machine.advance(&no());
    assert_eq!(machine.request(), parents("/wt/site/feature-x"));
    machine.advance(&yes());
    assert_eq!(machine.request(), rev_parse("feature/x"));
    machine.advance(&outcome(Status::Failed, "", "fatal: Needed a single revision"));
    assert_eq!(machine.request(), rev_parse("origin/feature/x"));
    machine.advance(&outcome(Status::Succeeded, "abc123\n", ""));
    assert_eq!(machine.stage(), CreateStage::Add { create: false });
    assert_eq!(machine.request(), add("feature/x", "/wt/site/feature-x", false));
    match machine.request() {
        Some(Action::Git(command)) => assert_eq!(
            command.args(),
            strings(&["worktree", "add", "/wt/site/feature-x", "feature/x"])
        ),
        other => panic!("{:?}", other),
    }
    machine.advance(&yes());
    assert_eq!(machine.stage(), CreateStage::Done);
    assert_eq!(machine.request(), None);
    assert_eq!(machine.result(), Some(Ok("/wt/site/feature-x".to_string())));
}

#[test]
fn create_makes_a_branch_that_exists_nowhere() {
    let mut machine = create_worktree(&config(), &bare_project(), "new-thing");
    machine.advance(&no());
    machine.advance(&yes());
    assert_eq!(machine.request(), rev_parse("new-thing"));
    machine.advance(&no());
    assert_eq!(machine.request(), rev_parse("origin/new-thing"));
    machine.advance(&no());
    assert_eq!(machine.stage(), CreateStage::Add { create: true });
    match machine.request() {
        Some(Action::Git(command)) => assert_eq!(
            command.args(),
            strings(&["worktree", "add", "-b", "new-thing", "/wt/site/new-thing"])
        ),
        other => panic!("{:?}", other),
    }
    machine.advance(&yes());
    assert_eq!(machine.result(), Some(Ok("/wt/site/new-thing".to_string())));
}

#[test]
fn create_does_not_ask_the_remote_for_a_local_branch() {
    let mut machine = create_worktree(&config(), &bare_project(), "main");
    machine.advance(&no());
    machine.advance(&yes());
    machine.advance(&yes());
    assert_eq!(machine.request(), add("main", "/wt/site/main", false));
}

#[test]
fn create_fails_with_what_git_wrote() {
    let mut machine = create_worktree(&config(), &bare_project(), "main");
    machine.advance(&no());
    machine.advance(&yes());
    machine.advance(&yes());
    machine.advance(&outcome(Status::Failed, "", "\nfatal: 'main' is already checked out\n\n"));
    let error = WorktreeError::AddFailed { stderr: "fatal: 'main' is already checked out".to_string() };
    assert_eq!(error.message(), "git worktree add failed: fatal: 'main' is already checked out");
    assert_eq!(machine.result(), Some(Err(error)));
    assert_eq!(machine.request(), None);
}

#[test]
fn create_fails_where_a_step_cannot_be_taken() {
    let mut machine = create_worktree(&config(), &bare_project(), "main");
    machine.advance(&no());
    machine.advance(&outcome(Status::Failed, "", "Permission denied"));
    assert_eq!(
        machine.result(),
        Some(Err(WorktreeError::CreateDir {
            path: "/wt/site/main".to_string(),
            reason: "Permission denied".to_string()
        }))
    );

    let mut machine = create_worktree(&config(), &bare_project(), "main");
    machine.advance(&no());
    machine.advance(&yes());
    machine.advance(&outcome(Status::NotStarted, "", "no git"));
    assert_eq!(
        machine.result(),
        Some(Err(WorktreeError::NotStarted {
            git: GitCommand::RevParse { name: "main".to_string() },
            reason: "no git".to_string()
        }))
    );

    let mut machine = create_worktree(&config(), &bare_project(), "main");
    machine.advance(&no());
    machine.advance(&yes());
    machine.advance(&no());
    machine.advance(&outcome(Status::NotStarted, "", "no git"));
    assert_eq!(
        machine.result(),
        Some(Err(WorktreeError::NotStarted {
            git: GitCommand::RevParse { name: "origin/main".to_string() },
            reason: "no git".to_string()
        }))
    );

    let mut machine = create_worktree(&config(), &bare_project(), "main");
    machine.advance(&no());
    machine.advance(&yes());
    machine.advance(&yes());
    machine.advance(&outcome(Status::NotStarted, "", "no git"));
    assert_eq!(
        machine.result(),
        Some(Err(WorktreeError::NotStarted {
            git: GitCommand::WorktreeAdd {
                path: "/wt/site/main".to_string(),
                branch: "main".to_string(),
                create: false
            },
            reason: "no git".to_string()
        }))
    );
}

#[test]
fn create_copies_and_links_what_exists() {
    let mut machine = create_worktree(
        &config(),
        &project(&[".env", "missing", "config/local"], &["node_modules", "gone"]),
        "topic",
    );
    for outcome in [no(), yes(), yes(), yes()] {
        machine.advance(&outcome);
    }
    assert_eq!(machine.stage(), CreateStage::CopyProbe { index: 0 });
    assert_eq!(machine.request(), path_exists("/src/site/.env"));
    machine.advance(&yes());
    assert_eq!(machine.request(), parents("/wt/site/topic/.env"));
    machine.advance(&outcome(Status::Failed, "", "ignored"));
    assert_eq!(
        machine.request(),
        Some(Action::Copy {
            from: "/src/site/.env".to_string(),
            to: "/wt/site/topic/.env".to_string()
        })
    );
    machine.advance(&yes());
    assert_eq!(machine.request(), path_exists("/src/site/missing"));
    machine.advance(&no());
    assert_eq!(machine.request(), path_exists("/src/site/config/local"));
    machine.advance(&yes());
    assert_eq!(machine.request(), parents("/wt/site/topic/config/local"));
    machine.advance(&yes());
    assert_eq!(machine.stage(), CreateStage::CopyItem { index: 2 });
    machine.advance(&yes());
    assert_eq!(machine.stage(), CreateStage::LinkProbe { index: 0 });
    assert_eq!(machine.request(), path_exists("/src/site/node_modules"));
    machine.advance(&yes());
    assert_eq!(machine.request(), parents("/wt/site/topic/node_modules"));
    machine.advance(&yes());
    assert_eq!(
        machine.request(),
        Some(Action::Symlink {
            target: "/src/site/node_modules".to_string(),
            link: "/wt/site/topic/node_modules".to_string()
        })
    );
    machine.advance(&yes());
    assert_eq!(machine.request(), path_exists("/src/site/gone"));
    machine.advance(&no());
    assert_eq!(machine.stage(), CreateStage::Done);
    assert_eq!(machine.result(), Some(Ok("/wt/site/topic".to_string())));
}

#[test]
fn create_fails_where_a_copy_fails() {
    let mut machine = create_worktree(&config(), &project(&[".env"], &["x"]), "topic");
    for outcome in [no(), yes(), yes(), yes(), yes(), yes()] {
        machine.advance(&outcome);
    }
    assert_eq!(machine.stage(), CreateStage::CopyItem { index: 0 });
    machine.advance(&outcome(Status::Failed, "", "Failed to copy \"/src/site/.env\""));
    assert_eq!(
        machine.result(),
        Some(Err(WorktreeError::Populate { reason: "Failed to copy \"/src/site/.env\"".to_string() }))
    );

    let mut machine = create_worktree(&config(), &project(&[], &["x"]), "topic");
    for outcome in [no(), yes(), yes(), yes(), yes(), yes()] {
        machine.advance(&outcome);
    }
    assert_eq!(machine.stage(), CreateStage::LinkItem { index: 0 });
    machine.advance(&outcome(Status::Failed, "", "File exists"));
    assert_eq!(
        machine.result(),
        Some(Err(WorktreeError::Populate { reason: "File exists".to_string() }))
    );
}

#[test]
fn delete_fails_where_nothing_lies_at_the_path() {
    let mut machine = delete_worktree(&config(), &bare_project(), "feature/x");
    assert_eq!(machine.stage(), DeleteStage::CheckPath);
    assert_eq!(machine.request(), path_exists("/wt/site/feature-x"));
    machine.advance(&no());
    assert_eq!(machine.request(), None);
    let error = WorktreeError::NotFound { path: "/wt/site/feature-x".to_string() };
    assert_eq!(machine.result(), Some(Err(error)));
}

#[test]
fn delete_removes_the_worktree_and_the_branch() {
    let mut machine = delete_worktree(&config(), &bare_project(), "feature/x");
    machine.advance(&yes());
    assert_eq!(
        machine.request(),
        git(GitCommand::WorktreeRemove { path: "/wt/site/feature-x".to_string() })
    );
    machine.advance(&yes());
    assert_eq!(machine.request(), git(GitCommand::BranchDelete { branch: "feature/x".to_string() }));
    assert_eq!(machine.result(), None);
    machine.advance(&yes());
    assert_eq!(machine.stage(), DeleteStage::Done);
    assert_eq!(machine.result(), Some(Ok(None)));
}

#[test]
fn delete_falls_back_to_removing_the_directory() {
    let mut machine = delete_worktree(&config(), &bare_project(), "feature/x");
    machine.advance(&yes());
    machine.advance(&outcome(Status::Failed, "", "fatal: validation failed"));
    assert_eq!(
        machine.request(),
        Some(Action::RemoveDirAll { path: "/wt/site/feature-x".to_string() })
    );
    machine.advance(&yes());
    assert_eq!(machine.request(), git(GitCommand::WorktreePrune));
    machine.advance(&outcome(Status::NotStarted, "", "no git"));
    assert_eq!(machine.request(), git(GitCommand::BranchDelete { branch: "feature/x".to_string() }));
    machine.advance(&outcome(Status::Failed, "", "error: branch 'feature/x' not found.\n"));
    assert_eq!(machine.result(), Some(Ok(None)));
}

#[test]
fn delete_fails_where_the_directory_stays() {
    let mut machine = delete_worktree(&config(), &bare_project(), "x");
    machine.advance(&yes());
    machine.advance(&no());
    machine.advance(&outcome(Status::Failed, "", "Permission denied"));
    assert_eq!(
        machine.result(),
        Some(Err(WorktreeError::RemoveDir {
            path: "/wt/site/x".to_string(),
            reason: "Permission denied".to_string()
        }))
    );
    let mut machine = delete_worktree(&config(), &bare_project(), "x");
    machine.advance(&yes());
    machine.advance(&outcome(Status::NotStarted, "", "no git"));
    assert_eq!(
        machine.result(),
        Some(Err(WorktreeError::NotStarted {
            git: GitCommand::WorktreeRemove { path: "/wt/site/x".to_string() },
            reason: "no git".to_string()
        }))
    );
}

#[test]
fn delete_warns_of_a_branch_that_stays() {
    let mut machine = delete_worktree(&config(), &bare_project(), "feature/x");
    machine.advance(&yes());
    machine.advance(&yes());
    machine.advance(&outcome(Status::Failed, "", "error: cannot delete branch 'feature/x'\n"));
    assert_eq!(
        machine.result(),
        Some(Ok(Some(
            "Warning: could not delete branch 'feature/x': error: cannot delete branch 'feature/x'"
                .to_string()
        )))
    );
    let mut machine = delete_worktree(&config(), &bare_project(), "feature/x");
    machine.advance(&yes());
    machine.advance(&yes());
    machine.advance(&outcome(Status::NotStarted, "", "no git"));
    assert_eq!(
        machine.result(),
        Some(Err(WorktreeError::NotStarted {
            git: GitCommand::BranchDelete { branch: "feature/x".to_string() },
            reason: "no git".to_string()
        }))
    );
}

#[test]
fn head_branch_is_read_without_the_remote() {
    assert_eq!(parse_head_branch("origin/develop\n"), "develop");
    assert_eq!(parse_head_branch("  origin/release/1.0  "), "release/1.0");
    assert_eq!(parse_head_branch("origin/"), "");
    assert_eq!(parse_head_branch("upstream/main"), "main");
    assert_eq!(parse_head_branch("trunk\n"), "main");
    assert_eq!(parse_head_branch(""), "main");
}

#[test]
fn default_branch_prefers_the_head_of_the_remote() {
    let mut search = get_default_branch();
    assert_eq!(search.stage(), BranchStage::RemoteHead);
    assert_eq!(search.request(), git(GitCommand::RemoteHead));
    assert_eq!(search.result(), None);
    search.advance(&outcome(Status::Succeeded, "origin/trunk\n", ""));
    assert_eq!(search.request(), None);
    assert_eq!(search.result(), Some(Ok("trunk".to_string())));
    search.advance(&no());
    assert_eq!(search.result(), Some(Ok("trunk".to_string())));
}

#[test]
fn default_branch_falls_back_to_main_then_master() {
    let mut search = get_default_branch();
    search.advance(&no());
    assert_eq!(search.request(), rev_parse("main"));
    search.advance(&yes());
    assert_eq!(search.result(), Some(Ok("main".to_string())));

    let mut search = get_default_branch();
    search.advance(&no());
    search.advance(&no());
    assert_eq!(search.request(), rev_parse("master"));
    search.advance(&yes());
    assert_eq!(search.result(), Some(Ok("master".to_string())));

    let mut search = get_default_branch();
    search.advance(&no());
    search.advance(&no());
    search.advance(&no());
    assert_eq!(search.stage(), BranchStage::Resolved);
    assert_eq!(search.result(), Some(Ok("main".to_string())));
}

#[test]
fn default_branch_fails_where_git_does_not_start() {
    let mut search = get_default_branch();
    search.advance(&outcome(Status::NotStarted, "", "no git"));
    assert_eq!(search.stage(), BranchStage::Failed);
    assert_eq!(
        search.result(),
        Some(Err(WorktreeError::NotStarted {
            git: GitCommand::RemoteHead,
            reason: "no git".to_string()
        }))
    );
    let mut search = get_default_branch();
    search.advance(&no());
    search.advance(&no());
    search.advance(&outcome(Status::NotStarted, "", "no git"));
    assert_eq!(
        search.result(),
        Some(Err(WorktreeError::NotStarted {
            git: GitCommand::RevParse { name: "master".to_string() },
            reason: "no git".to_string()
        }))
    );
}

#[test]
fn merge_checks_out_the_default_branch_and_merges() {
    let mut merge = merge_branch_to_default("feature/x");
    assert_eq!(merge.stage(), MergeStage::Resolve);
    assert_eq!(merge.request(), git(GitCommand::RemoteHead));
    merge.advance(&no());
    assert_eq!(merge.request(), rev_parse("main"));
    merge.advance(&no());
    assert_eq!(merge.request(), rev_parse("master"));
    merge.advance(&yes());
    assert_eq!(merge.stage(), MergeStage::Checkout);
    assert_eq!(merge.request(), git(GitCommand::Checkout { branch: "master".to_string() }));
    merge.advance(&yes());
    assert_eq!(merge.request(), git(GitCommand::Merge { branch: "feature/x".to_string() }));
    assert_eq!(merge.result(), None);
    merge.advance(&yes());
    assert_eq!(merge.stage(), MergeStage::Done);
    assert_eq!(merge.request(), None);
    assert_eq!(merge.result(), Some(Ok(())));
}

#[test]
fn merge_fails_with_what_git_wrote() {
    let mut merge = merge_branch_to_default("topic");
    merge.advance(&outcome(Status::Succeeded, "origin/main\n", ""));
    merge.advance(&outcome(Status::Failed, "", "error: Your local changes would be overwritten\n"));
    let error = WorktreeError::CheckoutFailed {
        branch: "main".to_string(),
        stderr: "error: Your local changes would be overwritten".to_string(),
    };
    assert_eq!(
        error.message(),
        "Failed to checkout 'main': error: Your local changes would be overwritten"
    );
    assert_eq!(merge.result(), Some(Err(error)));

    let mut merge = merge_branch_to_default("topic");
    merge.advance(&outcome(Status::Succeeded, "origin/main\n", ""));
    merge.advance(&yes());
    merge.advance(&outcome(Status::Failed, "", " CONFLICT (content): Merge conflict in a.rs \n"));
    assert_eq!(merge.stage(), MergeStage::Failed);
    assert_eq!(merge.request(), None);
    assert_eq!(
        merge.result(),
        Some(Err(WorktreeError::MergeFailed {
            stderr: "CONFLICT (content): Merge conflict in a.rs".to_string()
        }))
    );
}

#[test]
fn merge_fails_where_git_does_not_start() {
    let mut merge = merge_branch_to_default("topic");
    merge.advance(&outcome(Status::NotStarted, "", "no git"));
    assert_eq!(
        merge.result(),
        Some(Err(WorktreeError::NotStarted {
            git: GitCommand::RemoteHead,
            reason: "no git".to_string()
        }))
    );
    let mut merge = merge_branch_to_default("topic");
    merge.advance(&no());
    merge.advance(&yes());
    merge.advance(&outcome(Status::NotStarted, "", "no git"));
    assert_eq!(
        merge.result(),
        Some(Err(WorktreeError::NotStarted {
            git: GitCommand::Checkout { branch: "main".to_string() },
            reason: "no git".to_string()
        }))
    );
    let mut merge = merge_branch_to_default("topic");
    merge.advance(&no());
    merge.advance(&yes());
    merge.advance(&yes());
    merge.advance(&outcome(Status::NotStarted, "", "no git"));
    assert_eq!(
        merge.result(),
        Some(Err(WorktreeError::NotStarted {
            git: GitCommand::Merge { branch: "topic".to_string() },
            reason: "no git".to_string()
        }))
    );
}
