//! Git worktrees of a project: where they lie, the git commands that make,
//! list and remove them, and the commands that run in a new one.
//!
//! No function here starts a process or touches a file. The operations are
//! state machines: each names the next action, and takes its outcome.
use vstd::prelude::*;
use std::collections::VecDeque;
pub use crate::worktree::create_worktree;
pub use crate::worktree::delete_worktree;
pub use crate::worktree::get_default_branch;
pub use crate::worktree::merge_branch_to_default;
use crate::config::GlobalConfig;
use crate::config::Project;
use crate::text::lines;
use crate::text::replace_char;
use crate::text::split_lines;
use crate::text::starts_with;
use crate::text::to_chars;
use crate::text::to_string;
use crate::text::views;

verus! {

/// How an action ended.
#[derive(Clone, Copy, Debug, PartialEq, Eq)]
pub enum Status {
    /// It was carried out: a process left with status zero, a file operation
    /// went through, a path exists.
    Succeeded,
    /// It was tried and failed: a process left with another status, a file
    /// operation was refused, a path does not exist.
    Failed,
    /// It could not be tried: the process did not start.
    NotStarted,
}

/// The outcome of an action: how it ended and what it wrote. For an action
/// that is no process, `stderr` holds the reason of a failure.
#[derive(Clone, Debug, PartialEq, Eq)]
pub struct Outcome {
    pub status: Status,
    pub stdout: String,
    pub stderr: String,
}

/// An `Outcome` over sequences of characters.
pub struct Ended {
    pub status: Status,
    pub stdout: Seq<char>,
    pub stderr: Seq<char>,
}

impl View for Outcome {
    type V = Ended;

    open spec fn view(&self) -> Ended {
        Ended { status: self.status, stdout: self.stdout@, stderr: self.stderr@ }
    }
}

/// An invocation of git in the root of a project's repository.
#[derive(Clone, Debug, PartialEq, Eq)]
pub enum GitCommand {
    /// Adds a worktree at `path` for `branch`, which is created from the
    /// current head where `create` is set, and checked out where it is not.
    WorktreeAdd { path: String, branch: String, create: bool },
    /// Removes the worktree at `path`, with what it holds.
    WorktreeRemove { path: String },
    /// Forgets the worktrees whose directories are gone.
    WorktreePrune,
    /// Lists the worktrees in the format made for programs.
    WorktreeList,
    /// Deletes the local branch `branch`, merged or not.
    BranchDelete { branch: String },
    /// Asks whether `name` names a commit.
    RevParse { name: String },
    /// Asks for the short name of the branch that the remote's head points to.
    RemoteHead,
    /// Checks out `branch`.
    Checkout { branch: String },
    /// Merges `branch` into what is checked out.
    Merge { branch: String },
}

/// A `GitCommand` over sequences of characters.
pub enum GitCall {
    WorktreeAdd { path: Seq<char>, branch: Seq<char>, create: bool },
    WorktreeRemove { path: Seq<char> },
    WorktreePrune,
    WorktreeList,
    BranchDelete { branch: Seq<char> },
    RevParse { name: Seq<char> },
    RemoteHead,
    Checkout { branch: Seq<char> },
    Merge { branch: Seq<char> },
}

impl View for GitCommand {
    type V = GitCall;

    open spec fn view(&self) -> GitCall {
        match self {
            GitCommand::WorktreeAdd { path, branch, create } => GitCall::WorktreeAdd {
                path: path@,
                branch: branch@,
                create: *create,
            },
            GitCommand::WorktreeRemove { path } => GitCall::WorktreeRemove { path: path@ },
            GitCommand::WorktreePrune => GitCall::WorktreePrune,
            GitCommand::WorktreeList => GitCall::WorktreeList,
            GitCommand::BranchDelete { branch } => GitCall::BranchDelete { branch: branch@ },
            GitCommand::RevParse { name } => GitCall::RevParse { name: name@ },
            GitCommand::RemoteHead => GitCall::RemoteHead,
            GitCommand::Checkout { branch } => GitCall::Checkout { branch: branch@ },
            GitCommand::Merge { branch } => GitCall::Merge { branch: branch@ },
        }
    }
}

impl GitCall {
    /// The arguments that git gets.
    pub open spec fn args(self) -> Seq<Seq<char>> {
        match self {
            GitCall::WorktreeAdd { path, branch, create } => if create {
                seq!["worktree"@, "add"@, "-b"@, branch, path]
            } else {
                seq!["worktree"@, "add"@, path, branch]
            },
            GitCall::WorktreeRemove { path } => seq!["worktree"@, "remove"@, "--force"@, path],
            GitCall::WorktreePrune => seq!["worktree"@, "prune"@],
            GitCall::WorktreeList => seq!["worktree"@, "list"@, "--porcelain"@],
            GitCall::BranchDelete { branch } => seq!["branch"@, "-D"@, branch],
            GitCall::RevParse { name } => seq!["rev-parse"@, "--verify"@, name],
            GitCall::RemoteHead => seq!["symbolic-ref"@, "refs/remotes/origin/HEAD"@, "--short"@],
            GitCall::Checkout { branch } => seq!["checkout"@, branch],
            GitCall::Merge { branch } => seq!["merge"@, branch],
        }
    }
}

impl GitCommand {
    /// The arguments that git gets, in order.
    pub fn args(&self) -> (out: Vec<String>)
        ensures
            views(out@) == self@.args(),
    {
        let mut out: Vec<String> = Vec::new();
        match self {
            GitCommand::WorktreeAdd { path, branch, create } => {
                out.push("worktree".to_owned());
                out.push("add".to_owned());
                if *create {
                    out.push("-b".to_owned());
                    out.push(branch.clone());
                    out.push(path.clone());
                } else {
                    out.push(path.clone());
                    out.push(branch.clone());
                }
            },
            GitCommand::WorktreeRemove { path } => {
                out.push("worktree".to_owned());
                out.push("remove".to_owned());
                out.push("--force".to_owned());
                out.push(path.clone());
            },
            GitCommand::WorktreePrune => {
                out.push("worktree".to_owned());
                out.push("prune".to_owned());
            },
            GitCommand::WorktreeList => {
                out.push("worktree".to_owned());
                out.push("list".to_owned());
                out.push("--porcelain".to_owned());
            },
            GitCommand::BranchDelete { branch } => {
                out.push("branch".to_owned());
                out.push("-D".to_owned());
                out.push(branch.clone());
            },
            GitCommand::RevParse { name } => {
                out.push("rev-parse".to_owned());
                out.push("--verify".to_owned());
                out.push(name.clone());
            },
            GitCommand::RemoteHead => {
                out.push("symbolic-ref".to_owned());
                out.push("refs/remotes/origin/HEAD".to_owned());
                out.push("--short".to_owned());
            },
            GitCommand::Checkout { branch } => {
                out.push("checkout".to_owned());
                out.push(branch.clone());
            },
            GitCommand::Merge { branch } => {
                out.push("merge".to_owned());
                out.push(branch.clone());
            },
        }
        out
    }
}

/// The name of the directory of a branch's worktree: the branch's name with
/// `-` in place of each `/`.
pub open spec fn sanitized(branch: Seq<char>) -> Seq<char> {
    replace_char(branch, '/', '-')
}

/// The name of the directory of a branch's worktree.
pub fn sanitize_branch(branch: &str) -> (out: String)
    ensures
        out@ == sanitized(branch@),
{
    let chars = to_chars(branch);
    let mut out = String::new();
    let mut i: usize = 0;
    while i < chars.len()
        invariant
            i <= chars.len(),
            out@ == sanitized(chars@).take(i as int),
        decreases chars.len() - i,
    {
        let c = chars[i];
        out.push(
            if c == '/' {
                '-'
            } else {
                c
            },
        );
        i += 1;
    }
    out
}

/// The directory that holds the worktrees of the project `name`.
pub open spec fn project_dir(base: Seq<char>, name: Seq<char>) -> Seq<char> {
    base + "/"@ + name
}

/// The path of the worktree of `branch`: the base directory, the project's
/// name and the branch's directory name, with `/` between them.
pub open spec fn worktree_dir(base: Seq<char>, name: Seq<char>, branch: Seq<char>) -> Seq<char> {
    project_dir(base, name) + "/"@ + sanitized(branch)
}

/// The directory that holds the worktrees of `project`.
pub fn project_worktree_dir(config: &GlobalConfig, project: &Project) -> (out: String)
    ensures
        out@ == project_dir(config.worktree_base@, project.name@),
{
    let mut out = config.worktree_base.clone();
    out.append("/");
    out.append(project.name.as_str());
    out
}

/// The path at which the worktree of `branch` lies.
pub fn worktree_path(config: &GlobalConfig, project: &Project, branch: &str) -> (out: String)
    ensures
        out@ == worktree_dir(config.worktree_base@, project.name@, branch@),
{
    let mut out = project_worktree_dir(config, project);
    out.append("/");
    out.append(sanitize_branch(branch).as_str());
    out
}

/// Why an operation on a worktree came to nothing.
#[derive(Clone, Debug, PartialEq, Eq)]
pub enum WorktreeError {
    /// The path of the new worktree is taken.
    AlreadyExists { path: String },
    /// No worktree lies at the path.
    NotFound { path: String },
    /// Git could not be started for `command`.
    NotStarted { git: GitCommand, reason: String },
    /// The directories above `path` could not be made.
    CreateDir { path: String, reason: String },
    /// `git worktree add` failed; what it wrote to its error stream, trimmed.
    AddFailed { stderr: String },
    /// A file could not be copied or linked into the new worktree.
    Populate { reason: String },
    /// The directory of the worktree could not be removed.
    RemoveDir { path: String, reason: String },
    /// `git checkout` of the default branch failed.
    CheckoutFailed { branch: String, stderr: String },
    /// `git merge` failed.
    MergeFailed { stderr: String },
    /// A post-create command could not be started.
    RunFailed { command: String, reason: String },
}

/// A `WorktreeError` over sequences of characters.
pub enum WorktreeFault {
    AlreadyExists { path: Seq<char> },
    NotFound { path: Seq<char> },
    NotStarted { git: GitCall, reason: Seq<char> },
    CreateDir { path: Seq<char>, reason: Seq<char> },
    AddFailed { stderr: Seq<char> },
    Populate { reason: Seq<char> },
    RemoveDir { path: Seq<char>, reason: Seq<char> },
    CheckoutFailed { branch: Seq<char>, stderr: Seq<char> },
    MergeFailed { stderr: Seq<char> },
    RunFailed { command: Seq<char>, reason: Seq<char> },
}

impl View for WorktreeError {
    type V = WorktreeFault;

    open spec fn view(&self) -> WorktreeFault {
        match self {
            WorktreeError::AlreadyExists { path } => WorktreeFault::AlreadyExists { path: path@ },
            WorktreeError::NotFound { path } => WorktreeFault::NotFound { path: path@ },
            WorktreeError::NotStarted { git, reason } => WorktreeFault::NotStarted {
                git: git@,
                reason: reason@,
            },
            WorktreeError::CreateDir { path, reason } => WorktreeFault::CreateDir {
                path: path@,
                reason: reason@,
            },
            WorktreeError::AddFailed { stderr } => WorktreeFault::AddFailed { stderr: stderr@ },
            WorktreeError::Populate { reason } => WorktreeFault::Populate { reason: reason@ },
            WorktreeError::RemoveDir { path, reason } => WorktreeFault::RemoveDir {
                path: path@,
                reason: reason@,
            },
            WorktreeError::CheckoutFailed { branch, stderr } => WorktreeFault::CheckoutFailed {
                branch: branch@,
                stderr: stderr@,
            },
            WorktreeError::MergeFailed { stderr } => WorktreeFault::MergeFailed { stderr: stderr@ },
            WorktreeError::RunFailed { command, reason } => WorktreeFault::RunFailed {
                command: command@,
                reason: reason@,
            },
        }
    }
}

impl GitCall {
    /// What was being done when git could not be started.
    pub open spec fn purpose(self) -> Seq<char> {
        match self {
            GitCall::WorktreeAdd { .. } => "Failed to create git worktree"@,
            GitCall::WorktreeRemove { .. } => "Failed to remove git worktree"@,
            GitCall::WorktreePrune => "Failed to prune git worktrees"@,
            GitCall::WorktreeList => "Failed to list git worktrees"@,
            GitCall::BranchDelete { .. } => "Failed to delete local branch"@,
            GitCall::RevParse { .. } => "Failed to verify git revision"@,
            GitCall::RemoteHead => "Failed to get default branch"@,
            GitCall::Checkout { .. } => "Failed to checkout default branch"@,
            GitCall::Merge { .. } => "Failed to merge branch"@,
        }
    }
}

impl GitCommand {
    /// What was being done when git could not be started.
    pub fn purpose(&self) -> (out: String)
        ensures
            out@ == self@.purpose(),
    {
        match self {
            GitCommand::WorktreeAdd { .. } => "Failed to create git worktree".to_owned(),
            GitCommand::WorktreeRemove { .. } => "Failed to remove git worktree".to_owned(),
            GitCommand::WorktreePrune => "Failed to prune git worktrees".to_owned(),
            GitCommand::WorktreeList => "Failed to list git worktrees".to_owned(),
            GitCommand::BranchDelete { .. } => "Failed to delete local branch".to_owned(),
            GitCommand::RevParse { .. } => "Failed to verify git revision".to_owned(),
            GitCommand::RemoteHead => "Failed to get default branch".to_owned(),
            GitCommand::Checkout { .. } => "Failed to checkout default branch".to_owned(),
            GitCommand::Merge { .. } => "Failed to merge branch".to_owned(),
        }
    }
}

impl WorktreeFault {
    /// The text that reports the fault. It holds the path that the fault
    /// is about, or what git wrote to its error stream.
    pub open spec fn message(self) -> Seq<char> {
        match self {
            WorktreeFault::AlreadyExists { path } => "Worktree already exists at "@ + path,
            WorktreeFault::NotFound { path } => "Worktree does not exist at "@ + path,
            WorktreeFault::NotStarted { git, reason } => git.purpose() + ": "@ + reason,
            WorktreeFault::CreateDir { path, reason } => "Failed to create directory: "@ + path,
            WorktreeFault::AddFailed { stderr } => "git worktree add failed: "@ + stderr,
            WorktreeFault::Populate { reason } => reason,
            WorktreeFault::RemoveDir { path, reason } => "Failed to remove worktree directory: "@
                + path,
            WorktreeFault::CheckoutFailed { branch, stderr } => "Failed to checkout '"@ + branch
                + "': "@ + stderr,
            WorktreeFault::MergeFailed { stderr } => "Merge failed: "@ + stderr
                + ". Please resolve conflicts manually in the main repository."@,
            WorktreeFault::RunFailed { command, reason } => "Failed to run: "@ + command,
        }
    }
}

impl WorktreeError {
    /// The text that reports the error.
    pub fn message(&self) -> (msg: String)
        ensures
            msg@ == self@.message(),
    {
        match self {
            WorktreeError::AlreadyExists { path } => "Worktree already exists at ".to_owned().concat(
                path.as_str(),
            ),
            WorktreeError::NotFound { path } => "Worktree does not exist at ".to_owned().concat(
                path.as_str(),
            ),
            WorktreeError::NotStarted { git, reason } => git.purpose().concat(": ").concat(
                reason.as_str(),
            ),
            WorktreeError::CreateDir { path, reason } => "Failed to create directory: ".to_owned().concat(
                path.as_str(),
            ),
            WorktreeError::AddFailed { stderr } => "git worktree add failed: ".to_owned().concat(
                stderr.as_str(),
            ),
            WorktreeError::Populate { reason } => reason.clone(),
            WorktreeError::RemoveDir { path, reason } => "Failed to remove worktree directory: ".to_owned().concat(
            path.as_str()),
            WorktreeError::CheckoutFailed { branch, stderr } => "Failed to checkout '".to_owned().concat(
                branch.as_str(),
            ).concat("': ").concat(stderr.as_str()),
            WorktreeError::MergeFailed { stderr } => "Merge failed: ".to_owned().concat(
                stderr.as_str(),
            ).concat(". Please resolve conflicts manually in the main repository."),
            WorktreeError::RunFailed { command, reason } => "Failed to run: ".to_owned().concat(
                command.as_str(),
            ),
        }
    }
}

/// A worktree that git lists: where it lies and the branch it has checked
/// out.
#[derive(Clone, Debug, PartialEq, Eq)]
pub struct WorktreeInfo {
    pub path: String,
    pub branch: String,
}

/// A `WorktreeInfo` over sequences of characters.
pub struct Worktree {
    pub path: Seq<char>,
    pub branch: Seq<char>,
}

impl View for WorktreeInfo {
    type V = Worktree;

    open spec fn view(&self) -> Worktree {
        Worktree { path: self.path@, branch: self.branch@ }
    }
}

/// The views of a sequence of worktrees.
pub open spec fn worktrees(v: Seq<WorktreeInfo>) -> Seq<Worktree> {
    Seq::new(v.len(), |i: int| v[i]@)
}

/// The view of a string that may be missing.
pub open spec fn view_option(o: Option<String>) -> Option<Seq<char>> {
    match o {
        Some(s) => Some(s@),
        None => None,
    }
}

/// Where the reading of a listing stands: the path and the branch of the
/// entry that is being read, as far as they were seen, and the worktrees
/// found before it.
pub struct Listing {
    pub path: Option<Seq<char>>,
    pub branch: Option<Seq<char>>,
    pub found: Seq<Worktree>,
}

impl Listing {
    /// The worktrees found when the entry that is being read ends: it is one
    /// of them if its path and its branch were seen and it lies under `base`.
    pub open spec fn flushed(self, base: Seq<char>) -> Seq<Worktree> {
        match (self.path, self.branch) {
            (Some(path), Some(branch)) => if crate::path::lies_under(path, base) {
                self.found.push(Worktree { path, branch })
            } else {
                self.found
            },
            _ => self.found,
        }
    }

    /// The reading after one more line. A `worktree` line ends the entry
    /// before it and gives the path of the next. A `branch` line gives the
    /// branch, by its short name where it is under `refs/heads/`. Other
    /// lines say nothing.
    pub open spec fn after_line(self, line: Seq<char>, base: Seq<char>) -> Listing {
        if "worktree "@.is_prefix_of(line) {
            Listing {
                path: Some(line.skip("worktree "@.len() as int)),
                branch: None,
                found: self.flushed(base),
            }
        } else if "branch refs/heads/"@.is_prefix_of(line) {
            Listing { branch: Some(line.skip("branch refs/heads/"@.len() as int)), ..self }
        } else if "branch "@.is_prefix_of(line) {
            Listing { branch: Some(line.skip("branch "@.len() as int)), ..self }
        } else {
            self
        }
    }
}

/// The reading after the first `n` lines.
pub open spec fn listing_after(lines: Seq<Seq<char>>, base: Seq<char>, n: int) -> Listing
    decreases n,
{
    if n <= 0 {
        Listing { path: None, branch: None, found: Seq::empty() }
    } else {
        listing_after(lines, base, n - 1).after_line(lines[n - 1], base)
    }
}

/// The worktrees under `base` that the porcelain listing `stdout` names
/// together with a branch, in the order of the listing.
pub open spec fn listed_worktrees(stdout: Seq<char>, base: Seq<char>) -> Seq<Worktree> {
    listing_after(lines(stdout), base, lines(stdout).len() as int).flushed(base)
}

fn flush(
    path: Option<String>,
    branch: Option<String>,
    found: &mut Vec<WorktreeInfo>,
    base: &str,
)
    ensures
        worktrees(final(found)@) == (Listing {
            path: view_option(path),
            branch: view_option(branch),
            found: worktrees(old(found)@),
        }).flushed(base@),
{
    match (path, branch) {
        (Some(path), Some(branch)) => {
            if crate::path::path_starts_with(path.as_str(), base) {
                let info = WorktreeInfo { path, branch };
                assert(worktrees(found@.push(info)) == worktrees(found@).push(info@));
                found.push(info);
            }
        },
        _ => {},
    }
}

/// Reads the worktrees under `base` from the output of
/// `git worktree list --porcelain`.
pub fn parse_worktree_list(stdout: &str, base: &str) -> (out: Vec<WorktreeInfo>)
    ensures
        worktrees(out@) == listed_worktrees(stdout@, base@),
{
    let all = split_lines(&to_chars(stdout));
    let worktree_key = to_chars("worktree ");
    let head_key = to_chars("branch refs/heads/");
    let branch_key = to_chars("branch ");
    let mut found: Vec<WorktreeInfo> = Vec::new();
    let mut path: Option<String> = None;
    let mut branch: Option<String> = None;
    let mut i: usize = 0;
    assert(worktrees(found@) == Seq::<Worktree>::empty());
    while i < all.len()
        invariant
            i <= all.len(),
            views(all@) == lines(stdout@),
            worktree_key@ == "worktree "@,
            head_key@ == "branch refs/heads/"@,
            branch_key@ == "branch "@,
            (Listing {
                path: view_option(path),
                branch: view_option(branch),
                found: worktrees(found@),
            }) == listing_after(lines(stdout@), base@, i as int),
        decreases all.len() - i,
    {
        assert(views(all@)[i as int] == all@[i as int]@);
        let line = to_chars(all[i].as_str());
        if starts_with(&line, &worktree_key) {
            flush(path.take(), branch.take(), &mut found, base);
            path = Some(to_string(&line, worktree_key.len(), line.len()));
        } else if starts_with(&line, &head_key) {
            branch = Some(to_string(&line, head_key.len(), line.len()));
        } else if starts_with(&line, &branch_key) {
            branch = Some(to_string(&line, branch_key.len(), line.len()));
        }
        i += 1;
    }
    flush(path, branch, &mut found, base);
    found
}

/// The worktrees of `project`, read from the outcome of
/// `GitCommand::WorktreeList`: those that git lists under the project's
/// directory of worktrees. Where git refused to list, there are none.
pub fn list_worktrees(project: &Project, config: &GlobalConfig, listing: &Outcome) -> (out: Result<
    Vec<WorktreeInfo>,
    WorktreeError,
>)
    ensures
        match listing.status {
            Status::Succeeded => out matches Ok(found) && worktrees(found@) == listed_worktrees(
                listing.stdout@,
                project_dir(config.worktree_base@, project.name@),
            ),
            Status::Failed => out matches Ok(found) && found@.len() == 0,
            Status::NotStarted => out matches Err(error) && error@ == (WorktreeFault::NotStarted {
                git: GitCall::WorktreeList,
                reason: listing.stderr@,
            }),
        },
{
    match listing.status {
        Status::Succeeded => {
            let base = project_worktree_dir(config, project);
            Ok(parse_worktree_list(listing.stdout.as_str(), base.as_str()))
        },
        Status::Failed => Ok(Vec::new()),
        Status::NotStarted => Err(
            WorktreeError::NotStarted {
                git: GitCommand::WorktreeList,
                reason: listing.stderr.clone(),
            },
        ),
    }
}

/// What the running of a batch of commands reports.
#[derive(Clone, Debug, PartialEq, Eq)]
pub enum CommandOutput {
    /// A line that a command wrote, to its output or to its error stream.
    Line(String),
    /// A command begins; the command.
    CommandStarted(String),
    /// A command has ended.
    CommandFinished { success: bool, command: String },
    /// The batch has ended; `success` tells whether every command succeeded.
    AllDone { success: bool },
}

/// A `CommandOutput` over sequences of characters.
pub enum Event {
    Line(Seq<char>),
    CommandStarted(Seq<char>),
    CommandFinished { success: bool, command: Seq<char> },
    AllDone { success: bool },
}

impl View for CommandOutput {
    type V = Event;

    open spec fn view(&self) -> Event {
        match self {
            CommandOutput::Line(line) => Event::Line(line@),
            CommandOutput::CommandStarted(command) => Event::CommandStarted(command@),
            CommandOutput::CommandFinished { success, command } => Event::CommandFinished {
                success: *success,
                command: command@,
            },
            CommandOutput::AllDone { success } => Event::AllDone { success: *success },
        }
    }
}

/// The views of a sequence of reports.
pub open spec fn events(v: Seq<CommandOutput>) -> Seq<Event> {
    Seq::new(v.len(), |i: int| v[i]@)
}

/// Runs a batch of shell commands one after the other in one directory, and
/// holds what it reports until it is received.
///
/// The runner starts no process. `next_command` names the command to run,
/// `finish` takes its outcome, and `try_recv` hands out the reports in the
/// order in which they were made.
pub struct CommandRunner {
    commands: Vec<String>,
    work_dir: String,
    results: Vec<bool>,
    started: bool,
    done: bool,
    pending: VecDeque<CommandOutput>,
}

/// A `CommandRunner` over sequences.
pub struct Runner {
    /// The commands of the batch.
    pub commands: Seq<Seq<char>>,
    /// The directory in which they run.
    pub work_dir: Seq<char>,
    /// Whether each of the commands that have ended succeeded.
    pub results: Seq<bool>,
    /// Whether the next command has begun.
    pub started: bool,
    /// Whether the end of the batch has been reported.
    pub done: bool,
    /// The reports that were not received yet, oldest first.
    pub pending: Seq<Event>,
}

impl Runner {
    /// A runner that has run nothing.
    pub open spec fn new(commands: Seq<Seq<char>>, work_dir: Seq<char>) -> Runner {
        Runner {
            commands,
            work_dir,
            results: Seq::empty(),
            started: false,
            done: false,
            pending: Seq::empty(),
        }
    }

    /// No more commands have ended than there are; one that has begun has not
    /// ended; and the end is reported only when all have ended.
    pub open spec fn wf(self) -> bool {
        &&& self.results.len() <= self.commands.len()
        &&& self.started ==> self.results.len() < self.commands.len()
        &&& self.done ==> self.results.len() == self.commands.len() && !self.started
    }

    /// Whether every command that has ended succeeded.
    pub open spec fn all_succeeded(self) -> bool {
        forall|k: int| 0 <= k < self.results.len() ==> self.results[k]
    }

    /// The command that is the next to end.
    pub open spec fn current(self) -> Seq<char> {
        self.commands[self.results.len() as int]
    }

    /// The runner after the next command has begun, or, where none is left,
    /// after the end of the batch has been reported.
    pub open spec fn begun(self) -> Runner {
        if self.started || self.done {
            self
        } else if self.results.len() < self.commands.len() {
            Runner {
                started: true,
                pending: self.pending.push(Event::CommandStarted(self.current())),
                ..self
            }
        } else {
            Runner {
                done: true,
                pending: self.pending.push(Event::AllDone { success: self.all_succeeded() }),
                ..self
            }
        }
    }

    /// The runner after a line of a command's output has been reported.
    pub open spec fn reported(self, line: Seq<char>) -> Runner {
        Runner { pending: self.pending.push(Event::Line(line)), ..self }
    }

    /// The runner after the command that had begun has ended.
    pub open spec fn ended(self, success: bool) -> Runner {
        if self.started {
            Runner {
                started: false,
                results: self.results.push(success),
                pending: self.pending.push(
                    Event::CommandFinished { success, command: self.current() },
                ),
                ..self
            }
        } else {
            self
        }
    }

    /// The runner after the outcome of the command that had begun is known.
    /// A command that could not be started reports a line that says so, and
    /// has failed.
    pub open spec fn finished(self, outcome: Ended) -> Runner {
        if !self.started {
            self
        } else {
            match outcome.status {
                Status::Succeeded => self.ended(true),
                Status::Failed => self.ended(false),
                Status::NotStarted => self.reported("Failed to start: "@ + outcome.stderr).ended(
                    false,
                ),
            }
        }
    }

    /// The runner after its oldest report has been received.
    pub open spec fn received(self) -> Runner {
        if self.pending.len() > 0 {
            Runner { pending: self.pending.drop_first(), ..self }
        } else {
            self
        }
    }
}

impl View for CommandRunner {
    type V = Runner;

    closed spec fn view(&self) -> Runner {
        Runner {
            commands: views(self.commands@),
            work_dir: self.work_dir@,
            results: self.results@,
            started: self.started,
            done: self.done,
            pending: events(self.pending@),
        }
    }
}

impl CommandRunner {
    /// A runner for `commands`, which are to run in `work_dir`.
    pub fn new(commands: Vec<String>, work_dir: String) -> (runner: CommandRunner)
        ensures
            runner@ == Runner::new(views(commands@), work_dir@),
            runner@.wf(),
    {
        let runner = CommandRunner {
            commands,
            work_dir,
            results: Vec::new(),
            started: false,
            done: false,
            pending: VecDeque::new(),
        };
        assert(runner@.pending == Seq::<Event>::empty());
        runner
    }

    /// The directory in which the commands run.
    pub fn work_dir(&self) -> (dir: &str)
        ensures
            dir@ == self@.work_dir,
    {
        self.work_dir.as_str()
    }

    fn report(&mut self, report: CommandOutput)
        ensures
            final(self)@ == (Runner { pending: old(self)@.pending.push(report@), ..old(self)@ }),
    {
        assert(events(self.pending@.push(report)) == events(self.pending@).push(report@));
        self.pending.push_back(report);
    }

    fn all_succeeded(&self) -> (all: bool)
        ensures
            all == self@.all_succeeded(),
    {
        let mut k: usize = 0;
        while k < self.results.len()
            invariant
                k <= self.results.len(),
                forall|j: int| 0 <= j < k ==> self.results@[j],
            decreases self.results.len() - k,
        {
            if !self.results[k] {
                assert(!self@.results[k as int]);
                return false;
            }
            k += 1;
        }
        true
    }

    /// Begins the next command and gives it, or, where every command has
    /// ended, reports the end of the batch and gives `None`. A command that
    /// failed does not keep the next one from beginning. While a command
    /// that has begun has not ended, it is given again and nothing changes.
    pub fn next_command(&mut self) -> (command: Option<String>)
        requires
            old(self)@.wf(),
        ensures
            final(self)@ == old(self)@.begun(),
            final(self)@.wf(),
            match command {
                Some(text) => final(self)@.started && text@ == final(self)@.current(),
                None => final(self)@.done,
            },
    {
        if self.done {
            return None;
        }
        if self.results.len() < self.commands.len() {
            let command = self.commands[self.results.len()].clone();
            assert(views(self.commands@)[self.results.len() as int] == command@);
            if !self.started {
                self.started = true;
                self.report(CommandOutput::CommandStarted(command.clone()));
            }
            Some(command)
        } else {
            let success = self.all_succeeded();
            self.done = true;
            self.report(CommandOutput::AllDone { success });
            None
        }
    }

    /// Reports a line that the running command wrote.
    pub fn output_line(&mut self, line: String)
        ensures
            final(self)@ == old(self)@.reported(line@),
    {
        self.report(CommandOutput::Line(line));
    }

    /// Takes the outcome of the command that had begun, and reports its end.
    /// Without such a command nothing changes.
    pub fn finish(&mut self, outcome: &Outcome)
        requires
            old(self)@.wf(),
        ensures
            final(self)@ == old(self)@.finished(outcome@),
            final(self)@.wf(),
    {
        if !self.started {
            return ;
        }
        let command = self.commands[self.results.len()].clone();
        assert(views(self.commands@)[self.results.len() as int] == command@);
        let success = match outcome.status {
            Status::Succeeded => true,
            Status::Failed => false,
            Status::NotStarted => {
                let line = "Failed to start: ".to_owned().concat(outcome.stderr.as_str());
                self.report(CommandOutput::Line(line));
                false
            },
        };
        self.started = false;
        self.results.push(success);
        self.report(CommandOutput::CommandFinished { success, command });
    }

    /// The oldest report that was not received yet, if there is one. Never
    /// waits.
    pub fn try_recv(&mut self) -> (report: Option<CommandOutput>)
        ensures
            final(self)@ == old(self)@.received(),
            match report {
                Some(r) => old(self)@.pending.len() > 0 && r@ == old(self)@.pending[0],
                None => old(self)@.pending.len() == 0,
            },
    {
        let report = self.pending.pop_front();
        proof {
            if old(self).pending@.len() > 0 {
                assert(events(self.pending@) == events(old(self).pending@).drop_first());
            }
        }
        report
    }

    /// Whether the batch is still under way: the end has not been reported.
    pub fn is_running(&self) -> (running: bool)
        ensures
            running == !self@.done,
    {
        !self.done
    }
}

impl Runner {
    /// The runner after one command was begun for each of `outcomes`, in
    /// turn, and ended with it.
    pub open spec fn driven(self, outcomes: Seq<Ended>) -> Runner
        decreases outcomes.len(),
    {
        if outcomes.len() == 0 {
            self
        } else {
            self.driven(outcomes.drop_last()).begun().finished(outcomes.last())
        }
    }
}

/// The commands whose beginning `reports` tells of, in order.
pub open spec fn started_commands(reports: Seq<Event>) -> Seq<Seq<char>>
    decreases reports.len(),
{
    if reports.len() == 0 {
        Seq::empty()
    } else {
        match reports.last() {
            Event::CommandStarted(command) => started_commands(reports.drop_last()).push(command),
            _ => started_commands(reports.drop_last()),
        }
    }
}

/// Whether each of `outcomes` is a success.
pub open spec fn all_succeeded(outcomes: Seq<Ended>) -> bool {
    forall|k: int| 0 <= k < outcomes.len() ==> (#[trigger] outcomes[k]).status == Status::Succeeded
}

proof fn lemma_started_commands_push(reports: Seq<Event>, report: Event)
    ensures
        started_commands(reports.push(report)) == match report {
            Event::CommandStarted(command) => started_commands(reports).push(command),
            _ => started_commands(reports),
        },
{
    assert(reports.push(report).drop_last() == reports);
}

/// Whatever the outcomes of the first commands of a batch are, each of them
/// was begun, in order, its success or failure was recorded, and the next
/// command is free to begin.
pub proof fn lemma_every_command_runs(commands: Seq<Seq<char>>, work_dir: Seq<char>, outcomes: Seq<Ended>)
    requires
        outcomes.len() <= commands.len(),
    ensures
        ({
            let r = Runner::new(commands, work_dir).driven(outcomes);
            &&& r.wf()
            &&& !r.started
            &&& !r.done
            &&& r.commands == commands
            &&& r.results.len() == outcomes.len()
            &&& forall|k: int|
                0 <= k < outcomes.len() ==> r.results[k] == ((#[trigger] outcomes[k]).status
                    == Status::Succeeded)
            &&& started_commands(r.pending) == commands.take(outcomes.len() as int)
        }),
    decreases outcomes.len(),
{
    let start = Runner::new(commands, work_dir);
    if outcomes.len() == 0 {
        assert(commands.take(0) == Seq::<Seq<char>>::empty());
    } else {
        let n = outcomes.len() - 1;
        let earlier = outcomes.drop_last();
        let last = outcomes.last();
        lemma_every_command_runs(commands, work_dir, earlier);
        let before = start.driven(earlier);
        let begun = before.begun();
        let after = begun.finished(last);
        assert(after == start.driven(outcomes));
        lemma_started_commands_push(before.pending, Event::CommandStarted(commands[n]));
        assert(started_commands(begun.pending) == commands.take(n).push(commands[n]));
        assert(commands.take(n).push(commands[n]) == commands.take(n + 1));
        match last.status {
            Status::NotStarted => {
                let line = Event::Line("Failed to start: "@ + last.stderr);
                lemma_started_commands_push(begun.pending, line);
                lemma_started_commands_push(
                    begun.pending.push(line),
                    Event::CommandFinished { success: false, command: commands[n] },
                );
            },
            _ => {
                lemma_started_commands_push(
                    begun.pending,
                    Event::CommandFinished {
                        success: last.status == Status::Succeeded,
                        command: commands[n],
                    },
                );
            },
        }
        assert forall|k: int| 0 <= k < outcomes.len() implies after.results[k] == ((
        #[trigger] outcomes[k]).status == Status::Succeeded) by {
            if k < n {
                assert(outcomes[k] == earlier[k]);
                assert(after.results[k] == before.results[k]);
            }
        }
    }
}

/// A batch runs to its end whichever of its commands fail: once each
/// command has had its outcome, every command was begun, and the report that
/// ends the batch tells of success exactly if every outcome is a success.
pub proof fn lemma_batch_ends_with_verdict(commands: Seq<Seq<char>>, work_dir: Seq<char>, outcomes: Seq<Ended>)
    requires
        outcomes.len() == commands.len(),
    ensures
        ({
            let r = Runner::new(commands, work_dir).driven(outcomes).begun();
            &&& r.done
            &&& started_commands(r.pending) == commands
            &&& r.pending.len() > 0
            &&& r.pending.last() == Event::AllDone { success: all_succeeded(outcomes) }
        }),
{
    lemma_every_command_runs(commands, work_dir, outcomes);
    let before = Runner::new(commands, work_dir).driven(outcomes);
    lemma_started_commands_push(
        before.pending,
        Event::AllDone { success: before.all_succeeded() },
    );
    assert(commands.take(outcomes.len() as int) == commands);
    if all_succeeded(outcomes) {
        assert forall|k: int| 0 <= k < before.results.len() implies before.results[k] by {
            assert(outcomes[k].status == Status::Succeeded);
        }
    } else {
        let k = choose|k: int|
            0 <= k < outcomes.len() && (#[trigger] outcomes[k]).status != Status::Succeeded;
        assert(!before.results[k]);
    }
}

/// The commands that run in a new worktree of `project`, in order.
pub fn get_post_create_commands(project: &Project) -> (out: Vec<String>)
    ensures
        views(out@) == match project.worktree {
            Some(settings) => views(settings.post_create@),
            None => Seq::empty(),
        },
{
    let mut out: Vec<String> = Vec::new();
    match &project.worktree {
        Some(settings) => {
            let mut i: usize = 0;
            while i < settings.post_create.len()
                invariant
                    i <= settings.post_create.len(),
                    views(out@) == views(settings.post_create@).take(i as int),
                decreases settings.post_create.len() - i,
            {
                let command = settings.post_create[i].clone();
                assert(views(out@.push(command)) == views(out@).push(command@));
                assert(views(settings.post_create@).take(i + 1) == views(
                    settings.post_create@,
                ).take(i as int).push(settings.post_create@[i as int]@));
                out.push(command);
                i += 1;
            }
        },
        None => {},
    }
    out
}

/// A runner for the commands that run in the new worktree at
/// `worktree_path`, or `None` where the project has none.
pub fn start_post_create_commands(project: &Project, worktree_path: &str) -> (out: Option<
    CommandRunner,
>)
    ensures
        match out {
            Some(runner) => {
                &&& runner@.commands.len() > 0
                &&& runner@ == Runner::new(runner@.commands, worktree_path@)
                &&& project.worktree matches Some(settings) && runner@.commands == views(
                    settings.post_create@,
                )
                &&& runner@.wf()
            },
            None => match project.worktree {
                Some(settings) => settings.post_create@.len() == 0,
                None => true,
            },
        },
{
    let commands = get_post_create_commands(project);
    assert(views(commands@).len() == commands@.len());
    if commands.len() == 0 {
        return None;
    }
    Some(CommandRunner::new(commands, worktree_path.to_owned()))
}

/// The line that announces a command before it runs.
pub fn running_notice(command: &str) -> (out: String)
    ensures
        out@ == "Running: "@ + command@,
{
    "Running: ".to_owned().concat(command)
}

/// What is said of a command that has run while its caller waited: nothing
/// where it succeeded, a warning where it failed, which does not keep the
/// commands after it from running, and an error where it could not be
/// started.
pub fn post_create_report(command: &str, outcome: &Outcome) -> (out: Result<
    Option<String>,
    WorktreeError,
>)
    ensures
        match outcome.status {
            Status::Succeeded => out == Ok::<Option<String>, WorktreeError>(None),
            Status::Failed => out matches Ok(Some(warning)) && warning@
                == "Warning: command failed: "@ + command@,
            Status::NotStarted => out matches Err(error) && error@ == (WorktreeFault::RunFailed {
                command: command@,
                reason: outcome.stderr@,
            }),
        },
{
    match outcome.status {
        Status::Succeeded => Ok(None),
        Status::Failed => Ok(Some("Warning: command failed: ".to_owned().concat(command))),
        Status::NotStarted => Err(
            WorktreeError::RunFailed {
                command: command.to_owned(),
                reason: outcome.stderr.clone(),
            },
        ),
    }
}

/// What a run of commands, each waited for, has printed, and the fault that
/// ended it, if one did.
pub struct Printed {
    pub lines: Seq<Seq<char>>,
    pub fault: Option<WorktreeFault>,
}

/// The run of the first `n` of `commands`, of which the command at index `k`
/// came to `outcomes[k]`. Each command is announced before it runs. One
/// that fails is followed by a warning, and the run goes on. One that does
/// not start ends the run.
pub open spec fn waited_run(commands: Seq<Seq<char>>, outcomes: Seq<Ended>, n: int) -> Printed
    decreases n,
{
    if n <= 0 {
        Printed { lines: Seq::empty(), fault: None }
    } else {
        let before = waited_run(commands, outcomes, n - 1);
        let command = commands[n - 1];
        let announced = before.lines.push("Running: "@ + command);
        if before.fault is Some {
            before
        } else {
            match outcomes[n - 1].status {
                Status::Succeeded => Printed { lines: announced, fault: None },
                Status::Failed => Printed {
                    lines: announced.push("Warning: command failed: "@ + command),
                    fault: None,
                },
                Status::NotStarted => Printed {
                    lines: announced,
                    fault: Some(
                        WorktreeFault::RunFailed { command, reason: outcomes[n - 1].stderr },
                    ),
                },
            }
        }
    }
}

/// The commands of `project` and the outcomes at hand, whichever are fewer.
pub open spec fn waited_count(project: Project, outcomes: Seq<Outcome>) -> int {
    let commands: int = match project.worktree {
        Some(settings) => settings.post_create@.len() as int,
        None => 0,
    };
    if commands <= outcomes.len() {
        commands
    } else {
        outcomes.len() as int
    }
}

/// The views of a sequence of outcomes.
pub open spec fn all_ended(v: Seq<Outcome>) -> Seq<Ended> {
    Seq::new(v.len(), |i: int| v[i]@)
}

/// What the post-create commands of `project` print when each is waited
/// for, and how the run ends, where the command at index `k` comes to
/// `outcomes[k]`: the lines in the order in which they are printed, and
/// the error of the command that did not start, if there is one.
pub fn run_post_create_commands(project: &Project, outcomes: &Vec<Outcome>) -> (out: (
    Vec<String>,
    Result<(), WorktreeError>,
))
    ensures
        ({
            let run = waited_run(
                match project.worktree {
                    Some(settings) => views(settings.post_create@),
                    None => Seq::empty(),
                },
                all_ended(outcomes@),
                waited_count(*project, outcomes@),
            );
            &&& views(out.0@) == run.lines
            &&& match out.1 {
                Ok(()) => run.fault is None,
                Err(error) => run.fault == Some(error@),
            }
        }),
{
    let commands = get_post_create_commands(project);
    let ghost texts = views(commands@);
    assert(texts.len() == commands@.len());
    let mut lines: Vec<String> = Vec::new();
    let mut k: usize = 0;
    assert(views(lines@) == Seq::<Seq<char>>::empty());
    while k < commands.len() && k < outcomes.len()
        invariant
            k <= commands.len(),
            k <= outcomes.len(),
            texts == views(commands@),
            texts.len() == commands@.len(),
            texts == match project.worktree {
                Some(settings) => views(settings.post_create@),
                None => Seq::empty(),
            },
            waited_run(texts, all_ended(outcomes@), k as int) == (Printed {
                lines: views(lines@),
                fault: None,
            }),
        decreases commands.len() - k,
    {
        assert(texts[k as int] == commands@[k as int]@);
        assert(all_ended(outcomes@)[k as int] == outcomes@[k as int]@);
        let notice = running_notice(commands[k].as_str());
        assert(views(lines@.push(notice)) == views(lines@).push(notice@));
        lines.push(notice);
        match post_create_report(commands[k].as_str(), &outcomes[k]) {
            Ok(None) => {},
            Ok(Some(warning)) => {
                assert(views(lines@.push(warning)) == views(lines@).push(warning@));
                lines.push(warning);
            },
            Err(error) => {
                proof {
                    lemma_waited_run_stays_failed(
                        texts,
                        all_ended(outcomes@),
                        k + 1,
                        waited_count(*project, outcomes@),
                    );
                }
                return (lines, Err(error));
            },
        }
        k += 1;
    }
    (lines, Ok(()))
}

proof fn lemma_waited_run_stays_failed(commands: Seq<Seq<char>>, outcomes: Seq<Ended>, n: int, m: int)
    requires
        n <= m,
        waited_run(commands, outcomes, n).fault is Some,
    ensures
        waited_run(commands, outcomes, m) == waited_run(commands, outcomes, n),
    decreases m - n,
{
    if n < m {
        lemma_waited_run_stays_failed(commands, outcomes, n, m - 1);
    }
}

} // verus!
