//! The life cycle of a worktree as state machines: creating one and filling
//! it, deleting one with its branch, finding the default branch, and merging
//! a branch into it.
//!
//! A machine names the action that is due with `request`, and takes what
//! came of it with `advance`. It ends with a result, after which it asks for
//! nothing and nothing changes it.
use vstd::prelude::*;
use crate::config::GlobalConfig;
use crate::config::Project;
use crate::git::Ended;
use crate::git::GitCall;
use crate::git::GitCommand;
use crate::git::Outcome;
use crate::git::Status;
use crate::git::WorktreeError;
use crate::git::WorktreeFault;
use crate::git::worktree_dir;
use crate::git::worktree_path;
use crate::text::has_substring;
use crate::text::contains;
use crate::text::to_chars;
use crate::text::trim;
use crate::text::trimmed;
use crate::text::views;

verus! {

/// What a machine asks its caller to do.
#[derive(Clone, Debug, PartialEq, Eq)]
pub enum Action {
    /// Tell whether anything lies at `path`: `Succeeded` if so, `Failed` if
    /// not.
    PathExists { path: String },
    /// Make the directories above `path` that are missing.
    CreateParentDirs { path: String },
    /// Remove the directory at `path` with all that it holds.
    RemoveDirAll { path: String },
    /// Run git in the root of the project's repository, and keep what it
    /// writes.
    Git(GitCommand),
    /// Copy what lies at `from` to `to`: a file with its bytes, a directory
    /// with all below it, a symbolic link as a link to the same target.
    Copy { from: String, to: String },
    /// Make a symbolic link at `link` that points to `target`.
    Symlink { target: String, link: String },
}

/// An `Action` over sequences of characters.
pub enum Request {
    PathExists { path: Seq<char> },
    CreateParentDirs { path: Seq<char> },
    RemoveDirAll { path: Seq<char> },
    Git(GitCall),
    Copy { from: Seq<char>, to: Seq<char> },
    Symlink { target: Seq<char>, link: Seq<char> },
}

impl View for Action {
    type V = Request;

    open spec fn view(&self) -> Request {
        match self {
            Action::PathExists { path } => Request::PathExists { path: path@ },
            Action::CreateParentDirs { path } => Request::CreateParentDirs { path: path@ },
            Action::RemoveDirAll { path } => Request::RemoveDirAll { path: path@ },
            Action::Git(command) => Request::Git(command@),
            Action::Copy { from, to } => Request::Copy { from: from@, to: to@ },
            Action::Symlink { target, link } => Request::Symlink { target: target@, link: link@ },
        }
    }
}

/// The view of an action that may be missing.
pub open spec fn view_action(action: Option<Action>) -> Option<Request> {
    match action {
        Some(a) => Some(a@),
        None => None,
    }
}

/// The view of an error that may be missing.
pub open spec fn view_error(error: Option<WorktreeError>) -> Option<WorktreeFault> {
    match error {
        Some(e) => Some(e@),
        None => None,
    }
}

/// `dir`, a separator and `file`.
pub open spec fn joined(dir: Seq<char>, file: Seq<char>) -> Seq<char> {
    dir + "/"@ + file
}

fn join(dir: &str, file: &str) -> (out: String)
    ensures
        out@ == joined(dir@, file@),
{
    let mut out = dir.to_owned();
    out.append("/");
    out.append(file);
    out
}

/// The name under which the remote `origin` holds `branch`.
pub open spec fn remote_name(branch: Seq<char>) -> Seq<char> {
    "origin/"@ + branch
}

/// Where the creation of a worktree stands.
#[derive(Clone, Copy, Debug, PartialEq, Eq)]
pub enum CreateStage {
    /// Is the worktree's path free?
    CheckPath,
    /// The directories above the path are being made.
    MakeParent,
    /// Is there a local branch of the name?
    ProbeLocal,
    /// Is there a branch of the name on the remote?
    ProbeRemote,
    /// Git adds the worktree, with a new branch where `create` is set.
    Add { create: bool },
    /// Does the source of item `index` of the copy list exist?
    CopyProbe { index: usize },
    /// The directories above the copy of item `index` are being made.
    CopyParent { index: usize },
    /// Item `index` of the copy list is being copied.
    CopyItem { index: usize },
    /// Does the target of item `index` of the link list exist?
    LinkProbe { index: usize },
    /// The directories above the link of item `index` are being made.
    LinkParent { index: usize },
    /// The link of item `index` is being made.
    LinkItem { index: usize },
    /// The worktree is there, with its files.
    Done,
    /// The creation has failed.
    Failed,
}

/// The creation of a worktree for a branch of a project.
pub struct CreateWorktree {
    root: String,
    path: String,
    branch: String,
    copy: Vec<String>,
    symlink: Vec<String>,
    stage: CreateStage,
    error: Option<WorktreeError>,
}

/// A `CreateWorktree` over sequences.
pub struct Creation {
    /// The root of the project's repository.
    pub root: Seq<char>,
    /// The path of the worktree.
    pub path: Seq<char>,
    /// The branch that the worktree is for.
    pub branch: Seq<char>,
    /// The paths to copy, relative to the root.
    pub copy: Seq<Seq<char>>,
    /// The paths to link to, relative to the root.
    pub symlink: Seq<Seq<char>>,
    pub stage: CreateStage,
    /// Why the creation failed, if it did.
    pub error: Option<WorktreeFault>,
}

impl Creation {
    /// The creation before anything was done.
    pub open spec fn new(
        base: Seq<char>,
        name: Seq<char>,
        root: Seq<char>,
        branch: Seq<char>,
        copy: Seq<Seq<char>>,
        symlink: Seq<Seq<char>>,
    ) -> Creation {
        Creation {
            root,
            path: worktree_dir(base, name, branch),
            branch,
            copy,
            symlink,
            stage: CreateStage::CheckPath,
            error: None,
        }
    }

    /// An item that is worked on is an item of its list, and an error is
    /// there exactly if the creation has failed.
    pub open spec fn wf(self) -> bool {
        &&& match self.stage {
            CreateStage::CopyProbe { index } | CreateStage::CopyParent { index }
            | CreateStage::CopyItem { index } => index < self.copy.len(),
            CreateStage::LinkProbe { index } | CreateStage::LinkParent { index }
            | CreateStage::LinkItem { index } => index < self.symlink.len(),
            _ => true,
        }
        &&& self.error is Some <==> self.stage == CreateStage::Failed
    }

    /// The stage at which the links begin.
    pub open spec fn first_link(self) -> CreateStage {
        if self.symlink.len() > 0 {
            CreateStage::LinkProbe { index: 0 }
        } else {
            CreateStage::Done
        }
    }

    /// The stage at which the copies begin.
    pub open spec fn first_copy(self) -> CreateStage {
        if self.copy.len() > 0 {
            CreateStage::CopyProbe { index: 0 }
        } else {
            self.first_link()
        }
    }

    /// The stage after item `index` of the copy list.
    pub open spec fn after_copy(self, index: usize) -> CreateStage {
        if index + 1 < self.copy.len() {
            CreateStage::CopyProbe { index: (index + 1) as usize }
        } else {
            self.first_link()
        }
    }

    /// The stage after item `index` of the link list.
    pub open spec fn after_link(self, index: usize) -> CreateStage {
        if index + 1 < self.symlink.len() {
            CreateStage::LinkProbe { index: (index + 1) as usize }
        } else {
            CreateStage::Done
        }
    }

    /// The git command that adds the worktree.
    pub open spec fn add_call(self, create: bool) -> GitCall {
        GitCall::WorktreeAdd { path: self.path, branch: self.branch, create }
    }

    /// The action that is due, if the creation has not ended.
    pub open spec fn request(self) -> Option<Request> {
        match self.stage {
            CreateStage::CheckPath => Some(Request::PathExists { path: self.path }),
            CreateStage::MakeParent => Some(Request::CreateParentDirs { path: self.path }),
            CreateStage::ProbeLocal => Some(Request::Git(GitCall::RevParse { name: self.branch })),
            CreateStage::ProbeRemote => Some(
                Request::Git(GitCall::RevParse { name: remote_name(self.branch) }),
            ),
            CreateStage::Add { create } => Some(Request::Git(self.add_call(create))),
            CreateStage::CopyProbe { index } => Some(
                Request::PathExists { path: joined(self.root, self.copy[index as int]) },
            ),
            CreateStage::CopyParent { index } => Some(
                Request::CreateParentDirs { path: joined(self.path, self.copy[index as int]) },
            ),
            CreateStage::CopyItem { index } => Some(
                Request::Copy {
                    from: joined(self.root, self.copy[index as int]),
                    to: joined(self.path, self.copy[index as int]),
                },
            ),
            CreateStage::LinkProbe { index } => Some(
                Request::PathExists { path: joined(self.root, self.symlink[index as int]) },
            ),
            CreateStage::LinkParent { index } => Some(
                Request::CreateParentDirs { path: joined(self.path, self.symlink[index as int]) },
            ),
            CreateStage::LinkItem { index } => Some(
                Request::Symlink {
                    target: joined(self.root, self.symlink[index as int]),
                    link: joined(self.path, self.symlink[index as int]),
                },
            ),
            CreateStage::Done | CreateStage::Failed => None,
        }
    }

    /// The creation at stage `stage`.
    pub open spec fn at(self, stage: CreateStage) -> Creation {
        Creation { stage, ..self }
    }

    /// The creation, failed with `fault`.
    pub open spec fn failed(self, fault: WorktreeFault) -> Creation {
        Creation { stage: CreateStage::Failed, error: Some(fault), ..self }
    }

    /// The creation after the action that was due came to `outcome`.
    ///
    /// A path that is taken fails the creation. The branch is checked out
    /// where it exists, locally or on the remote, and created where it does
    /// not. A failure of git fails the creation, with what git wrote. Then
    /// each item of the copy list and of the link list whose source exists
    /// is copied or linked; one whose source is missing is passed over, and
    /// a failure to copy or to link fails the creation and leaves the
    /// worktree as it is.
    pub open spec fn advanced(self, outcome: Ended) -> Creation {
        let ok = outcome.status == Status::Succeeded;
        match self.stage {
            CreateStage::CheckPath => if ok {
                self.failed(WorktreeFault::AlreadyExists { path: self.path })
            } else {
                self.at(CreateStage::MakeParent)
            },
            CreateStage::MakeParent => if ok {
                self.at(CreateStage::ProbeLocal)
            } else {
                self.failed(WorktreeFault::CreateDir { path: self.path, reason: outcome.stderr })
            },
            CreateStage::ProbeLocal => match outcome.status {
                Status::Succeeded => self.at(CreateStage::Add { create: false }),
                Status::Failed => self.at(CreateStage::ProbeRemote),
                Status::NotStarted => self.failed(
                    WorktreeFault::NotStarted {
                        git: GitCall::RevParse { name: self.branch },
                        reason: outcome.stderr,
                    },
                ),
            },
            CreateStage::ProbeRemote => match outcome.status {
                Status::Succeeded => self.at(CreateStage::Add { create: false }),
                Status::Failed => self.at(CreateStage::Add { create: true }),
                Status::NotStarted => self.failed(
                    WorktreeFault::NotStarted {
                        git: GitCall::RevParse { name: remote_name(self.branch) },
                        reason: outcome.stderr,
                    },
                ),
            },
            CreateStage::Add { create } => match outcome.status {
                Status::Succeeded => self.at(self.first_copy()),
                Status::Failed => self.failed(
                    WorktreeFault::AddFailed { stderr: trim(outcome.stderr) },
                ),
                Status::NotStarted => self.failed(
                    WorktreeFault::NotStarted {
                        git: self.add_call(create),
                        reason: outcome.stderr,
                    },
                ),
            },
            CreateStage::CopyProbe { index } => if ok {
                self.at(CreateStage::CopyParent { index })
            } else {
                self.at(self.after_copy(index))
            },
            CreateStage::CopyParent { index } => self.at(CreateStage::CopyItem { index }),
            CreateStage::CopyItem { index } => if ok {
                self.at(self.after_copy(index))
            } else {
                self.failed(WorktreeFault::Populate { reason: outcome.stderr })
            },
            CreateStage::LinkProbe { index } => if ok {
                self.at(CreateStage::LinkParent { index })
            } else {
                self.at(self.after_link(index))
            },
            CreateStage::LinkParent { index } => self.at(CreateStage::LinkItem { index }),
            CreateStage::LinkItem { index } => if ok {
                self.at(self.after_link(index))
            } else {
                self.failed(WorktreeFault::Populate { reason: outcome.stderr })
            },
            CreateStage::Done | CreateStage::Failed => self,
        }
    }

    /// The path of the worktree once it is there, the fault once the
    /// creation has failed, and nothing before.
    pub open spec fn result(self) -> Option<Result<Seq<char>, WorktreeFault>> {
        match self.stage {
            CreateStage::Done => Some(Ok(self.path)),
            CreateStage::Failed => match self.error {
                Some(fault) => Some(Err(fault)),
                None => None,
            },
            _ => None,
        }
    }

    /// The creation after each of `outcomes` was taken in turn.
    pub open spec fn run(self, outcomes: Seq<Ended>) -> Creation
        decreases outcomes.len(),
    {
        if outcomes.len() == 0 {
            self
        } else {
            self.run(outcomes.drop_last()).advanced(outcomes.last())
        }
    }
}

impl View for CreateWorktree {
    type V = Creation;

    closed spec fn view(&self) -> Creation {
        Creation {
            root: self.root@,
            path: self.path@,
            branch: self.branch@,
            copy: views(self.copy@),
            symlink: views(self.symlink@),
            stage: self.stage,
            error: view_error(self.error),
        }
    }
}

fn copy_of(list: &Vec<String>) -> (out: Vec<String>)
    ensures
        views(out@) == views(list@),
{
    let mut out: Vec<String> = Vec::new();
    let mut i: usize = 0;
    while i < list.len()
        invariant
            i <= list.len(),
            views(out@) == views(list@).take(i as int),
        decreases list.len() - i,
    {
        let item = list[i].clone();
        assert(views(out@.push(item)) == views(out@).push(item@));
        assert(views(list@).take(i + 1) == views(list@).take(i as int).push(list@[i as int]@));
        out.push(item);
        i += 1;
    }
    out
}

/// Begins the creation of a worktree of `project` for `branch`.
pub fn create_worktree(config: &GlobalConfig, project: &Project, branch: &str) -> (out:
    CreateWorktree)
    ensures
        out@ == Creation::new(
            config.worktree_base@,
            project.name@,
            project.root@,
            branch@,
            match project.worktree {
                Some(settings) => views(settings.copy@),
                None => Seq::empty(),
            },
            match project.worktree {
                Some(settings) => views(settings.symlink@),
                None => Seq::empty(),
            },
        ),
        out@.wf(),
{
    let (copy, symlink) = match &project.worktree {
        Some(settings) => (copy_of(&settings.copy), copy_of(&settings.symlink)),
        None => (Vec::new(), Vec::new()),
    };
    assert(project.worktree is None ==> views(copy@) == Seq::<Seq<char>>::empty() && views(
        symlink@,
    ) == Seq::<Seq<char>>::empty());
    CreateWorktree {
        root: project.root.clone(),
        path: worktree_path(config, project, branch),
        branch: branch.to_owned(),
        copy,
        symlink,
        stage: CreateStage::CheckPath,
        error: None,
    }
}

impl CreateWorktree {
    /// Where the creation stands.
    pub fn stage(&self) -> (stage: CreateStage)
        ensures
            stage == self@.stage,
    {
        self.stage
    }

    /// The path of the worktree.
    pub fn path(&self) -> (path: &str)
        ensures
            path@ == self@.path,
    {
        self.path.as_str()
    }

    /// The action that is due, or `None` once the creation has ended.
    pub fn request(&self) -> (action: Option<Action>)
        requires
            self@.wf(),
        ensures
            view_action(action) == self@.request(),
    {
        match self.stage {
            CreateStage::CheckPath => Some(Action::PathExists { path: self.path.clone() }),
            CreateStage::MakeParent => Some(Action::CreateParentDirs { path: self.path.clone() }),
            CreateStage::ProbeLocal => Some(
                Action::Git(GitCommand::RevParse { name: self.branch.clone() }),
            ),
            CreateStage::ProbeRemote => Some(
                Action::Git(
                    GitCommand::RevParse { name: "origin/".to_owned().concat(self.branch.as_str()) },
                ),
            ),
            CreateStage::Add { create } => Some(
                Action::Git(
                    GitCommand::WorktreeAdd {
                        path: self.path.clone(),
                        branch: self.branch.clone(),
                        create,
                    },
                ),
            ),
            CreateStage::CopyProbe { index } => {
                assert(views(self.copy@)[index as int] == self.copy@[index as int]@);
                Some(
                    Action::PathExists {
                        path: join(self.root.as_str(), self.copy[index].as_str()),
                    },
                )
            },
            CreateStage::CopyParent { index } => {
                assert(views(self.copy@)[index as int] == self.copy@[index as int]@);
                Some(
                    Action::CreateParentDirs {
                        path: join(self.path.as_str(), self.copy[index].as_str()),
                    },
                )
            },
            CreateStage::CopyItem { index } => {
                assert(views(self.copy@)[index as int] == self.copy@[index as int]@);
                Some(
                    Action::Copy {
                        from: join(self.root.as_str(), self.copy[index].as_str()),
                        to: join(self.path.as_str(), self.copy[index].as_str()),
                    },
                )
            },
            CreateStage::LinkProbe { index } => {
                assert(views(self.symlink@)[index as int] == self.symlink@[index as int]@);
                Some(
                    Action::PathExists {
                        path: join(self.root.as_str(), self.symlink[index].as_str()),
                    },
                )
            },
            CreateStage::LinkParent { index } => {
                assert(views(self.symlink@)[index as int] == self.symlink@[index as int]@);
                Some(
                    Action::CreateParentDirs {
                        path: join(self.path.as_str(), self.symlink[index].as_str()),
                    },
                )
            },
            CreateStage::LinkItem { index } => {
                assert(views(self.symlink@)[index as int] == self.symlink@[index as int]@);
                Some(
                    Action::Symlink {
                        target: join(self.root.as_str(), self.symlink[index].as_str()),
                        link: join(self.path.as_str(), self.symlink[index].as_str()),
                    },
                )
            },
            CreateStage::Done | CreateStage::Failed => None,
        }
    }

    fn fail(&mut self, error: WorktreeError)
        ensures
            final(self)@ == old(self)@.failed(error@),
    {
        self.stage = CreateStage::Failed;
        self.error = Some(error);
    }

    fn first_link(&self) -> (stage: CreateStage)
        ensures
            stage == self@.first_link(),
    {
        assert(views(self.symlink@).len() == self.symlink@.len());
        if self.symlink.len() > 0 {
            CreateStage::LinkProbe { index: 0 }
        } else {
            CreateStage::Done
        }
    }

    fn first_copy(&self) -> (stage: CreateStage)
        ensures
            stage == self@.first_copy(),
    {
        assert(views(self.copy@).len() == self.copy@.len());
        if self.copy.len() > 0 {
            CreateStage::CopyProbe { index: 0 }
        } else {
            self.first_link()
        }
    }

    fn after_copy(&self, index: usize) -> (stage: CreateStage)
        requires
            index < self@.copy.len(),
        ensures
            stage == self@.after_copy(index),
    {
        assert(views(self.copy@).len() == self.copy@.len());
        assert(index < self.copy.len());
        if index + 1 < self.copy.len() {
            CreateStage::CopyProbe { index: index + 1 }
        } else {
            self.first_link()
        }
    }

    fn after_link(&self, index: usize) -> (stage: CreateStage)
        requires
            index < self@.symlink.len(),
        ensures
            stage == self@.after_link(index),
    {
        assert(views(self.symlink@).len() == self.symlink@.len());
        assert(index < self.symlink.len());
        if index + 1 < self.symlink.len() {
            CreateStage::LinkProbe { index: index + 1 }
        } else {
            CreateStage::Done
        }
    }

    /// Takes the outcome of the action that was due.
    pub fn advance(&mut self, outcome: &Outcome)
        requires
            old(self)@.wf(),
        ensures
            final(self)@ == old(self)@.advanced(outcome@),
            final(self)@.wf(),
    {
        let ok = match outcome.status {
            Status::Succeeded => true,
            _ => false,
        };
        match self.stage {
            CreateStage::CheckPath => {
                if ok {
                    self.fail(WorktreeError::AlreadyExists { path: self.path.clone() });
                } else {
                    self.stage = CreateStage::MakeParent;
                }
            },
            CreateStage::MakeParent => {
                if ok {
                    self.stage = CreateStage::ProbeLocal;
                } else {
                    self.fail(
                        WorktreeError::CreateDir {
                            path: self.path.clone(),
                            reason: outcome.stderr.clone(),
                        },
                    );
                }
            },
            CreateStage::ProbeLocal => match outcome.status {
                Status::Succeeded => {
                    self.stage = CreateStage::Add { create: false };
                },
                Status::Failed => {
                    self.stage = CreateStage::ProbeRemote;
                },
                Status::NotStarted => {
                    self.fail(
                        WorktreeError::NotStarted {
                            git: GitCommand::RevParse { name: self.branch.clone() },
                            reason: outcome.stderr.clone(),
                        },
                    );
                },
            },
            CreateStage::ProbeRemote => match outcome.status {
                Status::Succeeded => {
                    self.stage = CreateStage::Add { create: false };
                },
                Status::Failed => {
                    self.stage = CreateStage::Add { create: true };
                },
                Status::NotStarted => {
                    self.fail(
                        WorktreeError::NotStarted {
                            git: GitCommand::RevParse {
                                name: "origin/".to_owned().concat(self.branch.as_str()),
                            },
                            reason: outcome.stderr.clone(),
                        },
                    );
                },
            },
            CreateStage::Add { create } => match outcome.status {
                Status::Succeeded => {
                    self.stage = self.first_copy();
                },
                Status::Failed => {
                    self.fail(
                        WorktreeError::AddFailed {
                            stderr: trimmed(&to_chars(outcome.stderr.as_str())),
                        },
                    );
                },
                Status::NotStarted => {
                    self.fail(
                        WorktreeError::NotStarted {
                            git: GitCommand::WorktreeAdd {
                                path: self.path.clone(),
                                branch: self.branch.clone(),
                                create,
                            },
                            reason: outcome.stderr.clone(),
                        },
                    );
                },
            },
            CreateStage::CopyProbe { index } => {
                if ok {
                    self.stage = CreateStage::CopyParent { index };
                } else {
                    self.stage = self.after_copy(index);
                }
            },
            CreateStage::CopyParent { index } => {
                self.stage = CreateStage::CopyItem { index };
            },
            CreateStage::CopyItem { index } => {
                if ok {
                    self.stage = self.after_copy(index);
                } else {
                    self.fail(WorktreeError::Populate { reason: outcome.stderr.clone() });
                }
            },
            CreateStage::LinkProbe { index } => {
                if ok {
                    self.stage = CreateStage::LinkParent { index };
                } else {
                    self.stage = self.after_link(index);
                }
            },
            CreateStage::LinkParent { index } => {
                self.stage = CreateStage::LinkItem { index };
            },
            CreateStage::LinkItem { index } => {
                if ok {
                    self.stage = self.after_link(index);
                } else {
                    self.fail(WorktreeError::Populate { reason: outcome.stderr.clone() });
                }
            },
            CreateStage::Done | CreateStage::Failed => {},
        }
    }

    /// The path of the worktree once it is there, the error once the
    /// creation has failed, and `None` before.
    pub fn result(&self) -> (out: Option<Result<String, WorktreeError>>)
        requires
            self@.wf(),
        ensures
            match out {
                Some(Ok(path)) => self@.result() == Some(Ok::<Seq<char>, WorktreeFault>(path@)),
                Some(Err(error)) => self@.result() == Some(
                    Err::<Seq<char>, WorktreeFault>(error@),
                ),
                None => self@.result() is None,
            },
    {
        match self.stage {
            CreateStage::Done => Some(Ok(self.path.clone())),
            CreateStage::Failed => match &self.error {
                Some(error) => Some(Err(clone_error(error))),
                None => None,
            },
            _ => None,
        }
    }
}

fn clone_git(command: &GitCommand) -> (out: GitCommand)
    ensures
        out@ == command@,
{
    match command {
        GitCommand::WorktreeAdd { path, branch, create } => GitCommand::WorktreeAdd {
            path: path.clone(),
            branch: branch.clone(),
            create: *create,
        },
        GitCommand::WorktreeRemove { path } => GitCommand::WorktreeRemove { path: path.clone() },
        GitCommand::WorktreePrune => GitCommand::WorktreePrune,
        GitCommand::WorktreeList => GitCommand::WorktreeList,
        GitCommand::BranchDelete { branch } => GitCommand::BranchDelete { branch: branch.clone() },
        GitCommand::RevParse { name } => GitCommand::RevParse { name: name.clone() },
        GitCommand::RemoteHead => GitCommand::RemoteHead,
        GitCommand::Checkout { branch } => GitCommand::Checkout { branch: branch.clone() },
        GitCommand::Merge { branch } => GitCommand::Merge { branch: branch.clone() },
    }
}

fn clone_error(error: &WorktreeError) -> (out: WorktreeError)
    ensures
        out@ == error@,
{
    match error {
        WorktreeError::AlreadyExists { path } => WorktreeError::AlreadyExists { path: path.clone() },
        WorktreeError::NotFound { path } => WorktreeError::NotFound { path: path.clone() },
        WorktreeError::NotStarted { git, reason } => WorktreeError::NotStarted {
            git: clone_git(git),
            reason: reason.clone(),
        },
        WorktreeError::CreateDir { path, reason } => WorktreeError::CreateDir {
            path: path.clone(),
            reason: reason.clone(),
        },
        WorktreeError::AddFailed { stderr } => WorktreeError::AddFailed { stderr: stderr.clone() },
        WorktreeError::Populate { reason } => WorktreeError::Populate { reason: reason.clone() },
        WorktreeError::RemoveDir { path, reason } => WorktreeError::RemoveDir {
            path: path.clone(),
            reason: reason.clone(),
        },
        WorktreeError::CheckoutFailed { branch, stderr } => WorktreeError::CheckoutFailed {
            branch: branch.clone(),
            stderr: stderr.clone(),
        },
        WorktreeError::MergeFailed { stderr } => WorktreeError::MergeFailed {
            stderr: stderr.clone(),
        },
        WorktreeError::RunFailed { command, reason } => WorktreeError::RunFailed {
            command: command.clone(),
            reason: reason.clone(),
        },
    }
}

/// A creation that has ended stays as it is: nothing is asked for after a
/// failure, so what was made before it is left in place.
pub proof fn lemma_ended_creation_stays(c: Creation, outcomes: Seq<Ended>)
    requires
        c.stage == CreateStage::Done || c.stage == CreateStage::Failed,
    ensures
        c.run(outcomes) == c,
        c.request() is None,
    decreases outcomes.len(),
{
    if outcomes.len() > 0 {
        lemma_ended_creation_stays(c, outcomes.drop_last());
    }
}

/// Where the path of the new worktree is taken, the creation fails before
/// git is asked for anything: the first action is no git command, its
/// outcome ends the creation with the fault that names the path, and
/// whatever is handed in afterwards, no action is asked for any more.
pub proof fn lemma_taken_path_fails_before_git(c: Creation, taken: Ended, later: Seq<Ended>)
    requires
        c.stage == CreateStage::CheckPath,
        c.error is None,
        taken.status == Status::Succeeded,
    ensures
        c.request() == Some(Request::PathExists { path: c.path }),
        c.advanced(taken).run(later).request() is None,
        c.advanced(taken).run(later).result() == Some(
            Err::<Seq<char>, WorktreeFault>(WorktreeFault::AlreadyExists { path: c.path }),
        ),
{
    lemma_ended_creation_stays(c.advanced(taken), later);
}

/// The branch is created exactly where it exists neither locally nor on the
/// remote: once both questions are answered, or the first with yes, git is
/// asked to add the worktree, with a new branch only after two noes.
pub proof fn lemma_branch_is_created_only_where_missing(c: Creation, local: Ended, remote: Ended)
    requires
        c.stage == CreateStage::ProbeLocal,
        local.status != Status::NotStarted,
        remote.status != Status::NotStarted,
    ensures
        local.status == Status::Succeeded ==> c.advanced(local).request() == Some(
            Request::Git(c.add_call(false)),
        ),
        local.status == Status::Failed ==> c.advanced(local).request() == Some(
            Request::Git(GitCall::RevParse { name: remote_name(c.branch) }),
        ),
        local.status == Status::Failed ==> c.advanced(local).advanced(remote).request() == Some(
            Request::Git(c.add_call(remote.status == Status::Failed)),
        ),
{
}

/// Where the deletion of a worktree stands.
#[derive(Clone, Copy, Debug, PartialEq, Eq)]
pub enum DeleteStage {
    /// Is there anything at the worktree's path?
    CheckPath,
    /// Git removes the worktree.
    Remove,
    /// Git would not: the directory is being removed.
    RemoveDir,
    /// Git forgets the worktrees that are gone.
    Prune,
    /// Git deletes the local branch.
    DeleteBranch,
    /// The worktree is gone.
    Done,
    /// The deletion has failed.
    Failed,
}

/// The deletion of the worktree of a branch, and of the branch.
pub struct DeleteWorktree {
    path: String,
    branch: String,
    stage: DeleteStage,
    warning: Option<String>,
    error: Option<WorktreeError>,
}

/// A `DeleteWorktree` over sequences.
pub struct Deletion {
    /// The path of the worktree.
    pub path: Seq<char>,
    /// The branch of the worktree.
    pub branch: Seq<char>,
    pub stage: DeleteStage,
    /// What is to be said of a branch that could not be deleted.
    pub warning: Option<Seq<char>>,
    /// Why the deletion failed, if it did.
    pub error: Option<WorktreeFault>,
}

/// What is said of a branch that git would not delete: nothing where git
/// says that there is no such branch, and else a warning with what git wrote.
pub open spec fn branch_warning(branch: Seq<char>, stderr: Seq<char>) -> Option<Seq<char>> {
    if has_substring(stderr, "not found"@) {
        None
    } else {
        Some("Warning: could not delete branch '"@ + branch + "': "@ + trim(stderr))
    }
}

impl Deletion {
    /// The deletion before anything was done.
    pub open spec fn new(base: Seq<char>, name: Seq<char>, branch: Seq<char>) -> Deletion {
        Deletion {
            path: worktree_dir(base, name, branch),
            branch,
            stage: DeleteStage::CheckPath,
            warning: None,
            error: None,
        }
    }

    /// An error is there exactly if the deletion has failed.
    pub open spec fn wf(self) -> bool {
        self.error is Some <==> self.stage == DeleteStage::Failed
    }

    /// The action that is due, if the deletion has not ended.
    pub open spec fn request(self) -> Option<Request> {
        match self.stage {
            DeleteStage::CheckPath => Some(Request::PathExists { path: self.path }),
            DeleteStage::Remove => Some(Request::Git(GitCall::WorktreeRemove { path: self.path })),
            DeleteStage::RemoveDir => Some(Request::RemoveDirAll { path: self.path }),
            DeleteStage::Prune => Some(Request::Git(GitCall::WorktreePrune)),
            DeleteStage::DeleteBranch => Some(
                Request::Git(GitCall::BranchDelete { branch: self.branch }),
            ),
            DeleteStage::Done | DeleteStage::Failed => None,
        }
    }

    /// The deletion at stage `stage`.
    pub open spec fn at(self, stage: DeleteStage) -> Deletion {
        Deletion { stage, ..self }
    }

    /// The deletion, failed with `fault`.
    pub open spec fn failed(self, fault: WorktreeFault) -> Deletion {
        Deletion { stage: DeleteStage::Failed, error: Some(fault), ..self }
    }

    /// The deletion after the action that was due came to `outcome`.
    ///
    /// A path at which nothing lies fails the deletion. Where git does not
    /// remove the worktree, the directory is removed and git is told to
    /// forget it, whatever comes of that. Then the branch is deleted; that
    /// git refuses to delete it never fails the deletion.
    pub open spec fn advanced(self, outcome: Ended) -> Deletion {
        match self.stage {
            DeleteStage::CheckPath => if outcome.status == Status::Succeeded {
                self.at(DeleteStage::Remove)
            } else {
                self.failed(WorktreeFault::NotFound { path: self.path })
            },
            DeleteStage::Remove => match outcome.status {
                Status::Succeeded => self.at(DeleteStage::DeleteBranch),
                Status::Failed => self.at(DeleteStage::RemoveDir),
                Status::NotStarted => self.failed(
                    WorktreeFault::NotStarted {
                        git: GitCall::WorktreeRemove { path: self.path },
                        reason: outcome.stderr,
                    },
                ),
            },
            DeleteStage::RemoveDir => if outcome.status == Status::Succeeded {
                self.at(DeleteStage::Prune)
            } else {
                self.failed(WorktreeFault::RemoveDir { path: self.path, reason: outcome.stderr })
            },
            DeleteStage::Prune => self.at(DeleteStage::DeleteBranch),
            DeleteStage::DeleteBranch => match outcome.status {
                Status::Succeeded => self.at(DeleteStage::Done),
                Status::Failed => Deletion {
                    stage: DeleteStage::Done,
                    warning: branch_warning(self.branch, outcome.stderr),
                    ..self
                },
                Status::NotStarted => self.failed(
                    WorktreeFault::NotStarted {
                        git: GitCall::BranchDelete { branch: self.branch },
                        reason: outcome.stderr,
                    },
                ),
            },
            DeleteStage::Done | DeleteStage::Failed => self,
        }
    }

    /// Once the worktree is gone, the warning that is to be printed, if there
    /// is one; once the deletion has failed, the fault; and nothing before.
    pub open spec fn result(self) -> Option<Result<Option<Seq<char>>, WorktreeFault>> {
        match self.stage {
            DeleteStage::Done => Some(Ok(self.warning)),
            DeleteStage::Failed => match self.error {
                Some(fault) => Some(Err(fault)),
                None => None,
            },
            _ => None,
        }
    }

    /// The deletion after each of `outcomes` was taken in turn.
    pub open spec fn run(self, outcomes: Seq<Ended>) -> Deletion
        decreases outcomes.len(),
    {
        if outcomes.len() == 0 {
            self
        } else {
            self.run(outcomes.drop_last()).advanced(outcomes.last())
        }
    }
}

impl View for DeleteWorktree {
    type V = Deletion;

    closed spec fn view(&self) -> Deletion {
        Deletion {
            path: self.path@,
            branch: self.branch@,
            stage: self.stage,
            warning: crate::git::view_option(self.warning),
            error: view_error(self.error),
        }
    }
}

/// Begins the deletion of the worktree of `project` for `branch`.
pub fn delete_worktree(config: &GlobalConfig, project: &Project, branch: &str) -> (out:
    DeleteWorktree)
    ensures
        out@ == Deletion::new(config.worktree_base@, project.name@, branch@),
        out@.wf(),
{
    DeleteWorktree {
        path: worktree_path(config, project, branch),
        branch: branch.to_owned(),
        stage: DeleteStage::CheckPath,
        warning: None,
        error: None,
    }
}

impl DeleteWorktree {
    /// Where the deletion stands.
    pub fn stage(&self) -> (stage: DeleteStage)
        ensures
            stage == self@.stage,
    {
        self.stage
    }

    /// The action that is due, or `None` once the deletion has ended.
    pub fn request(&self) -> (action: Option<Action>)
        ensures
            view_action(action) == self@.request(),
    {
        match self.stage {
            DeleteStage::CheckPath => Some(Action::PathExists { path: self.path.clone() }),
            DeleteStage::Remove => Some(
                Action::Git(GitCommand::WorktreeRemove { path: self.path.clone() }),
            ),
            DeleteStage::RemoveDir => Some(Action::RemoveDirAll { path: self.path.clone() }),
            DeleteStage::Prune => Some(Action::Git(GitCommand::WorktreePrune)),
            DeleteStage::DeleteBranch => Some(
                Action::Git(GitCommand::BranchDelete { branch: self.branch.clone() }),
            ),
            DeleteStage::Done | DeleteStage::Failed => None,
        }
    }

    fn fail(&mut self, error: WorktreeError)
        ensures
            final(self)@ == old(self)@.failed(error@),
    {
        self.stage = DeleteStage::Failed;
        self.error = Some(error);
    }

    /// Takes the outcome of the action that was due.
    pub fn advance(&mut self, outcome: &Outcome)
        requires
            old(self)@.wf(),
        ensures
            final(self)@ == old(self)@.advanced(outcome@),
            final(self)@.wf(),
    {
        match self.stage {
            DeleteStage::CheckPath => match outcome.status {
                Status::Succeeded => {
                    self.stage = DeleteStage::Remove;
                },
                _ => {
                    self.fail(WorktreeError::NotFound { path: self.path.clone() });
                },
            },
            DeleteStage::Remove => match outcome.status {
                Status::Succeeded => {
                    self.stage = DeleteStage::DeleteBranch;
                },
                Status::Failed => {
                    self.stage = DeleteStage::RemoveDir;
                },
                Status::NotStarted => {
                    self.fail(
                        WorktreeError::NotStarted {
                            git: GitCommand::WorktreeRemove { path: self.path.clone() },
                            reason: outcome.stderr.clone(),
                        },
                    );
                },
            },
            DeleteStage::RemoveDir => match outcome.status {
                Status::Succeeded => {
                    self.stage = DeleteStage::Prune;
                },
                _ => {
                    self.fail(
                        WorktreeError::RemoveDir {
                            path: self.path.clone(),
                            reason: outcome.stderr.clone(),
                        },
                    );
                },
            },
            DeleteStage::Prune => {
                self.stage = DeleteStage::DeleteBranch;
            },
            DeleteStage::DeleteBranch => match outcome.status {
                Status::Succeeded => {
                    self.stage = DeleteStage::Done;
                },
                Status::Failed => {
                    let stderr = to_chars(outcome.stderr.as_str());
                    if !contains(&stderr, &to_chars("not found")) {
                        let mut warning = "Warning: could not delete branch '".to_owned();
                        warning.append(self.branch.as_str());
                        warning.append("': ");
                        warning.append(trimmed(&stderr).as_str());
                        self.warning = Some(warning);
                    } else {
                        self.warning = None;
                    }
                    self.stage = DeleteStage::Done;
                },
                Status::NotStarted => {
                    self.fail(
                        WorktreeError::NotStarted {
                            git: GitCommand::BranchDelete { branch: self.branch.clone() },
                            reason: outcome.stderr.clone(),
                        },
                    );
                },
            },
            DeleteStage::Done | DeleteStage::Failed => {},
        }
    }

    /// Once the worktree is gone, the warning that is to be printed, if there
    /// is one; once the deletion has failed, the error; and `None` before.
    pub fn result(&self) -> (out: Option<Result<Option<String>, WorktreeError>>)
        ensures
            match out {
                Some(Ok(warning)) => self@.result() == Some(
                    Ok::<Option<Seq<char>>, WorktreeFault>(crate::git::view_option(warning)),
                ),
                Some(Err(error)) => self@.result() == Some(
                    Err::<Option<Seq<char>>, WorktreeFault>(error@),
                ),
                None => self@.result() is None,
            },
    {
        match self.stage {
            DeleteStage::Done => Some(Ok(self.warning.clone())),
            DeleteStage::Failed => match &self.error {
                Some(error) => Some(Err(clone_error(error))),
                None => None,
            },
            _ => None,
        }
    }
}

/// Where git does not remove a worktree that is there, the deletion still
/// succeeds once the directory is removed: whatever comes of the pruning,
/// and whether or not git then deletes the branch, the worktree is gone and
/// no error is reported.
pub proof fn lemma_fallback_removal_succeeds(
    d: Deletion,
    there: Ended,
    refused: Ended,
    removed: Ended,
    pruned: Ended,
    branch: Ended,
)
    requires
        d.stage == DeleteStage::CheckPath,
        there.status == Status::Succeeded,
        refused.status == Status::Failed,
        removed.status == Status::Succeeded,
        branch.status != Status::NotStarted,
    ensures
        d.advanced(there).advanced(refused).request() == Some(
            Request::RemoveDirAll { path: d.path },
        ),
        d.advanced(there).advanced(refused).advanced(removed).advanced(pruned).advanced(
            branch,
        ).result() is Some,
        d.advanced(there).advanced(refused).advanced(removed).advanced(pruned).advanced(
            branch,
        ).result()->0 is Ok,
{
}

/// Where the search for the default branch stands.
#[derive(Clone, Copy, Debug, PartialEq, Eq)]
pub enum BranchStage {
    /// Which branch does the head of the remote point to?
    RemoteHead,
    /// Is there a branch `main`?
    ProbeMain,
    /// Is there a branch `master`?
    ProbeMaster,
    /// The default branch is known.
    Resolved,
    /// Git could not be asked.
    Failed,
}

/// The search for the default branch of a repository. It changes nothing in
/// the repository, and may be made again at any time.
pub struct DefaultBranch {
    stage: BranchStage,
    branch: Option<String>,
    error: Option<WorktreeError>,
}

/// A `DefaultBranch` over sequences.
pub struct Resolution {
    pub stage: BranchStage,
    /// The default branch, once it is known.
    pub branch: Option<Seq<char>>,
    /// Why the search failed, if it did.
    pub error: Option<WorktreeFault>,
}

/// The branch that the head of the remote points to, from what git wrote:
/// the text without the white space around it and without `origin/` before
/// it; `main` where it does not begin so.
pub open spec fn head_branch(stdout: Seq<char>) -> Seq<char> {
    let name = trim(stdout);
    if "origin/"@.is_prefix_of(name) {
        name.skip("origin/"@.len() as int)
    } else {
        "main"@
    }
}

impl Resolution {
    /// The search before anything was asked.
    pub open spec fn new() -> Resolution {
        Resolution { stage: BranchStage::RemoteHead, branch: None, error: None }
    }

    /// A branch is there exactly if the search has found one, and an error
    /// exactly if it has failed.
    pub open spec fn wf(self) -> bool {
        &&& self.branch is Some <==> self.stage == BranchStage::Resolved
        &&& self.error is Some <==> self.stage == BranchStage::Failed
    }

    /// The git command that is due, if the search has not ended.
    pub open spec fn request(self) -> Option<Request> {
        match self.stage {
            BranchStage::RemoteHead => Some(Request::Git(GitCall::RemoteHead)),
            BranchStage::ProbeMain => Some(Request::Git(GitCall::RevParse { name: "main"@ })),
            BranchStage::ProbeMaster => Some(Request::Git(GitCall::RevParse { name: "master"@ })),
            BranchStage::Resolved | BranchStage::Failed => None,
        }
    }

    /// The search, ended with `branch`.
    pub open spec fn resolved(self, branch: Seq<char>) -> Resolution {
        Resolution { stage: BranchStage::Resolved, branch: Some(branch), ..self }
    }

    /// The search, failed because git could not be started for `git`.
    pub open spec fn failed(self, git: GitCall, reason: Seq<char>) -> Resolution {
        Resolution {
            stage: BranchStage::Failed,
            error: Some(WorktreeFault::NotStarted { git, reason }),
            ..self
        }
    }

    /// The search after the command that was due came to `outcome`: the
    /// branch of the remote's head where git knows it, else `main` where it
    /// exists, else `master` where it exists, else `main`.
    pub open spec fn advanced(self, outcome: Ended) -> Resolution {
        match self.stage {
            BranchStage::RemoteHead => match outcome.status {
                Status::Succeeded => self.resolved(head_branch(outcome.stdout)),
                Status::Failed => Resolution { stage: BranchStage::ProbeMain, ..self },
                Status::NotStarted => self.failed(GitCall::RemoteHead, outcome.stderr),
            },
            BranchStage::ProbeMain => match outcome.status {
                Status::Succeeded => self.resolved("main"@),
                Status::Failed => Resolution { stage: BranchStage::ProbeMaster, ..self },
                Status::NotStarted => self.failed(
                    GitCall::RevParse { name: "main"@ },
                    outcome.stderr,
                ),
            },
            BranchStage::ProbeMaster => match outcome.status {
                Status::Succeeded => self.resolved("master"@),
                Status::Failed => self.resolved("main"@),
                Status::NotStarted => self.failed(
                    GitCall::RevParse { name: "master"@ },
                    outcome.stderr,
                ),
            },
            BranchStage::Resolved | BranchStage::Failed => self,
        }
    }

    /// The default branch once it is known, the fault once the search has
    /// failed, and nothing before.
    pub open spec fn result(self) -> Option<Result<Seq<char>, WorktreeFault>> {
        match (self.stage, self.branch, self.error) {
            (BranchStage::Resolved, Some(branch), _) => Some(Ok(branch)),
            (BranchStage::Failed, _, Some(fault)) => Some(Err(fault)),
            _ => None,
        }
    }
}

impl View for DefaultBranch {
    type V = Resolution;

    closed spec fn view(&self) -> Resolution {
        Resolution {
            stage: self.stage,
            branch: crate::git::view_option(self.branch),
            error: view_error(self.error),
        }
    }
}

/// Begins the search for the default branch.
pub fn get_default_branch() -> (out: DefaultBranch)
    ensures
        out@ == Resolution::new(),
        out@.wf(),
{
    DefaultBranch { stage: BranchStage::RemoteHead, branch: None, error: None }
}

/// Reads the branch of the remote's head from what git wrote.
pub fn parse_head_branch(stdout: &str) -> (out: String)
    ensures
        out@ == head_branch(stdout@),
{
    let name = to_chars(trimmed(&to_chars(stdout)).as_str());
    let prefix = to_chars("origin/");
    if crate::text::starts_with(&name, &prefix) {
        crate::text::to_string(&name, prefix.len(), name.len())
    } else {
        "main".to_owned()
    }
}

impl DefaultBranch {
    /// Where the search stands.
    pub fn stage(&self) -> (stage: BranchStage)
        ensures
            stage == self@.stage,
    {
        self.stage
    }

    /// The git command that is due, or `None` once the search has ended.
    pub fn request(&self) -> (action: Option<Action>)
        ensures
            view_action(action) == self@.request(),
    {
        match self.stage {
            BranchStage::RemoteHead => Some(Action::Git(GitCommand::RemoteHead)),
            BranchStage::ProbeMain => Some(
                Action::Git(GitCommand::RevParse { name: "main".to_owned() }),
            ),
            BranchStage::ProbeMaster => Some(
                Action::Git(GitCommand::RevParse { name: "master".to_owned() }),
            ),
            BranchStage::Resolved | BranchStage::Failed => None,
        }
    }

    fn resolve(&mut self, branch: String)
        ensures
            final(self)@ == old(self)@.resolved(branch@),
    {
        self.stage = BranchStage::Resolved;
        self.branch = Some(branch);
    }

    fn fail(&mut self, git: GitCommand, reason: String)
        ensures
            final(self)@ == old(self)@.failed(git@, reason@),
    {
        self.stage = BranchStage::Failed;
        self.error = Some(WorktreeError::NotStarted { git, reason });
    }

    /// Takes the outcome of the command that was due.
    pub fn advance(&mut self, outcome: &Outcome)
        requires
            old(self)@.wf(),
        ensures
            final(self)@ == old(self)@.advanced(outcome@),
            final(self)@.wf(),
    {
        match self.stage {
            BranchStage::RemoteHead => match outcome.status {
                Status::Succeeded => {
                    self.resolve(parse_head_branch(outcome.stdout.as_str()));
                },
                Status::Failed => {
                    self.stage = BranchStage::ProbeMain;
                },
                Status::NotStarted => {
                    self.fail(GitCommand::RemoteHead, outcome.stderr.clone());
                },
            },
            BranchStage::ProbeMain => match outcome.status {
                Status::Succeeded => {
                    self.resolve("main".to_owned());
                },
                Status::Failed => {
                    self.stage = BranchStage::ProbeMaster;
                },
                Status::NotStarted => {
                    self.fail(
                        GitCommand::RevParse { name: "main".to_owned() },
                        outcome.stderr.clone(),
                    );
                },
            },
            BranchStage::ProbeMaster => match outcome.status {
                Status::Succeeded => {
                    self.resolve("master".to_owned());
                },
                Status::Failed => {
                    self.resolve("main".to_owned());
                },
                Status::NotStarted => {
                    self.fail(
                        GitCommand::RevParse { name: "master".to_owned() },
                        outcome.stderr.clone(),
                    );
                },
            },
            BranchStage::Resolved | BranchStage::Failed => {},
        }
    }

    /// The default branch once it is known, the error once the search has
    /// failed, and `None` before.
    pub fn result(&self) -> (out: Option<Result<String, WorktreeError>>)
        ensures
            match out {
                Some(Ok(branch)) => self@.result() == Some(
                    Ok::<Seq<char>, WorktreeFault>(branch@),
                ),
                Some(Err(error)) => self@.result() == Some(
                    Err::<Seq<char>, WorktreeFault>(error@),
                ),
                None => self@.result() is None,
            },
    {
        match self.stage {
            BranchStage::Resolved => match &self.branch {
                Some(branch) => Some(Ok(branch.clone())),
                None => None,
            },
            BranchStage::Failed => match &self.error {
                Some(error) => Some(Err(clone_error(error))),
                None => None,
            },
            _ => None,
        }
    }
}

/// Where the merge of a branch into the default branch stands.
#[derive(Clone, Copy, Debug, PartialEq, Eq)]
pub enum MergeStage {
    /// The default branch is being looked for.
    Resolve,
    /// Git checks out the default branch.
    Checkout,
    /// Git merges the branch.
    Merge,
    /// The branch is merged.
    Done,
    /// The merge has failed.
    Failed,
}

/// The merge of a branch into the default branch of its repository.
pub struct MergeBranch {
    branch: String,
    default: DefaultBranch,
    stage: MergeStage,
    error: Option<WorktreeError>,
}

/// A `MergeBranch` over sequences.
pub struct Merging {
    /// The branch that is merged.
    pub branch: Seq<char>,
    /// The search for the default branch.
    pub default: Resolution,
    pub stage: MergeStage,
    /// Why the merge failed, if it did.
    pub error: Option<WorktreeFault>,
}

impl Merging {
    /// The merge before anything was done.
    pub open spec fn new(branch: Seq<char>) -> Merging {
        Merging { branch, default: Resolution::new(), stage: MergeStage::Resolve, error: None }
    }

    /// The default branch is known once the search for it is over, and an
    /// error is there exactly if the merge has failed.
    pub open spec fn wf(self) -> bool {
        &&& self.default.wf()
        &&& self.stage == MergeStage::Resolve ==> self.default.stage != BranchStage::Resolved
            && self.default.stage != BranchStage::Failed
        &&& self.stage == MergeStage::Checkout || self.stage == MergeStage::Merge || self.stage
            == MergeStage::Done ==> self.default.stage == BranchStage::Resolved
        &&& self.error is Some <==> self.stage == MergeStage::Failed
    }

    /// The default branch, once it is known.
    pub open spec fn target(self) -> Seq<char> {
        self.default.branch->0
    }

    /// The action that is due, if the merge has not ended.
    pub open spec fn request(self) -> Option<Request> {
        match self.stage {
            MergeStage::Resolve => self.default.request(),
            MergeStage::Checkout => Some(Request::Git(GitCall::Checkout { branch: self.target() })),
            MergeStage::Merge => Some(Request::Git(GitCall::Merge { branch: self.branch })),
            MergeStage::Done | MergeStage::Failed => None,
        }
    }

    /// The merge, failed with `fault`.
    pub open spec fn failed(self, fault: WorktreeFault) -> Merging {
        Merging { stage: MergeStage::Failed, error: Some(fault), ..self }
    }

    /// The merge after the action that was due came to `outcome`. The
    /// default branch is checked out, then the branch is merged into it; a
    /// failure of either ends the merge with what git wrote.
    pub open spec fn advanced(self, outcome: Ended) -> Merging {
        match self.stage {
            MergeStage::Resolve => {
                let default = self.default.advanced(outcome);
                match default.stage {
                    BranchStage::Resolved => Merging {
                        default,
                        stage: MergeStage::Checkout,
                        ..self
                    },
                    BranchStage::Failed => Merging {
                        default,
                        stage: MergeStage::Failed,
                        error: default.error,
                        ..self
                    },
                    _ => Merging { default, ..self },
                }
            },
            MergeStage::Checkout => match outcome.status {
                Status::Succeeded => Merging { stage: MergeStage::Merge, ..self },
                Status::Failed => self.failed(
                    WorktreeFault::CheckoutFailed {
                        branch: self.target(),
                        stderr: trim(outcome.stderr),
                    },
                ),
                Status::NotStarted => self.failed(
                    WorktreeFault::NotStarted {
                        git: GitCall::Checkout { branch: self.target() },
                        reason: outcome.stderr,
                    },
                ),
            },
            MergeStage::Merge => match outcome.status {
                Status::Succeeded => Merging { stage: MergeStage::Done, ..self },
                Status::Failed => self.failed(
                    WorktreeFault::MergeFailed { stderr: trim(outcome.stderr) },
                ),
                Status::NotStarted => self.failed(
                    WorktreeFault::NotStarted {
                        git: GitCall::Merge { branch: self.branch },
                        reason: outcome.stderr,
                    },
                ),
            },
            MergeStage::Done | MergeStage::Failed => self,
        }
    }

    /// `Ok` once the branch is merged, the fault once the merge has failed,
    /// and nothing before.
    pub open spec fn result(self) -> Option<Result<(), WorktreeFault>> {
        match (self.stage, self.error) {
            (MergeStage::Done, _) => Some(Ok(())),
            (MergeStage::Failed, Some(fault)) => Some(Err(fault)),
            _ => None,
        }
    }
}

impl View for MergeBranch {
    type V = Merging;

    closed spec fn view(&self) -> Merging {
        Merging {
            branch: self.branch@,
            default: self.default@,
            stage: self.stage,
            error: view_error(self.error),
        }
    }
}

/// Begins the merge of `branch` into the default branch.
pub fn merge_branch_to_default(branch: &str) -> (out: MergeBranch)
    ensures
        out@ == Merging::new(branch@),
        out@.wf(),
{
    MergeBranch {
        branch: branch.to_owned(),
        default: get_default_branch(),
        stage: MergeStage::Resolve,
        error: None,
    }
}

impl MergeBranch {
    /// Where the merge stands.
    pub fn stage(&self) -> (stage: MergeStage)
        ensures
            stage == self@.stage,
    {
        self.stage
    }

    fn target(&self) -> (branch: String)
        requires
            self@.default.branch is Some,
        ensures
            branch@ == self@.target(),
    {
        match &self.default.branch {
            Some(branch) => branch.clone(),
            None => String::new(),
        }
    }

    /// The action that is due, or `None` once the merge has ended.
    pub fn request(&self) -> (action: Option<Action>)
        requires
            self@.wf(),
        ensures
            view_action(action) == self@.request(),
    {
        match self.stage {
            MergeStage::Resolve => self.default.request(),
            MergeStage::Checkout => Some(Action::Git(GitCommand::Checkout { branch: self.target() })),
            MergeStage::Merge => Some(
                Action::Git(GitCommand::Merge { branch: self.branch.clone() }),
            ),
            MergeStage::Done | MergeStage::Failed => None,
        }
    }

    fn fail(&mut self, error: WorktreeError)
        ensures
            final(self)@ == old(self)@.failed(error@),
    {
        self.stage = MergeStage::Failed;
        self.error = Some(error);
    }

    /// Takes the outcome of the action that was due.
    pub fn advance(&mut self, outcome: &Outcome)
        requires
            old(self)@.wf(),
        ensures
            final(self)@ == old(self)@.advanced(outcome@),
            final(self)@.wf(),
    {
        match self.stage {
            MergeStage::Resolve => {
                self.default.advance(outcome);
                match self.default.stage {
                    BranchStage::Resolved => {
                        self.stage = MergeStage::Checkout;
                    },
                    BranchStage::Failed => {
                        self.stage = MergeStage::Failed;
                        self.error = match &self.default.error {
                            Some(error) => Some(clone_error(error)),
                            None => None,
                        };
                    },
                    _ => {},
                }
            },
            MergeStage::Checkout => match outcome.status {
                Status::Succeeded => {
                    self.stage = MergeStage::Merge;
                },
                Status::Failed => {
                    self.fail(
                        WorktreeError::CheckoutFailed {
                            branch: self.target(),
                            stderr: trimmed(&to_chars(outcome.stderr.as_str())),
                        },
                    );
                },
                Status::NotStarted => {
                    self.fail(
                        WorktreeError::NotStarted {
                            git: GitCommand::Checkout { branch: self.target() },
                            reason: outcome.stderr.clone(),
                        },
                    );
                },
            },
            MergeStage::Merge => match outcome.status {
                Status::Succeeded => {
                    self.stage = MergeStage::Done;
                },
                Status::Failed => {
                    self.fail(
                        WorktreeError::MergeFailed {
                            stderr: trimmed(&to_chars(outcome.stderr.as_str())),
                        },
                    );
                },
                Status::NotStarted => {
                    self.fail(
                        WorktreeError::NotStarted {
                            git: GitCommand::Merge { branch: self.branch.clone() },
                            reason: outcome.stderr.clone(),
                        },
                    );
                },
            },
            MergeStage::Done | MergeStage::Failed => {},
        }
    }

    /// `Ok` once the branch is merged, the error once the merge has failed,
    /// and `None` before.
    pub fn result(&self) -> (out: Option<Result<(), WorktreeError>>)
        ensures
            match out {
                Some(Ok(())) => self@.result() == Some(Ok::<(), WorktreeFault>(())),
                Some(Err(error)) => self@.result() == Some(Err::<(), WorktreeFault>(error@)),
                None => self@.result() is None,
            },
    {
        match self.stage {
            MergeStage::Done => Some(Ok(())),
            MergeStage::Failed => match &self.error {
                Some(error) => Some(Err(clone_error(error))),
                None => None,
            },
            _ => None,
        }
    }
}

} // verus!
