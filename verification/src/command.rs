//! The vocabulary of the version-control adapter boundary: the operations the
//! engine may ask for, the captured result of running one, and the exact
//! argument list that each operation stands for.  The (unverified) binary
//! around the library spawns the `git` process; everything it needs to hand
//! back is a plain [`CommandResult`].

use vstd::prelude::*;
use vstd::string::StringExecFns;

verus! {

/// The captured outcome of one adapter invocation: whether the command exited
/// successfully, and its two output streams as text.
#[derive(Debug, PartialEq, Eq)]
pub struct CommandResult {
    pub success: bool,
    pub stdout: String,
    pub stderr: String,
}

/// The mathematical reading of a [`CommandResult`].
pub struct ResultModel {
    pub success: bool,
    pub stdout: Seq<char>,
    pub stderr: Seq<char>,
}

impl View for CommandResult {
    type V = ResultModel;

    open spec fn view(&self) -> ResultModel {
        ResultModel { success: self.success, stdout: self.stdout@, stderr: self.stderr@ }
    }
}

/// One logical operation against the version-control engine.
#[derive(Debug, PartialEq, Eq)]
pub enum GitOp {
    /// Ask whether the current directory lies inside a repository.
    CheckRepo,
    /// Count the objects in the repository, to detect an empty history.
    CountObjects,
    /// Print the working-tree status in short form.
    Status,
    /// List the configured remotes, one name per line.
    ListRemotes,
    /// Fetch from the default remote.
    Fetch,
    /// Integrate the fetched changes into the current branch.
    Pull,
    /// Count all commits reachable from any branch.
    CountCommits,
    /// Stage every pending change.
    StageAll,
    /// Create a commit carrying the given message.
    Commit { message: String },
}

/// The mathematical reading of a [`GitOp`].
pub enum OpModel {
    CheckRepo,
    CountObjects,
    Status,
    ListRemotes,
    Fetch,
    Pull,
    CountCommits,
    StageAll,
    Commit { message: Seq<char> },
}

impl View for GitOp {
    type V = OpModel;

    open spec fn view(&self) -> OpModel {
        match self {
            GitOp::CheckRepo => OpModel::CheckRepo,
            GitOp::CountObjects => OpModel::CountObjects,
            GitOp::Status => OpModel::Status,
            GitOp::ListRemotes => OpModel::ListRemotes,
            GitOp::Fetch => OpModel::Fetch,
            GitOp::Pull => OpModel::Pull,
            GitOp::CountCommits => OpModel::CountCommits,
            GitOp::StageAll => OpModel::StageAll,
            GitOp::Commit { message } => OpModel::Commit { message: message@ },
        }
    }
}

/// The exact argument list (after the executable name) that each operation
/// stands for.
pub open spec fn argv_of(op: OpModel) -> Seq<Seq<char>> {
    match op {
        OpModel::CheckRepo => seq!["rev-parse"@, "--git-dir"@],
        OpModel::CountObjects => seq!["count-objects"@],
        OpModel::Status => seq!["status"@, "--porcelain"@],
        OpModel::ListRemotes => seq!["remote"@],
        OpModel::Fetch => seq!["fetch"@],
        OpModel::Pull => seq!["pull"@],
        OpModel::CountCommits => seq!["rev-list"@, "--all"@, "--count"@],
        OpModel::StageAll => seq!["add"@, "--all"@],
        OpModel::Commit { message } => seq!["commit"@, "-m"@, message],
    }
}

/// Renders an operation as the argument list to hand to the version-control
/// executable.
pub fn arguments_of(op: &GitOp) -> (args: Vec<String>)
    ensures
        args.deep_view() == argv_of(op@),
{
    let mut args: Vec<String> = Vec::new();
    match op {
        GitOp::CheckRepo => {
            args.push(String::from_str("rev-parse"));
            args.push(String::from_str("--git-dir"));
        },
        GitOp::CountObjects => {
            args.push(String::from_str("count-objects"));
        },
        GitOp::Status => {
            args.push(String::from_str("status"));
            args.push(String::from_str("--porcelain"));
        },
        GitOp::ListRemotes => {
            args.push(String::from_str("remote"));
        },
        GitOp::Fetch => {
            args.push(String::from_str("fetch"));
        },
        GitOp::Pull => {
            args.push(String::from_str("pull"));
        },
        GitOp::CountCommits => {
            args.push(String::from_str("rev-list"));
            args.push(String::from_str("--all"));
            args.push(String::from_str("--count"));
        },
        GitOp::StageAll => {
            args.push(String::from_str("add"));
            args.push(String::from_str("--all"));
        },
        GitOp::Commit { message } => {
            args.push(String::from_str("commit"));
            args.push(String::from_str("-m"));
            args.push(message.clone());
        },
    }
    proof {
        assert(args.deep_view() =~= argv_of(op@));
    }
    args
}

} // verus!
