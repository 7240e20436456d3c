//! The commit orchestration engine: a strictly sequential state machine that
//! decides, from the configuration and the captured result of the command it
//! last asked for, what to run next or how to terminate.  The engine itself
//! performs no I/O: the binary around the library executes each requested
//! [`GitOp`] and feeds the captured [`CommandResult`] back into [`step`].

use vstd::prelude::*;
use vstd::string::StringExecFns;
use crate::command::{CommandResult, GitOp, OpModel, ResultModel};
use crate::compose::{compose_message, composed};
use crate::counter::{count_of, next_identifier};
use crate::probe::{classify_emptiness, working_tree_clean, zero_token, Emptiness};
use crate::remote::{has_origin, has_origin_line};
use crate::text::first_token;

verus! {

/// The run's configuration, fixed at process start: whether to synchronize
/// with the default remote before committing, and the optional user-supplied
/// message suffix (empty meaning none was supplied).
#[derive(Debug, PartialEq, Eq)]
pub struct Config {
    pub check_remote: bool,
    pub commit_message: String,
}

/// The mathematical reading of a [`Config`].
pub struct ConfigModel {
    pub check_remote: bool,
    pub suffix: Seq<char>,
}

impl View for Config {
    type V = ConfigModel;

    open spec fn view(&self) -> ConfigModel {
        ConfigModel { check_remote: self.check_remote, suffix: self.commit_message@ }
    }
}

/// The distinct diagnostics a run can terminate with, each written to the
/// error stream by the binary around the library.
#[derive(Debug, Clone, Copy, PartialEq, Eq, Structural)]
pub enum Notice {
    /// The current directory is not inside a repository.
    NotARepository,
    /// The working tree is clean: nothing to do (a normal termination).
    CleanTree,
    /// The object-count query itself failed.
    ObjectCountFailed,
    /// The object-count output held no token to read.
    ObjectCountUnreadable,
    /// The status query itself failed.
    StatusFailed,
    /// The remote-listing query itself failed.
    RemoteListFailed,
    /// No remote named `origin` is configured.
    NoOriginRemote,
    /// Fetching from the remote failed.
    FetchFailed,
    /// Integrating the fetched changes failed.
    PullFailed,
    /// The commit-count query itself failed.
    CommitCountFailed,
    /// The commit-count output could not be read as a number.
    CommitCountUnreadable,
    /// Staging the pending changes failed.
    StageFailed,
    /// Creating the commit failed.
    CommitFailed,
}

impl Notice {
    /// The diagnostic text of this notice.
    pub open spec fn spec_text(self) -> Seq<char> {
        match self {
            Notice::NotARepository => "Not a git repository"@,
            Notice::CleanTree => "Repository is clean, nothing to do"@,
            Notice::ObjectCountFailed => "Failed to count the repository objects"@,
            Notice::ObjectCountUnreadable => "Failed to parse git count-objects output"@,
            Notice::StatusFailed => "Failed to check if the repository is clean"@,
            Notice::RemoteListFailed => "Failed to check if there is a remote repository"@,
            Notice::NoOriginRemote => "No remote repository found, check the settings, or add one"@,
            Notice::FetchFailed => "Failed to fetch the remote repository"@,
            Notice::PullFailed => "Failed to pull the remote repository"@,
            Notice::CommitCountFailed => "Failed to count the repository commits"@,
            Notice::CommitCountUnreadable => "Failed to parse git rev-list output"@,
            Notice::StageFailed => "Failed to add all files"@,
            Notice::CommitFailed => "Failed to create commit"@,
        }
    }

    /// Renders the diagnostic text of this notice.
    pub fn text(&self) -> (r: String)
        ensures
            r@ == self.spec_text(),
    {
        match self {
            Notice::NotARepository => String::from_str("Not a git repository"),
            Notice::CleanTree => String::from_str("Repository is clean, nothing to do"),
            Notice::ObjectCountFailed => String::from_str(
                "Failed to count the repository objects",
            ),
            Notice::ObjectCountUnreadable => String::from_str(
                "Failed to parse git count-objects output",
            ),
            Notice::StatusFailed => String::from_str(
                "Failed to check if the repository is clean",
            ),
            Notice::RemoteListFailed => String::from_str(
                "Failed to check if there is a remote repository",
            ),
            Notice::NoOriginRemote => String::from_str(
                "No remote repository found, check the settings, or add one",
            ),
            Notice::FetchFailed => String::from_str("Failed to fetch the remote repository"),
            Notice::PullFailed => String::from_str("Failed to pull the remote repository"),
            Notice::CommitCountFailed => String::from_str(
                "Failed to count the repository commits",
            ),
            Notice::CommitCountUnreadable => String::from_str(
                "Failed to parse git rev-list output",
            ),
            Notice::StageFailed => String::from_str("Failed to add all files"),
            Notice::CommitFailed => String::from_str("Failed to create commit"),
        }
    }
}

/// Where the run stands: which command result the engine is waiting for.
#[derive(Debug, PartialEq, Eq)]
pub enum State {
    /// Waiting for the repository validity check.
    AwaitValidate,
    /// Waiting for the object count that detects an empty history.
    AwaitEmpty,
    /// Waiting for the short-form status of the working tree.
    AwaitClean,
    /// Waiting for the remote listing.
    AwaitRemotes,
    /// Waiting for the fetch from the remote.
    AwaitFetch,
    /// Waiting for the pull that integrates the fetched changes.
    AwaitPull,
    /// Waiting for the commit count that yields the next identifier.
    AwaitCount,
    /// Waiting for the staging step; the composed message is pending.
    AwaitStage { message: String },
    /// Waiting for the commit itself.
    AwaitCommit,
    /// The run is over; no further command is asked for.
    Finished,
}

/// The mathematical reading of a [`State`].
pub enum StateModel {
    AwaitValidate,
    AwaitEmpty,
    AwaitClean,
    AwaitRemotes,
    AwaitFetch,
    AwaitPull,
    AwaitCount,
    AwaitStage { message: Seq<char> },
    AwaitCommit,
    Finished,
}

impl View for State {
    type V = StateModel;

    open spec fn view(&self) -> StateModel {
        match self {
            State::AwaitValidate => StateModel::AwaitValidate,
            State::AwaitEmpty => StateModel::AwaitEmpty,
            State::AwaitClean => StateModel::AwaitClean,
            State::AwaitRemotes => StateModel::AwaitRemotes,
            State::AwaitFetch => StateModel::AwaitFetch,
            State::AwaitPull => StateModel::AwaitPull,
            State::AwaitCount => StateModel::AwaitCount,
            State::AwaitStage { message } => StateModel::AwaitStage { message: message@ },
            State::AwaitCommit => StateModel::AwaitCommit,
            State::Finished => StateModel::Finished,
        }
    }
}

/// What the binary around the library must do next: run one more command and
/// feed its result back, or terminate the process.
#[derive(Debug, PartialEq, Eq)]
pub enum Action {
    /// Run this operation and hand its captured result to [`step`].
    Run { op: GitOp },
    /// Terminate with this exit code, printing the notice (if any) to the
    /// error stream first.
    Exit { code: u8, notice: Option<Notice> },
}

/// The mathematical reading of an [`Action`].
pub enum ActionModel {
    Run { op: OpModel },
    Exit { code: u8, notice: Option<Notice> },
}

impl View for Action {
    type V = ActionModel;

    open spec fn view(&self) -> ActionModel {
        match self {
            Action::Run { op } => ActionModel::Run { op: op@ },
            Action::Exit { code, notice } => ActionModel::Exit { code: *code, notice: *notice },
        }
    }
}

/// The message of the initial commit, taken when the history is empty.
pub open spec fn initial_message() -> Seq<char> {
    seq!['1']
}

/// The whole transition relation of the engine: from the configuration, the
/// state, and the captured result of the command the state was waiting for,
/// to the next state and the requested action.  Every failure terminates the
/// run at once with exit code 1 and its own notice; a clean tree terminates
/// normally with exit code 0.
pub open spec fn next_of(cfg: ConfigModel, state: StateModel, result: ResultModel) -> (
    StateModel,
    ActionModel,
) {
    match state {
        StateModel::AwaitValidate => if result.success {
            (StateModel::AwaitEmpty, ActionModel::Run { op: OpModel::CountObjects })
        } else {
            (
                StateModel::Finished,
                ActionModel::Exit { code: 1, notice: Some(Notice::NotARepository) },
            )
        },
        StateModel::AwaitEmpty => if !result.success {
            (
                StateModel::Finished,
                ActionModel::Exit { code: 1, notice: Some(Notice::ObjectCountFailed) },
            )
        } else {
            let token = first_token(result.stdout);
            if token.len() == 0 {
                (
                    StateModel::Finished,
                    ActionModel::Exit { code: 1, notice: Some(Notice::ObjectCountUnreadable) },
                )
            } else if token == zero_token() {
                (
                    StateModel::AwaitStage { message: initial_message() },
                    ActionModel::Run { op: OpModel::StageAll },
                )
            } else {
                (StateModel::AwaitClean, ActionModel::Run { op: OpModel::Status })
            }
        },
        StateModel::AwaitClean => if !result.success {
            (
                StateModel::Finished,
                ActionModel::Exit { code: 1, notice: Some(Notice::StatusFailed) },
            )
        } else if result.stdout.len() == 0 {
            (StateModel::Finished, ActionModel::Exit { code: 0, notice: Some(Notice::CleanTree) })
        } else if cfg.check_remote {
            (StateModel::AwaitRemotes, ActionModel::Run { op: OpModel::ListRemotes })
        } else {
            (StateModel::AwaitCount, ActionModel::Run { op: OpModel::CountCommits })
        },
        StateModel::AwaitRemotes => if !result.success {
            (
                StateModel::Finished,
                ActionModel::Exit { code: 1, notice: Some(Notice::RemoteListFailed) },
            )
        } else if has_origin(result.stdout) {
            (StateModel::AwaitFetch, ActionModel::Run { op: OpModel::Fetch })
        } else {
            (
                StateModel::Finished,
                ActionModel::Exit { code: 1, notice: Some(Notice::NoOriginRemote) },
            )
        },
        StateModel::AwaitFetch => if result.success {
            (StateModel::AwaitPull, ActionModel::Run { op: OpModel::Pull })
        } else {
            (
                StateModel::Finished,
                ActionModel::Exit { code: 1, notice: Some(Notice::FetchFailed) },
            )
        },
        StateModel::AwaitPull => if result.success {
            (StateModel::AwaitCount, ActionModel::Run { op: OpModel::CountCommits })
        } else {
            (StateModel::Finished, ActionModel::Exit { code: 1, notice: Some(Notice::PullFailed) })
        },
        StateModel::AwaitCount => if !result.success {
            (
                StateModel::Finished,
                ActionModel::Exit { code: 1, notice: Some(Notice::CommitCountFailed) },
            )
        } else {
            match count_of(result.stdout) {
                Some(count) => (
                    StateModel::AwaitStage { message: composed(count + 1, cfg.suffix) },
                    ActionModel::Run { op: OpModel::StageAll },
                ),
                None => (
                    StateModel::Finished,
                    ActionModel::Exit { code: 1, notice: Some(Notice::CommitCountUnreadable) },
                ),
            }
        },
        StateModel::AwaitStage { message } => if result.success {
            (StateModel::AwaitCommit, ActionModel::Run { op: OpModel::Commit { message } })
        } else {
            (
                StateModel::Finished,
                ActionModel::Exit { code: 1, notice: Some(Notice::StageFailed) },
            )
        },
        StateModel::AwaitCommit => if result.success {
            (StateModel::Finished, ActionModel::Exit { code: 0, notice: None })
        } else {
            (
                StateModel::Finished,
                ActionModel::Exit { code: 1, notice: Some(Notice::CommitFailed) },
            )
        },
        StateModel::Finished => (
            StateModel::Finished,
            ActionModel::Exit { code: 0, notice: None },
        ),
    }
}

/// Begins a run: the engine asks for the repository validity check first.
pub fn start() -> (r: (State, Action))
    ensures
        r.0@ == StateModel::AwaitValidate,
        r.1@ == (ActionModel::Run { op: OpModel::CheckRepo }),
{
    (State::AwaitValidate, Action::Run { op: GitOp::CheckRepo })
}

/// Takes the initial-commit path for an empty history: the pending message is
/// exactly `"1"` — whatever suffix was supplied — and staging is asked for.
pub fn create_initial_commit() -> (r: (State, Action))
    ensures
        r.0@ == (StateModel::AwaitStage { message: initial_message() }),
        r.1@ == (ActionModel::Run { op: OpModel::StageAll }),
{
    proof {
        reveal_strlit("1");
        assert("1"@ =~= initial_message());
    }
    (State::AwaitStage { message: String::from_str("1") }, Action::Run { op: GitOp::StageAll })
}

/// Advances the run by one step: exactly the transition relation [`next_of`]
/// applied to the captured result of the command that `state` was waiting
/// for.
pub fn step(config: &Config, state: State, result: CommandResult) -> (r: (State, Action))
    ensures
        (r.0@, r.1@) == next_of(config@, state@, result@),
{
    match state {
        State::AwaitValidate => if result.success {
            (State::AwaitEmpty, Action::Run { op: GitOp::CountObjects })
        } else {
            (
                State::Finished,
                Action::Exit { code: 1, notice: Some(Notice::NotARepository) },
            )
        },
        State::AwaitEmpty => if !result.success {
            (State::Finished, Action::Exit { code: 1, notice: Some(Notice::ObjectCountFailed) })
        } else {
            match classify_emptiness(result.stdout.as_str()) {
                Emptiness::NoToken => (
                    State::Finished,
                    Action::Exit { code: 1, notice: Some(Notice::ObjectCountUnreadable) },
                ),
                Emptiness::Zero => create_initial_commit(),
                Emptiness::NonZero => (State::AwaitClean, Action::Run { op: GitOp::Status }),
            }
        },
        State::AwaitClean => if !result.success {
            (State::Finished, Action::Exit { code: 1, notice: Some(Notice::StatusFailed) })
        } else if working_tree_clean(result.stdout.as_str()) {
            (State::Finished, Action::Exit { code: 0, notice: Some(Notice::CleanTree) })
        } else if config.check_remote {
            (State::AwaitRemotes, Action::Run { op: GitOp::ListRemotes })
        } else {
            (State::AwaitCount, Action::Run { op: GitOp::CountCommits })
        },
        State::AwaitRemotes => if !result.success {
            (State::Finished, Action::Exit { code: 1, notice: Some(Notice::RemoteListFailed) })
        } else if has_origin_line(result.stdout.as_str()) {
            (State::AwaitFetch, Action::Run { op: GitOp::Fetch })
        } else {
            (State::Finished, Action::Exit { code: 1, notice: Some(Notice::NoOriginRemote) })
        },
        State::AwaitFetch => if result.success {
            (State::AwaitPull, Action::Run { op: GitOp::Pull })
        } else {
            (State::Finished, Action::Exit { code: 1, notice: Some(Notice::FetchFailed) })
        },
        State::AwaitPull => if result.success {
            (State::AwaitCount, Action::Run { op: GitOp::CountCommits })
        } else {
            (State::Finished, Action::Exit { code: 1, notice: Some(Notice::PullFailed) })
        },
        State::AwaitCount => if !result.success {
            (State::Finished, Action::Exit { code: 1, notice: Some(Notice::CommitCountFailed) })
        } else {
            match next_identifier(result.stdout.as_str()) {
                Some(next) => {
                    let message = compose_message(next, config.commit_message.as_str());
                    (State::AwaitStage { message }, Action::Run { op: GitOp::StageAll })
                },
                None => (
                    State::Finished,
                    Action::Exit { code: 1, notice: Some(Notice::CommitCountUnreadable) },
                ),
            }
        },
        State::AwaitStage { message } => if result.success {
            (State::AwaitCommit, Action::Run { op: GitOp::Commit { message } })
        } else {
            (State::Finished, Action::Exit { code: 1, notice: Some(Notice::StageFailed) })
        },
        State::AwaitCommit => if result.success {
            (State::Finished, Action::Exit { code: 0, notice: None })
        } else {
            (State::Finished, Action::Exit { code: 1, notice: Some(Notice::CommitFailed) })
        },
        State::Finished => (State::Finished, Action::Exit { code: 0, notice: None }),
    }
}

} // verus!
