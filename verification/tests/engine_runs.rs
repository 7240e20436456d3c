//! Whole-run scenarios: scripted command results fed through the engine, one
//! step at a time, checking every requested operation and the final exit.

use gac::command::{CommandResult, GitOp};
use gac::engine::{start, step, Action, Config, Notice, State};

fn res(success: bool, stdout: &str) -> CommandResult {
    CommandResult { success, stdout: stdout.to_string(), stderr: String::new() }
}

fn cfg(check_remote: bool, commit_message: &str) -> Config {
    Config { check_remote, commit_message: commit_message.to_string() }
}

#[test]
fn invalid_repository_exits_one_without_mutating() {
    let config = cfg(false, "");
    let (state, action) = start();
    assert_eq!(action, Action::Run { op: GitOp::CheckRepo });
    let (state, action) = step(&config, state, res(false, ""));
    assert_eq!(
        action,
        Action::Exit { code: 1, notice: Some(Notice::NotARepository) }
    );
    assert_eq!(state, State::Finished);
}

#[test]
fn empty_repository_creates_initial_commit() {
    let config = cfg(false, "");
    let (state, action) = start();
    assert_eq!(action, Action::Run { op: GitOp::CheckRepo });
    let (state, action) = step(&config, state, res(true, ".git\n"));
    assert_eq!(action, Action::Run { op: GitOp::CountObjects });
    let (state, action) = step(&config, state, res(true, "0 objects, 0 kilobytes\n"));
    assert_eq!(action, Action::Run { op: GitOp::StageAll });
    let (state, action) = step(&config, state, res(true, ""));
    assert_eq!(
        action,
        Action::Run { op: GitOp::Commit { message: "1".to_string() } }
    );
    let (state, action) = step(&config, state, res(true, "[master] 1\n"));
    assert_eq!(action, Action::Exit { code: 0, notice: None });
    assert_eq!(state, State::Finished);
}

#[test]
fn empty_repository_ignores_supplied_suffix() {
    let config = cfg(false, "refactor");
    let (state, _) = start();
    let (state, _) = step(&config, state, res(true, ""));
    let (state, action) = step(&config, state, res(true, "0 objects, 0 kilobytes\n"));
    assert_eq!(action, Action::Run { op: GitOp::StageAll });
    let (_, action) = step(&config, state, res(true, ""));
    assert_eq!(
        action,
        Action::Run { op: GitOp::Commit { message: "1".to_string() } }
    );
}

#[test]
fn four_commits_dirty_tree_with_suffix_commits_five_refactor() {
    let config = cfg(false, "refactor");
    let (state, _) = start();
    let (state, action) = step(&config, state, res(true, ".git\n"));
    assert_eq!(action, Action::Run { op: GitOp::CountObjects });
    let (state, action) = step(&config, state, res(true, "12 objects, 48 kilobytes\n"));
    assert_eq!(action, Action::Run { op: GitOp::Status });
    let (state, action) = step(&config, state, res(true, " M src/main.rs\n"));
    assert_eq!(action, Action::Run { op: GitOp::CountCommits });
    let (state, action) = step(&config, state, res(true, "4\n"));
    assert_eq!(action, Action::Run { op: GitOp::StageAll });
    let (state, action) = step(&config, state, res(true, ""));
    assert_eq!(
        action,
        Action::Run { op: GitOp::Commit { message: "5 - refactor".to_string() } }
    );
    let (_, action) = step(&config, state, res(true, ""));
    assert_eq!(action, Action::Exit { code: 0, notice: None });
}

#[test]
fn four_commits_dirty_tree_without_suffix_commits_five() {
    let config = cfg(false, "");
    let (state, _) = start();
    let (state, _) = step(&config, state, res(true, ""));
    let (state, _) = step(&config, state, res(true, "12 objects, 48 kilobytes\n"));
    let (state, _) = step(&config, state, res(true, "?? notes.txt\n"));
    let (state, action) = step(&config, state, res(true, " 4 \n"));
    assert_eq!(action, Action::Run { op: GitOp::StageAll });
    let (_, action) = step(&config, state, res(true, ""));
    assert_eq!(
        action,
        Action::Run { op: GitOp::Commit { message: "5".to_string() } }
    );
}

#[test]
fn four_commits_clean_tree_exits_zero_with_notice() {
    let config = cfg(false, "");
    let (state, _) = start();
    let (state, _) = step(&config, state, res(true, ""));
    let (state, action) = step(&config, state, res(true, "12 objects, 48 kilobytes\n"));
    assert_eq!(action, Action::Run { op: GitOp::Status });
    let (state, action) = step(&config, state, res(true, ""));
    assert_eq!(
        action,
        Action::Exit { code: 0, notice: Some(Notice::CleanTree) }
    );
    assert_eq!(state, State::Finished);
    assert_eq!(
        Notice::CleanTree.text(),
        "Repository is clean, nothing to do"
    );
}

#[test]
fn clean_check_is_idempotent_over_unchanged_tree() {
    let config = cfg(false, "");
    let mut exits: Vec<Action> = Vec::new();
    let mut commits: usize = 0;
    for _ in 0..2 {
        let (state, _) = start();
        let (state, _) = step(&config, state, res(true, ""));
        let (state, action) = step(&config, state, res(true, "12 objects, 48 kilobytes\n"));
        if let Action::Run { op: GitOp::Commit { .. } } = &action {
            commits += 1;
        }
        let (_, action) = step(&config, state, res(true, ""));
        if let Action::Run { op: GitOp::Commit { .. } } = &action {
            commits += 1;
        }
        exits.push(action);
    }
    assert_eq!(commits, 0);
    assert_eq!(exits[0], exits[1]);
    assert_eq!(
        exits[0],
        Action::Exit { code: 0, notice: Some(Notice::CleanTree) }
    );
}

#[test]
fn missing_origin_remote_aborts_before_staging() {
    let config = cfg(true, "fix");
    let (state, _) = start();
    let (state, _) = step(&config, state, res(true, ""));
    let (state, _) = step(&config, state, res(true, "12 objects, 48 kilobytes\n"));
    let (state, action) = step(&config, state, res(true, " M src/main.rs\n"));
    assert_eq!(action, Action::Run { op: GitOp::ListRemotes });
    let (state, action) = step(&config, state, res(true, "upstream\n"));
    assert_eq!(
        action,
        Action::Exit { code: 1, notice: Some(Notice::NoOriginRemote) }
    );
    assert_eq!(state, State::Finished);
}

#[test]
fn origin_remote_present_fetches_pulls_then_counts() {
    let config = cfg(true, "");
    let (state, _) = start();
    let (state, _) = step(&config, state, res(true, ""));
    let (state, _) = step(&config, state, res(true, "12 objects, 48 kilobytes\n"));
    let (state, action) = step(&config, state, res(true, " M src/main.rs\n"));
    assert_eq!(action, Action::Run { op: GitOp::ListRemotes });
    let (state, action) = step(&config, state, res(true, "origin\nupstream\n"));
    assert_eq!(action, Action::Run { op: GitOp::Fetch });
    let (state, action) = step(&config, state, res(true, ""));
    assert_eq!(action, Action::Run { op: GitOp::Pull });
    let (state, action) = step(&config, state, res(true, "Already up to date.\n"));
    assert_eq!(action, Action::Run { op: GitOp::CountCommits });
    let (state, action) = step(&config, state, res(true, "7\n"));
    assert_eq!(action, Action::Run { op: GitOp::StageAll });
    let (_, action) = step(&config, state, res(true, ""));
    assert_eq!(
        action,
        Action::Run { op: GitOp::Commit { message: "8".to_string() } }
    );
}

#[test]
fn status_failure_exits_one() {
    let config = cfg(false, "");
    let (state, _) = start();
    let (state, _) = step(&config, state, res(true, ""));
    let (state, _) = step(&config, state, res(true, "12 objects, 48 kilobytes\n"));
    let (_, action) = step(&config, state, res(false, ""));
    assert_eq!(
        action,
        Action::Exit { code: 1, notice: Some(Notice::StatusFailed) }
    );
}

#[test]
fn remote_list_failure_exits_one() {
    let config = cfg(true, "");
    let (state, _) = start();
    let (state, _) = step(&config, state, res(true, ""));
    let (state, _) = step(&config, state, res(true, "12 objects, 48 kilobytes\n"));
    let (state, _) = step(&config, state, res(true, " M a\n"));
    let (_, action) = step(&config, state, res(false, ""));
    assert_eq!(
        action,
        Action::Exit { code: 1, notice: Some(Notice::RemoteListFailed) }
    );
}

#[test]
fn fetch_failure_exits_one() {
    let config = cfg(true, "");
    let (state, _) = start();
    let (state, _) = step(&config, state, res(true, ""));
    let (state, _) = step(&config, state, res(true, "12 objects, 48 kilobytes\n"));
    let (state, _) = step(&config, state, res(true, " M a\n"));
    let (state, _) = step(&config, state, res(true, "origin\n"));
    let (_, action) = step(&config, state, res(false, ""));
    assert_eq!(
        action,
        Action::Exit { code: 1, notice: Some(Notice::FetchFailed) }
    );
}

#[test]
fn pull_failure_exits_one() {
    let config = cfg(true, "");
    let (state, _) = start();
    let (state, _) = step(&config, state, res(true, ""));
    let (state, _) = step(&config, state, res(true, "12 objects, 48 kilobytes\n"));
    let (state, _) = step(&config, state, res(true, " M a\n"));
    let (state, _) = step(&config, state, res(true, "origin\n"));
    let (state, _) = step(&config, state, res(true, ""));
    let (_, action) = step(&config, state, res(false, ""));
    assert_eq!(
        action,
        Action::Exit { code: 1, notice: Some(Notice::PullFailed) }
    );
}

#[test]
fn failed_object_count_query_exits_one() {
    let config = cfg(false, "");
    let (state, _) = start();
    let (state, _) = step(&config, state, res(true, ""));
    let (state, action) = step(&config, state, res(false, "12 objects, 48 kilobytes\n"));
    assert_eq!(
        action,
        Action::Exit { code: 1, notice: Some(Notice::ObjectCountFailed) }
    );
    assert_eq!(state, State::Finished);
}

#[test]
fn failed_commit_count_query_exits_one() {
    let config = cfg(false, "");
    let (state, _) = start();
    let (state, _) = step(&config, state, res(true, ""));
    let (state, _) = step(&config, state, res(true, "12 objects, 48 kilobytes\n"));
    let (state, _) = step(&config, state, res(true, " M a\n"));
    let (state, action) = step(&config, state, res(false, "4\n"));
    assert_eq!(
        action,
        Action::Exit { code: 1, notice: Some(Notice::CommitCountFailed) }
    );
    assert_eq!(state, State::Finished);
}

#[test]
fn unreadable_object_count_exits_one() {
    let config = cfg(false, "");
    let (state, _) = start();
    let (state, _) = step(&config, state, res(true, ""));
    let (_, action) = step(&config, state, res(true, "  \n"));
    assert_eq!(
        action,
        Action::Exit { code: 1, notice: Some(Notice::ObjectCountUnreadable) }
    );
}

#[test]
fn unreadable_commit_count_exits_one() {
    let config = cfg(false, "");
    let (state, _) = start();
    let (state, _) = step(&config, state, res(true, ""));
    let (state, _) = step(&config, state, res(true, "12 objects, 48 kilobytes\n"));
    let (state, _) = step(&config, state, res(true, " M a\n"));
    let (_, action) = step(&config, state, res(true, "not a number\n"));
    assert_eq!(
        action,
        Action::Exit { code: 1, notice: Some(Notice::CommitCountUnreadable) }
    );
}

#[test]
fn overflowing_commit_count_exits_one() {
    let config = cfg(false, "");
    let (state, _) = start();
    let (state, _) = step(&config, state, res(true, ""));
    let (state, _) = step(&config, state, res(true, "12 objects, 48 kilobytes\n"));
    let (state, _) = step(&config, state, res(true, " M a\n"));
    let (_, action) = step(&config, state, res(true, "18446744073709551615\n"));
    assert_eq!(
        action,
        Action::Exit { code: 1, notice: Some(Notice::CommitCountUnreadable) }
    );
}

#[test]
fn stage_failure_exits_one() {
    let config = cfg(false, "");
    let (state, _) = start();
    let (state, _) = step(&config, state, res(true, ""));
    let (state, _) = step(&config, state, res(true, "12 objects, 48 kilobytes\n"));
    let (state, _) = step(&config, state, res(true, " M a\n"));
    let (state, _) = step(&config, state, res(true, "4\n"));
    let (_, action) = step(&config, state, res(false, ""));
    assert_eq!(
        action,
        Action::Exit { code: 1, notice: Some(Notice::StageFailed) }
    );
}

#[test]
fn commit_failure_exits_one() {
    let config = cfg(false, "");
    let (state, _) = start();
    let (state, _) = step(&config, state, res(true, ""));
    let (state, _) = step(&config, state, res(true, "12 objects, 48 kilobytes\n"));
    let (state, _) = step(&config, state, res(true, " M a\n"));
    let (state, _) = step(&config, state, res(true, "4\n"));
    let (state, _) = step(&config, state, res(true, ""));
    let (_, action) = step(&config, state, res(false, ""));
    assert_eq!(
        action,
        Action::Exit { code: 1, notice: Some(Notice::CommitFailed) }
    );
}

#[test]
fn finished_state_stays_finished() {
    let config = cfg(false, "");
    let (state, action) = step(&config, State::Finished, res(true, "anything"));
    assert_eq!(state, State::Finished);
    assert_eq!(action, Action::Exit { code: 0, notice: None });
}
