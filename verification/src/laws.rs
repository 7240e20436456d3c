//! Run-level guarantees of the engine.  A whole run is modelled as the
//! engine's transition relation folded over the sequence of captured command
//! results, and the laws below pin down how such a run terminates and which
//! operations it asks for on the paths that matter: an invalid repository, an
//! empty history, a clean tree, a numbered commit, and a missing remote.

use vstd::prelude::*;
use crate::command::{OpModel, ResultModel};
use crate::compose::{composed, separator};
use crate::counter::count_of;
use crate::engine::{initial_message, next_of, ActionModel, ConfigModel, Notice, StateModel};
use crate::probe::zero_token;
use crate::remote::has_origin;
use crate::text::{dec_str, first_token};

verus! {

/// What one run did: the operations it asked for, in order, and how it
/// terminated — `None` when the supplied results ran out before the engine
/// terminated.
pub struct RunTrace {
    pub ops: Seq<OpModel>,
    pub outcome: Option<(u8, Option<Notice>)>,
}

/// Whether an operation can change the repository, its remotes, or the
/// working tree.  The probes and counts are read-only.
pub open spec fn is_mutating(op: OpModel) -> bool {
    match op {
        OpModel::Fetch => true,
        OpModel::Pull => true,
        OpModel::StageAll => true,
        OpModel::Commit { .. } => true,
        _ => false,
    }
}

/// The run continued from `state`, feeding the engine `results[k]` as the
/// captured result of the `k`-th command it asks for from there.
pub open spec fn run_from(
    cfg: ConfigModel,
    state: StateModel,
    results: Seq<ResultModel>,
) -> RunTrace
    decreases results.len(),
{
    if results.len() == 0 {
        RunTrace { ops: seq![], outcome: None }
    } else {
        let stepped = next_of(cfg, state, results[0]);
        match stepped.1 {
            ActionModel::Exit { code, notice } => RunTrace {
                ops: seq![],
                outcome: Some((code, notice)),
            },
            ActionModel::Run { op } => {
                let rest = run_from(cfg, stepped.0, results.drop_first());
                RunTrace { ops: seq![op] + rest.ops, outcome: rest.outcome }
            },
        }
    }
}

/// A whole run begun with `start()`: the validity check is asked for first,
/// and `results[k]` answers the `k`-th command issued.
pub open spec fn run(cfg: ConfigModel, results: Seq<ResultModel>) -> RunTrace {
    let t = run_from(cfg, StateModel::AwaitValidate, results);
    RunTrace { ops: seq![OpModel::CheckRepo] + t.ops, outcome: t.outcome }
}

/// When the current directory is not a valid repository, the run terminates
/// at once with exit code 1 and the not-a-repository notice, and asks for no
/// mutating operation.
pub proof fn lemma_invalid_repository(cfg: ConfigModel, results: Seq<ResultModel>)
    requires
        results.len() >= 1,
        !results[0].success,
    ensures
        run(cfg, results).outcome == Some((1u8, Some(Notice::NotARepository))),
        run(cfg, results).ops == seq![OpModel::CheckRepo],
        forall|k: int|
            0 <= k < run(cfg, results).ops.len() ==> !is_mutating(
                #[trigger] run(cfg, results).ops[k],
            ),
{
    let tr = run(cfg, results);
    assert(tr.ops =~= seq![OpModel::CheckRepo]);
    assert forall|k: int| 0 <= k < tr.ops.len() implies !is_mutating(tr.ops[k]) by {
        assert(tr.ops[k] == OpModel::CheckRepo);
    }
}

/// With an empty history, the run stages all changes and commits with the
/// message exactly `"1"` — whatever suffix the configuration holds — and,
/// both of those succeeding, terminates with exit code 0.
pub proof fn lemma_empty_history_initial_commit(cfg: ConfigModel, results: Seq<ResultModel>)
    requires
        results.len() >= 4,
        results[0].success,
        results[1].success,
        first_token(results[1].stdout) == zero_token(),
        results[2].success,
        results[3].success,
    ensures
        run(cfg, results).outcome == Some((0u8, Option::<Notice>::None)),
        run(cfg, results).ops == seq![
            OpModel::CheckRepo,
            OpModel::CountObjects,
            OpModel::StageAll,
            OpModel::Commit { message: initial_message() },
        ],
{
    let r1 = results.drop_first();
    let r2 = r1.drop_first();
    let r3 = r2.drop_first();
    assert(r1[0] == results[1]);
    assert(r2[0] == results[2]);
    assert(r3[0] == results[3]);
    assert(first_token(results[1].stdout).len() == 1);
    let t3 = run_from(cfg, StateModel::AwaitCommit, r3);
    assert(t3.outcome == Some((0u8, Option::<Notice>::None)));
    let t2 = run_from(cfg, StateModel::AwaitStage { message: initial_message() }, r2);
    assert(t2 == RunTrace {
        ops: seq![OpModel::Commit { message: initial_message() }] + t3.ops,
        outcome: t3.outcome,
    });
    let t1 = run_from(cfg, StateModel::AwaitEmpty, r1);
    let t0 = run_from(cfg, StateModel::AwaitValidate, results);
    assert(run(cfg, results).ops =~= seq![
        OpModel::CheckRepo,
        OpModel::CountObjects,
        OpModel::StageAll,
        OpModel::Commit { message: initial_message() },
    ]);
}

/// With a non-empty history and a clean working tree, the run neither stages
/// nor commits anything: it terminates with exit code 0 and the clean-tree
/// notice, having asked only for the read-only probes.
pub proof fn lemma_clean_tree_no_commit(cfg: ConfigModel, results: Seq<ResultModel>)
    requires
        results.len() >= 3,
        results[0].success,
        results[1].success,
        first_token(results[1].stdout).len() > 0,
        first_token(results[1].stdout) != zero_token(),
        results[2].success,
        results[2].stdout.len() == 0,
    ensures
        run(cfg, results).outcome == Some((0u8, Some(Notice::CleanTree))),
        run(cfg, results).ops == seq![OpModel::CheckRepo, OpModel::CountObjects, OpModel::Status],
        forall|k: int|
            0 <= k < run(cfg, results).ops.len() ==> !is_mutating(
                #[trigger] run(cfg, results).ops[k],
            ),
{
    let r1 = results.drop_first();
    let r2 = r1.drop_first();
    assert(r1[0] == results[1]);
    assert(r2[0] == results[2]);
    let t2 = run_from(cfg, StateModel::AwaitClean, r2);
    assert(t2.outcome == Some((0u8, Some(Notice::CleanTree))));
    let t1 = run_from(cfg, StateModel::AwaitEmpty, r1);
    let t0 = run_from(cfg, StateModel::AwaitValidate, results);
    let tr = run(cfg, results);
    assert(tr.ops =~= seq![OpModel::CheckRepo, OpModel::CountObjects, OpModel::Status]);
    assert forall|k: int| 0 <= k < tr.ops.len() implies !is_mutating(tr.ops[k]) by {
        assert(tr.ops == seq![OpModel::CheckRepo, OpModel::CountObjects, OpModel::Status]);
    }
}

/// With `count` reachable commits and a dirty working tree (remote
/// synchronization off), the run stages everything and commits with the
/// message composed from the next identifier `count + 1`: the decimal
/// notation of `count + 1` alone when the configured suffix is empty, and
/// `"<count + 1> - <suffix>"` otherwise.
pub proof fn lemma_numbered_commit_message(
    cfg: ConfigModel,
    results: Seq<ResultModel>,
    count: nat,
)
    requires
        !cfg.check_remote,
        results.len() >= 6,
        results[0].success,
        results[1].success,
        first_token(results[1].stdout).len() > 0,
        first_token(results[1].stdout) != zero_token(),
        results[2].success,
        results[2].stdout.len() > 0,
        results[3].success,
        count_of(results[3].stdout) == Some(count),
        results[4].success,
        results[5].success,
    ensures
        run(cfg, results).outcome == Some((0u8, Option::<Notice>::None)),
        run(cfg, results).ops == seq![
            OpModel::CheckRepo,
            OpModel::CountObjects,
            OpModel::Status,
            OpModel::CountCommits,
            OpModel::StageAll,
            OpModel::Commit { message: composed(count + 1, cfg.suffix) },
        ],
        cfg.suffix.len() == 0 ==> composed(count + 1, cfg.suffix) == dec_str(count + 1),
        cfg.suffix.len() > 0 ==> composed(count + 1, cfg.suffix) == dec_str(count + 1)
            + separator() + cfg.suffix,
{
    let r1 = results.drop_first();
    let r2 = r1.drop_first();
    let r3 = r2.drop_first();
    let r4 = r3.drop_first();
    let r5 = r4.drop_first();
    assert(r1[0] == results[1]);
    assert(r2[0] == results[2]);
    assert(r3[0] == results[3]);
    assert(r4[0] == results[4]);
    assert(r5[0] == results[5]);
    let message = composed(count + 1, cfg.suffix);
    let t5 = run_from(cfg, StateModel::AwaitCommit, r5);
    assert(t5.outcome == Some((0u8, Option::<Notice>::None)));
    let t4 = run_from(cfg, StateModel::AwaitStage { message }, r4);
    assert(t4 == RunTrace {
        ops: seq![OpModel::Commit { message }] + t5.ops,
        outcome: t5.outcome,
    });
    let t3 = run_from(cfg, StateModel::AwaitCount, r3);
    let t2 = run_from(cfg, StateModel::AwaitClean, r2);
    let t1 = run_from(cfg, StateModel::AwaitEmpty, r1);
    let t0 = run_from(cfg, StateModel::AwaitValidate, results);
    assert(run(cfg, results).ops =~= seq![
        OpModel::CheckRepo,
        OpModel::CountObjects,
        OpModel::Status,
        OpModel::CountCommits,
        OpModel::StageAll,
        OpModel::Commit { message },
    ]);
}

/// Idempotence of the clean-check path: invoked twice over an unchanged
/// clean tree — so that both runs see a valid repository, a non-empty
/// history, and an empty status — both runs terminate with exit code 0 and
/// neither asks for any mutating operation.
pub proof fn lemma_clean_check_idempotent(
    cfg: ConfigModel,
    first_results: Seq<ResultModel>,
    second_results: Seq<ResultModel>,
)
    requires
        first_results.len() >= 3,
        first_results[0].success,
        first_results[1].success,
        first_token(first_results[1].stdout).len() > 0,
        first_token(first_results[1].stdout) != zero_token(),
        first_results[2].success,
        first_results[2].stdout.len() == 0,
        second_results.len() >= 3,
        second_results[0].success,
        second_results[1].success,
        first_token(second_results[1].stdout).len() > 0,
        first_token(second_results[1].stdout) != zero_token(),
        second_results[2].success,
        second_results[2].stdout.len() == 0,
    ensures
        run(cfg, first_results).outcome == Some((0u8, Some(Notice::CleanTree))),
        run(cfg, second_results).outcome == Some((0u8, Some(Notice::CleanTree))),
        forall|k: int|
            0 <= k < run(cfg, first_results).ops.len() ==> !is_mutating(
                #[trigger] run(cfg, first_results).ops[k],
            ),
        forall|k: int|
            0 <= k < run(cfg, second_results).ops.len() ==> !is_mutating(
                #[trigger] run(cfg, second_results).ops[k],
            ),
{
    lemma_clean_tree_no_commit(cfg, first_results);
    lemma_clean_tree_no_commit(cfg, second_results);
}

/// With remote synchronization enabled and no remote named `origin`, the run
/// terminates with exit code 1 before asking for any staging, commit, fetch
/// or pull.
pub proof fn lemma_no_origin_aborts(cfg: ConfigModel, results: Seq<ResultModel>)
    requires
        cfg.check_remote,
        results.len() >= 4,
        results[0].success,
        results[1].success,
        first_token(results[1].stdout).len() > 0,
        first_token(results[1].stdout) != zero_token(),
        results[2].success,
        results[2].stdout.len() > 0,
        results[3].success,
        !has_origin(results[3].stdout),
    ensures
        run(cfg, results).outcome == Some((1u8, Some(Notice::NoOriginRemote))),
        run(cfg, results).ops == seq![
            OpModel::CheckRepo,
            OpModel::CountObjects,
            OpModel::Status,
            OpModel::ListRemotes,
        ],
        forall|k: int|
            0 <= k < run(cfg, results).ops.len() ==> !is_mutating(
                #[trigger] run(cfg, results).ops[k],
            ),
{
    let r1 = results.drop_first();
    let r2 = r1.drop_first();
    let r3 = r2.drop_first();
    assert(r1[0] == results[1]);
    assert(r2[0] == results[2]);
    assert(r3[0] == results[3]);
    let t3 = run_from(cfg, StateModel::AwaitRemotes, r3);
    assert(t3.outcome == Some((1u8, Some(Notice::NoOriginRemote))));
    let t2 = run_from(cfg, StateModel::AwaitClean, r2);
    let t1 = run_from(cfg, StateModel::AwaitEmpty, r1);
    let t0 = run_from(cfg, StateModel::AwaitValidate, results);
    let tr = run(cfg, results);
    assert(tr.ops =~= seq![
        OpModel::CheckRepo,
        OpModel::CountObjects,
        OpModel::Status,
        OpModel::ListRemotes,
    ]);
    assert forall|k: int| 0 <= k < tr.ops.len() implies !is_mutating(tr.ops[k]) by {
        assert(tr.ops == seq![
            OpModel::CheckRepo,
            OpModel::CountObjects,
            OpModel::Status,
            OpModel::ListRemotes,
        ]);
    }
}

} // verus!
