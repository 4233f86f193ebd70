//! The invariants of the orchestrator, proved once and for all.
//!
//! Every mutation the core commits is one of three shapes: starting the
//! first pending environment ([`crate::processor::started_env`] at the first
//! active index), applying an observation to the environment underway
//! ([`crate::processor::observed_env`] there), or finishing a workflow whose
//! environments are all terminal.  The lemmas here say what any such step
//! preserves — the environment names, the in-order progression, terminal
//! environments, well-formedness, the agreement between workflow status and
//! environment statuses — and that of two conditional store commits racing
//! from one snapshot only one can succeed.

use crate::processor::{observed_env, spec_completion_status, started_env};
use crate::store::{can_commit, commit_guard, key_eq, unique_keys};
use crate::workflow::{
    all_success, all_terminal, env_names, env_wf, envs_in_order, first_active, has_failure,
    same_metadata, status_consistent, wf, Environment, EnvironmentStatus, Status, Workflow,
};
use vstd::prelude::*;

verus! {

/// Replacing one environment by one with the same name leaves the sequence
/// of environment names as it was.  Both step shapes replace the active
/// environment by `started_env` or `observed_env` of itself, and those keep
/// the name, so no step changes the names of a workflow.
pub proof fn lemma_update_preserves_names(envs: Seq<Environment>, i: int, e2: Environment)
    requires
        0 <= i < envs.len(),
        e2.name@ == envs[i].name@,
    ensures
        env_names(envs.update(i, e2)) == env_names(envs),
{
    assert(env_names(envs.update(i, e2)) =~= env_names(envs));
}

/// A terminal environment is never the active one, so no step touches it:
/// once an environment is `Success` or `Failure` it stays exactly as it is.
pub proof fn lemma_terminal_environment_stable(
    envs: Seq<Environment>,
    i: int,
    j: int,
    e2: Environment,
)
    requires
        first_active(envs, i),
        0 <= j < envs.len(),
        envs[j].status.spec_is_terminal(),
    ensures
        envs.update(i, e2)[j] == envs[j],
{
}

/// Past the first active environment everything is still `Pending`: were
/// some later environment further along, in-order progression would make
/// the active one terminal.
pub proof fn lemma_later_envs_pending(envs: Seq<Environment>, i: int)
    requires
        envs_in_order(envs),
        first_active(envs, i),
    ensures
        forall|k: int| i < k < envs.len()
            ==> (#[trigger] envs[k]).status == EnvironmentStatus::Pending,
{
    assert forall|k: int| i < k < envs.len()
        implies (#[trigger] envs[k]).status == EnvironmentStatus::Pending by {
        if envs[k].status != EnvironmentStatus::Pending {
            assert(envs[i].status.spec_is_terminal());
        }
    }
}

/// Starting the first pending environment keeps the environments in order.
pub proof fn lemma_start_preserves_order(envs: Seq<Environment>, i: int, id: u64, now: i64)
    requires
        envs_in_order(envs),
        first_active(envs, i),
        envs[i].status == EnvironmentStatus::Pending,
    ensures
        envs_in_order(envs.update(i, started_env(envs[i], id, now))),
{
    lemma_later_envs_pending(envs, i);
    let envs2 = envs.update(i, started_env(envs[i], id, now));
    assert forall|a: int, b: int|
        0 <= b < a < envs2.len() && (#[trigger] envs2[a]).status != EnvironmentStatus::Pending
        implies (#[trigger] envs2[b]).status.spec_is_terminal() by {
        assert(a <= i);
    }
}

/// Observing the environment underway keeps the environments in order.
pub proof fn lemma_observe_preserves_order(
    envs: Seq<Environment>,
    i: int,
    obs: EnvironmentStatus,
    now: i64,
)
    requires
        envs_in_order(envs),
        first_active(envs, i),
        obs != EnvironmentStatus::Pending,
    ensures
        envs_in_order(envs.update(i, observed_env(envs[i], obs, now))),
{
    lemma_later_envs_pending(envs, i);
    let envs2 = envs.update(i, observed_env(envs[i], obs, now));
    assert forall|a: int, b: int|
        0 <= b < a < envs2.len() && (#[trigger] envs2[a]).status != EnvironmentStatus::Pending
        implies (#[trigger] envs2[b]).status.spec_is_terminal() by {
        assert(a <= i);
    }
}

/// A start step keeps the workflow well-formed.
pub proof fn lemma_start_preserves_wf(w: Workflow, r: Workflow, i: int, id: u64, now: i64)
    requires
        wf(w),
        first_active(w.environments@, i),
        w.environments@[i].status == EnvironmentStatus::Pending,
        r.environments@ == w.environments@.update(i, started_env(w.environments@[i], id, now)),
    ensures
        wf(r),
        env_names(r.environments@) == env_names(w.environments@),
{
    lemma_update_preserves_names(
        w.environments@,
        i,
        started_env(w.environments@[i], id, now),
    );
    lemma_start_preserves_order(w.environments@, i, id, now);
    assert(env_wf(started_env(w.environments@[i], id, now)));
}

/// An observation step keeps the workflow well-formed, provided the clock
/// did not run backwards past the environment's start.
pub proof fn lemma_observe_preserves_wf(
    w: Workflow,
    r: Workflow,
    i: int,
    obs: EnvironmentStatus,
    now: i64,
)
    requires
        wf(w),
        first_active(w.environments@, i),
        w.environments@[i].status == EnvironmentStatus::Running
            || w.environments@[i].status == EnvironmentStatus::Queued,
        obs != EnvironmentStatus::Pending,
        w.environments@[i].started_at matches Some(s) ==> s <= now,
        r.environments@ == w.environments@.update(i, observed_env(w.environments@[i], obs, now)),
    ensures
        wf(r),
        env_names(r.environments@) == env_names(w.environments@),
{
    lemma_update_preserves_names(
        w.environments@,
        i,
        observed_env(w.environments@[i], obs, now),
    );
    lemma_observe_preserves_order(w.environments@, i, obs, now);
    assert(env_wf(observed_env(w.environments@[i], obs, now)));
}

/// A start step commits a workflow whose status still agrees with its
/// environments: the started environment is neither a success nor a
/// failure, and the workflow stays `Running`.
pub proof fn lemma_start_keeps_consistency(w: Workflow, r: Workflow, i: int, id: u64, now: i64)
    requires
        status_consistent(w),
        w.status == Status::Running,
        first_active(w.environments@, i),
        w.environments@[i].status == EnvironmentStatus::Pending,
        r.environments@ == w.environments@.update(i, started_env(w.environments@[i], id, now)),
        r.status == w.status,
    ensures
        status_consistent(r),
{
    assert(!has_failure(w.environments@));
    assert(!has_failure(r.environments@));
}

/// An observation step commits a workflow whose status still agrees with
/// its environments: a failed observation fails the workflow in the same
/// commit, any other observation leaves it `Running` with no failed
/// environment.
pub proof fn lemma_observe_keeps_consistency(
    w: Workflow,
    r: Workflow,
    i: int,
    obs: EnvironmentStatus,
    now: i64,
)
    requires
        status_consistent(w),
        w.status == Status::Running,
        first_active(w.environments@, i),
        obs != EnvironmentStatus::Pending,
        r.environments@ == w.environments@.update(i, observed_env(w.environments@[i], obs, now)),
        r.status == if obs == EnvironmentStatus::Failure {
            Status::Failure
        } else {
            w.status
        },
    ensures
        status_consistent(r),
{
    assert(!has_failure(w.environments@));
    if obs == EnvironmentStatus::Failure {
        assert(r.environments@[i].status == EnvironmentStatus::Failure);
        assert(has_failure(r.environments@));
    } else {
        assert forall|k: int| 0 <= k < r.environments@.len()
            implies (#[trigger] r.environments@[k]).status != EnvironmentStatus::Failure by {
            if k != i {
                assert(r.environments@[k] == w.environments@[k]);
            }
        }
    }
}

/// A running, consistent workflow whose environments are all terminal holds
/// no failure, hence only successes: finishing it marks it `Success`, and a
/// workflow is marked `Success` exactly when every environment succeeded.
pub proof fn lemma_completion_consistent(w: Workflow, r: Workflow)
    requires
        status_consistent(w),
        w.status == Status::Running,
        all_terminal(w.environments@),
        r.environments@ == w.environments@,
        r.status == spec_completion_status(w.environments@),
    ensures
        all_success(w.environments@),
        r.status == Status::Success,
        status_consistent(r),
{
    assert(!has_failure(w.environments@));
    assert forall|k: int| 0 <= k < w.environments@.len()
        implies (#[trigger] w.environments@[k]).status == EnvironmentStatus::Success by {
        if w.environments@[k].status == EnvironmentStatus::Failure {
            assert(has_failure(w.environments@));
        }
    }
    if w.environments@.len() > 0 {
        assert(w.environments@.last().status == EnvironmentStatus::Success);
        assert(spec_completion_status(w.environments@) == Status::Success);
    }
}

/// Every commit preserves the primary key: the identity of a row — its id
/// and creation instant — is immutable.  Every store mutation and every
/// machine step promises `same_metadata`, of which this is a corollary.
pub proof fn lemma_identity_immutable(a: Workflow, b: Workflow)
    requires
        same_metadata(a, b),
    ensures
        b.id == a.id,
        b.created_at == a.created_at,
{
}

/// Of two conditional updates racing from the same snapshot `base`, only
/// one commits.  After the first commit rewrote the row's `updated_at`, no
/// stored row satisfies `base`'s commit guard any more, so the second
/// update reports `ConditionalCheckFailed` and changes nothing.
pub proof fn lemma_conditional_updates_exclude(
    rows0: Seq<Workflow>,
    rows1: Seq<Workflow>,
    base: Workflow,
    k: int,
    now: i64,
)
    requires
        unique_keys(rows0),
        0 <= k < rows0.len(),
        commit_guard(rows0[k], base),
        rows1 == rows0.update(k, rows1[k]),
        key_eq(rows1[k], rows0[k]),
        rows1[k].updated_at == Some(now),
        base.updated_at != Some(now),
    ensures
        !can_commit(rows1, base),
{
    assert forall|j: int| 0 <= j < rows1.len()
        implies !commit_guard(#[trigger] rows1[j], base) by {
        if j == k {
            assert(rows1[j].updated_at != base.updated_at);
        } else {
            assert(rows1[j] == rows0[j]);
            if commit_guard(rows0[j], base) {
                assert(key_eq(rows0[j], base) && key_eq(rows0[k], base));
                if j < k {
                    assert(!key_eq(rows0[j], rows0[k]));
                } else {
                    assert(!key_eq(rows0[k], rows0[j]));
                }
            }
        }
    }
}

} // verus!
