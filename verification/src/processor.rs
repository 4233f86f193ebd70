//! The pure state machine of one processing tick.
//!
//! For one workflow the tick first decides a [`Plan`]: finish the workflow,
//! start the first pending environment, or observe the environment already
//! running.  Starting takes the deployment identifier the CI provider
//! answered with; observing takes the CI runs fetched for the commit and
//! collapses them to a single status.  Everything here is a function of its
//! arguments — the caller performs the remote calls and commits the result
//! through the store.

use crate::github;
use crate::workflow::{
    all_terminal, first_active, same_metadata, Environment, EnvironmentStatus, Status, Workflow,
    MAX_TIMESTAMP_SECS,
};
use vstd::pervasive::VecAdditionalExecFns;
use vstd::prelude::*;

verus! {

/// Wait, in seconds, before an environment whose commit shows no CI runs at
/// all counts as vacuously succeeded.
pub const EMPTY_RUN_TIMEOUT_SECS: i64 = 300;

/// Severity of an environment status, for collapsing observations: the
/// smaller, the worse.  `Failure < Pending < Running < Success < Queued`.
pub open spec fn spec_severity(s: EnvironmentStatus) -> int {
    match s {
        EnvironmentStatus::Failure => 0,
        EnvironmentStatus::Pending => 1,
        EnvironmentStatus::Running => 2,
        EnvironmentStatus::Success => 3,
        EnvironmentStatus::Queued => 4,
    }
}

pub fn severity(s: EnvironmentStatus) -> (r: u8)
    ensures
        r as int == spec_severity(s),
{
    match s {
        EnvironmentStatus::Failure => 0,
        EnvironmentStatus::Pending => 1,
        EnvironmentStatus::Running => 2,
        EnvironmentStatus::Success => 3,
        EnvironmentStatus::Queued => 4,
    }
}

/// The worse of two statuses.
pub open spec fn min_status(a: EnvironmentStatus, b: EnvironmentStatus) -> EnvironmentStatus {
    if spec_severity(b) < spec_severity(a) {
        b
    } else {
        a
    }
}

/// The worst status among a sequence of observations; `Running` when there
/// is nothing to observe.
pub open spec fn aggregate(ss: Seq<EnvironmentStatus>) -> EnvironmentStatus
    decreases ss.len(),
{
    if ss.len() == 0 {
        EnvironmentStatus::Running
    } else if ss.len() == 1 {
        ss[0]
    } else {
        min_status(aggregate(ss.drop_last()), ss.last())
    }
}

/// The environment statuses that a list of CI runs maps to.
pub open spec fn run_statuses(runs: Seq<github::Workflow>) -> Seq<EnvironmentStatus> {
    runs.map_values(|r: github::Workflow| r.status.spec_environment_status())
}

/// Collapse the CI runs observed for one commit to the single status of the
/// environment they belong to: the worst run wins, an empty list counts as
/// still running.
#[verifier::loop_isolation(false)]
pub fn overall_status(workflows: Vec<github::Workflow>) -> (r: EnvironmentStatus)
    ensures
        r == aggregate(run_statuses(workflows@)),
{
    let ghost m = run_statuses(workflows@);
    let n = workflows.len();
    if n == 0 {
        return EnvironmentStatus::Running;
    }
    let mut acc = workflows[0].status.environment_status();
    assert(m.take(1).len() == 1 && m.take(1)[0] == m[0]);
    let mut k: usize = 1;
    while k < n
        invariant
            1 <= k <= n,
            acc == aggregate(m.take(k as int)),
        decreases n - k,
    {
        let s = workflows[k].status.environment_status();
        proof {
            assert(m.take(k + 1).drop_last() =~= m.take(k as int));
            assert(m.take(k + 1).last() == m[k as int]);
        }
        if severity(s) < severity(acc) {
            acc = s;
        }
        k += 1;
    }
    proof {
        assert(m.take(n as int) =~= m);
    }
    acc
}

/// The aggregated status is the minimum of the observations under the
/// severity order: it is one of them, and no observation is worse.
pub proof fn lemma_aggregate_is_minimum(ss: Seq<EnvironmentStatus>)
    requires
        ss.len() > 0,
    ensures
        exists|i: int| 0 <= i < ss.len() && aggregate(ss) == #[trigger] ss[i],
        forall|k: int| 0 <= k < ss.len()
            ==> spec_severity(aggregate(ss)) <= spec_severity(#[trigger] ss[k]),
    decreases ss.len(),
{
    if ss.len() == 1 {
        assert(aggregate(ss) == ss[0]);
    } else {
        lemma_aggregate_is_minimum(ss.drop_last());
        let rest = ss.drop_last();
        assert(forall|k: int| 0 <= k < rest.len() ==> rest[k] == #[trigger] ss[k]);
        if spec_severity(ss.last()) < spec_severity(aggregate(rest)) {
            assert(aggregate(ss) == ss[ss.len() - 1]);
        } else {
            let i = choose|i: int| 0 <= i < rest.len() && aggregate(rest) == #[trigger] rest[i];
            assert(aggregate(ss) == ss[i]);
        }
    }
}

/// An aggregate over statuses that are never `Pending` is itself never
/// `Pending`: the CI mapping produces no `Pending`, so no observation does.
pub proof fn lemma_aggregate_not_pending(ss: Seq<EnvironmentStatus>)
    requires
        forall|k: int| 0 <= k < ss.len() ==> #[trigger] ss[k] != EnvironmentStatus::Pending,
    ensures
        aggregate(ss) != EnvironmentStatus::Pending,
{
    if ss.len() > 0 {
        lemma_aggregate_is_minimum(ss);
    }
}

/// What one tick decides to do with a workflow.
#[derive(Clone, Copy, Debug, PartialEq, Eq, Structural)]
pub enum Plan {
    /// Every environment is terminal: mark the workflow done with this
    /// final status.
    Done(Status),
    /// The environment at this index is pending: create a deployment for it
    /// and start it.
    Start(usize),
    /// The environment at this index is underway: observe its CI runs.
    Observe(usize),
}

/// The final status of a finished workflow: the status of the last terminal
/// environment, or `Success` when no environment is terminal.
pub open spec fn spec_completion_status(envs: Seq<Environment>) -> Status
    decreases envs.len(),
{
    if envs.len() == 0 {
        Status::Success
    } else if envs.last().status.spec_is_terminal() {
        envs.last().status.spec_workflow_status()
    } else {
        spec_completion_status(envs.drop_last())
    }
}

/// `p` is the one plan that fits `w`.
pub open spec fn plan_matches(w: Workflow, p: Plan) -> bool {
    match p {
        Plan::Done(s) => all_terminal(w.environments@)
            && s == spec_completion_status(w.environments@),
        Plan::Start(i) => first_active(w.environments@, i as int)
            && w.environments@[i as int].status == EnvironmentStatus::Pending,
        Plan::Observe(i) => first_active(w.environments@, i as int)
            && (w.environments@[i as int].status == EnvironmentStatus::Running
                || w.environments@[i as int].status == EnvironmentStatus::Queued),
    }
}

impl Workflow {
    /// The final status of this workflow once every environment is
    /// terminal.
    #[verifier::loop_isolation(false)]
    pub fn completion_status(&self) -> (r: Status)
        ensures
            r == spec_completion_status(self.environments@),
    {
        let ghost envs = self.environments@;
        let mut k: usize = self.environments.len();
        proof {
            assert(envs.take(k as int) =~= envs);
        }
        while k > 0
            invariant
                k <= envs.len(),
                spec_completion_status(envs) == spec_completion_status(envs.take(k as int)),
            decreases k,
        {
            proof {
                assert(envs.take(k as int).last() == envs[k - 1]);
                assert(envs.take(k as int).drop_last() =~= envs.take(k - 1));
            }
            let e = &self.environments[k - 1];
            if e.status.is_terminal() {
                return e.status.workflow_status();
            }
            k -= 1;
        }
        Status::Success
    }

    /// Decide what this tick does with the workflow.
    pub fn plan(&self) -> (p: Plan)
        ensures
            plan_matches(*self, p),
    {
        match self.next_environment() {
            None => Plan::Done(self.completion_status()),
            Some((i, e)) => {
                match e.status {
                    EnvironmentStatus::Pending => Plan::Start(i),
                    _ => Plan::Observe(i),
                }
            },
        }
    }
}

/// The environment as it looks right after its deployment was created:
/// running, started now, bound to the deployment.
pub open spec fn started_env(e: Environment, deployment_id: u64, now: i64) -> Environment {
    Environment {
        status: EnvironmentStatus::Running,
        started_at: Some(now),
        deployment_id: Some(deployment_id),
        ..e
    }
}

/// Start the pending environment at index `i`: it becomes `Running`,
/// records `now` as its start and keeps the deployment the CI provider just
/// created.  Nothing else of the workflow changes; in particular the due
/// time stays, so the next tick observes the running environment.
pub fn start_environment(w: &Workflow, i: usize, deployment_id: u64, now: i64) -> (r: Workflow)
    requires
        first_active(w.environments@, i as int),
        w.environments@[i as int].status == EnvironmentStatus::Pending,
    ensures
        same_metadata(*w, r),
        r.status == w.status,
        r.updated_at == w.updated_at,
        r.due_to_run == w.due_to_run,
        r.environments@ == w.environments@.update(
            i as int,
            started_env(w.environments@[i as int], deployment_id, now),
        ),
{
    let mut r = w.clone();
    let e = &w.environments[i];
    let updated = Environment {
        name: e.name.clone(),
        status: EnvironmentStatus::Running,
        started_at: Some(now),
        finished_at: e.finished_at,
        deployment_id: Some(deployment_id),
    };
    proof {
        assert(updated == started_env(w.environments@[i as int], deployment_id, now));
    }
    r.environments.set(i, updated);
    proof {
        assert(r.environments@ =~= w.environments@.update(
            i as int,
            started_env(w.environments@[i as int], deployment_id, now),
        ));
    }
    r
}

/// The environment as it looks after an observation: it carries the
/// observed status, and a terminal observation stamps the finish time.
pub open spec fn observed_env(e: Environment, obs: EnvironmentStatus, now: i64) -> Environment {
    Environment {
        status: obs,
        finished_at: if obs.spec_is_terminal() {
            Some(now)
        } else {
            e.finished_at
        },
        ..e
    }
}

/// When the workflow runs next: a terminal observation pushes it one
/// stability period ahead, anything else leaves the due time alone.
pub open spec fn next_due(w: Workflow, obs: EnvironmentStatus, now: i64) -> int {
    if obs.spec_is_terminal() {
        now + 60 * w.stability_period_minutes
    } else {
        w.due_to_run as int
    }
}

/// Apply an observed status to the environment at index `i`.  The
/// observation must be one of the four statuses an observation can collapse
/// to — never `Pending`.
pub fn apply_observation(w: &Workflow, i: usize, obs: EnvironmentStatus, now: i64) -> (r: Workflow)
    requires
        first_active(w.environments@, i as int),
        w.environments@[i as int].status == EnvironmentStatus::Running
            || w.environments@[i as int].status == EnvironmentStatus::Queued,
        obs != EnvironmentStatus::Pending,
        0 <= now,
        now + 60 * (w.stability_period_minutes as int) <= i64::MAX,
    ensures
        same_metadata(*w, r),
        r.status == w.status,
        r.updated_at == w.updated_at,
        r.environments@ == w.environments@.update(
            i as int,
            observed_env(w.environments@[i as int], obs, now),
        ),
        r.due_to_run == next_due(*w, obs, now),
{
    let mut r = w.clone();
    let e = &w.environments[i];
    let terminal = obs.is_terminal();
    let updated = Environment {
        name: e.name.clone(),
        status: obs,
        started_at: e.started_at,
        finished_at: if terminal {
            Some(now)
        } else {
            e.finished_at
        },
        deployment_id: e.deployment_id,
    };
    proof {
        assert(updated == observed_env(w.environments@[i as int], obs, now));
    }
    r.environments.set(i, updated);
    if terminal {
        r.due_to_run = now + 60 * (w.stability_period_minutes as i64);
    }
    proof {
        assert(r.environments@ =~= w.environments@.update(
            i as int,
            observed_env(w.environments@[i as int], obs, now),
        ));
    }
    r
}

/// The status one observation of the CI provider settles on: the worst of
/// the runs' statuses, except that a commit which shows no runs at all for
/// longer than the empty-run timeout counts as vacuously succeeded.
pub open spec fn spec_observed_status(
    runs: Seq<github::Workflow>,
    started_at: Option<i64>,
    now: i64,
) -> EnvironmentStatus {
    if runs.len() == 0 && (match started_at {
        Some(s) => now > s + EMPTY_RUN_TIMEOUT_SECS,
        None => false,
    }) {
        EnvironmentStatus::Success
    } else {
        aggregate(run_statuses(runs))
    }
}

/// One observation tick for the environment at index `i`: collapse the CI
/// runs fetched for the commit, apply the outcome, and hand the outcome
/// back so the caller can push it to the CI provider and pick the store
/// mutation — `fail_environment` on `Failure`, `advance_environment`
/// otherwise.
pub fn observe_environment(
    w: &Workflow,
    i: usize,
    runs: Vec<github::Workflow>,
    now: i64,
) -> (r: (Workflow, EnvironmentStatus))
    requires
        first_active(w.environments@, i as int),
        w.environments@[i as int].status == EnvironmentStatus::Running
            || w.environments@[i as int].status == EnvironmentStatus::Queued,
        w.environments@[i as int].started_at matches Some(s) ==> 0 <= s < MAX_TIMESTAMP_SECS,
        0 <= now,
        now + 60 * (w.stability_period_minutes as int) <= i64::MAX,
    ensures
        ({
            let obs = spec_observed_status(runs@, w.environments@[i as int].started_at, now);
            &&& r.1 == obs
            &&& obs != EnvironmentStatus::Pending
            &&& same_metadata(*w, r.0)
            &&& r.0.status == w.status
            &&& r.0.updated_at == w.updated_at
            &&& r.0.environments@ == w.environments@.update(
                i as int,
                observed_env(w.environments@[i as int], obs, now),
            )
            &&& r.0.due_to_run == next_due(*w, obs, now)
        }),
{
    let vacuous = if runs.len() == 0 {
        match w.environments[i].started_at {
            Some(s) => now > s + EMPTY_RUN_TIMEOUT_SECS,
            None => false,
        }
    } else {
        false
    };
    let obs = if vacuous {
        EnvironmentStatus::Success
    } else {
        let o = overall_status(runs);
        proof {
            assert(forall|k: int| 0 <= k < run_statuses(runs@).len()
                ==> #[trigger] run_statuses(runs@)[k] != EnvironmentStatus::Pending);
            lemma_aggregate_not_pending(run_statuses(runs@));
        }
        o
    };
    let next = apply_observation(w, i, obs, now);
    (next, obs)
}

} // verus!
