//! Data model of one rollout: a workflow and its ordered environments.
//!
//! Timestamps are Unix seconds (UTC); the store renders them as RFC 3339
//! strings with second precision, which `CreatedAt::to_rfc3339` produces.

use vstd::prelude::*;
use vstd::string::StringExecFns;

verus! {

/// Latest Unix second that still renders as a four-digit year
/// (midnight, January 1 of year 10000).
pub const MAX_TIMESTAMP_SECS: i64 = 253402300800;

/// Overall status of a workflow.  `Success` and `Failure` are terminal;
/// `Paused` is only ever written by an operator, never by the core.
#[derive(Clone, Copy, Debug, PartialEq, Eq, Structural)]
pub enum Status {
    Paused,
    Running,
    Success,
    Failure,
}

/// Status of one environment within a workflow.  The declaration order is
/// the severity order used when collapsing observed CI statuses: the
/// earliest variant is the worst.
#[derive(Clone, Copy, Debug, PartialEq, Eq, Structural, PartialOrd, Ord)]
pub enum EnvironmentStatus {
    Failure,
    Pending,
    Running,
    Success,
    Queued,
}

impl EnvironmentStatus {
    /// A terminal environment status never changes again.
    pub open spec fn spec_is_terminal(&self) -> bool {
        match self {
            EnvironmentStatus::Failure | EnvironmentStatus::Success => true,
            _ => false,
        }
    }

    #[verifier::when_used_as_spec(spec_is_terminal)]
    pub fn is_terminal(&self) -> (r: bool)
        ensures
            r == self.spec_is_terminal(),
    {
        match self {
            EnvironmentStatus::Failure | EnvironmentStatus::Success => true,
            _ => false,
        }
    }

    /// The workflow status implied by this environment status: a terminal
    /// environment decides the workflow, anything else keeps it running.
    pub open spec fn spec_workflow_status(self) -> Status {
        match self {
            EnvironmentStatus::Success => Status::Success,
            EnvironmentStatus::Failure => Status::Failure,
            _ => Status::Running,
        }
    }

    #[verifier::when_used_as_spec(spec_workflow_status)]
    pub fn workflow_status(self) -> (r: Status)
        ensures
            r == self.spec_workflow_status(),
    {
        match self {
            EnvironmentStatus::Success => Status::Success,
            EnvironmentStatus::Failure => Status::Failure,
            _ => Status::Running,
        }
    }
}

/// One named stage of a workflow.  `started_at` and `finished_at` are Unix
/// seconds; `deployment_id` is the CI provider's deployment identifier,
/// populated when the environment first leaves `Pending`.
#[derive(Debug, PartialEq, Eq)]
pub struct Environment {
    pub name: String,
    pub status: EnvironmentStatus,
    pub started_at: Option<i64>,
    pub finished_at: Option<i64>,
    pub deployment_id: Option<u64>,
}

impl Clone for Environment {
    fn clone(&self) -> (res: Self)
        ensures
            res == *self,
    {
        Environment {
            name: self.name.clone(),
            status: self.status,
            started_at: self.started_at,
            finished_at: self.finished_at,
            deployment_id: self.deployment_id,
        }
    }
}

/// Creation instant of a workflow, in Unix seconds.  Together with the
/// workflow id it forms the primary key of the durable store, where it is
/// rendered as an RFC 3339 string with second precision.
#[derive(Clone, Copy, Debug, PartialEq, Eq, Structural)]
pub struct CreatedAt {
    pub secs: i64,
}

/// The RFC 3339 rendering, at second precision with a `Z` suffix, of a
/// Unix-second timestamp.
pub uninterp spec fn rfc3339_of(secs: i64) -> Seq<char>;

/// Relies on chrono: `DateTime::<Utc>::from_timestamp` (total on the admitted
/// range) composed with `to_rfc3339_opts(SecondsFormat::Secs, true)`, which
/// renders `YYYY-MM-DDTHH:MM:SSZ` — 20 characters for any year from 1970
/// through 9999.
#[verifier::external_body]
fn format_rfc3339(secs: i64) -> (r: String)
    requires
        0 <= secs < MAX_TIMESTAMP_SECS,
    ensures
        r@ == rfc3339_of(secs),
        r@.len() == 20,
{
    chrono::DateTime::<chrono::Utc>::from_timestamp(secs, 0)
        .expect("timestamp in range")
        .to_rfc3339_opts(chrono::SecondsFormat::Secs, true)
}

impl CreatedAt {
    pub fn new(secs: i64) -> (r: CreatedAt)
        ensures
            r.secs == secs,
    {
        CreatedAt { secs }
    }

    /// Render the creation instant as the store's sort key.
    pub fn to_rfc3339(&self) -> (r: String)
        requires
            0 <= self.secs < MAX_TIMESTAMP_SECS,
        ensures
            r@ == rfc3339_of(self.secs),
            r@.len() == 20,
    {
        format_rfc3339(self.secs)
    }
}

/// One rollout of one commit across an ordered list of environments.
/// All timestamps are Unix seconds.
#[derive(Debug, PartialEq, Eq)]
pub struct Workflow {
    pub id: String,
    pub created_at: CreatedAt,
    pub updated_at: Option<i64>,
    pub git_ref: String,
    pub owner: String,
    pub repo: String,
    pub sha: String,
    pub stability_period_minutes: usize,
    pub environments: Vec<Environment>,
    pub status: Status,
    pub commit_message: String,
    pub due_to_run: i64,
}

/// `b` carries exactly the same record as `a`: every field agrees, with the
/// environments compared element by element.
pub open spec fn same_record(a: Workflow, b: Workflow) -> bool {
    &&& b.id == a.id
    &&& b.created_at == a.created_at
    &&& b.updated_at == a.updated_at
    &&& b.git_ref == a.git_ref
    &&& b.owner == a.owner
    &&& b.repo == a.repo
    &&& b.sha == a.sha
    &&& b.stability_period_minutes == a.stability_period_minutes
    &&& b.environments@ == a.environments@
    &&& b.status == a.status
    &&& b.commit_message == a.commit_message
    &&& b.due_to_run == a.due_to_run
}

/// `b` keeps `a`'s identity and immutable metadata; only `environments`,
/// `status`, `updated_at` and `due_to_run` may differ.
pub open spec fn same_metadata(a: Workflow, b: Workflow) -> bool {
    &&& b.id == a.id
    &&& b.created_at == a.created_at
    &&& b.git_ref == a.git_ref
    &&& b.owner == a.owner
    &&& b.repo == a.repo
    &&& b.sha == a.sha
    &&& b.stability_period_minutes == a.stability_period_minutes
    &&& b.commit_message == a.commit_message
}

impl Clone for Workflow {
    fn clone(&self) -> (res: Self)
        ensures
            same_record(*self, res),
    {
        let res = Workflow {
            id: self.id.clone(),
            created_at: self.created_at,
            updated_at: self.updated_at,
            git_ref: self.git_ref.clone(),
            owner: self.owner.clone(),
            repo: self.repo.clone(),
            sha: self.sha.clone(),
            stability_period_minutes: self.stability_period_minutes,
            environments: self.environments.clone(),
            status: self.status,
            commit_message: self.commit_message.clone(),
            due_to_run: self.due_to_run,
        };
        proof {
            assert(res.environments@ =~= self.environments@);
        }
        res
    }
}

/// The sequence of environment names of a workflow.
pub open spec fn env_names(envs: Seq<Environment>) -> Seq<Seq<char>> {
    envs.map_values(|e: Environment| e.name@)
}

/// No two environments share a name.
pub open spec fn distinct_names(names: Seq<Seq<char>>) -> bool {
    forall|i: int, j: int| 0 <= i < j < names.len() ==> names[i] != names[j]
}

/// Environments progress strictly in order: an environment that has left
/// `Pending` is preceded only by terminal environments.
pub open spec fn envs_in_order(envs: Seq<Environment>) -> bool {
    forall|i: int, j: int|
        0 <= j < i < envs.len() && (#[trigger] envs[i]).status != EnvironmentStatus::Pending
            ==> (#[trigger] envs[j]).status.spec_is_terminal()
}

/// Per-environment well-formedness: an environment that has left `Pending`
/// records when it started and which deployment it belongs to; a terminal
/// one records when it finished, no earlier than it started.
pub open spec fn env_wf(e: Environment) -> bool {
    &&& e.status == EnvironmentStatus::Pending
        ==> e.started_at is None && e.finished_at is None && e.deployment_id is None
    &&& e.status != EnvironmentStatus::Pending
        ==> e.started_at is Some && e.deployment_id is Some
    &&& e.status.spec_is_terminal() ==> e.finished_at is Some
    &&& match (e.started_at, e.finished_at) {
        (Some(s), Some(f)) => s <= f,
        _ => true,
    }
}

/// Well-formedness of a workflow record: at least one environment, distinct
/// names, in-order progression, and each environment well-formed.
pub open spec fn wf(w: Workflow) -> bool {
    &&& w.environments@.len() >= 1
    &&& distinct_names(env_names(w.environments@))
    &&& envs_in_order(w.environments@)
    &&& forall|i: int| 0 <= i < w.environments@.len() ==> env_wf(#[trigger] w.environments@[i])
}

pub open spec fn all_terminal(envs: Seq<Environment>) -> bool {
    forall|i: int| 0 <= i < envs.len() ==> (#[trigger] envs[i]).status.spec_is_terminal()
}

pub open spec fn all_success(envs: Seq<Environment>) -> bool {
    forall|i: int| 0 <= i < envs.len()
        ==> (#[trigger] envs[i]).status == EnvironmentStatus::Success
}

pub open spec fn has_failure(envs: Seq<Environment>) -> bool {
    exists|i: int| 0 <= i < envs.len()
        && (#[trigger] envs[i]).status == EnvironmentStatus::Failure
}

/// `i` is the index of the first environment that is not yet terminal.
pub open spec fn first_active(envs: Seq<Environment>, i: int) -> bool {
    &&& 0 <= i < envs.len()
    &&& !envs[i].status.spec_is_terminal()
    &&& forall|j: int| 0 <= j < i ==> (#[trigger] envs[j]).status.spec_is_terminal()
}

/// Agreement between the workflow status and its environments, maintained by
/// every committed mutation of the core: a `Success` workflow has only
/// `Success` environments, and a workflow holds a `Failure` environment
/// exactly when the workflow itself is `Failure`.
pub open spec fn status_consistent(w: Workflow) -> bool {
    &&& w.status == Status::Success ==> all_success(w.environments@)
    &&& has_failure(w.environments@) <==> w.status == Status::Failure
}

impl Workflow {
    /// The first environment that still needs work, with its index, or
    /// `None` when every environment is terminal.
    #[verifier::loop_isolation(false)]
    pub fn next_environment(&self) -> (r: Option<(usize, &Environment)>)
        ensures
            match r {
                None => all_terminal(self.environments@),
                Some((i, e)) => first_active(self.environments@, i as int)
                    && *e == self.environments@[i as int],
            },
    {
        let n = self.environments.len();
        let mut k: usize = 0;
        while k < n
            invariant
                k <= n,
                n == self.environments@.len(),
                forall|j: int| 0 <= j < k ==> (#[trigger] self.environments@[j])
                    .status.spec_is_terminal(),
            decreases n - k,
        {
            if !self.environments[k].status.is_terminal() {
                return Some((k, &self.environments[k]));
            }
            k += 1;
        }
        None
    }
}

/// Request to create a workflow, as handed in by the inbound API.
pub struct CreateWorkflowRequest {
    pub git_ref: String,
    pub owner: String,
    pub repo: String,
    pub sha: String,
    pub stability_period_minutes: usize,
    pub environments: Vec<String>,
    pub commit_message: String,
}

/// Why a creation request was rejected.
#[derive(Clone, Copy, Debug, PartialEq, Eq, Structural)]
pub enum CreateWorkflowError {
    /// The request names no environments.
    NoEnvironments,
    /// The request carries an empty commit hash.
    EmptySha,
    /// Two requested environments share a name.
    DuplicateEnvironment,
}

/// The environment names requested, as character sequences.
pub open spec fn requested_names(req: CreateWorkflowRequest) -> Seq<Seq<char>> {
    req.environments@.map_values(|s: String| s@)
}

/// A valid creation request names at least one environment, a non-empty
/// commit hash, and no environment name twice.
pub open spec fn valid_request(req: CreateWorkflowRequest) -> bool {
    &&& req.environments@.len() >= 1
    &&& req.sha@.len() > 0
    &&& distinct_names(requested_names(req))
}

impl Workflow {
    /// Build the initial record for a creation request: every environment
    /// `Pending`, the workflow `Running` and due immediately.
    #[verifier::loop_isolation(false)]
    pub fn new(req: CreateWorkflowRequest, now: i64) -> (r: Result<Workflow, CreateWorkflowError>)
        ensures
            r is Ok <==> valid_request(req),
            r == Err::<Workflow, _>(CreateWorkflowError::NoEnvironments)
                <==> req.environments@.len() == 0,
            r == Err::<Workflow, _>(CreateWorkflowError::EmptySha)
                <==> req.environments@.len() >= 1 && req.sha@.len() == 0,
            r == Err::<Workflow, _>(CreateWorkflowError::DuplicateEnvironment)
                <==> req.environments@.len() >= 1 && req.sha@.len() > 0
                    && !distinct_names(requested_names(req)),
            r matches Ok(w) ==> {
                &&& w.id@ == req.owner@ + "/"@ + req.repo@
                &&& w.created_at == (CreatedAt { secs: now })
                &&& w.updated_at is None
                &&& w.git_ref == req.git_ref
                &&& w.owner == req.owner
                &&& w.repo == req.repo
                &&& w.sha == req.sha
                &&& w.stability_period_minutes == req.stability_period_minutes
                &&& w.status == Status::Running
                &&& w.commit_message == req.commit_message
                &&& w.due_to_run == now
                &&& w.environments@.len() == req.environments@.len()
                &&& forall|j: int| 0 <= j < req.environments@.len()
                    ==> #[trigger] w.environments@[j] == (Environment {
                        name: req.environments@[j],
                        status: EnvironmentStatus::Pending,
                        started_at: None,
                        finished_at: None,
                        deployment_id: None,
                    })
                &&& wf(w)
                &&& status_consistent(w)
            },
    {
        if req.environments.len() == 0 {
            return Err(CreateWorkflowError::NoEnvironments);
        }
        if req.sha.as_str().is_empty() {
            return Err(CreateWorkflowError::EmptySha);
        }
        let n = req.environments.len();
        let mut a: usize = 0;
        while a < n
            invariant
                a <= n,
                n == req.environments@.len(),
                forall|i: int, j: int| 0 <= i < j < n && i < a
                    ==> requested_names(req)[i] != requested_names(req)[j],
            decreases n - a,
        {
            let mut b: usize = a + 1;
            while b < n
                invariant
                    a < b <= n,
                    n == req.environments@.len(),
                    forall|j: int| a < j < b
                        ==> requested_names(req)[a as int] != requested_names(req)[j],
            decreases n - b,
            {
                if req.environments[a] == req.environments[b] {
                    proof {
                        assert(requested_names(req)[a as int] == requested_names(req)[b as int]);
                        assert(!distinct_names(requested_names(req)));
                    }
                    return Err(CreateWorkflowError::DuplicateEnvironment);
                }
                b += 1;
            }
            a += 1;
        }
        let mut id = req.owner.clone();
        id.append("/");
        id.append(req.repo.as_str());
        let mut envs: Vec<Environment> = Vec::new();
        let mut k: usize = 0;
        while k < n
            invariant
                k <= n,
                n == req.environments@.len(),
                envs@.len() == k,
                forall|j: int| 0 <= j < k ==> #[trigger] envs@[j] == (Environment {
                    name: req.environments@[j],
                    status: EnvironmentStatus::Pending,
                    started_at: None,
                    finished_at: None,
                    deployment_id: None,
                }),
            decreases n - k,
        {
            envs.push(Environment {
                name: req.environments[k].clone(),
                status: EnvironmentStatus::Pending,
                started_at: None,
                finished_at: None,
                deployment_id: None,
            });
            k += 1;
        }
        let w = Workflow {
            id,
            created_at: CreatedAt::new(now),
            updated_at: None,
            git_ref: req.git_ref,
            owner: req.owner,
            repo: req.repo,
            sha: req.sha,
            stability_period_minutes: req.stability_period_minutes,
            environments: envs,
            status: Status::Running,
            commit_message: req.commit_message,
            due_to_run: now,
        };
        proof {
            assert(env_names(w.environments@) =~= requested_names(req));
        }
        Ok(w)
    }
}

} // verus!
