//! Data exchanged with the continuous-integration provider.
//!
//! The HTTP calls themselves are made outside this crate; the core only
//! consumes and produces these plain values.

use crate::workflow::EnvironmentStatus;
use vstd::prelude::*;

verus! {

/// Status of one CI workflow run, as reported by the provider.
#[derive(Clone, Copy, Debug, PartialEq, Eq, Structural)]
pub enum WorkflowStatus {
    Completed,
    ActionRequired,
    Cancelled,
    Failure,
    Neutral,
    Skipped,
    Stale,
    Success,
    TimedOut,
    InProgress,
    Queued,
    Requested,
    Waiting,
    Pending,
}

impl WorkflowStatus {
    /// Collapse the provider's many run statuses onto the five environment
    /// statuses: completed runs count as success, anything abandoned or
    /// required counts as failure, and everything not yet running is queued.
    pub open spec fn spec_environment_status(self) -> EnvironmentStatus {
        match self {
            WorkflowStatus::Completed => EnvironmentStatus::Success,
            WorkflowStatus::ActionRequired => EnvironmentStatus::Failure,
            WorkflowStatus::Cancelled => EnvironmentStatus::Failure,
            WorkflowStatus::Failure => EnvironmentStatus::Failure,
            WorkflowStatus::Neutral => EnvironmentStatus::Failure,
            WorkflowStatus::Skipped => EnvironmentStatus::Failure,
            WorkflowStatus::Stale => EnvironmentStatus::Failure,
            WorkflowStatus::Success => EnvironmentStatus::Success,
            WorkflowStatus::TimedOut => EnvironmentStatus::Failure,
            WorkflowStatus::InProgress => EnvironmentStatus::Running,
            WorkflowStatus::Queued => EnvironmentStatus::Queued,
            WorkflowStatus::Requested => EnvironmentStatus::Queued,
            WorkflowStatus::Waiting => EnvironmentStatus::Queued,
            WorkflowStatus::Pending => EnvironmentStatus::Queued,
        }
    }

    #[verifier::when_used_as_spec(spec_environment_status)]
    pub fn environment_status(self) -> (r: EnvironmentStatus)
        ensures
            r == self.spec_environment_status(),
    {
        match self {
            WorkflowStatus::Completed => EnvironmentStatus::Success,
            WorkflowStatus::ActionRequired => EnvironmentStatus::Failure,
            WorkflowStatus::Cancelled => EnvironmentStatus::Failure,
            WorkflowStatus::Failure => EnvironmentStatus::Failure,
            WorkflowStatus::Neutral => EnvironmentStatus::Failure,
            WorkflowStatus::Skipped => EnvironmentStatus::Failure,
            WorkflowStatus::Stale => EnvironmentStatus::Failure,
            WorkflowStatus::Success => EnvironmentStatus::Success,
            WorkflowStatus::TimedOut => EnvironmentStatus::Failure,
            WorkflowStatus::InProgress => EnvironmentStatus::Running,
            WorkflowStatus::Queued => EnvironmentStatus::Queued,
            WorkflowStatus::Requested => EnvironmentStatus::Queued,
            WorkflowStatus::Waiting => EnvironmentStatus::Queued,
            WorkflowStatus::Pending => EnvironmentStatus::Queued,
        }
    }
}

/// One CI workflow run observed for a commit.
#[derive(Debug, PartialEq, Eq)]
pub struct Workflow {
    pub id: u64,
    pub name: String,
    pub head_sha: String,
    pub head_branch: String,
    pub event: String,
    pub status: WorkflowStatus,
}

impl Clone for Workflow {
    fn clone(&self) -> (res: Self)
        ensures
            res == *self,
    {
        Workflow {
            id: self.id,
            name: self.name.clone(),
            head_sha: self.head_sha.clone(),
            head_branch: self.head_branch.clone(),
            event: self.event.clone(),
            status: self.status,
        }
    }
}

/// Request to create a deployment for one environment of one repository.
pub struct CreateDeploymentRequest {
    pub owner: String,
    pub repo: String,
    pub git_ref: String,
    pub environment: String,
    pub description: String,
}

/// The provider's answer to a deployment creation: its opaque identifier.
#[derive(Clone, Copy, Debug, PartialEq, Eq, Structural)]
pub struct CreateDeploymentResponse {
    pub id: u64,
}

/// State pushed back to the provider's deployment-status endpoint.
#[derive(Clone, Copy, Debug, PartialEq, Eq, Structural)]
pub enum DeploymentStatus {
    Queued,
    InProgress,
    Failure,
    Success,
}

impl EnvironmentStatus {
    /// The deployment state reported to the provider for this environment
    /// status.
    pub open spec fn spec_deployment_status(self) -> DeploymentStatus {
        match self {
            EnvironmentStatus::Pending | EnvironmentStatus::Queued => DeploymentStatus::Queued,
            EnvironmentStatus::Running => DeploymentStatus::InProgress,
            EnvironmentStatus::Success => DeploymentStatus::Success,
            EnvironmentStatus::Failure => DeploymentStatus::Failure,
        }
    }

    #[verifier::when_used_as_spec(spec_deployment_status)]
    pub fn deployment_status(self) -> (r: DeploymentStatus)
        ensures
            r == self.spec_deployment_status(),
    {
        match self {
            EnvironmentStatus::Pending | EnvironmentStatus::Queued => DeploymentStatus::Queued,
            EnvironmentStatus::Running => DeploymentStatus::InProgress,
            EnvironmentStatus::Success => DeploymentStatus::Success,
            EnvironmentStatus::Failure => DeploymentStatus::Failure,
        }
    }
}

} // verus!
