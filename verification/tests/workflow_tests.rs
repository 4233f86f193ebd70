use pipedream::workflow::{
    CreateWorkflowError, CreateWorkflowRequest, CreatedAt, Environment, EnvironmentStatus, Status,
    Workflow,
};

fn request(environments: Vec<&str>, sha: &str) -> CreateWorkflowRequest {
    CreateWorkflowRequest {
        git_ref: "main".to_string(),
        owner: "acme".to_string(),
        repo: "web".to_string(),
        sha: sha.to_string(),
        stability_period_minutes: 0,
        environments: environments.into_iter().map(|s| s.to_string()).collect(),
        commit_message: "a commit".to_string(),
    }
}

#[test]
fn create_workflow_initial_record() {
    let w = Workflow::new(request(vec!["staging", "prod"], "abc123"), 1000).unwrap();
    assert_eq!(w.id, "acme/web");
    assert_eq!(w.created_at, CreatedAt { secs: 1000 });
    assert_eq!(w.updated_at, None);
    assert_eq!(w.status, Status::Running);
    assert_eq!(w.due_to_run, 1000);
    assert_eq!(w.environments.len(), 2);
    assert_eq!(w.environments[0].name, "staging");
    assert_eq!(w.environments[1].name, "prod");
    for e in &w.environments {
        assert_eq!(e.status, EnvironmentStatus::Pending);
        assert_eq!(e.started_at, None);
        assert_eq!(e.finished_at, None);
        assert_eq!(e.deployment_id, None);
    }
}

#[test]
fn create_workflow_rejects_empty_environments() {
    let r = Workflow::new(request(vec![], "abc123"), 1000);
    assert_eq!(r.unwrap_err(), CreateWorkflowError::NoEnvironments);
}

#[test]
fn create_workflow_rejects_empty_sha() {
    let r = Workflow::new(request(vec!["staging"], ""), 1000);
    assert_eq!(r.unwrap_err(), CreateWorkflowError::EmptySha);
}

#[test]
fn create_workflow_rejects_duplicate_environment() {
    let r = Workflow::new(request(vec!["staging", "prod", "staging"], "abc123"), 1000);
    assert_eq!(r.unwrap_err(), CreateWorkflowError::DuplicateEnvironment);
}

#[test]
fn environment_status_terminality() {
    assert!(EnvironmentStatus::Success.is_terminal());
    assert!(EnvironmentStatus::Failure.is_terminal());
    assert!(!EnvironmentStatus::Pending.is_terminal());
    assert!(!EnvironmentStatus::Running.is_terminal());
    assert!(!EnvironmentStatus::Queued.is_terminal());
}

#[test]
fn environment_status_to_workflow_status() {
    assert_eq!(EnvironmentStatus::Success.workflow_status(), Status::Success);
    assert_eq!(EnvironmentStatus::Failure.workflow_status(), Status::Failure);
    assert_eq!(EnvironmentStatus::Pending.workflow_status(), Status::Running);
    assert_eq!(EnvironmentStatus::Running.workflow_status(), Status::Running);
    assert_eq!(EnvironmentStatus::Queued.workflow_status(), Status::Running);
}

fn env(name: &str, status: EnvironmentStatus) -> Environment {
    let started = status != EnvironmentStatus::Pending;
    Environment {
        name: name.to_string(),
        status,
        started_at: if started { Some(1000) } else { None },
        finished_at: if status.is_terminal() { Some(1100) } else { None },
        deployment_id: if started { Some(7) } else { None },
    }
}

#[test]
fn next_environment_picks_first_non_terminal() {
    let mut w = Workflow::new(request(vec!["a", "b", "c"], "abc123"), 1000).unwrap();
    w.environments[0] = env("a", EnvironmentStatus::Success);
    w.environments[1] = env("b", EnvironmentStatus::Running);
    let (i, e) = w.next_environment().unwrap();
    assert_eq!(i, 1);
    assert_eq!(e.name, "b");
}

#[test]
fn next_environment_none_when_all_terminal() {
    let mut w = Workflow::new(request(vec!["a", "b"], "abc123"), 1000).unwrap();
    w.environments[0] = env("a", EnvironmentStatus::Success);
    w.environments[1] = env("b", EnvironmentStatus::Failure);
    assert!(w.next_environment().is_none());
}

#[test]
fn created_at_renders_rfc3339_seconds() {
    assert_eq!(
        CreatedAt { secs: 1709294400 }.to_rfc3339(),
        "2024-03-01T12:00:00Z"
    );
    assert_eq!(CreatedAt { secs: 0 }.to_rfc3339(), "1970-01-01T00:00:00Z");
    assert_eq!(
        CreatedAt { secs: 1516991409 }.to_rfc3339(),
        "2018-01-26T18:30:09Z"
    );
}

#[test]
fn created_at_round_trips_through_rfc3339() {
    for secs in [0i64, 59, 1516991409, 1709294400, 4102444799] {
        let rendered = CreatedAt { secs }.to_rfc3339();
        let parsed = chrono::DateTime::parse_from_rfc3339(&rendered).unwrap();
        assert_eq!(parsed.timestamp(), secs);
    }
}

#[test]
fn rfc3339_strings_order_like_their_instants() {
    let times = [0i64, 59, 1516991409, 1709294400, 4102444799];
    for a in times {
        for b in times {
            let sa = CreatedAt { secs: a }.to_rfc3339();
            let sb = CreatedAt { secs: b }.to_rfc3339();
            assert_eq!(a.cmp(&b), sa.cmp(&sb));
        }
    }
}
