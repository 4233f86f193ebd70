use pipedream::store::{DynamodbError, Store};
use pipedream::workflow::{CreateWorkflowRequest, Status, Workflow};

fn workflow(owner: &str, repo: &str, created_at: i64) -> Workflow {
    Workflow::new(
        CreateWorkflowRequest {
            git_ref: "main".to_string(),
            owner: owner.to_string(),
            repo: repo.to_string(),
            sha: "abc123".to_string(),
            stability_period_minutes: 0,
            environments: vec!["staging".to_string(), "prod".to_string()],
            commit_message: "a commit".to_string(),
        },
        created_at,
    )
    .unwrap()
}

#[test]
fn put_new_rejects_existing_key() {
    let mut store = Store::new();
    let w = workflow("acme", "web", 1000);
    store.put_new(w.clone()).unwrap();
    assert_eq!(
        store.put_new(w.clone()).unwrap_err(),
        DynamodbError::AlreadyExists
    );
    let later = workflow("acme", "web", 2000);
    store.put_new(later).unwrap();
}

#[test]
fn find_due_returns_running_rows_that_are_due() {
    let mut store = Store::new();
    store.put_new(workflow("acme", "web", 1000)).unwrap();
    store.put_new(workflow("acme", "api", 5000)).unwrap();

    let due = store.find_due(1000);
    assert_eq!(due.len(), 1);
    assert_eq!(due[0].id, "acme/web");

    let due = store.find_due(5000);
    assert_eq!(due.len(), 2);

    let due = store.find_due(999);
    assert_eq!(due.len(), 0);
}

#[test]
fn find_due_skips_workflows_that_are_not_running() {
    let mut store = Store::new();
    let w = workflow("acme", "web", 1000);
    store.put_new(w.clone()).unwrap();
    store.mark_done(&w, Status::Failure, 1500).unwrap();
    assert_eq!(store.find_due(9999).len(), 0);
}

#[test]
fn list_by_repo_returns_newest_first() {
    let mut store = Store::new();
    store.put_new(workflow("acme", "web", 1000)).unwrap();
    store.put_new(workflow("acme", "web", 3000)).unwrap();
    store.put_new(workflow("acme", "web", 2000)).unwrap();
    store.put_new(workflow("acme", "api", 9000)).unwrap();

    let rows = store.list_by_repo("acme", "web");
    assert_eq!(rows.len(), 3);
    assert_eq!(rows[0].created_at.secs, 3000);
    assert_eq!(rows[1].created_at.secs, 2000);
    assert_eq!(rows[2].created_at.secs, 1000);
    for r in &rows {
        assert_eq!(r.id, "acme/web");
    }
    assert_eq!(store.list_by_repo("acme", "mobile").len(), 0);
}

#[test]
fn advance_environment_commits_and_refreshes() {
    let mut store = Store::new();
    let w = workflow("acme", "web", 1000);
    store.put_new(w.clone()).unwrap();

    let mut envs = w.environments.clone();
    envs[0].status = pipedream::workflow::EnvironmentStatus::Running;
    envs[0].started_at = Some(1200);
    envs[0].deployment_id = Some(42);
    let committed = store
        .advance_environment(&w, envs.clone(), w.due_to_run, 1200)
        .unwrap();
    assert_eq!(committed.status, Status::Running);
    assert_eq!(committed.updated_at, Some(1200));
    assert_eq!(
        committed.environments[0].status,
        pipedream::workflow::EnvironmentStatus::Running
    );
    assert_eq!(committed.id, w.id);
    assert_eq!(committed.created_at, w.created_at);
}

#[test]
fn fail_environment_sets_workflow_failure() {
    let mut store = Store::new();
    let w = workflow("acme", "web", 1000);
    store.put_new(w.clone()).unwrap();

    let mut envs = w.environments.clone();
    envs[0].status = pipedream::workflow::EnvironmentStatus::Failure;
    let committed = store
        .fail_environment(&w, envs, 1300, 1300)
        .unwrap();
    assert_eq!(committed.status, Status::Failure);
    assert_eq!(committed.due_to_run, 1300);
    assert_eq!(store.find_due(9999).len(), 0);
}

#[test]
fn conditional_update_requires_fresh_snapshot() {
    let mut store = Store::new();
    let w = workflow("acme", "web", 1000);
    store.put_new(w.clone()).unwrap();

    let replica_a = store.find_due(1000).pop().unwrap();
    let replica_b = store.find_due(1000).pop().unwrap();

    let envs_a = replica_a.environments.clone();
    store
        .advance_environment(&replica_a, envs_a, 1500, 1500)
        .unwrap();

    let envs_b = replica_b.environments.clone();
    let lost = store.advance_environment(&replica_b, envs_b, 1500, 1500);
    assert_eq!(lost.unwrap_err(), DynamodbError::ConditionalCheckFailed);
}

#[test]
fn mark_done_only_touches_status() {
    let mut store = Store::new();
    let w = workflow("acme", "web", 1000);
    store.put_new(w.clone()).unwrap();
    store.mark_done(&w, Status::Success, 1700).unwrap();
    let rows = store.list_by_repo("acme", "web");
    assert_eq!(rows.len(), 1);
    assert_eq!(rows[0].status, Status::Success);
    assert_eq!(rows[0].updated_at, Some(1700));
    assert_eq!(rows[0].due_to_run, w.due_to_run);

    let stale = store.mark_done(&w, Status::Success, 1800);
    assert_eq!(stale.unwrap_err(), DynamodbError::ConditionalCheckFailed);
}
