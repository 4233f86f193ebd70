//! End-to-end ticks driven against the in-memory store, the way the
//! dispatcher drives them against the production adapter.

use pipedream::github;
use pipedream::processor::{observe_environment, start_environment, Plan};
use pipedream::store::{DynamodbError, Store};
use pipedream::workflow::{
    CreateWorkflowRequest, EnvironmentStatus, Status, Workflow,
};

fn create(store: &mut Store, stability: usize, now: i64) {
    let w = Workflow::new(
        CreateWorkflowRequest {
            git_ref: "main".to_string(),
            owner: "acme".to_string(),
            repo: "web".to_string(),
            sha: "abc123".to_string(),
            stability_period_minutes: stability,
            environments: vec!["staging".to_string(), "prod".to_string()],
            commit_message: "a commit".to_string(),
        },
        now,
    )
    .unwrap();
    store.put_new(w).unwrap();
}

fn run(status: github::WorkflowStatus) -> github::Workflow {
    github::Workflow {
        id: 1,
        name: "ci".to_string(),
        head_sha: "abc123".to_string(),
        head_branch: "main".to_string(),
        event: "deployment".to_string(),
        status,
    }
}

/// One dispatcher tick: process every due workflow, with `runs` as the CI
/// answer for any observation and `deployment_id` for any creation.
fn tick(store: &mut Store, now: i64, runs: Vec<github::Workflow>, deployment_id: u64) {
    for w in store.find_due(now) {
        match w.plan() {
            Plan::Done(status) => {
                store.mark_done(&w, status, now).unwrap();
            }
            Plan::Start(i) => {
                let next = start_environment(&w, i, deployment_id, now);
                store
                    .advance_environment(&w, next.environments, next.due_to_run, now)
                    .unwrap();
            }
            Plan::Observe(i) => {
                let (next, obs) = observe_environment(&w, i, runs.clone(), now);
                if obs == EnvironmentStatus::Failure {
                    store
                        .fail_environment(&w, next.environments, next.due_to_run, now)
                        .unwrap();
                } else {
                    store
                        .advance_environment(&w, next.environments, next.due_to_run, now)
                        .unwrap();
                }
            }
        }
    }
}

fn the_row(store: &Store) -> Workflow {
    let mut rows = store.list_by_repo("acme", "web");
    assert_eq!(rows.len(), 1);
    rows.pop().unwrap()
}

#[test]
fn happy_path_two_environments() {
    let mut store = Store::new();
    create(&mut store, 0, 1000);

    tick(&mut store, 1005, vec![], 41);
    let w = the_row(&store);
    assert_eq!(w.environments[0].status, EnvironmentStatus::Running);
    assert_eq!(w.environments[0].deployment_id, Some(41));
    assert_eq!(w.environments[1].status, EnvironmentStatus::Pending);

    tick(&mut store, 1010, vec![run(github::WorkflowStatus::Success)], 0);
    let w = the_row(&store);
    assert_eq!(w.environments[0].status, EnvironmentStatus::Success);
    assert_eq!(w.environments[0].finished_at, Some(1010));
    assert_eq!(w.due_to_run, 1010);

    tick(&mut store, 1015, vec![], 42);
    let w = the_row(&store);
    assert_eq!(w.environments[1].status, EnvironmentStatus::Running);
    assert_eq!(w.environments[1].deployment_id, Some(42));
    assert_eq!(w.environments[0].status, EnvironmentStatus::Success);
    assert_eq!(w.environments[0].finished_at, Some(1010));

    tick(&mut store, 1020, vec![run(github::WorkflowStatus::Success)], 0);
    tick(&mut store, 1025, vec![], 0);
    let w = the_row(&store);
    assert_eq!(w.environments[0].name, "staging");
    assert_eq!(w.environments[1].name, "prod");
    assert_eq!(w.id, "acme/web");
    assert_eq!(w.created_at.secs, 1000);
    assert_eq!(w.status, Status::Success);
    assert_eq!(w.environments[0].status, EnvironmentStatus::Success);
    assert_eq!(w.environments[1].status, EnvironmentStatus::Success);
    assert_eq!(store.find_due(9999).len(), 0);
}

#[test]
fn failure_halts_progression() {
    let mut store = Store::new();
    create(&mut store, 0, 1000);

    tick(&mut store, 1005, vec![], 41);
    tick(&mut store, 1010, vec![run(github::WorkflowStatus::Failure)], 0);
    let w = the_row(&store);
    assert_eq!(w.status, Status::Failure);
    assert_eq!(w.environments[0].status, EnvironmentStatus::Failure);
    assert_eq!(w.environments[1].status, EnvironmentStatus::Pending);

    assert_eq!(store.find_due(99_999).len(), 0);
    tick(&mut store, 2000, vec![], 99);
    let w = the_row(&store);
    assert_eq!(w.environments[1].status, EnvironmentStatus::Pending);
}

#[test]
fn empty_runs_succeed_vacuously_after_timeout() {
    let mut store = Store::new();
    create(&mut store, 0, 1000);

    let start = 1000;
    tick(&mut store, start, vec![], 41);

    tick(&mut store, start + 240, vec![], 0);
    let w = the_row(&store);
    assert_eq!(w.environments[0].status, EnvironmentStatus::Running);

    tick(&mut store, start + 360, vec![], 0);
    let w = the_row(&store);
    assert_eq!(w.environments[0].status, EnvironmentStatus::Success);
}

#[test]
fn stability_period_delays_the_next_environment() {
    let mut store = Store::new();
    create(&mut store, 10, 1000);

    tick(&mut store, 1000, vec![], 41);
    let finish = 2000;
    tick(&mut store, finish, vec![run(github::WorkflowStatus::Success)], 0);
    let w = the_row(&store);
    assert_eq!(w.due_to_run, finish + 600);

    for now in [finish + 5, finish + 300, finish + 599] {
        assert_eq!(store.find_due(now).len(), 0);
    }
    assert_eq!(store.find_due(finish + 600).len(), 1);

    tick(&mut store, finish + 600, vec![], 42);
    let w = the_row(&store);
    assert_eq!(w.environments[1].status, EnvironmentStatus::Running);
}

#[test]
fn concurrent_processors_commit_exactly_once() {
    let mut store = Store::new();
    create(&mut store, 0, 1000);
    tick(&mut store, 1005, vec![], 41);

    let replica_a = store.find_due(1010).pop().unwrap();
    let replica_b = store.find_due(1010).pop().unwrap();

    let (next_a, obs) = observe_environment(
        &replica_a,
        0,
        vec![run(github::WorkflowStatus::Success)],
        1010,
    );
    assert_eq!(obs, EnvironmentStatus::Success);
    store
        .advance_environment(&replica_a, next_a.environments, next_a.due_to_run, 1010)
        .unwrap();

    let (next_b, _) = observe_environment(
        &replica_b,
        0,
        vec![run(github::WorkflowStatus::Success)],
        1010,
    );
    let lost =
        store.advance_environment(&replica_b, next_b.environments, next_b.due_to_run, 1010);
    assert_eq!(lost.unwrap_err(), DynamodbError::ConditionalCheckFailed);

    let w = the_row(&store);
    assert_eq!(w.environments[0].status, EnvironmentStatus::Success);
    assert_eq!(w.environments[1].status, EnvironmentStatus::Pending);
}

#[test]
fn ci_aggregation_failure_wins() {
    let mut store = Store::new();
    create(&mut store, 0, 1000);
    tick(&mut store, 1005, vec![], 41);
    tick(
        &mut store,
        1010,
        vec![
            run(github::WorkflowStatus::InProgress),
            run(github::WorkflowStatus::Queued),
            run(github::WorkflowStatus::Failure),
        ],
        0,
    );
    let w = the_row(&store);
    assert_eq!(w.status, Status::Failure);
    assert_eq!(w.environments[0].status, EnvironmentStatus::Failure);
}
