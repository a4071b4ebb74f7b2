//! End-to-end lifecycle scenarios driven through the service layer.

use task_lifecycle::service::{
    complete_task, fail_task, get_task, pause_task, start_task, state_transition, submit_task,
    submit_task_with_id, SubmitTaskRequest, TaskCompletionRequest, TaskError, TaskIdentifier,
};
use task_lifecycle::store::TaskStore;
use task_lifecycle::task::TaskState;

fn submit_request() -> SubmitTaskRequest {
    SubmitTaskRequest {
        user_id: String::from("u1"),
        task_type: String::from("convert"),
        source_file: String::from("a.bin"),
        title: String::from("T"),
        description: String::from("D"),
    }
}

#[test]
fn submit_start_complete_then_recomplete() {
    let mut store = TaskStore::new();
    let ident = submit_task(&mut store, submit_request()).expect("submit should succeed");

    let record = get_task(&store, &ident).expect("record should exist");
    assert_eq!(record.state, TaskState::NotStarted);
    assert_eq!(record.result_file, None);
    assert_eq!(record.user_uuid, "u1");
    assert_eq!(record.task_type, "convert");
    assert_eq!(record.source_file, "a.bin");
    assert_eq!(record.title, "T");
    assert_eq!(record.description, "D");

    let started = start_task(&mut store, &ident).expect("start should succeed");
    assert_eq!(started.task_global_id, ident.task_global_id);
    let record = get_task(&store, &ident).expect("record should exist");
    assert_eq!(record.state, TaskState::InProgress);
    assert_eq!(record.result_file, None);

    let completed = complete_task(
        &mut store,
        &ident,
        TaskCompletionRequest { result_file: String::from("out.bin") },
    )
    .expect("complete should succeed");
    assert_eq!(completed.task_global_id, ident.task_global_id);
    let record = get_task(&store, &ident).expect("record should exist");
    assert_eq!(record.state, TaskState::Completed);
    assert_eq!(record.result_file, Some(String::from("out.bin")));

    let again = complete_task(
        &mut store,
        &ident,
        TaskCompletionRequest { result_file: String::from("x") },
    );
    assert_eq!(again, Err(TaskError::TaskAlreadyCompleted));
    let record = get_task(&store, &ident).expect("record should exist");
    assert_eq!(record.state, TaskState::Completed);
    assert_eq!(record.result_file, Some(String::from("out.bin")));
    assert_eq!(record.user_uuid, "u1");
    assert_eq!(record.task_type, "convert");
    assert_eq!(record.source_file, "a.bin");
    assert_eq!(record.title, "T");
    assert_eq!(record.description, "D");
}

#[test]
fn start_unknown_id_not_found() {
    let mut store = TaskStore::new();
    let ident = TaskIdentifier { task_global_id: String::from("u1-no-such-task") };
    assert_eq!(start_task(&mut store, &ident), Err(TaskError::TaskNotFound));
}

#[test]
fn second_identical_transition_rejected() {
    let mut store = TaskStore::new();
    let ident = submit_task(&mut store, submit_request()).expect("submit should succeed");

    let first = state_transition(&mut store, &ident.task_global_id, TaskState::InProgress, None);
    assert!(first.is_ok());
    let second = state_transition(&mut store, &ident.task_global_id, TaskState::InProgress, None);
    assert_eq!(second, Err(TaskError::BadTaskRequest));
    let record = get_task(&store, &ident).expect("record should exist");
    assert_eq!(record.state, TaskState::InProgress);
}

#[test]
fn completed_is_terminal_for_every_target() {
    let mut store = TaskStore::new();
    let ident = submit_task(&mut store, submit_request()).expect("submit should succeed");
    start_task(&mut store, &ident).expect("start should succeed");
    complete_task(
        &mut store,
        &ident,
        TaskCompletionRequest { result_file: String::from("out.bin") },
    )
    .expect("complete should succeed");

    assert_eq!(start_task(&mut store, &ident), Err(TaskError::TaskAlreadyCompleted));
    assert_eq!(pause_task(&mut store, &ident), Err(TaskError::TaskAlreadyCompleted));
    assert_eq!(fail_task(&mut store, &ident), Err(TaskError::TaskAlreadyCompleted));
    assert_eq!(
        complete_task(
            &mut store,
            &ident,
            TaskCompletionRequest { result_file: String::from("y") },
        ),
        Err(TaskError::TaskAlreadyCompleted)
    );
    let record = get_task(&store, &ident).expect("record should exist");
    assert_eq!(record.state, TaskState::Completed);
    assert_eq!(record.result_file, Some(String::from("out.bin")));
}

#[test]
fn non_completing_transition_ignores_supplied_result_file() {
    let mut store = TaskStore::new();
    let ident = submit_task(&mut store, submit_request()).expect("submit should succeed");

    let r = state_transition(
        &mut store,
        &ident.task_global_id,
        TaskState::InProgress,
        Some(String::from("sneaky.bin")),
    );
    assert!(r.is_ok());
    let record = get_task(&store, &ident).expect("record should exist");
    assert_eq!(record.state, TaskState::InProgress);
    assert_eq!(record.result_file, None);

    let r = state_transition(
        &mut store,
        &ident.task_global_id,
        TaskState::Paused,
        Some(String::from("sneaky.bin")),
    );
    assert!(r.is_ok());
    let record = get_task(&store, &ident).expect("record should exist");
    assert_eq!(record.state, TaskState::Paused);
    assert_eq!(record.result_file, None);
}

#[test]
fn completion_sets_exactly_the_supplied_file_and_keeps_the_rest() {
    let mut store = TaskStore::new();
    let ident = submit_task_with_id(&mut store, String::from("t1"), submit_request())
        .expect("submit should succeed");
    start_task(&mut store, &ident).expect("start should succeed");

    let before = get_task(&store, &ident).expect("record should exist");
    complete_task(
        &mut store,
        &ident,
        TaskCompletionRequest { result_file: String::from("out.bin") },
    )
    .expect("complete should succeed");
    let after = get_task(&store, &ident).expect("record should exist");

    assert_eq!(after.state, TaskState::Completed);
    assert_eq!(after.result_file, Some(String::from("out.bin")));
    assert_eq!(after.user_uuid, before.user_uuid);
    assert_eq!(after.task_uuid, before.task_uuid);
    assert_eq!(after.task_type, before.task_type);
    assert_eq!(after.source_file, before.source_file);
    assert_eq!(after.title, before.title);
    assert_eq!(after.description, before.description);
}

#[test]
fn fetch_unknown_id_not_found_without_side_effects() {
    let mut store = TaskStore::new();
    let known = submit_task_with_id(&mut store, String::from("t1"), submit_request())
        .expect("submit should succeed");
    let unknown = TaskIdentifier { task_global_id: String::from("nobody-nothing") };
    assert_eq!(get_task(&store, &unknown), Err(TaskError::TaskNotFound));
    // the known record is untouched by the failed lookup
    let record = get_task(&store, &known).expect("record should exist");
    assert_eq!(record.state, TaskState::NotStarted);
}

// The entity's transition guard is deliberately permissive: it rejects only
// self-transitions, so domain-wise odd sequences such as NotStarted →
// Completed pass. The service adds exactly one stricter rule on top — no
// write at all once a task is Completed. The two tests below pin that
// choice down.

#[test]
fn permissive_guard_allows_completing_an_unstarted_task() {
    let mut store = TaskStore::new();
    let ident = submit_task(&mut store, submit_request()).expect("submit should succeed");
    let r = complete_task(
        &mut store,
        &ident,
        TaskCompletionRequest { result_file: String::from("out.bin") },
    );
    assert!(r.is_ok());
    let record = get_task(&store, &ident).expect("record should exist");
    assert_eq!(record.state, TaskState::Completed);
    assert_eq!(record.result_file, Some(String::from("out.bin")));
}

#[test]
fn failed_task_may_still_transition() {
    let mut store = TaskStore::new();
    let ident = submit_task(&mut store, submit_request()).expect("submit should succeed");
    fail_task(&mut store, &ident).expect("fail should succeed");
    let r = start_task(&mut store, &ident);
    assert!(r.is_ok());
    let record = get_task(&store, &ident).expect("record should exist");
    assert_eq!(record.state, TaskState::InProgress);
}

#[test]
fn submitting_the_same_id_twice_is_a_creation_failure() {
    let mut store = TaskStore::new();
    submit_task_with_id(&mut store, String::from("t1"), submit_request())
        .expect("first submit should succeed");
    let mut second = submit_request();
    second.title = String::from("other");
    let r = submit_task_with_id(&mut store, String::from("t1"), second);
    assert_eq!(r, Err(TaskError::TaskCreationFailure));
    // the first record is untouched
    let ident = TaskIdentifier { task_global_id: String::from("u1-t1") };
    let record = get_task(&store, &ident).expect("record should exist");
    assert_eq!(record.title, "T");
}
