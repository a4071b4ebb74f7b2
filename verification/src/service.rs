//! The state-transition core: the only authority that mutates a stored
//! task. Every operation is one load-validate-store sequence; a request
//! that fails at any stage returns its typed failure and writes nothing.

use vstd::prelude::*;

use crate::store::TaskStore;
use crate::task::{global_id_of, Task, TaskState};

verus! {

/// The composite identity of a task, as callers pass it around.
#[derive(Debug, PartialEq, Eq)]
pub struct TaskIdentifier {
    pub task_global_id: String,
}

/// The payload of a completion request: the result file is mandatory
/// there.
pub struct TaskCompletionRequest {
    pub result_file: String,
}

/// The payload of a submission request.
pub struct SubmitTaskRequest {
    pub user_id: String,
    pub task_type: String,
    pub source_file: String,
    pub title: String,
    pub description: String,
}

/// The closed set of failures the service surfaces; the transport layer
/// maps each to a status code via `status_code`.
#[derive(Clone, Copy, Debug, PartialEq, Eq, Structural)]
pub enum TaskError {
    TaskNotFound,
    TaskUpdateFailure,
    TaskCreationFailure,
    BadTaskRequest,
    TaskAlreadyCompleted,
}

impl TaskError {
    /// The transport status code of each failure kind.
    pub fn status_code(&self) -> (code: u16)
        ensures
            code == (match self {
                TaskError::TaskNotFound => 404u16,
                TaskError::TaskUpdateFailure => 500u16,
                TaskError::TaskCreationFailure => 500u16,
                TaskError::BadTaskRequest => 400u16,
                TaskError::TaskAlreadyCompleted => 400u16,
            }),
    {
        match self {
            TaskError::TaskNotFound => 404,
            TaskError::TaskUpdateFailure => 500,
            TaskError::TaskCreationFailure => 500,
            TaskError::BadTaskRequest => 400,
            TaskError::TaskAlreadyCompleted => 400,
        }
    }
}

/// The record a transition rewrites `t` into: the state becomes the
/// target, the result file is rewritten — to the supplied value — only
/// when the target is `Completed`, and every other field is kept.
pub open spec fn transitioned(t: Task, new_state: TaskState, result_file: Option<String>) -> Task {
    Task {
        state: new_state,
        result_file: if new_state == TaskState::Completed {
            result_file
        } else {
            t.result_file
        },
        ..t
    }
}

/// What one transition request against a store must come to. `pre` and
/// `post` are the store's contents before and after, `id` the requested
/// global id, and `r` the outcome handed to the caller:
/// - no record under `id`: `TaskNotFound`, store untouched;
/// - the record is `Completed`: `TaskAlreadyCompleted`, store untouched
///   (a completed task is permanently terminal, whatever the target);
/// - the target equals the current state: `BadTaskRequest`, store
///   untouched (self-transitions are rejected);
/// - otherwise the request succeeds, returns `id`, and exactly the one
///   record is rewritten, to `transitioned` of its old value.
pub open spec fn transition_outcome(
    pre: Map<Seq<char>, Task>,
    post: Map<Seq<char>, Task>,
    id: Seq<char>,
    new_state: TaskState,
    result_file: Option<String>,
    r: Result<TaskIdentifier, TaskError>,
) -> bool {
    &&& !pre.contains_key(id) ==> (r matches Err(e) && e == TaskError::TaskNotFound && post == pre)
    &&& pre.contains_key(id) && pre[id].state == TaskState::Completed ==> (r matches Err(e) && e
        == TaskError::TaskAlreadyCompleted && post == pre)
    &&& pre.contains_key(id) && pre[id].state != TaskState::Completed && pre[id].state == new_state
        ==> (r matches Err(e) && e == TaskError::BadTaskRequest && post == pre)
    &&& pre.contains_key(id) && pre[id].state != TaskState::Completed && pre[id].state != new_state
        ==> (r matches Ok(ident) && ident.task_global_id@ == id && post == pre.insert(
        id,
        transitioned(pre[id], new_state, result_file),
    ))
}

/// Pure lookup: hands back a copy of the record under the given global
/// id, `TaskNotFound` if there is none, and never mutates anything.
pub fn get_task(store: &TaskStore, task_identifier: &TaskIdentifier) -> (r: Result<
    Task,
    TaskError,
>)
    ensures
        store@.contains_key(task_identifier.task_global_id@) ==> (r matches Ok(t) && t
            == store@[task_identifier.task_global_id@] && global_id_of(t.user_uuid@, t.task_uuid@)
            == task_identifier.task_global_id@),
        !store@.contains_key(task_identifier.task_global_id@) ==> (r matches Err(e) && e
            == TaskError::TaskNotFound),
{
    match store.get_task(task_identifier.task_global_id.as_str()) {
        Some(task) => Ok(task.clone()),
        None => Err(TaskError::TaskNotFound),
    }
}

/// Submission with an explicitly supplied task identifier: builds the
/// task and persists it as a brand-new record. Succeeds exactly when the
/// derived global id is not yet taken; on failure nothing is written.
pub fn submit_task_with_id(store: &mut TaskStore, task_uuid: String, request: SubmitTaskRequest)
    -> (r: Result<TaskIdentifier, TaskError>)
    ensures
        old(store)@.contains_key(global_id_of(request.user_id@, task_uuid@)) ==> (r matches Err(e)
            && e == TaskError::TaskCreationFailure && final(store)@ == old(store)@),
        !old(store)@.contains_key(global_id_of(request.user_id@, task_uuid@)) ==> (r matches Ok(
            ident,
        ) && ident.task_global_id@ == global_id_of(request.user_id@, task_uuid@) && final(store)@
            == old(store)@.insert(
            global_id_of(request.user_id@, task_uuid@),
            (Task {
                user_uuid: request.user_id,
                task_uuid,
                task_type: request.task_type,
                state: TaskState::NotStarted,
                source_file: request.source_file,
                result_file: None,
                title: request.title,
                description: request.description,
            }),
        )),
{
    let task = Task::new_with_id(
        request.user_id,
        task_uuid,
        request.task_type,
        request.source_file,
        request.title,
        request.description,
    );
    let task_identifier = task.get_global_id();
    match store.put_task(task) {
        Ok(()) => Ok(TaskIdentifier { task_global_id: task_identifier }),
        Err(_) => Err(TaskError::TaskCreationFailure),
    }
}

/// Submission: builds a task with a fresh random identifier and persists
/// it as a brand-new record. On success the new record is under the
/// returned global id, in the initial pending state with no result file
/// and the submitted metadata; a failed store write leaves the store
/// unchanged and surfaces as `TaskCreationFailure`. The write can fail
/// only through the randomly drawn identifier colliding with a taken
/// global id, so failure is possible at all only when the store already
/// holds some 36-character token under this user; on a store without
/// such a key — any fresh store — every draw succeeds.
pub fn submit_task(store: &mut TaskStore, request: SubmitTaskRequest) -> (r: Result<
    TaskIdentifier,
    TaskError,
>)
    ensures
        r matches Err(e) ==> e == TaskError::TaskCreationFailure && final(store)@ == old(store)@
            && exists|u: Seq<char>|
            u.len() == 36 && old(store)@.contains_key(global_id_of(request.user_id@, u)),
        r matches Ok(ident) ==> {
            let id = ident.task_global_id@;
            let t = final(store)@[id];
            &&& !old(store)@.contains_key(id)
            &&& final(store)@ == old(store)@.insert(id, t)
            &&& id == global_id_of(request.user_id@, t.task_uuid@)
            &&& t.user_uuid == request.user_id
            &&& t.task_uuid@.len() == 36
            &&& t.task_type == request.task_type
            &&& t.state == TaskState::NotStarted
            &&& t.source_file == request.source_file
            &&& t.result_file is None
            &&& t.title == request.title
            &&& t.description == request.description
        },
{
    let task = Task::new(
        request.user_id,
        request.task_type,
        request.source_file,
        request.title,
        request.description,
    );
    let ghost drawn = task.task_uuid@;
    let task_identifier = task.get_global_id();
    match store.put_task(task) {
        Ok(()) => Ok(TaskIdentifier { task_global_id: task_identifier }),
        Err(_) => {
            proof {
                assert(drawn.len() == 36 && old(store)@.contains_key(
                    global_id_of(request.user_id@, drawn),
                ));
            }
            Err(TaskError::TaskCreationFailure)
        },
    }
}

/// One transition request: loads the record under the given global id,
/// validates the request against the lifecycle rules, rewrites state —
/// and, on completion only, the result file — and persists the record.
/// The outcome is exactly `transition_outcome`.
pub fn state_transition(
    store: &mut TaskStore,
    task_global_id: &String,
    new_state: TaskState,
    result_file: Option<String>,
) -> (r: Result<TaskIdentifier, TaskError>)
    ensures
        transition_outcome(
            old(store)@,
            final(store)@,
            task_global_id@,
            new_state,
            result_file,
            r,
        ),
{
    let task = match store.get_task(task_global_id.as_str()) {
        Some(task) => task,
        None => { return Err(TaskError::TaskNotFound) },
    };

    if task.state == TaskState::Completed {
        return Err(TaskError::TaskAlreadyCompleted);
    }

    if !task.can_transition_to(&new_state) {
        return Err(TaskError::BadTaskRequest);
    }

    let mut updated = task.clone();
    updated.state = new_state;
    if new_state == TaskState::Completed {
        updated.result_file = result_file;
    }

    let task_identifier: String = updated.get_global_id();
    match store.update_task(updated) {
        Ok(()) => Ok(TaskIdentifier { task_global_id: task_identifier }),
        Err(_) => Err(TaskError::TaskUpdateFailure),
    }
}

/// Starts a task: one transition request with target `InProgress` and no
/// result file.
pub fn start_task(store: &mut TaskStore, task_identifier: &TaskIdentifier) -> (r: Result<
    TaskIdentifier,
    TaskError,
>)
    ensures
        transition_outcome(
            old(store)@,
            final(store)@,
            task_identifier.task_global_id@,
            TaskState::InProgress,
            None,
            r,
        ),
{
    state_transition(store, &task_identifier.task_global_id, TaskState::InProgress, None)
}

/// Pauses a task: one transition request with target `Paused` and no
/// result file.
pub fn pause_task(store: &mut TaskStore, task_identifier: &TaskIdentifier) -> (r: Result<
    TaskIdentifier,
    TaskError,
>)
    ensures
        transition_outcome(
            old(store)@,
            final(store)@,
            task_identifier.task_global_id@,
            TaskState::Paused,
            None,
            r,
        ),
{
    state_transition(store, &task_identifier.task_global_id, TaskState::Paused, None)
}

/// Fails a task: one transition request with target `Failed` and no
/// result file.
pub fn fail_task(store: &mut TaskStore, task_identifier: &TaskIdentifier) -> (r: Result<
    TaskIdentifier,
    TaskError,
>)
    ensures
        transition_outcome(
            old(store)@,
            final(store)@,
            task_identifier.task_global_id@,
            TaskState::Failed,
            None,
            r,
        ),
{
    state_transition(store, &task_identifier.task_global_id, TaskState::Failed, None)
}

/// Completes a task: one transition request with target `Completed` and
/// the mandatory result file from the completion request.
pub fn complete_task(
    store: &mut TaskStore,
    task_identifier: &TaskIdentifier,
    task_completion_request: TaskCompletionRequest,
) -> (r: Result<TaskIdentifier, TaskError>)
    ensures
        transition_outcome(
            old(store)@,
            final(store)@,
            task_identifier.task_global_id@,
            TaskState::Completed,
            Some(task_completion_request.result_file),
            r,
        ),
{
    state_transition(
        store,
        &task_identifier.task_global_id,
        TaskState::Completed,
        Some(task_completion_request.result_file),
    )
}

} // verus!
