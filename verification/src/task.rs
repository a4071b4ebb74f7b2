//! The task entity: identity, metadata and the transition guard the
//! entity itself defines (lifecycle policy lives one layer up, in the
//! service).

use vstd::prelude::*;

verus! {

/// Lifecycle states of a task. `NotStarted` is the initial state; the
/// service treats `Completed` as permanently terminal.
#[derive(Clone, Copy, Debug, PartialEq, Eq, Structural)]
pub enum TaskState {
    NotStarted,
    InProgress,
    Completed,
    Paused,
    Failed,
}

/// One unit of user-submitted work. All metadata is fixed at creation;
/// only `state` and (at completion) `result_file` are ever rewritten.
#[derive(Debug, PartialEq, Eq)]
pub struct Task {
    pub user_uuid: String,
    pub task_uuid: String,
    pub task_type: String,
    pub state: TaskState,
    pub source_file: String,
    pub result_file: Option<String>,
    pub title: String,
    pub description: String,
}

/// The derived identity of a task: the user identifier and the task
/// identifier joined by a fixed separator. It is a function of the two
/// identifiers alone.
pub open spec fn global_id_of(user_uuid: Seq<char>, task_uuid: Seq<char>) -> Seq<char> {
    user_uuid + "-"@ + task_uuid
}

/// The global id is deterministic: two tasks that agree on their user and
/// task identifiers have the same global id, so recomputing it on an
/// unmutated task always yields the same value.
pub proof fn lemma_global_id_deterministic(a: Task, b: Task)
    requires
        a.user_uuid@ == b.user_uuid@,
        a.task_uuid@ == b.task_uuid@,
    ensures
        global_id_of(a.user_uuid@, a.task_uuid@) == global_id_of(b.user_uuid@, b.task_uuid@),
{
}

/// Relies on `uuid::Uuid::new_v4` and the `Display` form of `uuid::Uuid`:
/// a fresh random version-4 UUID rendered in its hyphenated form, which is
/// always 36 characters. The value is random, so nothing more is promised
/// of it.
#[verifier::external_body]
fn fresh_task_id() -> (r: String)
    ensures
        r@.len() == 36,
{
    uuid::Uuid::new_v4().to_string()
}

impl Task {
    /// Builds a task from an explicitly supplied task identifier: the
    /// record starts in `NotStarted` with no result file, and carries the
    /// given identity and metadata unchanged.
    pub fn new_with_id(
        user_uuid: String,
        task_uuid: String,
        task_type: String,
        source_file: String,
        title: String,
        description: String,
    ) -> (t: Task)
        ensures
            t == (Task {
                user_uuid,
                task_uuid,
                task_type,
                state: TaskState::NotStarted,
                source_file,
                result_file: None,
                title,
                description,
            }),
    {
        Task {
            user_uuid,
            task_uuid,
            task_type,
            state: TaskState::NotStarted,
            source_file,
            result_file: None,
            title,
            description,
        }
    }

    /// Builds a task with a freshly generated, collision-resistant task
    /// identifier.
    pub fn new(
        user_uuid: String,
        task_type: String,
        source_file: String,
        title: String,
        description: String,
    ) -> (t: Task)
        ensures
            t.user_uuid == user_uuid,
            t.task_uuid@.len() == 36,
            t.task_type == task_type,
            t.state == TaskState::NotStarted,
            t.source_file == source_file,
            t.result_file is None,
            t.title == title,
            t.description == description,
    {
        let task_uuid = fresh_task_id();
        Task::new_with_id(user_uuid, task_uuid, task_type, source_file, title, description)
    }

    /// The composite identity under which the task is stored and
    /// addressed from outside.
    pub fn get_global_id(&self) -> (r: String)
        ensures
            r@ == global_id_of(self.user_uuid@, self.task_uuid@),
    {
        self.user_uuid.clone().concat("-").concat(self.task_uuid.as_str())
    }

    /// The entity's own transition guard: a transition is admissible for
    /// the entity exactly when the target differs from the current state.
    /// Any distinct target passes; the terminal-state rule is enforced by
    /// the service, not here.
    pub fn can_transition_to(&self, state: &TaskState) -> (r: bool)
        ensures
            r == (self.state != *state),
    {
        self.state != *state
    }
}

impl Clone for Task {
    /// A field-for-field copy of the task.
    fn clone(&self) -> (t: Task)
        ensures
            t == *self,
    {
        Task {
            user_uuid: self.user_uuid.clone(),
            task_uuid: self.task_uuid.clone(),
            task_type: self.task_type.clone(),
            state: self.state,
            source_file: self.source_file.clone(),
            result_file: match &self.result_file {
                Some(f) => Some(f.clone()),
                None => None,
            },
            title: self.title.clone(),
            description: self.description.clone(),
        }
    }
}

} // verus!
