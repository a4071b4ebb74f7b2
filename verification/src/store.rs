//! The task repository: a keyed store of task records, one record per
//! task, keyed by the task's global id. `put_task` is create-only and
//! `update_task` overwrite-only, so no write ever clobbers a record
//! silently and no update invents one.

use vstd::prelude::*;
use vstd::hash_map::StringHashMap;

use crate::task::{global_id_of, Task};

verus! {

/// Why a store write was refused.
#[derive(Clone, Copy, Debug, PartialEq, Eq, Structural)]
pub enum StoreError {
    /// A create found a record already under the task's global id.
    KeyExists,
    /// An update found no record under the task's global id.
    KeyMissing,
}

/// An in-memory task repository. Its abstract value is a map from global
/// id to the task record owned by that id.
pub struct TaskStore {
    tasks: StringHashMap<Task>,
}

impl View for TaskStore {
    type V = Map<Seq<char>, Task>;

    closed spec fn view(&self) -> Map<Seq<char>, Task> {
        self.tasks@
    }
}

impl TaskStore {
    /// Every record sits under its own global id.
    #[verifier::type_invariant]
    spec fn wf(&self) -> bool {
        forall|k: Seq<char>| #[trigger]
            self.tasks@.dom().contains(k) ==> global_id_of(
                self.tasks@[k].user_uuid@,
                self.tasks@[k].task_uuid@,
            ) == k
    }

    /// An empty store.
    pub fn new() -> (s: TaskStore)
        ensures
            s@ == Map::<Seq<char>, Task>::empty(),
    {
        TaskStore { tasks: StringHashMap::new() }
    }

    /// Looks the record up by global id; no mutation. The record handed
    /// back is the one stored under the key, and its own global id is
    /// that key.
    pub fn get_task<'a>(&'a self, task_global_id: &str) -> (r: Option<&'a Task>)
        ensures
            match r {
                Some(t) => self@.contains_key(task_global_id@) && *t == self@[task_global_id@]
                    && global_id_of(t.user_uuid@, t.task_uuid@) == task_global_id@,
                None => !self@.contains_key(task_global_id@),
            },
    {
        proof {
            use_type_invariant(&*self);
        }
        self.tasks.get(task_global_id)
    }

    /// Creates a brand-new record under the task's global id. Refuses to
    /// overwrite: if a record already owns that id, the store is left
    /// unchanged and the write is reported as failed.
    pub fn put_task(&mut self, task: Task) -> (r: Result<(), StoreError>)
        ensures
            old(self)@.contains_key(global_id_of(task.user_uuid@, task.task_uuid@)) ==> (r
                matches Err(e) && e == StoreError::KeyExists && final(self)@ == old(self)@),
            !old(self)@.contains_key(global_id_of(task.user_uuid@, task.task_uuid@)) ==> (r
                matches Ok(u) && final(self)@ == old(self)@.insert(
                global_id_of(task.user_uuid@, task.task_uuid@),
                task,
            )),
    {
        proof {
            use_type_invariant(&*self);
        }
        let global_id = task.get_global_id();
        if self.tasks.contains_key(global_id.as_str()) {
            Err(StoreError::KeyExists)
        } else {
            let mut tasks = StringHashMap::<Task>::new();
            std::mem::swap(&mut tasks, &mut self.tasks);
            tasks.insert(global_id, task);
            self.tasks = tasks;
            Ok(())
        }
    }

    /// Overwrites the record that owns the task's global id. If no record
    /// owns that id, the store is left unchanged and the write is
    /// reported as failed.
    pub fn update_task(&mut self, task: Task) -> (r: Result<(), StoreError>)
        ensures
            old(self)@.contains_key(global_id_of(task.user_uuid@, task.task_uuid@)) ==> (r
                matches Ok(u) && final(self)@ == old(self)@.insert(
                global_id_of(task.user_uuid@, task.task_uuid@),
                task,
            )),
            !old(self)@.contains_key(global_id_of(task.user_uuid@, task.task_uuid@)) ==> (r
                matches Err(e) && e == StoreError::KeyMissing && final(self)@ == old(self)@),
    {
        proof {
            use_type_invariant(&*self);
        }
        let global_id = task.get_global_id();
        if self.tasks.contains_key(global_id.as_str()) {
            let mut tasks = StringHashMap::<Task>::new();
            std::mem::swap(&mut tasks, &mut self.tasks);
            tasks.insert(global_id, task);
            self.tasks = tasks;
            Ok(())
        } else {
            Err(StoreError::KeyMissing)
        }
    }
}

} // verus!
