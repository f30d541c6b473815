//! Tasks: the store stamps each task with the time it was created or last
//! edited, in its `creation_date` field.

use vstd::prelude::*;

use crate::clock::now_timestamp;
use crate::records::Task;
use crate::table::{fresh_or_kept, has_id, Row, StoreError, Table};

verus! {

impl Table<Task> {
    /// Records a new task stamped with `stamp`.
    pub fn add_task_at(
        &mut self,
        title: String,
        description: String,
        status: String,
        priority: String,
        due_date: String,
        category: String,
        attachments: Option<String>,
        stamp: String,
    ) -> (r: Result<i64, StoreError>)
        requires
            old(self).wf(),
        ensures
            final(self).wf(),
            fresh_or_kept(old(self)@, old(self).next_id(), final(self)@, final(self).next_id()),
            r.is_err() <==> old(self).next_id() == i64::MAX,
            r.is_err() ==> r == Err::<i64, StoreError>(StoreError::IdsExhausted) && *final(self) == *old(self),
            r.is_ok() ==> {
                let id = r.unwrap();
                &&& id == old(self).next_id()
                &&& !has_id(old(self)@, id as int)
                &&& final(self).next_id() == id + 1
                &&& final(self)@ == old(self)@.push(Row {
                    id,
                    record: Task {
                        title,
                        description,
                        status,
                        priority,
                        due_date,
                        creation_date: stamp,
                        category,
                        attachments,
                    },
                })
            },
    {
        self.add(
            Task {
                title,
                description,
                status,
                priority,
                due_date,
                creation_date: stamp,
                category,
                attachments,
            },
        )
    }

    /// `add_task_at` stamped with the local time now.
    pub fn add_task(
        &mut self,
        title: String,
        description: String,
        status: String,
        priority: String,
        due_date: String,
        category: String,
        attachments: Option<String>,
    ) -> (r: Result<i64, StoreError>)
        requires
            old(self).wf(),
        ensures
            final(self).wf(),
            fresh_or_kept(old(self)@, old(self).next_id(), final(self)@, final(self).next_id()),
            r.is_err() <==> old(self).next_id() == i64::MAX,
            r.is_err() ==> *final(self) == *old(self),
            r.is_ok() ==> {
                let id = r.unwrap();
                &&& id == old(self).next_id()
                &&& !has_id(old(self)@, id as int)
                &&& final(self).next_id() == id + 1
                &&& final(self)@.len() == old(self)@.len() + 1
                &&& final(self)@.drop_last() == old(self)@
                &&& final(self)@.last().id == id
                &&& final(self)@.last().record.title == title
                &&& final(self)@.last().record.description == description
                &&& final(self)@.last().record.status == status
                &&& final(self)@.last().record.priority == priority
                &&& final(self)@.last().record.due_date == due_date
                &&& final(self)@.last().record.category == category
                &&& final(self)@.last().record.attachments == attachments
            },
    {
        let stamp = now_timestamp();
        let r = self.add_task_at(title, description, status, priority, due_date, category, attachments, stamp);
        proof {
            if r.is_ok() {
                assert(self@.drop_last() == old(self)@);
            }
        }
        r
    }

    /// Overwrites every field of the task carrying `id`, its stamp included,
    /// which becomes `stamp`. Without such a task nothing changes.
    pub fn update_task_at(
        &mut self,
        id: i64,
        title: String,
        description: String,
        status: String,
        priority: String,
        due_date: String,
        category: String,
        attachments: Option<String>,
        stamp: String,
    )
        requires
            old(self).wf(),
        ensures
            final(self).wf(),
            fresh_or_kept(old(self)@, old(self).next_id(), final(self)@, final(self).next_id()),
            final(self).next_id() == old(self).next_id(),
            !has_id(old(self)@, id as int) ==> *final(self) == *old(self),
            has_id(old(self)@, id as int) ==> exists|k: int|
                0 <= k < old(self)@.len() && (#[trigger] old(self)@[k]).id == id
                && final(self)@ == old(self)@.update(k, Row {
                    id,
                    record: Task {
                        title,
                        description,
                        status,
                        priority,
                        due_date,
                        creation_date: stamp,
                        category,
                        attachments,
                    },
                }),
    {
        match self.position(id) {
            Some(k) => {
                self.set_record(
                    k,
                    Task {
                        title,
                        description,
                        status,
                        priority,
                        due_date,
                        creation_date: stamp,
                        category,
                        attachments,
                    },
                );
                assert(old(self)@[k as int].id == id);
            },
            None => {},
        }
    }

    /// `update_task_at` stamped with the local time now.
    pub fn update_task(
        &mut self,
        id: i64,
        title: String,
        description: String,
        status: String,
        priority: String,
        due_date: String,
        category: String,
        attachments: Option<String>,
    )
        requires
            old(self).wf(),
        ensures
            final(self).wf(),
            fresh_or_kept(old(self)@, old(self).next_id(), final(self)@, final(self).next_id()),
            final(self).next_id() == old(self).next_id(),
            !has_id(old(self)@, id as int) ==> *final(self) == *old(self),
            has_id(old(self)@, id as int) ==> exists|k: int|
                0 <= k < old(self)@.len() && (#[trigger] old(self)@[k]).id == id && {
                    let t = final(self)@[k].record;
                    &&& final(self)@.len() == old(self)@.len()
                    &&& final(self)@[k].id == id
                    &&& t.title == title
                    &&& t.description == description
                    &&& t.status == status
                    &&& t.priority == priority
                    &&& t.due_date == due_date
                    &&& t.category == category
                    &&& t.attachments == attachments
                    &&& forall|j: int| 0 <= j < old(self)@.len() && j != k ==> #[trigger] final(self)@[j] == old(self)@[j]
                },
    {
        let stamp = now_timestamp();
        self.update_task_at(id, title, description, status, priority, due_date, category, attachments, stamp);
    }
}

} // verus!
