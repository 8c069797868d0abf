//! The store as a mathematical value: a map of records, the counter that
//! hands out identifiers, and the owner.
//!
//! Every operation of the store is a function on this value. The executable
//! store promises, operation by operation, to follow these functions.

use vstd::prelude::*;
use ink::primitives::AccountId;
use crate::todo::TodoView;

verus! {

/// The counter that follows `count`: one more, but never past the largest
/// identifier.
pub open spec fn next_count(count: u32) -> u32 {
    if count < u32::MAX {
        (count + 1) as u32
    } else {
        u32::MAX
    }
}

/// The identifier that the counter shows after `n` steps from zero: `n`, or
/// the largest identifier once `n` has passed it.
pub open spec fn saturated(n: nat) -> u32 {
    if n < u32::MAX {
        n as u32
    } else {
        u32::MAX
    }
}

/// What a store stands for.
pub struct TodoListView {
    /// The records that exist, each under its identifier.
    pub records: Map<u32, TodoView>,
    /// The identifier that the next creation hands out.
    pub next_id: u32,
    /// Who set the store up.
    pub owner: AccountId,
}

/// One change that a caller may ask of a store.
pub enum Operation {
    Create { title: Seq<char>, description: Seq<char>, caller: AccountId },
    Update { id: u32, title: Seq<char>, description: Seq<char> },
    Complete { id: u32 },
    Delete { id: u32 },
}

impl TodoListView {
    /// The store right after `owner` has set it up: no record, counter at zero.
    pub open spec fn init(owner: AccountId) -> TodoListView {
        TodoListView { records: Map::empty(), next_id: 0, owner }
    }

    /// Whether a record exists under `id`.
    pub open spec fn contains(self, id: u32) -> bool {
        self.records.contains_key(id)
    }

    /// The record under `id`, if there is one.
    pub open spec fn get(self, id: u32) -> Option<TodoView> {
        if self.contains(id) {
            Some(self.records[id])
        } else {
            None
        }
    }

    /// Creation: a fresh record under the counter's value, and the counter
    /// moved on.
    pub open spec fn create(
        self,
        title: Seq<char>,
        description: Seq<char>,
        caller: AccountId,
    ) -> TodoListView {
        TodoListView {
            records: self.records.insert(
                self.next_id,
                TodoView::fresh(self.next_id, title, description, caller),
            ),
            next_id: next_count(self.next_id),
            ..self
        }
    }

    /// Update: the two texts of the record under `id` replaced; nothing at
    /// all where no such record exists.
    pub open spec fn update(
        self,
        id: u32,
        title: Seq<char>,
        description: Seq<char>,
    ) -> TodoListView {
        if self.contains(id) {
            TodoListView {
                records: self.records.insert(id, self.records[id].with_content(title, description)),
                ..self
            }
        } else {
            self
        }
    }

    /// Completion: the record under `id` marked as completed; nothing at all
    /// where no such record exists.
    pub open spec fn complete(self, id: u32) -> TodoListView {
        if self.contains(id) {
            TodoListView { records: self.records.insert(id, self.records[id].finished()), ..self }
        } else {
            self
        }
    }

    /// Deletion: the record under `id` gone; nothing at all where no such
    /// record exists.
    pub open spec fn delete(self, id: u32) -> TodoListView {
        if self.contains(id) {
            TodoListView { records: self.records.remove(id), ..self }
        } else {
            self
        }
    }

    /// The store after `op`.
    pub open spec fn apply(self, op: Operation) -> TodoListView {
        match op {
            Operation::Create { title, description, caller } => self.create(
                title,
                description,
                caller,
            ),
            Operation::Update { id, title, description } => self.update(id, title, description),
            Operation::Complete { id } => self.complete(id),
            Operation::Delete { id } => self.delete(id),
        }
    }

    /// The store after all of `ops`, first to last.
    pub open spec fn run(self, ops: Seq<Operation>) -> TodoListView
        decreases ops.len(),
    {
        if ops.len() == 0 {
            self
        } else {
            self.run(ops.drop_last()).apply(ops.last())
        }
    }

    /// The identifiers that the creations among `ops` hand out, in order.
    pub open spec fn created_ids(self, ops: Seq<Operation>) -> Seq<u32>
        decreases ops.len(),
    {
        if ops.len() == 0 {
            Seq::empty()
        } else {
            let before = self.created_ids(ops.drop_last());
            match ops.last() {
                Operation::Create { .. } => before.push(self.run(ops.drop_last()).next_id),
                _ => before,
            }
        }
    }

    /// What holds of every store that was set up and then only changed by
    /// its operations: each record sits under its own identifier, and that
    /// identifier was handed out before. A counter that has reached the
    /// largest identifier stays there, and so does not tell any more which
    /// identifiers were handed out.
    pub open spec fn inv(self) -> bool {
        forall|id: u32| #[trigger]
            self.records.contains_key(id) ==> self.records[id].id == id && (id < self.next_id
                || self.next_id == u32::MAX)
    }
}

} // verus!
