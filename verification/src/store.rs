//! The executable store.

use vstd::prelude::*;
use std::collections::HashMap;
use ink::primitives::AccountId;
use crate::events::{TodoCompleted, TodoCreated, TodoDeleted, TodoUpdated};
use crate::model::{next_count, TodoListView};
use crate::todo::Todo;

verus! {

broadcast use vstd::std_specs::hash::group_hash_axioms;

/// The counter after one more identifier was handed out: it stops at the
/// largest identifier instead of starting over.
pub fn advance_count(count: u32) -> (next: u32)
    ensures
        next == next_count(count),
{
    count.saturating_add(1)
}

/// A store of todo records.
///
/// Each operation that changes the store hands back the notification of
/// that change; one that finds no record under the identifier it was given
/// changes nothing and hands back `None`.
pub struct InkTodoList {
    todos: HashMap<u32, Todo>,
    todo_count: u32,
    owner: AccountId,
}

impl View for InkTodoList {
    type V = TodoListView;

    closed spec fn view(&self) -> TodoListView {
        model_of(self.todos@, self.todo_count, self.owner)
    }
}

/// The store that the three parts stand for together.
spec fn model_of(todos: Map<u32, Todo>, todo_count: u32, owner: AccountId) -> TodoListView {
    TodoListView { records: todos.map_values(|todo: Todo| todo@), next_id: todo_count, owner }
}

impl InkTodoList {
    #[verifier::type_invariant]
    spec fn well_formed(self) -> bool {
        self@.inv()
    }

    /// Moves the records out and leaves the store without any meanwhile, so
    /// that the store is well formed at every step while they change.
    fn take_records(&mut self) -> (todos: HashMap<u32, Todo>)
        ensures
            todos@ == old(self).todos@,
            final(self).todos@ == Map::<u32, Todo>::empty(),
            final(self).todo_count == old(self).todo_count,
            final(self).owner == old(self).owner,
    {
        let mut todos = HashMap::new();
        assert(model_of(todos@, self.todo_count, self.owner).records =~= Map::empty());
        std::mem::swap(&mut self.todos, &mut todos);
        todos
    }

    /// An empty store that belongs to `caller`.
    pub fn new(caller: AccountId) -> (list: InkTodoList)
        ensures
            list@ == TodoListView::init(caller),
            list@.inv(),
    {
        let todos = HashMap::new();
        assert(model_of(todos@, 0, caller).records =~= Map::empty());
        InkTodoList { todos, todo_count: 0, owner: caller }
    }

    /// Creates a record for `caller` under the next identifier and moves the
    /// counter on. The notification carries the identifier of the new record.
    pub fn create_todo(&mut self, title: String, description: String, caller: AccountId) -> (event:
        TodoCreated)
        ensures
            final(self)@ == old(self)@.create(title@, description@, caller),
            event.id == old(self)@.next_id,
            final(self)@.inv(),
    {
        proof {
            use_type_invariant(&*self);
        }
        let id: u32 = self.todo_count;
        let todo = Todo::new(id, title, description, caller);
        let mut todos = self.take_records();
        todos.insert(id, todo);
        self.todo_count = advance_count(id);
        proof {
            let after = old(self)@.create(title@, description@, caller);
            assert(model_of(todos@, self.todo_count, self.owner).records =~= after.records);
            old(self)@.lemma_create_inv(title@, description@, caller);
        }
        self.todos = todos;
        TodoCreated { id }
    }

    /// Replaces the title and the description of the record under `id`.
    pub fn update_todo(&mut self, id: u32, title: String, description: String) -> (event: Option<
        TodoUpdated,
    >)
        ensures
            final(self)@ == old(self)@.update(id, title@, description@),
            event == if old(self)@.contains(id) {
                Some((TodoUpdated { id }))
            } else {
                None
            },
            final(self)@.inv(),
    {
        proof {
            use_type_invariant(&*self);
        }
        match self.todos.get(&id) {
            Some(found) => {
                let mut todo = found.clone();
                todo.set_content(title, description);
                let mut todos = self.take_records();
                todos.insert(id, todo);
                proof {
                    let after = old(self)@.update(id, title@, description@);
                    assert(model_of(todos@, self.todo_count, self.owner).records =~= after.records);
                    old(self)@.lemma_update_inv(id, title@, description@);
                }
                self.todos = todos;
                Some(TodoUpdated { id })
            },
            None => None,
        }
    }

    /// Removes the record under `id`.
    pub fn delete_todo(&mut self, id: u32) -> (event: Option<TodoDeleted>)
        ensures
            final(self)@ == old(self)@.delete(id),
            event == if old(self)@.contains(id) {
                Some((TodoDeleted { id }))
            } else {
                None
            },
            final(self)@.inv(),
    {
        proof {
            use_type_invariant(&*self);
        }
        if self.todos.contains_key(&id) {
            let mut todos = self.take_records();
            todos.remove(&id);
            proof {
                let after = old(self)@.delete(id);
                assert(model_of(todos@, self.todo_count, self.owner).records =~= after.records);
                old(self)@.lemma_delete_inv(id);
            }
            self.todos = todos;
            Some(TodoDeleted { id })
        } else {
            None
        }
    }

    /// Marks the record under `id` as completed. A record that is completed
    /// already stays so, and the notification is handed back all the same.
    pub fn complete_todo(&mut self, id: u32) -> (event: Option<TodoCompleted>)
        ensures
            final(self)@ == old(self)@.complete(id),
            event == if old(self)@.contains(id) {
                Some((TodoCompleted { id }))
            } else {
                None
            },
            final(self)@.inv(),
    {
        proof {
            use_type_invariant(&*self);
        }
        match self.todos.get(&id) {
            Some(found) => {
                let mut todo = found.clone();
                todo.set_completed();
                let mut todos = self.take_records();
                todos.insert(id, todo);
                proof {
                    let after = old(self)@.complete(id);
                    assert(model_of(todos@, self.todo_count, self.owner).records =~= after.records);
                    old(self)@.lemma_complete_inv(id);
                }
                self.todos = todos;
                Some(TodoCompleted { id })
            },
            None => None,
        }
    }

    /// The record under `id`, if there is one.
    pub fn get_todo(&self, id: u32) -> (found: Option<Todo>)
        ensures
            match found {
                Some(todo) => self@.get(id) == Some(todo@),
                None => self@.get(id).is_none(),
            },
            self@.inv(),
    {
        proof {
            use_type_invariant(self);
        }
        match self.todos.get(&id) {
            Some(todo) => Some(todo.clone()),
            None => None,
        }
    }

    /// How many identifiers were handed out so far. Records that were deleted
    /// since are still counted.
    pub fn get_todo_count(&self) -> (count: u32)
        ensures
            count == self@.next_id,
            self@.inv(),
    {
        proof {
            use_type_invariant(self);
        }
        self.todo_count
    }

    /// Who set the store up.
    pub fn get_owner(&self) -> (owner: AccountId)
        ensures
            owner == self@.owner,
            self@.inv(),
    {
        proof {
            use_type_invariant(self);
        }
        self.owner
    }
}

} // verus!
