//! A single todo record and its mathematical model.

use vstd::prelude::*;
use ink::primitives::AccountId;

verus! {

/// One todo item.
#[derive(Debug, PartialEq, Eq)]
pub struct Todo {
    /// The identifier the record was created under.
    pub id: u32,
    pub title: String,
    pub description: String,
    /// Whether the item has been marked as done.
    pub completed: bool,
    /// Who created the record.
    pub creator: AccountId,
}

/// What a [`Todo`] stands for: its texts as sequences of characters.
pub struct TodoView {
    pub id: u32,
    pub title: Seq<char>,
    pub description: Seq<char>,
    pub completed: bool,
    pub creator: AccountId,
}

impl View for Todo {
    type V = TodoView;

    open spec fn view(&self) -> TodoView {
        TodoView {
            id: self.id,
            title: self.title@,
            description: self.description@,
            completed: self.completed,
            creator: self.creator,
        }
    }
}

impl TodoView {
    /// The record that creation under `id` yields: not yet completed.
    pub open spec fn fresh(
        id: u32,
        title: Seq<char>,
        description: Seq<char>,
        creator: AccountId,
    ) -> TodoView {
        TodoView { id, title, description, completed: false, creator }
    }

    /// This record with its two texts replaced.
    pub open spec fn with_content(self, title: Seq<char>, description: Seq<char>) -> TodoView {
        TodoView { title, description, ..self }
    }

    /// This record marked as completed.
    pub open spec fn finished(self) -> TodoView {
        TodoView { completed: true, ..self }
    }
}

impl Clone for Todo {
    fn clone(&self) -> (copy: Self)
        ensures
            copy@ == self@,
    {
        Todo {
            id: self.id,
            title: self.title.clone(),
            description: self.description.clone(),
            completed: self.completed,
            creator: self.creator,
        }
    }
}

impl Todo {
    /// A new record, not yet completed.
    pub fn new(id: u32, title: String, description: String, creator: AccountId) -> (todo: Todo)
        ensures
            todo@ == TodoView::fresh(id, title@, description@, creator),
    {
        Todo { id, title, description, completed: false, creator }
    }

    /// Replaces the title and the description and leaves the rest as it is.
    pub fn set_content(&mut self, title: String, description: String)
        ensures
            final(self)@ == old(self)@.with_content(title@, description@),
    {
        self.title = title;
        self.description = description;
    }

    /// Marks the record as completed.
    pub fn set_completed(&mut self)
        ensures
            final(self)@ == old(self)@.finished(),
    {
        self.completed = true;
    }
}

} // verus!
