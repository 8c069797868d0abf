//! What holds of the store's operations, proved of the model that the
//! executable store follows.

use vstd::prelude::*;
use ink::primitives::AccountId;
use crate::model::{saturated, Operation, TodoListView};
use crate::todo::TodoView;

verus! {

impl TodoListView {
    /// A store that was just set up is well formed.
    pub proof fn lemma_init_inv(owner: AccountId)
        ensures
            TodoListView::init(owner).inv(),
    {
    }

    /// Creation keeps a well-formed store well formed.
    pub proof fn lemma_create_inv(
        self,
        title: Seq<char>,
        description: Seq<char>,
        caller: AccountId,
    )
        requires
            self.inv(),
        ensures
            self.create(title, description, caller).inv(),
    {
        let after = self.create(title, description, caller);
        assert forall|id: u32| #[trigger] after.records.contains_key(id) implies after.records[id].id
            == id && (id < after.next_id || after.next_id == u32::MAX) by {
            if id != self.next_id {
                assert(self.records.contains_key(id));
            }
        }
    }

    /// An update keeps a well-formed store well formed.
    pub proof fn lemma_update_inv(self, id: u32, title: Seq<char>, description: Seq<char>)
        requires
            self.inv(),
        ensures
            self.update(id, title, description).inv(),
    {
        let after = self.update(id, title, description);
        assert forall|k: u32| #[trigger] after.records.contains_key(k) implies after.records[k].id
            == k && (k < after.next_id || after.next_id == u32::MAX) by {
            assert(self.records.contains_key(k));
        }
    }

    /// Completion keeps a well-formed store well formed.
    pub proof fn lemma_complete_inv(self, id: u32)
        requires
            self.inv(),
        ensures
            self.complete(id).inv(),
    {
        let after = self.complete(id);
        assert forall|k: u32| #[trigger] after.records.contains_key(k) implies after.records[k].id
            == k && (k < after.next_id || after.next_id == u32::MAX) by {
            assert(self.records.contains_key(k));
        }
    }

    /// Deletion keeps a well-formed store well formed.
    pub proof fn lemma_delete_inv(self, id: u32)
        requires
            self.inv(),
        ensures
            self.delete(id).inv(),
    {
        let after = self.delete(id);
        assert forall|k: u32| #[trigger] after.records.contains_key(k) implies after.records[k].id
            == k && (k < after.next_id || after.next_id == u32::MAX) by {
            assert(self.records.contains_key(k));
        }
    }

    /// Any one operation keeps a well-formed store well formed.
    pub proof fn lemma_apply_inv(self, op: Operation)
        requires
            self.inv(),
        ensures
            self.apply(op).inv(),
    {
        match op {
            Operation::Create { title, description, caller } => self.lemma_create_inv(
                title,
                description,
                caller,
            ),
            Operation::Update { id, title, description } => self.lemma_update_inv(
                id,
                title,
                description,
            ),
            Operation::Complete { id } => self.lemma_complete_inv(id),
            Operation::Delete { id } => self.lemma_delete_inv(id),
        }
    }

    /// Whatever is done to a well-formed store, it stays well formed.
    pub proof fn lemma_run_inv(self, ops: Seq<Operation>)
        requires
            self.inv(),
        ensures
            self.run(ops).inv(),
        decreases ops.len(),
    {
        if ops.len() > 0 {
            self.lemma_run_inv(ops.drop_last());
            self.run(ops.drop_last()).lemma_apply_inv(ops.last());
        }
    }

    /// The identifiers that creations hand out follow the counter: the first
    /// is the counter's value, each next one is one more, until the largest
    /// identifier is reached, which is then handed out again and again. The
    /// counter ends as many steps on as there were creations.
    pub proof fn lemma_created_ids_follow_counter(self, ops: Seq<Operation>)
        ensures
            forall|k: int|
                0 <= k < self.created_ids(ops).len() ==> #[trigger] self.created_ids(ops)[k]
                    == saturated((self.next_id + k) as nat),
            self.run(ops).next_id == saturated(self.next_id as nat + self.created_ids(ops).len()),
        decreases ops.len(),
    {
        if ops.len() > 0 {
            self.lemma_created_ids_follow_counter(ops.drop_last());
        }
    }

    /// In a store that was set up and then saw creations only, the creations
    /// hand out 0, 1, 2 and so on, and the count is the number of creations.
    /// Past the largest identifier both stay at it.
    pub proof fn lemma_creations_count_from_zero(owner: AccountId, ops: Seq<Operation>)
        requires
            forall|i: int| 0 <= i < ops.len() ==> #[trigger] ops[i] is Create,
        ensures
            TodoListView::init(owner).created_ids(ops).len() == ops.len(),
            forall|k: int|
                0 <= k < ops.len() ==> #[trigger] TodoListView::init(owner).created_ids(ops)[k]
                    == saturated(k as nat),
            TodoListView::init(owner).run(ops).next_id == saturated(ops.len()),
    {
        let start = TodoListView::init(owner);
        start.lemma_creations_are_counted(ops);
        start.lemma_created_ids_follow_counter(ops);
    }

    /// Where every operation is a creation, each hands out an identifier.
    pub proof fn lemma_creations_are_counted(self, ops: Seq<Operation>)
        requires
            forall|i: int| 0 <= i < ops.len() ==> #[trigger] ops[i] is Create,
        ensures
            self.created_ids(ops).len() == ops.len(),
        decreases ops.len(),
    {
        if ops.len() > 0 {
            self.lemma_creations_are_counted(ops.drop_last());
            assert(ops[ops.len() - 1] is Create);
        }
    }

    /// Right after a creation the new record is found under the identifier
    /// that was handed out, with the texts and the creator that were given,
    /// and not completed.
    pub proof fn lemma_get_after_create(
        self,
        title: Seq<char>,
        description: Seq<char>,
        caller: AccountId,
    )
        ensures
            self.create(title, description, caller).get(self.next_id) == Some(
                (TodoView {
                    id: self.next_id,
                    title,
                    description,
                    completed: false,
                    creator: caller,
                }),
            ),
    {
    }

    /// An update of an existing record replaces its two texts and nothing
    /// else: identifier, creator and completion stay, and so do all other
    /// records, the counter and the owner.
    pub proof fn lemma_update_existing(self, id: u32, title: Seq<char>, description: Seq<char>)
        requires
            self.contains(id),
        ensures
            self.update(id, title, description).get(id) == Some(
                (TodoView {
                    id: self.records[id].id,
                    title,
                    description,
                    completed: self.records[id].completed,
                    creator: self.records[id].creator,
                }),
            ),
            forall|other: u32|
                other != id ==> #[trigger] self.update(id, title, description).get(other)
                    == self.get(other),
            self.update(id, title, description).next_id == self.next_id,
            self.update(id, title, description).owner == self.owner,
    {
    }

    /// An update under an identifier that has no record leaves the store as
    /// it was.
    pub proof fn lemma_update_missing(self, id: u32, title: Seq<char>, description: Seq<char>)
        requires
            !self.contains(id),
        ensures
            self.update(id, title, description) == self,
    {
    }

    /// Completion of an existing record sets its flag and nothing else.
    pub proof fn lemma_complete_existing(self, id: u32)
        requires
            self.contains(id),
        ensures
            self.complete(id).get(id) == Some(
                (TodoView {
                    id: self.records[id].id,
                    title: self.records[id].title,
                    description: self.records[id].description,
                    completed: true,
                    creator: self.records[id].creator,
                }),
            ),
            forall|other: u32|
                other != id ==> #[trigger] self.complete(id).get(other) == self.get(other),
            self.complete(id).next_id == self.next_id,
            self.complete(id).owner == self.owner,
    {
    }

    /// Completing twice is completing once: the record is still there for
    /// the second time, which changes nothing.
    pub proof fn lemma_complete_twice(self, id: u32)
        ensures
            self.complete(id).contains(id) == self.contains(id),
            self.complete(id).complete(id) == self.complete(id),
    {
        assert(self.complete(id).complete(id).records =~= self.complete(id).records);
    }

    /// After a deletion nothing is found under the identifier, and all other
    /// records are as they were.
    pub proof fn lemma_get_after_delete(self, id: u32)
        ensures
            self.delete(id).get(id).is_none(),
            forall|other: u32|
                other != id ==> #[trigger] self.delete(id).get(other) == self.get(other),
            self.delete(id).next_id == self.next_id,
            self.delete(id).owner == self.owner,
    {
    }

    /// An identifier below the counter that has no record never gets one
    /// again: whatever is done to the store, no creation hands it out and
    /// nothing is found under it.
    pub proof fn lemma_free_id_stays_free(self, id: u32, ops: Seq<Operation>)
        requires
            id < self.next_id,
            !self.contains(id),
        ensures
            !self.run(ops).contains(id),
            forall|k: int|
                0 <= k < self.created_ids(ops).len() ==> #[trigger] self.created_ids(ops)[k] != id,
        decreases ops.len(),
    {
        if ops.len() > 0 {
            self.lemma_free_id_stays_free(id, ops.drop_last());
            self.lemma_created_ids_follow_counter(ops.drop_last());
        }
    }

    /// The identifier of a deleted record is never used again, whatever is
    /// done to the store afterwards. This is stated of every identifier but
    /// the largest: once the counter has reached the largest identifier,
    /// every further creation hands that one out.
    pub proof fn lemma_deleted_id_not_reused(self, id: u32, ops: Seq<Operation>)
        requires
            self.inv(),
            self.contains(id),
            id < u32::MAX,
        ensures
            !self.delete(id).run(ops).contains(id),
            forall|k: int|
                0 <= k < self.delete(id).created_ids(ops).len() ==> #[trigger] self.delete(
                    id,
                ).created_ids(ops)[k] != id,
    {
        self.delete(id).lemma_free_id_stays_free(id, ops);
    }

    /// The owner is the one who set the store up, whatever is done to the
    /// store and whoever does it.
    pub proof fn lemma_owner_is_fixed(self, ops: Seq<Operation>)
        ensures
            self.run(ops).owner == self.owner,
        decreases ops.len(),
    {
        if ops.len() > 0 {
            self.lemma_owner_is_fixed(ops.drop_last());
        }
    }

    /// As long as a record exists it keeps its identifier and its creator,
    /// and once completed it stays completed, whatever is done to the store.
    /// This is stated of every identifier but the largest, which a counter
    /// that has reached it hands out again.
    pub proof fn lemma_record_keeps_identity(self, id: u32, ops: Seq<Operation>)
        requires
            self.inv(),
            self.contains(id),
            id < u32::MAX,
        ensures
            self.run(ops).contains(id) ==> {
                &&& self.run(ops).records[id].id == id
                &&& self.run(ops).records[id].creator == self.records[id].creator
                &&& self.records[id].completed ==> self.run(ops).records[id].completed
            },
        decreases ops.len(),
    {
        if ops.len() > 0 {
            let before = self.run(ops.drop_last());
            self.lemma_record_keeps_identity(id, ops.drop_last());
            self.lemma_created_ids_follow_counter(ops.drop_last());
            assert(id < before.next_id);
        }
    }
}

} // verus!
