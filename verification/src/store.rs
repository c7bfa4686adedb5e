//! The shared in-memory sequence of task records and its operations.
//!
//! The store keeps records in insertion order and never holds two records
//! with the same id. Every mutation returns a snapshot of the whole store,
//! and a missing id leaves the store untouched.

use vstd::prelude::*;
use vstd::pervasive::VecAdditionalExecFns;
use crate::item::TodoItem;
use crate::gen;

verus! {

/// Why a store operation failed.
#[derive(Clone, Copy, PartialEq, Eq, Structural, Debug)]
pub enum StoreError {
    NotFound,
}

impl StoreError {
    /// The fixed plain-text body sent when a record is missing.
    pub fn message(&self) -> (text: &'static str)
        ensures
            text@ == "Todo not found"@,
    {
        "Todo not found"
    }
}

/// Some record in `records` carries the id.
pub open spec fn contains_id(records: Seq<TodoItem>, id: u128) -> bool {
    exists|i: int| 0 <= i < records.len() && records[i].id == id
}

/// No two records in `records` carry the same id.
pub open spec fn unique_ids(records: Seq<TodoItem>) -> bool {
    forall|i: int, j: int|
        0 <= i < records.len() && 0 <= j < records.len() && records[i].id == records[j].id
            ==> i == j
}

/// The record `before` with the supplied fields replaced and the
/// unsupplied ones kept.
pub open spec fn patched(before: TodoItem, title: Option<String>, completed: Option<bool>) -> TodoItem {
    TodoItem {
        id: before.id,
        title: match title {
            Option::Some(t) => t,
            Option::None => before.title,
        },
        completed: match completed {
            Option::Some(c) => c,
            Option::None => before.completed,
        },
        created_at: before.created_at,
    }
}

/// How a store changes when a record with a drawn id is inserted: a fresh
/// id appends the record, a clashing one leaves the store as it was.
pub open spec fn appended(
    pre: Seq<TodoItem>,
    post: Seq<TodoItem>,
    id: u128,
    created_at: i64,
    title: String,
    completed: bool,
) -> bool {
    if contains_id(pre, id) {
        post == pre
    } else {
        post == pre.push(
            TodoItem { id: id, title: title, completed: completed, created_at: created_at },
        )
    }
}

/// The authoritative ordered collection of task records.
pub struct TodoStore {
    items: Vec<TodoItem>,
}

impl View for TodoStore {
    type V = Seq<TodoItem>;

    closed spec fn view(&self) -> Seq<TodoItem> {
        self.items@
    }
}

impl TodoStore {
    /// The store's invariant: ids are unique at all times.
    pub open spec fn wf(&self) -> bool {
        unique_ids(self@)
    }

    /// A store with no records.
    pub fn new() -> (store: TodoStore)
        ensures
            store.wf(),
            store@ == Seq::<TodoItem>::empty(),
    {
        TodoStore { items: Vec::new() }
    }

    /// A snapshot copy of all current records, in store order.
    pub fn list(&self) -> (snapshot: Vec<TodoItem>)
        ensures
            snapshot@ == self@,
    {
        let mut out: Vec<TodoItem> = Vec::new();
        let mut i: usize = 0;
        while i < self.items.len()
            invariant
                i <= self.items.len(),
                out@ =~= self.items@.subrange(0, i as int),
            decreases self.items.len() - i,
        {
            out.push(self.items[i].clone());
            i = i + 1;
        }
        proof {
            assert(out@ =~= self@);
        }
        out
    }

    /// The position of the record carrying `id`, if any.
    fn find_index(&self, id: u128) -> (found: Option<usize>)
        ensures
            match found {
                Option::Some(i) => i < self@.len() && self@[i as int].id == id,
                Option::None => !contains_id(self@, id),
            },
    {
        let mut i: usize = 0;
        while i < self.items.len()
            invariant
                i <= self.items.len(),
                forall|j: int| 0 <= j < i ==> self.items@[j].id != id,
            decreases self.items.len() - i,
        {
            if self.items[i].id == id {
                return Option::Some(i);
            }
            i = i + 1;
        }
        Option::None
    }

    /// Appends a record built from the given id and creation time, unless
    /// the id is already taken: then the store is left unchanged.
    pub fn insert_with(
        &mut self,
        id: u128,
        created_at: i64,
        title: String,
        completed: bool,
    ) -> (added: bool)
        requires
            old(self).wf(),
        ensures
            final(self).wf(),
            added == !contains_id(old(self)@, id),
            added ==> final(self)@ == old(self)@.push(
                TodoItem { id: id, title: title, completed: completed, created_at: created_at },
            ),
            !added ==> final(self)@ == old(self)@,
    {
        match self.find_index(id) {
            Option::Some(_) => false,
            Option::None => {
                let ghost pre = self.items@;
                self.items.push(
                    TodoItem { id: id, title: title, completed: completed, created_at: created_at },
                );
                proof {
                    assert forall|i: int, j: int|
                        0 <= i < self.items@.len() && 0 <= j < self.items@.len()
                            && self.items@[i].id == self.items@[j].id implies i == j by {
                        if i < pre.len() && j < pre.len() {
                        } else if i < pre.len() {
                            assert(pre[i].id != id);
                        } else if j < pre.len() {
                            assert(pre[j].id != id);
                        }
                    }
                }
                true
            },
        }
    }

    /// Generates a fresh id and the current time, then inserts. The drawn
    /// id decides the outcome: an unused one appends the record, a clash
    /// leaves the store as it was.
    pub fn insert(&mut self, title: String, completed: bool) -> (snapshot: Vec<TodoItem>)
        requires
            old(self).wf(),
        ensures
            final(self).wf(),
            snapshot@ == final(self)@,
            exists|id: u128, created_at: i64|
                #[trigger] appended(old(self)@, final(self)@, id, created_at, title, completed),
    {
        let ghost pre = self@;
        let id = gen::fresh_id();
        let created_at = gen::now_millis();
        let added = self.insert_with(id, created_at, title, completed);
        proof {
            assert(appended(pre, self@, id, created_at, title, completed));
        }
        self.list()
    }

    /// Replaces only the supplied fields of the record carrying `id`; a
    /// missing id signals `NotFound` and changes nothing.
    pub fn update(
        &mut self,
        id: u128,
        title: Option<String>,
        completed: Option<bool>,
    ) -> (result: Result<Vec<TodoItem>, StoreError>)
        requires
            old(self).wf(),
        ensures
            final(self).wf(),
            match result {
                Result::Ok(snapshot) => {
                    &&& contains_id(old(self)@, id)
                    &&& final(self)@.len() == old(self)@.len()
                    &&& forall|k: int|
                        0 <= k < old(self)@.len() && old(self)@[k].id != id
                            ==> final(self)@[k] == old(self)@[k]
                    &&& forall|k: int|
                        0 <= k < old(self)@.len() && old(self)@[k].id == id
                            ==> final(self)@[k] == patched(old(self)@[k], title, completed)
                    &&& snapshot@ == final(self)@
                },
                Result::Err(e) => {
                    &&& e == StoreError::NotFound
                    &&& !contains_id(old(self)@, id)
                    &&& final(self)@ == old(self)@
                },
            },
    {
        match self.find_index(id) {
            Option::None => Result::Err(StoreError::NotFound),
            Option::Some(i) => {
                let ghost pre = self.items@;
                let current = &self.items[i];
                let new_title = match title {
                    Option::Some(t) => t,
                    Option::None => current.title.clone(),
                };
                let new_completed = match completed {
                    Option::Some(c) => c,
                    Option::None => current.completed,
                };
                let replacement = TodoItem {
                    id: current.id,
                    title: new_title,
                    completed: new_completed,
                    created_at: current.created_at,
                };
                self.items.set(i, replacement);
                proof {
                    assert(replacement == patched(pre[i as int], title, completed));
                    assert forall|x: int, y: int|
                        0 <= x < self.items@.len() && 0 <= y < self.items@.len()
                            && self.items@[x].id == self.items@[y].id implies x == y by {
                        assert(self.items@[x].id == pre[x].id);
                        assert(self.items@[y].id == pre[y].id);
                    }
                    assert forall|k: int|
                        0 <= k < pre.len() && pre[k].id == id
                            implies self.items@[k] == patched(pre[k], title, completed) by {
                        assert(pre[k].id == pre[i as int].id);
                    }
                }
                Result::Ok(self.list())
            },
        }
    }

    /// Removes the record carrying `id`, keeping the order of the rest; a
    /// missing id signals `NotFound` and changes nothing.
    pub fn delete(&mut self, id: u128) -> (result: Result<Vec<TodoItem>, StoreError>)
        requires
            old(self).wf(),
        ensures
            final(self).wf(),
            match result {
                Result::Ok(snapshot) => {
                    &&& contains_id(old(self)@, id)
                    &&& final(self)@.len() == old(self)@.len() - 1
                    &&& exists|i: int|
                        0 <= i < old(self)@.len() && old(self)@[i].id == id
                            && final(self)@ == #[trigger] old(self)@.remove(i)
                    &&& !contains_id(final(self)@, id)
                    &&& snapshot@ == final(self)@
                },
                Result::Err(e) => {
                    &&& e == StoreError::NotFound
                    &&& !contains_id(old(self)@, id)
                    &&& final(self)@ == old(self)@
                },
            },
    {
        match self.find_index(id) {
            Option::None => Result::Err(StoreError::NotFound),
            Option::Some(i) => {
                let ghost pre = self.items@;
                self.items.remove(i);
                proof {
                    assert forall|x: int, y: int|
                        0 <= x < self.items@.len() && 0 <= y < self.items@.len()
                            && self.items@[x].id == self.items@[y].id implies x == y by {
                        let px = if x < i { x } else { x + 1 };
                        let py = if y < i { y } else { y + 1 };
                        assert(self.items@[x].id == pre[px].id);
                        assert(self.items@[y].id == pre[py].id);
                    }
                    assert forall|k: int|
                        0 <= k < self.items@.len() implies self.items@[k].id != id by {
                        let pk = if k < i { k } else { k + 1 };
                        assert(self.items@[k].id == pre[pk].id);
                        assert(pre[pk].id == id ==> pk == i);
                    }
                }
                Result::Ok(self.list())
            },
        }
    }
}

} // verus!
