//! The task record held by the store.

use vstd::prelude::*;

verus! {

/// One task record. The id is the 128-bit value of a server-generated
/// unique identifier; `created_at` is the creation time in milliseconds
/// since the Unix epoch. Both are immutable after creation.
pub struct TodoItem {
    pub id: u128,
    pub title: String,
    pub completed: bool,
    pub created_at: i64,
}

impl Clone for TodoItem {
    fn clone(&self) -> (res: Self)
        ensures
            res == *self,
    {
        TodoItem {
            id: self.id,
            title: self.title.clone(),
            completed: self.completed,
            created_at: self.created_at,
        }
    }
}

} // verus!
