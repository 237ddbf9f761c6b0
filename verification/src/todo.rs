//! The todo store: an ordered collection of todo items with
//! create/list/patch/delete, insertion order preserved, identifiers
//! unique within the collection, and monotonic stamps so that an
//! updated item's `update_at` always exceeds its `created_at`.

use vstd::prelude::*;
use vstd::pervasive::VecAdditionalExecFns;
use crate::error::StoreError;
use crate::trusted::{generate_id, now_millis};

verus! {

/// One todo entry. Stamps are milliseconds since the Unix epoch as the
/// store's monotonic clock reports them.
pub struct TodoItem {
    pub id: String,
    pub title: String,
    pub completed: bool,
    pub created_at: u64,
    pub update_at: u64,
}

impl Clone for TodoItem {
    fn clone(&self) -> (r: Self)
        ensures
            r == *self,
    {
        TodoItem {
            id: self.id.clone(),
            title: self.title.clone(),
            completed: self.completed,
            created_at: self.created_at,
            update_at: self.update_at,
        }
    }
}

/// The payload of a create request.
pub struct CreateTodoItem {
    pub title: String,
    pub completed: bool,
}

/// The payload of a patch request: absent fields are left unchanged.
pub struct UpdateTodoItem {
    pub title: Option<String>,
    pub completed: Option<bool>,
}

/// The projection returned on creation (no `update_at`).
pub struct TodoResponse {
    pub id: String,
    pub title: String,
    pub completed: bool,
    pub created_at: u64,
}

/// Whether some entry of `s` carries the identifier `id`.
pub open spec fn has_id(s: Seq<TodoItem>, id: Seq<char>) -> bool {
    exists|i: int| 0 <= i < s.len() && s[i].id@ == id
}

/// The index of the entry carrying `id` (unique in a well-formed store).
pub open spec fn first_with_id(s: Seq<TodoItem>, id: Seq<char>) -> int {
    choose|i: int| 0 <= i < s.len() && s[i].id@ == id
}

/// Identifiers are pairwise distinct.
pub open spec fn distinct_ids(s: Seq<TodoItem>) -> bool {
    forall|i: int, j: int| 0 <= i < j < s.len() ==> s[i].id@ != s[j].id@
}

/// Every stamp is consistent and no stamp exceeds the store's clock.
pub open spec fn stamps_ok(s: Seq<TodoItem>, clock: u64) -> bool {
    forall|i: int|
        0 <= i < s.len() ==> (#[trigger] s[i]).created_at <= s[i].update_at && s[i].update_at
            <= clock
}

/// In a collection with distinct identifiers, an entry's index is the
/// one `first_with_id` picks.
proof fn lemma_index_is_first(s: Seq<TodoItem>, id: Seq<char>, i: int)
    requires
        distinct_ids(s),
        0 <= i < s.len(),
        s[i].id@ == id,
    ensures
        first_with_id(s, id) == i,
{
    let j = first_with_id(s, id);
    assert(0 <= j < s.len() && s[j].id@ == id);
    if i < j {
        assert(s[i].id@ != s[j].id@);
    } else if j < i {
        assert(s[j].id@ != s[i].id@);
    }
}

/// The todo store. All operations are total over its state; a caller
/// sharing it between threads performs each call under one lock.
pub struct TodoStore {
    pub items: Vec<TodoItem>,
    pub clock: u64,
}

impl TodoStore {
    /// The store's invariant: identifiers unique within the collection,
    /// and every entry created no later than it was updated, no later
    /// than the store's clock.
    pub open spec fn wf(&self) -> bool {
        &&& distinct_ids(self.items@)
        &&& stamps_ok(self.items@, self.clock)
    }

    /// An empty store.
    pub fn new() -> (r: TodoStore)
        ensures
            r.wf(),
            r.items@.len() == 0,
            r.clock == 0,
    {
        TodoStore { items: Vec::new(), clock: 0 }
    }

    /// Advances the clock past every stamp handed out so far, to the
    /// current time where the time has moved on. `None` only when the
    /// counter is exhausted, in which case nothing changes.
    fn advance(&mut self) -> (r: Option<u64>)
        ensures
            final(self).items == old(self).items,
            r matches Some(t) ==> t == final(self).clock && old(self).clock < t,
            r is None ==> final(self).clock == old(self).clock,
            r is Some <==> old(self).clock < u64::MAX,
    {
        if self.clock == u64::MAX {
            return None;
        }
        let now_raw = now_millis();
        let now: u64 = if now_raw > 0 {
            now_raw as u64
        } else {
            0
        };
        let t: u64 = if now > self.clock {
            now
        } else {
            self.clock + 1
        };
        self.clock = t;
        Some(t)
    }

    /// The index of the first entry carrying `id`, if any.
    fn find_index(items: &Vec<TodoItem>, id: &String) -> (r: Option<usize>)
        ensures
            r matches Some(i) ==> 0 <= i < items@.len() && items@[i as int].id@ == id@,
            r is None ==> !has_id(items@, id@),
    {
        let mut i: usize = 0;
        while i < items.len()
            invariant
                0 <= i <= items@.len(),
                forall|k: int| 0 <= k < i ==> items@[k].id@ != id@,
            decreases items@.len() - i,
        {
            if items[i].id == *id {
                return Some(i);
            }
            i = i + 1;
        }
        None
    }

    /// A copy of the collection, in insertion order.
    fn snapshot(items: &Vec<TodoItem>) -> (r: Vec<TodoItem>)
        ensures
            r@ == items@,
    {
        let mut out: Vec<TodoItem> = Vec::new();
        let mut i: usize = 0;
        while i < items.len()
            invariant
                0 <= i <= items@.len(),
                out@.len() == i,
                forall|k: int| 0 <= k < i ==> out@[k] == items@[k],
            decreases items@.len() - i,
        {
            out.push(items[i].clone());
            i = i + 1;
        }
        proof {
            assert(out@ =~= items@);
        }
        out
    }

    /// Appends a new entry under a caller-supplied identifier. Succeeds
    /// exactly when the identifier is fresh and the clock not
    /// exhausted; any failure is internal and leaves the store as it
    /// was. On success the new entry is stamped with one fresh value as
    /// both `created_at` and `update_at`.
    pub fn create_with_id(&mut self, id: String, title: String, completed: bool) -> (r: Result<
        TodoResponse,
        StoreError,
    >)
        requires
            old(self).wf(),
        ensures
            final(self).wf(),
            r is Ok <==> !has_id(old(self).items@, id@) && old(self).clock < u64::MAX,
            r matches Ok(resp) ==> ({
                let item = final(self).items@.last();
                &&& final(self).items@ == old(self).items@.push(item)
                &&& item.id@ == id@
                &&& item.title@ == title@
                &&& item.completed == completed
                &&& item.created_at == final(self).clock
                &&& item.update_at == final(self).clock
                &&& old(self).clock < final(self).clock
                &&& resp.id@ == id@
                &&& resp.title@ == title@
                &&& resp.completed == completed
                &&& resp.created_at == final(self).clock
            }),
            r is Err ==> final(self).items@ == old(self).items@ && final(self).clock == old(self).clock,
            r matches Err(e) ==> e matches StoreError::Internal(_),
    {
        match Self::find_index(&self.items, &id) {
            Some(_) => {
                return Err(StoreError::Internal("Duplicate id generated".to_owned()));
            },
            None => {},
        }
        let t = match self.advance() {
            Some(t) => t,
            None => {
                return Err(StoreError::Internal("Stamp counter exhausted".to_owned()));
            },
        };
        let item = TodoItem {
            id: id.clone(),
            title: title.clone(),
            completed,
            created_at: t,
            update_at: t,
        };
        self.items.push(item);
        Ok(TodoResponse { id, title, completed, created_at: t })
    }

    /// Creates a new entry under a freshly generated identifier. The
    /// title is accepted as given (it may be empty). A failure is
    /// internal — a generated identifier that already exists, or an
    /// exhausted clock — and leaves the store as it was.
    pub fn create(&mut self, fields: CreateTodoItem) -> (r: Result<TodoResponse, StoreError>)
        requires
            old(self).wf(),
        ensures
            final(self).wf(),
            r matches Ok(resp) ==> ({
                let item = final(self).items@.last();
                &&& !has_id(old(self).items@, resp.id@)
                &&& final(self).items@ == old(self).items@.push(item)
                &&& item.id@ == resp.id@
                &&& item.title@ == fields.title@
                &&& item.completed == fields.completed
                &&& item.created_at == final(self).clock
                &&& item.update_at == final(self).clock
                &&& old(self).clock < final(self).clock
                &&& resp.title@ == fields.title@
                &&& resp.completed == fields.completed
                &&& resp.created_at == final(self).clock
            }),
            r is Err ==> final(self).items@ == old(self).items@ && final(self).clock == old(self).clock,
            r matches Err(e) ==> e matches StoreError::Internal(_),
    {
        let id = generate_id();
        self.create_with_id(id, fields.title, fields.completed)
    }

    /// A read-only snapshot of the full collection, in insertion order.
    pub fn list(&self) -> (r: Vec<TodoItem>)
        ensures
            r@ == self.items@,
    {
        Self::snapshot(&self.items)
    }

    /// Applies a patch to the entry carrying `id`: present fields are
    /// set, absent fields kept, `update_at` freshly stamped — strictly
    /// after `created_at`. Reports the entry not found, or an internal
    /// fault on an exhausted clock; any failure leaves the store as it
    /// was.
    pub fn update(&mut self, id: &String, patch: UpdateTodoItem) -> (r: Result<
        TodoItem,
        StoreError,
    >)
        requires
            old(self).wf(),
        ensures
            final(self).wf(),
            r is Ok <==> has_id(old(self).items@, id@) && old(self).clock < u64::MAX,
            !has_id(old(self).items@, id@) ==> (r matches Err(e) && e matches StoreError::NotFound(m)
                && m@ == "Todo not found"@),
            has_id(old(self).items@, id@) && old(self).clock == u64::MAX ==> (r matches Err(e)
                && e matches StoreError::Internal(_)),
            r is Err ==> final(self).items@ == old(self).items@ && final(self).clock == old(self).clock,
            r matches Ok(t) ==> ({
                let i = first_with_id(old(self).items@, id@);
                &&& 0 <= i < old(self).items@.len()
                &&& final(self).items@ == old(self).items@.update(i, t)
                &&& t.id@ == old(self).items@[i].id@
                &&& t.title@ == (if patch.title is Some {
                    patch.title->0@
                } else {
                    old(self).items@[i].title@
                })
                &&& t.completed == (if patch.completed is Some {
                    patch.completed->0
                } else {
                    old(self).items@[i].completed
                })
                &&& t.created_at == old(self).items@[i].created_at
                &&& t.update_at == final(self).clock
                &&& t.update_at > t.created_at
                &&& old(self).clock < final(self).clock
            }),
    {
        let i = match Self::find_index(&self.items, id) {
            Some(i) => i,
            None => {
                return Err(StoreError::NotFound("Todo not found".to_owned()));
            },
        };
        let t = match self.advance() {
            Some(t) => t,
            None => {
                return Err(StoreError::Internal("Stamp counter exhausted".to_owned()));
            },
        };
        let mut item = self.items[i].clone();
        match patch.title {
            Some(new_title) => {
                item.title = new_title;
            },
            None => {},
        }
        match patch.completed {
            Some(new_completed) => {
                item.completed = new_completed;
            },
            None => {},
        }
        item.update_at = t;
        self.items.set(i, item.clone());
        proof {
            lemma_index_is_first(old(self).items@, id@, i as int);
        }
        Ok(item)
    }

    /// Removes the entry carrying `id` and returns a snapshot of what
    /// remains; reports the entry not found — and changes nothing —
    /// when no entry carries it. Stamps are untouched.
    pub fn delete(&mut self, id: &String) -> (r: Result<Vec<TodoItem>, StoreError>)
        requires
            old(self).wf(),
        ensures
            final(self).wf(),
            final(self).clock == old(self).clock,
            r is Ok <==> has_id(old(self).items@, id@),
            r is Err ==> final(self).items@ == old(self).items@ && (r matches Err(e) && e matches
                StoreError::NotFound(m) && m@ == "Todo Not found"@),
            r matches Ok(v) ==> ({
                let i = first_with_id(old(self).items@, id@);
                &&& 0 <= i < old(self).items@.len()
                &&& final(self).items@ == old(self).items@.remove(i)
                &&& v@ == final(self).items@
            }),
    {
        let i = match Self::find_index(&self.items, id) {
            Some(i) => i,
            None => {
                return Err(StoreError::NotFound("Todo Not found".to_owned()));
            },
        };
        self.items.remove(i);
        proof {
            lemma_index_is_first(old(self).items@, id@, i as int);
            assert forall|p: int, q: int|
                0 <= p < q < final(self).items@.len() implies final(self).items@[p].id@ != final(self).items@[q].id@ by {
                assert(final(self).items@[p] == old(self).items@[if p < i as int {
                    p
                } else {
                    p + 1
                }]);
                assert(final(self).items@[q] == old(self).items@[if q < i as int {
                    q
                } else {
                    q + 1
                }]);
            }
        }
        Ok(Self::snapshot(&self.items))
    }
}

/// In a well-formed store no two entries share an identifier: each
/// created entry keeps an identifier of its own for as long as it
/// lives.
pub proof fn lemma_ids_unique(s: &TodoStore, i: int, j: int)
    requires
        s.wf(),
        0 <= i < s.items@.len(),
        0 <= j < s.items@.len(),
        i != j,
    ensures
        s.items@[i].id@ != s.items@[j].id@,
{
}

} // verus!
