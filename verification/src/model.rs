//! The store access layer: a typed todo table with the CRUD operations
//! the handlers call, and the mapping of driver-level failures to domain
//! errors.
//!
//! The table is modelled as a sequence of records kept in strictly
//! descending id order — the order listing returns — under a fresh-id
//! watermark, so created ids never collide with existing ones. The
//! relational driver that persists this table lives outside the library;
//! it hands rows in and out as plain `Todo` values.

use vstd::prelude::*;

use crate::num::{dec_str_of_i64, i64_to_string};
use crate::security::UserCtx;
use crate::todo::TodoView;

pub use crate::todo::{Todo, TodoPatch, TodoStatus};

verus! {

/// Domain errors of the store access layer.
#[derive(Debug)]
pub enum Error {
    /// No entity of the named kind has the given id (rendered decimal).
    EntityNotFound(&'static str, String),
    /// Any other store-level failure, wrapping the underlying cause.
    StoreError(String),
}

impl Error {
    /// The message this error shows.
    pub open spec fn spec_message(&self) -> Seq<char> {
        match self {
            Error::EntityNotFound(typ, id) => "Entity Not Found - "@ + typ@ + "["@ + id@
                + "] "@,
            Error::StoreError(cause) => cause@,
        }
    }

    /// Render the error's message.
    pub fn message(&self) -> (r: String)
        ensures
            r@ == self.spec_message(),
    {
        match self {
            Error::EntityNotFound(typ, id) => {
                let mut m = String::from_str("Entity Not Found - ");
                m.append(typ);
                m.append("[");
                m.append(id.as_str());
                m.append("] ");
                m
            },
            Error::StoreError(cause) => cause.clone(),
        }
    }
}

/// How a driver-level single-row fetch can fail: either no row matched,
/// or the driver failed for another cause.
#[derive(Debug)]
pub enum StoreFault {
    RowNotFound,
    Other(String),
}

/// Ids strictly decrease along the sequence: the listing order.
pub open spec fn ids_descending(s: Seq<TodoView>) -> bool {
    forall|i: int, j: int|
        0 <= i < j < s.len() ==> #[trigger] s[i].id_todo > #[trigger] s[j].id_todo
}

/// Every id in the sequence lies below the bound.
pub open spec fn ids_below(s: Seq<TodoView>, bound: int) -> bool {
    forall|i: int| 0 <= i < s.len() ==> #[trigger] s[i].id_todo < bound
}

/// The title a patch yields: the given one, or the placeholder.
pub open spec fn title_or_untitled(title: Option<Seq<char>>) -> Seq<char> {
    match title {
        Some(t) => t,
        None => "untitled"@,
    }
}

/// The todo table: records in descending id order, plus the watermark
/// the next created record will take as its id.
pub struct Store {
    todos: Vec<Todo>,
    next_id: i64,
}

impl View for Store {
    type V = Seq<TodoView>;

    closed spec fn view(&self) -> Seq<TodoView> {
        self.todos@.map_values(|t: Todo| t@)
    }
}

impl Store {
    /// The id the next created record will receive.
    pub closed spec fn spec_next_id(&self) -> int {
        self.next_id as int
    }

    /// Well-formedness: ids strictly descending and below the watermark.
    pub open spec fn wf(&self) -> bool {
        &&& ids_descending(self@)
        &&& ids_below(self@, self.spec_next_id())
    }

    /// An empty table whose first created record will take `first_id`.
    pub fn new(first_id: i64) -> (r: Store)
        ensures
            r.wf(),
            r@ == Seq::<TodoView>::empty(),
            r.spec_next_id() == first_id as int,
    {
        let r = Store { todos: Vec::new(), next_id: first_id };
        proof {
            assert(r@ =~= Seq::<TodoView>::empty());
        }
        r
    }

    /// Read back the watermark.
    pub fn fresh_id(&self) -> (r: i64)
        ensures
            r as int == self.spec_next_id(),
    {
        self.next_id
    }

    /// Append a row with an explicit id, as a fixture loader does. The id
    /// must lie under the watermark and under every id already present
    /// (rows are appended smallest-last).
    pub fn seed(&mut self, id_todo: i64, id_creator: i64, title: String, status: TodoStatus)
        requires
            old(self).wf(),
            id_todo < old(self).spec_next_id(),
            old(self)@.len() > 0 ==> id_todo < old(self)@.last().id_todo,
        ensures
            final(self).wf(),
            final(self).spec_next_id() == old(self).spec_next_id(),
            final(self)@ == old(self)@.push(
                (TodoView {
                    id_todo: id_todo as int,
                    id_creator: id_creator as int,
                    title: title@,
                    status,
                }),
            ),
    {
        let todo = Todo { id_todo, id_creator, title, status };
        let ghost tv = todo@;
        self.todos.push(todo);
        proof {
            assert(self@ =~= old(self)@.push(tv));
        }
    }

    /// The position of the record with the given id, if one exists.
    fn find_index(&self, id_todo: i64) -> (r: Option<usize>)
        ensures
            match r {
                Some(i) => i < self@.len() && self@[i as int].id_todo == id_todo as int,
                None => forall|i: int|
                    0 <= i < self@.len() ==> #[trigger] self@[i].id_todo != id_todo as int,
            },
    {
        let mut k: usize = 0;
        while k < self.todos.len()
            invariant
                k <= self.todos.len(),
                self@.len() == self.todos@.len(),
                forall|i: int| 0 <= i < k ==> #[trigger] self@[i].id_todo != id_todo as int,
            decreases self.todos.len() - k,
        {
            if self.todos[k].id_todo == id_todo {
                return Some(k);
            }
            k = k + 1;
        }
        None
    }
}

/// Todo model access controller: the store access layer's operations.
pub struct TodoMac;

impl TodoMac {
    /// Insert a new record owned by the caller: the patch's title or the
    /// placeholder, status Open, and a fresh id above every existing one.
    pub fn create(db: &mut Store, utx: &UserCtx, data: TodoPatch) -> (r: Result<Todo, Error>)
        requires
            old(db).wf(),
            old(db).spec_next_id() < i64::MAX,
        ensures
            final(db).wf(),
            final(db).spec_next_id() == old(db).spec_next_id() + 1,
            match r {
                Ok(t) => {
                    &&& t@.id_todo == old(db).spec_next_id()
                    &&& t@.id_creator == utx.user_id as int
                    &&& t@.title == title_or_untitled(data@.title)
                    &&& t@.status == TodoStatus::Open
                    &&& final(db)@ == seq![t@] + old(db)@
                    &&& forall|i: int|
                        0 <= i < old(db)@.len() ==> #[trigger] old(db)@[i].id_todo != t@.id_todo
                },
                Err(_) => false,
            },
    {
        let title = match data.title {
            Some(t) => t,
            None => String::from_str("untitled"),
        };
        let todo = Todo {
            id_todo: db.next_id,
            id_creator: utx.user_id,
            title,
            status: TodoStatus::Open,
        };
        let ghost tv = todo@;
        let result = todo.duplicate();
        db.todos.insert(0, todo);
        db.next_id = db.next_id + 1;
        proof {
            assert(db@ =~= seq![tv] + old(db)@);
        }
        Ok(result)
    }

    /// Fetch the record with the given id; a missing id is NotFound.
    pub fn get(db: &Store, _utx: &UserCtx, id_todo: i64) -> (r: Result<Todo, Error>)
        ensures
            match r {
                Ok(t) => exists|i: int|
                    0 <= i < db@.len() && #[trigger] db@[i] == t@ && t@.id_todo == id_todo as int,
                Err(e) => {
                    &&& forall|i: int|
                        0 <= i < db@.len() ==> #[trigger] db@[i].id_todo != id_todo as int
                    &&& (e matches Error::EntityNotFound(typ, ids) && typ@ == "todo"@ && ids@
                        == dec_str_of_i64(id_todo as int))
                },
            },
    {
        match db.find_index(id_todo) {
            Some(i) => {
                let t = db.todos[i].duplicate();
                Ok(t)
            },
            None => Err(Error::EntityNotFound("todo", i64_to_string(id_todo))),
        }
    }

    /// All records, in strictly descending id order.
    pub fn list(db: &Store, _utx: &UserCtx) -> (r: Result<Vec<Todo>, Error>)
        requires
            db.wf(),
        ensures
            match r {
                Ok(todos) => {
                    &&& todos@.map_values(|t: Todo| t@) == db@
                    &&& ids_descending(todos@.map_values(|t: Todo| t@))
                },
                Err(_) => false,
            },
    {
        let mut out: Vec<Todo> = Vec::new();
        let mut k: usize = 0;
        while k < db.todos.len()
            invariant
                k <= db.todos.len(),
                db@.len() == db.todos@.len(),
                out@.len() == k,
                forall|i: int| 0 <= i < k ==> #[trigger] out@[i]@ == db@[i],
            decreases db.todos.len() - k,
        {
            out.push(db.todos[k].duplicate());
            k = k + 1;
        }
        proof {
            assert(out@.map_values(|t: Todo| t@) =~= db@);
        }
        Ok(out)
    }

    /// Rewrite the record with the given id: the title becomes the
    /// patch's title or the placeholder (a patch without a title resets
    /// it), the status becomes the patch's status if one is given and is
    /// otherwise kept; a missing id is NotFound and changes nothing.
    pub fn update(db: &mut Store, _utx: &UserCtx, id_todo: i64, data: TodoPatch) -> (r: Result<
        Todo,
        Error,
    >)
        requires
            old(db).wf(),
        ensures
            final(db).wf(),
            final(db).spec_next_id() == old(db).spec_next_id(),
            match r {
                Ok(t) => {
                    &&& t@.id_todo == id_todo as int
                    &&& t@.title == title_or_untitled(data@.title)
                    &&& exists|i: int|
                        0 <= i < old(db)@.len() && #[trigger] old(db)@[i].id_todo == id_todo as int
                            && t@.id_creator == old(db)@[i].id_creator && t@.status == (match data@
                            .status {
                            Some(st) => st,
                            None => old(db)@[i].status,
                        }) && final(db)@ == old(db)@.update(i, t@)
                },
                Err(e) => {
                    &&& final(db)@ == old(db)@
                    &&& forall|i: int|
                        0 <= i < old(db)@.len() ==> #[trigger] old(db)@[i].id_todo != id_todo as int
                    &&& (e matches Error::EntityNotFound(typ, ids) && typ@ == "todo"@ && ids@
                        == dec_str_of_i64(id_todo as int))
                },
            },
    {
        match db.find_index(id_todo) {
            Some(i) => {
                let prior = db.todos.remove(i);
                let title = match data.title {
                    Some(t) => t,
                    None => String::from_str("untitled"),
                };
                let status = match data.status {
                    Some(st) => st,
                    None => prior.status,
                };
                let todo = Todo { id_todo, id_creator: prior.id_creator, title, status };
                let ghost tv = todo@;
                let result = todo.duplicate();
                db.todos.insert(i, todo);
                proof {
                    assert(db@ =~= old(db)@.update(i as int, tv));
                    assert(forall|k: int|
                        0 <= k < db@.len() ==> #[trigger] db@[k].id_todo == old(db)@[k].id_todo);
                }
                Ok(result)
            },
            None => Err(Error::EntityNotFound("todo", i64_to_string(id_todo))),
        }
    }

    /// Remove the record with the given id and return its last state; a
    /// missing id is NotFound and changes nothing.
    pub fn delete(db: &mut Store, _utx: &UserCtx, id_todo: i64) -> (r: Result<Todo, Error>)
        requires
            old(db).wf(),
        ensures
            final(db).wf(),
            final(db).spec_next_id() == old(db).spec_next_id(),
            match r {
                Ok(t) => exists|i: int|
                    0 <= i < old(db)@.len() && #[trigger] old(db)@[i].id_todo == id_todo as int && t@
                        == old(db)@[i] && final(db)@ == old(db)@.remove(i),
                Err(e) => {
                    &&& final(db)@ == old(db)@
                    &&& forall|i: int|
                        0 <= i < old(db)@.len() ==> #[trigger] old(db)@[i].id_todo != id_todo as int
                    &&& (e matches Error::EntityNotFound(typ, ids) && typ@ == "todo"@ && ids@
                        == dec_str_of_i64(id_todo as int))
                },
            },
    {
        match db.find_index(id_todo) {
            Some(i) => {
                let removed = db.todos.remove(i);
                proof {
                    assert(db@ =~= old(db)@.remove(i as int));
                    assert forall|a: int, b: int| 0 <= a < b < db@.len() implies db@[a].id_todo
                        > db@[b].id_todo by {
                        assert(db@[a] == if a < i { old(db)@[a] } else { old(db)@[a + 1] });
                        assert(db@[b] == if b < i { old(db)@[b] } else { old(db)@[b + 1] });
                    }
                    assert forall|a: int| 0 <= a < db@.len() implies db@[a].id_todo < db
                        .spec_next_id() by {
                        assert(db@[a] == if a < i { old(db)@[a] } else { old(db)@[a + 1] });
                    }
                }
                Ok(removed)
            },
            None => Err(Error::EntityNotFound("todo", i64_to_string(id_todo))),
        }
    }
}

/// Translate a driver-level single-row fetch outcome into the domain
/// result: a missing row is NotFound for the named entity, any other
/// failure a generic store error carrying the cause.
pub fn handle_fetch_one_result(result: Result<Todo, StoreFault>, typ: &'static str, id_todo: i64)
    -> (r: Result<Todo, Error>)
    ensures
        match result {
            Ok(t) => r matches Ok(rt) && rt@ == t@,
            Err(StoreFault::RowNotFound) => r matches Err(e) && (e matches Error::EntityNotFound(
                ty,
                ids,
            ) && ty@ == typ@ && ids@ == dec_str_of_i64(id_todo as int)),
            Err(StoreFault::Other(cause)) => r matches Err(e) && (e matches Error::StoreError(c)
                && c@ == cause@),
        },
{
    match result {
        Ok(t) => Ok(t),
        Err(StoreFault::RowNotFound) => Err(Error::EntityNotFound(typ, i64_to_string(id_todo))),
        Err(StoreFault::Other(cause)) => Err(Error::StoreError(cause)),
    }
}

/// In a well-formed table an id determines its position: two positions
/// bearing the same id are one and the same.
pub proof fn lemma_id_determines_record(s: Seq<TodoView>, i: int, j: int)
    requires
        ids_descending(s),
        0 <= i < s.len(),
        0 <= j < s.len(),
        s[i].id_todo == s[j].id_todo,
    ensures
        i == j,
{
}

/// A created record is fetchable by its returned id: in the table create
/// leaves behind, every position bearing the new id holds exactly the
/// created record, so a fetch with that id yields it.
pub proof fn lemma_create_then_get(pre: Seq<TodoView>, t: TodoView)
    requires
        ids_below(pre, t.id_todo),
    ensures
        forall|i: int|
            0 <= i < (seq![t] + pre).len() && (#[trigger] (seq![t] + pre)[i]).id_todo == t.id_todo
                ==> (seq![t] + pre)[i] == t,
{
    assert forall|i: int|
        0 <= i < (seq![t] + pre).len() && (#[trigger] (seq![t] + pre)[i]).id_todo == t.id_todo
        implies (seq![t] + pre)[i] == t by {
        if i > 0 {
            assert((seq![t] + pre)[i] == pre[i - 1]);
        }
    }
}

} // verus!
