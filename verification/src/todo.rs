//! The todo entity: its status enum with the numeric storage encoding,
//! the record itself, and the partial-update payload.

use vstd::prelude::*;

verus! {

/// Status of a todo. Persisted as a numeric code in the store's side
/// lookup table; at the domain boundary it is this tagged enum.
#[derive(Debug, Clone, Copy, PartialEq, Eq, Structural)]
pub enum TodoStatus {
    Open,
    Close,
}

impl TodoStatus {
    /// The numeric code the store keeps for this status.
    pub open spec fn spec_id_status(self) -> i64 {
        match self {
            TodoStatus::Open => 1,
            TodoStatus::Close => 2,
        }
    }

    /// Encode the status as its storage code.
    pub fn get_id_status(&self) -> (r: i64)
        ensures
            r == self.spec_id_status(),
    {
        match self {
            TodoStatus::Open => 1,
            TodoStatus::Close => 2,
        }
    }

    /// Decode a storage code back to a status; codes outside the lookup
    /// table have no status.
    pub fn from_id_status(code: i64) -> (r: Option<TodoStatus>)
        ensures
            r == Self::spec_from_id_status(code),
    {
        if code == 1 {
            Some(TodoStatus::Open)
        } else if code == 2 {
            Some(TodoStatus::Close)
        } else {
            None
        }
    }

    /// The status a storage code stands for, if any.
    pub open spec fn spec_from_id_status(code: i64) -> Option<TodoStatus> {
        if code == 1 {
            Some(TodoStatus::Open)
        } else if code == 2 {
            Some(TodoStatus::Close)
        } else {
            None
        }
    }

    /// The status's name, as it appears in the JSON wire shape.
    pub open spec fn spec_name(self) -> Seq<char> {
        match self {
            TodoStatus::Open => "Open"@,
            TodoStatus::Close => "Close"@,
        }
    }

    /// The name of the status ("Open" or "Close").
    pub fn name(&self) -> (r: &'static str)
        ensures
            r@ == self.spec_name(),
    {
        match self {
            TodoStatus::Open => "Open",
            TodoStatus::Close => "Close",
        }
    }
}

/// A persisted todo record, as the store returns it.
#[derive(Debug, Clone)]
pub struct Todo {
    pub id_todo: i64,
    pub id_creator: i64,
    pub title: String,
    pub status: TodoStatus,
}

/// The mathematical value of a todo record.
pub ghost struct TodoView {
    pub id_todo: int,
    pub id_creator: int,
    pub title: Seq<char>,
    pub status: TodoStatus,
}

impl View for Todo {
    type V = TodoView;

    open spec fn view(&self) -> TodoView {
        TodoView {
            id_todo: self.id_todo as int,
            id_creator: self.id_creator as int,
            title: self.title@,
            status: self.status,
        }
    }
}

impl Todo {
    /// A copy of the record whose value is known to equal the original's
    /// (the derived clone says nothing to the verifier).
    pub fn duplicate(&self) -> (r: Todo)
        ensures
            r@ == self@,
    {
        Todo {
            id_todo: self.id_todo,
            id_creator: self.id_creator,
            title: self.title.clone(),
            status: self.status,
        }
    }
}

/// A partial-update payload: any subset of {title, status}. Create uses
/// the title only; update uses both.
#[derive(Debug, Clone)]
pub struct TodoPatch {
    pub title: Option<String>,
    pub status: Option<TodoStatus>,
}

/// The mathematical value of a patch.
pub ghost struct TodoPatchView {
    pub title: Option<Seq<char>>,
    pub status: Option<TodoStatus>,
}

impl View for TodoPatch {
    type V = TodoPatchView;

    open spec fn view(&self) -> TodoPatchView {
        TodoPatchView {
            title: match self.title {
                Some(t) => Some(t@),
                None => None,
            },
            status: self.status,
        }
    }
}

impl Default for TodoPatch {
    /// The empty patch: no title, no status.
    fn default() -> (r: TodoPatch)
        ensures
            r@.title is None,
            r@.status is None,
    {
        TodoPatch { title: None, status: None }
    }
}

} // verus!
