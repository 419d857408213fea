//! The gRPC wire messages shared by the service and the gateway: paging
//! (`shared`) and the todo service's requests and replies.

use vstd::prelude::*;

verus! {

/// Direction of one sort key on the wire; its number is `0` for `Asc` and
/// `1` for `Desc`.
#[derive(Debug, Clone, Copy, PartialEq, Eq, Structural)]
pub enum SortDirection {
    Asc,
    Desc,
}

/// A number that names no [`SortDirection`].
#[derive(Debug, Clone, Copy, PartialEq, Eq, Structural)]
pub struct UnknownEnumValue(pub i32);

/// The wire number of a direction.
pub open spec fn direction_number(d: SortDirection) -> i32 {
    match d {
        SortDirection::Asc => 0,
        SortDirection::Desc => 1,
    }
}

impl SortDirection {
    /// The number that stands for this direction in a [`SortField`].
    pub fn number(self) -> (n: i32)
        ensures
            n == direction_number(self),
    {
        match self {
            SortDirection::Asc => 0,
            SortDirection::Desc => 1,
        }
    }
}

impl TryFrom<i32> for SortDirection {
    type Error = UnknownEnumValue;

    fn try_from(value: i32) -> (r: Result<Self, Self::Error>) {
        if value == 0 {
            Ok(SortDirection::Asc)
        } else if value == 1 {
            Ok(SortDirection::Desc)
        } else {
            Err(UnknownEnumValue(value))
        }
    }
}

impl vstd::std_specs::convert::TryFromSpecImpl<i32> for SortDirection {
    open spec fn obeys_try_from_spec() -> bool {
        true
    }

    open spec fn try_from_spec(value: i32) -> Result<Self, UnknownEnumValue> {
        if value == 0 {
            Ok(SortDirection::Asc)
        } else if value == 1 {
            Ok(SortDirection::Desc)
        } else {
            Err(UnknownEnumValue(value))
        }
    }
}


/// One sort key of a [`PageRequest`]: a field name and the number of a
/// [`SortDirection`].
#[derive(Debug, Clone, PartialEq, Eq)]
pub struct SortField {
    pub field: String,
    pub direction: i32,
}

impl View for SortField {
    type V = (Seq<char>, i32);

    open spec fn view(&self) -> (Seq<char>, i32) {
        (self.field@, self.direction)
    }
}

/// The abstract value of a [`PageRequest`].
pub struct PageRequestView {
    pub offset: Option<i64>,
    pub size: Option<i64>,
    pub sort: Seq<(Seq<char>, i32)>,
}

/// Which slice of a listing to return, and in what order. A page is asked
/// for only when both `offset` and `size` are present.
#[derive(Debug, Clone, PartialEq, Eq)]
pub struct PageRequest {
    pub offset: Option<i64>,
    pub size: Option<i64>,
    pub sort: Vec<SortField>,
}

impl View for PageRequest {
    type V = PageRequestView;

    open spec fn view(&self) -> PageRequestView {
        PageRequestView {
            offset: self.offset,
            size: self.size,
            sort: self.sort@.map_values(|f: SortField| f@),
        }
    }
}

/// The abstract value of an optional [`PageRequest`].
pub open spec fn opt_page_request_view(r: Option<PageRequest>) -> Option<PageRequestView> {
    match r {
        Some(r) => Some(r@),
        None => None,
    }
}

/// The abstract value of a [`PageResponse`].
pub struct PageResponseView {
    pub total_elements: i64,
    pub page_request: Option<PageRequestView>,
    pub next_page: Option<PageRequestView>,
    pub previous_page: Option<PageRequestView>,
}

/// Paging facts of a listing: how many elements there are in all, which
/// page this is, and the pages before and after it. It carries no items.
#[derive(Debug, Clone, PartialEq, Eq)]
pub struct PageResponse {
    pub total_elements: i64,
    pub page_request: Option<PageRequest>,
    pub next_page: Option<PageRequest>,
    pub previous_page: Option<PageRequest>,
}

impl View for PageResponse {
    type V = PageResponseView;

    open spec fn view(&self) -> PageResponseView {
        PageResponseView {
            total_elements: self.total_elements,
            page_request: opt_page_request_view(self.page_request),
            next_page: opt_page_request_view(self.next_page),
            previous_page: opt_page_request_view(self.previous_page),
        }
    }
}

/// The abstract value of a wire [`Todo`].
pub struct TodoView {
    pub id: u32,
    pub title: Seq<char>,
    pub done: bool,
    pub created_at: Seq<char>,
}

/// A persisted todo as the service sends it: `created_at` is an RFC 3339
/// timestamp in UTC.
#[derive(Debug, Clone, PartialEq, Eq)]
pub struct Todo {
    pub id: u32,
    pub title: String,
    pub done: bool,
    pub created_at: String,
}

impl View for Todo {
    type V = TodoView;

    open spec fn view(&self) -> TodoView {
        TodoView { id: self.id, title: self.title@, done: self.done, created_at: self.created_at@ }
    }
}

/// Asks to create a todo with the given title.
#[derive(Debug, Clone, PartialEq, Eq)]
pub struct CreateTodoRequest {
    pub title: String,
}

/// Asks for the todo with the given id.
#[derive(Debug, Clone, Copy, PartialEq, Eq)]
pub struct GetTodoRequest {
    pub id: u32,
}

/// Asks to set the title and the done flag of the todo with the given id.
#[derive(Debug, Clone, PartialEq, Eq)]
pub struct UpdateTodoRequest {
    pub id: u32,
    pub title: String,
    pub done: bool,
}

/// Asks to delete the todo with the given id.
#[derive(Debug, Clone, Copy, PartialEq, Eq)]
pub struct DeleteTodoRequest {
    pub id: u32,
}

/// Asks for a listing of the todos, paged as `page_request` says (all of
/// them, unsorted, when it is absent).
#[derive(Debug, Clone, PartialEq, Eq)]
pub struct ListTodosRequest {
    pub page_request: Option<PageRequest>,
}

/// The abstract value of a [`ListTodosResponse`].
pub struct ListTodosResponseView {
    pub todos: Seq<TodoView>,
    pub page: Option<PageResponseView>,
}

/// A listing of todos with its paging facts.
#[derive(Debug, Clone, PartialEq, Eq)]
pub struct ListTodosResponse {
    pub todos: Vec<Todo>,
    pub page: Option<PageResponse>,
}

impl View for ListTodosResponse {
    type V = ListTodosResponseView;

    open spec fn view(&self) -> ListTodosResponseView {
        ListTodosResponseView {
            todos: self.todos@.map_values(|t: Todo| t@),
            page: match self.page {
                Some(p) => Some(p@),
                None => None,
            },
        }
    }
}

} // verus!
