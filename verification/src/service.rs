//! The todo service's request handling: for each gRPC call, what to ask of
//! the repository and how to answer from what it gave back; and how the
//! service's errors are reported.
//!
//! Each handler of the service runs as a short exchange with the database.
//! The functions here are its decisions, each taking what the previous step
//! produced and giving the next step: the todo to save, the id to look up or
//! delete, the page to fetch, or the reply.

use vstd::prelude::*;
use crate::model::{Todo, TodoError, TodoView, todo_error_message, todo_to_wire};
use crate::paging::{self, Page, default_page_request, page_request_from_wire, page_response_of};
use crate::text::{decimal, i32_decimal};
use crate::timestamp::Timestamp;
use crate::wire;

verus! {

/// Namespaces the codes of this service's errors (the `domain` of a
/// `google.rpc.ErrorInfo`), so a code shared with another service cannot
/// collide.
pub const SERVICE_ERROR_DOMAIN: &'static str = "todo-service.{{crate_name}}";

/// The gRPC status a service error is reported with.
#[derive(Debug, Clone, Copy, PartialEq, Eq, Structural)]
pub enum StatusCode {
    NotFound,
    Internal,
}

/// What can go wrong while serving a todo call.
#[derive(Debug, Clone, PartialEq, Eq)]
pub enum TodoServiceError {
    /// No todo has this id.
    NotFound(i32),
    /// A todo could not be written in its wire form.
    Todo(TodoError),
    /// The database failed; the text is the failure's message.
    Database(String),
}

/// The abstract value of a [`TodoServiceError`].
pub enum ServiceErrorView {
    NotFound(i32),
    Todo(TodoError),
    Database(Seq<char>),
}

impl View for TodoServiceError {
    type V = ServiceErrorView;

    open spec fn view(&self) -> ServiceErrorView {
        match self {
            TodoServiceError::NotFound(id) => ServiceErrorView::NotFound(*id),
            TodoServiceError::Todo(e) => ServiceErrorView::Todo(*e),
            TodoServiceError::Database(m) => ServiceErrorView::Database(m@),
        }
    }
}

/// The machine-readable code of an error.
pub open spec fn error_code(e: ServiceErrorView) -> Seq<char> {
    match e {
        ServiceErrorView::NotFound(_) => "TODO_NOT_FOUND"@,
        _ => "TODO_INTERNAL_ERROR"@,
    }
}

/// The status an error is reported with: `NotFound` for a missing todo,
/// `Internal` for anything else.
pub open spec fn error_status(e: ServiceErrorView) -> StatusCode {
    match e {
        ServiceErrorView::NotFound(_) => StatusCode::NotFound,
        _ => StatusCode::Internal,
    }
}

/// The text of an error: `todo <id> not found`, or the text of the
/// underlying error.
pub open spec fn error_message(e: ServiceErrorView) -> Seq<char> {
    match e {
        ServiceErrorView::NotFound(id) => "todo "@ + decimal(id as int) + " not found"@,
        ServiceErrorView::Todo(t) => todo_error_message(t),
        ServiceErrorView::Database(m) => m,
    }
}

/// The metadata an error is reported with: none for a missing todo, the
/// error's text under `detail` for anything else.
pub open spec fn error_metadata(e: ServiceErrorView) -> Seq<(Seq<char>, Seq<char>)> {
    match e {
        ServiceErrorView::NotFound(_) => Seq::empty(),
        _ => seq![("detail"@, error_message(e))],
    }
}

impl TodoServiceError {
    /// The error's machine-readable code.
    pub fn code(&self) -> (c: &'static str)
        ensures
            c@ == error_code(self@),
    {
        proof {
            reveal_strlit("TODO_NOT_FOUND");
            reveal_strlit("TODO_INTERNAL_ERROR");
        }
        match self {
            TodoServiceError::NotFound(_) => "TODO_NOT_FOUND",
            TodoServiceError::Todo(_) | TodoServiceError::Database(_) => "TODO_INTERNAL_ERROR",
        }
    }

    /// The namespace of the error's code.
    pub fn domain(&self) -> (d: &'static str)
        ensures
            d@ == SERVICE_ERROR_DOMAIN@,
    {
        SERVICE_ERROR_DOMAIN
    }

    /// The gRPC status the error is reported with.
    pub fn status_code(&self) -> (s: StatusCode)
        ensures
            s == error_status(self@),
    {
        match self {
            TodoServiceError::NotFound(_) => StatusCode::NotFound,
            TodoServiceError::Todo(_) | TodoServiceError::Database(_) => StatusCode::Internal,
        }
    }

    /// The error's text, as its `Display` writes it.
    pub fn message(&self) -> (s: String)
        ensures
            s@ == error_message(self@),
    {
        match self {
            TodoServiceError::NotFound(id) => {
                let mut s = String::from_str("todo ");
                let number = i32_decimal(*id);
                s.append(number.as_str());
                s.append(" not found");
                proof {
                    reveal_strlit("todo ");
                    reveal_strlit(" not found");
                }
                s
            },
            TodoServiceError::Todo(e) => e.message(),
            TodoServiceError::Database(m) => m.clone(),
        }
    }

    /// The `(key, value)` metadata the error is reported with.
    pub fn metadata(&self) -> (m: Vec<(String, String)>)
        ensures
            m@.map_values(|kv: (String, String)| (kv.0@, kv.1@)) == error_metadata(self@),
    {
        let mut m: Vec<(String, String)> = Vec::new();
        match self {
            TodoServiceError::NotFound(_) => {},
            TodoServiceError::Todo(_) | TodoServiceError::Database(_) => {
                let key = String::from_str("detail");
                proof {
                    reveal_strlit("detail");
                }
                m.push((key, self.message()));
            },
        }
        assert(m@.map_values(|kv: (String, String)| (kv.0@, kv.1@)) =~= error_metadata(self@));
        m
    }
}


/// The reply to a call, or the error it fails with.
pub open spec fn reply_of<T>(r: Result<T, TodoError>) -> Result<T, ServiceErrorView> {
    match r {
        Ok(v) => Ok(v),
        Err(e) => Err(ServiceErrorView::Todo(e)),
    }
}

/// Whether an answered todo is the one `want` describes.
pub open spec fn todo_reply_matches(
    r: Result<wire::Todo, TodoServiceError>,
    want: Result<wire::TodoView, ServiceErrorView>,
) -> bool {
    match (r, want) {
        (Ok(w), Ok(v)) => w@ == v,
        (Err(e), Err(f)) => e@ == f,
        _ => false,
    }
}

/// The reply to a lookup of `id` that found `found`: the wire form of the
/// todo, or `NotFound(id)` when there is none.
pub open spec fn found_reply(id: i32, found: Option<TodoView>) -> Result<wire::TodoView, ServiceErrorView> {
    match found {
        Some(t) => reply_of(todo_to_wire(t)),
        None => Err(ServiceErrorView::NotFound(id)),
    }
}

/// The reply to a call that saved a todo: the wire form of what was saved.
pub open spec fn saved_reply(saved: TodoView) -> Result<wire::TodoView, ServiceErrorView> {
    reply_of(todo_to_wire(saved))
}

/// The todo that an update of `id` to `title` and `done` saves, given the
/// stored todo it found: the same id and creation time with the new title
/// and flag; `NotFound(id)` when nothing is stored under `id`.
pub open spec fn updated_todo(
    id: i32,
    title: Seq<char>,
    done: bool,
    existing: Option<TodoView>,
) -> Result<TodoView, ServiceErrorView> {
    match existing {
        Some(e) => Ok(TodoView { id: Some(id), title, done, created_at: e.created_at }),
        None => Err(ServiceErrorView::NotFound(id)),
    }
}

/// The wire forms of a list of todos, or `MissingId` when one of them has
/// no id.
pub open spec fn todos_to_wire(ts: Seq<TodoView>) -> Result<Seq<wire::TodoView>, TodoError> {
    if exists|i: int| 0 <= i < ts.len() && (#[trigger] ts[i]).id is None {
        Err(TodoError::MissingId)
    } else {
        Ok(ts.map_values(|t: TodoView| todo_to_wire(t)->Ok_0))
    }
}

/// The reply to a listing that fetched `page`, given the requests for the
/// pages after and before it.
pub open spec fn list_reply(
    data: Seq<TodoView>,
    total_elements: i64,
    page_request: paging::PageRequestView,
    next_page: Option<paging::PageRequest>,
    previous_page: Option<paging::PageRequest>,
) -> Result<wire::ListTodosResponseView, ServiceErrorView> {
    match todos_to_wire(data) {
        Ok(todos) => Ok(
            wire::ListTodosResponseView {
                todos,
                page: Some(page_response_of(total_elements, page_request, next_page, previous_page)),
            },
        ),
        Err(e) => Err(ServiceErrorView::Todo(e)),
    }
}

/// The paging request a listing fetches: the one the call names, read as
/// a paging request, or every todo when it names none.
pub open spec fn list_page_request(page_request: Option<wire::PageRequestView>) -> paging::PageRequestView {
    match page_request {
        Some(r) => page_request_from_wire(r),
        None => default_page_request(),
    }
}

/// The `todo_service.TodoService` gRPC service: the decisions of its
/// handlers. The connection pool that carries them out is held where the
/// service is served.
pub struct TodoService;

impl TodoService {
    /// `CreateTodo`: the todo to save for the request, created at `now`;
    /// it has no id yet (the database assigns one) and is not done.
    pub fn create_todo(request: wire::CreateTodoRequest, now: Timestamp) -> (todo: Todo)
        ensures
            todo@ == (TodoView { id: None, title: request.title@, done: false, created_at: now@ }),
    {
        Todo { id: None, title: request.title, done: false, created_at: now }
    }

    /// `GetTodo`: the id to look up (the request's `u32` read as an `i32`).
    pub fn get_todo(request: &wire::GetTodoRequest) -> (id: i32)
        ensures
            id == request.id as i32,
    {
        request.id as i32
    }

    /// `GetTodo`, once the lookup of `id` gave `found`: the reply.
    pub fn found_todo(id: i32, found: Option<Todo>) -> (r: Result<wire::Todo, TodoServiceError>)
        ensures
            todo_reply_matches(
                r,
                found_reply(
                    id,
                    match found {
                        Some(t) => Some(t@),
                        None => None,
                    },
                ),
            ),
    {
        match found {
            Some(todo) => Self::saved_todo(todo),
            None => Err(TodoServiceError::NotFound(id)),
        }
    }

    /// `UpdateTodo`: the id to look up first, so as to keep the stored
    /// creation time (the request carries only the editable fields).
    pub fn update_lookup(request: &wire::UpdateTodoRequest) -> (id: i32)
        ensures
            id == request.id as i32,
    {
        request.id as i32
    }

    /// `UpdateTodo`, once the lookup gave `existing`: the todo to save.
    pub fn update_todo(request: wire::UpdateTodoRequest, existing: Option<Todo>) -> (r: Result<Todo, TodoServiceError>)
        ensures
            match (
                r,
                updated_todo(
                    request.id as i32,
                    request.title@,
                    request.done,
                    match existing {
                        Some(t) => Some(t@),
                        None => None,
                    },
                ),
            ) {
                (Ok(t), Ok(v)) => t@ == v,
                (Err(e), Err(f)) => e@ == f,
                _ => false,
            },
    {
        let id = request.id as i32;
        match existing {
            Some(existing) => Ok(
                Todo { id: Some(id), title: request.title, done: request.done, created_at: existing.created_at },
            ),
            None => Err(TodoServiceError::NotFound(id)),
        }
    }

    /// `CreateTodo` and `UpdateTodo`, once the repository saved `saved`:
    /// the reply.
    pub fn saved_todo(saved: Todo) -> (r: Result<wire::Todo, TodoServiceError>)
        ensures
            todo_reply_matches(r, saved_reply(saved@)),
    {
        match saved.to_wire() {
            Ok(w) => Ok(w),
            Err(e) => Err(TodoServiceError::Todo(e)),
        }
    }

    /// `DeleteTodo`: the id to delete. Deleting an id that names no todo is
    /// no error.
    pub fn delete_todo(request: &wire::DeleteTodoRequest) -> (id: i32)
        ensures
            id == request.id as i32,
    {
        request.id as i32
    }

    /// `ListTodos`: the page to fetch.
    pub fn list_todos(request: wire::ListTodosRequest) -> (p: paging::PageRequest)
        ensures
            p@ == list_page_request(wire::opt_page_request_view(request.page_request)),
    {
        match request.page_request {
            Some(r) => paging::PageRequest::from(r),
            None => paging::PageRequest::default(),
        }
    }

    /// `ListTodos`, once the repository fetched `page` (and it named the
    /// pages after and before it): the reply.
    pub fn listed_todos(
        page: Page<Todo>,
        next_page: Option<paging::PageRequest>,
        previous_page: Option<paging::PageRequest>,
    ) -> (r: Result<wire::ListTodosResponse, TodoServiceError>)
        ensures
            match (
                r,
                list_reply(
                    page.data@.map_values(|t: Todo| t@),
                    page.total_elements,
                    page.page_request@,
                    next_page,
                    previous_page,
                ),
            ) {
                (Ok(resp), Ok(v)) => resp@ == v,
                (Err(e), Err(f)) => e@ == f,
                _ => false,
            },
    {
        let page_response = wire::PageResponse::for_page(&page, next_page, previous_page);
        let ghost data = page.data@.map_values(|t: Todo| t@);
        let mut todos: Vec<wire::Todo> = Vec::new();
        let n = page.data.len();
        for i in 0..n
            invariant
                n == page.data@.len(),
                data == page.data@.map_values(|t: Todo| t@),
                forall|j: int| 0 <= j < i ==> (#[trigger] data[j]).id is Some,
                todos@.map_values(|w: wire::Todo| w@) =~= data.take(i as int).map_values(
                    |t: TodoView| todo_to_wire(t)->Ok_0,
                ),
        {
            match page.data[i].to_wire() {
                Ok(w) => {
                    let ghost before = todos@;
                    todos.push(w);
                    assert(todos@ =~= before.push(w));
                    assert(data.take(i + 1) =~= data.take(i as int).push(data[i as int]));
                    assert(todos@.map_values(|w: wire::Todo| w@) =~= before.map_values(
                        |w: wire::Todo| w@,
                    ).push(w@));
                },
                Err(e) => {
                    assert(data[i as int].id is None);
                    return Err(TodoServiceError::Todo(e));
                },
            }
        }
        assert(data.take(n as int) =~= data);
        Ok(wire::ListTodosResponse { todos, page: Some(page_response) })
    }
}


/// A lookup that finds a todo answers exactly as saving that todo does.
pub proof fn law_found_reply_is_saved_reply(id: i32, t: TodoView)
    ensures
        found_reply(id, Some(t)) == saved_reply(t),
{
}

/// Looking up an id that names no todo fails with `NotFound` for that id,
/// reported with the `NotFound` status, the code `TODO_NOT_FOUND` and no
/// metadata.
pub proof fn law_unknown_todo_is_not_found(id: i32)
    ensures
        found_reply(id, None) == Err::<wire::TodoView, ServiceErrorView>(ServiceErrorView::NotFound(id)),
        error_status(ServiceErrorView::NotFound(id)) == StatusCode::NotFound,
        error_code(ServiceErrorView::NotFound(id)) == "TODO_NOT_FOUND"@,
        error_metadata(ServiceErrorView::NotFound(id)).len() == 0,
{
}

/// Every error other than `NotFound` is reported with the `Internal`
/// status and carries its text under `detail`.
pub proof fn law_internal_errors_carry_detail(e: ServiceErrorView)
    requires
        !(e is NotFound),
    ensures
        error_status(e) == StatusCode::Internal,
        error_metadata(e) == seq![("detail"@, error_message(e))],
{
}

/// A todo that was never saved has no id, so it cannot be answered: the
/// reply is a `MissingId` error, reported as `Internal`.
pub proof fn law_unsaved_todo_is_internal_error(t: TodoView)
    requires
        t.id is None,
    ensures
        saved_reply(t) == Err::<wire::TodoView, ServiceErrorView>(ServiceErrorView::Todo(TodoError::MissingId)),
        error_status(ServiceErrorView::Todo(TodoError::MissingId)) == StatusCode::Internal,
{
}

/// A created todo, once the database has given it an id, is answered with
/// that id, the requested title, `done` false and its creation time.
pub proof fn law_create_reply(title: Seq<char>, now: (i64, u32), assigned: i32)
    ensures
        saved_reply(TodoView { id: Some(assigned), title, done: false, created_at: now })
            == Ok::<wire::TodoView, ServiceErrorView>(
            wire::TodoView { id: assigned as u32, title, done: false, created_at: crate::timestamp::rfc3339_of(now) },
        ),
{
}

/// An update of a stored todo is answered with the id the request named,
/// the new title and flag, and the creation time the todo was stored with.
pub proof fn law_update_reply(id: u32, title: Seq<char>, done: bool, existing: TodoView)
    ensures
        updated_todo(id as i32, title, done, Some(existing)) matches Ok(saved) && saved_reply(saved)
            == Ok::<wire::TodoView, ServiceErrorView>(
            wire::TodoView { id, title, done, created_at: crate::timestamp::rfc3339_of(existing.created_at) },
        ),
{
    assert((id as i32) as u32 == id) by (bit_vector);
}

/// An update of an id that names no todo saves nothing and fails with
/// `NotFound` for that id.
pub proof fn law_update_of_unknown_todo(id: u32, title: Seq<char>, done: bool)
    ensures
        updated_todo(id as i32, title, done, None) == Err::<TodoView, ServiceErrorView>(
            ServiceErrorView::NotFound(id as i32),
        ),
{
}

/// A listing's reply holds one wire todo per fetched todo, in the order
/// fetched, and the page's total, whenever every fetched todo has an id.
pub proof fn law_list_reply_keeps_every_todo(
    data: Seq<TodoView>,
    total_elements: i64,
    page_request: paging::PageRequestView,
    next_page: Option<paging::PageRequest>,
    previous_page: Option<paging::PageRequest>,
)
    requires
        forall|i: int| 0 <= i < data.len() ==> (#[trigger] data[i]).id is Some,
    ensures
        ({
            let r = list_reply(data, total_elements, page_request, next_page, previous_page);
            &&& r is Ok
            &&& r->Ok_0.todos.len() == data.len()
            &&& forall|i: int|
                0 <= i < data.len() ==> todo_to_wire(data[i]) == Ok::<wire::TodoView, TodoError>(
                    #[trigger] r->Ok_0.todos[i],
                )
            &&& r->Ok_0.page == Some(page_response_of(total_elements, page_request, next_page, previous_page))
        }),
{
}


/// The page a listing fetches is the request it names, read as a paging
/// request with its offset, size and every sort key in order; a listing
/// that names none fetches every todo, unsorted.
pub proof fn law_list_fetches_requested_page(r: wire::PageRequestView)
    ensures
        list_page_request(Some(r)) == page_request_from_wire(r),
        list_page_request(None) == (paging::PageRequestView::Unpaged { sort: paging::SortView::Unsorted }),
        (r.offset is Some && r.size is Some) ==> list_page_request(Some(r)) is Paged
            && list_page_request(Some(r))->Paged_offset == r.offset->Some_0
            && list_page_request(Some(r))->Paged_size == r.size->Some_0,
        r.sort.len() > 0 ==> ({
            let s = paging::sort_of(list_page_request(Some(r)));
            &&& s is Sorted
            &&& s->Sorted_0.len() == r.sort.len()
            &&& forall|i: int|
                0 <= i < r.sort.len() ==> (#[trigger] s->Sorted_0[i]).0 == r.sort[i].0 && s->Sorted_0[i].1 == (
                if r.sort[i].1 == 1 {
                    paging::SortDirection::Desc
                } else {
                    paging::SortDirection::Asc
                })
        }),
{
}

} // verus!
