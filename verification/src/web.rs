//! The REST gateway's own logic: its role set, the request bodies of its
//! routes, and how its handlers shape the calls they forward to the todo
//! service.

use vstd::prelude::*;
use crate::paging;
use crate::service::list_page_request;
use crate::wire;

verus! {

/// A permission an authenticated user may hold. The gateway only tells
/// admins from everyone else.
#[derive(Debug, Clone, Copy, PartialEq, Eq, Structural)]
pub enum Role {
    Admin,
}

/// The name a role is stored under in a user's role list.
pub open spec fn role_name(role: Role) -> Seq<char> {
    match role {
        Role::Admin => "ADMIN"@,
    }
}

impl AsRef<str> for Role {
    fn as_ref(&self) -> (name: &str)
        ensures
            name@ == role_name(*self),
    {
        proof {
            reveal_strlit("ADMIN");
        }
        match self {
            Role::Admin => "ADMIN",
        }
    }
}


/// How long an admin session lasts, in hours.
pub const SESSION_TTL_HOURS: i64 = 12;

/// Body of `POST /api/auth/login`: a username and password pair.
#[derive(Debug, Clone, PartialEq, Eq)]
pub struct LoginRequest {
    pub username: String,
    pub password: String,
}

/// Reply of `POST /api/auth/login`: the bearer token of the new session.
#[derive(Debug, Clone, PartialEq, Eq)]
pub struct LoginResponse {
    pub token: String,
}

/// Owns `/api/auth/*`: `login` issues a session token for a valid
/// username and password, `me` returns the caller's identity.
pub struct AuthController;

impl AuthController {
    /// The basic credential that `login` checks: the request's username
    /// and password, unchanged.
    pub fn login_credential(request: LoginRequest) -> (c: (String, String))
        ensures
            c.0@ == request.username@,
            c.1@ == request.password@,
    {
        (request.username, request.password)
    }

    /// The lifetime of the session that `login` issues, in seconds.
    pub fn session_ttl_seconds() -> (s: i64)
        ensures
            s == SESSION_TTL_HOURS * 3600,
    {
        SESSION_TTL_HOURS * 3600
    }

    /// The reply of `login` once the session's token is signed.
    pub fn login_response(token: String) -> (r: LoginResponse)
        ensures
            r.token@ == token@,
    {
        LoginResponse { token }
    }
}

/// Query parameters of `GET /api/todos`.
#[derive(Debug, Clone, Copy, PartialEq, Eq)]
pub struct ListTodosQuery {
    pub offset: Option<i64>,
    pub size: Option<i64>,
}

/// The routes that [`TodosController`] owns.
#[derive(Debug, Clone, Copy, PartialEq, Eq, Structural)]
pub enum TodoRoute {
    /// `GET /api/todos`
    ListTodos,
    /// `GET /api/todos/{id}`
    GetTodo,
    /// `POST /api/admin/todos`
    CreateTodo,
    /// `PUT /api/admin/todos/{id}`
    UpdateTodo,
    /// `DELETE /api/admin/todos/{id}`
    DeleteTodo,
}

/// Whether a route changes the stored todos.
pub open spec fn changes_todos(route: TodoRoute) -> bool {
    match route {
        TodoRoute::ListTodos | TodoRoute::GetTodo => false,
        _ => true,
    }
}

/// The page request that a listing's query asks for: one page when both
/// `offset` and `size` are given, unsorted; none (everything) otherwise.
pub open spec fn query_page_request(offset: Option<i64>, size: Option<i64>) -> Option<wire::PageRequestView> {
    match (offset, size) {
        (Some(o), Some(s)) => Some(wire::PageRequestView { offset: Some(o), size: Some(s), sort: Seq::empty() }),
        _ => None,
    }
}

/// Owns `/api/todos*` (public) and `/api/admin/todos*` (admins only), and
/// forwards each to the todo service.
pub struct TodosController;

impl TodosController {
    /// The role a caller must hold to use a route: `Admin` for the routes
    /// that change todos, none for reading them.
    pub fn required_role(route: TodoRoute) -> (r: Option<Role>)
        ensures
            r == (if changes_todos(route) { Some(Role::Admin) } else { None::<Role> }),
    {
        match route {
            TodoRoute::ListTodos | TodoRoute::GetTodo => None,
            TodoRoute::CreateTodo | TodoRoute::UpdateTodo | TodoRoute::DeleteTodo => Some(Role::Admin),
        }
    }

    /// `GET /api/todos`: the listing call to forward for the query.
    pub fn list_request(query: &ListTodosQuery) -> (r: wire::ListTodosRequest)
        ensures
            wire::opt_page_request_view(r.page_request) == query_page_request(query.offset, query.size),
    {
        let page_request = match (query.offset, query.size) {
            (Some(offset), Some(size)) => {
                let r = wire::PageRequest { offset: Some(offset), size: Some(size), sort: Vec::new() };
                assert(r@.sort =~= Seq::empty());
                Some(r)
            },
            _ => None,
        };
        wire::ListTodosRequest { page_request }
    }

    /// `PUT /api/admin/todos/{id}`: the update call to forward; the id in
    /// the path replaces whatever id the body carries.
    pub fn update_request(id: u32, request: wire::UpdateTodoRequest) -> (r: wire::UpdateTodoRequest)
        ensures
            r.id == id,
            r.title@ == request.title@,
            r.done == request.done,
    {
        let mut request = request;
        request.id = id;
        request
    }
}


/// A listing through the gateway makes the service fetch exactly the page
/// that the query's `offset` and `size` select, unsorted, when both are
/// given, and every todo, unsorted, otherwise.
pub proof fn law_query_selects_page(offset: Option<i64>, size: Option<i64>)
    ensures
        list_page_request(query_page_request(offset, size)) == match (offset, size) {
            (Some(o), Some(s)) => paging::PageRequestView::Paged {
                offset: o,
                size: s,
                sort: paging::SortView::Unsorted,
            },
            _ => paging::default_page_request(),
        },
{
}

} // verus!
