use todo_gateway::paging;
use todo_gateway::service::TodoService;
use todo_gateway::logging::{log_level, LogLevel};
use todo_gateway::web::{
    AuthController, ListTodosQuery, LoginRequest, Role, TodoRoute, TodosController,
    SESSION_TTL_HOURS,
};
use todo_gateway::wire;

#[test]
fn admin_role_is_named_admin() {
    assert_eq!(Role::Admin.as_ref(), "ADMIN");
}

#[test]
fn only_changing_routes_need_admin() {
    assert_eq!(TodosController::required_role(TodoRoute::ListTodos), None);
    assert_eq!(TodosController::required_role(TodoRoute::GetTodo), None);
    assert_eq!(
        TodosController::required_role(TodoRoute::CreateTodo),
        Some(Role::Admin)
    );
    assert_eq!(
        TodosController::required_role(TodoRoute::UpdateTodo),
        Some(Role::Admin)
    );
    assert_eq!(
        TodosController::required_role(TodoRoute::DeleteTodo),
        Some(Role::Admin)
    );
}

#[test]
fn list_query_with_offset_and_size_asks_for_a_page() {
    let request = TodosController::list_request(&ListTodosQuery {
        offset: Some(10),
        size: Some(5),
    });
    assert_eq!(
        request.page_request,
        Some(wire::PageRequest {
            offset: Some(10),
            size: Some(5),
            sort: vec![]
        })
    );
}

#[test]
fn list_query_without_both_asks_for_everything() {
    for (offset, size) in [(Some(1), None), (None, Some(2)), (None, None)] {
        let request = TodosController::list_request(&ListTodosQuery { offset, size });
        assert_eq!(request.page_request, None);
    }
}

#[test]
fn update_uses_the_id_in_the_path() {
    let request = TodosController::update_request(
        7,
        wire::UpdateTodoRequest {
            id: 99,
            title: "t".to_string(),
            done: true,
        },
    );
    assert_eq!(
        request,
        wire::UpdateTodoRequest {
            id: 7,
            title: "t".to_string(),
            done: true
        }
    );
}

#[test]
fn login_passes_the_credential_through() {
    let (user, password) = AuthController::login_credential(LoginRequest {
        username: "admin".to_string(),
        password: "admin".to_string(),
    });
    assert_eq!(user, "admin");
    assert_eq!(password, "admin");
    assert_eq!(SESSION_TTL_HOURS, 12);
    assert_eq!(AuthController::session_ttl_seconds(), 43_200);
    assert_eq!(
        AuthController::login_response("tok".to_string()).token,
        "tok"
    );
}

#[test]
fn flag_counts_select_the_log_level() {
    assert_eq!(log_level(0, 0), LogLevel::Info);
    assert_eq!(log_level(1, 0), LogLevel::Debug);
    assert_eq!(log_level(2, 0), LogLevel::Trace);
    assert_eq!(log_level(255, 0), LogLevel::Trace);
    assert_eq!(log_level(0, 1), LogLevel::Warn);
    assert_eq!(log_level(0, 2), LogLevel::Error);
    assert_eq!(log_level(0, 255), LogLevel::Error);
    assert_eq!(log_level(3, 3), LogLevel::Info);
}

#[test]
fn gateway_query_selects_the_page_the_service_fetches() {
    let fetch = TodoService::list_todos(TodosController::list_request(&ListTodosQuery {
        offset: Some(20),
        size: Some(10),
    }));
    assert_eq!(
        fetch,
        paging::PageRequest::Paged {
            offset: 20,
            size: 10,
            sort: paging::Sort::Unsorted
        }
    );
    let fetch = TodoService::list_todos(TodosController::list_request(&ListTodosQuery {
        offset: None,
        size: Some(10),
    }));
    assert_eq!(fetch, paging::PageRequest::default());
}
