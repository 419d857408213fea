use todo_gateway::model::{Todo, TodoError};
use todo_gateway::paging;
use todo_gateway::service::{StatusCode, TodoService, TodoServiceError, SERVICE_ERROR_DOMAIN};
use todo_gateway::timestamp::Timestamp;
use todo_gateway::wire;

fn at(secs: i64) -> Timestamp {
    Timestamp::new(secs, 0).expect("representable")
}

#[test]
fn create_builds_an_unsaved_open_todo() {
    let todo = TodoService::create_todo(
        wire::CreateTodoRequest {
            title: "first".to_string(),
        },
        at(86_400),
    );
    assert_eq!(
        todo,
        Todo {
            id: None,
            title: "first".to_string(),
            done: false,
            created_at: at(86_400),
        }
    );
}

#[test]
fn ids_are_read_as_i32() {
    assert_eq!(TodoService::get_todo(&wire::GetTodoRequest { id: 404 }), 404);
    assert_eq!(
        TodoService::delete_todo(&wire::DeleteTodoRequest { id: u32::MAX }),
        -1
    );
    let update = wire::UpdateTodoRequest {
        id: 9,
        title: String::new(),
        done: true,
    };
    assert_eq!(TodoService::update_lookup(&update), 9);
}

#[test]
fn getting_an_unknown_todo_is_not_found() {
    let err = TodoService::found_todo(404, None).expect_err("expected not-found");
    assert_eq!(err, TodoServiceError::NotFound(404));
    assert_eq!(err.status_code(), StatusCode::NotFound);
    assert_eq!(err.code(), "TODO_NOT_FOUND");
    assert_eq!(err.domain(), SERVICE_ERROR_DOMAIN);
    assert_eq!(err.message(), "todo 404 not found");
    assert!(err.metadata().is_empty());
}

#[test]
fn found_todo_is_answered_in_wire_form() {
    let stored = Todo {
        id: Some(1),
        title: "first".to_string(),
        done: false,
        created_at: at(0),
    };
    let reply = TodoService::found_todo(1, Some(stored)).expect("found");
    assert_eq!(
        reply,
        wire::Todo {
            id: 1,
            title: "first".to_string(),
            done: false,
            created_at: "1970-01-01T00:00:00+00:00".to_string(),
        }
    );
}

#[test]
fn update_keeps_id_and_creation_time() {
    let existing = Todo {
        id: Some(2),
        title: "old".to_string(),
        done: false,
        created_at: at(60),
    };
    let request = wire::UpdateTodoRequest {
        id: 2,
        title: "new".to_string(),
        done: true,
    };
    let todo = TodoService::update_todo(request, Some(existing)).expect("exists");
    assert_eq!(
        todo,
        Todo {
            id: Some(2),
            title: "new".to_string(),
            done: true,
            created_at: at(60),
        }
    );
    let reply = TodoService::saved_todo(todo).expect("saved");
    assert_eq!(reply.id, 2);
    assert!(reply.done);
    assert_eq!(reply.created_at, "1970-01-01T00:01:00+00:00");
}

#[test]
fn update_of_unknown_todo_is_not_found() {
    let request = wire::UpdateTodoRequest {
        id: 5,
        title: "x".to_string(),
        done: false,
    };
    assert_eq!(
        TodoService::update_todo(request, None),
        Err(TodoServiceError::NotFound(5))
    );
}

#[test]
fn saving_reply_of_unsaved_todo_is_an_internal_error() {
    let err = TodoService::saved_todo(Todo {
        id: None,
        title: "x".to_string(),
        done: false,
        created_at: at(0),
    })
    .expect_err("no id");
    assert_eq!(err, TodoServiceError::Todo(TodoError::MissingId));
    assert_eq!(err.status_code(), StatusCode::Internal);
    assert_eq!(err.code(), "TODO_INTERNAL_ERROR");
    assert_eq!(
        err.metadata(),
        vec![(
            "detail".to_string(),
            "todo has not been persisted yet".to_string()
        )]
    );
}

#[test]
fn database_error_reports_its_message() {
    let err = TodoServiceError::Database("connection refused".to_string());
    assert_eq!(err.status_code(), StatusCode::Internal);
    assert_eq!(err.code(), "TODO_INTERNAL_ERROR");
    assert_eq!(err.message(), "connection refused");
    assert_eq!(
        err.metadata(),
        vec![("detail".to_string(), "connection refused".to_string())]
    );
    assert_eq!(SERVICE_ERROR_DOMAIN, "todo-service.{{crate_name}}");
}

#[test]
fn listing_without_a_page_request_fetches_everything() {
    let request = TodoService::list_todos(wire::ListTodosRequest { page_request: None });
    assert_eq!(
        request,
        paging::PageRequest::Unpaged {
            sort: paging::Sort::Unsorted
        }
    );
    let paged = TodoService::list_todos(wire::ListTodosRequest {
        page_request: Some(wire::PageRequest {
            offset: Some(0),
            size: Some(10),
            sort: vec![],
        }),
    });
    assert_eq!(
        paged,
        paging::PageRequest::Paged {
            offset: 0,
            size: 10,
            sort: paging::Sort::Unsorted
        }
    );
}

#[test]
fn listing_answers_every_todo_in_order() {
    let page = paging::Page {
        data: vec![
            Todo {
                id: Some(1),
                title: "a".to_string(),
                done: false,
                created_at: at(0),
            },
            Todo {
                id: Some(2),
                title: "b".to_string(),
                done: true,
                created_at: at(1),
            },
        ],
        total_elements: 2,
        page_request: paging::PageRequest::default(),
    };
    let reply = TodoService::listed_todos(page, None, None).expect("all have ids");
    assert_eq!(reply.todos.len(), 2);
    assert_eq!(reply.todos[0].id, 1);
    assert_eq!(reply.todos[1].title, "b");
    assert_eq!(reply.todos[1].created_at, "1970-01-01T00:00:01+00:00");
    let page = reply.page.expect("paging facts");
    assert_eq!(page.total_elements, 2);
    assert_eq!(
        page.page_request,
        Some(wire::PageRequest {
            offset: None,
            size: None,
            sort: vec![]
        })
    );
}

#[test]
fn listing_with_an_unsaved_todo_fails() {
    let page = paging::Page {
        data: vec![
            Todo {
                id: Some(1),
                title: "a".to_string(),
                done: false,
                created_at: at(0),
            },
            Todo {
                id: None,
                title: "b".to_string(),
                done: false,
                created_at: at(0),
            },
        ],
        total_elements: 2,
        page_request: paging::PageRequest::default(),
    };
    assert_eq!(
        TodoService::listed_todos(page, None, None),
        Err(TodoServiceError::Todo(TodoError::MissingId))
    );
}

/// Drives the handlers' decisions against a table kept in a `Vec`, in the
/// order of the service's end-to-end scenario: create, get, update, list,
/// delete, list.
#[test]
fn creates_updates_lists_and_deletes_a_todo_against_a_table() {
    let mut table: Vec<Todo> = Vec::new();
    let mut next_id = 1;
    let mut save = |table: &mut Vec<Todo>, todo: Todo| -> Todo {
        match todo.id {
            None => {
                let saved = Todo {
                    id: Some(next_id),
                    ..todo
                };
                next_id += 1;
                table.push(saved.clone());
                saved
            }
            Some(id) => {
                table.retain(|t| t.id != Some(id));
                table.push(todo.clone());
                todo
            }
        }
    };
    let find = |table: &Vec<Todo>, id: i32| table.iter().find(|t| t.id == Some(id)).cloned();

    let entity = TodoService::create_todo(
        wire::CreateTodoRequest {
            title: "first".to_string(),
        },
        at(0),
    );
    let created = TodoService::saved_todo(save(&mut table, entity)).expect("create todo");
    assert_eq!(created.title, "first");
    assert!(!created.done);

    let id = TodoService::get_todo(&wire::GetTodoRequest { id: created.id });
    let fetched = TodoService::found_todo(id, find(&table, id)).expect("get todo");
    assert_eq!(fetched.id, created.id);

    let update = wire::UpdateTodoRequest {
        id: created.id,
        title: created.title.clone(),
        done: true,
    };
    let id = TodoService::update_lookup(&update);
    let entity = TodoService::update_todo(update, find(&table, id)).expect("exists");
    let updated = TodoService::saved_todo(save(&mut table, entity)).expect("update todo");
    assert!(updated.done);

    let request = TodoService::list_todos(wire::ListTodosRequest { page_request: None });
    let page = paging::Page {
        data: table.clone(),
        total_elements: table.len() as i64,
        page_request: request,
    };
    let listed = TodoService::listed_todos(page, None, None).expect("list todos");
    assert_eq!(listed.page.unwrap().total_elements, 1);
    assert_eq!(listed.todos[0].id, created.id);

    let id = TodoService::delete_todo(&wire::DeleteTodoRequest { id: created.id });
    table.retain(|t| t.id != Some(id));

    let page = paging::Page {
        data: table.clone(),
        total_elements: table.len() as i64,
        page_request: TodoService::list_todos(wire::ListTodosRequest { page_request: None }),
    };
    let listed = TodoService::listed_todos(page, None, None).expect("list todos");
    assert_eq!(listed.page.unwrap().total_elements, 0);
}
