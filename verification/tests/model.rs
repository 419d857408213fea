use todo_gateway::model::{Todo, TodoError};
use todo_gateway::text::i32_decimal;
use todo_gateway::timestamp::Timestamp;
use todo_gateway::wire;

fn epoch() -> Timestamp {
    Timestamp::new(0, 0).expect("the epoch is representable")
}

#[test]
fn timestamp_is_written_as_rfc3339() {
    assert_eq!(epoch().to_rfc3339(), "1970-01-01T00:00:00+00:00");
    let t = Timestamp::new(1_700_000_000, 500_000_000).expect("representable");
    assert_eq!(t.secs(), 1_700_000_000);
    assert_eq!(t.nanos(), 500_000_000);
    assert_eq!(t.to_rfc3339(), "2023-11-14T22:13:20.500+00:00");
}

#[test]
fn unrepresentable_timestamp_is_refused() {
    assert!(Timestamp::new(0, 2_000_000_000).is_none());
    assert!(Timestamp::new(i64::MAX, 0).is_none());
}

#[test]
fn persisted_todo_converts_to_wire() {
    let todo = Todo {
        id: Some(3),
        title: "first".to_string(),
        done: true,
        created_at: epoch(),
    };
    let w: wire::Todo = todo.try_into().expect("has an id");
    assert_eq!(
        w,
        wire::Todo {
            id: 3,
            title: "first".to_string(),
            done: true,
            created_at: "1970-01-01T00:00:00+00:00".to_string(),
        }
    );
}

#[test]
fn negative_id_keeps_its_bits_on_the_wire() {
    let todo = Todo {
        id: Some(-1),
        title: String::new(),
        done: false,
        created_at: epoch(),
    };
    assert_eq!(todo.to_wire().expect("has an id").id, u32::MAX);
}

#[test]
fn unsaved_todo_has_no_wire_form() {
    let todo = Todo {
        id: None,
        title: "draft".to_string(),
        done: false,
        created_at: epoch(),
    };
    let r: Result<wire::Todo, TodoError> = todo.try_into();
    assert_eq!(r, Err(TodoError::MissingId));
    assert_eq!(
        TodoError::MissingId.message(),
        "todo has not been persisted yet"
    );
}

#[test]
fn decimal_text_matches_to_string() {
    for n in [0, 7, 10, 42, -5, 404, 1_000_000, i32::MAX, i32::MIN] {
        assert_eq!(i32_decimal(n), n.to_string());
    }
}
