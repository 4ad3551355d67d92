use replicante_core::coordinator::node_id::NodeId;
use replicante_core::tasks::conf::ConfError;
use replicante_core::tasks::statements::decimal_text;
use replicante_core::tasks::statements::next_sql;
use replicante_core::tasks::statements::subscribed_queue;
use replicante_core::tasks::statements::SQLReceivedTask;
use replicante_core::tasks::statements::DELETE_SQL;
use replicante_core::tasks::statements::NEXT_SQL_HEAD;
use replicante_core::tasks::statements::NEXT_SQL_TAIL;
use replicante_core::text::format_uuid;
use replicante_core::text::join_path;

#[test]
fn next_sql_lists_quoted_queues() {
    let sql = next_sql(&vec![String::from("UNIT_TEST"), String::from("UNIT_TEST_ALTERNATE")]);
    let expected = format!("{}\"UNIT_TEST\", \"UNIT_TEST_ALTERNATE\"{}", NEXT_SQL_HEAD, NEXT_SQL_TAIL);
    assert_eq!(sql, expected);
    assert!(sql.contains("queue_id IN (\"UNIT_TEST\", \"UNIT_TEST_ALTERNATE\") AND"));
    assert!(sql.contains("ORDER BY task_id ASC"));
    let sql = next_sql(&vec![String::from("ONLY")]);
    assert!(sql.contains("queue_id IN (\"ONLY\") AND"));
    let sql = next_sql(&Vec::new());
    assert!(sql.contains("queue_id IN () AND"));
}

#[test]
fn delete_statement_targets_one_task() {
    assert!(DELETE_SQL.contains("DELETE FROM tasks_queue"));
    assert!(DELETE_SQL.contains("WHERE task_id = ?1;"));
}

#[test]
fn received_task_ids_are_decimal() {
    let task = SQLReceivedTask::from_row(42, "Q".into(), "null".into(), None, Some("{}".into()));
    assert_eq!(task.task_id, "42");
    assert_eq!(task.queue_id, "Q");
    assert_eq!(task.trace, Some(String::from("{}")));
    assert_eq!(decimal_text(0), "0");
    assert_eq!(decimal_text(-17), "-17");
    assert_eq!(decimal_text(i64::MAX), "9223372036854775807");
    assert_eq!(decimal_text(i64::MIN), "-9223372036854775808");
}

#[test]
fn subscribed_queues() {
    let queues = vec![String::from("A"), String::from("B")];
    assert_eq!(subscribed_queue(&queues, &String::from("B")), Some(1));
    assert_eq!(subscribed_queue(&queues, &String::from("C")), None);
}

#[test]
fn conf_error_message() {
    assert_eq!(
        ConfError.describe(),
        "the SQLite background tasks backend configuration is not valid"
    );
}

#[test]
fn uuid_text_matches_uuid_crate() {
    let id = uuid::Uuid::parse_str("a7514ce6-48f4-4f9d-bb22-78cbfc37c664").unwrap();
    assert_eq!(format_uuid(id.as_u128()), id.to_string());
    assert_eq!(format_uuid(0), "00000000-0000-0000-0000-000000000000");
}

#[test]
fn paths_are_joined_with_a_slash() {
    assert_eq!(join_path("/elections", "abc"), "/elections/abc");
}

#[test]
fn node_ids_are_random_hex() {
    let a = NodeId::new();
    let b = NodeId::new();
    assert_eq!(a.id.len(), 32);
    assert!(a.id.chars().all(|c| c.is_ascii_hexdigit() && !c.is_ascii_uppercase()));
    assert_ne!(a.id, b.id);
    assert_eq!(a.to_string(), a.id);
}

#[test]
fn node_attributes_form_a_map() {
    let mut node = NodeId::with_id(String::from("abcd"));
    node.extra(vec![
        (String::from("zone"), String::from("a")),
        (String::from("host"), String::from("h1")),
        (String::from("zone"), String::from("b")),
        (String::from("dc"), String::from("eu")),
    ]);
    assert_eq!(
        node.extra,
        vec![
            (String::from("dc"), String::from("eu")),
            (String::from("host"), String::from("h1")),
            (String::from("zone"), String::from("b")),
        ]
    );
    assert_eq!(node.id, "abcd");
}
