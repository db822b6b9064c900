//! The store against a real engine: every test opens a private in-memory
//! database.

use std::path::PathBuf;

use genau::{
    create_tables, get_db, get_messages, get_plan, reset_database, save_message, save_plan,
    ColumnType, DatabasePath, Message, Plan, RowError, Store, StoreError, WORKSPACE_ID,
};
use rusqlite::Connection;

fn open() -> Store {
    get_db(DatabasePath { base: PathBuf::from(":memory:"), below: vec![] }).unwrap()
}

fn open_with(schema_and_rows: &str) -> Store {
    let conn = Connection::open_in_memory().unwrap();
    conn.execute_batch(schema_and_rows).unwrap();
    Store::new(conn)
}

fn turn(sender: &str, text: &str) -> Message {
    Message {
        id: 0,
        workspace_id: WORKSPACE_ID,
        sender: sender.to_string(),
        text: text.to_string(),
        created_at: String::new(),
    }
}

fn plan(steps: &[&str]) -> Plan {
    Plan { steps: steps.iter().map(|s| s.to_string()).collect() }
}

fn count(store: &Store, sql: &str) -> i64 {
    store.connection().query_row(sql, [], |row| row.get::<usize, i64>(0)).unwrap()
}

#[test]
fn append_then_list_returns_most_recent_first() {
    let mut store = open();
    save_message(&mut store, &turn("user", "hi")).unwrap();
    save_message(&mut store, &turn("assistant", "hello")).unwrap();
    let listed = get_messages(&mut store).unwrap();
    let pairs: Vec<(&str, &str)> =
        listed.iter().map(|m| (m.sender.as_str(), m.text.as_str())).collect();
    assert_eq!(pairs, vec![("assistant", "hello"), ("user", "hi")]);
}

#[test]
fn saved_plan_is_read_back_step_for_step() {
    let mut store = open();
    let written = plan(&["fetch data", "clean data", "train model"]);
    save_plan(&mut store, WORKSPACE_ID, &written).unwrap();
    let read = get_plan(&mut store).unwrap();
    assert_eq!(read.steps, vec!["fetch data", "clean data", "train model"]);
}

#[test]
fn listing_of_a_new_store_is_empty() {
    let mut store = open();
    assert_eq!(get_messages(&mut store).unwrap(), Vec::<Message>::new());
}

#[test]
fn append_adds_exactly_one_entry() {
    let mut store = open();
    save_message(&mut store, &turn("user", "first")).unwrap();
    let before = get_messages(&mut store).unwrap();
    save_message(&mut store, &turn("assistant", "second")).unwrap();
    let after = get_messages(&mut store).unwrap();
    assert_eq!(after.len(), before.len() + 1);
    assert_eq!(&after[1..], &before[..]);
    assert_eq!(after[0].sender, "assistant");
    assert_eq!(after[0].text, "second");
    assert_eq!(after[0].workspace_id, WORKSPACE_ID);
    assert!(!after[0].created_at.is_empty());
}

#[test]
fn append_takes_any_sender_and_text() {
    let mut store = open();
    save_message(&mut store, &turn("", "")).unwrap();
    save_message(&mut store, &turn("narrator", "line one\nline \"two\" \u{1F600}")).unwrap();
    let listed = get_messages(&mut store).unwrap();
    assert_eq!(listed.len(), 2);
    assert_eq!(listed[0].sender, "narrator");
    assert_eq!(listed[0].text, "line one\nline \"two\" \u{1F600}");
    assert_eq!(listed[1].sender, "");
    assert_eq!(listed[1].text, "");
}

#[test]
fn listing_ids_strictly_descend() {
    let mut store = open();
    for n in 0..7 {
        save_message(&mut store, &turn("user", &format!("turn {}", n))).unwrap();
    }
    let listed = get_messages(&mut store).unwrap();
    assert_eq!(listed.len(), 7);
    for pair in listed.windows(2) {
        assert!(pair[0].id > pair[1].id);
    }
    assert_eq!(listed[0].text, "turn 6");
    assert_eq!(listed[6].text, "turn 0");
}

#[test]
fn append_assigns_id_and_created_at_itself() {
    let mut store = open();
    let supplied = Message {
        id: 4711,
        workspace_id: WORKSPACE_ID,
        sender: "user".to_string(),
        text: "hi".to_string(),
        created_at: "long ago".to_string(),
    };
    save_message(&mut store, &supplied).unwrap();
    let listed = get_messages(&mut store).unwrap();
    assert_eq!(listed.len(), 1);
    assert_eq!(listed[0].id, 1);
    assert_ne!(listed[0].created_at, "long ago");
    assert_eq!(listed[0].created_at.len(), "2000-01-01 00:00:00".len());
}

#[test]
fn listing_leaves_out_other_workspaces() {
    let mut store = open();
    let mut foreign = turn("user", "elsewhere");
    foreign.workspace_id = WORKSPACE_ID + 1;
    save_message(&mut store, &foreign).unwrap();
    save_message(&mut store, &turn("user", "here")).unwrap();
    let listed = get_messages(&mut store).unwrap();
    assert_eq!(listed.len(), 1);
    assert_eq!(listed[0].text, "here");
    assert_eq!(count(&store, "SELECT COUNT(*) FROM messages"), 2);
}

#[test]
fn reading_a_missing_plan_writes_the_empty_plan() {
    let mut store = open();
    assert_eq!(count(&store, "SELECT COUNT(*) FROM plans"), 0);
    let read = get_plan(&mut store).unwrap();
    assert_eq!(read, Plan { steps: vec![] });
    let stored: (i64, String) = store
        .connection()
        .query_row("SELECT workspace_id, steps FROM plans", [], |row| {
            Ok((row.get(0)?, row.get(1)?))
        })
        .unwrap();
    assert_eq!(stored, (1, "[]".to_string()));
    assert_eq!(count(&store, "SELECT COUNT(*) FROM plans"), 1);
}

#[test]
fn plan_round_trips_with_awkward_steps() {
    let mut store = open();
    let written = plan(&[
        "",
        "say \"hi\"",
        "back\\slash",
        "two\nlines\tand a tab",
        "[\"looks\", \"like\", \"json\"]",
        "gr\u{fc}\u{df}e \u{4e16}\u{754c} \u{1F680}",
        "\u{0}\u{1}\u{1f}",
    ]);
    save_plan(&mut store, WORKSPACE_ID, &written).unwrap();
    assert_eq!(get_plan(&mut store).unwrap(), written);
}

#[test]
fn second_upsert_replaces_the_first() {
    let mut store = open();
    save_plan(&mut store, WORKSPACE_ID, &plan(&["a", "b", "c"])).unwrap();
    save_plan(&mut store, WORKSPACE_ID, &plan(&["d"])).unwrap();
    assert_eq!(count(&store, "SELECT COUNT(*) FROM plans WHERE workspace_id = 1"), 1);
    assert_eq!(get_plan(&mut store).unwrap().steps, vec!["d"]);
}

#[test]
fn plans_of_other_workspaces_are_kept_apart() {
    let mut store = open();
    save_plan(&mut store, WORKSPACE_ID, &plan(&["mine"])).unwrap();
    save_plan(&mut store, WORKSPACE_ID + 1, &plan(&["theirs"])).unwrap();
    assert_eq!(get_plan(&mut store).unwrap().steps, vec!["mine"]);
    assert_eq!(count(&store, "SELECT COUNT(*) FROM plans"), 2);
}

#[test]
fn reset_clears_messages_and_plan() {
    let mut store = open();
    save_message(&mut store, &turn("user", "hi")).unwrap();
    save_message(&mut store, &turn("assistant", "hello")).unwrap();
    save_plan(&mut store, WORKSPACE_ID, &plan(&["fetch data"])).unwrap();
    reset_database(&mut store).unwrap();
    assert_eq!(count(&store, "SELECT COUNT(*) FROM messages"), 0);
    assert_eq!(count(&store, "SELECT COUNT(*) FROM plans"), 0);
    assert!(get_messages(&mut store).unwrap().is_empty());
    assert!(get_plan(&mut store).unwrap().steps.is_empty());
    assert_eq!(count(&store, "SELECT COUNT(*) FROM plans"), 1);
}

#[test]
fn reset_of_an_empty_store_succeeds() {
    let mut store = open();
    reset_database(&mut store).unwrap();
    assert!(get_messages(&mut store).unwrap().is_empty());
}

#[test]
fn reset_leaves_other_workspaces() {
    let mut store = open();
    let mut foreign = turn("user", "elsewhere");
    foreign.workspace_id = WORKSPACE_ID + 1;
    save_message(&mut store, &foreign).unwrap();
    save_plan(&mut store, WORKSPACE_ID + 1, &plan(&["theirs"])).unwrap();
    save_message(&mut store, &turn("user", "here")).unwrap();
    reset_database(&mut store).unwrap();
    assert_eq!(count(&store, "SELECT COUNT(*) FROM messages"), 1);
    assert_eq!(count(&store, "SELECT COUNT(*) FROM plans"), 1);
}

#[test]
fn creating_the_tables_again_keeps_what_is_stored() {
    let mut store = open();
    save_message(&mut store, &turn("user", "hi")).unwrap();
    save_plan(&mut store, WORKSPACE_ID, &plan(&["a"])).unwrap();
    create_tables(&mut store).unwrap();
    create_tables(&mut store).unwrap();
    assert_eq!(get_messages(&mut store).unwrap().len(), 1);
    assert_eq!(get_plan(&mut store).unwrap().steps, vec!["a"]);
}

#[test]
fn created_tables_have_the_persisted_layout() {
    let mut store = Store::new(Connection::open_in_memory().unwrap());
    create_tables(&mut store).unwrap();
    let mut stmt = store
        .connection()
        .prepare("SELECT m.name, p.name, p.type, p.\"notnull\", p.pk FROM sqlite_master m JOIN pragma_table_info(m.name) p ORDER BY m.name, p.cid")
        .unwrap();
    let columns: Vec<(String, String, String, i64, i64)> = stmt
        .query_map([], |row| {
            Ok((row.get(0)?, row.get(1)?, row.get(2)?, row.get(3)?, row.get(4)?))
        })
        .unwrap()
        .map(|column| column.unwrap())
        .collect();
    let expected: Vec<(String, String, String, i64, i64)> = [
        ("messages", "id", "INTEGER", 0, 1),
        ("messages", "workspace_id", "INTEGER", 1, 0),
        ("messages", "sender", "TEXT", 1, 0),
        ("messages", "text", "TEXT", 1, 0),
        ("messages", "created_at", "TEXT", 1, 0),
        ("plans", "workspace_id", "INTEGER", 0, 1),
        ("plans", "steps", "TEXT", 1, 0),
    ]
    .iter()
    .map(|c| (c.0.to_string(), c.1.to_string(), c.2.to_string(), c.3, c.4))
    .collect();
    assert_eq!(columns, expected);
}

#[test]
fn opening_creates_the_tables() {
    let store = open();
    assert_eq!(
        count(&store, "SELECT COUNT(*) FROM sqlite_master WHERE type = 'table' AND name IN ('messages', 'plans')"),
        2
    );
}

#[test]
fn engine_errors_are_handed_on() {
    let mut store = Store::new(Connection::open_in_memory().unwrap());
    assert!(matches!(save_message(&mut store, &turn("user", "hi")), Err(StoreError::Storage(_))));
    assert!(matches!(get_messages(&mut store), Err(StoreError::Storage(_))));
    assert!(matches!(
        save_plan(&mut store, WORKSPACE_ID, &plan(&["a"])),
        Err(StoreError::Storage(_))
    ));
    assert!(matches!(get_plan(&mut store), Err(StoreError::Storage(_))));
    assert!(matches!(reset_database(&mut store), Err(StoreError::Storage(_))));
}

#[test]
fn constraint_violation_is_a_storage_error() {
    let mut store = open_with(
        "CREATE TABLE messages (id INTEGER PRIMARY KEY, workspace_id INTEGER NOT NULL, sender TEXT NOT NULL CHECK (sender <> 'nobody'), text TEXT NOT NULL, created_at TEXT NOT NULL)",
    );
    save_message(&mut store, &turn("user", "hi")).unwrap();
    match save_message(&mut store, &turn("nobody", "hi")) {
        Err(StoreError::Storage(rusqlite::Error::SqliteFailure(cause, _))) => {
            assert_eq!(cause.code, rusqlite::ErrorCode::ConstraintViolation)
        }
        other => panic!("{:?}", other),
    }
    assert_eq!(get_messages(&mut store).unwrap().len(), 1);
}

#[test]
fn opening_below_a_missing_directory_is_a_storage_error() {
    let below_a_missing_directory = DatabasePath {
        base: PathBuf::from("/tmp"),
        below: vec!["no-such-directory-of-genau".to_string(), "genau.db".to_string()],
    };
    assert!(matches!(get_db(below_a_missing_directory), Err(StoreError::Storage(_))));
    let missing_itself =
        DatabasePath { base: PathBuf::from("/no-such-directory-of-genau/genau.db"), below: vec![] };
    assert!(matches!(get_db(missing_itself), Err(StoreError::Storage(_))));
}

#[test]
fn database_is_opened_at_the_names_below_its_base() {
    let location = DatabasePath {
        base: PathBuf::from("file:"),
        below: vec!["genau".to_string(), "genau.db?mode=memory&cache=shared".to_string()],
    };
    let mut store = get_db(location).unwrap();
    save_message(&mut store, &turn("user", "kept")).unwrap();

    let direct = Connection::open("file:/genau/genau.db?mode=memory&cache=shared").unwrap();
    let kept: String =
        direct.query_row("SELECT text FROM messages", [], |row| row.get(0)).unwrap();
    assert_eq!(kept, "kept");

    let elsewhere = Connection::open("file:/genau.db?mode=memory&cache=shared").unwrap();
    assert!(elsewhere.prepare("SELECT text FROM messages").is_err());
}

#[test]
fn row_with_a_blob_sender_fails_the_listing() {
    let mut store = open();
    save_message(&mut store, &turn("user", "fine")).unwrap();
    store
        .connection()
        .execute(
            "INSERT INTO messages (workspace_id, sender, text, created_at) VALUES (1, x'0102', 't', 'now')",
            [],
        )
        .unwrap();
    match get_messages(&mut store) {
        Err(StoreError::Row(e)) => assert_eq!(e, RowError::InvalidColumnType(2, ColumnType::Blob)),
        other => panic!("{:?}", other),
    }
}

#[test]
fn row_with_an_id_beyond_32_bits_fails_the_listing() {
    let mut store = open();
    store
        .connection()
        .execute(
            "INSERT INTO messages (id, workspace_id, sender, text, created_at) VALUES (4294967296, 1, 's', 't', 'now')",
            [],
        )
        .unwrap();
    match get_messages(&mut store) {
        Err(StoreError::Row(e)) => {
            assert_eq!(e, RowError::IntegralValueOutOfRange(0, 4294967296))
        }
        other => panic!("{:?}", other),
    }
}

#[test]
fn listing_of_a_narrow_table_names_the_missing_column() {
    let mut store = open_with(
        "CREATE TABLE messages (id INTEGER PRIMARY KEY, workspace_id INTEGER NOT NULL, sender TEXT NOT NULL);
         INSERT INTO messages VALUES (1, 1, 's');",
    );
    match get_messages(&mut store) {
        Err(StoreError::Row(e)) => assert_eq!(e, RowError::InvalidColumnIndex(3)),
        other => panic!("{:?}", other),
    }
}

#[test]
fn stored_steps_that_are_no_json_array_of_strings_fail() {
    for stored in ["not json", "{\"steps\": []}", "[1, 2]", "[\"open\"", "", "[\"a\"] trailing"] {
        let mut store = open();
        store
            .connection()
            .execute("INSERT INTO plans (workspace_id, steps) VALUES (1, ?1)", [stored])
            .unwrap();
        assert!(matches!(get_plan(&mut store), Err(StoreError::Decode(_))), "{:?}", stored);
        assert_eq!(count(&store, "SELECT COUNT(*) FROM plans"), 1);
    }
}

#[test]
fn stored_steps_with_json_whitespace_are_read() {
    let mut store = open();
    store
        .connection()
        .execute(
            "INSERT INTO plans (workspace_id, steps) VALUES (1, ' [ \"a\" ,\n \"b\\u0041\" ] ')",
            [],
        )
        .unwrap();
    assert_eq!(get_plan(&mut store).unwrap().steps, vec!["a", "bA"]);
}

#[test]
fn stored_steps_that_are_no_text_fail() {
    let mut store = open();
    store
        .connection()
        .execute("INSERT INTO plans (workspace_id, steps) VALUES (1, x'5b5d')", [])
        .unwrap();
    match get_plan(&mut store) {
        Err(StoreError::Row(e)) => assert_eq!(e, RowError::InvalidColumnType(0, ColumnType::Blob)),
        other => panic!("{:?}", other),
    }
}

#[test]
fn reset_deletes_the_plan_though_the_messages_are_missing() {
    let mut store = open_with(
        "CREATE TABLE plans (workspace_id INTEGER PRIMARY KEY, steps TEXT NOT NULL);
         INSERT INTO plans VALUES (1, '[]');",
    );
    assert!(matches!(reset_database(&mut store), Err(StoreError::Storage(_))));
    assert_eq!(count(&store, "SELECT COUNT(*) FROM plans"), 0);
}

#[test]
fn reset_deletes_the_messages_though_the_plans_are_missing() {
    let mut store = open_with(
        "CREATE TABLE messages (id INTEGER PRIMARY KEY, workspace_id INTEGER NOT NULL, sender TEXT NOT NULL, text TEXT NOT NULL, created_at TEXT NOT NULL);
         INSERT INTO messages VALUES (1, 1, 's', 't', 'now');",
    );
    assert!(matches!(reset_database(&mut store), Err(StoreError::Storage(_))));
    assert_eq!(count(&store, "SELECT COUNT(*) FROM messages"), 0);
}

#[test]
fn failed_creation_of_the_chat_turns_leaves_the_plans_uncreated() {
    let mut store = open_with("CREATE TABLE other (x); CREATE INDEX messages ON other (x);");
    assert!(matches!(create_tables(&mut store), Err(StoreError::Storage(_))));
    assert_eq!(
        count(&store, "SELECT COUNT(*) FROM sqlite_master WHERE name = 'plans'"),
        0
    );
}
