use jotpad::migrations::{database_url, migrations, MigrationKind};
use rusqlite::Connection;

fn migrated() -> Connection {
    let connection = Connection::open_in_memory().unwrap();
    connection.execute_batch("PRAGMA foreign_keys = ON;").unwrap();
    for step in migrations() {
        connection.execute_batch(step.sql).unwrap();
    }
    connection
}

fn columns(connection: &Connection, table: &str) -> Vec<String> {
    let mut statement = connection
        .prepare(&format!("SELECT name FROM pragma_table_info('{}') ORDER BY cid", table))
        .unwrap();
    let names = statement.query_map((), |row| row.get::<_, String>(0)).unwrap();
    names.map(|name| name.unwrap()).collect()
}

#[test]
fn the_steps_are_the_versions_one_to_four_in_order() {
    let steps = migrations();
    assert_eq!(steps.len(), 4);
    let versions: Vec<i64> = steps.iter().map(|step| step.version).collect();
    assert_eq!(versions, vec![1, 2, 3, 4]);
    assert!(steps.iter().all(|step| step.kind == MigrationKind::Up));
}

#[test]
fn every_step_says_what_it_does() {
    let steps = migrations();
    assert_eq!(steps[0].description, "create notes and note_entries tables");
    assert_eq!(steps[1].description, "add tags column to notes table");
    assert_eq!(steps[2].description, "add pinned column to notes table");
    assert_eq!(steps[3].description, "add pinned column to note_entries table");
    assert_eq!(steps[1].sql, "ALTER TABLE notes ADD COLUMN tags TEXT;");
    assert_eq!(steps[2].sql, "ALTER TABLE notes ADD COLUMN pinned INTEGER DEFAULT 0;");
    assert_eq!(steps[3].sql, "ALTER TABLE note_entries ADD COLUMN pinned INTEGER DEFAULT 0;");
    assert!(steps[0].sql.starts_with("CREATE TABLE IF NOT EXISTS notes ("));
    assert!(steps[0].sql.contains("CREATE TABLE IF NOT EXISTS note_entries ("));
    assert!(steps[0].sql.contains("FOREIGN KEY (note_id) REFERENCES notes(id) ON DELETE CASCADE"));
}

#[test]
fn the_steps_are_for_the_notes_database() {
    assert_eq!(database_url(), "sqlite:notes.db");
}

#[test]
fn the_steps_build_the_schema() {
    let connection = migrated();
    assert_eq!(
        columns(&connection, "notes"),
        vec!["id", "title", "content", "created_at", "updated_at", "tags", "pinned"]
    );
    assert_eq!(
        columns(&connection, "note_entries"),
        vec!["id", "note_id", "text", "timestamp", "pinned"]
    );
}

#[test]
fn deleting_a_note_deletes_its_entries() {
    let connection = migrated();
    connection.execute("INSERT INTO notes (id, title) VALUES ('n1', 'first')", ()).unwrap();
    connection.execute("INSERT INTO notes (id, title) VALUES ('n2', 'second')", ()).unwrap();
    connection
        .execute("INSERT INTO note_entries (id, note_id, text) VALUES ('e1', 'n1', 'a')", ())
        .unwrap();
    connection
        .execute("INSERT INTO note_entries (id, note_id, text) VALUES ('e2', 'n1', 'b')", ())
        .unwrap();
    connection
        .execute("INSERT INTO note_entries (id, note_id, text) VALUES ('e3', 'n2', 'c')", ())
        .unwrap();
    connection.execute("DELETE FROM notes WHERE id = 'n1'", ()).unwrap();
    let left: Vec<String> = {
        let mut statement = connection.prepare("SELECT id FROM note_entries ORDER BY id").unwrap();
        let ids = statement.query_map((), |row| row.get::<_, String>(0)).unwrap();
        ids.map(|id| id.unwrap()).collect()
    };
    assert_eq!(left, vec!["e3"]);
}

#[test]
fn new_rows_are_not_pinned() {
    let connection = migrated();
    connection.execute("INSERT INTO notes (id, title) VALUES ('n1', 'first')", ()).unwrap();
    connection
        .execute("INSERT INTO note_entries (id, note_id, text) VALUES ('e1', 'n1', 'a')", ())
        .unwrap();
    let note: i64 =
        connection.query_row("SELECT pinned FROM notes WHERE id = 'n1'", (), |row| row.get(0)).unwrap();
    let entry: i64 = connection
        .query_row("SELECT pinned FROM note_entries WHERE id = 'e1'", (), |row| row.get(0))
        .unwrap();
    assert_eq!((note, entry), (0, 0));
}

#[test]
fn the_first_step_may_be_applied_again() {
    let connection = migrated();
    connection.execute_batch(migrations()[0].sql).unwrap();
    assert_eq!(columns(&connection, "notes").len(), 7);
}
