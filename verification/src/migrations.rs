//! The schema of the notes database, as the scripts that bring a
//! database to it step by step. Running them is the migration runner's
//! part.

use vstd::prelude::*;

verus! {

/// Whether a script takes a step forward or takes one back.
#[derive(Clone, Copy, Debug, PartialEq, Eq, Structural)]
pub enum MigrationKind {
    Up,
    Down,
}

/// One step of the schema: a script that is applied once to a database.
#[derive(Clone, Copy, Debug, PartialEq, Eq)]
pub struct Migration {
    pub version: i64,
    pub description: &'static str,
    pub sql: &'static str,
    pub kind: MigrationKind,
}

/// The database that the steps are for.
pub fn database_url() -> (url: &'static str)
    ensures
        url@ == "sqlite:notes.db"@,
{
    "sqlite:notes.db"
}

/// What the step with the given version does, in words.
pub open spec fn description_of(version: int) -> Seq<char> {
    if version == 1 {
        "create notes and note_entries tables"@
    } else if version == 2 {
        "add tags column to notes table"@
    } else if version == 3 {
        "add pinned column to notes table"@
    } else {
        "add pinned column to note_entries table"@
    }
}

/// The script of the step with the given version.
pub open spec fn sql_of(version: int) -> Seq<char> {
    if version == 1 {
        "CREATE TABLE IF NOT EXISTS notes (
                id TEXT PRIMARY KEY,
                title TEXT NOT NULL,
                content TEXT,
                created_at DATETIME NOT NULL DEFAULT CURRENT_TIMESTAMP,
                updated_at DATETIME NOT NULL DEFAULT CURRENT_TIMESTAMP
            );

            CREATE TABLE IF NOT EXISTS note_entries (
                id TEXT PRIMARY KEY,
                note_id TEXT NOT NULL,
                text TEXT NOT NULL,
                timestamp DATETIME NOT NULL DEFAULT CURRENT_TIMESTAMP,
                FOREIGN KEY (note_id) REFERENCES notes(id) ON DELETE CASCADE
            );"@
    } else if version == 2 {
        "ALTER TABLE notes ADD COLUMN tags TEXT;"@
    } else if version == 3 {
        "ALTER TABLE notes ADD COLUMN pinned INTEGER DEFAULT 0;"@
    } else {
        "ALTER TABLE note_entries ADD COLUMN pinned INTEGER DEFAULT 0;"@
    }
}

/// The steps of the schema: four of them, each a step forward, with the
/// versions 1 to 4 in this order.
pub fn migrations() -> (steps: Vec<Migration>)
    ensures
        steps@.len() == 4,
        forall|i: int|
            0 <= i < 4 ==> {
                &&& (#[trigger] steps@[i]).version == i + 1
                &&& steps@[i].kind == MigrationKind::Up
                &&& steps@[i].description@ == description_of(i + 1)
                &&& steps@[i].sql@ == sql_of(i + 1)
            },
{
    let mut steps: Vec<Migration> = Vec::new();
    steps.push(
        Migration {
            version: 1,
            description: "create notes and note_entries tables",
            sql: "CREATE TABLE IF NOT EXISTS notes (
                id TEXT PRIMARY KEY,
                title TEXT NOT NULL,
                content TEXT,
                created_at DATETIME NOT NULL DEFAULT CURRENT_TIMESTAMP,
                updated_at DATETIME NOT NULL DEFAULT CURRENT_TIMESTAMP
            );

            CREATE TABLE IF NOT EXISTS note_entries (
                id TEXT PRIMARY KEY,
                note_id TEXT NOT NULL,
                text TEXT NOT NULL,
                timestamp DATETIME NOT NULL DEFAULT CURRENT_TIMESTAMP,
                FOREIGN KEY (note_id) REFERENCES notes(id) ON DELETE CASCADE
            );",
            kind: MigrationKind::Up,
        },
    );
    steps.push(
        Migration {
            version: 2,
            description: "add tags column to notes table",
            sql: "ALTER TABLE notes ADD COLUMN tags TEXT;",
            kind: MigrationKind::Up,
        },
    );
    steps.push(
        Migration {
            version: 3,
            description: "add pinned column to notes table",
            sql: "ALTER TABLE notes ADD COLUMN pinned INTEGER DEFAULT 0;",
            kind: MigrationKind::Up,
        },
    );
    steps.push(
        Migration {
            version: 4,
            description: "add pinned column to note_entries table",
            sql: "ALTER TABLE note_entries ADD COLUMN pinned INTEGER DEFAULT 0;",
            kind: MigrationKind::Up,
        },
    );
    steps
}

} // verus!
