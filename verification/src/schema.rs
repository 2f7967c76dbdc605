//! The schema changes that bring the `upload_record` table in: the table
//! and its unique index on the local path, and the later rebuild of the
//! table without foreign keys.

use vstd::prelude::*;
use crate::text::owned;

verus! {

/// The name of the table.
pub open spec fn table_name() -> Seq<char> {
    "upload_record"@
}

/// The type of a column.
pub enum ColumnType {
    Integer,
    Text,
    Timestamp,
}

/// The default value of a column.
pub enum ColumnDefault {
    Integer(i32),
    CurrentTimestamp,
}

/// One column of a table.
pub struct ColumnSpec {
    pub name: String,
    pub kind: ColumnType,
    pub not_null: bool,
    pub auto_increment: bool,
    pub primary_key: bool,
    pub default: Option<ColumnDefault>,
}

/// A table to create.
pub struct TableSpec {
    pub name: String,
    pub if_not_exists: bool,
    pub columns: Vec<ColumnSpec>,
}

/// An index to create.
pub struct IndexSpec {
    pub name: String,
    pub table: String,
    pub columns: Vec<String>,
    pub unique: bool,
}

/// Whether `c` is a column named `name` with these properties.
pub open spec fn is_column(
    c: ColumnSpec,
    name: Seq<char>,
    kind: ColumnType,
    not_null: bool,
    auto_increment: bool,
    primary_key: bool,
    default: Option<ColumnDefault>,
) -> bool {
    &&& c.name@ == name
    &&& c.kind == kind
    &&& c.not_null == not_null
    &&& c.auto_increment == auto_increment
    &&& c.primary_key == primary_key
    &&& c.default == default
}

fn column(
    name: &str,
    kind: ColumnType,
    not_null: bool,
    auto_increment: bool,
    primary_key: bool,
    default: Option<ColumnDefault>,
) -> (c: ColumnSpec)
    ensures
        is_column(c, name@, kind, not_null, auto_increment, primary_key, default),
{
    ColumnSpec { name: owned(name), kind, not_null, auto_increment, primary_key, default }
}

/// The `upload_record` table, created unless it exists: an auto-increment
/// integer key `id`; nullable integers `video_id`, `page_id`,
/// `youtube_video_id`; required texts `local_path`, `remote_path`; required
/// integers `status` and `attempts`, both 0 by default; a nullable text
/// `last_error`; a nullable timestamp `uploaded_at`; required timestamps
/// `created_at` and `updated_at`, both the current time by default.
pub fn upload_record_table() -> (t: TableSpec)
    ensures
        t.name@ == table_name(),
        t.if_not_exists,
        t.columns@.len() == 12,
        is_column(t.columns@[0], "id"@, ColumnType::Integer, true, true, true, None),
        is_column(t.columns@[1], "video_id"@, ColumnType::Integer, false, false, false, None),
        is_column(t.columns@[2], "page_id"@, ColumnType::Integer, false, false, false, None),
        is_column(
            t.columns@[3],
            "youtube_video_id"@,
            ColumnType::Integer,
            false,
            false,
            false,
            None,
        ),
        is_column(t.columns@[4], "local_path"@, ColumnType::Text, true, false, false, None),
        is_column(t.columns@[5], "remote_path"@, ColumnType::Text, true, false, false, None),
        is_column(
            t.columns@[6],
            "status"@,
            ColumnType::Integer,
            true,
            false,
            false,
            Some(ColumnDefault::Integer(0)),
        ),
        is_column(
            t.columns@[7],
            "attempts"@,
            ColumnType::Integer,
            true,
            false,
            false,
            Some(ColumnDefault::Integer(0)),
        ),
        is_column(t.columns@[8], "last_error"@, ColumnType::Text, false, false, false, None),
        is_column(
            t.columns@[9],
            "uploaded_at"@,
            ColumnType::Timestamp,
            false,
            false,
            false,
            None,
        ),
        is_column(
            t.columns@[10],
            "created_at"@,
            ColumnType::Timestamp,
            true,
            false,
            false,
            Some(ColumnDefault::CurrentTimestamp),
        ),
        is_column(
            t.columns@[11],
            "updated_at"@,
            ColumnType::Timestamp,
            true,
            false,
            false,
            Some(ColumnDefault::CurrentTimestamp),
        ),
{
    let mut columns: Vec<ColumnSpec> = Vec::new();
    columns.push(column("id", ColumnType::Integer, true, true, true, None));
    columns.push(column("video_id", ColumnType::Integer, false, false, false, None));
    columns.push(column("page_id", ColumnType::Integer, false, false, false, None));
    columns.push(column("youtube_video_id", ColumnType::Integer, false, false, false, None));
    columns.push(column("local_path", ColumnType::Text, true, false, false, None));
    columns.push(column("remote_path", ColumnType::Text, true, false, false, None));
    columns.push(
        column("status", ColumnType::Integer, true, false, false, Some(ColumnDefault::Integer(0))),
    );
    columns.push(
        column(
            "attempts",
            ColumnType::Integer,
            true,
            false,
            false,
            Some(ColumnDefault::Integer(0)),
        ),
    );
    columns.push(column("last_error", ColumnType::Text, false, false, false, None));
    columns.push(column("uploaded_at", ColumnType::Timestamp, false, false, false, None));
    columns.push(
        column(
            "created_at",
            ColumnType::Timestamp,
            true,
            false,
            false,
            Some(ColumnDefault::CurrentTimestamp),
        ),
    );
    columns.push(
        column(
            "updated_at",
            ColumnType::Timestamp,
            true,
            false,
            false,
            Some(ColumnDefault::CurrentTimestamp),
        ),
    );
    TableSpec { name: owned("upload_record"), if_not_exists: true, columns }
}

/// The unique index on the local path of `upload_record`.
pub fn upload_record_local_path_index() -> (i: IndexSpec)
    ensures
        i.name@ == "idx_upload_record_local_path"@,
        i.table@ == table_name(),
        i.columns@.len() == 1,
        i.columns@[0]@ == "local_path"@,
        i.unique,
{
    let mut columns: Vec<String> = Vec::new();
    columns.push(owned("local_path"));
    IndexSpec {
        name: owned("idx_upload_record_local_path"),
        table: owned("upload_record"),
        columns,
        unique: true,
    }
}

/// The statements that rebuild `upload_record` without foreign keys, in
/// order: turn foreign-key checks off, rename the table aside, create it
/// anew, copy the rows over, drop the old table, recreate the unique index
/// on the local path, and turn the checks back on.
pub fn remove_upload_record_fks_statements() -> (r: Vec<String>)
    ensures
        r@.len() == 7,
        r@[0]@ == "PRAGMA foreign_keys = OFF"@,
        r@[1]@ == "ALTER TABLE upload_record RENAME TO upload_record_old"@,
        r@[2]@ == "CREATE TABLE upload_record (
                id INTEGER NOT NULL PRIMARY KEY AUTOINCREMENT,
                video_id INTEGER,
                page_id INTEGER,
                youtube_video_id INTEGER,
                local_path VARCHAR NOT NULL,
                remote_path VARCHAR NOT NULL,
                status INTEGER NOT NULL DEFAULT 0,
                attempts INTEGER NOT NULL DEFAULT 0,
                last_error VARCHAR,
                uploaded_at TIMESTAMP,
                created_at TIMESTAMP DEFAULT CURRENT_TIMESTAMP NOT NULL,
                updated_at TIMESTAMP DEFAULT CURRENT_TIMESTAMP NOT NULL
            )"@,
        r@[3]@ == "INSERT INTO upload_record SELECT * FROM upload_record_old"@,
        r@[4]@ == "DROP TABLE upload_record_old"@,
        r@[5]@ == "CREATE UNIQUE INDEX idx_upload_record_local_path ON upload_record (local_path)"@,
        r@[6]@ == "PRAGMA foreign_keys = ON"@,
{
    let mut r: Vec<String> = Vec::new();
    r.push(owned("PRAGMA foreign_keys = OFF"));
    r.push(owned("ALTER TABLE upload_record RENAME TO upload_record_old"));
    r.push(
        owned(
            "CREATE TABLE upload_record (
                id INTEGER NOT NULL PRIMARY KEY AUTOINCREMENT,
                video_id INTEGER,
                page_id INTEGER,
                youtube_video_id INTEGER,
                local_path VARCHAR NOT NULL,
                remote_path VARCHAR NOT NULL,
                status INTEGER NOT NULL DEFAULT 0,
                attempts INTEGER NOT NULL DEFAULT 0,
                last_error VARCHAR,
                uploaded_at TIMESTAMP,
                created_at TIMESTAMP DEFAULT CURRENT_TIMESTAMP NOT NULL,
                updated_at TIMESTAMP DEFAULT CURRENT_TIMESTAMP NOT NULL
            )",
        ),
    );
    r.push(owned("INSERT INTO upload_record SELECT * FROM upload_record_old"));
    r.push(owned("DROP TABLE upload_record_old"));
    r.push(owned("CREATE UNIQUE INDEX idx_upload_record_local_path ON upload_record (local_path)"));
    r.push(owned("PRAGMA foreign_keys = ON"));
    r
}

/// The table that undoing either change drops.
pub fn dropped_table() -> (r: String)
    ensures
        r@ == table_name(),
{
    owned("upload_record")
}

} // verus!
