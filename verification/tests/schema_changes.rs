use bili_sync::schema::{
    dropped_table, remove_upload_record_fks_statements, upload_record_local_path_index,
    upload_record_table, ColumnDefault, ColumnType,
};

#[test]
fn table_has_the_twelve_columns() {
    let t = upload_record_table();
    assert_eq!(t.name, "upload_record");
    assert!(t.if_not_exists);
    let names: Vec<&str> = t.columns.iter().map(|c| c.name.as_str()).collect();
    assert_eq!(
        names,
        vec![
            "id", "video_id", "page_id", "youtube_video_id", "local_path", "remote_path", "status",
            "attempts", "last_error", "uploaded_at", "created_at", "updated_at"
        ]
    );
    let id = &t.columns[0];
    assert!(id.not_null && id.auto_increment && id.primary_key);
    assert!(matches!(t.columns[6].default, Some(ColumnDefault::Integer(0))));
    assert!(matches!(t.columns[10].default, Some(ColumnDefault::CurrentTimestamp)));
    assert!(matches!(t.columns[9].kind, ColumnType::Timestamp));
    assert!(!t.columns[8].not_null);
    assert!(t.columns[4].not_null);
}

#[test]
fn local_path_index_is_unique() {
    let i = upload_record_local_path_index();
    assert_eq!(i.name, "idx_upload_record_local_path");
    assert_eq!(i.table, "upload_record");
    assert_eq!(i.columns, vec!["local_path".to_string()]);
    assert!(i.unique);
}

#[test]
fn rebuild_statements_in_order() {
    let s = remove_upload_record_fks_statements();
    assert_eq!(s.len(), 7);
    assert_eq!(s[0], "PRAGMA foreign_keys = OFF");
    assert_eq!(s[1], "ALTER TABLE upload_record RENAME TO upload_record_old");
    assert!(s[2].starts_with("CREATE TABLE upload_record ("));
    assert!(s[2].contains("local_path VARCHAR NOT NULL"));
    assert_eq!(s[3], "INSERT INTO upload_record SELECT * FROM upload_record_old");
    assert_eq!(s[4], "DROP TABLE upload_record_old");
    assert_eq!(s[5], "CREATE UNIQUE INDEX idx_upload_record_local_path ON upload_record (local_path)");
    assert_eq!(s[6], "PRAGMA foreign_keys = ON");
    assert_eq!(dropped_table(), "upload_record");
}
