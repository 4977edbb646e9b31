use playlist_shell::migrations::{
    column_sql, create_table_sql, migrations, playlists_table, Column, ColumnType, MigrationKind,
    TableSchema,
};

const PLAYLISTS_SQL: &str = "CREATE TABLE IF NOT EXISTS playlists (id INTEGER PRIMARY KEY AUTOINCREMENT, name TEXT NOT NULL, artist TEXT, image TEXT, file_location TEXT NOT NULL, playlist TEXT NOT NULL, created_at DATETIME DEFAULT CURRENT_TIMESTAMP);";

#[test]
fn single_migration_creates_playlists() {
    let ms = migrations();
    assert_eq!(ms.len(), 1);
    let m = &ms[0];
    assert_eq!(m.version, 1);
    assert_eq!(m.description, "create_playlists_table");
    assert_eq!(m.kind, MigrationKind::Up);
    assert_eq!(m.sql, PLAYLISTS_SQL);
}

#[test]
fn playlists_table_shape() {
    let t = playlists_table();
    assert_eq!(t.name, "playlists");
    assert_eq!(t.columns.len(), 7);
    let names: Vec<&str> = t.columns.iter().map(|c| c.name.as_str()).collect();
    assert_eq!(
        names,
        vec!["id", "name", "artist", "image", "file_location", "playlist", "created_at"]
    );
    assert!(t.columns[0].auto_primary_key);
    assert_eq!(t.columns[0].ctype, ColumnType::Integer);
    for c in t.columns.iter().skip(1) {
        assert!(!c.auto_primary_key);
    }
    assert!(t.columns[1].required);
    assert!(!t.columns[2].required);
    assert!(!t.columns[3].required);
    assert!(t.columns[4].required);
    assert!(t.columns[5].required);
    assert!(!t.columns[6].required);
    assert_eq!(t.columns[6].ctype, ColumnType::DateTime);
    assert!(t.columns[6].default_now);
}

#[test]
fn column_sql_renders_each_constraint() {
    let id = Column {
        name: "id".to_string(),
        ctype: ColumnType::Integer,
        auto_primary_key: true,
        required: false,
        default_now: false,
    };
    assert_eq!(column_sql(&id), "id INTEGER PRIMARY KEY AUTOINCREMENT");
    let name = Column {
        name: "name".to_string(),
        ctype: ColumnType::Text,
        auto_primary_key: false,
        required: true,
        default_now: false,
    };
    assert_eq!(column_sql(&name), "name TEXT NOT NULL");
    let image = Column {
        name: "image".to_string(),
        ctype: ColumnType::Text,
        auto_primary_key: false,
        required: false,
        default_now: false,
    };
    assert_eq!(column_sql(&image), "image TEXT");
    let stamp = Column {
        name: "created_at".to_string(),
        ctype: ColumnType::DateTime,
        auto_primary_key: false,
        required: false,
        default_now: true,
    };
    assert_eq!(column_sql(&stamp), "created_at DATETIME DEFAULT CURRENT_TIMESTAMP");
}

#[test]
fn create_table_sql_for_small_table() {
    let t = TableSchema {
        name: "tracks".to_string(),
        columns: vec![
            Column {
                name: "id".to_string(),
                ctype: ColumnType::Integer,
                auto_primary_key: true,
                required: false,
                default_now: false,
            },
            Column {
                name: "title".to_string(),
                ctype: ColumnType::Text,
                auto_primary_key: false,
                required: true,
                default_now: false,
            },
        ],
    };
    assert_eq!(
        create_table_sql(&t),
        "CREATE TABLE IF NOT EXISTS tracks (id INTEGER PRIMARY KEY AUTOINCREMENT, title TEXT NOT NULL);"
    );
}

#[test]
fn create_table_sql_for_empty_table() {
    let t = TableSchema { name: "t".to_string(), columns: vec![] };
    assert_eq!(create_table_sql(&t), "CREATE TABLE IF NOT EXISTS t ();");
}
