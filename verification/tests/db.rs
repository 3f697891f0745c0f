use vrchat_photo_manager::db::{
    add_column_if_missing, assign_photos, assign_photos_to_friends, database_path, default_album_folder,
    default_true, list_photos_sql, save_settings, settings, table_info_sql, AppSettings, SettingValues,
};
use vrchat_photo_manager::paths::{FsPath, PathComponent};

fn path(parts: &[&str]) -> FsPath {
    let mut components = vec![PathComponent::RootDir];
    for p in parts {
        components.push(PathComponent::Normal(p.to_string()));
    }
    FsPath { components }
}

fn values(album: Option<&str>, steam: Option<&str>, vrcx: Option<&str>, interval: Option<&str>, show: Option<&str>) -> SettingValues {
    SettingValues {
        album_folder: album.map(str::to_string),
        steam_screenshot_folder: steam.map(str::to_string),
        vrcx_database_path: vrcx.map(str::to_string),
        sync_interval_minutes: interval.map(str::to_string),
        show_self_in_friends: show.map(str::to_string),
    }
}

#[test]
fn default_show_self_is_true() {
    assert!(default_true());
}

#[test]
fn unset_settings_take_their_defaults() {
    let s = settings(&values(None, None, None, None, None), Some("/home/me/Pictures/VRChat".into()));
    assert_eq!(s, AppSettings {
        album_folder: Some("/home/me/Pictures/VRChat".into()),
        steam_screenshot_folder: None,
        vrcx_database_path: None,
        sync_interval_minutes: 15,
        show_self_in_friends: true,
    });
}

#[test]
fn blank_folders_and_bad_numbers_fall_back() {
    let s = settings(&values(Some("  "), Some("\t"), Some(""), Some("ten"), Some("no")), None);
    assert_eq!(s.album_folder, None);
    assert_eq!(s.steam_screenshot_folder, None);
    assert_eq!(s.vrcx_database_path, Some(String::new()));
    assert_eq!(s.sync_interval_minutes, 15);
    assert!(s.show_self_in_friends);
    let t = settings(&values(Some("D:\\Pics"), Some("E:\\Steam"), None, Some("-3"), Some("false")), None);
    assert_eq!(t.album_folder, Some("D:\\Pics".into()));
    assert_eq!(t.steam_screenshot_folder, Some("E:\\Steam".into()));
    assert_eq!(t.sync_interval_minutes, -3);
    assert!(!t.show_self_in_friends);
}

#[test]
fn saving_writes_set_folders_then_interval_and_flag() {
    let s = AppSettings {
        album_folder: Some("A".into()),
        steam_screenshot_folder: None,
        vrcx_database_path: Some("V".into()),
        sync_interval_minutes: 30,
        show_self_in_friends: false,
    };
    let writes = save_settings(&s);
    let expected: Vec<(String, String)> = vec![
        ("album_folder".into(), "A".into()),
        ("vrcx_database_path".into(), "V".into()),
        ("sync_interval_minutes".into(), "30".into()),
        ("show_self_in_friends".into(), "false".into()),
    ];
    assert_eq!(writes, expected);
}

#[test]
fn saved_settings_read_back() {
    let s = AppSettings {
        album_folder: Some("A".into()),
        steam_screenshot_folder: Some("S".into()),
        vrcx_database_path: Some("V".into()),
        sync_interval_minutes: -42,
        show_self_in_friends: false,
    };
    let mut store = std::collections::HashMap::new();
    for (k, v) in save_settings(&s) {
        store.insert(k, v);
    }
    let read = settings(
        &SettingValues {
            album_folder: store.get("album_folder").cloned(),
            steam_screenshot_folder: store.get("steam_screenshot_folder").cloned(),
            vrcx_database_path: store.get("vrcx_database_path").cloned(),
            sync_interval_minutes: store.get("sync_interval_minutes").cloned(),
            show_self_in_friends: store.get("show_self_in_friends").cloned(),
        },
        None,
    );
    assert_eq!(read, s);
}

fn sql_built_by_replacement(user: bool) -> String {
    let mut sql = String::from(
        "SELECT DISTINCT p.id,p.user_id,p.source,p.kind,p.local_path,p.remote_url,
         p.thumbnail_path,p.file_name,p.captured_at FROM photos p",
    );
    if user {
        sql.push_str(" JOIN photo_people pp ON pp.photo_id=p.id");
    }
    sql.push_str(
        " WHERE (?1 IS NULL OR pp.user_id=?1) AND (?2 IS NULL OR p.kind=?2)
                   ORDER BY p.captured_at DESC,p.imported_at DESC",
    );
    if !user {
        sql = sql.replace(" WHERE (?1 IS NULL OR pp.user_id=?1)", " WHERE ?1 IS NULL");
    }
    sql
}

#[test]
fn photo_query_joins_people_only_for_a_user() {
    assert_eq!(list_photos_sql(true), sql_built_by_replacement(true));
    assert_eq!(list_photos_sql(false), sql_built_by_replacement(false));
    assert!(!list_photos_sql(false).contains("JOIN"));
}

#[test]
fn missing_columns_are_added() {
    let columns = vec!["user_id".to_string(), "note".to_string()];
    assert_eq!(add_column_if_missing(&columns, "players", "note", "TEXT"), None);
    assert_eq!(
        add_column_if_missing(&columns, "players", "is_friend", "INTEGER NOT NULL DEFAULT 0"),
        Some("ALTER TABLE players ADD COLUMN is_friend INTEGER NOT NULL DEFAULT 0".to_string())
    );
    assert_eq!(table_info_sql("photos"), "PRAGMA table_info(photos)");
}

#[test]
fn assigning_links_every_photo_to_every_friend() {
    let pairs = assign_photos_to_friends(&vec![7], &vec!["usr_test".into(), "usr_other".into()]);
    assert_eq!(pairs, vec![(7, "usr_test".to_string()), (7, "usr_other".to_string())]);
    let pairs = assign_photos_to_friends(&vec![1, 2], &vec!["a".into(), "b".into()]);
    assert_eq!(
        pairs,
        vec![(1, "a".into()), (1, "b".into()), (2, "a".into()), (2, "b".into())]
    );
    assert_eq!(assign_photos(&vec![3, 4], "u"), vec![(3, "u".to_string()), (4, "u".to_string())]);
    assert!(assign_photos_to_friends(&vec![], &vec!["a".into()]).is_empty());
}

#[test]
fn database_and_album_locations() {
    assert_eq!(database_path(Some(path(&["data"]))), path(&["data", "vrchat-photo-manager", "photos.db"]));
    assert_eq!(default_album_folder(Some(path(&["pics"]))), Some(path(&["pics", "VRChat"])));
    assert_eq!(default_album_folder(None), None);
}

fn columns(conn: &rusqlite::Connection, table: &str) -> Vec<String> {
    let mut statement = conn.prepare(&table_info_sql(table)).unwrap();
    let names = statement.query_map([], |row| row.get::<_, String>(1)).unwrap();
    names.collect::<rusqlite::Result<Vec<_>>>().unwrap()
}

fn list(conn: &rusqlite::Connection, user_id: Option<&str>, kind: Option<&str>) -> Vec<i64> {
    let mut statement = conn.prepare(&list_photos_sql(user_id.is_some())).unwrap();
    let ids = statement.query_map((user_id, kind), |row| row.get::<_, i64>(0)).unwrap();
    ids.collect::<rusqlite::Result<Vec<_>>>().unwrap()
}

#[test]
fn migrates_and_filters_photos() {
    let conn = rusqlite::Connection::open_in_memory().unwrap();
    conn.execute_batch(
        "CREATE TABLE players (user_id TEXT PRIMARY KEY, display_name TEXT NOT NULL);
         CREATE TABLE photos (
             id INTEGER PRIMARY KEY, user_id TEXT, source TEXT NOT NULL,
             local_path TEXT UNIQUE, vrchat_file_id TEXT,
             remote_url TEXT, thumbnail_path TEXT, file_name TEXT NOT NULL,
             captured_at TEXT, imported_at TEXT NOT NULL);
         CREATE TABLE photo_people (
             photo_id INTEGER NOT NULL, user_id TEXT NOT NULL,
             source TEXT NOT NULL DEFAULT 'manual', confirmed INTEGER NOT NULL DEFAULT 1,
             PRIMARY KEY(photo_id, user_id));",
    )
    .unwrap();
    for (table, column, definition) in [
        ("players", "is_friend", "INTEGER NOT NULL DEFAULT 0"),
        ("photos", "kind", "TEXT NOT NULL DEFAULT 'album'"),
    ] {
        let alter = add_column_if_missing(&columns(&conn, table), table, column, definition).unwrap();
        conn.execute(&alter, []).unwrap();
        assert_eq!(add_column_if_missing(&columns(&conn, table), table, column, definition), None);
    }
    conn.execute(
        "INSERT INTO photos(source,kind,local_path,file_name,imported_at)
         VALUES('local','screenshot','x.png','x.png',datetime('now'))",
        [],
    )
    .unwrap();
    assert_eq!(list(&conn, None, Some("screenshot")).len(), 1);
    assert!(list(&conn, None, Some("album")).is_empty());
    conn.execute("INSERT INTO players(user_id,display_name) VALUES('usr_test','Test')", []).unwrap();
    conn.execute("INSERT INTO players(user_id,display_name) VALUES('usr_other','Other')", []).unwrap();
    let photo_id: i64 = conn.query_row("SELECT id FROM photos LIMIT 1", [], |row| row.get(0)).unwrap();
    let mut changed = 0;
    for (photo, user) in assign_photos_to_friends(&vec![photo_id], &vec!["usr_test".into(), "usr_other".into()]) {
        changed += conn
            .execute(
                "INSERT OR IGNORE INTO photo_people(photo_id,user_id,source,confirmed) VALUES(?1,?2,'manual',1)",
                (photo, user),
            )
            .unwrap();
    }
    assert_eq!(changed, 2);
    assert_eq!(list(&conn, Some("usr_test"), None), vec![photo_id]);
    assert!(list(&conn, Some("usr_nobody"), None).is_empty());
}
