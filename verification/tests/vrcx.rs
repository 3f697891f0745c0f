use vrchat_photo_manager::paths::{FsPath, PathComponent};
use vrchat_photo_manager::vrcx::{
    config_database_location, friend_log_prefix, history_query, history_table, players_query, status,
    vrcx_config_file, vrcx_database, VrcxDatabase,
};

fn path(parts: &[&str]) -> FsPath {
    let mut components = vec![PathComponent::RootDir];
    for p in parts {
        components.push(PathComponent::Normal(p.to_string()));
    }
    FsPath { components }
}

#[test]
fn status_messages() {
    let found = status(Some("C:\\VRCX.sqlite3".into()));
    assert!(found.detected);
    assert_eq!(found.message, "已找到 VRCX 数据库");
    let missing = status(None);
    assert!(!missing.detected);
    assert_eq!(missing.path, None);
    assert_eq!(missing.message, "找不到 VRCX.sqlite3；请手动配置路径");
}

#[test]
fn reads_the_location_from_the_vrcx_config() {
    assert_eq!(
        config_database_location(r#"{"VRCX_DatabaseLocation": "D:\\db.sqlite3", "x": 1}"#),
        Some("D:\\db.sqlite3".to_string())
    );
    assert_eq!(config_database_location(r#"{"VRCX_DatabaseLocation": 3}"#), None);
    assert_eq!(config_database_location("not json"), None);
    assert_eq!(config_database_location("[]"), None);
}

#[test]
fn only_the_database_location_member_counts() {
    assert_eq!(config_database_location(r#"{"VRCX_DatabasePath": "D:\other.sqlite3"}"#), None);
    assert_eq!(config_database_location(r#"{}"#), None);
    assert_eq!(config_database_location(r#"{"VRCX_DatabaseLocation": ""}"#), Some(String::new()));
    assert_eq!(config_database_location(r#""VRCX_DatabaseLocation""#), None);
}

#[test]
fn chooses_the_database_in_order() {
    assert_eq!(
        vrcx_database(Some("mine".into()), true, Some(path(&["cfg"])), Some("loc".into()), true),
        Some(VrcxDatabase::Configured("mine".into()))
    );
    assert_eq!(
        vrcx_database(Some("mine".into()), false, Some(path(&["cfg"])), Some("loc".into()), true),
        Some(VrcxDatabase::FromConfig("loc".into()))
    );
    assert_eq!(
        vrcx_database(None, false, Some(path(&["cfg"])), Some(String::new()), true),
        Some(VrcxDatabase::Default(path(&["cfg", "VRCX", "VRCX.sqlite3"])))
    );
    assert_eq!(vrcx_database(None, false, Some(path(&["cfg"])), None, false), None);
    assert_eq!(vrcx_database(None, false, None, Some("loc".into()), true), None);
    assert_eq!(vrcx_config_file(&path(&["cfg"])), path(&["cfg", "VRCX", "VRCX.json"]));
}

#[test]
fn friend_log_table_names() {
    assert_eq!(friend_log_prefix("usr1234_friend_log_current"), "usr1234");
    assert_eq!(history_table("usr1234"), "usr1234_friend_log_history");
    assert_eq!(players_query("t"), "SELECT user_id,display_name,trust_level FROM t");
    assert_eq!(
        history_query("h"),
        "SELECT user_id,display_name,previous_display_name,created_at FROM h WHERE display_name IS NOT NULL"
    );
}
