//! Locating the VRCX database and the names its friend-log tables follow.

use vstd::prelude::*;
use crate::paths::{opt_path, FsPath, Part};
use crate::text::{opt_text, trim_end_matches, trim_end_matches_spec};

verus! {

/// What the settings page shows about the VRCX database.
#[derive(Debug, PartialEq, Eq)]
pub struct VrcxStatus {
    pub detected: bool,
    pub path: Option<String>,
    pub message: String,
}

/// The status for the database that was found (its path as text), or for none.
pub fn status(found: Option<String>) -> (r: VrcxStatus)
    ensures
        r.detected == found is Some,
        opt_text(r.path) == opt_text(found),
        found is Some ==> r.message@ == "已找到 VRCX 数据库"@,
        found is None ==> r.message@ == "找不到 VRCX.sqlite3；请手动配置路径"@,
{
    match found {
        Some(path) => VrcxStatus { detected: true, path: Some(path), message: "已找到 VRCX 数据库".to_owned() },
        None => VrcxStatus {
            detected: false,
            path: None,
            message: "找不到 VRCX.sqlite3；请手动配置路径".to_owned(),
        },
    }
}

/// The text of the string member `key` of the JSON object that a text holds, as
/// `serde_json` reads it: `None` where the text is not JSON, is not an object, has no such
/// member, or the member is not a string.
pub uninterp spec fn json_str_member_spec(text: Seq<char>, key: Seq<char>) -> Option<Seq<char>>;

/// Parses a text with `serde_json::from_str::<serde_json::Value>`, looks the key up with
/// `serde_json::Value::get` and takes the member's text with `serde_json::Value::as_str`.
/// Trusted, not proved: the result is `json_str_member_spec` of the text and the key, so it
/// depends on them alone. What the lookup gives on a given document (`None` where the
/// text is not JSON, not an object, or has no string member `key`) is not stated beyond
/// that name.
#[verifier::external_body]
fn json_str_member(text: &str, key: &str) -> (r: Option<String>)
    ensures
        opt_text(r) == json_str_member_spec(text@, key@),
{
    let value: serde_json::Value = serde_json::from_str(text).ok()?;
    Some(value.get(key)?.as_str()?.to_owned())
}

/// The database location that VRCX's `VRCX.json` names: the text of its
/// `VRCX_DatabaseLocation` member, when the file is JSON and the member a string.
pub fn config_database_location(config_text: &str) -> (r: Option<String>)
    ensures
        opt_text(r) == json_str_member_spec(config_text@, "VRCX_DatabaseLocation"@),
{
    json_str_member(config_text, "VRCX_DatabaseLocation")
}

/// VRCX's folder in the platform configuration folder.
pub open spec fn vrcx_dir_spec(config_dir: Seq<Part>) -> Seq<Part> {
    config_dir.push(Part::Normal("VRCX"@))
}

/// `config_dir/VRCX/VRCX.json`.
pub fn vrcx_config_file(config_dir: &FsPath) -> (r: FsPath)
    ensures
        r@ == vrcx_dir_spec(config_dir@).push(Part::Normal("VRCX.json"@)),
{
    proof {
        reveal_strlit("VRCX");
        reveal_strlit("VRCX.json");
        assert("VRCX"@ =~= seq!['V', 'R', 'C', 'X']);
        assert("VRCX.json"@ =~= seq!['V', 'R', 'C', 'X', '.', 'j', 's', 'o', 'n']);
    }
    config_dir.join("VRCX").join("VRCX.json")
}

/// `config_dir/VRCX/VRCX.sqlite3`.
pub fn vrcx_default_database(config_dir: &FsPath) -> (r: FsPath)
    ensures
        r@ == vrcx_dir_spec(config_dir@).push(Part::Normal("VRCX.sqlite3"@)),
{
    proof {
        reveal_strlit("VRCX");
        reveal_strlit("VRCX.sqlite3");
        assert("VRCX"@ =~= seq!['V', 'R', 'C', 'X']);
        assert("VRCX.sqlite3"@ =~= seq!['V', 'R', 'C', 'X', '.', 's', 'q', 'l', 'i', 't', 'e', '3']);
    }
    config_dir.join("VRCX").join("VRCX.sqlite3")
}

/// Where the VRCX database was found.
#[derive(Debug, PartialEq, Eq)]
pub enum VrcxDatabase {
    /// The path set in the settings, which exists.
    Configured(String),
    /// The non-empty location named in `VRCX.json`.
    FromConfig(String),
    /// `VRCX.sqlite3` in VRCX's folder, which exists.
    Default(FsPath),
}

/// The VRCX database to read: the configured path when it exists; else, when there is a
/// configuration folder, the non-empty location named in `VRCX.json`, or else the default
/// database when it exists; otherwise none.
pub fn vrcx_database(
    configured: Option<String>,
    configured_exists: bool,
    config_dir: Option<FsPath>,
    config_location: Option<String>,
    default_exists: bool,
) -> (r: Option<VrcxDatabase>)
    ensures
        configured is Some && configured_exists ==> (r matches Some(VrcxDatabase::Configured(p)) && p@
            == configured->0@),
        !(configured is Some && configured_exists) && config_dir is None ==> r is None,
        !(configured is Some && configured_exists) && config_dir is Some && config_location is Some
            && config_location->0@.len() > 0 ==> (r matches Some(VrcxDatabase::FromConfig(p)) && p@
            == config_location->0@),
        !(configured is Some && configured_exists) && config_dir is Some && !(config_location is Some
            && config_location->0@.len() > 0) ==> (if default_exists {
            r matches Some(VrcxDatabase::Default(p)) && p@ == vrcx_dir_spec(config_dir->0@).push(
                Part::Normal("VRCX.sqlite3"@),
            )
        } else {
            r is None
        }),
{
    if let Some(p) = configured {
        if configured_exists {
            return Some(VrcxDatabase::Configured(p));
        }
    }
    let dir = config_dir?;
    if let Some(location) = config_location {
        if !location.as_str().is_empty() {
            return Some(VrcxDatabase::FromConfig(location));
        }
    }
    if default_exists {
        Some(VrcxDatabase::Default(vrcx_default_database(&dir)))
    } else {
        None
    }
}

/// The table prefix of VRCX's friend-log tables: the current-friends table name without
/// its trailing `_friend_log_current` parts.
pub fn friend_log_prefix(table: &str) -> (r: String)
    ensures
        r@ == trim_end_matches_spec(table@, "_friend_log_current"@),
{
    proof {
        reveal_strlit("_friend_log_current");
    }
    trim_end_matches(table, "_friend_log_current")
}

/// The name-history table that goes with a prefix.
pub fn history_table(prefix: &str) -> (r: String)
    ensures
        r@ == prefix@ + "_friend_log_history"@,
{
    let mut t = prefix.to_owned();
    t.append("_friend_log_history");
    t
}

/// The query that reads the current friends of a table.
pub fn players_query(table: &str) -> (r: String)
    ensures
        r@ == "SELECT user_id,display_name,trust_level FROM "@ + table@,
{
    let mut q = "SELECT user_id,display_name,trust_level FROM ".to_owned();
    q.append(table);
    q
}

/// The query that reads the display-name history of a table.
pub fn history_query(history: &str) -> (r: String)
    ensures
        r@ == "SELECT user_id,display_name,previous_display_name,created_at FROM "@ + history@
            + " WHERE display_name IS NOT NULL"@,
{
    let mut q = "SELECT user_id,display_name,previous_display_name,created_at FROM ".to_owned();
    q.append(history);
    q.append(" WHERE display_name IS NOT NULL");
    q
}

} // verus!
