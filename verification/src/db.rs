//! The records of the photo database, and the rules for reading and saving settings,
//! building the photo query, adding missing columns and assigning photos to friends.

use vstd::prelude::*;
use crate::paths::{app_dir, app_dir_spec, opt_path, FsPath, Part};
use crate::text::{
    format_i64, is_blank, lemma_parse_format_i64, opt_text, parse_i64, parse_i64_spec,
    signed_decimal, str_eq, str_is_blank,
};

verus! {

/// A VRChat player known to the application.
#[derive(Debug, PartialEq, Eq)]
pub struct Player {
    pub user_id: String,
    pub display_name: String,
    pub profile_pic_url: Option<String>,
    pub avatar_thumbnail_url: Option<String>,
    pub trust_level: Option<String>,
    pub note: Option<String>,
    pub vrcx_memo: Option<String>,
    pub source: String,
    pub previous_names: Vec<String>,
    pub photo_count: i64,
    pub last_synced_at: Option<String>,
    pub is_friend: bool,
}

/// A photo known to the application, with the players linked to it.
#[derive(Debug, PartialEq, Eq)]
pub struct Photo {
    pub id: i64,
    pub user_id: Option<String>,
    pub source: String,
    pub kind: String,
    pub local_path: Option<String>,
    pub remote_url: Option<String>,
    pub thumbnail_path: Option<String>,
    pub file_name: String,
    pub captured_at: Option<String>,
    pub people: Vec<String>,
}

/// The user's settings.
#[derive(Debug, PartialEq, Eq)]
pub struct AppSettings {
    pub album_folder: Option<String>,
    pub steam_screenshot_folder: Option<String>,
    pub vrcx_database_path: Option<String>,
    pub sync_interval_minutes: i64,
    pub show_self_in_friends: bool,
}

/// The mathematical form of the settings.
pub struct SettingsView {
    pub album_folder: Option<Seq<char>>,
    pub steam_screenshot_folder: Option<Seq<char>>,
    pub vrcx_database_path: Option<Seq<char>>,
    pub sync_interval_minutes: i64,
    pub show_self_in_friends: bool,
}

impl View for AppSettings {
    type V = SettingsView;

    open spec fn view(&self) -> SettingsView {
        SettingsView {
            album_folder: opt_text(self.album_folder),
            steam_screenshot_folder: opt_text(self.steam_screenshot_folder),
            vrcx_database_path: opt_text(self.vrcx_database_path),
            sync_interval_minutes: self.sync_interval_minutes,
            show_self_in_friends: self.show_self_in_friends,
        }
    }
}

/// The default of `show_self_in_friends` for settings that do not name it.
pub fn default_true() -> (r: bool)
    ensures
        r,
{
    true
}

/// The stored text of each setting, as read from the settings table.
#[derive(Debug, PartialEq, Eq)]
pub struct SettingValues {
    pub album_folder: Option<String>,
    pub steam_screenshot_folder: Option<String>,
    pub vrcx_database_path: Option<String>,
    pub sync_interval_minutes: Option<String>,
    pub show_self_in_friends: Option<String>,
}

/// The mathematical form of the stored setting texts.
pub struct ValuesView {
    pub album_folder: Option<Seq<char>>,
    pub steam_screenshot_folder: Option<Seq<char>>,
    pub vrcx_database_path: Option<Seq<char>>,
    pub sync_interval_minutes: Option<Seq<char>>,
    pub show_self_in_friends: Option<Seq<char>>,
}

impl View for SettingValues {
    type V = ValuesView;

    open spec fn view(&self) -> ValuesView {
        ValuesView {
            album_folder: opt_text(self.album_folder),
            steam_screenshot_folder: opt_text(self.steam_screenshot_folder),
            vrcx_database_path: opt_text(self.vrcx_database_path),
            sync_interval_minutes: opt_text(self.sync_interval_minutes),
            show_self_in_friends: opt_text(self.show_self_in_friends),
        }
    }
}

/// Keys of the settings table.
pub const ALBUM_FOLDER_KEY: &'static str = "album_folder";
pub const STEAM_FOLDER_KEY: &'static str = "steam_screenshot_folder";
pub const VRCX_PATH_KEY: &'static str = "vrcx_database_path";
pub const SYNC_INTERVAL_KEY: &'static str = "sync_interval_minutes";
pub const SHOW_SELF_KEY: &'static str = "show_self_in_friends";

/// A stored folder counts only when it is not blank.
pub open spec fn non_blank(v: Option<Seq<char>>) -> Option<Seq<char>> {
    match v {
        Some(s) => if is_blank(s) { None } else { Some(s) },
        None => None,
    }
}

/// The settings that the stored texts stand for: blank folders count as unset (the album
/// folder then falls back to `default_album`), the interval is the stored integer or 15,
/// and friends show the user unless the stored text is exactly `false`.
pub open spec fn settings_spec(v: ValuesView, default_album: Option<Seq<char>>) -> SettingsView {
    SettingsView {
        album_folder: match non_blank(v.album_folder) {
            Some(s) => Some(s),
            None => default_album,
        },
        steam_screenshot_folder: non_blank(v.steam_screenshot_folder),
        vrcx_database_path: v.vrcx_database_path,
        sync_interval_minutes: match v.sync_interval_minutes {
            Some(t) => match parse_i64_spec(t) {
                Some(n) => n,
                None => 15,
            },
            None => 15,
        },
        show_self_in_friends: match v.show_self_in_friends {
            Some(t) => t != "false"@,
            None => true,
        },
    }
}

fn non_blank_text(v: &Option<String>) -> (r: Option<String>)
    ensures
        opt_text(r) == non_blank(opt_text(*v)),
{
    match v {
        Some(s) => if str_is_blank(s.as_str()) {
            None
        } else {
            Some(s.clone())
        },
        None => None,
    }
}

/// The settings for the stored texts; `default_album_folder` is used when no album
/// folder is stored.
pub fn settings(values: &SettingValues, default_album_folder: Option<String>) -> (r: AppSettings)
    ensures
        r@ == settings_spec(values@, opt_text(default_album_folder)),
{
    let album = match non_blank_text(&values.album_folder) {
        Some(s) => Some(s),
        None => default_album_folder,
    };
    let interval = match &values.sync_interval_minutes {
        Some(t) => match parse_i64(t.as_str()) {
            Some(n) => n,
            None => 15,
        },
        None => 15,
    };
    let show = match &values.show_self_in_friends {
        Some(t) => !str_eq(t.as_str(), "false"),
        None => true,
    };
    AppSettings {
        album_folder: album,
        steam_screenshot_folder: non_blank_text(&values.steam_screenshot_folder),
        vrcx_database_path: values.vrcx_database_path.clone(),
        sync_interval_minutes: interval,
        show_self_in_friends: show,
    }
}

/// The text stored for a yes/no setting.
pub open spec fn flag_text(b: bool) -> Seq<char> {
    if b { "true"@ } else { "false"@ }
}

/// The writes that saving settings makes, in order: each folder setting that is set, then
/// the interval in decimal, then the show-self flag as `true` or `false`.
pub open spec fn save_writes_spec(s: SettingsView) -> Seq<(Seq<char>, Seq<char>)> {
    let w0 = Seq::<(Seq<char>, Seq<char>)>::empty();
    let w1 = match s.album_folder {
        Some(a) => w0.push((ALBUM_FOLDER_KEY@, a)),
        None => w0,
    };
    let w2 = match s.steam_screenshot_folder {
        Some(a) => w1.push((STEAM_FOLDER_KEY@, a)),
        None => w1,
    };
    let w3 = match s.vrcx_database_path {
        Some(a) => w2.push((VRCX_PATH_KEY@, a)),
        None => w2,
    };
    w3.push((SYNC_INTERVAL_KEY@, signed_decimal(s.sync_interval_minutes as int))).push(
        (SHOW_SELF_KEY@, flag_text(s.show_self_in_friends)),
    )
}

/// The view of a list of key/value writes.
pub open spec fn writes_view(w: Seq<(String, String)>) -> Seq<(Seq<char>, Seq<char>)> {
    w.map_values(|p: (String, String)| (p.0@, p.1@))
}

fn push_write(w: &mut Vec<(String, String)>, key: &str, value: String)
    ensures
        writes_view(final(w)@) == writes_view(old(w)@).push((key@, value@)),
{
    w.push((key.to_owned(), value));
    assert(writes_view(w@) =~= writes_view(old(w)@).push((key@, value@)));
}

/// The key/value writes that saving `settings` makes to the settings table (each an
/// insert-or-replace), in order.
pub fn save_settings(settings: &AppSettings) -> (r: Vec<(String, String)>)
    ensures
        writes_view(r@) == save_writes_spec(settings@),
{
    let mut w: Vec<(String, String)> = Vec::new();
    assert(writes_view(w@) =~= Seq::<(Seq<char>, Seq<char>)>::empty());
    if let Some(v) = &settings.album_folder {
        push_write(&mut w, ALBUM_FOLDER_KEY, v.clone());
    }
    if let Some(v) = &settings.steam_screenshot_folder {
        push_write(&mut w, STEAM_FOLDER_KEY, v.clone());
    }
    if let Some(v) = &settings.vrcx_database_path {
        push_write(&mut w, VRCX_PATH_KEY, v.clone());
    }
    push_write(&mut w, SYNC_INTERVAL_KEY, format_i64(settings.sync_interval_minutes));
    let flag = if settings.show_self_in_friends {
        "true".to_owned()
    } else {
        "false".to_owned()
    };
    push_write(&mut w, SHOW_SELF_KEY, flag);
    w
}

/// The settings table after a list of insert-or-replace writes.
pub open spec fn apply_writes(store: Map<Seq<char>, Seq<char>>, w: Seq<(Seq<char>, Seq<char>)>) -> Map<Seq<char>, Seq<char>>
    decreases w.len(),
{
    if w.len() == 0 {
        store
    } else {
        apply_writes(store, w.drop_last()).insert(w.last().0, w.last().1)
    }
}

/// The stored value of a key, if any.
pub open spec fn lookup(store: Map<Seq<char>, Seq<char>>, key: Seq<char>) -> Option<Seq<char>> {
    if store.contains_key(key) {
        Some(store[key])
    } else {
        None
    }
}

/// The setting texts that a settings table holds.
pub open spec fn stored_values(store: Map<Seq<char>, Seq<char>>) -> ValuesView {
    ValuesView {
        album_folder: lookup(store, ALBUM_FOLDER_KEY@),
        steam_screenshot_folder: lookup(store, STEAM_FOLDER_KEY@),
        vrcx_database_path: lookup(store, VRCX_PATH_KEY@),
        sync_interval_minutes: lookup(store, SYNC_INTERVAL_KEY@),
        show_self_in_friends: lookup(store, SHOW_SELF_KEY@),
    }
}

proof fn lemma_apply_push(store: Map<Seq<char>, Seq<char>>, w: Seq<(Seq<char>, Seq<char>)>, x: (Seq<char>, Seq<char>))
    ensures
        apply_writes(store, w.push(x)) == apply_writes(store, w).insert(x.0, x.1),
{
    assert(w.push(x).drop_last() =~= w);
}

/// Reading settings back after saving them gives what was saved: the interval and the
/// show-self flag always; each folder setting that was set, unless the text is blank (a
/// blank album folder reads as the default one, a blank Steam folder as unset); a folder
/// setting that was not set keeps what the table held.
pub proof fn law_saved_settings_read_back(
    store: Map<Seq<char>, Seq<char>>,
    s: SettingsView,
    default_album: Option<Seq<char>>,
)
    ensures
        ({
            let back = settings_spec(stored_values(apply_writes(store, save_writes_spec(s))), default_album);
            &&& back.sync_interval_minutes == s.sync_interval_minutes
            &&& back.show_self_in_friends == s.show_self_in_friends
            &&& s.album_folder is Some ==> back.album_folder == match non_blank(s.album_folder) {
                Some(a) => Some(a),
                None => default_album,
            }
            &&& s.steam_screenshot_folder is Some ==> back.steam_screenshot_folder == non_blank(s.steam_screenshot_folder)
            &&& s.vrcx_database_path is Some ==> back.vrcx_database_path == s.vrcx_database_path
            &&& s.album_folder is None ==> back.album_folder == settings_spec(stored_values(store), default_album).album_folder
            &&& s.steam_screenshot_folder is None ==> back.steam_screenshot_folder == settings_spec(stored_values(store), default_album).steam_screenshot_folder
            &&& s.vrcx_database_path is None ==> back.vrcx_database_path == settings_spec(stored_values(store), default_album).vrcx_database_path
        }),
{
    reveal_strlit("album_folder");
    reveal_strlit("steam_screenshot_folder");
    reveal_strlit("vrcx_database_path");
    reveal_strlit("sync_interval_minutes");
    reveal_strlit("show_self_in_friends");
    reveal_strlit("true");
    reveal_strlit("false");
    let ka = ALBUM_FOLDER_KEY@;
    let ks = STEAM_FOLDER_KEY@;
    let kv = VRCX_PATH_KEY@;
    let ki = SYNC_INTERVAL_KEY@;
    let kf = SHOW_SELF_KEY@;
    assert(ka.len() == 12 && ks.len() == 23 && kv.len() == 18 && ki.len() == 21 && kf.len() == 20);
    assert(ka != ks && ka != kv && ka != ki && ka != kf);
    assert(ks != kv && ks != ki && ks != kf);
    assert(kv != ki && kv != kf);
    assert(ki != kf);
    assert("true"@ != "false"@) by {
        assert("true"@.len() != "false"@.len());
    }
    lemma_parse_format_i64(s.sync_interval_minutes);
    let w0 = Seq::<(Seq<char>, Seq<char>)>::empty();
    let w1 = match s.album_folder {
        Some(a) => w0.push((ka, a)),
        None => w0,
    };
    let w2 = match s.steam_screenshot_folder {
        Some(a) => w1.push((ks, a)),
        None => w1,
    };
    let w3 = match s.vrcx_database_path {
        Some(a) => w2.push((kv, a)),
        None => w2,
    };
    let w4 = w3.push((ki, signed_decimal(s.sync_interval_minutes as int)));
    let w5 = w4.push((kf, flag_text(s.show_self_in_friends)));
    assert(save_writes_spec(s) == w5);
    assert(apply_writes(store, w0) == store);
    if let Some(a) = s.album_folder {
        lemma_apply_push(store, w0, (ka, a));
    }
    if let Some(a) = s.steam_screenshot_folder {
        lemma_apply_push(store, w1, (ks, a));
    }
    if let Some(a) = s.vrcx_database_path {
        lemma_apply_push(store, w2, (kv, a));
    }
    lemma_apply_push(store, w3, (ki, signed_decimal(s.sync_interval_minutes as int)));
    lemma_apply_push(store, w4, (kf, flag_text(s.show_self_in_friends)));
}

/// The query that lists photos, optionally only those linked to one player.
pub open spec fn list_photos_sql_spec(filter_by_user: bool) -> Seq<char> {
    "SELECT DISTINCT p.id,p.user_id,p.source,p.kind,p.local_path,p.remote_url,\n         p.thumbnail_path,p.file_name,p.captured_at FROM photos p"@
        + if filter_by_user {
        " JOIN photo_people pp ON pp.photo_id=p.id WHERE (?1 IS NULL OR pp.user_id=?1)"@
    } else {
        " WHERE ?1 IS NULL"@
    } + " AND (?2 IS NULL OR p.kind=?2)\n                   ORDER BY p.captured_at DESC,p.imported_at DESC"@
}

/// The SQL that lists photos, newest first; with `filter_by_user`, it joins the links of
/// photos to players and keeps the photos of player `?1`; `?2` filters by kind.
pub fn list_photos_sql(filter_by_user: bool) -> (r: String)
    ensures
        r@ == list_photos_sql_spec(filter_by_user),
{
    let mut sql = "SELECT DISTINCT p.id,p.user_id,p.source,p.kind,p.local_path,p.remote_url,\n         p.thumbnail_path,p.file_name,p.captured_at FROM photos p".to_owned();
    if filter_by_user {
        sql.append(" JOIN photo_people pp ON pp.photo_id=p.id WHERE (?1 IS NULL OR pp.user_id=?1)");
    } else {
        sql.append(" WHERE ?1 IS NULL");
    }
    sql.append(" AND (?2 IS NULL OR p.kind=?2)\n                   ORDER BY p.captured_at DESC,p.imported_at DESC");
    sql
}

/// The SQL that lists the columns of a table.
pub fn table_info_sql(table: &str) -> (r: String)
    ensures
        r@ == "PRAGMA table_info("@ + table@ + ")"@,
{
    let mut sql = "PRAGMA table_info(".to_owned();
    sql.append(table);
    sql.append(")");
    sql
}

/// The `ALTER TABLE` statement that adds `column` to `table`, when `columns` (the table's
/// current column names) lacks it; nothing when the column is already there.
pub fn add_column_if_missing(columns: &Vec<String>, table: &str, column: &str, definition: &str) -> (r: Option<String>)
    ensures
        (exists|i: int| 0 <= i < columns@.len() && (#[trigger] columns@[i])@ == column@) ==> r is None,
        !(exists|i: int| 0 <= i < columns@.len() && (#[trigger] columns@[i])@ == column@) ==> r is Some
            && r->0@ == "ALTER TABLE "@ + table@ + " ADD COLUMN "@ + column@ + " "@ + definition@,
{
    let mut i: usize = 0;
    while i < columns.len()
        invariant
            i <= columns@.len(),
            forall|k: int| 0 <= k < i ==> (#[trigger] columns@[k])@ != column@,
        decreases columns.len() - i,
    {
        if str_eq(columns[i].as_str(), column) {
            return None;
        }
        i += 1;
    }
    let mut sql = "ALTER TABLE ".to_owned();
    sql.append(table);
    sql.append(" ADD COLUMN ");
    sql.append(column);
    sql.append(" ");
    sql.append(definition);
    Some(sql)
}

/// Every (photo, player) pair of an assignment, photo by photo, players in the given order.
pub open spec fn assignment_pairs(photos: Seq<i64>, users: Seq<Seq<char>>) -> Seq<(i64, Seq<char>)>
    decreases photos.len(),
{
    if photos.len() == 0 {
        seq![]
    } else {
        assignment_pairs(photos.drop_last(), users) + users.map_values(|u: Seq<char>| (photos.last(), u))
    }
}

/// An assignment links a photo to a player exactly when the photo and the player are
/// among those assigned.
pub proof fn law_assignment_pairs_members(photos: Seq<i64>, users: Seq<Seq<char>>, photo: i64, user: Seq<char>)
    ensures
        assignment_pairs(photos, users).contains((photo, user)) <==> (photos.contains(photo) && users.contains(user)),
    decreases photos.len(),
{
    if photos.len() > 0 {
        let init = photos.drop_last();
        law_assignment_pairs_members(init, users, photo, user);
        let prev = assignment_pairs(init, users);
        let tail = users.map_values(|u: Seq<char>| (photos.last(), u));
        let all = assignment_pairs(photos, users);
        assert(all == prev + tail);
        let n = photos.len() - 1;
        if all.contains((photo, user)) {
            let k = choose|k: int| 0 <= k < all.len() && all[k] == (photo, user);
            if k < prev.len() {
                assert(prev[k] == (photo, user));
                assert(prev.contains((photo, user)));
                let i = choose|i: int| 0 <= i < init.len() && init[i] == photo;
                assert(photos[i] == photo);
            } else {
                assert(tail[k - prev.len()] == (photo, user));
                assert(photos[n] == photo);
                assert(users[k - prev.len()] == user);
            }
        }
        if photos.contains(photo) && users.contains(user) {
            let i = choose|i: int| 0 <= i < photos.len() && photos[i] == photo;
            let j = choose|j: int| 0 <= j < users.len() && users[j] == user;
            if i == n {
                assert(all[prev.len() + j] == (photo, user));
            } else {
                assert(init[i] == photo);
                assert(init.contains(photo));
                let k = choose|k: int| 0 <= k < prev.len() && prev[k] == (photo, user);
                assert(all[k] == (photo, user));
            }
        }
    }
}

/// The view of a list of (photo, player) pairs.
pub open spec fn pairs_view(p: Seq<(i64, String)>) -> Seq<(i64, Seq<char>)> {
    p.map_values(|x: (i64, String)| (x.0, x.1@))
}

/// The links to insert (each insert-or-ignore, source `manual`) when assigning photos to
/// players: every pair, photo by photo.
pub fn assign_photos_to_friends(photo_ids: &Vec<i64>, user_ids: &Vec<String>) -> (r: Vec<(i64, String)>)
    ensures
        pairs_view(r@) == assignment_pairs(photo_ids@, user_ids@.map_values(|u: String| u@)),
        forall|photo: i64, user: Seq<char>| #[trigger] pairs_view(r@).contains((photo, user)) <==> (photo_ids@.contains(
            photo,
        ) && user_ids@.map_values(|u: String| u@).contains(user)),
{
    let ghost users = user_ids@.map_values(|u: String| u@);
    let mut out: Vec<(i64, String)> = Vec::new();
    let mut i: usize = 0;
    assert(pairs_view(out@) =~= assignment_pairs(photo_ids@.take(0), users));
    while i < photo_ids.len()
        invariant
            i <= photo_ids@.len(),
            users == user_ids@.map_values(|u: String| u@),
            pairs_view(out@) == assignment_pairs(photo_ids@.take(i as int), users),
        decreases photo_ids.len() - i,
    {
        let photo = photo_ids[i];
        let ghost before = pairs_view(out@);
        let mut j: usize = 0;
        assert(before + users.take(0).map_values(|u: Seq<char>| (photo, u)) =~= before);
        while j < user_ids.len()
            invariant
                j <= user_ids@.len(),
                users == user_ids@.map_values(|u: String| u@),
                pairs_view(out@) == before + users.take(j as int).map_values(|u: Seq<char>| (photo, u)),
            decreases user_ids.len() - j,
        {
            let ghost prev = pairs_view(out@);
            out.push((photo, user_ids[j].clone()));
            assert(pairs_view(out@) =~= prev.push((photo, users[j as int])));
            assert(users.take(j + 1).map_values(|u: Seq<char>| (photo, u)) =~= users.take(j as int).map_values(
                |u: Seq<char>| (photo, u),
            ).push((photo, users[j as int])));
            j += 1;
            assert(pairs_view(out@) =~= before + users.take(j as int).map_values(|u: Seq<char>| (photo, u)));
        }
        assert(users.take(j as int) =~= users);
        assert(photo_ids@.take(i + 1).drop_last() =~= photo_ids@.take(i as int));
        assert(photo_ids@.take(i + 1).last() == photo);
        i += 1;
    }
    assert(photo_ids@.take(photo_ids@.len() as int) =~= photo_ids@);
    proof {
        assert forall|photo: i64, user: Seq<char>| #[trigger] pairs_view(out@).contains((photo, user)) <==> (
        photo_ids@.contains(photo) && users.contains(user)) by {
            law_assignment_pairs_members(photo_ids@, users, photo, user);
        }
    }
    out
}

/// The links to insert when assigning photos to one player.
pub fn assign_photos(photo_ids: &Vec<i64>, user_id: &str) -> (r: Vec<(i64, String)>)
    ensures
        pairs_view(r@) == assignment_pairs(photo_ids@, seq![user_id@]),
{
    let mut users: Vec<String> = Vec::new();
    users.push(user_id.to_owned());
    assert(users@.map_values(|u: String| u@) =~= seq![user_id@]);
    assign_photos_to_friends(photo_ids, &users)
}

/// The database file: `photos.db` in the application's data folder.
pub fn database_path(data_dir: Option<FsPath>) -> (r: FsPath)
    ensures
        r@ == app_dir_spec(opt_path(data_dir)).push(Part::Normal("photos.db"@)),
{
    proof {
        reveal_strlit("photos.db");
        assert("photos.db"@ =~= seq!['p', 'h', 'o', 't', 'o', 's', '.', 'd', 'b']);
    }
    app_dir(data_dir).join("photos.db")
}

/// The default album folder: `VRChat` in the platform picture folder, if there is one.
pub fn default_album_folder(picture_dir: Option<FsPath>) -> (r: Option<FsPath>)
    ensures
        opt_path(r) == match opt_path(picture_dir) {
            Some(p) => Some(p.push(Part::Normal("VRChat"@))),
            None => None,
        },
{
    proof {
        reveal_strlit("VRChat");
        assert("VRChat"@ =~= seq!['V', 'R', 'C', 'h', 'a', 't']);
    }
    match picture_dir {
        Some(p) => Some(p.join("VRChat")),
        None => None,
    }
}

} // verus!
