//! VRChat records and the rules applied to what the VRChat Web API returns: the session
//! cookie of a login, the profile fields kept for a player, and the gallery files kept.

use vstd::prelude::*;
use crate::text::{chars_of, decimal, format_usize, opt_text, str_starts_with, string_of};

verus! {

/// The VRChat Web API.
pub const BASE: &'static str = "https://api.vrchat.cloud/api/1";

/// The endpoint of the logged-in user.
pub const AUTH_USER_URL: &'static str = "https://api.vrchat.cloud/api/1/auth/user";

/// The user agent the client sends.
pub const USER_AGENT: &'static str = "VRC-Album/0.1 (personal photo manager)";

/// The reply to a successful login.
pub const LOGIN_OK_MESSAGE: &'static str = "VRChat 登录成功；若账号启用了 2FA，请在下一步验证。";

/// The error when no session is stored.
pub const NO_SESSION_MESSAGE: &'static str = "尚未登录 VRChat。请先在设置中登录。";

/// The error when VRChat refuses the credentials.
pub const BAD_CREDENTIALS_MESSAGE: &'static str = "账号、密码或 2FA 验证失败。请在设置中完成 2FA。";

/// The error when VRChat rejects the stored session (HTTP 401).
pub const SESSION_EXPIRED_MESSAGE: &'static str = "VRChat 登录已过期，请重新登录";

/// The error when VRChat returns no session cookie.
pub const NO_COOKIE_MESSAGE: &'static str = "VRChat 未返回登录会话。";

/// A VRChat user, as the API returns it.
#[derive(Debug, PartialEq, Eq)]
pub struct User {
    pub id: String,
    pub display_name: String,
    pub user_icon: Option<String>,
    pub profile_pic_override: Option<String>,
    pub current_avatar_thumbnail_image_url: Option<String>,
}

/// A file of the VRChat file API.
#[derive(Debug, PartialEq, Eq)]
pub struct File {
    pub id: String,
    pub name: String,
    pub mime_type: Option<String>,
    pub versions: Vec<FileVersion>,
}

/// One version of a file.
#[derive(Debug, PartialEq, Eq)]
pub struct FileVersion {
    pub version: i64,
    pub file: FileBlob,
}

/// Where a file version can be downloaded.
#[derive(Debug, PartialEq, Eq)]
pub struct FileBlob {
    pub url: String,
}

/// The endpoint of one user.
pub fn user_url(user_id: &str) -> (r: String)
    ensures
        r@ == BASE@ + "/users/"@ + user_id@,
{
    let mut u = BASE.to_owned();
    u.append("/users/");
    u.append(user_id);
    u
}

/// The part of a `Set-Cookie` value before its first `;` (the cookie itself).
pub open spec fn cookie_part(v: Seq<char>) -> Seq<char>
    decreases v.len(),
{
    if v.len() == 0 {
        v
    } else if v[0] == ';' {
        Seq::<char>::empty()
    } else {
        seq![v[0]] + cookie_part(v.drop_first())
    }
}

/// The cookies of the readable `Set-Cookie` values, in order.
pub open spec fn session_cookies(values: Seq<Option<Seq<char>>>) -> Seq<Seq<char>>
    decreases values.len(),
{
    if values.len() == 0 {
        seq![]
    } else {
        let prev = session_cookies(values.drop_last());
        match values.last() {
            Some(v) => prev.push(cookie_part(v)),
            None => prev,
        }
    }
}

/// The texts joined with `sep` between them.
pub open spec fn join_spec(parts: Seq<Seq<char>>, sep: Seq<char>) -> Seq<char>
    decreases parts.len(),
{
    if parts.len() == 0 {
        Seq::<char>::empty()
    } else if parts.len() == 1 {
        parts[0]
    } else {
        join_spec(parts.drop_last(), sep) + sep + parts.last()
    }
}

/// The views of the `Set-Cookie` values; `None` for one that is not readable text.
pub open spec fn header_values(values: Seq<Option<String>>) -> Seq<Option<Seq<char>>> {
    values.map_values(|v: Option<String>| opt_text(v))
}

fn cookie_of(v: &str) -> (r: String)
    ensures
        r@ == cookie_part(v@),
{
    let cs = chars_of(v);
    let mut out: Vec<char> = Vec::new();
    let mut i: usize = 0;
    assert(cs@.skip(0) =~= cs@);
    assert(out@ + cookie_part(cs@.skip(0)) =~= cookie_part(cs@));
    while i < cs.len() && cs[i] != ';'
        invariant
            i <= cs@.len(),
            cs@ == v@,
            out@ + cookie_part(cs@.skip(i as int)) == cookie_part(cs@),
        decreases cs.len() - i,
    {
        assert(cs@.skip(i as int).drop_first() =~= cs@.skip(i + 1));
        out.push(cs[i]);
        i += 1;
    }
    proof {
        if i < cs.len() {
            assert(cs@.skip(i as int)[0] == ';');
        }
        assert(cookie_part(cs@.skip(i as int)) =~= Seq::<char>::empty());
        assert(out@ + Seq::<char>::empty() =~= out@);
    }
    string_of(&out)
}

/// The session to store after a login request: refused when VRChat answered 401 or sent
/// no readable cookie; else the cookies of the `Set-Cookie` values joined with `; `.
pub fn login(unauthorized: bool, set_cookie: &Vec<Option<String>>) -> (r: Result<String, String>)
    ensures
        unauthorized ==> (r matches Err(e) && e@ == BAD_CREDENTIALS_MESSAGE@),
        !unauthorized && session_cookies(header_values(set_cookie@)).len() == 0 ==> (r matches Err(e)
            && e@ == NO_COOKIE_MESSAGE@),
        !unauthorized && session_cookies(header_values(set_cookie@)).len() > 0 ==> (r matches Ok(s) && s@
            == join_spec(session_cookies(header_values(set_cookie@)), "; "@)),
{
    if unauthorized {
        return Err(BAD_CREDENTIALS_MESSAGE.to_owned());
    }
    let ghost vals = header_values(set_cookie@);
    let mut joined = String::new();
    let mut count: usize = 0;
    let mut i: usize = 0;
    while i < set_cookie.len()
        invariant
            i <= set_cookie@.len(),
            vals == header_values(set_cookie@),
            count as nat == session_cookies(vals.take(i as int)).len(),
            count <= i,
            joined@ == join_spec(session_cookies(vals.take(i as int)), "; "@),
        decreases set_cookie.len() - i,
    {
        assert(vals.take(i + 1).drop_last() =~= vals.take(i as int));
        assert(vals.take(i + 1).last() == opt_text(set_cookie@[i as int]));
        if let Some(v) = &set_cookie[i] {
            let c = cookie_of(v.as_str());
            let ghost prev = session_cookies(vals.take(i as int));
            if count > 0 {
                joined.append("; ");
            }
            joined.append(c.as_str());
            proof {
                let now = prev.push(c@);
                assert(now.drop_last() =~= prev);
                if prev.len() == 0 {
                    assert(joined@ =~= c@);
                }
            }
            count = count + 1;
        }
        i += 1;
    }
    assert(vals.take(set_cookie@.len() as int) =~= vals);
    if count == 0 {
        return Err(NO_COOKIE_MESSAGE.to_owned());
    }
    Ok(joined)
}

/// The profile fields stored for a player after a refresh.
#[derive(Debug, PartialEq, Eq)]
pub struct PlayerUpdate {
    pub user_id: String,
    pub display_name: String,
    pub profile_pic_url: Option<String>,
    pub avatar_thumbnail_url: Option<String>,
}

/// The profile fields kept from a fetched user: the icon, or else the profile picture
/// override, as the picture.
pub fn refresh_player(user: &User) -> (r: PlayerUpdate)
    ensures
        r.user_id@ == user.id@,
        r.display_name@ == user.display_name@,
        opt_text(r.profile_pic_url) == match user.user_icon {
            Some(i) => Some(i@),
            None => opt_text(user.profile_pic_override),
        },
        opt_text(r.avatar_thumbnail_url) == opt_text(user.current_avatar_thumbnail_image_url),
{
    let picture = match &user.user_icon {
        Some(i) => Some(i.clone()),
        None => user.profile_pic_override.clone(),
    };
    PlayerUpdate {
        user_id: user.id.clone(),
        display_name: user.display_name.clone(),
        profile_pic_url: picture,
        avatar_thumbnail_url: user.current_avatar_thumbnail_image_url.clone(),
    }
}

/// The row stored for a gallery or print file.
#[derive(Debug, PartialEq, Eq)]
pub struct GalleryRow {
    pub user_id: String,
    pub vrchat_file_id: String,
    pub remote_url: String,
    pub file_name: String,
}

/// Whether a file is kept: it has a version and an `image/` type.
pub open spec fn is_gallery_image(f: File) -> bool {
    &&& f.versions@.len() > 0
    &&& f.mime_type matches Some(m) && "image/"@.is_prefix_of(m@)
}

/// The view of a gallery row.
pub open spec fn row_view(r: GalleryRow) -> (Seq<char>, Seq<char>, Seq<char>, Seq<char>) {
    (r.user_id@, r.vrchat_file_id@, r.remote_url@, r.file_name@)
}

/// The rows for the kept files, in order: owner, file id, the latest version's address,
/// and the file name.
pub open spec fn gallery_rows(own_id: Seq<char>, files: Seq<File>) -> Seq<(Seq<char>, Seq<char>, Seq<char>, Seq<char>)>
    decreases files.len(),
{
    if files.len() == 0 {
        seq![]
    } else {
        let prev = gallery_rows(own_id, files.drop_last());
        let f = files.last();
        if is_gallery_image(f) {
            prev.push((own_id, f.id@, f.versions@.last().file.url@, f.name@))
        } else {
            prev
        }
    }
}

/// The files that the gallery sync keeps, in order.
pub open spec fn kept_files(files: Seq<File>) -> Seq<File> {
    files.filter(|f: File| is_gallery_image(f))
}

/// The gallery rows are the kept files (those with a version and an `image/` type), in
/// order, one row each: owned by the logged-in user, with the file's id, the address of
/// its latest version, and the file's own name.
pub proof fn law_gallery_rows_keep_file_fields(own_id: Seq<char>, files: Seq<File>)
    ensures
        gallery_rows(own_id, files).len() == kept_files(files).len(),
        forall|k: int| 0 <= k < kept_files(files).len() ==> #[trigger] gallery_rows(own_id, files)[k] == (
            own_id,
            kept_files(files)[k].id@,
            kept_files(files)[k].versions@.last().file.url@,
            kept_files(files)[k].name@,
        ),
    decreases files.len(),
{
    reveal(Seq::filter);
    if files.len() > 0 {
        let init = files.drop_last();
        law_gallery_rows_keep_file_fields(own_id, init);
        assert(kept_files(files) == (if is_gallery_image(files.last()) {
            kept_files(init).push(files.last())
        } else {
            kept_files(init)
        }));
    }
}

/// The rows to store for the logged-in user's gallery and print files; their number is
/// the count that the gallery sync reports.
pub fn sync_own_gallery(own_id: &str, files: &Vec<File>) -> (r: Vec<GalleryRow>)
    ensures
        r@.map_values(|x: GalleryRow| row_view(x)) == gallery_rows(own_id@, files@),
        r@.len() == kept_files(files@).len(),
        forall|k: int| 0 <= k < r@.len() ==> {
            &&& (#[trigger] r@[k]).user_id@ == own_id@
            &&& r@[k].vrchat_file_id@ == kept_files(files@)[k].id@
            &&& r@[k].remote_url@ == kept_files(files@)[k].versions@.last().file.url@
            &&& r@[k].file_name@ == kept_files(files@)[k].name@
        },
{
    let mut out: Vec<GalleryRow> = Vec::new();
    let mut i: usize = 0;
    while i < files.len()
        invariant
            i <= files@.len(),
            out@.map_values(|x: GalleryRow| row_view(x)) == gallery_rows(own_id@, files@.take(i as int)),
        decreases files.len() - i,
    {
        let f = &files[i];
        assert(files@.take(i + 1).drop_last() =~= files@.take(i as int));
        assert(files@.take(i + 1).last() == files@[i as int]);
        let n = f.versions.len();
        if n > 0 {
            let is_image = match &f.mime_type {
                Some(m) => str_starts_with(m.as_str(), "image/"),
                None => false,
            };
            if is_image {
                let ghost prev = out@.map_values(|x: GalleryRow| row_view(x));
                let row = GalleryRow {
                    user_id: own_id.to_owned(),
                    vrchat_file_id: f.id.clone(),
                    remote_url: f.versions[n - 1].file.url.clone(),
                    file_name: f.name.clone(),
                };
                out.push(row);
                assert(out@.map_values(|x: GalleryRow| row_view(x)) =~= prev.push(
                    (own_id@, f.id@, f.versions@.last().file.url@, f.name@),
                ));
            }
        }
        i += 1;
    }
    assert(files@.take(files@.len() as int) =~= files@);
    proof {
        law_gallery_rows_keep_file_fields(own_id@, files@);
        let rows = gallery_rows(own_id@, files@);
        assert forall|k: int| 0 <= k < out@.len() implies {
            &&& (#[trigger] out@[k]).user_id@ == own_id@
            &&& out@[k].vrchat_file_id@ == kept_files(files@)[k].id@
            &&& out@[k].remote_url@ == kept_files(files@)[k].versions@.last().file.url@
            &&& out@[k].file_name@ == kept_files(files@)[k].name@
        } by {
            assert(out@.map_values(|x: GalleryRow| row_view(x))[k] == row_view(out@[k]));
            assert(rows[k] == row_view(out@[k]));
        }
    }
    out
}


/// How many records one page of a list asks for.
pub const PAGE_SIZE: usize = 100;

/// The addresses, up to the offset, of the lists that the gallery sync fetches in order:
/// the logged-in user's gallery files, then the print files.
pub open spec fn gallery_page_prefixes() -> Seq<Seq<char>> {
    seq![
        "https://api.vrchat.cloud/api/1/files?tag=gallery&n=100&offset="@,
        "https://api.vrchat.cloud/api/1/files?tag=print&n=100&offset="@,
    ]
}

/// The addresses, up to the offset, of the lists that the friend sync fetches in order:
/// the online friends, then the offline ones.
pub open spec fn friend_page_prefixes() -> Seq<Seq<char>> {
    seq![
        "https://api.vrchat.cloud/api/1/auth/user/friends?offline=false&n=100&offset="@,
        "https://api.vrchat.cloud/api/1/auth/user/friends?offline=true&n=100&offset="@,
    ]
}

/// A fetch of one or more lists, a page at a time.
pub struct PagedFetch {
    prefixes: Vec<String>,
    list: usize,
    offset: usize,
}

/// The mathematical form of a paged fetch: the lists' addresses up to the offset, the
/// index of the list being fetched (past the last one when all are fetched), and the
/// offset of its next page.
pub struct PagedFetchView {
    pub prefixes: Seq<Seq<char>>,
    pub list: nat,
    pub offset: nat,
}

impl View for PagedFetch {
    type V = PagedFetchView;

    closed spec fn view(&self) -> PagedFetchView {
        PagedFetchView {
            prefixes: self.prefixes@.map_values(|p: String| p@),
            list: self.list as nat,
            offset: self.offset as nat,
        }
    }
}

impl PagedFetch {
    /// The fetch of the gallery and prints, before its first page.
    pub fn gallery() -> (r: PagedFetch)
        ensures
            r@.prefixes == gallery_page_prefixes(),
            r@.list == 0,
            r@.offset == 0,
    {
        let mut prefixes: Vec<String> = Vec::new();
        prefixes.push("https://api.vrchat.cloud/api/1/files?tag=gallery&n=100&offset=".to_owned());
        prefixes.push("https://api.vrchat.cloud/api/1/files?tag=print&n=100&offset=".to_owned());
        let r = PagedFetch { prefixes, list: 0, offset: 0 };
        assert(r@.prefixes =~= gallery_page_prefixes());
        r
    }

    /// The fetch of the friend list, online then offline, before its first page.
    pub fn friends() -> (r: PagedFetch)
        ensures
            r@.prefixes == friend_page_prefixes(),
            r@.list == 0,
            r@.offset == 0,
    {
        let mut prefixes: Vec<String> = Vec::new();
        prefixes.push("https://api.vrchat.cloud/api/1/auth/user/friends?offline=false&n=100&offset=".to_owned());
        prefixes.push("https://api.vrchat.cloud/api/1/auth/user/friends?offline=true&n=100&offset=".to_owned());
        let r = PagedFetch { prefixes, list: 0, offset: 0 };
        assert(r@.prefixes =~= friend_page_prefixes());
        r
    }

    /// The address of the page to fetch next, or `None` when every list is fetched.
    pub fn next_url(&self) -> (r: Option<String>)
        ensures
            self@.list < self@.prefixes.len() ==> (r matches Some(u) && u@ == self@.prefixes[self@.list as int]
                + decimal(self@.offset)),
            self@.list >= self@.prefixes.len() ==> r is None,
    {
        if self.list < self.prefixes.len() {
            let mut url = self.prefixes[self.list].clone();
            url.append(format_usize(self.offset).as_str());
            Some(url)
        } else {
            None
        }
    }

    /// Takes note of a fetched page that held `count` records: a short page ends its list
    /// and the next list starts from its first page; a full one moves the offset past its
    /// records. (A page that would move the offset past `usize::MAX` ends its list too.)
    pub fn page_received(&mut self, count: usize)
        ensures
            final(self)@.prefixes == old(self)@.prefixes,
            old(self)@.list >= old(self)@.prefixes.len() ==> final(self)@ == old(self)@,
            old(self)@.list < old(self)@.prefixes.len() && (count < PAGE_SIZE || old(self)@.offset + count
                > usize::MAX) ==> final(self)@.list == old(self)@.list + 1 && final(self)@.offset == 0,
            old(self)@.list < old(self)@.prefixes.len() && count >= PAGE_SIZE && old(self)@.offset + count
                <= usize::MAX ==> final(self)@.list == old(self)@.list && final(self)@.offset == old(self)@.offset
                + count,
    {
        if self.list < self.prefixes.len() {
            if count < PAGE_SIZE || self.offset > usize::MAX - count {
                self.list = self.list + 1;
                self.offset = 0;
            } else {
                self.offset = self.offset + count;
            }
        }
    }
}

/// A stored player and whether it is marked as a VRChat friend (the candidate pool).
#[derive(Debug, PartialEq, Eq)]
pub struct StoredFriend {
    pub user_id: String,
    pub is_vrchat_friend: bool,
}

/// How the VRChat-friend marks change after fetching the friend list.
#[derive(Debug, PartialEq, Eq)]
pub struct FriendMarks {
    /// Friends that were not marked before.
    pub newly_marked: Vec<String>,
    /// Marked players that are no longer friends.
    pub unmarked: Vec<String>,
}

/// The texts of a list of strings.
pub open spec fn texts_of(v: Seq<String>) -> Seq<Seq<char>> {
    v.map_values(|s: String| s@)
}

/// The ids of the stored players that are marked.
pub open spec fn marked_ids(stored: Seq<StoredFriend>) -> Set<Seq<char>> {
    Set::new(|id: Seq<char>| exists|i: int| 0 <= i < stored.len() && (#[trigger] stored[i]).is_vrchat_friend && stored[i].user_id@ == id)
}

/// The friends that were not marked, in friend-list order.
pub open spec fn newly_marked_spec(marked: Set<Seq<char>>, friends: Seq<Seq<char>>) -> Seq<Seq<char>>
    decreases friends.len(),
{
    if friends.len() == 0 {
        seq![]
    } else {
        let prev = newly_marked_spec(marked, friends.drop_last());
        if marked.contains(friends.last()) {
            prev
        } else {
            prev.push(friends.last())
        }
    }
}

/// The marked players that are not in the friend list, in stored order.
pub open spec fn unmarked_spec(stored: Seq<StoredFriend>, friends: Seq<Seq<char>>) -> Seq<Seq<char>>
    decreases stored.len(),
{
    if stored.len() == 0 {
        seq![]
    } else {
        let prev = unmarked_spec(stored.drop_last(), friends);
        let s = stored.last();
        if s.is_vrchat_friend && !friends.contains(s.user_id@) {
            prev.push(s.user_id@)
        } else {
            prev
        }
    }
}

fn text_in(list: &Vec<String>, id: &str) -> (r: bool)
    ensures
        r == list@.map_values(|s: String| s@).contains(id@),
{
    let ghost v = list@.map_values(|s: String| s@);
    let mut i: usize = 0;
    while i < list.len()
        invariant
            i <= list@.len(),
            v == list@.map_values(|s: String| s@),
            forall|k: int| 0 <= k < i ==> v[k] != id@,
        decreases list.len() - i,
    {
        if crate::text::str_eq(list[i].as_str(), id) {
            assert(v[i as int] == id@);
            return true;
        }
        i += 1;
    }
    false
}

fn is_marked(stored: &Vec<StoredFriend>, id: &str) -> (r: bool)
    ensures
        r == marked_ids(stored@).contains(id@),
{
    let mut i: usize = 0;
    while i < stored.len()
        invariant
            i <= stored@.len(),
            forall|k: int| 0 <= k < i ==> !((#[trigger] stored@[k]).is_vrchat_friend && stored@[k].user_id@ == id@),
        decreases stored.len() - i,
    {
        if stored[i].is_vrchat_friend && crate::text::str_eq(stored[i].user_id.as_str(), id) {
            assert(marked_ids(stored@).contains(id@)) by {
                assert(stored@[i as int].is_vrchat_friend && stored@[i as int].user_id@ == id@);
            }
            return true;
        }
        i += 1;
    }
    false
}

/// The mark changes after a friend-list sync: friends not yet marked get marked, marked
/// players no longer in the list lose the mark. Nothing else changes: the curated friend
/// list, the players and their photo links stay as they are.
pub fn friend_marks(stored: &Vec<StoredFriend>, friends: &Vec<String>) -> (r: FriendMarks)
    ensures
        r.newly_marked@.map_values(|s: String| s@) == newly_marked_spec(
            marked_ids(stored@),
            friends@.map_values(|s: String| s@),
        ),
        r.unmarked@.map_values(|s: String| s@) == unmarked_spec(stored@, friends@.map_values(|s: String| s@)),
        forall|id: Seq<char>| #[trigger] texts_of(r.newly_marked@).contains(id) <==> (texts_of(friends@).contains(id)
            && !marked_ids(stored@).contains(id)),
        forall|id: Seq<char>| #[trigger] texts_of(r.unmarked@).contains(id) <==> (marked_ids(stored@).contains(id)
            && !texts_of(friends@).contains(id)),
{
    let ghost fv = friends@.map_values(|s: String| s@);
    let ghost marked = marked_ids(stored@);
    let mut newly: Vec<String> = Vec::new();
    let mut i: usize = 0;
    while i < friends.len()
        invariant
            i <= friends@.len(),
            fv == friends@.map_values(|s: String| s@),
            marked == marked_ids(stored@),
            newly@.map_values(|s: String| s@) == newly_marked_spec(marked, fv.take(i as int)),
        decreases friends.len() - i,
    {
        assert(fv.take(i + 1).drop_last() =~= fv.take(i as int));
        assert(fv.take(i + 1).last() == fv[i as int]);
        if !is_marked(stored, friends[i].as_str()) {
            let ghost prev = newly@.map_values(|s: String| s@);
            newly.push(friends[i].clone());
            assert(newly@.map_values(|s: String| s@) =~= prev.push(fv[i as int]));
        }
        i += 1;
    }
    assert(fv.take(fv.len() as int) =~= fv);
    let mut gone: Vec<String> = Vec::new();
    let mut j: usize = 0;
    while j < stored.len()
        invariant
            j <= stored@.len(),
            fv == friends@.map_values(|s: String| s@),
            gone@.map_values(|s: String| s@) == unmarked_spec(stored@.take(j as int), fv),
        decreases stored.len() - j,
    {
        assert(stored@.take(j + 1).drop_last() =~= stored@.take(j as int));
        assert(stored@.take(j + 1).last() == stored@[j as int]);
        if stored[j].is_vrchat_friend && !text_in(friends, stored[j].user_id.as_str()) {
            let ghost prev = gone@.map_values(|s: String| s@);
            gone.push(stored[j].user_id.clone());
            assert(gone@.map_values(|s: String| s@) =~= prev.push(stored@[j as int].user_id@));
        }
        j += 1;
    }
    assert(stored@.take(stored@.len() as int) =~= stored@);
    proof {
        assert forall|id: Seq<char>| #[trigger] texts_of(newly@).contains(id) <==> (fv.contains(id)
            && !marked.contains(id)) by {
            law_newly_marked_members(marked, fv, id);
        }
        assert forall|id: Seq<char>| #[trigger] texts_of(gone@).contains(id) <==> (marked.contains(id)
            && !fv.contains(id)) by {
            lemma_unmarked_members(stored@, fv, id);
        }
    }
    FriendMarks { newly_marked: newly, unmarked: gone }
}

/// The marks after a sync: every listed friend marked, then every unmarked id cleared.
pub open spec fn marks_after(before: Map<Seq<char>, bool>, friends: Seq<Seq<char>>, unmarked: Seq<Seq<char>>) -> Map<Seq<char>, bool> {
    Map::new(
        |id: Seq<char>| before.contains_key(id) || friends.contains(id),
        |id: Seq<char>| if unmarked.contains(id) { false } else if friends.contains(id) { true } else { before[id] },
    )
}

/// The marks of the stored players.
pub open spec fn marks_of(stored: Seq<StoredFriend>) -> Map<Seq<char>, bool> {
    Map::new(
        |id: Seq<char>| exists|i: int| 0 <= i < stored.len() && (#[trigger] stored[i]).user_id@ == id,
        |id: Seq<char>| marked_ids(stored).contains(id),
    )
}

proof fn lemma_unmarked_members(stored: Seq<StoredFriend>, friends: Seq<Seq<char>>, id: Seq<char>)
    ensures
        unmarked_spec(stored, friends).contains(id) <==> (marked_ids(stored).contains(id) && !friends.contains(id)),
    decreases stored.len(),
{
    broadcast use vstd::seq_lib::group_seq_properties;

    if stored.len() > 0 {
        let rest = stored.drop_last();
        lemma_unmarked_members(rest, friends, id);
        let s = stored.last();
        assert(marked_ids(stored).contains(id) <==> (marked_ids(rest).contains(id) || (s.is_vrchat_friend && s.user_id@ == id))) by {
            if marked_ids(stored).contains(id) {
                let i = choose|i: int| 0 <= i < stored.len() && (#[trigger] stored[i]).is_vrchat_friend && stored[i].user_id@ == id;
                if i < rest.len() {
                    assert(rest[i] == stored[i]);
                }
            }
            if marked_ids(rest).contains(id) {
                let i = choose|i: int| 0 <= i < rest.len() && (#[trigger] rest[i]).is_vrchat_friend && rest[i].user_id@ == id;
                assert(stored[i] == rest[i]);
            }
            if s.is_vrchat_friend && s.user_id@ == id {
                assert(stored[stored.len() - 1] == s);
            }
        }
    } else {
        assert(!marked_ids(stored).contains(id));
    }
}

/// A fetched friend is newly marked exactly when it is in the friend list and no stored
/// player with its id is marked as a VRChat friend.
pub proof fn law_newly_marked_members(marked: Set<Seq<char>>, friends: Seq<Seq<char>>, id: Seq<char>)
    ensures
        newly_marked_spec(marked, friends).contains(id) <==> (friends.contains(id) && !marked.contains(id)),
    decreases friends.len(),
{
    if friends.len() > 0 {
        let init = friends.drop_last();
        law_newly_marked_members(marked, init, id);
        let prev = newly_marked_spec(marked, init);
        let all = newly_marked_spec(marked, friends);
        let n = friends.len() - 1;
        if all.contains(id) {
            let k = choose|k: int| 0 <= k < all.len() && all[k] == id;
            if !marked.contains(friends.last()) && k == prev.len() {
                assert(friends[n] == id);
            } else {
                assert(prev[k] == id);
                assert(prev.contains(id));
                let i = choose|i: int| 0 <= i < init.len() && init[i] == id;
                assert(friends[i] == id);
            }
        }
        if friends.contains(id) && !marked.contains(id) {
            let i = choose|i: int| 0 <= i < friends.len() && friends[i] == id;
            if i == n {
                assert(all[prev.len() as int] == id);
            } else {
                assert(init[i] == id);
                assert(init.contains(id));
                let k = choose|k: int| 0 <= k < prev.len() && prev[k] == id;
                assert(all[k] == id);
            }
        }
    }
}

/// After a friend-list sync, a stored or listed player is marked exactly when it is in
/// the fetched friend list; dropping a friend only clears its mark.
pub proof fn law_marks_follow_the_friend_list(stored: Seq<StoredFriend>, friends: Seq<Seq<char>>, id: Seq<char>)
    requires
        marks_of(stored).contains_key(id) || friends.contains(id),
    ensures
        marks_after(marks_of(stored), friends, unmarked_spec(stored, friends)).contains_key(id),
        marks_after(marks_of(stored), friends, unmarked_spec(stored, friends))[id] == friends.contains(id),
{
    lemma_unmarked_members(stored, friends, id);
}

} // verus!
