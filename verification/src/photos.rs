//! Rules for local photo folders: which files are photos, which folder owns a photo,
//! where Steam keeps VRChat screenshots, which folders are scanned and watched, and
//! which stored rows a scan removes.

use vstd::prelude::*;
use crate::paths::{
    ancestor_named, app_dir, app_dir_spec, file_name_of, is_plain_name, opt_path, parent_of, FsPath,
    Part,
};
use crate::text::{chars_of, opt_text, push_char, str_eq, str_starts_with, string_of};

verus! {

/// What `str::to_lowercase` gives for `s` (full Unicode lower-casing).
pub uninterp spec fn lowercase(s: Seq<char>) -> Seq<char>;

/// Whether every character of a text is ASCII.
pub open spec fn is_ascii_text(s: Seq<char>) -> bool {
    forall|i: int| 0 <= i < s.len() ==> (#[trigger] s[i] as u32) < 128
}

/// An ASCII character lower-cased: `A`–`Z` become `a`–`z`, the rest stay.
pub open spec fn ascii_lower(c: char) -> char {
    if 'A' <= c && c <= 'Z' {
        ((c as u32) + 32) as char
    } else {
        c
    }
}

/// Calls std's `str::to_lowercase`. Trusted, not proved: the result is `lowercase` of the
/// argument, that is, it depends on the argument alone; on ASCII text it maps `A`–`Z` to
/// `a`–`z` and keeps every other character, as std documents for ASCII. What it does
/// beyond ASCII is not stated.
#[verifier::external_body]
fn to_lowercase(s: &str) -> (r: String)
    ensures
        r@ == lowercase(s@),
        is_ascii_text(s@) ==> r@ == s@.map_values(|c: char| ascii_lower(c)),
{
    s.to_lowercase()
}

/// The index of the last `c` in `s`, if any.
pub open spec fn last_index_of(s: Seq<char>, c: char) -> Option<int>
    decreases s.len(),
{
    if s.len() == 0 {
        None
    } else if s.last() == c {
        Some(s.len() - 1)
    } else {
        last_index_of(s.drop_last(), c)
    }
}

/// The extension of a path (`Path::extension`): the text after the last `.` of the
/// final name, when that dot is not its first character.
pub open spec fn extension_of(p: Seq<Part>) -> Option<Seq<char>> {
    match file_name_of(p) {
        Some(n) => match last_index_of(n, '.') {
            Some(i) => if i > 0 { Some(n.subrange(i + 1, n.len() as int)) } else { None },
            None => None,
        },
        None => None,
    }
}

/// The extensions of the photo files that are indexed.
pub open spec fn is_photo_extension(e: Seq<char>) -> bool {
    e == "jpg"@ || e == "jpeg"@ || e == "png"@ || e == "webp"@
}

/// Whether a path names a photo: its extension, lower-cased, is jpg, jpeg, png or webp.
pub open spec fn is_photo_spec(p: Seq<Part>) -> bool {
    match extension_of(p) {
        Some(e) => is_photo_extension(lowercase(e)),
        None => false,
    }
}

/// For a path whose extension is ASCII text, whether it names a photo follows from the
/// extension with `A`–`Z` lower-cased.
pub open spec fn ascii_photo_rule(p: Seq<Part>) -> bool {
    extension_of(p) matches Some(e) ==> (is_ascii_text(e) ==> (is_photo_spec(p) == is_photo_extension(
        e.map_values(|c: char| ascii_lower(c)),
    )))
}

fn last_dot(cs: &Vec<char>) -> (r: Option<usize>)
    ensures
        match r {
            Some(i) => i < cs@.len() && last_index_of(cs@, '.') == Some(i as int),
            None => last_index_of(cs@, '.') is None,
        },
{
    let mut k: usize = cs.len();
    assert(cs@.take(k as int) =~= cs@);
    while k > 0
        invariant
            k <= cs@.len(),
            last_index_of(cs@.take(k as int), '.') == last_index_of(cs@, '.'),
        decreases k,
    {
        let ghost t = cs@.take(k as int);
        if cs[k - 1] == '.' {
            assert(t.last() == '.');
            return Some(k - 1);
        }
        assert(t.drop_last() =~= cs@.take(k - 1));
        k = k - 1;
    }
    None
}

/// The extension of the path's final name.
pub fn extension(path: &FsPath) -> (r: Option<String>)
    ensures
        opt_text(r) == extension_of(path@),
{
    let name = match path.file_name() {
        Some(n) => n,
        None => {
            return None;
        },
    };
    let cs = chars_of(name.as_str());
    let found = last_dot(&cs);
    match found {
        Some(i) => {
            assert(i < cs.len());
            if i == 0 {
                return None;
            }
            let mut out: Vec<char> = Vec::new();
            let mut k: usize = i + 1;
            while k < cs.len()
                invariant
                    i + 1 <= k <= cs@.len(),
                    out@ == cs@.subrange(i + 1, k as int),
                decreases cs.len() - k,
            {
                out.push(cs[k]);
                k += 1;
                assert(out@ =~= cs@.subrange(i + 1, k as int));
            }
            Some(string_of(&out))
        },
        None => None,
    }
}

/// Whether the path names a photo file (extension jpg, jpeg, png or webp in any case).
pub fn is_photo(path: &FsPath) -> (r: bool)
    ensures
        r == is_photo_spec(path@),
        ascii_photo_rule(path@),
        extension_of(path@) matches Some(e) ==> (is_ascii_text(e) ==> (r <==> {
            let l = e.map_values(|c: char| ascii_lower(c));
            l == "jpg"@ || l == "jpeg"@ || l == "png"@ || l == "webp"@
        })),
{
    match extension(path) {
        Some(e) => {
            let lower = to_lowercase(e.as_str());
            is_photo_extension_text(lower.as_str())
        },
        None => false,
    }
}

/// Whether an (already lower-cased) extension is one of the photo extensions.
pub fn is_photo_extension_text(e: &str) -> (r: bool)
    ensures
        r == is_photo_extension(e@),
        r <==> (e@ == "jpg"@ || e@ == "jpeg"@ || e@ == "png"@ || e@ == "webp"@),
{
    str_eq(e, "jpg") || str_eq(e, "jpeg") || str_eq(e, "png") || str_eq(e, "webp")
}

/// A path whose extension is ASCII text names a photo exactly when that extension, in any
/// case, is `jpg`, `jpeg`, `png` or `webp` (where the ASCII rule of lower-casing holds, as
/// every call of `is_photo` establishes for its path).
pub proof fn law_photo_extensions_in_any_ascii_case(p: Seq<Part>, e: Seq<char>)
    requires
        extension_of(p) == Some(e),
        is_ascii_text(e),
        ascii_photo_rule(p),
    ensures
        is_photo_spec(p) <==> {
            let l = e.map_values(|c: char| ascii_lower(c));
            l == "jpg"@ || l == "jpeg"@ || l == "png"@ || l == "webp"@
        },
{
}

/// The VRChat user that owns a photo by folder: the name of the photo's folder, when it
/// begins with `usr_`.
pub open spec fn owner_of(p: Seq<Part>) -> Option<Seq<char>> {
    match parent_of(p) {
        Some(q) => match file_name_of(q) {
            Some(n) => if "usr_"@.is_prefix_of(n) { Some(n) } else { None },
            None => None,
        },
        None => None,
    }
}

/// The owner of a photo by the folder it lies in (`usr_...` folders only).
pub fn owner_from_path(path: &FsPath) -> (r: Option<String>)
    ensures
        opt_text(r) == owner_of(path@),
{
    let parent = path.parent()?;
    let name = parent.file_name()?;
    if str_starts_with(name.as_str(), "usr_") {
        Some(name)
    } else {
        None
    }
}

/// The Steam install root for a folder the user picked: the folder itself when it holds
/// `userdata`; else the parent of the folder when the folder is `userdata`; else the
/// parent of its nearest `userdata` ancestor; else the folder unchanged.
pub open spec fn normalize_steam_spec(p: Seq<Part>, has_userdata_child: bool) -> Seq<Part> {
    if has_userdata_child {
        p
    } else if file_name_of(p) == Some("userdata"@) && parent_of(p) is Some {
        parent_of(p)->0
    } else if ancestor_named(p, "userdata"@) is Some && parent_of(ancestor_named(p, "userdata"@)->0) is Some {
        parent_of(ancestor_named(p, "userdata"@)->0)->0
    } else {
        p
    }
}

/// Steam install root for a configured folder; `has_userdata_child` tells whether
/// `configured/userdata` is a directory.
pub fn normalize_steam_folder(configured: &FsPath, has_userdata_child: bool) -> (r: FsPath)
    ensures
        r@ == normalize_steam_spec(configured@, has_userdata_child),
{
    if has_userdata_child {
        return configured.duplicate();
    }
    if configured.file_name_is("userdata") {
        if let Some(parent) = configured.parent() {
            return parent;
        }
    }
    if let Some(userdata) = configured.ancestor_named("userdata") {
        if let Some(parent) = userdata.parent() {
            return parent;
        }
    }
    configured.duplicate()
}

/// A folder picked inside a Steam install (at or below a `userdata` component, with only
/// names after it) normalizes to the install root: the path before its last `userdata`
/// component, unless the folder itself holds a `userdata` directory.
pub proof fn law_normalize_deep_steam_path(p: Seq<Part>, i: int)
    requires
        0 <= i < p.len(),
        p[i] == Part::Normal("userdata"@),
        forall|j: int| i < j < p.len() ==> (#[trigger] p[j]) is Normal && p[j] != Part::Normal("userdata"@),
    ensures
        normalize_steam_spec(p, false) == p.take(i),
        normalize_steam_spec(p, true) == p,
{
    lemma_ancestor_is_last_userdata(p, i);
    assert(p.take(i + 1).drop_last() =~= p.take(i));
    if file_name_of(p) == Some("userdata"@) {
        assert(p.last() == Part::Normal("userdata"@));
        assert(i == p.len() - 1);
        assert(p.drop_last() =~= p.take(i));
    }
}

proof fn lemma_ancestor_is_last_userdata(p: Seq<Part>, i: int)
    requires
        0 <= i < p.len(),
        p[i] == Part::Normal("userdata"@),
        forall|j: int| i < j < p.len() ==> (#[trigger] p[j]) is Normal && p[j] != Part::Normal("userdata"@),
    ensures
        ancestor_named(p, "userdata"@) == Some(p.take(i + 1)),
    decreases p.len(),
{
    if i == p.len() - 1 {
        assert(p.take(i + 1) =~= p);
    } else {
        let q = p.drop_last();
        assert(p.last() == p[p.len() - 1]);
        assert forall|j: int| i < j < q.len() implies (#[trigger] q[j]) is Normal && q[j] != Part::Normal("userdata"@) by {
            assert(q[j] == p[j]);
        }
        lemma_ancestor_is_last_userdata(q, i);
        assert(q.take(i + 1) =~= p.take(i + 1));
    }
}

/// The `userdata` folder for a (normalized) Steam folder: the folder itself when named
/// `userdata`; else its `userdata` child when that is a directory; else its nearest
/// `userdata` ancestor.
pub open spec fn userdata_folder_spec(p: Seq<Part>, has_userdata_child: bool) -> Option<Seq<Part>> {
    if file_name_of(p) == Some("userdata"@) {
        Some(p)
    } else if has_userdata_child {
        Some(p.push(Part::Normal("userdata"@)))
    } else {
        ancestor_named(p, "userdata"@)
    }
}

/// The `userdata` folder that holds one folder per Steam user.
pub fn userdata_folder(configured: &FsPath, has_userdata_child: bool) -> (r: Option<FsPath>)
    ensures
        opt_path(r) == userdata_folder_spec(configured@, has_userdata_child),
{
    if configured.file_name_is("userdata") {
        Some(configured.duplicate())
    } else if has_userdata_child {
        proof {
            reveal_strlit("userdata");
            assert("userdata"@ =~= seq!['u', 's', 'e', 'r', 'd', 'a', 't', 'a']);
        }
        Some(configured.join("userdata"))
    } else {
        configured.ancestor_named("userdata")
    }
}

/// Where Steam keeps VRChat screenshots of one Steam user.
pub open spec fn screenshot_folder_spec(user_dir: Seq<Part>) -> Seq<Part> {
    user_dir.push(Part::Normal("760"@)).push(Part::Normal("remote"@)).push(
        Part::Normal("438100"@),
    ).push(Part::Normal("screenshots"@))
}

/// `user_dir/760/remote/438100/screenshots`.
pub fn screenshot_folder(user_dir: &FsPath) -> (r: FsPath)
    ensures
        r@ == screenshot_folder_spec(user_dir@),
{
    proof {
        reveal_strlit("760");
        reveal_strlit("remote");
        reveal_strlit("438100");
        reveal_strlit("screenshots");
        assert("760"@ =~= seq!['7', '6', '0']);
        assert("remote"@ =~= seq!['r', 'e', 'm', 'o', 't', 'e']);
        assert("438100"@ =~= seq!['4', '3', '8', '1', '0', '0']);
        assert("screenshots"@ =~= seq!['s', 'c', 'r', 'e', 'e', 'n', 's', 'h', 'o', 't', 's']);
    }
    user_dir.join("760").join("remote").join("438100").join("screenshots")
}

/// A folder found in the `userdata` folder, whether it is a directory, and whether its
/// screenshot folder (`screenshot_folder`) is a directory.
pub type UserFolder = (FsPath, bool, bool);

/// Whether a folder found in `userdata` yields a screenshot folder: it is a directory and
/// so is its screenshot folder.
pub open spec fn yields_screenshots(u: UserFolder) -> bool {
    u.1 && u.2
}

/// The screenshot folders of the Steam user folders that yield one, in the order given.
pub open spec fn user_screenshot_folders(users: Seq<UserFolder>) -> Seq<Seq<Part>>
    decreases users.len(),
{
    if users.len() == 0 {
        seq![]
    } else {
        let prev = user_screenshot_folders(users.drop_last());
        if yields_screenshots(users.last()) {
            prev.push(screenshot_folder_spec(users.last().0@))
        } else {
            prev
        }
    }
}

/// The Steam screenshot folders of a (normalized) configured folder. Without a
/// `userdata` folder (`users` is `None`) it is the configured folder itself, if it exists;
/// else it is `760/remote/438100/screenshots` of each folder in `userdata` that is a
/// directory and whose screenshot folder is a directory, in the order given.
pub fn steam_screenshot_folders(
    configured: &FsPath,
    configured_exists: bool,
    users: Option<Vec<UserFolder>>,
) -> (r: Vec<FsPath>)
    ensures
        users is None && configured_exists ==> r@.map_values(|p: FsPath| p@) == seq![configured@],
        users is None && !configured_exists ==> r@.len() == 0,
        users is Some ==> r@.map_values(|p: FsPath| p@) == user_screenshot_folders(users->0@),
{
    match users {
        None => {
            let mut out: Vec<FsPath> = Vec::new();
            if configured_exists {
                out.push(configured.duplicate());
                assert(out@.map_values(|p: FsPath| p@) =~= seq![configured@]);
            }
            out
        },
        Some(found) => {
            let mut out: Vec<FsPath> = Vec::new();
            let mut i: usize = 0;
            while i < found.len()
                invariant
                    i <= found@.len(),
                    out@.map_values(|p: FsPath| p@) == user_screenshot_folders(found@.take(i as int)),
                decreases found.len() - i,
            {
                assert(found@.take(i + 1).drop_last() =~= found@.take(i as int));
                assert(found@.take(i + 1).last() == found@[i as int]);
                if found[i].1 && found[i].2 {
                    let ghost prev = out@.map_values(|p: FsPath| p@);
                    out.push(screenshot_folder(&found[i].0));
                    assert(out@.map_values(|p: FsPath| p@) =~= prev.push(screenshot_folder_spec(found@[i as int].0@)));
                }
                i += 1;
            }
            assert(found@.take(found@.len() as int) =~= found@);
            out
        },
    }
}

proof fn lemma_screenshot_folder_injective(a: Seq<Part>, b: Seq<Part>)
    requires
        screenshot_folder_spec(a) == screenshot_folder_spec(b),
    ensures
        a == b,
{
    let sa = screenshot_folder_spec(a);
    let sb = screenshot_folder_spec(b);
    assert(sa.len() == a.len() + 4);
    assert(sb.len() == b.len() + 4);
    assert(a =~= sa.subrange(0, a.len() as int));
    assert(b =~= sb.subrange(0, b.len() as int));
}

proof fn lemma_user_screenshot_members(users: Seq<UserFolder>)
    ensures
        forall|x: Seq<Part>| #[trigger] user_screenshot_folders(users).contains(x) <==> exists|j: int|
            0 <= j < users.len() && yields_screenshots(#[trigger] users[j]) && x == screenshot_folder_spec(users[j].0@),
    decreases users.len(),
{
    if users.len() > 0 {
        let init = users.drop_last();
        lemma_user_screenshot_members(init);
        let prev = user_screenshot_folders(init);
        let all = user_screenshot_folders(users);
        let n = users.len() - 1;
        assert forall|x: Seq<Part>| #[trigger] all.contains(x) <==> exists|j: int|
            0 <= j < users.len() && yields_screenshots(#[trigger] users[j]) && x == screenshot_folder_spec(users[j].0@) by {
            if all.contains(x) {
                let k = choose|k: int| 0 <= k < all.len() && all[k] == x;
                if yields_screenshots(users[n]) && k == prev.len() {
                    assert(users[n] == users.last());
                } else {
                    assert(prev[k] == x);
                    assert(prev.contains(x));
                    let j = choose|j: int| 0 <= j < init.len() && yields_screenshots(#[trigger] init[j]) && x
                        == screenshot_folder_spec(init[j].0@);
                    assert(init[j] == users[j]);
                }
            }
            if exists|j: int| 0 <= j < users.len() && yields_screenshots(#[trigger] users[j]) && x == screenshot_folder_spec(users[j].0@) {
                let j = choose|j: int| 0 <= j < users.len() && yields_screenshots(#[trigger] users[j]) && x
                    == screenshot_folder_spec(users[j].0@);
                if j == n {
                    assert(all[prev.len() as int] == x);
                } else {
                    assert(init[j] == users[j]);
                    assert(prev.contains(x));
                    let k = choose|k: int| 0 <= k < prev.len() && prev[k] == x;
                    assert(all[k] == x);
                }
            }
        }
    }
}

proof fn lemma_user_screenshot_distinct(users: Seq<UserFolder>)
    requires
        forall|i: int, j: int| 0 <= i < j < users.len() ==> (#[trigger] users[i]).0@ != (#[trigger] users[j]).0@,
    ensures
        user_screenshot_folders(users).no_duplicates(),
    decreases users.len(),
{
    if users.len() > 0 {
        let init = users.drop_last();
        assert forall|i: int, j: int| 0 <= i < j < init.len() implies (#[trigger] init[i]).0@ != (#[trigger] init[j]).0@ by {
            assert(init[i] == users[i]);
            assert(init[j] == users[j]);
        }
        lemma_user_screenshot_distinct(init);
        lemma_user_screenshot_members(init);
        let prev = user_screenshot_folders(init);
        let all = user_screenshot_folders(users);
        let n = users.len() - 1;
        if yields_screenshots(users.last()) {
            let x = screenshot_folder_spec(users.last().0@);
            assert(!prev.contains(x)) by {
                if prev.contains(x) {
                    let j = choose|j: int| 0 <= j < init.len() && yields_screenshots(#[trigger] init[j]) && x
                        == screenshot_folder_spec(init[j].0@);
                    lemma_screenshot_folder_injective(init[j].0@, users.last().0@);
                    assert(init[j] == users[j]);
                    assert(users[j].0@ != users[n].0@);
                }
            }
            assert forall|a: int, b: int| 0 <= a < all.len() && 0 <= b < all.len() && a != b implies all[a] != all[b] by {
                if a == prev.len() {
                    assert(prev[b] == all[b]);
                } else if b == prev.len() {
                    assert(prev[a] == all[a]);
                } else {
                    assert(prev[a] == all[a]);
                    assert(prev[b] == all[b]);
                }
            }
        }
    }
}

/// The Steam screenshot folders found through `userdata` are exactly
/// `d/760/remote/438100/screenshots` for the user folders `d` that are directories and
/// whose screenshot folder is a directory; and, the user folders being distinct (as the
/// entries of one folder are), no folder comes twice.
pub proof fn law_steam_screenshot_folders(users: Seq<UserFolder>)
    ensures
        forall|x: Seq<Part>| #[trigger] user_screenshot_folders(users).contains(x) <==> exists|j: int|
            0 <= j < users.len() && yields_screenshots(#[trigger] users[j]) && x == screenshot_folder_spec(users[j].0@),
        (forall|i: int, j: int| 0 <= i < j < users.len() ==> (#[trigger] users[i]).0@ != (#[trigger] users[j]).0@)
            ==> user_screenshot_folders(users).no_duplicates(),
{
    lemma_user_screenshot_members(users);
    if forall|i: int, j: int| 0 <= i < j < users.len() ==> (#[trigger] users[i]).0@ != (#[trigger] users[j]).0@ {
        lemma_user_screenshot_distinct(users);
    }
}

/// A folder to scan or watch, with its photo kind and whether sub-folders count.
#[derive(Debug, PartialEq, Eq)]
pub struct FolderTarget {
    pub path: FsPath,
    pub kind: String,
    pub recursive: bool,
}

/// Whether a kind is the Steam screenshot kind.
pub open spec fn is_screenshot_kind(kind: Seq<char>) -> bool {
    kind == "screenshot"@
}

/// Whether folders of a kind follow the Steam layout (the screenshot kind).
pub fn scans_steam_layout(kind: &str) -> (r: bool)
    ensures
        r == is_screenshot_kind(kind@),
{
    str_eq(kind, "screenshot")
}

/// The folders that a configured folder stands for: for screenshots, every Steam user's
/// screenshot folder, without sub-folders; for any other kind, the folder itself with
/// its sub-folders.
pub open spec fn folder_targets_spec(root: Seq<Part>, kind: Seq<char>, steam_folders: Seq<Seq<Part>>) -> Seq<(Seq<Part>, Seq<char>, bool)> {
    if is_screenshot_kind(kind) {
        steam_folders.map_values(|f: Seq<Part>| (f, kind, false))
    } else {
        seq![(root, kind, true)]
    }
}

/// The view of a folder target.
pub open spec fn target_view(t: FolderTarget) -> (Seq<Part>, Seq<char>, bool) {
    (t.path@, t.kind@, t.recursive)
}

/// The views of a list of folder targets.
pub open spec fn targets_view(ts: Seq<FolderTarget>) -> Seq<(Seq<Part>, Seq<char>, bool)> {
    ts.map_values(|t: FolderTarget| target_view(t))
}

/// The folders to scan or watch for a configured folder of a kind; `steam_folders` are the
/// Steam screenshot folders found for it (used for the screenshot kind only).
pub fn configured_folder_targets(root: &FsPath, kind: &str, steam_folders: &Vec<FsPath>) -> (r: Vec<FolderTarget>)
    ensures
        targets_view(r@) == folder_targets_spec(root@, kind@, steam_folders@.map_values(|p: FsPath| p@)),
{
    let mut out: Vec<FolderTarget> = Vec::new();
    if str_eq(kind, "screenshot") {
        let mut i: usize = 0;
        while i < steam_folders.len()
            invariant
                i <= steam_folders@.len(),
                kind@ == "screenshot"@,
                out@.len() == i,
                forall|j: int| 0 <= j < i ==> target_view(#[trigger] out@[j]) == (steam_folders@[j]@, kind@, false),
            decreases steam_folders.len() - i,
        {
            out.push(FolderTarget { path: steam_folders[i].duplicate(), kind: kind.to_owned(), recursive: false });
            i += 1;
        }
        assert(targets_view(out@) =~= folder_targets_spec(root@, kind@, steam_folders@.map_values(|p: FsPath| p@)));
    } else {
        out.push(FolderTarget { path: root.duplicate(), kind: kind.to_owned(), recursive: true });
        assert(targets_view(out@) =~= folder_targets_spec(root@, kind@, steam_folders@.map_values(|p: FsPath| p@)));
    }
    out
}


/// The set of folders that already have a watcher.
pub struct WatchRegistry {
    watched: Vec<FsPath>,
}

impl View for WatchRegistry {
    type V = Set<Seq<Part>>;

    closed spec fn view(&self) -> Set<Seq<Part>> {
        Set::new(|q: Seq<Part>| exists|i: int| 0 <= i < self.watched@.len() && (#[trigger] self.watched@[i])@ == q)
    }
}

impl WatchRegistry {
    /// A registry with no folder in it.
    pub fn new() -> (r: WatchRegistry)
        ensures
            r@ == Set::<Seq<Part>>::empty(),
    {
        let r = WatchRegistry { watched: Vec::new() };
        assert(r@ =~= Set::<Seq<Part>>::empty());
        r
    }

    /// Whether a folder already has a watcher.
    pub fn contains(&self, folder: &FsPath) -> (r: bool)
        ensures
            r == self@.contains(folder@),
    {
        let mut i: usize = 0;
        while i < self.watched.len()
            invariant
                i <= self.watched@.len(),
                forall|k: int| 0 <= k < i ==> (#[trigger] self.watched@[k])@ != folder@,
            decreases self.watched.len() - i,
        {
            if self.watched[i].same(folder) {
                assert(self@.contains(folder@)) by {
                    assert(self.watched@[i as int]@ == folder@);
                }
                return true;
            }
            i += 1;
        }
        false
    }

    /// Records a folder; `true` when it had no watcher before (`HashSet::insert`).
    pub fn insert(&mut self, folder: FsPath) -> (r: bool)
        ensures
            r == !old(self)@.contains(folder@),
            final(self)@ == old(self)@.insert(folder@),
    {
        if self.contains(&folder) {
            assert(self@ =~= self@.insert(folder@));
            return false;
        }
        let ghost before = self@;
        let ghost f = folder@;
        let ghost old_w = self.watched@;
        self.watched.push(folder);
        assert(self.watched@ == old_w.push(self.watched@[old_w.len() as int]));
        assert(self@ =~= before.insert(f)) by {
            assert forall|q: Seq<Part>| before.insert(f).contains(q) implies self@.contains(q) by {
                if q == f {
                    assert(self.watched@[old_w.len() as int]@ == q);
                } else {
                    let i = choose|i: int| 0 <= i < old_w.len() && (#[trigger] old_w[i])@ == q;
                    assert(self.watched@[i] == old_w[i]);
                }
            }
            assert forall|q: Seq<Part>| self@.contains(q) implies before.insert(f).contains(q) by {
                let i = choose|i: int| 0 <= i < self.watched@.len() && (#[trigger] self.watched@[i])@ == q;
                if i < old_w.len() {
                    assert(self.watched@[i] == old_w[i]);
                    assert(before.contains(q));
                }
            }
        }
        true
    }
}

/// The targets that get a new watcher, in order: a target whose folder is already
/// watched, or was watched by an earlier target of the list, gets none.
pub open spec fn new_watches(watched: Set<Seq<Part>>, targets: Seq<(Seq<Part>, Seq<char>, bool)>) -> Seq<(Seq<Part>, Seq<char>, bool)>
    decreases targets.len(),
{
    if targets.len() == 0 {
        seq![]
    } else {
        let t = targets[0];
        if watched.contains(t.0) {
            new_watches(watched, targets.drop_first())
        } else {
            seq![t] + new_watches(watched.insert(t.0), targets.drop_first())
        }
    }
}

/// The folders of a list of targets.
pub open spec fn target_folders(targets: Seq<(Seq<Part>, Seq<char>, bool)>) -> Set<Seq<Part>> {
    Set::new(|q: Seq<Part>| exists|i: int| 0 <= i < targets.len() && (#[trigger] targets[i]).0 == q)
}

/// Registers the folders that a configured folder stands for and returns those that need
/// a new watcher (a folder is watched once, whatever kind asked for it).
pub fn watch_configured_folder(
    registry: &mut WatchRegistry,
    root: &FsPath,
    kind: &str,
    steam_folders: &Vec<FsPath>,
) -> (r: Vec<FolderTarget>)
    ensures
        targets_view(r@) == new_watches(
            old(registry)@,
            folder_targets_spec(root@, kind@, steam_folders@.map_values(|p: FsPath| p@)),
        ),
        final(registry)@ == old(registry)@.union(
            target_folders(folder_targets_spec(root@, kind@, steam_folders@.map_values(|p: FsPath| p@))),
        ),
{
    let targets = configured_folder_targets(root, kind, steam_folders);
    let ghost all = targets_view(targets@);
    let ghost start = registry@;
    let mut out: Vec<FolderTarget> = Vec::new();
    let mut i: usize = 0;
    assert(all.skip(0) =~= all);
    assert(targets_view(out@) =~= Seq::<(Seq<Part>, Seq<char>, bool)>::empty());
    while i < targets.len()
        invariant
            i <= targets@.len(),
            all == targets_view(targets@),
            targets_view(out@) + new_watches(registry@, all.skip(i as int)) == new_watches(start, all),
            registry@ == start.union(target_folders(all.take(i as int))),
        decreases targets.len() - i,
    {
        let t = &targets[i];
        let ghost rest = all.skip(i as int);
        assert(rest[0] == target_view(targets@[i as int]));
        assert(rest.drop_first() =~= all.skip(i + 1));
        let ghost before = registry@;
        assert(rest[0].0 == t.path@);
        assert(new_watches(before, rest) == if before.contains(rest[0].0) {
            new_watches(before, rest.drop_first())
        } else {
            seq![rest[0]] + new_watches(before.insert(rest[0].0), rest.drop_first())
        });
        let inserted = registry.insert(t.path.duplicate());
        proof {
            if !inserted {
                assert(registry@ =~= before);
            }
        }
        proof {
            assert(target_folders(all.take(i + 1)) =~= target_folders(all.take(i as int)).insert(all[i as int].0)) by {
                assert forall|q: Seq<Part>| target_folders(all.take(i + 1)).contains(q) implies target_folders(all.take(i as int)).insert(all[i as int].0).contains(q) by {
                    let k = choose|k: int| 0 <= k < all.take(i + 1).len() && (#[trigger] all.take(i + 1)[k]).0 == q;
                    if k < i {
                        assert(all.take(i as int)[k] == all.take(i + 1)[k]);
                    }
                }
                assert forall|q: Seq<Part>| target_folders(all.take(i as int)).insert(all[i as int].0).contains(q) implies target_folders(all.take(i + 1)).contains(q) by {
                    if q == all[i as int].0 {
                        assert(all.take(i + 1)[i as int] == all[i as int]);
                    } else {
                        let k = choose|k: int| 0 <= k < all.take(i as int).len() && (#[trigger] all.take(i as int)[k]).0 == q;
                        assert(all.take(i + 1)[k] == all.take(i as int)[k]);
                    }
                }
            }
            assert(registry@ =~= start.union(target_folders(all.take(i + 1))));
        }
        if inserted {
            let ghost prev = targets_view(out@);
            out.push(FolderTarget { path: t.path.duplicate(), kind: t.kind.clone(), recursive: t.recursive });
            assert(targets_view(out@) =~= prev.push(rest[0]));
            assert(prev.push(rest[0]) + new_watches(registry@, all.skip(i + 1)) =~= prev + (seq![rest[0]] + new_watches(registry@, all.skip(i + 1))));
        }
        i += 1;
    }
    assert(all.take(all.len() as int) =~= all);
    assert(targets_view(out@) =~= targets_view(out@) + new_watches(registry@, all.skip(i as int)));
    out
}

/// Once every folder of a list is watched, the list gets no new watcher.
pub proof fn lemma_watched_targets_need_nothing(watched: Set<Seq<Part>>, targets: Seq<(Seq<Part>, Seq<char>, bool)>)
    requires
        target_folders(targets).subset_of(watched),
    ensures
        new_watches(watched, targets) == Seq::<(Seq<Part>, Seq<char>, bool)>::empty(),
    decreases targets.len(),
{
    if targets.len() > 0 {
        assert(target_folders(targets).contains(targets[0].0));
        let rest = targets.drop_first();
        assert(target_folders(rest).subset_of(watched)) by {
            assert forall|q: Seq<Part>| target_folders(rest).contains(q) implies watched.contains(q) by {
                let k = choose|k: int| 0 <= k < rest.len() && (#[trigger] rest[k]).0 == q;
                assert(targets[k + 1] == rest[k]);
                assert(target_folders(targets).contains(q));
            }
        }
        lemma_watched_targets_need_nothing(watched, rest);
    }
}

/// Asking to watch the same configured folder a second time starts no new watcher: the
/// registry then holds every folder that the first request named.
pub proof fn law_watch_is_idempotent(
    watched: Set<Seq<Part>>,
    root: Seq<Part>,
    kind: Seq<char>,
    steam_folders: Seq<Seq<Part>>,
)
    ensures
        new_watches(
            watched.union(target_folders(folder_targets_spec(root, kind, steam_folders))),
            folder_targets_spec(root, kind, steam_folders),
        ) == Seq::<(Seq<Part>, Seq<char>, bool)>::empty(),
{
    lemma_watched_targets_need_nothing(
        watched.union(target_folders(folder_targets_spec(root, kind, steam_folders))),
        folder_targets_spec(root, kind, steam_folders),
    );
}


/// What a folder scan does with one directory entry.
#[derive(Debug, PartialEq, Eq)]
pub enum EntryAction {
    /// Scan the sub-folder too.
    Descend,
    /// Index the photo file.
    Index,
    /// Leave the entry alone.
    Skip,
}

/// A sub-folder is scanned only when the scan is recursive; a file is indexed only when
/// it is a photo.
pub fn scan_entry(path: &FsPath, is_dir: bool, recursive: bool) -> (r: EntryAction)
    ensures
        is_dir && recursive ==> r is Descend,
        is_dir && !recursive ==> r is Skip,
        !is_dir && is_photo_spec(path@) ==> r is Index,
        !is_dir && !is_photo_spec(path@) ==> r is Skip,
        !is_dir ==> ascii_photo_rule(path@),
{
    if is_dir {
        if recursive {
            EntryAction::Descend
        } else {
            EntryAction::Skip
        }
    } else if is_photo(path) {
        EntryAction::Index
    } else {
        EntryAction::Skip
    }
}

/// The walk of one folder scan: the folders still to list, starting with the root.
pub struct FolderScan {
    root: FsPath,
    recursive: bool,
    pending: Vec<FsPath>,
}

/// The mathematical form of a folder scan: root, recursion, folders still to list.
pub struct FolderScanView {
    pub root: Seq<Part>,
    pub recursive: bool,
    pub pending: Seq<Seq<Part>>,
}

impl View for FolderScan {
    type V = FolderScanView;

    closed spec fn view(&self) -> FolderScanView {
        FolderScanView {
            root: self.root@,
            recursive: self.recursive,
            pending: self.pending@.map_values(|p: FsPath| p@),
        }
    }
}

impl FolderScan {
    /// A scan that never descends lists nothing but its root.
    #[verifier::type_invariant]
    spec fn only_root_unless_recursive(self) -> bool {
        !self.recursive ==> forall|i: int| 0 <= i < self.pending@.len() ==> (#[trigger] self.pending@[i])@ == self.root@
    }

    /// A scan of `root` that has not listed any folder yet.
    pub fn new(root: FsPath, recursive: bool) -> (r: FolderScan)
        ensures
            r@.root == root@,
            r@.recursive == recursive,
            r@.pending == seq![root@],
    {
        let mut pending: Vec<FsPath> = Vec::new();
        pending.push(root.duplicate());
        let r = FolderScan { root, recursive, pending };
        assert(r@.pending =~= seq![root@]);
        r
    }

    /// The next folder to list (the one found last), or none when the walk is over. A scan
    /// that is not recursive only ever lists its root.
    pub fn next_folder(&mut self) -> (r: Option<FsPath>)
        ensures
            final(self)@.root == old(self)@.root,
            final(self)@.recursive == old(self)@.recursive,
            old(self)@.pending.len() == 0 ==> r is None && final(self)@.pending == old(self)@.pending,
            old(self)@.pending.len() > 0 ==> opt_path(r) == Some(old(self)@.pending.last())
                && final(self)@.pending == old(self)@.pending.drop_last(),
            !old(self)@.recursive && r is Some ==> r->0@ == old(self)@.root,
    {
        proof {
            use_type_invariant(&*self);
        }
        let mut pending: Vec<FsPath> = Vec::new();
        std::mem::swap(&mut pending, &mut self.pending);
        let r = pending.pop();
        self.pending = pending;
        proof {
            if old(self)@.pending.len() > 0 {
                assert(self@.pending =~= old(self)@.pending.drop_last());
            }
        }
        r
    }

    /// Handles one entry of a listed folder: a sub-folder is queued when the scan is
    /// recursive; a photo file is to be indexed.
    pub fn visit(&mut self, path: FsPath, is_dir: bool) -> (r: EntryAction)
        ensures
            final(self)@.root == old(self)@.root,
            final(self)@.recursive == old(self)@.recursive,
            is_dir && old(self)@.recursive ==> r is Descend && final(self)@.pending == old(self)@.pending.push(path@),
            is_dir && !old(self)@.recursive ==> r is Skip && final(self)@.pending == old(self)@.pending,
            !is_dir && is_photo_spec(path@) ==> r is Index && final(self)@.pending == old(self)@.pending,
            !is_dir && !is_photo_spec(path@) ==> r is Skip && final(self)@.pending == old(self)@.pending,
            !is_dir ==> ascii_photo_rule(path@),
    {
        proof {
            use_type_invariant(&*self);
        }
        let action = scan_entry(&path, is_dir, self.recursive);
        if let EntryAction::Descend = action {
            let ghost before = self@.pending;
            let mut pending: Vec<FsPath> = Vec::new();
            std::mem::swap(&mut pending, &mut self.pending);
            pending.push(path);
            self.pending = pending;
            assert(self@.pending =~= before.push(path@));
        }
        action
    }
}

/// A stored local photo: its row id, its path as components and as text.
#[derive(Debug, PartialEq, Eq)]
pub struct LocalRow {
    pub id: i64,
    pub path: FsPath,
    pub local_path: String,
}

/// Whether a stored row is stale after a scan of `root` that saw `seen`: it lies under
/// `root` and was not seen.
pub open spec fn is_stale(path: Seq<Part>, local_path: Seq<char>, root: Seq<Part>, seen: Seq<Seq<char>>) -> bool {
    root.is_prefix_of(path) && !seen.contains(local_path)
}

/// The ids of the stale rows, in row order.
pub open spec fn stale_ids(rows: Seq<LocalRow>, root: Seq<Part>, seen: Seq<Seq<char>>) -> Seq<i64>
    decreases rows.len(),
{
    if rows.len() == 0 {
        seq![]
    } else {
        let prev = stale_ids(rows.drop_last(), root, seen);
        let r = rows.last();
        if is_stale(r.path@, r.local_path@, root, seen) {
            prev.push(r.id)
        } else {
            prev
        }
    }
}

fn seen_contains(seen: &Vec<String>, path: &str) -> (r: bool)
    ensures
        r == seen@.map_values(|s: String| s@).contains(path@),
{
    let ghost sv = seen@.map_values(|s: String| s@);
    let mut i: usize = 0;
    while i < seen.len()
        invariant
            i <= seen@.len(),
            sv == seen@.map_values(|s: String| s@),
            forall|k: int| 0 <= k < i ==> sv[k] != path@,
        decreases seen.len() - i,
    {
        if str_eq(seen[i].as_str(), path) {
            assert(sv[i as int] == path@);
            return true;
        }
        i += 1;
    }
    false
}

/// A scan of `root` that saw `seen` drops a row id exactly when some row with that id
/// lies under `root` and its path text was not seen.
pub proof fn law_stale_rows(rows: Seq<LocalRow>, root: Seq<Part>, seen: Seq<Seq<char>>, id: i64)
    ensures
        stale_ids(rows, root, seen).contains(id) <==> exists|i: int|
            0 <= i < rows.len() && (#[trigger] rows[i]).id == id && root.is_prefix_of(rows[i].path@)
                && !seen.contains(rows[i].local_path@),
    decreases rows.len(),
{
    if rows.len() > 0 {
        let init = rows.drop_last();
        law_stale_rows(init, root, seen, id);
        let prev = stale_ids(init, root, seen);
        let all = stale_ids(rows, root, seen);
        let n = rows.len() - 1;
        let last = rows.last();
        let hit = root.is_prefix_of(last.path@) && !seen.contains(last.local_path@);
        if all.contains(id) {
            let k = choose|k: int| 0 <= k < all.len() && all[k] == id;
            if hit && k == prev.len() {
                assert(rows[n] == last);
            } else {
                assert(prev[k] == id);
                assert(prev.contains(id));
                let i = choose|i: int| 0 <= i < init.len() && (#[trigger] init[i]).id == id && root.is_prefix_of(
                    init[i].path@,
                ) && !seen.contains(init[i].local_path@);
                assert(rows[i] == init[i]);
            }
        }
        if exists|i: int| 0 <= i < rows.len() && (#[trigger] rows[i]).id == id && root.is_prefix_of(rows[i].path@)
            && !seen.contains(rows[i].local_path@) {
            let i = choose|i: int| 0 <= i < rows.len() && (#[trigger] rows[i]).id == id && root.is_prefix_of(
                rows[i].path@,
            ) && !seen.contains(rows[i].local_path@);
            if i == n {
                assert(all[prev.len() as int] == id);
            } else {
                assert(init[i] == rows[i]);
                assert(prev.contains(id));
                let k = choose|k: int| 0 <= k < prev.len() && prev[k] == id;
                assert(all[k] == id);
            }
        }
    }
}

/// The rows that a scan of `root` drops: those under `root` whose file the scan did not
/// see (missing files, or files in sub-folders that the scan skips).
pub fn reconcile_local_under_root(rows: &Vec<LocalRow>, root: &FsPath, seen: &Vec<String>) -> (r: Vec<i64>)
    ensures
        r@ == stale_ids(rows@, root@, seen@.map_values(|s: String| s@)),
        forall|id: i64| #[trigger] r@.contains(id) <==> exists|i: int|
            0 <= i < rows@.len() && (#[trigger] rows@[i]).id == id && root@.is_prefix_of(rows@[i].path@)
                && !seen@.map_values(|s: String| s@).contains(rows@[i].local_path@),
{
    let ghost sv = seen@.map_values(|s: String| s@);
    let mut out: Vec<i64> = Vec::new();
    let mut i: usize = 0;
    while i < rows.len()
        invariant
            i <= rows@.len(),
            sv == seen@.map_values(|s: String| s@),
            out@ == stale_ids(rows@.take(i as int), root@, sv),
        decreases rows.len() - i,
    {
        let row = &rows[i];
        assert(rows@.take(i + 1).drop_last() =~= rows@.take(i as int));
        assert(rows@.take(i + 1).last() == rows@[i as int]);
        if row.path.starts_with(root) && !seen_contains(seen, row.local_path.as_str()) {
            out.push(row.id);
        }
        i += 1;
    }
    assert(rows@.take(rows@.len() as int) =~= rows@);
    proof {
        assert forall|id: i64| #[trigger] out@.contains(id) <==> exists|i: int|
            0 <= i < rows@.len() && (#[trigger] rows@[i]).id == id && root@.is_prefix_of(rows@[i].path@)
                && !sv.contains(rows@[i].local_path@) by {
            law_stale_rows(rows@, root@, sv, id);
        }
    }
    out
}

/// The ids of stored local photos whose file is gone, in row order.
pub open spec fn missing_ids(rows: Seq<(i64, bool)>) -> Seq<i64>
    decreases rows.len(),
{
    if rows.len() == 0 {
        seq![]
    } else {
        let prev = missing_ids(rows.drop_last());
        if !rows.last().1 {
            prev.push(rows.last().0)
        } else {
            prev
        }
    }
}

/// The rows whose path is no longer a file, in order.
pub open spec fn gone_rows(rows: Seq<(i64, bool)>) -> Seq<(i64, bool)> {
    rows.filter(|x: (i64, bool)| !x.1)
}

/// The photos dropped for a missing file are the ids of exactly the rows whose path is
/// not a file, each once per row, in row order.
pub proof fn law_missing_rows(rows: Seq<(i64, bool)>)
    ensures
        missing_ids(rows) == gone_rows(rows).map_values(|x: (i64, bool)| x.0),
    decreases rows.len(),
{
    reveal(Seq::filter);
    if rows.len() > 0 {
        let init = rows.drop_last();
        law_missing_rows(init);
        assert(gone_rows(rows) == (if !rows.last().1 {
            gone_rows(init).push(rows.last())
        } else {
            gone_rows(init)
        }));
        if !rows.last().1 {
            assert(gone_rows(rows).map_values(|x: (i64, bool)| x.0) =~= gone_rows(init).map_values(
                |x: (i64, bool)| x.0,
            ).push(rows.last().0));
        }
    }
}

/// The stored local photos to drop because their file is gone; each row pairs an id with
/// whether its path is a file.
pub fn prune_missing_local_photos(rows: &Vec<(i64, bool)>) -> (r: Vec<i64>)
    ensures
        r@ == missing_ids(rows@),
        r@ == gone_rows(rows@).map_values(|x: (i64, bool)| x.0),
{
    proof {
        law_missing_rows(rows@);
    }
    let mut out: Vec<i64> = Vec::new();
    let mut i: usize = 0;
    while i < rows.len()
        invariant
            i <= rows@.len(),
            out@ == missing_ids(rows@.take(i as int)),
        decreases rows.len() - i,
    {
        assert(rows@.take(i + 1).drop_last() =~= rows@.take(i as int));
        assert(rows@.take(i + 1).last() == rows@[i as int]);
        let (id, is_file) = rows[i];
        if !is_file {
            out.push(id);
        }
        i += 1;
    }
    assert(rows@.take(rows@.len() as int) =~= rows@);
    out
}

/// Whether a character is replaced in thumbnail file names.
pub open spec fn is_separator_char(c: char) -> bool {
    c == '\\' || c == '/' || c == ':'
}

/// The path text with every `\`, `/` and `:` replaced by `_`.
pub open spec fn thumbnail_stem_spec(path_text: Seq<char>) -> Seq<char> {
    Seq::new(path_text.len(), |i: int| if is_separator_char(path_text[i]) { '_' } else { path_text[i] })
}

/// The thumbnail file name stem for a photo path.
pub fn thumbnail_stem(path_text: &str) -> (r: String)
    ensures
        r@ == thumbnail_stem_spec(path_text@),
{
    let cs = chars_of(path_text);
    let mut out = String::new();
    let mut i: usize = 0;
    while i < cs.len()
        invariant
            i <= cs@.len(),
            cs@ == path_text@,
            out@ == thumbnail_stem_spec(path_text@).take(i as int),
        decreases cs.len() - i,
    {
        let c = cs[i];
        if c == '\\' || c == '/' || c == ':' {
            push_char(&mut out, '_');
        } else {
            push_char(&mut out, c);
        }
        i += 1;
        assert(out@ =~= thumbnail_stem_spec(path_text@).take(i as int));
    }
    assert(thumbnail_stem_spec(path_text@).take(cs@.len() as int) =~= thumbnail_stem_spec(path_text@));
    out
}

/// The thumbnail cache folder: `thumbnails` in the application's data folder.
pub open spec fn cache_dir_spec(data_dir: Option<Seq<Part>>) -> Seq<Part> {
    app_dir_spec(data_dir).push(Part::Normal("thumbnails"@))
}

/// The thumbnail cache folder for the platform data folder (`.` when there is none).
pub fn cache_dir(data_dir: Option<FsPath>) -> (r: FsPath)
    ensures
        r@ == cache_dir_spec(opt_path(data_dir)),
{
    proof {
        reveal_strlit("thumbnails");
        assert("thumbnails"@ =~= seq!['t', 'h', 'u', 'm', 'b', 'n', 'a', 'i', 'l', 's']);
    }
    app_dir(data_dir).join("thumbnails")
}

/// The cached thumbnail of a photo: `<stem>.jpg` in the cache folder.
pub fn thumbnail_file(cache: &FsPath, path_text: &str) -> (r: FsPath)
    ensures
        r@ == cache@.push(Part::Normal(thumbnail_stem_spec(path_text@) + ".jpg"@)),
{
    let mut name = thumbnail_stem(path_text);
    let ghost stem = name@;
    name.append(".jpg");
    proof {
        reveal_strlit(".jpg");
        assert(".jpg"@ =~= seq!['.', 'j', 'p', 'g']);
        let n = name@;
        assert(n.len() >= 4);
        assert(n[n.len() - 1] == 'g');
        assert(n != seq!['.']);
        assert(n != seq!['.', '.']);
        assert forall|i: int| 0 <= i < n.len() implies #[trigger] n[i] != '/' && n[i] != '\\' && n[i] != ':' by {
            if i < stem.len() {
                assert(n[i] == stem[i]);
            } else {
                assert(n[i] == ".jpg"@[i - stem.len()]);
            }
        }
        assert(is_plain_name(n));
    }
    cache.join(name.as_str())
}

/// A link between a photo and a player that indexing asks for: inserted only where the
/// pair is not stored yet (an existing pair is left as it was).
#[derive(Debug, PartialEq, Eq)]
pub struct PhotoLink {
    pub user_id: String,
    /// How the link was made: `folder` for a photo in the player's `usr_` folder.
    pub source: String,
    pub confirmed: bool,
}

/// The row that indexing a local photo writes, and the player link it asks for.
#[derive(Debug, PartialEq, Eq)]
pub struct LocalPhoto {
    pub user_id: Option<String>,
    pub kind: String,
    pub local_path: String,
    pub thumbnail_path: Option<String>,
    pub file_name: String,
    pub captured_at: Option<String>,
    pub link: Option<PhotoLink>,
}

/// The file name stored for a photo: its final name, or `photo` when it has none.
pub open spec fn stored_file_name(p: Seq<Part>) -> Seq<char> {
    match file_name_of(p) {
        Some(n) => n,
        None => "photo"@,
    }
}

/// The link indexing asks for: to the owner of the photo's `usr_` folder, when that owner
/// is a known player, made by `folder` and confirmed.
pub open spec fn folder_link(p: Seq<Part>, owner_is_player: bool, link: Option<PhotoLink>) -> bool {
    match owner_of(p) {
        Some(owner) => if owner_is_player {
            link matches Some(l) && l.user_id@ == owner && l.source@ == "folder"@ && l.confirmed
        } else {
            link is None
        },
        None => link is None,
    }
}

/// The row for a local photo file: owner from its `usr_` folder, its name (or `photo`),
/// and the given kind, path text, thumbnail and capture time; and, when the owner is a
/// known player (`owner_is_player`, which the caller looked up for `owner_from_path`),
/// the confirmed `folder` link of the photo to that player.
pub fn index_file(
    path: &FsPath,
    local_path: String,
    kind: String,
    thumbnail_path: Option<String>,
    captured_at: Option<String>,
    owner_is_player: bool,
) -> (r: LocalPhoto)
    ensures
        opt_text(r.user_id) == owner_of(path@),
        r.kind@ == kind@,
        r.local_path@ == local_path@,
        r.thumbnail_path == thumbnail_path,
        r.file_name@ == stored_file_name(path@),
        r.captured_at == captured_at,
        folder_link(path@, owner_is_player, r.link),
{
    let file_name = match path.file_name() {
        Some(n) => n,
        None => "photo".to_owned(),
    };
    let user_id = owner_from_path(path);
    let link = match &user_id {
        Some(owner) => if owner_is_player {
            Some(PhotoLink { user_id: owner.clone(), source: "folder".to_owned(), confirmed: true })
        } else {
            None
        },
        None => None,
    };
    LocalPhoto { user_id, kind, local_path, thumbnail_path, file_name, captured_at, link }
}

/// The kind of a file-system event that a watcher reports.
#[derive(Debug, PartialEq, Eq)]
pub enum WatchEventKind {
    Create,
    Modify,
    Remove,
    Other,
}

/// What a watcher does for one path of an event.
#[derive(Debug, PartialEq, Eq)]
pub enum WatchAction {
    /// Index the photo file.
    Index,
    /// Drop the stored row of the path.
    Delete,
    /// Nothing.
    Ignore,
}

/// A created or modified photo file is indexed; a removed path loses its row; anything
/// else is ignored.
pub fn watch_event_action(kind: &WatchEventKind, path: &FsPath, is_file: bool) -> (r: WatchAction)
    ensures
        (kind is Create || kind is Modify) && is_file && is_photo_spec(path@) ==> r is Index,
        (kind is Create || kind is Modify) && !(is_file && is_photo_spec(path@)) ==> r is Ignore,
        kind is Remove ==> r is Delete,
        kind is Other ==> r is Ignore,
        (kind is Create || kind is Modify) && is_file ==> ascii_photo_rule(path@),
{
    match kind {
        WatchEventKind::Create | WatchEventKind::Modify => {
            if is_file && is_photo(path) {
                WatchAction::Index
            } else {
                WatchAction::Ignore
            }
        },
        WatchEventKind::Remove => WatchAction::Delete,
        WatchEventKind::Other => WatchAction::Ignore,
    }
}

} // verus!
