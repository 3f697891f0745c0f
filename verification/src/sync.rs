//! Sync bookkeeping: the progress report, the combination of the local folder scans, the
//! steps of the VRChat part of a sync, and the final message and success flag.

use vstd::prelude::*;
use crate::db::AppSettings;
use crate::text::{contains_seq, decimal, format_usize, opt_text, str_contains};

verus! {

/// How many player profiles are fetched at once.
pub const PROFILE_CONCURRENCY: usize = 5;

/// The progress of a sync, as reported to the user interface.
#[derive(Debug, PartialEq, Eq)]
pub struct Progress {
    pub phase: String,
    pub current: usize,
    pub total: usize,
    pub succeeded: usize,
    pub failed: usize,
    pub gallery_count: usize,
    pub message: String,
}

impl Default for Progress {
    fn default() -> (r: Progress)
        ensures
            r.phase@ == Seq::<char>::empty(),
            r.current == 0,
            r.total == 0,
            r.succeeded == 0,
            r.failed == 0,
            r.gallery_count == 0,
            r.message@ == Seq::<char>::empty(),
    {
        Progress {
            phase: String::new(),
            current: 0,
            total: 0,
            succeeded: 0,
            failed: 0,
            gallery_count: 0,
            message: String::new(),
        }
    }
}

impl Progress {
    /// A copy of the progress, as reported to the user interface.
    pub fn duplicate(&self) -> (r: Progress)
        ensures
            r.phase@ == self.phase@,
            r.current == self.current,
            r.total == self.total,
            r.succeeded == self.succeeded,
            r.failed == self.failed,
            r.gallery_count == self.gallery_count,
            r.message@ == self.message@,
    {
        Progress {
            phase: self.phase.clone(),
            current: self.current,
            total: self.total,
            succeeded: self.succeeded,
            failed: self.failed,
            gallery_count: self.gallery_count,
            message: self.message.clone(),
        }
    }
}

/// The result of a whole sync.
#[derive(Debug, PartialEq, Eq)]
pub struct Outcome {
    pub progress: Progress,
}

/// The result of scanning the local folders: photos indexed and the error, if any.
#[derive(Debug, PartialEq, Eq)]
pub struct LocalScanResult {
    pub count: usize,
    pub error: Option<String>,
}

/// The result of the VRChat part of a sync.
#[derive(Debug, PartialEq, Eq)]
pub enum CloudOutcome {
    /// No VRChat session: nothing was synced.
    Skipped,
    Done {
        friends_total: usize,
        newly_marked: usize,
        unmarked: usize,
        gallery: usize,
        profiles_succeeded: usize,
        profiles_failed: usize,
    },
    Failed { phase: String, message: String },
}

/// The result of syncing the VRChat friend list.
#[derive(Debug, Clone, Copy, PartialEq, Eq)]
pub struct FriendsSummary {
    pub total: usize,
    pub newly_marked: usize,
    pub unmarked: usize,
}

/// What came of refreshing one player's profile.
#[derive(Debug, PartialEq, Eq)]
pub enum ProfileResult {
    /// Fetched and saved.
    Saved,
    /// Fetched, but saving failed with this message.
    SaveFailed(String),
    /// Fetching failed with this message.
    FetchFailed(String),
    /// The fetching task itself failed with this message.
    TaskFailed(String),
}

/// The progress reported when a sync starts.
pub fn initial_progress() -> (r: Progress)
    ensures
        r.phase@ == "folders"@,
        r.message@ == "正在扫描本地相册目录…"@,
        r.current == 0 && r.total == 0 && r.succeeded == 0 && r.failed == 0 && r.gallery_count == 0,
{
    Progress {
        phase: "folders".to_owned(),
        current: 0,
        total: 0,
        succeeded: 0,
        failed: 0,
        gallery_count: 0,
        message: "正在扫描本地相册目录…".to_owned(),
    }
}

/// A folder setting that a sync scans: one that is set and not empty.
pub open spec fn scanned_folder(v: Option<Seq<char>>) -> Option<Seq<char>> {
    match v {
        Some(s) => if s.len() == 0 { None } else { Some(s) },
        None => None,
    }
}

fn non_empty(v: &Option<String>) -> (r: Option<String>)
    ensures
        opt_text(r) == scanned_folder(opt_text(*v)),
{
    match v {
        Some(s) => if s.as_str().is_empty() {
            None
        } else {
            Some(s.clone())
        },
        None => None,
    }
}

/// The album and Steam folders that a sync scans.
pub fn sync_folders(settings: &AppSettings) -> (r: (Option<String>, Option<String>))
    ensures
        opt_text(r.0) == scanned_folder(settings@.album_folder),
        opt_text(r.1) == scanned_folder(settings@.steam_screenshot_folder),
{
    (non_empty(&settings.album_folder), non_empty(&settings.steam_screenshot_folder))
}

/// The error text of the local scans: the album failure, the Steam failure, or both
/// joined by `；`.
pub open spec fn local_error_spec(album_error: Option<Seq<char>>, steam_error: Option<Seq<char>>) -> Option<Seq<char>> {
    let a = match album_error {
        Some(e) => Some("相册目录扫描失败："@ + e),
        None => None,
    };
    match steam_error {
        Some(e) => {
            let m = "Steam 目录扫描失败："@ + e;
            match a {
                Some(p) => Some(p + "；"@ + m),
                None => Some(m),
            }
        },
        None => a,
    }
}

/// The count of a scan, zero when it failed or did not run.
pub open spec fn scan_count(r: Option<Result<usize, String>>) -> nat {
    match r {
        Some(Ok(n)) => n as nat,
        _ => 0,
    }
}

/// The error of a scan, if it failed.
pub open spec fn scan_error(r: Option<Result<usize, String>>) -> Option<Seq<char>> {
    match r {
        Some(Err(e)) => Some(e@),
        _ => None,
    }
}

/// Combines the album folder scan and the Steam folder scan (each absent when its folder
/// is not configured): the photos counted by both, and the failures described.
pub fn scan_local_folders(album: Option<Result<usize, String>>, steam: Option<Result<usize, String>>) -> (r: LocalScanResult)
    requires
        scan_count(album) + scan_count(steam) <= usize::MAX,
    ensures
        r.count == scan_count(album) + scan_count(steam),
        opt_text(r.error) == local_error_spec(scan_error(album), scan_error(steam)),
{
    let mut count: usize = 0;
    let mut error: Option<String> = None;
    match album {
        Some(Ok(n)) => {
            count = count + n;
        },
        Some(Err(e)) => {
            let mut m = "相册目录扫描失败：".to_owned();
            m.append(e.as_str());
            error = Some(m);
        },
        None => {},
    }
    match steam {
        Some(Ok(n)) => {
            count = count + n;
        },
        Some(Err(e)) => {
            let mut m = "Steam 目录扫描失败：".to_owned();
            m.append(e.as_str());
            error = match error {
                Some(previous) => {
                    let mut p = previous;
                    p.append("；");
                    p.append(m.as_str());
                    Some(p)
                },
                None => Some(m),
            };
        },
        None => {},
    }
    LocalScanResult { count, error }
}

/// The local scan result when the scanning task itself failed.
pub fn local_task_failed(error: &str) -> (r: LocalScanResult)
    ensures
        r.count == 0,
        opt_text(r.error) == Some("本地扫描任务失败："@ + error@),
{
    let mut m = "本地扫描任务失败：".to_owned();
    m.append(error);
    LocalScanResult { count: 0, error: Some(m) }
}

/// The local part of the final message.
pub open spec fn local_part_spec(count: usize, error: Option<Seq<char>>) -> Seq<char> {
    match error {
        Some(e) => "本地索引 "@ + decimal(count as nat) + " 张（"@ + e + "）"@,
        None => "本地相册/截图已索引 "@ + decimal(count as nat) + " 张"@,
    }
}

/// The final message: the local part, then `；` and the VRChat part when there is one.
pub open spec fn merge_local_message_spec(base: Seq<char>, count: usize, error: Option<Seq<char>>) -> Seq<char> {
    if base.len() == 0 {
        local_part_spec(count, error)
    } else {
        local_part_spec(count, error) + "；"@ + base
    }
}

/// Puts the local scan result in front of the VRChat part of the message.
pub fn merge_local_message(base: &str, local: &LocalScanResult) -> (r: String)
    ensures
        r@ == merge_local_message_spec(base@, local.count, opt_text(local.error)),
{
    let mut part = match &local.error {
        Some(error) => {
            let mut m = "本地索引 ".to_owned();
            m.append(format_usize(local.count).as_str());
            m.append(" 张（");
            m.append(error.as_str());
            m.append("）");
            m
        },
        None => {
            let mut m = "本地相册/截图已索引 ".to_owned();
            m.append(format_usize(local.count).as_str());
            m.append(" 张");
            m
        },
    };
    if base.is_empty() {
        part
    } else {
        part.append("；");
        part.append(base);
        part
    }
}

/// A message with a note that the local scan still runs, unless it is done.
pub open spec fn hint_spec(message: Seq<char>, local_done: bool) -> Seq<char> {
    if local_done {
        message
    } else {
        message + "（本地扫描进行中）"@
    }
}

/// Notes on a message that the local scan still runs.
pub fn with_local_hint(message: &str, local_done: bool) -> (r: String)
    ensures
        r@ == hint_spec(message@, local_done),
{
    let mut m = message.to_owned();
    if !local_done {
        m.append("（本地扫描进行中）");
    }
    m
}

/// The phase a failed VRChat step ends in: `expired` when the error says the login has
/// expired, else `failed`.
pub open spec fn failure_phase_spec(error: Seq<char>) -> Seq<char> {
    if contains_seq(error, "登录已过期"@) {
        "expired"@
    } else {
        "failed"@
    }
}

/// The phase a failed VRChat step ends in.
pub fn failure_phase(error: &str) -> (r: String)
    ensures
        r@ == failure_phase_spec(error@),
{
    if str_contains(error, "登录已过期") {
        "expired".to_owned()
    } else {
        "failed".to_owned()
    }
}

/// A rejected session (HTTP 401) stops the VRChat part as expired: its error reads as an
/// expired login.
pub proof fn law_rejected_session_reads_as_expired()
    ensures
        contains_seq(crate::vrchat::SESSION_EXPIRED_MESSAGE@, "登录已过期"@),
        failure_phase_spec(crate::vrchat::SESSION_EXPIRED_MESSAGE@) == "expired"@,
{
    reveal_strlit("VRChat 登录已过期，请重新登录");
    reveal_strlit("登录已过期");
    let m = crate::vrchat::SESSION_EXPIRED_MESSAGE@;
    let p = "登录已过期"@;
    assert(m.subrange(7, 12) =~= p);
    assert(crate::text::occurs_at(m, p, 7));
}

/// Whether a progress differs from another in its phase and message at most.
pub open spec fn same_counts(a: Progress, b: Progress) -> bool {
    &&& a.current == b.current
    &&& a.total == b.total
    &&& a.succeeded == b.succeeded
    &&& a.failed == b.failed
    &&& a.gallery_count == b.gallery_count
}

/// The progress when the friend list sync starts.
pub fn begin_friends(progress: &mut Progress, local_done: bool)
    ensures
        final(progress).phase@ == "friends"@,
        final(progress).message@ == hint_spec("正在同步 VRChat 好友列表…"@, local_done),
        same_counts(*final(progress), *old(progress)),
{
    progress.phase = "friends".to_owned();
    progress.message = with_local_hint("正在同步 VRChat 好友列表…", local_done);
}

/// Whether an outcome is the failure of the friend list sync with `error`.
pub open spec fn friends_failure(r: CloudOutcome, error: Seq<char>) -> bool {
    r matches CloudOutcome::Failed { phase, message } && phase@ == failure_phase_spec(error)
        && message@ == "VRChat 好友同步失败："@ + error
}

/// The outcome when the friend list sync fails with `error`.
pub fn friends_failed(error: &str) -> (r: CloudOutcome)
    ensures
        friends_failure(r, error@),
{
    let mut m = "VRChat 好友同步失败：".to_owned();
    m.append(error);
    CloudOutcome::Failed { phase: failure_phase(error), message: m }
}

/// The message after the friend list sync.
pub open spec fn friends_message_spec(f: FriendsSummary) -> Seq<char> {
    "好友列表已更新：共 "@ + decimal(f.total as nat) + " 人（新增标记 "@ + decimal(f.newly_marked as nat)
        + "，解除标记 "@ + decimal(f.unmarked as nat) + "）"@
}

/// The progress after the friend list sync.
pub fn friends_synced(progress: &mut Progress, friends: &FriendsSummary, local_done: bool)
    ensures
        final(progress).phase == old(progress).phase,
        final(progress).message@ == hint_spec(friends_message_spec(*friends), local_done),
        same_counts(*final(progress), *old(progress)),
{
    let mut m = "好友列表已更新：共 ".to_owned();
    m.append(format_usize(friends.total).as_str());
    m.append(" 人（新增标记 ");
    m.append(format_usize(friends.newly_marked).as_str());
    m.append("，解除标记 ");
    m.append(format_usize(friends.unmarked).as_str());
    m.append("）");
    progress.message = with_local_hint(m.as_str(), local_done);
}

/// The progress when the gallery sync starts.
pub fn begin_gallery(progress: &mut Progress, local_done: bool)
    ensures
        final(progress).phase@ == "gallery"@,
        final(progress).message@ == hint_spec("正在同步 VRChat 相册与拍立得…"@, local_done),
        same_counts(*final(progress), *old(progress)),
{
    progress.phase = "gallery".to_owned();
    progress.message = with_local_hint("正在同步 VRChat 相册与拍立得…", local_done);
}

/// Whether an outcome is the failure of the gallery sync with `error`, after a friend
/// list of `friends_total` was synced.
pub open spec fn gallery_failure(r: CloudOutcome, friends_total: usize, error: Seq<char>) -> bool {
    r matches CloudOutcome::Failed { phase, message } && phase@ == failure_phase_spec(error)
        && message@ == "好友 "@ + decimal(friends_total as nat) + " 人；VRChat 相册与拍立得同步失败："@ + error
}

/// The outcome when the gallery sync fails with `error`.
pub fn gallery_failed(friends_total: usize, error: &str) -> (r: CloudOutcome)
    ensures
        gallery_failure(r, friends_total, error@),
{
    let mut m = "好友 ".to_owned();
    m.append(format_usize(friends_total).as_str());
    m.append(" 人；VRChat 相册与拍立得同步失败：");
    m.append(error);
    CloudOutcome::Failed { phase: failure_phase(error), message: m }
}

/// The progress when the profile refresh of `total` curated friends starts.
pub fn begin_profiles(progress: &mut Progress, total: usize, local_done: bool)
    ensures
        final(progress).phase@ == "profiles"@,
        final(progress).current == 0,
        final(progress).succeeded == 0,
        final(progress).failed == 0,
        final(progress).total == total,
        final(progress).gallery_count == old(progress).gallery_count,
        final(progress).message@ == hint_spec("正在刷新精选好友资料 0/"@ + decimal(total as nat), local_done),
{
    progress.phase = "profiles".to_owned();
    progress.current = 0;
    progress.succeeded = 0;
    progress.failed = 0;
    progress.total = total;
    let mut m = "正在刷新精选好友资料 0/".to_owned();
    m.append(format_usize(total).as_str());
    progress.message = with_local_hint(m.as_str(), local_done);
}

/// The message part for one error of a profile refresh.
pub open spec fn profile_error_message(r: ProfileResult, previous: Seq<char>) -> Seq<char> {
    match r {
        ProfileResult::Saved => previous,
        ProfileResult::SaveFailed(e) => e@,
        ProfileResult::FetchFailed(e) => e@,
        ProfileResult::TaskFailed(e) => "玩家同步任务失败："@ + e@,
    }
}

/// The running message of the profile refresh.
pub open spec fn profiles_message_spec(current: usize, total: usize, succeeded: usize, failed: usize) -> Seq<char> {
    "正在刷新精选好友资料 "@ + decimal(current as nat) + "/"@ + decimal(total as nat) + "（5 个并发 · 成功 "@
        + decimal(succeeded as nat) + "，失败 "@ + decimal(failed as nat) + "）"@
}

/// Whether a profile refresh result tells that the login has expired.
pub open spec fn reports_expiry(r: ProfileResult) -> bool {
    r matches ProfileResult::FetchFailed(e) && contains_seq(e@, "登录已过期"@)
}

/// Whether a progress `after` and a flag `expired_after` count one profile refresh
/// result on `before` and `expired_before`: one more done, and one more succeeded or
/// failed; an expired login is remembered; the message shows the error, or, while the
/// login is not known to have expired, the running counts.
pub open spec fn profile_counted(
    after: Progress,
    expired_after: bool,
    before: Progress,
    expired_before: bool,
    result: ProfileResult,
    local_done: bool,
) -> bool {
    &&& after.current == before.current + 1
    &&& after.succeeded + after.failed == after.current
    &&& result is Saved ==> after.succeeded == before.succeeded + 1 && after.failed == before.failed
    &&& !(result is Saved) ==> after.failed == before.failed + 1 && after.succeeded == before.succeeded
    &&& after.total == before.total
    &&& after.gallery_count == before.gallery_count
    &&& after.phase == before.phase
    &&& expired_after == (expired_before || reports_expiry(result))
    &&& expired_after ==> after.message@ == profile_error_message(result, before.message@)
    &&& !expired_after ==> after.message@ == hint_spec(
        profiles_message_spec(after.current, after.total, after.succeeded, after.failed),
        local_done,
    )
}

/// Counts one profile refresh result (see `profile_counted`).
pub fn profile_result(progress: &mut Progress, expired: &mut bool, result: ProfileResult, local_done: bool)
    requires
        old(progress).current < old(progress).total,
        old(progress).succeeded + old(progress).failed == old(progress).current,
    ensures
        profile_counted(*final(progress), *final(expired), *old(progress), *old(expired), result, local_done),
{
    progress.current = progress.current + 1;
    match result {
        ProfileResult::Saved => {
            progress.succeeded = progress.succeeded + 1;
        },
        ProfileResult::SaveFailed(e) => {
            progress.failed = progress.failed + 1;
            progress.message = e;
        },
        ProfileResult::FetchFailed(e) => {
            progress.failed = progress.failed + 1;
            if str_contains(e.as_str(), "登录已过期") {
                *expired = true;
            }
            progress.message = e;
        },
        ProfileResult::TaskFailed(e) => {
            progress.failed = progress.failed + 1;
            let mut m = "玩家同步任务失败：".to_owned();
            m.append(e.as_str());
            progress.message = m;
        },
    }
    if !*expired {
        let mut m = "正在刷新精选好友资料 ".to_owned();
        m.append(format_usize(progress.current).as_str());
        m.append("/");
        m.append(format_usize(progress.total).as_str());
        m.append("（5 个并发 · 成功 ");
        m.append(format_usize(progress.succeeded).as_str());
        m.append("，失败 ");
        m.append(format_usize(progress.failed).as_str());
        m.append("）");
        progress.message = with_local_hint(m.as_str(), local_done);
    }
}

/// Whether an outcome is the end of the VRChat part after the profile refresh: failed as
/// `expired` when the login expired, else done with the friend, gallery and profile counts.
pub open spec fn cloud_finished(r: CloudOutcome, progress: Progress, friends: FriendsSummary, gallery: usize, expired: bool) -> bool {
    &&& expired ==> (r matches CloudOutcome::Failed { phase, message } && phase@ == "expired"@ && message@
        == "好友 "@ + decimal(friends.total as nat) + " 人；VRChat 登录已过期，请重新登录"@)
    &&& !expired ==> (r matches CloudOutcome::Done {
        friends_total,
        newly_marked,
        unmarked,
        gallery: g,
        profiles_succeeded,
        profiles_failed,
    } && friends_total == friends.total && newly_marked == friends.newly_marked && unmarked
        == friends.unmarked && g == gallery && profiles_succeeded == progress.succeeded
        && profiles_failed == progress.failed)
}

/// The outcome of the VRChat part once the profiles are refreshed (or the refresh
/// stopped because the login expired).
pub fn finish_cloud(progress: &Progress, friends: &FriendsSummary, gallery: usize, expired: bool) -> (r: CloudOutcome)
    ensures
        cloud_finished(r, *progress, *friends, gallery, expired),
{
    if expired {
        let mut m = "好友 ".to_owned();
        m.append(format_usize(friends.total).as_str());
        m.append(" 人；VRChat 登录已过期，请重新登录");
        return CloudOutcome::Failed { phase: "expired".to_owned(), message: m };
    }
    CloudOutcome::Done {
        friends_total: friends.total,
        newly_marked: friends.newly_marked,
        unmarked: friends.unmarked,
        gallery,
        profiles_succeeded: progress.succeeded,
        profiles_failed: progress.failed,
    }
}

/// The VRChat part of the final message and phase, whether it failed, and how many
/// profiles failed.
pub open spec fn cloud_summary(cloud: CloudOutcome) -> (Seq<char>, Seq<char>, bool, nat) {
    match cloud {
        CloudOutcome::Skipped => (
            "done"@,
            "尚未登录 VRChat，已跳过云端同步。请先登录后再同步好友与相册。"@,
            false,
            0,
        ),
        CloudOutcome::Done {
            friends_total,
            newly_marked,
            unmarked,
            gallery,
            profiles_succeeded,
            profiles_failed,
        } => (
            "done"@,
            "同步完成：好友 "@ + decimal(friends_total as nat) + " 人（新增 "@ + decimal(newly_marked as nat)
                + "，解除标记 "@ + decimal(unmarked as nat) + "），刷新 "@ + decimal(
                profiles_succeeded as nat,
            ) + " 位精选资料，相册与拍立得 "@ + decimal(gallery as nat) + " 张。"@,
            false,
            profiles_failed as nat,
        ),
        CloudOutcome::Failed { phase, message } => (phase@, message@, true, 0),
    }
}

/// Whether the sync succeeded: the VRChat part did not fail, no profile failed, and the
/// local scan had no error.
pub open spec fn sync_success(cloud: CloudOutcome, local_error: Option<Seq<char>>) -> bool {
    !cloud_summary(cloud).2 && cloud_summary(cloud).3 == 0 && local_error is None
}

/// A sync succeeds exactly when the local scan had no error and the VRChat part was
/// skipped or done with no failed profile refresh; a failed VRChat part, a failed profile
/// or a local error makes it unsuccessful.
pub proof fn law_sync_success(cloud: CloudOutcome, local_error: Option<Seq<char>>)
    ensures
        sync_success(cloud, local_error) == (local_error is None && match cloud {
            CloudOutcome::Skipped => true,
            CloudOutcome::Done { profiles_failed, .. } => profiles_failed == 0,
            CloudOutcome::Failed { .. } => false,
        }),
{
}

/// The final progress of a sync and whether it succeeded.
pub fn finish_sync(progress: &mut Progress, cloud: CloudOutcome, local: &LocalScanResult) -> (success: bool)
    ensures
        success == sync_success(cloud, opt_text(local.error)),
        success == (local.error is None && match cloud {
            CloudOutcome::Skipped => true,
            CloudOutcome::Done { profiles_failed, .. } => profiles_failed == 0,
            CloudOutcome::Failed { .. } => false,
        }),
        final(progress).phase@ == cloud_summary(cloud).0,
        final(progress).message@ == merge_local_message_spec(cloud_summary(cloud).1, local.count, opt_text(local.error)),
        final(progress).current == old(progress).current,
        final(progress).total == old(progress).total,
        cloud matches CloudOutcome::Done { gallery, profiles_succeeded, profiles_failed, .. } ==> {
            &&& final(progress).gallery_count == gallery
            &&& final(progress).succeeded == profiles_succeeded
            &&& final(progress).failed == (if local.error is Some { profiles_failed.saturating_add(1) } else { profiles_failed })
        },
        !(cloud is Done) ==> {
            &&& final(progress).gallery_count == old(progress).gallery_count
            &&& final(progress).succeeded == old(progress).succeeded
            &&& final(progress).failed == (if local.error is Some { old(progress).failed.saturating_add(1) } else { old(progress).failed })
        },
{
    let (phase, base, cloud_failed, profiles_failed): (String, String, bool, usize) = match cloud {
        CloudOutcome::Skipped => (
            "done".to_owned(),
            "尚未登录 VRChat，已跳过云端同步。请先登录后再同步好友与相册。".to_owned(),
            false,
            0,
        ),
        CloudOutcome::Done {
            friends_total,
            newly_marked,
            unmarked,
            gallery,
            profiles_succeeded,
            profiles_failed,
        } => {
            progress.gallery_count = gallery;
            progress.succeeded = profiles_succeeded;
            progress.failed = profiles_failed;
            let mut m = "同步完成：好友 ".to_owned();
            m.append(format_usize(friends_total).as_str());
            m.append(" 人（新增 ");
            m.append(format_usize(newly_marked).as_str());
            m.append("，解除标记 ");
            m.append(format_usize(unmarked).as_str());
            m.append("），刷新 ");
            m.append(format_usize(profiles_succeeded).as_str());
            m.append(" 位精选资料，相册与拍立得 ");
            m.append(format_usize(gallery).as_str());
            m.append(" 张。");
            ("done".to_owned(), m, false, profiles_failed)
        },
        CloudOutcome::Failed { phase, message } => (phase, message, true, 0),
    };
    progress.phase = phase;
    if local.error.is_some() {
        progress.failed = progress.failed.saturating_add(1);
    }
    progress.message = merge_local_message(base.as_str(), local);
    !cloud_failed && profiles_failed == 0 && local.error.is_none()
}

/// The settings writes that record how a sync ended.
pub fn save_result(now: &str, message: &str, success: bool) -> (r: Vec<(String, String)>)
    ensures
        r@.len() == 3,
        r@[0].0@ == "last_sync_at"@ && r@[0].1@ == now@,
        r@[1].0@ == "last_sync_message"@ && r@[1].1@ == message@,
        r@[2].0@ == "last_sync_success"@ && r@[2].1@ == (if success { "true"@ } else { "false"@ }),
{
    let mut w: Vec<(String, String)> = Vec::new();
    w.push(("last_sync_at".to_owned(), now.to_owned()));
    w.push(("last_sync_message".to_owned(), message.to_owned()));
    w.push(("last_sync_success".to_owned(), if success { "true".to_owned() } else { "false".to_owned() }));
    w
}

} // verus!
