use vrchat_photo_manager::db::AppSettings;
use vrchat_photo_manager::sync::{
    begin_friends, begin_gallery, begin_profiles, failure_phase, finish_cloud, finish_sync,
    friends_failed, friends_synced, gallery_failed, initial_progress, local_task_failed,
    merge_local_message, profile_result, save_result, scan_local_folders,
    sync_folders, with_local_hint, CloudOutcome, FriendsSummary, LocalScanResult, ProfileResult,
    Progress,
};

#[test]
fn local_result_leads_the_message() {
    let ok = LocalScanResult { count: 3, error: None };
    assert_eq!(merge_local_message("", &ok), "本地相册/截图已索引 3 张");
    assert_eq!(merge_local_message("同步完成", &ok), "本地相册/截图已索引 3 张；同步完成");
    let bad = LocalScanResult { count: 0, error: Some("坏了".into()) };
    assert_eq!(merge_local_message("x", &bad), "本地索引 0 张（坏了）；x");
}

#[test]
fn hint_shows_while_local_scan_runs() {
    assert_eq!(with_local_hint("m", true), "m");
    assert_eq!(with_local_hint("m", false), "m（本地扫描进行中）");
}

#[test]
fn local_scans_add_counts_and_join_errors() {
    let r = scan_local_folders(Some(Ok(2)), Some(Ok(5)));
    assert_eq!(r, LocalScanResult { count: 7, error: None });
    let r = scan_local_folders(Some(Err("a".into())), Some(Err("b".into())));
    assert_eq!(r.count, 0);
    assert_eq!(r.error, Some("相册目录扫描失败：a；Steam 目录扫描失败：b".to_string()));
    let r = scan_local_folders(None, Some(Err("b".into())));
    assert_eq!(r.error, Some("Steam 目录扫描失败：b".to_string()));
    let r = scan_local_folders(Some(Ok(4)), None);
    assert_eq!(r, LocalScanResult { count: 4, error: None });
    assert_eq!(local_task_failed("panic").error, Some("本地扫描任务失败：panic".to_string()));
}

#[test]
fn sync_scans_only_non_empty_folders() {
    let s = AppSettings {
        album_folder: Some(String::new()),
        steam_screenshot_folder: Some(" ".into()),
        vrcx_database_path: None,
        sync_interval_minutes: 15,
        show_self_in_friends: true,
    };
    assert_eq!(sync_folders(&s), (None, Some(" ".to_string())));
}

#[test]
fn expired_logins_are_recognized() {
    assert_eq!(failure_phase("VRChat 登录已过期，请重新登录"), "expired");
    assert_eq!(failure_phase("network down"), "failed");
    match friends_failed("HTTP 401 登录已过期") {
        CloudOutcome::Failed { phase, message } => {
            assert_eq!(phase, "expired");
            assert_eq!(message, "VRChat 好友同步失败：HTTP 401 登录已过期");
        }
        _ => panic!("expected a failure"),
    }
    match gallery_failed(12, "timeout") {
        CloudOutcome::Failed { phase, message } => {
            assert_eq!(phase, "failed");
            assert_eq!(message, "好友 12 人；VRChat 相册与拍立得同步失败：timeout");
        }
        _ => panic!("expected a failure"),
    }
}

#[test]
fn cloud_steps_update_the_progress() {
    let mut p = initial_progress();
    assert_eq!(p.phase, "folders");
    assert_eq!(p.message, "正在扫描本地相册目录…");
    begin_friends(&mut p, false);
    assert_eq!(p.phase, "friends");
    assert_eq!(p.message, "正在同步 VRChat 好友列表…（本地扫描进行中）");
    friends_synced(&mut p, &FriendsSummary { total: 10, newly_marked: 2, unmarked: 1 }, true);
    assert_eq!(p.message, "好友列表已更新：共 10 人（新增标记 2，解除标记 1）");
    begin_gallery(&mut p, true);
    assert_eq!(p.phase, "gallery");
    begin_profiles(&mut p, 3, true);
    assert_eq!((p.current, p.total, p.succeeded, p.failed), (0, 3, 0, 0));
    assert_eq!(p.message, "正在刷新精选好友资料 0/3");
}

#[test]
fn every_profile_result_is_counted_once() {
    let mut p = Progress { total: 4, ..Default::default() };
    let mut expired = false;
    profile_result(&mut p, &mut expired, ProfileResult::Saved, true);
    assert_eq!(p.message, "正在刷新精选好友资料 1/4（5 个并发 · 成功 1，失败 0）");
    profile_result(&mut p, &mut expired, ProfileResult::TaskFailed("join".into()), true);
    assert_eq!((p.current, p.succeeded, p.failed), (2, 1, 1));
    profile_result(&mut p, &mut expired, ProfileResult::FetchFailed("登录已过期".into()), true);
    assert!(expired);
    assert_eq!(p.message, "登录已过期");
    profile_result(&mut p, &mut expired, ProfileResult::Saved, false);
    assert_eq!((p.current, p.succeeded, p.failed), (4, 2, 2));
    assert_eq!(p.message, "登录已过期");
    match finish_cloud(&p, &FriendsSummary { total: 9, newly_marked: 0, unmarked: 0 }, 5, expired) {
        CloudOutcome::Failed { phase, message } => {
            assert_eq!(phase, "expired");
            assert_eq!(message, "好友 9 人；VRChat 登录已过期，请重新登录");
        }
        _ => panic!("expected expiry"),
    }
}

#[test]
fn final_message_and_success() {
    let mut p = Progress { failed: 0, ..Default::default() };
    let local = LocalScanResult { count: 2, error: None };
    let done = CloudOutcome::Done {
        friends_total: 10,
        newly_marked: 1,
        unmarked: 0,
        gallery: 4,
        profiles_succeeded: 3,
        profiles_failed: 0,
    };
    assert!(finish_sync(&mut p, done, &local));
    assert_eq!(p.phase, "done");
    assert_eq!(
        p.message,
        "本地相册/截图已索引 2 张；同步完成：好友 10 人（新增 1，解除标记 0），刷新 3 位精选资料，相册与拍立得 4 张。"
    );
    assert_eq!((p.gallery_count, p.succeeded), (4, 3));

    let mut q = Progress::default();
    let broken = LocalScanResult { count: 0, error: Some("x".into()) };
    assert!(!finish_sync(&mut q, CloudOutcome::Skipped, &broken));
    assert_eq!(q.failed, 1);
    assert_eq!(
        q.message,
        "本地索引 0 张（x）；尚未登录 VRChat，已跳过云端同步。请先登录后再同步好友与相册。"
    );

    let mut r = Progress::default();
    let failed = CloudOutcome::Failed { phase: "expired".into(), message: "m".into() };
    assert!(!finish_sync(&mut r, failed, &local));
    assert_eq!(r.phase, "expired");

    let mut s = Progress { failed: usize::MAX, ..Default::default() };
    assert!(!finish_sync(&mut s, CloudOutcome::Skipped, &broken));
    assert_eq!(s.failed, usize::MAX);
}

#[test]
fn sync_result_is_recorded() {
    let w = save_result("2024-01-01T00:00:00+00:00", "ok", true);
    assert_eq!(w[0], ("last_sync_at".to_string(), "2024-01-01T00:00:00+00:00".to_string()));
    assert_eq!(w[1], ("last_sync_message".to_string(), "ok".to_string()));
    assert_eq!(w[2], ("last_sync_success".to_string(), "true".to_string()));
    assert_eq!(save_result("t", "m", false)[2].1, "false");
}

#[test]
fn a_rejected_session_reads_as_expired() {
    assert_eq!(failure_phase(vrchat_photo_manager::vrchat::SESSION_EXPIRED_MESSAGE), "expired");
}
