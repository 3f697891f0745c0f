use vrchat_photo_manager::cloud::{cloud_step, CloudAction, CloudEvent, CloudState, PROFILE_BATCH_PAUSE_MS};
use vrchat_photo_manager::sync::{initial_progress, CloudOutcome, FriendsSummary, ProfileResult, Progress};

fn friends() -> FriendsSummary {
    FriendsSummary { total: 3, newly_marked: 1, unmarked: 0 }
}

fn ids(n: usize) -> Vec<String> {
    (0..n).map(|i| format!("usr_{i}")).collect()
}

/// Runs the part up to the first batch request over `n` curated friends.
fn up_to_profiles(state: &mut CloudState, progress: &mut Progress, n: usize) {
    assert!(matches!(cloud_step(state, progress, CloudEvent::Started(true), true), CloudAction::FetchFriends));
    assert!(matches!(cloud_step(state, progress, CloudEvent::FriendsOk(friends()), true), CloudAction::Continue));
    assert!(matches!(cloud_step(state, progress, CloudEvent::Next, true), CloudAction::FetchGallery));
    assert!(matches!(cloud_step(state, progress, CloudEvent::GalleryOk(12), true), CloudAction::FetchFriendIds));
    assert_eq!(progress.gallery_count, 12);
    assert!(matches!(cloud_step(state, progress, CloudEvent::FriendIds(ids(n)), true), CloudAction::LoadSession));
    assert_eq!(progress.phase, "profiles");
    assert_eq!(progress.total, n);
}

#[test]
fn without_a_session_nothing_is_synced() {
    let mut state = CloudState::new();
    let mut progress = initial_progress();
    let action = cloud_step(&mut state, &mut progress, CloudEvent::Started(false), false);
    assert!(matches!(action, CloudAction::Finish(CloudOutcome::Skipped)));
    assert_eq!(progress, initial_progress());
    assert!(matches!(cloud_step(&mut state, &mut progress, CloudEvent::Next, false), CloudAction::Ignore));
}

#[test]
fn steps_come_in_order_and_batches_hold_five_friends() {
    let mut state = CloudState::new();
    let mut progress = initial_progress();
    assert!(matches!(cloud_step(&mut state, &mut progress, CloudEvent::Started(true), false), CloudAction::FetchFriends));
    assert_eq!(progress.phase, "friends");
    assert_eq!(progress.message, "正在同步 VRChat 好友列表…（本地扫描进行中）");
    assert!(matches!(
        cloud_step(&mut state, &mut progress, CloudEvent::FriendsOk(friends()), true),
        CloudAction::Continue
    ));
    assert_eq!(progress.message, "好友列表已更新：共 3 人（新增标记 1，解除标记 0）");
    assert!(matches!(cloud_step(&mut state, &mut progress, CloudEvent::Next, true), CloudAction::FetchGallery));
    assert_eq!(progress.phase, "gallery");
    assert!(matches!(
        cloud_step(&mut state, &mut progress, CloudEvent::GalleryOk(12), true),
        CloudAction::FetchFriendIds
    ));
    assert!(matches!(
        cloud_step(&mut state, &mut progress, CloudEvent::FriendIds(ids(7)), true),
        CloudAction::LoadSession
    ));
    assert_eq!(progress.message, "正在刷新精选好友资料 0/7");

    match cloud_step(&mut state, &mut progress, CloudEvent::Next, true) {
        CloudAction::FetchBatch(batch) => assert_eq!(batch, ids(7)[..5].to_vec()),
        other => panic!("unexpected {other:?}"),
    }
    for _ in 0..4 {
        let action = cloud_step(&mut state, &mut progress, CloudEvent::Profile(ProfileResult::Saved), true);
        assert!(matches!(action, CloudAction::AwaitProfile));
    }
    let failed = ProfileResult::FetchFailed("404".into());
    assert!(matches!(cloud_step(&mut state, &mut progress, CloudEvent::Profile(failed), true), CloudAction::AwaitProfile));
    assert_eq!(progress.message, "正在刷新精选好友资料 5/7（5 个并发 · 成功 4，失败 1）");
    match cloud_step(&mut state, &mut progress, CloudEvent::BatchDone, true) {
        CloudAction::Pause(ms) => assert_eq!(ms, 350),
        other => panic!("unexpected {other:?}"),
    }
    assert_eq!(PROFILE_BATCH_PAUSE_MS, 350);
    match cloud_step(&mut state, &mut progress, CloudEvent::Next, true) {
        CloudAction::FetchBatch(batch) => assert_eq!(batch, ids(7)[5..].to_vec()),
        other => panic!("unexpected {other:?}"),
    }
    for _ in 0..2 {
        cloud_step(&mut state, &mut progress, CloudEvent::Profile(ProfileResult::Saved), true);
    }
    assert!(matches!(cloud_step(&mut state, &mut progress, CloudEvent::BatchDone, true), CloudAction::Pause(350)));
    match cloud_step(&mut state, &mut progress, CloudEvent::Next, true) {
        CloudAction::Finish(outcome) => assert_eq!(
            outcome,
            CloudOutcome::Done {
                friends_total: 3,
                newly_marked: 1,
                unmarked: 0,
                gallery: 12,
                profiles_succeeded: 6,
                profiles_failed: 1,
            }
        ),
        other => panic!("unexpected {other:?}"),
    }
    assert!(matches!(cloud_step(&mut state, &mut progress, CloudEvent::Next, true), CloudAction::Ignore));
}

#[test]
fn a_failed_friend_list_ends_the_part() {
    let mut state = CloudState::new();
    let mut progress = initial_progress();
    cloud_step(&mut state, &mut progress, CloudEvent::Started(true), true);
    match cloud_step(&mut state, &mut progress, CloudEvent::FriendsErr("网络错误".into()), true) {
        CloudAction::Finish(outcome) => assert_eq!(
            outcome,
            CloudOutcome::Failed { phase: "failed".into(), message: "VRChat 好友同步失败：网络错误".into() }
        ),
        other => panic!("unexpected {other:?}"),
    }
    assert!(matches!(cloud_step(&mut state, &mut progress, CloudEvent::Next, true), CloudAction::Ignore));
}

#[test]
fn an_expired_login_during_the_gallery_ends_the_part_as_expired() {
    let mut state = CloudState::new();
    let mut progress = initial_progress();
    cloud_step(&mut state, &mut progress, CloudEvent::Started(true), true);
    cloud_step(&mut state, &mut progress, CloudEvent::FriendsOk(friends()), true);
    cloud_step(&mut state, &mut progress, CloudEvent::Next, true);
    let error = CloudEvent::GalleryErr("VRChat 登录已过期，请重新登录".into());
    match cloud_step(&mut state, &mut progress, error, true) {
        CloudAction::Finish(outcome) => assert_eq!(
            outcome,
            CloudOutcome::Failed {
                phase: "expired".into(),
                message: "好友 3 人；VRChat 相册与拍立得同步失败：VRChat 登录已过期，请重新登录".into(),
            }
        ),
        other => panic!("unexpected {other:?}"),
    }
}

#[test]
fn a_batch_with_an_expired_login_is_the_last() {
    let mut state = CloudState::new();
    let mut progress = initial_progress();
    up_to_profiles(&mut state, &mut progress, 12);
    assert!(matches!(cloud_step(&mut state, &mut progress, CloudEvent::Next, true), CloudAction::FetchBatch(_)));
    let expired = ProfileResult::FetchFailed("VRChat 登录已过期，请重新登录".into());
    cloud_step(&mut state, &mut progress, CloudEvent::Profile(expired), true);
    assert_eq!(progress.message, "VRChat 登录已过期，请重新登录");
    for _ in 0..4 {
        cloud_step(&mut state, &mut progress, CloudEvent::Profile(ProfileResult::Saved), true);
    }
    assert_eq!(progress.message, "VRChat 登录已过期，请重新登录");
    match cloud_step(&mut state, &mut progress, CloudEvent::BatchDone, true) {
        CloudAction::Finish(outcome) => assert_eq!(
            outcome,
            CloudOutcome::Failed { phase: "expired".into(), message: "好友 3 人；VRChat 登录已过期，请重新登录".into() }
        ),
        other => panic!("unexpected {other:?}"),
    }
    assert!(matches!(cloud_step(&mut state, &mut progress, CloudEvent::Next, true), CloudAction::Ignore));
    assert_eq!(progress.current, 5);
}

#[test]
fn no_curated_friends_means_no_batch() {
    let mut state = CloudState::new();
    let mut progress = initial_progress();
    up_to_profiles(&mut state, &mut progress, 0);
    match cloud_step(&mut state, &mut progress, CloudEvent::Next, true) {
        CloudAction::Finish(CloudOutcome::Done { gallery, profiles_succeeded, profiles_failed, .. }) => {
            assert_eq!((gallery, profiles_succeeded, profiles_failed), (12, 0, 0));
        }
        other => panic!("unexpected {other:?}"),
    }
}

#[test]
fn events_out_of_order_change_nothing() {
    let mut state = CloudState::new();
    let mut progress = initial_progress();
    assert!(matches!(cloud_step(&mut state, &mut progress, CloudEvent::GalleryOk(4), true), CloudAction::Ignore));
    assert_eq!(progress, initial_progress());
    up_to_profiles(&mut state, &mut progress, 2);
    let before = progress.duplicate();
    let result = CloudEvent::Profile(ProfileResult::Saved);
    assert!(matches!(cloud_step(&mut state, &mut progress, result, true), CloudAction::Ignore));
    assert_eq!(progress, before);
    assert!(matches!(cloud_step(&mut state, &mut progress, CloudEvent::BatchDone, true), CloudAction::Ignore));
}

#[test]
fn progress_is_reported_before_the_visible_steps() {
    assert!(CloudAction::FetchFriends.reports_progress());
    assert!(CloudAction::Continue.reports_progress());
    assert!(CloudAction::FetchGallery.reports_progress());
    assert!(CloudAction::LoadSession.reports_progress());
    assert!(CloudAction::AwaitProfile.reports_progress());
    assert!(!CloudAction::FetchFriendIds.reports_progress());
    assert!(!CloudAction::Pause(1).reports_progress());
    assert!(!CloudAction::FetchBatch(Vec::new()).reports_progress());
    assert!(!CloudAction::Finish(CloudOutcome::Skipped).reports_progress());
    assert!(!CloudAction::Ignore.reports_progress());
}

#[test]
fn friends_are_refreshed_five_at_a_time() {
    let mut state = CloudState::new();
    let mut progress = initial_progress();
    up_to_profiles(&mut state, &mut progress, 12);
    let mut batches: Vec<Vec<String>> = Vec::new();
    loop {
        match cloud_step(&mut state, &mut progress, CloudEvent::Next, true) {
            CloudAction::FetchBatch(batch) => {
                for _ in 0..batch.len() {
                    cloud_step(&mut state, &mut progress, CloudEvent::Profile(ProfileResult::Saved), true);
                }
                batches.push(batch);
                assert!(matches!(cloud_step(&mut state, &mut progress, CloudEvent::BatchDone, true), CloudAction::Pause(_)));
            }
            CloudAction::Finish(_) => break,
            other => panic!("unexpected {other:?}"),
        }
    }
    assert_eq!(batches.iter().map(Vec::len).collect::<Vec<_>>(), vec![5, 5, 2]);
    assert_eq!(batches.concat(), ids(12));
    assert_eq!(progress.succeeded, 12);
}

#[test]
fn a_batch_ends_only_once_every_result_is_counted() {
    let mut state = CloudState::new();
    let mut progress = initial_progress();
    up_to_profiles(&mut state, &mut progress, 1);
    assert!(matches!(cloud_step(&mut state, &mut progress, CloudEvent::Next, true), CloudAction::FetchBatch(_)));
    assert!(matches!(cloud_step(&mut state, &mut progress, CloudEvent::BatchDone, true), CloudAction::Ignore));
    let failed = ProfileResult::TaskFailed("cancelled".into());
    assert!(matches!(cloud_step(&mut state, &mut progress, CloudEvent::Profile(failed), true), CloudAction::AwaitProfile));
    assert_eq!(progress.message, "正在刷新精选好友资料 1/1（5 个并发 · 成功 0，失败 1）");
    assert!(matches!(cloud_step(&mut state, &mut progress, CloudEvent::BatchDone, true), CloudAction::Pause(350)));
    match cloud_step(&mut state, &mut progress, CloudEvent::Next, true) {
        CloudAction::Finish(CloudOutcome::Done { profiles_succeeded, profiles_failed, .. }) => {
            assert_eq!(profiles_succeeded + profiles_failed, 1);
        }
        other => panic!("unexpected {other:?}"),
    }
}
