//! The VRChat part of a sync as a state machine. The caller performs each action (a
//! request, a database read, a pause) and hands back what came of it as the next event;
//! every decision on what comes next is taken here. The order is fixed: the friend list,
//! the gallery and prints, the curated friends read from the database, then their
//! profiles in batches of five with a pause after each batch. A failed friend list or
//! gallery step ends the part at once, and so does a batch in which the login expired.

use vstd::prelude::*;
use crate::sync::{
    begin_friends, begin_gallery, begin_profiles, cloud_finished, finish_cloud, friends_failed, friends_failure,
    friends_message_spec, friends_synced, gallery_failed, gallery_failure, hint_spec, profile_counted,
    profile_result, same_counts, CloudOutcome, FriendsSummary, ProfileResult, Progress, PROFILE_CONCURRENCY,
};
use crate::text::decimal;

verus! {

/// How long the caller waits after each batch of profiles, in milliseconds.
pub const PROFILE_BATCH_PAUSE_MS: u64 = 350;

/// Where the VRChat part of a sync stands.
#[derive(Debug, Clone, Copy, PartialEq, Eq)]
pub enum CloudStage {
    /// Not started.
    Idle,
    /// The friend list is being fetched.
    Friends,
    /// The friend list is synced; the gallery comes next.
    FriendsSynced,
    /// The gallery and prints are being fetched.
    Gallery,
    /// The curated friends are being read.
    FriendIds,
    /// Before a batch of profiles, or after all of them.
    Batches,
    /// A batch of profiles is being fetched.
    Batch,
    /// Finished: every later event is ignored.
    Done,
}

/// What came of the last action.
#[derive(Debug)]
pub enum CloudEvent {
    /// The part starts; whether a VRChat session is stored.
    Started(bool),
    /// The friend list was synced.
    FriendsOk(FriendsSummary),
    /// The friend list sync failed with this message.
    FriendsErr(String),
    /// The gallery and prints were synced: this many files.
    GalleryOk(usize),
    /// The gallery sync failed with this message.
    GalleryErr(String),
    /// The curated friends, in the order the database gave them.
    FriendIds(Vec<String>),
    /// One profile of the current batch was refreshed, or not.
    Profile(ProfileResult),
    /// Every profile of the current batch has come back (taken only once every result of
    /// the batch has been counted).
    BatchDone,
    /// The caller did what was asked (reported, loaded the session, paused).
    Next,
}

/// What the caller does next.
#[derive(Debug)]
pub enum CloudAction {
    /// Report the progress, then sync the friend list.
    FetchFriends,
    /// Report the progress, then hand back `Next`.
    Continue,
    /// Report the progress, then sync the gallery and prints.
    FetchGallery,
    /// Read the curated friends from the database.
    FetchFriendIds,
    /// Report the progress, load the stored session, then hand back `Next`.
    LoadSession,
    /// Fetch these profiles together, handing back each result, then `BatchDone`.
    FetchBatch(Vec<String>),
    /// Report the progress and wait for the next result of the batch.
    AwaitProfile,
    /// Wait this many milliseconds, then hand back `Next`.
    Pause(u64),
    /// The VRChat part is over, with this outcome.
    Finish(CloudOutcome),
    /// The event does not fit the current stage; nothing changed.
    Ignore,
}

impl CloudAction {
    /// Whether the caller reports the progress before doing the action.
    pub fn reports_progress(&self) -> (r: bool)
        ensures
            r == (self is FetchFriends || self is Continue || self is FetchGallery || self is LoadSession
                || self is AwaitProfile),
    {
        match self {
            CloudAction::FetchFriends => true,
            CloudAction::Continue => true,
            CloudAction::FetchGallery => true,
            CloudAction::LoadSession => true,
            CloudAction::AwaitProfile => true,
            _ => false,
        }
    }
}

/// The state of the VRChat part of a sync.
pub struct CloudState {
    stage: CloudStage,
    friends: FriendsSummary,
    gallery: usize,
    ids: Vec<String>,
    next: usize,
    pending: usize,
    expired: bool,
}

/// The mathematical form of the state: the stage, the friend list summary and gallery
/// count once known, the curated friends, where the next batch starts, how many results
/// of the current batch are still due, and whether the login has expired.
pub struct CloudView {
    pub stage: CloudStage,
    pub friends: FriendsSummary,
    pub gallery: usize,
    pub ids: Seq<Seq<char>>,
    pub next: int,
    pub pending: int,
    pub expired: bool,
}

impl View for CloudState {
    type V = CloudView;

    closed spec fn view(&self) -> CloudView {
        CloudView {
            stage: self.stage,
            friends: self.friends,
            gallery: self.gallery,
            ids: self.ids@.map_values(|s: String| s@),
            next: self.next as int,
            pending: self.pending as int,
            expired: self.expired,
        }
    }
}

/// The same state in another stage.
pub open spec fn in_stage(s: CloudView, stage: CloudStage) -> CloudView {
    CloudView { stage, friends: s.friends, gallery: s.gallery, ids: s.ids, next: s.next, pending: s.pending, expired: s.expired }
}

/// The end of the next batch that starts at `next`: at most five further friends.
pub open spec fn batch_end(ids: Seq<Seq<char>>, next: int) -> int {
    if next + 5 <= ids.len() { next + 5 } else { ids.len() as int }
}

/// Whether the current stage takes an event. A profile result is taken only while one is
/// due and the progress can count it.
pub open spec fn accepts(s: CloudView, p: Progress, e: CloudEvent) -> bool {
    match e {
        CloudEvent::Started(_) => s.stage is Idle,
        CloudEvent::FriendsOk(_) => s.stage is Friends,
        CloudEvent::FriendsErr(_) => s.stage is Friends,
        CloudEvent::GalleryOk(_) => s.stage is Gallery,
        CloudEvent::GalleryErr(_) => s.stage is Gallery,
        CloudEvent::FriendIds(_) => s.stage is FriendIds,
        CloudEvent::Profile(_) => s.stage is Batch && s.pending > 0 && p.current < p.total && p.succeeded + p.failed
            == p.current,
        CloudEvent::BatchDone => s.stage is Batch && s.pending == 0,
        CloudEvent::Next => s.stage is FriendsSynced || s.stage is Batches,
    }
}

/// What holds of the state and the progress while the profiles are refreshed: the
/// progress counts over all curated friends, each result counted once as succeeded or
/// failed, the friends before the current batch and those of it already back are
/// counted, a batch holds at most five friends, and between batches no result is due and
/// the login is not known to have expired.
pub open spec fn profiles_consistent(s: CloudView, p: Progress) -> bool {
    (s.stage is Batches || s.stage is Batch) ==> {
        &&& 0 <= s.pending <= s.next <= s.ids.len()
        &&& s.pending <= 5
        &&& p.total == s.ids.len()
        &&& p.current == s.next - s.pending
        &&& p.succeeded + p.failed == p.current
        &&& s.stage is Batches ==> s.pending == 0 && !s.expired
    }
}

/// When the profile refresh ends without an expired login, its counts cover every
/// curated friend: each was fetched and counted as succeeded or failed exactly once.
pub proof fn law_finished_profiles_cover_every_friend(s: CloudView, p: Progress, o: CloudOutcome)
    requires
        profiles_consistent(s, p),
        s.stage is Batches,
        s.next >= s.ids.len(),
        cloud_finished(o, p, s.friends, s.gallery, s.expired),
    ensures
        o matches CloudOutcome::Done { profiles_succeeded, profiles_failed, .. } && profiles_succeeded
            + profiles_failed == s.ids.len(),
{
}

impl CloudState {
    /// The VRChat part before it starts.
    pub fn new() -> (r: CloudState)
        ensures
            r@.stage is Idle,
            r@.friends == (FriendsSummary { total: 0, newly_marked: 0, unmarked: 0 }),
            r@.gallery == 0,
            r@.ids.len() == 0,
            r@.next == 0,
            r@.pending == 0,
            !r@.expired,
    {
        let r = CloudState {
            stage: CloudStage::Idle,
            friends: FriendsSummary { total: 0, newly_marked: 0, unmarked: 0 },
            gallery: 0,
            ids: Vec::new(),
            next: 0,
            pending: 0,
            expired: false,
        };
        assert(r@.ids =~= Seq::<Seq<char>>::empty());
        r
    }
}

/// The first ids of the next batch, copied in order.
fn batch_of(ids: &Vec<String>, start: usize, end: usize) -> (r: Vec<String>)
    requires
        start <= end <= ids@.len(),
    ensures
        r@.map_values(|s: String| s@) == ids@.map_values(|s: String| s@).subrange(start as int, end as int),
{
    let ghost all = ids@.map_values(|s: String| s@);
    let mut batch: Vec<String> = Vec::new();
    let mut i: usize = start;
    while i < end
        invariant
            start <= i <= end <= ids@.len(),
            all == ids@.map_values(|s: String| s@),
            batch@.map_values(|s: String| s@) == all.subrange(start as int, i as int),
        decreases end - i,
    {
        let ghost prev = batch@.map_values(|s: String| s@);
        batch.push(ids[i].clone());
        assert(batch@.map_values(|s: String| s@) =~= prev.push(all[i as int]));
        i += 1;
        assert(batch@.map_values(|s: String| s@) =~= all.subrange(start as int, i as int));
    }
    batch
}

/// Takes one step of the VRChat part: the event that came of the last action moves the
/// state and the progress on and gives the next action. An event that does not fit the
/// stage changes nothing and gives `Ignore`.
#[verifier::spinoff_prover]
#[verifier::rlimit(40)]
pub fn cloud_step(state: &mut CloudState, progress: &mut Progress, event: CloudEvent, local_done: bool) -> (a: CloudAction)
    ensures
        // The profile counts stay consistent from the curated friends on.
        profiles_consistent(old(state)@, *old(progress)) ==> profiles_consistent(final(state)@, *final(progress)),
        old(state)@.stage is FriendIds && event is FriendIds ==> profiles_consistent(final(state)@, *final(progress)),
        !accepts(old(state)@, *old(progress), event) ==> {
            &&& a is Ignore
            &&& final(state)@ == old(state)@
            &&& *final(progress) == *old(progress)
        },
        accepts(old(state)@, *old(progress), event) ==> !(a is Ignore),
        // Without a session nothing is synced; with one the friend list comes first.
        old(state)@.stage is Idle ==> (event matches CloudEvent::Started(has_session) ==> {
            &&& !has_session ==> {
                &&& a matches CloudAction::Finish(CloudOutcome::Skipped)
                &&& final(state)@ == in_stage(old(state)@, CloudStage::Done)
                &&& *final(progress) == *old(progress)
            }
            &&& has_session ==> {
                &&& a is FetchFriends
                &&& final(state)@ == in_stage(old(state)@, CloudStage::Friends)
                &&& final(progress).phase@ == "friends"@
                &&& final(progress).message@ == hint_spec("正在同步 VRChat 好友列表…"@, local_done)
                &&& same_counts(*final(progress), *old(progress))
            }
        }),
        // A failed friend list sync ends the part.
        old(state)@.stage is Friends ==> (event matches CloudEvent::FriendsErr(e) ==> {
            &&& a matches CloudAction::Finish(o) && friends_failure(o, e@)
            &&& final(state)@ == in_stage(old(state)@, CloudStage::Done)
            &&& *final(progress) == *old(progress)
        }),
        old(state)@.stage is Friends ==> (event matches CloudEvent::FriendsOk(f) ==> {
            &&& a is Continue
            &&& final(state)@ == CloudView { stage: CloudStage::FriendsSynced, friends: f, ..old(state)@ }
            &&& final(progress).phase == old(progress).phase
            &&& final(progress).message@ == hint_spec(friends_message_spec(f), local_done)
            &&& same_counts(*final(progress), *old(progress))
        }),
        // The gallery comes after the friend list.
        old(state)@.stage is FriendsSynced && event is Next ==> {
            &&& a is FetchGallery
            &&& final(state)@ == in_stage(old(state)@, CloudStage::Gallery)
            &&& final(progress).phase@ == "gallery"@
            &&& final(progress).message@ == hint_spec("正在同步 VRChat 相册与拍立得…"@, local_done)
            &&& same_counts(*final(progress), *old(progress))
        },
        // A failed gallery sync ends the part.
        old(state)@.stage is Gallery ==> (event matches CloudEvent::GalleryErr(e) ==> {
            &&& a matches CloudAction::Finish(o) && gallery_failure(o, old(state)@.friends.total, e@)
            &&& final(state)@ == in_stage(old(state)@, CloudStage::Done)
            &&& *final(progress) == *old(progress)
        }),
        old(state)@.stage is Gallery ==> (event matches CloudEvent::GalleryOk(g) ==> {
            &&& a is FetchFriendIds
            &&& final(state)@ == CloudView { stage: CloudStage::FriendIds, gallery: g, ..old(state)@ }
            &&& final(progress).gallery_count == g
            &&& final(progress).phase == old(progress).phase
            &&& final(progress).message == old(progress).message
            &&& final(progress).current == old(progress).current
            &&& final(progress).total == old(progress).total
            &&& final(progress).succeeded == old(progress).succeeded
            &&& final(progress).failed == old(progress).failed
        }),
        // The profile refresh starts from zero over the curated friends.
        old(state)@.stage is FriendIds ==> (event matches CloudEvent::FriendIds(ids) ==> {
            &&& a is LoadSession
            &&& final(state)@ == CloudView {
                stage: CloudStage::Batches,
                ids: ids@.map_values(|s: String| s@),
                next: 0,
                pending: 0,
                expired: false,
                ..old(state)@
            }
            &&& final(progress).phase@ == "profiles"@
            &&& final(progress).current == 0
            &&& final(progress).succeeded == 0
            &&& final(progress).failed == 0
            &&& final(progress).total == ids@.len()
            &&& final(progress).gallery_count == old(progress).gallery_count
            &&& final(progress).message@ == hint_spec("正在刷新精选好友资料 0/"@ + decimal(ids@.len()), local_done)
        }),
        // Each batch is the next five friends (fewer at the end), in order.
        old(state)@.stage is Batches && event is Next && old(state)@.next < old(state)@.ids.len() ==> {
            &&& a matches CloudAction::FetchBatch(b) && b@.map_values(|s: String| s@) == old(state)@.ids.subrange(
                old(state)@.next,
                batch_end(old(state)@.ids, old(state)@.next),
            ) && b@.len() == batch_end(old(state)@.ids, old(state)@.next) - old(state)@.next
            &&& final(state)@ == CloudView {
                stage: CloudStage::Batch,
                next: batch_end(old(state)@.ids, old(state)@.next),
                pending: batch_end(old(state)@.ids, old(state)@.next) - old(state)@.next,
                ..old(state)@
            }
            &&& *final(progress) == *old(progress)
        },
        // When every batch is done, the part ends with the counts.
        old(state)@.stage is Batches && event is Next && old(state)@.next >= old(state)@.ids.len() ==> {
            &&& a matches CloudAction::Finish(o) && cloud_finished(
                o,
                *old(progress),
                old(state)@.friends,
                old(state)@.gallery,
                old(state)@.expired,
            )
            &&& final(state)@ == in_stage(old(state)@, CloudStage::Done)
            &&& *final(progress) == *old(progress)
        },
        // A refresh that ends without an expired login has counted every curated friend.
        old(state)@.stage is Batches && event is Next && old(state)@.next >= old(state)@.ids.len()
            && profiles_consistent(old(state)@, *old(progress)) ==> (a matches CloudAction::Finish(
            CloudOutcome::Done { profiles_succeeded, profiles_failed, .. },
        ) && profiles_succeeded + profiles_failed == old(state)@.ids.len()),
        // Each result of a batch is counted.
        accepts(old(state)@, *old(progress), event) ==> (event matches CloudEvent::Profile(r) ==> {
            &&& a is AwaitProfile
            &&& profile_counted(*final(progress), final(state)@.expired, *old(progress), old(state)@.expired, r, local_done)
            &&& final(state)@ == CloudView {
                pending: old(state)@.pending - 1,
                expired: final(state)@.expired,
                ..old(state)@
            }
        }),
        // After a batch in which the login expired the part ends as expired; otherwise
        // the caller pauses before the next batch.
        old(state)@.stage is Batch && event is BatchDone && old(state)@.pending == 0 ==> {
            &&& old(state)@.expired ==> {
                &&& a matches CloudAction::Finish(o) && cloud_finished(
                    o,
                    *old(progress),
                    old(state)@.friends,
                    old(state)@.gallery,
                    true,
                )
                &&& final(state)@ == CloudView { stage: CloudStage::Done, pending: 0, ..old(state)@ }
            }
            &&& !old(state)@.expired ==> {
                &&& a matches CloudAction::Pause(ms) && ms == PROFILE_BATCH_PAUSE_MS
                &&& final(state)@ == CloudView { stage: CloudStage::Batches, pending: 0, ..old(state)@ }
            }
            &&& *final(progress) == *old(progress)
        },
{
    match state.stage {
        CloudStage::Idle => {
            if let CloudEvent::Started(has_session) = event {
                if has_session {
                    begin_friends(progress, local_done);
                    state.stage = CloudStage::Friends;
                    CloudAction::FetchFriends
                } else {
                    state.stage = CloudStage::Done;
                    CloudAction::Finish(CloudOutcome::Skipped)
                }
            } else {
                CloudAction::Ignore
            }
        },
        CloudStage::Friends => match event {
            CloudEvent::FriendsOk(f) => {
                friends_synced(progress, &f, local_done);
                state.friends = f;
                state.stage = CloudStage::FriendsSynced;
                CloudAction::Continue
            },
            CloudEvent::FriendsErr(e) => {
                state.stage = CloudStage::Done;
                CloudAction::Finish(friends_failed(e.as_str()))
            },
            _ => CloudAction::Ignore,
        },
        CloudStage::FriendsSynced => {
            if let CloudEvent::Next = event {
                begin_gallery(progress, local_done);
                state.stage = CloudStage::Gallery;
                CloudAction::FetchGallery
            } else {
                CloudAction::Ignore
            }
        },
        CloudStage::Gallery => match event {
            CloudEvent::GalleryOk(g) => {
                progress.gallery_count = g;
                state.gallery = g;
                state.stage = CloudStage::FriendIds;
                CloudAction::FetchFriendIds
            },
            CloudEvent::GalleryErr(e) => {
                state.stage = CloudStage::Done;
                CloudAction::Finish(gallery_failed(state.friends.total, e.as_str()))
            },
            _ => CloudAction::Ignore,
        },
        CloudStage::FriendIds => {
            if let CloudEvent::FriendIds(ids) = event {
                begin_profiles(progress, ids.len(), local_done);
                state.ids = ids;
                state.next = 0;
                state.pending = 0;
                state.expired = false;
                state.stage = CloudStage::Batches;
                CloudAction::LoadSession
            } else {
                CloudAction::Ignore
            }
        },
        CloudStage::Batches => {
            if let CloudEvent::Next = event {
                if state.next < state.ids.len() {
                    let start = state.next;
                    let end: usize = if state.ids.len() - start >= PROFILE_CONCURRENCY {
                        start + PROFILE_CONCURRENCY
                    } else {
                        state.ids.len()
                    };
                    let batch = batch_of(&state.ids, start, end);
                    state.next = end;
                    state.pending = end - start;
                    state.stage = CloudStage::Batch;
                    CloudAction::FetchBatch(batch)
                } else {
                    state.stage = CloudStage::Done;
                    CloudAction::Finish(finish_cloud(progress, &state.friends, state.gallery, state.expired))
                }
            } else {
                CloudAction::Ignore
            }
        },
        CloudStage::Batch => match event {
            CloudEvent::Profile(r) => {
                if state.pending > 0 && progress.current < progress.total && progress.succeeded <= progress.current
                    && progress.current - progress.succeeded == progress.failed {
                    profile_result(progress, &mut state.expired, r, local_done);
                    state.pending = state.pending - 1;
                    CloudAction::AwaitProfile
                } else {
                    CloudAction::Ignore
                }
            },
            CloudEvent::BatchDone => {
                if state.pending > 0 {
                    return CloudAction::Ignore;
                }
                if state.expired {
                    state.stage = CloudStage::Done;
                    CloudAction::Finish(finish_cloud(progress, &state.friends, state.gallery, true))
                } else {
                    state.stage = CloudStage::Batches;
                    CloudAction::Pause(PROFILE_BATCH_PAUSE_MS)
                }
            },
            _ => CloudAction::Ignore,
        },
        CloudStage::Done => CloudAction::Ignore,
    }
}

} // verus!
