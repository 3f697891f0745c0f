//! The sync status that the user interface polls, and the small rules of the application
//! shell: the last-sync record, the automatic sync interval and the folders to watch.

use vstd::prelude::*;
use crate::db::AppSettings;
use crate::sync::{Outcome, Progress};
use crate::text::opt_text;

verus! {

/// The state of the current or last sync.
#[derive(Debug, PartialEq, Eq)]
pub struct SyncStatus {
    pub running: bool,
    pub phase: String,
    pub current: usize,
    pub total: usize,
    pub succeeded: usize,
    pub failed: usize,
    pub gallery_count: usize,
    pub message: String,
    pub started_at: Option<String>,
    pub finished_at: Option<String>,
}

/// Whether a status is the one before any sync.
pub open spec fn is_idle_status(s: SyncStatus) -> bool {
    &&& !s.running
    &&& s.phase@ == "idle"@
    &&& s.current == 0 && s.total == 0 && s.succeeded == 0 && s.failed == 0 && s.gallery_count == 0
    &&& s.message@ == "尚未开始同步"@
    &&& s.started_at is None && s.finished_at is None
}

impl Default for SyncStatus {
    fn default() -> (r: SyncStatus)
        ensures
            is_idle_status(r),
    {
        SyncStatus {
            running: false,
            phase: "idle".to_owned(),
            current: 0,
            total: 0,
            succeeded: 0,
            failed: 0,
            gallery_count: 0,
            message: "尚未开始同步".to_owned(),
            started_at: None,
            finished_at: None,
        }
    }
}

/// Whether two statuses are the same.
pub open spec fn same_status(a: SyncStatus, b: SyncStatus) -> bool {
    &&& a.running == b.running
    &&& a.phase@ == b.phase@
    &&& a.current == b.current && a.total == b.total && a.succeeded == b.succeeded
    &&& a.failed == b.failed && a.gallery_count == b.gallery_count
    &&& a.message@ == b.message@
    &&& opt_text(a.started_at) == opt_text(b.started_at)
    &&& opt_text(a.finished_at) == opt_text(b.finished_at)
}

impl SyncStatus {
    /// A copy of the status, as handed to the user interface.
    pub fn snapshot(&self) -> (r: SyncStatus)
        ensures
            same_status(r, *self),
    {
        SyncStatus {
            running: self.running,
            phase: self.phase.clone(),
            current: self.current,
            total: self.total,
            succeeded: self.succeeded,
            failed: self.failed,
            gallery_count: self.gallery_count,
            message: self.message.clone(),
            started_at: self.started_at.clone(),
            finished_at: self.finished_at.clone(),
        }
    }

    /// Starts a sync at time `now`, unless one is running: then nothing changes and the
    /// result is `false`.
    pub fn start(&mut self, now: String) -> (started: bool)
        ensures
            started == !old(self).running,
            !started ==> same_status(*final(self), *old(self)),
            started ==> {
                &&& final(self).running
                &&& final(self).phase@ == "starting"@
                &&& final(self).message@ == "正在启动同步…"@
                &&& final(self).current == 0 && final(self).total == 0 && final(self).succeeded == 0
                &&& final(self).failed == 0 && final(self).gallery_count == 0
                &&& opt_text(final(self).started_at) == Some(now@)
                &&& final(self).finished_at is None
            },
    {
        if self.running {
            return false;
        }
        *self = SyncStatus {
            running: true,
            phase: "starting".to_owned(),
            current: 0,
            total: 0,
            succeeded: 0,
            failed: 0,
            gallery_count: 0,
            message: "正在启动同步…".to_owned(),
            started_at: Some(now),
            finished_at: None,
        };
        true
    }

    /// Takes over a progress report; whether it runs, and when it started and finished,
    /// stay as they were.
    pub fn apply_progress(&mut self, progress: Progress)
        ensures
            final(self).running == old(self).running,
            final(self).phase@ == progress.phase@,
            final(self).current == progress.current,
            final(self).total == progress.total,
            final(self).succeeded == progress.succeeded,
            final(self).failed == progress.failed,
            final(self).gallery_count == progress.gallery_count,
            final(self).message@ == progress.message@,
            final(self).started_at == old(self).started_at,
            final(self).finished_at == old(self).finished_at,
    {
        self.phase = progress.phase;
        self.current = progress.current;
        self.total = progress.total;
        self.succeeded = progress.succeeded;
        self.failed = progress.failed;
        self.gallery_count = progress.gallery_count;
        self.message = progress.message;
    }

    /// Ends the sync at `now` with its outcome: its final phase and message.
    pub fn finish_ok(&mut self, outcome: Outcome, now: String)
        ensures
            !final(self).running,
            opt_text(final(self).finished_at) == Some(now@),
            final(self).phase@ == outcome.progress.phase@,
            final(self).message@ == outcome.progress.message@,
            final(self).current == old(self).current && final(self).total == old(self).total,
            final(self).succeeded == old(self).succeeded && final(self).failed == old(self).failed,
            final(self).gallery_count == old(self).gallery_count,
            final(self).started_at == old(self).started_at,
    {
        self.running = false;
        self.finished_at = Some(now);
        self.phase = outcome.progress.phase;
        self.message = outcome.progress.message;
    }

    /// Ends the sync at `now` with an error: phase `failed` and the error in the message.
    pub fn finish_err(&mut self, error: &str, now: String)
        ensures
            !final(self).running,
            opt_text(final(self).finished_at) == Some(now@),
            final(self).phase@ == "failed"@,
            final(self).message@ == "同步失败："@ + error@,
            final(self).current == old(self).current && final(self).total == old(self).total,
            final(self).succeeded == old(self).succeeded && final(self).failed == old(self).failed,
            final(self).gallery_count == old(self).gallery_count,
            final(self).started_at == old(self).started_at,
    {
        self.running = false;
        self.finished_at = Some(now);
        self.phase = "failed".to_owned();
        let mut m = "同步失败：".to_owned();
        m.append(error);
        self.message = m;
    }
}

/// When and how the last sync ended, as stored.
#[derive(Debug, PartialEq, Eq)]
pub struct LastSync {
    pub at: Option<String>,
    pub message: Option<String>,
    pub success: Option<bool>,
}

/// The last-sync record from the stored texts: success when the stored flag is `true`.
pub fn last_sync(at: Option<String>, message: Option<String>, success: Option<String>) -> (r: LastSync)
    ensures
        r.at == at,
        r.message == message,
        r.success == match success {
            Some(v) => Some(v@ == "true"@),
            None => None,
        },
{
    let flag = match &success {
        Some(v) => Some(crate::text::str_eq(v.as_str(), "true")),
        None => None,
    };
    LastSync { at, message, success: flag }
}

/// Minutes between automatic syncs: the setting, at least 5; 15 when the settings
/// cannot be read.
pub fn sync_interval_minutes(setting: Option<i64>) -> (r: i64)
    ensures
        r == match setting {
            Some(m) => if m < 5 { 5 } else { m },
            None => 15,
        },
        r >= 5,
{
    match setting {
        Some(m) => if m < 5 {
            5
        } else {
            m
        },
        None => 15,
    }
}

/// Seconds between automatic syncs.
pub fn sync_interval_seconds(minutes: i64) -> (r: u64)
    requires
        0 <= minutes,
        minutes * 60 <= u64::MAX,
    ensures
        r == minutes * 60,
{
    (minutes as u64) * 60
}

/// The configured folders that get watchers, with their kind: the album folder and the
/// Steam folder, each when set and not empty.
pub fn watched_folders(settings: &AppSettings) -> (r: Vec<(String, String)>)
    ensures
        r@.map_values(|x: (String, String)| (x.0@, x.1@)) == {
            let a = match settings@.album_folder {
                Some(p) => if p.len() > 0 { seq![(p, "album"@)] } else { seq![] },
                None => seq![],
            };
            match settings@.steam_screenshot_folder {
                Some(p) => if p.len() > 0 { a.push((p, "screenshot"@)) } else { a },
                None => a,
            }
        },
{
    let mut out: Vec<(String, String)> = Vec::new();
    if let Some(p) = &settings.album_folder {
        if !p.as_str().is_empty() {
            out.push((p.clone(), "album".to_owned()));
        }
    }
    let ghost a = out@.map_values(|x: (String, String)| (x.0@, x.1@));
    if let Some(p) = &settings.steam_screenshot_folder {
        if !p.as_str().is_empty() {
            out.push((p.clone(), "screenshot".to_owned()));
            assert(out@.map_values(|x: (String, String)| (x.0@, x.1@)) =~= a.push((p@, "screenshot"@)));
        }
    }
    proof {
        let expected_a = match settings@.album_folder {
            Some(p) => if p.len() > 0 { seq![(p, "album"@)] } else { seq![] },
            None => seq![],
        };
        assert(a =~= expected_a);
    }
    out
}

} // verus!
