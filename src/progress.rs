use vstd::prelude::*;

use crate::artwork::{decimal, decimal_string};

verus! {

/// How far a synchronisation pass has come.
#[derive(Clone, Copy, Debug, PartialEq, Eq, Structural)]
pub enum SyncProgress {
    NotStarted,
    Starting,
    FoundGames { games_found: usize },
    FindingImages,
    DownloadingImages { to_download: usize },
    Done,
}

/// The position of a stage in the pass.
pub open spec fn stage(p: SyncProgress) -> nat {
    match p {
        SyncProgress::NotStarted => 0,
        SyncProgress::Starting => 1,
        SyncProgress::FoundGames { .. } => 2,
        SyncProgress::FindingImages => 3,
        SyncProgress::DownloadingImages { .. } => 4,
        SyncProgress::Done => 5,
    }
}

/// A pass is running: started and not done.
pub open spec fn syncing(p: SyncProgress) -> bool {
    !(p is NotStarted) && !(p is Done)
}

/// The line shown for a stage.
pub open spec fn status_text(p: SyncProgress) -> Seq<char> {
    match p {
        SyncProgress::NotStarted => ""@,
        SyncProgress::Starting => "Starting Import"@,
        SyncProgress::FoundGames { games_found } => "Found "@ + decimal(games_found as nat)
            + " games to  import"@,
        SyncProgress::FindingImages => "Searching for images"@,
        SyncProgress::DownloadingImages { to_download } => "Downloading "@ + decimal(
            to_download as nat,
        ) + " images "@,
        SyncProgress::Done => "Done importing games"@,
    }
}

impl SyncProgress {
    /// The status line, and whether a pass is running.
    pub fn status(&self) -> (r: (String, bool))
        ensures
            r.0@ == status_text(*self),
            r.1 == syncing(*self),
    {
        match self {
            SyncProgress::NotStarted => {
                proof {
                    reveal_strlit("");
                }
                (String::new(), false)
            },
            SyncProgress::Starting => (String::from_str("Starting Import"), true),
            SyncProgress::FoundGames { games_found } => {
                let mut s = String::from_str("Found ");
                s.append(decimal_string(*games_found as u64).as_str());
                s.append(" games to  import");
                (s, true)
            },
            SyncProgress::FindingImages => (String::from_str("Searching for images"), true),
            SyncProgress::DownloadingImages { to_download } => {
                let mut s = String::from_str("Downloading ");
                s.append(decimal_string(*to_download as u64).as_str());
                s.append(" images ");
                (s, true)
            },
            SyncProgress::Done => (String::from_str("Done importing games"), false),
        }
    }

    /// Whether a pass is running.
    pub fn is_syncing(&self) -> (r: bool)
        ensures
            r == syncing(*self),
    {
        match self {
            SyncProgress::NotStarted => false,
            SyncProgress::Done => false,
            _ => true,
        }
    }

    fn rank(&self) -> (r: u8)
        ensures
            r as nat == stage(*self),
    {
        match self {
            SyncProgress::NotStarted => 0,
            SyncProgress::Starting => 1,
            SyncProgress::FoundGames { .. } => 2,
            SyncProgress::FindingImages => 3,
            SyncProgress::DownloadingImages { .. } => 4,
            SyncProgress::Done => 5,
        }
    }

    /// The progress after a report of `next`: a report of an earlier stage
    /// is ignored, so progress never goes back.
    pub fn advance(&self, next: SyncProgress) -> (r: SyncProgress)
        ensures
            r == (if stage(next) >= stage(*self) {
                next
            } else {
                *self
            }),
            stage(r) >= stage(*self),
    {
        if next.rank() >= self.rank() {
            next
        } else {
            *self
        }
    }
}

} // verus!
