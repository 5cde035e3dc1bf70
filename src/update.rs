use vstd::prelude::*;

verus! {

/// Where the self-update flow stands.
#[derive(Clone, Copy, Debug, PartialEq, Eq)]
pub enum UpdateState {
    /// Nothing asked yet.
    Idle,
    /// Waiting for the update service to say whether a newer version exists.
    Checking,
    /// Receiving the new version; `downloaded` counts the bytes so far.
    Downloading { downloaded: u64 },
    /// The download is complete and the installer runs.
    Installing,
    /// The new version is installed and the process restarts.
    Restarting,
    /// The service found no newer version.
    UpToDate,
    /// A step failed; the error was reported and nothing more happens.
    Failed,
}

/// What the update service or the installer reported.
#[derive(Clone, Copy, Debug, PartialEq, Eq)]
pub enum UpdateEvent {
    /// The application asks for a check.
    Start,
    /// The check finished; `found` tells whether a newer version exists.
    CheckDone { found: bool },
    /// The check could not be made.
    CheckFailed,
    /// `len` more bytes arrived out of `total`, when the service knows it.
    Chunk { len: u64, total: Option<u64> },
    /// The last byte arrived.
    DownloadFinished,
    /// Download and installation succeeded.
    InstallDone,
    /// Download or installation failed.
    InstallFailed,
}

/// What the application is to do next.
#[derive(Clone, Copy, Debug, PartialEq, Eq)]
pub enum UpdateAction {
    /// Nothing: wait for the next event.
    Wait,
    /// Ask the update service for a newer version.
    CheckForUpdate,
    /// Download the newer version and install it.
    DownloadAndInstall,
    /// Print the running byte count.
    ReportProgress { downloaded: u64, total: Option<u64> },
    /// Print that the download has finished.
    ReportDownloadFinished,
    /// Print that the update is installed, then restart the process.
    ReportInstalledAndRestart,
    /// Print the error to standard error; there is no retry.
    ReportError,
}

/// `a + b`, held at `u64::MAX`.
pub open spec fn saturating_sum(a: u64, b: u64) -> u64 {
    if a + b <= u64::MAX { (a + b) as u64 } else { u64::MAX }
}

impl UpdateState {
    /// No event leads out of these states.
    pub open spec fn is_final(self) -> bool {
        self is Restarting || self is UpToDate || self is Failed
    }

    /// The transition table of the update flow. An event that does not
    /// belong to the current state leaves it as it is.
    pub open spec fn next(self, ev: UpdateEvent) -> (UpdateState, UpdateAction) {
        match (self, ev) {
            (UpdateState::Idle, UpdateEvent::Start) => (UpdateState::Checking, UpdateAction::CheckForUpdate),
            (UpdateState::Checking, UpdateEvent::CheckDone { found }) => if found {
                (UpdateState::Downloading { downloaded: 0 }, UpdateAction::DownloadAndInstall)
            } else {
                (UpdateState::UpToDate, UpdateAction::Wait)
            },
            (UpdateState::Checking, UpdateEvent::CheckFailed) => (UpdateState::Failed, UpdateAction::ReportError),
            (UpdateState::Downloading { downloaded }, UpdateEvent::Chunk { len, total }) => {
                let d = saturating_sum(downloaded, len);
                (UpdateState::Downloading { downloaded: d }, UpdateAction::ReportProgress { downloaded: d, total })
            },
            (UpdateState::Downloading { .. }, UpdateEvent::DownloadFinished) => (UpdateState::Installing, UpdateAction::ReportDownloadFinished),
            (UpdateState::Downloading { .. }, UpdateEvent::InstallDone) => (UpdateState::Restarting, UpdateAction::ReportInstalledAndRestart),
            (UpdateState::Installing, UpdateEvent::InstallDone) => (UpdateState::Restarting, UpdateAction::ReportInstalledAndRestart),
            (UpdateState::Downloading { .. }, UpdateEvent::InstallFailed) => (UpdateState::Failed, UpdateAction::ReportError),
            (UpdateState::Installing, UpdateEvent::InstallFailed) => (UpdateState::Failed, UpdateAction::ReportError),
            _ => (self, UpdateAction::Wait),
        }
    }

    /// The state after each of `evs` in turn, and the actions on the way.
    pub open spec fn run(self, evs: Seq<UpdateEvent>) -> (UpdateState, Seq<UpdateAction>)
        decreases evs.len(),
    {
        if evs.len() == 0 {
            (self, Seq::empty())
        } else {
            let (s, a) = self.next(evs[0]);
            let (t, rest) = s.run(evs.drop_first());
            (t, seq![a] + rest)
        }
    }

    /// The state of a flow that has not started.
    pub fn new() -> (r: UpdateState)
        ensures
            r == UpdateState::Idle,
    {
        UpdateState::Idle
    }

    /// Takes one event and says what to do about it.
    pub fn step(self, ev: UpdateEvent) -> (r: (UpdateState, UpdateAction))
        ensures
            r == self.next(ev),
    {
        match (self, ev) {
            (UpdateState::Idle, UpdateEvent::Start) => (UpdateState::Checking, UpdateAction::CheckForUpdate),
            (UpdateState::Checking, UpdateEvent::CheckDone { found }) => if found {
                (UpdateState::Downloading { downloaded: 0 }, UpdateAction::DownloadAndInstall)
            } else {
                (UpdateState::UpToDate, UpdateAction::Wait)
            },
            (UpdateState::Checking, UpdateEvent::CheckFailed) => (UpdateState::Failed, UpdateAction::ReportError),
            (UpdateState::Downloading { downloaded }, UpdateEvent::Chunk { len, total }) => {
                let d: u64 = if len <= u64::MAX - downloaded { downloaded + len } else { u64::MAX };
                (UpdateState::Downloading { downloaded: d }, UpdateAction::ReportProgress { downloaded: d, total })
            },
            (UpdateState::Downloading { .. }, UpdateEvent::DownloadFinished) => (UpdateState::Installing, UpdateAction::ReportDownloadFinished),
            (UpdateState::Downloading { .. }, UpdateEvent::InstallDone) => (UpdateState::Restarting, UpdateAction::ReportInstalledAndRestart),
            (UpdateState::Installing, UpdateEvent::InstallDone) => (UpdateState::Restarting, UpdateAction::ReportInstalledAndRestart),
            (UpdateState::Downloading { .. }, UpdateEvent::InstallFailed) => (UpdateState::Failed, UpdateAction::ReportError),
            (UpdateState::Installing, UpdateEvent::InstallFailed) => (UpdateState::Failed, UpdateAction::ReportError),
            _ => (self, UpdateAction::Wait),
        }
    }
}

/// Once the flow has restarted, found no update or failed, no later event
/// changes the state, and every action it asks for is to wait.
pub proof fn lemma_final_state_absorbs(s: UpdateState, evs: Seq<UpdateEvent>)
    requires
        s.is_final(),
    ensures
        s.run(evs).0 == s,
        s.run(evs).1.len() == evs.len(),
        forall|i: int| 0 <= i < evs.len() ==> s.run(evs).1[i] == UpdateAction::Wait,
    decreases evs.len(),
{
    if evs.len() > 0 {
        lemma_final_state_absorbs(s, evs.drop_first());
        let rest = s.run(evs.drop_first()).1;
        assert forall|i: int| 0 <= i < evs.len() implies s.run(evs).1[i] == UpdateAction::Wait by {
            if i > 0 {
                assert(s.run(evs).1[i] == rest[i - 1]);
            }
        }
    }
}

/// The events of a check that finds no newer version, then `evs`.
pub open spec fn no_update_then(evs: Seq<UpdateEvent>) -> Seq<UpdateEvent> {
    seq![UpdateEvent::Start, UpdateEvent::CheckDone { found: false }] + evs
}

/// An action that downloads a new version or restarts the process.
pub open spec fn downloads_or_restarts(a: UpdateAction) -> bool {
    a is DownloadAndInstall || a is ReportInstalledAndRestart
}

/// A check that finds no newer version leads to no download and no
/// restart, whatever events come after it.
pub proof fn lemma_no_update_no_download_no_restart(evs: Seq<UpdateEvent>)
    ensures
        UpdateState::Idle.run(no_update_then(evs)).0 == UpdateState::UpToDate,
        forall|i: int|
            0 <= i < UpdateState::Idle.run(no_update_then(evs)).1.len() ==> !downloads_or_restarts(
                #[trigger] UpdateState::Idle.run(no_update_then(evs)).1[i],
            ),
{
    let all = no_update_then(evs);
    assert(all.drop_first() =~= seq![UpdateEvent::CheckDone { found: false }] + evs);
    assert(all.drop_first().drop_first() =~= evs);
    lemma_final_state_absorbs(UpdateState::UpToDate, evs);
    let mid = all.drop_first();
    let rest = UpdateState::UpToDate.run(evs).1;
    assert(mid[0] == UpdateEvent::CheckDone { found: false });
    assert(UpdateState::Checking.run(mid).0 == UpdateState::UpToDate);
    assert(UpdateState::Checking.run(mid).1 == seq![UpdateAction::Wait] + rest);
    assert(all[0] == UpdateEvent::Start);
    let acts = UpdateState::Idle.run(all).1;
    assert(acts == seq![UpdateAction::CheckForUpdate] + (seq![UpdateAction::Wait] + rest));
    assert(acts =~= seq![UpdateAction::CheckForUpdate, UpdateAction::Wait] + rest);
    assert forall|i: int| 0 <= i < acts.len() implies !downloads_or_restarts(acts[i]) by {
        if i >= 2 {
            assert(acts[i] == rest[i - 2]);
        }
    }
}

/// While downloading, the byte count never goes down, and each chunk adds
/// its length to it (held at `u64::MAX`).
pub proof fn lemma_download_count_never_decreases(s: UpdateState, ev: UpdateEvent)
    requires
        s is Downloading,
    ensures
        (s.next(ev).0 is Downloading) ==> s.next(ev).0->downloaded >= s->downloaded,
        (ev is Chunk) ==> s.next(ev).0 == (UpdateState::Downloading {
            downloaded: saturating_sum(s->downloaded, ev->len),
        }),
{
}

} // verus!
