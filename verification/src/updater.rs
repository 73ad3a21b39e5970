//! The update flow as a state machine.
//!
//! The shell performs the slow work (asking the update server, downloading,
//! installing, restarting) and reports each outcome as an [`UpdateEvent`].
//! [`UpdateFlow::step`] answers with the next [`UpdateAction`]. A failure at
//! any point ends the flow with a report and nothing else: the running
//! application is never blocked by it.

use vstd::prelude::*;

verus! {

/// Where the update flow stands.
#[derive(Clone, Copy, Debug, PartialEq, Eq, Structural)]
pub enum UpdatePhase {
    /// Nothing has been asked yet.
    Idle,
    /// The update server has been asked whether an update exists.
    Checking,
    /// An update is being downloaded.
    Downloading,
    /// The download is complete; the package is being verified and installed.
    Installing,
    /// Finished: the server offered no update.
    UpToDate,
    /// Finished: the check, the download or the installation failed.
    Failed,
    /// Finished: the update is installed and a restart was asked for.
    Restarting,
}

/// What the shell reports to the flow.
#[derive(Clone, Copy, Debug, PartialEq, Eq)]
pub enum UpdateEvent {
    /// The application has started.
    Started,
    /// The check could not be made or did not complete.
    CheckFailed,
    /// The check completed and there is no update.
    NoUpdate,
    /// The check completed and there is an update.
    UpdateAvailable,
    /// `length` more bytes have arrived; `total` is the announced size of
    /// the whole download, where the server gave one.
    Chunk { length: usize, total: Option<u64> },
    /// The last byte has arrived.
    DownloadFinished,
    /// Download and installation completed.
    InstallSucceeded,
    /// Download or installation failed.
    InstallFailed,
}

/// What the shell is to do next.
#[derive(Clone, Copy, Debug, PartialEq, Eq)]
pub enum UpdateAction {
    /// Nothing.
    Nothing,
    /// Ask the update server whether an update exists.
    Check,
    /// Download the update and install it.
    DownloadAndInstall,
    /// Report that `downloaded` bytes have arrived so far, of `total` where
    /// the size is known.
    ReportProgress { downloaded: usize, total: Option<u64> },
    /// Report that the download is complete.
    ReportDownloadFinished,
    /// Report the failure and carry on with the running version.
    ReportFailure,
    /// Report that the update is installed and restart the application.
    Restart,
}

/// The update flow of one application run.
#[derive(Debug)]
pub struct UpdateFlow {
    phase: UpdatePhase,
    downloaded: usize,
}

/// The mathematical model of an [`UpdateFlow`].
pub struct FlowView {
    pub phase: UpdatePhase,
    /// Bytes counted since the download began.
    pub downloaded: nat,
}

/// The flow is over: no event changes it any more.
pub open spec fn is_final(phase: UpdatePhase) -> bool {
    phase is UpToDate || phase is Failed || phase is Restarting
}

/// The byte count after `length` more bytes, held at the largest count that
/// the machine can represent.
pub open spec fn count_bytes(downloaded: nat, length: nat) -> nat {
    if downloaded + length > usize::MAX {
        usize::MAX as nat
    } else {
        downloaded + length
    }
}

/// The state that follows `s` on `event`, and the action that the shell is
/// to take. An event that the current phase does not expect changes nothing
/// and asks for nothing.
pub open spec fn next(s: FlowView, event: UpdateEvent) -> (FlowView, UpdateAction) {
    match (s.phase, event) {
        (UpdatePhase::Idle, UpdateEvent::Started) => (
            FlowView { phase: UpdatePhase::Checking, downloaded: 0 },
            UpdateAction::Check,
        ),
        (UpdatePhase::Checking, UpdateEvent::CheckFailed) => (
            FlowView { phase: UpdatePhase::Failed, ..s },
            UpdateAction::ReportFailure,
        ),
        (UpdatePhase::Checking, UpdateEvent::NoUpdate) => (
            FlowView { phase: UpdatePhase::UpToDate, ..s },
            UpdateAction::Nothing,
        ),
        (UpdatePhase::Checking, UpdateEvent::UpdateAvailable) => (
            FlowView { phase: UpdatePhase::Downloading, downloaded: 0 },
            UpdateAction::DownloadAndInstall,
        ),
        (UpdatePhase::Downloading, UpdateEvent::Chunk { length, total }) => {
            let downloaded: nat = count_bytes(s.downloaded, length as nat);
            (
                FlowView { phase: UpdatePhase::Downloading, downloaded },
                UpdateAction::ReportProgress { downloaded: downloaded as usize, total },
            )
        },
        (UpdatePhase::Downloading, UpdateEvent::DownloadFinished) => (
            FlowView { phase: UpdatePhase::Installing, ..s },
            UpdateAction::ReportDownloadFinished,
        ),
        (UpdatePhase::Downloading, UpdateEvent::InstallSucceeded)
        | (UpdatePhase::Installing, UpdateEvent::InstallSucceeded) => (
            FlowView { phase: UpdatePhase::Restarting, ..s },
            UpdateAction::Restart,
        ),
        (UpdatePhase::Downloading, UpdateEvent::InstallFailed)
        | (UpdatePhase::Installing, UpdateEvent::InstallFailed) => (
            FlowView { phase: UpdatePhase::Failed, ..s },
            UpdateAction::ReportFailure,
        ),
        _ => (s, UpdateAction::Nothing),
    }
}

/// The state after a series of events.
pub open spec fn after(s: FlowView, events: Seq<UpdateEvent>) -> FlowView
    decreases events.len(),
{
    if events.len() == 0 {
        s
    } else {
        after(next(s, events.first()).0, events.drop_first())
    }
}

/// How many bytes the chunks of a series of events bring.
pub open spec fn bytes_arrived(events: Seq<UpdateEvent>) -> nat
    decreases events.len(),
{
    if events.len() == 0 {
        0
    } else {
        let here: nat = match events.first() {
            UpdateEvent::Chunk { length, .. } => length as nat,
            _ => 0,
        };
        here + bytes_arrived(events.drop_first())
    }
}

/// How often a series of events is answered with `Restart`.
pub open spec fn restarts(s: FlowView, events: Seq<UpdateEvent>) -> nat
    decreases events.len(),
{
    if events.len() == 0 {
        0
    } else {
        let (then, action) = next(s, events.first());
        let here: nat = if action is Restart {
            1
        } else {
            0
        };
        here + restarts(then, events.drop_first())
    }
}

impl View for UpdateFlow {
    type V = FlowView;

    closed spec fn view(&self) -> FlowView {
        FlowView { phase: self.phase, downloaded: self.downloaded as nat }
    }
}

impl UpdateFlow {
    /// A flow that has not started.
    pub fn new() -> (flow: UpdateFlow)
        ensures
            flow@ == (FlowView { phase: UpdatePhase::Idle, downloaded: 0 }),
    {
        UpdateFlow { phase: UpdatePhase::Idle, downloaded: 0 }
    }

    /// The current phase.
    pub fn phase(&self) -> (phase: UpdatePhase)
        ensures
            phase == self@.phase,
    {
        self.phase
    }

    /// Bytes counted since the download began.
    pub fn downloaded(&self) -> (n: usize)
        ensures
            n == self@.downloaded,
    {
        self.downloaded
    }

    /// Whether the flow is over.
    pub fn is_finished(&self) -> (b: bool)
        ensures
            b == is_final(self@.phase),
    {
        match self.phase {
            UpdatePhase::UpToDate | UpdatePhase::Failed | UpdatePhase::Restarting => true,
            _ => false,
        }
    }

    /// Takes one event and says what the shell is to do next.
    pub fn step(&mut self, event: UpdateEvent) -> (action: UpdateAction)
        ensures
            (final(self)@, action) == next(old(self)@, event),
    {
        match (self.phase, event) {
            (UpdatePhase::Idle, UpdateEvent::Started) => {
                self.phase = UpdatePhase::Checking;
                self.downloaded = 0;
                UpdateAction::Check
            },
            (UpdatePhase::Checking, UpdateEvent::CheckFailed) => {
                self.phase = UpdatePhase::Failed;
                UpdateAction::ReportFailure
            },
            (UpdatePhase::Checking, UpdateEvent::NoUpdate) => {
                self.phase = UpdatePhase::UpToDate;
                UpdateAction::Nothing
            },
            (UpdatePhase::Checking, UpdateEvent::UpdateAvailable) => {
                self.phase = UpdatePhase::Downloading;
                self.downloaded = 0;
                UpdateAction::DownloadAndInstall
            },
            (UpdatePhase::Downloading, UpdateEvent::Chunk { length, total }) => {
                self.downloaded = self.downloaded.saturating_add(length);
                UpdateAction::ReportProgress { downloaded: self.downloaded, total }
            },
            (UpdatePhase::Downloading, UpdateEvent::DownloadFinished) => {
                self.phase = UpdatePhase::Installing;
                UpdateAction::ReportDownloadFinished
            },
            (UpdatePhase::Downloading, UpdateEvent::InstallSucceeded)
            | (UpdatePhase::Installing, UpdateEvent::InstallSucceeded) => {
                self.phase = UpdatePhase::Restarting;
                UpdateAction::Restart
            },
            (UpdatePhase::Downloading, UpdateEvent::InstallFailed)
            | (UpdatePhase::Installing, UpdateEvent::InstallFailed) => {
                self.phase = UpdatePhase::Failed;
                UpdateAction::ReportFailure
            },
            _ => UpdateAction::Nothing,
        }
    }
}

/// A flow that is over stays as it is and asks for nothing more, whatever
/// is reported to it.
pub proof fn lemma_finished_flow_ignores_events(s: FlowView, event: UpdateEvent)
    requires
        is_final(s.phase),
    ensures
        next(s, event) == (s, UpdateAction::Nothing),
{
}

/// A failure never blocks the running application: a reported failure ends
/// the flow, and a failure event never leads to a restart.
pub proof fn lemma_failure_ends_the_flow(s: FlowView, event: UpdateEvent)
    ensures
        next(s, event).1 is ReportFailure ==> next(s, event).0.phase is Failed,
        event is CheckFailed || event is InstallFailed ==> !(next(s, event).1 is Restart),
        event is CheckFailed || event is InstallFailed ==> next(s, event).1 is ReportFailure
            || next(s, event) == (s, UpdateAction::Nothing),
{
}

/// A restart is asked for only when an installation has succeeded, and it
/// ends the flow.
pub proof fn lemma_restart_follows_installation(s: FlowView, event: UpdateEvent)
    requires
        next(s, event).1 is Restart,
    ensures
        event is InstallSucceeded,
        s.phase is Downloading || s.phase is Installing,
        next(s, event).0.phase is Restarting,
{
}

/// However the events fall, the flow asks for a restart at most once, and
/// never once it is over.
pub proof fn lemma_flow_restarts_at_most_once(s: FlowView, events: Seq<UpdateEvent>)
    ensures
        restarts(s, events) <= 1,
        is_final(s.phase) ==> restarts(s, events) == 0,
    decreases events.len(),
{
    if events.len() > 0 {
        lemma_flow_restarts_at_most_once(next(s, events.first()).0, events.drop_first());
    }
}

/// While a download runs, the count that is reported is the sum of all the
/// chunks so far, held at the largest count that the machine can represent.
pub proof fn lemma_progress_is_the_sum_of_chunks(s: FlowView, chunks: Seq<UpdateEvent>)
    requires
        s.phase is Downloading,
        s.downloaded <= usize::MAX,
        forall|i: int| 0 <= i < chunks.len() ==> chunks[i] is Chunk,
    ensures
        after(s, chunks).phase is Downloading,
        after(s, chunks).downloaded == count_bytes(s.downloaded, bytes_arrived(chunks)),
    decreases chunks.len(),
{
    if chunks.len() > 0 {
        let rest = chunks.drop_first();
        assert(chunks.first() is Chunk);
        assert forall|i: int| 0 <= i < rest.len() implies rest[i] is Chunk by {
            assert(rest[i] == chunks[i + 1]);
        }
        lemma_progress_is_the_sum_of_chunks(next(s, chunks.first()).0, rest);
    }
}

/// The byte count never goes down while a download runs, and never leaves
/// the range of the machine's counter.
pub proof fn lemma_progress_only_grows(s: FlowView, length: usize, total: Option<u64>)
    requires
        s.phase is Downloading,
        s.downloaded <= usize::MAX,
    ensures
        next(s, UpdateEvent::Chunk { length, total }).0.downloaded >= s.downloaded,
        next(s, UpdateEvent::Chunk { length, total }).0.downloaded <= usize::MAX,
        s.downloaded + length <= usize::MAX ==> next(
            s,
            UpdateEvent::Chunk { length, total },
        ).0.downloaded == s.downloaded + length,
{
}

} // verus!
