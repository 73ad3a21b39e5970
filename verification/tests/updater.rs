use webview_shell::updater::{UpdateAction, UpdateEvent, UpdateFlow, UpdatePhase};

fn downloading() -> UpdateFlow {
    let mut flow = UpdateFlow::new();
    assert_eq!(flow.step(UpdateEvent::Started), UpdateAction::Check);
    assert_eq!(flow.step(UpdateEvent::UpdateAvailable), UpdateAction::DownloadAndInstall);
    flow
}

fn chunk(length: usize, total: Option<u64>) -> UpdateEvent {
    UpdateEvent::Chunk { length, total }
}

#[test]
fn a_new_flow_is_idle() {
    let flow = UpdateFlow::new();
    assert_eq!(flow.phase(), UpdatePhase::Idle);
    assert_eq!(flow.downloaded(), 0);
    assert!(!flow.is_finished());
}

#[test]
fn an_update_is_downloaded_installed_and_the_app_restarted() {
    let mut flow = UpdateFlow::new();
    assert_eq!(flow.step(UpdateEvent::Started), UpdateAction::Check);
    assert_eq!(flow.phase(), UpdatePhase::Checking);
    assert_eq!(flow.step(UpdateEvent::UpdateAvailable), UpdateAction::DownloadAndInstall);
    assert_eq!(flow.phase(), UpdatePhase::Downloading);
    assert_eq!(
        flow.step(chunk(1024, Some(4096))),
        UpdateAction::ReportProgress { downloaded: 1024, total: Some(4096) }
    );
    assert_eq!(
        flow.step(chunk(3072, Some(4096))),
        UpdateAction::ReportProgress { downloaded: 4096, total: Some(4096) }
    );
    assert_eq!(flow.step(UpdateEvent::DownloadFinished), UpdateAction::ReportDownloadFinished);
    assert_eq!(flow.phase(), UpdatePhase::Installing);
    assert!(!flow.is_finished());
    assert_eq!(flow.step(UpdateEvent::InstallSucceeded), UpdateAction::Restart);
    assert_eq!(flow.phase(), UpdatePhase::Restarting);
    assert!(flow.is_finished());
    assert_eq!(flow.downloaded(), 4096);
}

#[test]
fn progress_adds_up_the_chunks() {
    let mut flow = downloading();
    let mut sum = 0usize;
    for length in [0usize, 1, 7, 100, 65536, 3] {
        sum += length;
        assert_eq!(
            flow.step(chunk(length, None)),
            UpdateAction::ReportProgress { downloaded: sum, total: None }
        );
        assert_eq!(flow.downloaded(), sum);
    }
    assert_eq!(flow.downloaded(), 65647);
}

#[test]
fn progress_is_held_at_the_largest_count() {
    let mut flow = downloading();
    assert_eq!(
        flow.step(chunk(usize::MAX - 1, None)),
        UpdateAction::ReportProgress { downloaded: usize::MAX - 1, total: None }
    );
    assert_eq!(
        flow.step(chunk(1, None)),
        UpdateAction::ReportProgress { downloaded: usize::MAX, total: None }
    );
    assert_eq!(
        flow.step(chunk(5, Some(9))),
        UpdateAction::ReportProgress { downloaded: usize::MAX, total: Some(9) }
    );
    assert_eq!(flow.downloaded(), usize::MAX);
    assert_eq!(flow.phase(), UpdatePhase::Downloading);
}

#[test]
fn no_update_ends_the_flow_quietly() {
    let mut flow = UpdateFlow::new();
    flow.step(UpdateEvent::Started);
    assert_eq!(flow.step(UpdateEvent::NoUpdate), UpdateAction::Nothing);
    assert_eq!(flow.phase(), UpdatePhase::UpToDate);
    assert!(flow.is_finished());
}

#[test]
fn a_failed_check_is_reported_and_ends_the_flow() {
    let mut flow = UpdateFlow::new();
    flow.step(UpdateEvent::Started);
    assert_eq!(flow.step(UpdateEvent::CheckFailed), UpdateAction::ReportFailure);
    assert_eq!(flow.phase(), UpdatePhase::Failed);
    assert!(flow.is_finished());
}

#[test]
fn a_failed_download_is_reported_and_ends_the_flow() {
    let mut flow = downloading();
    flow.step(chunk(10, Some(100)));
    assert_eq!(flow.step(UpdateEvent::InstallFailed), UpdateAction::ReportFailure);
    assert_eq!(flow.phase(), UpdatePhase::Failed);
    assert!(flow.is_finished());
    assert_eq!(flow.downloaded(), 10);
}

#[test]
fn a_failed_installation_is_reported_and_ends_the_flow() {
    let mut flow = downloading();
    flow.step(chunk(100, Some(100)));
    flow.step(UpdateEvent::DownloadFinished);
    assert_eq!(flow.step(UpdateEvent::InstallFailed), UpdateAction::ReportFailure);
    assert_eq!(flow.phase(), UpdatePhase::Failed);
}

#[test]
fn a_finished_flow_ignores_every_event() {
    let events = [
        UpdateEvent::Started,
        UpdateEvent::CheckFailed,
        UpdateEvent::NoUpdate,
        UpdateEvent::UpdateAvailable,
        chunk(9, Some(9)),
        UpdateEvent::DownloadFinished,
        UpdateEvent::InstallSucceeded,
        UpdateEvent::InstallFailed,
    ];
    let mut failed = UpdateFlow::new();
    failed.step(UpdateEvent::Started);
    failed.step(UpdateEvent::CheckFailed);
    let mut up_to_date = UpdateFlow::new();
    up_to_date.step(UpdateEvent::Started);
    up_to_date.step(UpdateEvent::NoUpdate);
    let mut restarting = downloading();
    restarting.step(UpdateEvent::InstallSucceeded);
    for event in events {
        assert_eq!(failed.step(event), UpdateAction::Nothing);
        assert_eq!(failed.phase(), UpdatePhase::Failed);
        assert_eq!(up_to_date.step(event), UpdateAction::Nothing);
        assert_eq!(up_to_date.phase(), UpdatePhase::UpToDate);
        assert_eq!(restarting.step(event), UpdateAction::Nothing);
        assert_eq!(restarting.phase(), UpdatePhase::Restarting);
    }
}

#[test]
fn events_out_of_turn_change_nothing() {
    let mut flow = UpdateFlow::new();
    for event in [
        UpdateEvent::CheckFailed,
        UpdateEvent::NoUpdate,
        UpdateEvent::UpdateAvailable,
        chunk(9, None),
        UpdateEvent::DownloadFinished,
        UpdateEvent::InstallSucceeded,
        UpdateEvent::InstallFailed,
    ] {
        assert_eq!(flow.step(event), UpdateAction::Nothing);
        assert_eq!(flow.phase(), UpdatePhase::Idle);
        assert_eq!(flow.downloaded(), 0);
    }
    flow.step(UpdateEvent::Started);
    for event in [
        UpdateEvent::Started,
        chunk(9, None),
        UpdateEvent::DownloadFinished,
        UpdateEvent::InstallSucceeded,
        UpdateEvent::InstallFailed,
    ] {
        assert_eq!(flow.step(event), UpdateAction::Nothing);
        assert_eq!(flow.phase(), UpdatePhase::Checking);
    }
    let mut installing = downloading();
    installing.step(chunk(4, None));
    installing.step(UpdateEvent::DownloadFinished);
    for event in [
        UpdateEvent::Started,
        UpdateEvent::UpdateAvailable,
        chunk(9, None),
        UpdateEvent::DownloadFinished,
    ] {
        assert_eq!(installing.step(event), UpdateAction::Nothing);
        assert_eq!(installing.phase(), UpdatePhase::Installing);
        assert_eq!(installing.downloaded(), 4);
    }
}

#[test]
fn success_without_a_finished_download_still_restarts() {
    let mut flow = downloading();
    assert_eq!(flow.step(UpdateEvent::InstallSucceeded), UpdateAction::Restart);
    assert_eq!(flow.phase(), UpdatePhase::Restarting);
}

#[test]
fn restart_is_asked_for_only_after_a_successful_installation() {
    let events = [
        UpdateEvent::Started,
        UpdateEvent::CheckFailed,
        UpdateEvent::NoUpdate,
        UpdateEvent::UpdateAvailable,
        chunk(1, None),
        UpdateEvent::DownloadFinished,
        UpdateEvent::InstallFailed,
    ];
    for first in events {
        for second in events {
            for third in events {
                let mut flow = UpdateFlow::new();
                for event in [first, second, third] {
                    assert_ne!(flow.step(event), UpdateAction::Restart);
                }
            }
        }
    }
}

#[test]
fn the_flow_restarts_at_most_once() {
    let events = [
        UpdateEvent::Started,
        UpdateEvent::UpdateAvailable,
        UpdateEvent::InstallSucceeded,
        UpdateEvent::InstallSucceeded,
        UpdateEvent::Started,
        UpdateEvent::UpdateAvailable,
        UpdateEvent::InstallSucceeded,
    ];
    let mut flow = UpdateFlow::new();
    let mut restarts = 0;
    for event in events {
        if flow.step(event) == UpdateAction::Restart {
            restarts += 1;
        }
    }
    assert_eq!(restarts, 1);
}
