use wall_a_bunga::transfer::transfer_step;
use wall_a_bunga::transfer::DownloadState;
use wall_a_bunga::transfer::DownloadStatus;
use wall_a_bunga::transfer::TransferAction;
use wall_a_bunga::transfer::TransferInput;

fn started() -> DownloadState {
    DownloadState::Started {
        url: "https://example.test/w.jpg".to_string(),
        id: "w1".to_string(),
        save_path: "/tmp/w.jpg".to_string(),
    }
}

fn progress_of(status: &Option<DownloadStatus>) -> (String, u64, u64) {
    match status {
        Some(DownloadStatus::Progress { id, downloaded, total }) => {
            (id.clone(), *downloaded, *total)
        }
        other => panic!("expected a progress report, got {:?}", other),
    }
}

#[test]
fn request_failure_reports_failed_and_touches_no_file() {
    let r = transfer_step(started(), &TransferInput::RequestFailed);
    assert!(matches!(r.state, DownloadState::Completed));
    assert!(matches!(r.status, Some(DownloadStatus::Failed { ref id }) if id == "w1"));
    assert_eq!(r.action, TransferAction::Proceed);
}

#[test]
fn missing_content_length_reports_failed() {
    let r = transfer_step(
        started(),
        &TransferInput::RequestSucceeded { content_length: None },
    );
    assert!(matches!(r.state, DownloadState::Completed));
    assert!(matches!(r.status, Some(DownloadStatus::Failed { ref id }) if id == "w1"));
    assert_eq!(r.action, TransferAction::Proceed);
}

#[test]
fn file_create_failure_reports_failed_before_any_read() {
    let r = transfer_step(
        started(),
        &TransferInput::RequestSucceeded { content_length: Some(10) },
    );
    assert_eq!(r.action, TransferAction::CreateFile);
    assert!(r.status.is_none());
    let r = transfer_step(r.state, &TransferInput::FileCreateFailed);
    assert!(matches!(r.state, DownloadState::Completed));
    assert!(matches!(r.status, Some(DownloadStatus::Failed { ref id }) if id == "w1"));
    assert_eq!(r.action, TransferAction::Proceed);
}

#[test]
fn clean_download_reports_rising_progress_then_finished() {
    let r = transfer_step(
        started(),
        &TransferInput::RequestSucceeded { content_length: Some(10) },
    );
    assert_eq!(r.action, TransferAction::CreateFile);
    let r = transfer_step(r.state, &TransferInput::FileCreated);
    let mut reported = vec![progress_of(&r.status)];

    let mut state = r.state;
    for len in [4u64, 6] {
        let r = transfer_step(state, &TransferInput::ChunkArrived { len });
        assert_eq!(r.action, TransferAction::WriteChunk);
        assert!(r.status.is_none());
        let r = transfer_step(r.state, &TransferInput::WriteSucceeded);
        reported.push(progress_of(&r.status));
        state = r.state;
    }

    let r = transfer_step(state, &TransferInput::StreamEnded);
    assert!(matches!(r.state, DownloadState::Completed));
    assert!(matches!(r.status, Some(DownloadStatus::Finished { ref id }) if id == "w1"));

    let counts: Vec<u64> = reported.iter().map(|(_, d, _)| *d).collect();
    assert_eq!(counts, vec![0, 4, 10]);
    assert!(counts.windows(2).all(|w| w[0] <= w[1]));
    assert_eq!(counts.last().copied(), Some(10));
    for (id, _, total) in &reported {
        assert_eq!(id, "w1");
        assert_eq!(*total, 10);
    }
}

#[test]
fn write_failure_reports_failed_and_deletes_partial_file() {
    let r = transfer_step(
        started(),
        &TransferInput::RequestSucceeded { content_length: Some(10) },
    );
    let r = transfer_step(r.state, &TransferInput::FileCreated);
    assert_eq!(progress_of(&r.status).1, 0);

    let r = transfer_step(r.state, &TransferInput::ChunkArrived { len: 4 });
    let r = transfer_step(r.state, &TransferInput::WriteSucceeded);
    assert_eq!(progress_of(&r.status).1, 4);

    let r = transfer_step(r.state, &TransferInput::ChunkArrived { len: 6 });
    assert_eq!(r.action, TransferAction::WriteChunk);
    let r = transfer_step(r.state, &TransferInput::WriteFailed);
    assert!(matches!(r.state, DownloadState::Completed));
    assert!(matches!(r.status, Some(DownloadStatus::Failed { ref id }) if id == "w1"));
    assert_eq!(r.action, TransferAction::DeleteFile);
}

#[test]
fn read_failure_reports_failed_and_leaves_partial_file() {
    let r = transfer_step(
        started(),
        &TransferInput::RequestSucceeded { content_length: Some(10) },
    );
    let r = transfer_step(r.state, &TransferInput::FileCreated);
    let r = transfer_step(r.state, &TransferInput::ChunkArrived { len: 4 });
    let r = transfer_step(r.state, &TransferInput::WriteSucceeded);
    let r = transfer_step(r.state, &TransferInput::ReadFailed);
    assert!(matches!(r.state, DownloadState::Completed));
    assert!(matches!(r.status, Some(DownloadStatus::Failed { ref id }) if id == "w1"));
    assert_eq!(r.action, TransferAction::Proceed);
}

#[test]
fn progress_is_not_clamped_when_server_understates_length() {
    let r = transfer_step(
        started(),
        &TransferInput::RequestSucceeded { content_length: Some(5) },
    );
    let r = transfer_step(r.state, &TransferInput::FileCreated);
    let r = transfer_step(r.state, &TransferInput::ChunkArrived { len: 10 });
    let r = transfer_step(r.state, &TransferInput::WriteSucceeded);
    let (_, downloaded, total) = progress_of(&r.status);
    assert_eq!(downloaded, 10);
    assert_eq!(total, 5);
    assert!(downloaded > total);
}

#[test]
fn completed_machine_reports_nothing_more() {
    let inputs = [
        TransferInput::RequestFailed,
        TransferInput::ChunkArrived { len: 3 },
        TransferInput::StreamEnded,
        TransferInput::WriteFailed,
    ];
    for input in &inputs {
        let r = transfer_step(DownloadState::Completed, input);
        assert!(matches!(r.state, DownloadState::Completed));
        assert!(r.status.is_none());
        assert_eq!(r.action, TransferAction::Proceed);
    }
}
