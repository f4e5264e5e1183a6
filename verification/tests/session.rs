use isofetch::batch::DownloadTarget;
use isofetch::errors::DownloadError;
use isofetch::session::Event;
use isofetch::session::Phase;
use isofetch::session::Session;

fn streaming_count(s: &Session) -> u64 {
    match &s.phase {
        Phase::Streaming { downloaded, .. } => *downloaded,
        other => panic!("expected a streaming session, found {:?}", other),
    }
}

#[test]
fn existing_file_skips_without_request() {
    let mut s = Session::start(
        Some("ubuntu".to_string()),
        "https://example/path/ubuntu-22.04.iso".to_string(),
        "/tmp/isos",
    )
    .unwrap();
    assert!(matches!(s.phase, Phase::Checking));
    s.step(Event::Exists(true));
    assert!(matches!(s.phase, Phase::Finished { skipped: true }));
    assert!(s.is_terminal());
}

#[test]
fn full_transfer_runs_to_completion() {
    let mut s = Session::start(
        Some("ubuntu".to_string()),
        "https://example/path/ubuntu-22.04.iso".to_string(),
        "/tmp/isos",
    )
    .unwrap();
    assert_eq!(s.dest, "/tmp/isos/ubuntu-22.04.iso");
    s.step(Event::Exists(false));
    assert!(matches!(s.phase, Phase::Requesting));
    s.step(Event::Response(Some(10)));
    assert!(matches!(s.phase, Phase::Opening { total: 10 }));
    s.step(Event::Opened);
    assert_eq!(streaming_count(&s), 0);

    let first = vec![1u8, 2, 3, 4];
    s.step(Event::Chunk(first.clone()));
    match &s.phase {
        Phase::Writing { pending, total, downloaded } => {
            assert_eq!(pending, &first);
            assert_eq!(*total, 10);
            assert_eq!(*downloaded, 0);
        }
        _ => panic!("a chunk must be pending"),
    }
    s.step(Event::Written);
    assert_eq!(streaming_count(&s), 4);

    let second = vec![5u8, 6, 7];
    s.step(Event::Chunk(second.clone()));
    s.step(Event::Written);
    assert_eq!(streaming_count(&s), 7);

    s.step(Event::End);
    assert!(matches!(s.phase, Phase::Finished { skipped: false }));
    assert!(s.is_terminal());
}

#[test]
fn overshooting_chunks_are_clamped_to_total() {
    let mut s = Session::start(None, "https://example/a.iso".to_string(), "/tmp").unwrap();
    s.step(Event::Exists(false));
    s.step(Event::Response(Some(10)));
    s.step(Event::Opened);
    s.step(Event::Chunk(vec![0u8; 6]));
    s.step(Event::Written);
    assert_eq!(streaming_count(&s), 6);
    // The server sends more than it declared: the count stops at the total.
    s.step(Event::Chunk(vec![0u8; 9]));
    s.step(Event::Written);
    assert_eq!(streaming_count(&s), 10);
}

#[test]
fn invalid_target_fails_before_any_event() {
    let r = Session::start(None, "https://example/notes.txt".to_string(), "/tmp");
    match r {
        Err(DownloadError::InvalidTarget(u)) => assert_eq!(u, "https://example/notes.txt"),
        _ => panic!("a non-iso target must never open a session"),
    }
}

#[test]
fn missing_content_length_is_fatal() {
    let mut s = Session::start(None, "https://example/a.iso".to_string(), "/tmp").unwrap();
    s.step(Event::Exists(false));
    s.step(Event::Response(None));
    match &s.phase {
        Phase::Failed(DownloadError::MissingContentLength(u)) => {
            assert_eq!(u, "https://example/a.iso");
        }
        _ => panic!("a response without a length must fail the transfer"),
    }
    assert!(s.is_terminal());
}

#[test]
fn send_failure_carries_url_and_cause() {
    let mut s = Session::start(None, "https://example/a.iso".to_string(), "/tmp").unwrap();
    s.step(Event::Exists(false));
    s.step(Event::SendFailed("connection refused".to_string()));
    match &s.phase {
        Phase::Failed(DownloadError::NetworkError(u, cause)) => {
            assert_eq!(u, "https://example/a.iso");
            assert_eq!(cause, "connection refused");
        }
        _ => panic!("a failed send must fail the transfer"),
    }
}

#[test]
fn create_failure_carries_destination() {
    let mut s = Session::start(None, "https://example/a.iso".to_string(), "/tmp").unwrap();
    s.step(Event::Exists(false));
    s.step(Event::Response(Some(4)));
    s.step(Event::OpenFailed);
    match &s.phase {
        Phase::Failed(DownloadError::FileCreateError(p)) => assert_eq!(p, "/tmp/a.iso"),
        _ => panic!("a failed create must fail the transfer"),
    }
}

#[test]
fn write_failure_carries_destination() {
    let mut s = Session::start(None, "https://example/a.iso".to_string(), "/tmp").unwrap();
    s.step(Event::Exists(false));
    s.step(Event::Response(Some(4)));
    s.step(Event::Opened);
    s.step(Event::Chunk(vec![1u8, 2]));
    s.step(Event::WriteFailed);
    match &s.phase {
        Phase::Failed(DownloadError::WriteError(p)) => assert_eq!(p, "/tmp/a.iso"),
        _ => panic!("a failed write must fail the transfer"),
    }
}

#[test]
fn broken_stream_is_a_network_error() {
    let mut s = Session::start(None, "https://example/a.iso".to_string(), "/tmp").unwrap();
    s.step(Event::Exists(false));
    s.step(Event::Response(Some(4)));
    s.step(Event::Opened);
    s.step(Event::ChunkFailed("reset by peer".to_string()));
    assert!(matches!(s.phase, Phase::Failed(DownloadError::NetworkError(_, _))));
}

#[test]
fn target_session_carries_its_name() {
    let t = DownloadTarget::new(
        "ubuntu".to_string(),
        "https://example/path/ubuntu-22.04.iso".to_string(),
    );
    let s = Session::start_for(&t, "/isos").unwrap();
    assert_eq!(s.name.as_deref(), Some("ubuntu"));
    assert_eq!(s.url, "https://example/path/ubuntu-22.04.iso");
    assert_eq!(s.dest, "/isos/ubuntu-22.04.iso");
}

#[test]
fn second_run_issues_no_request_for_existing_files() {
    // A re-run of a batch whose files are all in place: every session
    // finishes as skipped straight from the existence probe, and none
    // ever reaches the phase that sends a request.
    let urls = [
        "https://example/path/ubuntu-22.04.iso",
        "https://example/path/debian-12.iso",
        "https://example/path/fedora-40.iso",
    ];
    let mut scheduler = isofetch::batch::Scheduler::new(2, urls.len());
    while let Some(idx) = scheduler.try_dispatch() {
        let mut s = Session::start(None, urls[idx].to_string(), "/isos").unwrap();
        s.step(Event::Exists(true));
        assert!(matches!(s.phase, Phase::Finished { skipped: true }));
        scheduler.task_done(true);
    }
    assert!(scheduler.is_finished());
    assert!(scheduler.batch_ok());
}

#[test]
fn query_stripped_target_downloads_under_plain_name() {
    let s = Session::start(None, "https://example/setup.iso?tok=abc".to_string(), "/d").unwrap();
    assert_eq!(s.dest, "/d/setup.iso");
}
