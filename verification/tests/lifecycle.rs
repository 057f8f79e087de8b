use upload_count::action::{package, ActionState, FormEntry, FormSnapshot, UploadAction};
use upload_count::display::{render, usize_to_string};
use upload_count::multipart::{file_length, UploadError, UploadResult};

fn snapshot_with_file(bytes: Vec<u8>) -> FormSnapshot {
    FormSnapshot {
        entries: vec![FormEntry { name: "file_to_upload".to_string(), value: bytes }],
    }
}

#[test]
fn fresh_action_prompts_for_a_file() {
    let action = UploadAction::new();
    assert!(matches!(action.state(), ActionState::NotStarted));
    assert!(!action.is_destroyed());
    assert_eq!(render(action.state()), "Upload a file.");
}

#[test]
fn submission_is_pending_until_it_settles() {
    let mut action = UploadAction::new();
    action.submit(snapshot_with_file(vec![9, 9, 9]));
    assert!(matches!(action.state(), ActionState::Pending(_)));
    assert_eq!(render(action.state()), "Uploading...");
    action.complete(UploadResult::Success(3));
    assert!(matches!(action.state(), ActionState::Settled(_, _)));
    assert_eq!(render(action.state()), "3");
}

#[test]
fn failure_settles_with_the_error_text() {
    let mut action = UploadAction::new();
    action.submit(snapshot_with_file(vec![1]));
    action.complete(UploadResult::Failure(UploadError::TransportError));
    assert_eq!(render(action.state()), "TransportError");
    action.submit(snapshot_with_file(vec![1]));
    action.complete(UploadResult::Failure(UploadError::PreconditionError));
    assert_eq!(render(action.state()), "PreconditionError");
}

#[test]
fn resubmission_overwrites_with_a_fresh_pending() {
    let mut action = UploadAction::new();
    action.submit(snapshot_with_file(vec![1, 2]));
    action.complete(UploadResult::Success(2));
    action.submit(snapshot_with_file(vec![3, 4, 5]));
    assert!(matches!(action.state(), ActionState::Pending(_)));
    assert_eq!(render(action.state()), "Uploading...");
}

#[test]
fn later_completion_wins_the_race() {
    let mut action = UploadAction::new();
    action.submit(snapshot_with_file(vec![0; 10]));
    action.submit(snapshot_with_file(vec![0; 20]));
    // Both submissions are in flight; completions apply in arrival order.
    action.complete(UploadResult::Success(20));
    action.complete(UploadResult::Success(10));
    assert_eq!(render(action.state()), "10");
}

#[test]
fn stale_completion_after_teardown_is_discarded() {
    let mut action = UploadAction::new();
    action.submit(snapshot_with_file(vec![7; 4]));
    action.destroy();
    action.complete(UploadResult::Success(4));
    assert!(action.is_destroyed());
    assert!(matches!(action.state(), ActionState::Pending(_)));
}

#[test]
fn settled_state_keeps_the_submitted_snapshot() {
    let mut action = UploadAction::new();
    action.submit(snapshot_with_file(vec![8; 6]));
    action.complete(UploadResult::Success(6));
    match action.state() {
        ActionState::Settled(snapshot, result) => {
            assert_eq!(snapshot.entries.len(), 1);
            assert_eq!(snapshot.entries[0].name, "file_to_upload");
            assert_eq!(snapshot.entries[0].value, vec![8; 6]);
            assert_eq!(*result, UploadResult::Success(6));
        }
        other => panic!("expected a settled state, found {:?}", render(other)),
    }
}

#[test]
fn packaged_snapshot_counts_to_its_own_size() {
    let snapshot = snapshot_with_file((0u8..=255).cycle().take(5000).collect());
    let req = package(&snapshot);
    assert_eq!(file_length(Some(&req)), UploadResult::Success(5000));
}

#[test]
fn five_thousand_bytes_in_transport_chunks_display_as_5000() {
    let payload: Vec<u8> = vec![0xAB; 5000];
    let chunks: Vec<Vec<u8>> = payload.chunks(1400).map(|c| c.to_vec()).collect();
    assert_eq!(
        chunks.iter().map(Vec::len).collect::<Vec<_>>(),
        vec![1400, 1400, 1400, 800]
    );
    let req = upload_count::multipart::UploadRequest {
        fields: vec![upload_count::multipart::UploadField {
            name: "file_to_upload".to_string(),
            chunks,
            truncated: false,
        }],
        truncated: false,
    };
    let mut action = UploadAction::new();
    action.submit(snapshot_with_file(payload));
    let result = file_length(Some(&req));
    assert_eq!(result, UploadResult::Success(5000));
    action.complete(result);
    assert_eq!(render(action.state()), "5000");
}

#[test]
fn decimal_rendering_matches_the_standard_one() {
    for n in [0usize, 1, 9, 10, 11, 99, 100, 5000, 65535, usize::MAX] {
        assert_eq!(usize_to_string(n), n.to_string());
    }
}
