use possum::plan::{build_destination_dir, join_path, plan_download, plan_jobs};
use possum::task::{step_transfer, TransferEvent, TransferState};

// The whole pipeline on the two-file listing: nothing is ignorable, so both
// files get a job, in registry order, with exact URLs and destinations.
#[test]
fn test_plan_download_both_files() {
    let body = r#"{"siblings":[{"rfilename":"config.json"},{"rfilename":"model.safetensors"}]}"#;
    let jobs = plan_download(
        true,
        body,
        "test/model",
        None,
        "downloads/test/model",
        "http://localhost:8080",
    )
    .unwrap();
    assert_eq!(jobs.len(), 2);
    assert_eq!(jobs[0].filename, "config.json");
    assert_eq!(
        jobs[0].url,
        "http://localhost:8080/test/model/resolve/main/config.json"
    );
    assert_eq!(jobs[0].destination, "downloads/test/model/config.json");
    assert_eq!(jobs[1].filename, "model.safetensors");
    assert_eq!(
        jobs[1].url,
        "http://localhost:8080/test/model/resolve/main/model.safetensors"
    );
    assert_eq!(jobs[1].destination, "downloads/test/model/model.safetensors");
}

// A legacy weight file next to a modern one gets no job at all: no request
// will be issued for it and no path on disk names it.
#[test]
fn test_plan_download_ignores_legacy_weights() {
    let body = r#"{"siblings":[{"rfilename":"pytorch_model.bin"},{"rfilename":"model.safetensors"}]}"#;
    let jobs = plan_download(
        true,
        body,
        "test/model",
        None,
        "downloads/test/model",
        "http://localhost:8080",
    )
    .unwrap();
    assert_eq!(jobs.len(), 1);
    assert_eq!(jobs[0].filename, "model.safetensors");
    assert_eq!(jobs[0].destination, "downloads/test/model/model.safetensors");
    assert!(jobs.iter().all(|j| j.filename != "pytorch_model.bin"));
}

// A failed listing is fatal: it plans no download and names the repository.
#[test]
fn test_plan_download_failed_listing() {
    let err = plan_download(
        false,
        "",
        "test/model",
        None,
        "downloads",
        "http://localhost:8080",
    )
    .unwrap_err();
    assert_eq!(err.repository, "test/model");
}

// Duplicate listed names produce duplicate jobs; nothing deduplicates.
#[test]
fn test_plan_jobs_keeps_duplicates() {
    let files = vec!["a.txt".to_string(), "a.txt".to_string()];
    let jobs = plan_jobs(&files, "r", None, "d", "http://localhost:8080");
    assert_eq!(jobs.len(), 2);
    assert_eq!(jobs[0].destination, jobs[1].destination);
}

#[test]
fn test_plan_jobs_with_revision() {
    let files = vec!["f.txt".to_string()];
    let jobs = plan_jobs(&files, "o/n", Some("dev"), "d", "http://x");
    assert_eq!(jobs[0].url, "http://x/o/n/resolve/dev/f.txt");
}

#[test]
fn test_build_destination_dir_without_revision() {
    let d = build_destination_dir("./huggingface", "test/model", None);
    assert_eq!(d, "./huggingface/test/model");
}

#[test]
fn test_build_destination_dir_with_revision() {
    let d = build_destination_dir("./huggingface", "test/model", Some("dev"));
    assert_eq!(d, "./huggingface/test/model:dev");
}

#[test]
fn test_join_path() {
    assert_eq!(join_path("downloads", "config.json"), "downloads/config.json");
}

// One task's failed response fails that task alone, while a sibling task
// runs to completion: the isolation policy of the batch.
#[test]
fn test_transfer_isolated_failure() {
    let missing = step_transfer(
        TransferState::Requesting,
        TransferEvent::Response { success: false, content_length: None },
    );
    assert_eq!(missing, TransferState::Failed);

    let mut sibling = step_transfer(
        TransferState::Requesting,
        TransferEvent::Response { success: true, content_length: Some(15) },
    );
    assert_eq!(sibling, TransferState::Receiving { expected: 15, received: 0 });
    sibling = step_transfer(sibling, TransferEvent::Chunk { size: 10 });
    sibling = step_transfer(sibling, TransferEvent::Chunk { size: 5 });
    assert_eq!(sibling, TransferState::Receiving { expected: 15, received: 15 });
    sibling = step_transfer(sibling, TransferEvent::BodyEnd);
    assert_eq!(sibling, TransferState::Done { received: 15 });
    assert_eq!(missing, TransferState::Failed);
}

// An undeclared content length opens the transfer with an unknown total.
#[test]
fn test_transfer_unknown_length() {
    let s = step_transfer(
        TransferState::Requesting,
        TransferEvent::Response { success: true, content_length: None },
    );
    assert_eq!(s, TransferState::Receiving { expected: 0, received: 0 });
}

// The received count saturates instead of overflowing.
#[test]
fn test_transfer_saturating_progress() {
    let s = TransferState::Receiving { expected: 0, received: u64::MAX - 1 };
    let s = step_transfer(s, TransferEvent::Chunk { size: 10 });
    assert_eq!(s, TransferState::Receiving { expected: 0, received: u64::MAX });
}

// An event that cannot occur in a state changes nothing.
#[test]
fn test_transfer_ignores_stray_events() {
    let s = step_transfer(TransferState::Failed, TransferEvent::Chunk { size: 1 });
    assert_eq!(s, TransferState::Failed);
    let s = step_transfer(
        TransferState::Done { received: 2 },
        TransferEvent::BodyEnd,
    );
    assert_eq!(s, TransferState::Done { received: 2 });
}
