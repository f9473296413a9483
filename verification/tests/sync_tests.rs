use prefixload::remote::{ObjectProbe, SyncDecision};
use prefixload::rules::DirectoryEntry;
use prefixload::sync::{summary_message, SyncRun};

fn rules() -> Vec<DirectoryEntry> {
    vec![DirectoryEntry {
        local_name_prefix: "backup_".to_string(),
        remote_path: "backups".to_string(),
    }]
}

#[test]
fn run_uploads_new_file() {
    let mut run = SyncRun::new();
    let key = run.begin_file("backup_1.txt", &rules()).unwrap();
    assert_eq!(key, "backups/backup_1.txt");

    // The probe finds nothing remote, so the decision is to upload.
    let d = run.resolve_probe("somefingerprint", &ObjectProbe::Absent);
    assert_eq!(d, SyncDecision::Upload);
    run.record_upload();

    let summary = run.summary().unwrap();
    assert_eq!(summary, "Matched: 1, Uploaded: 1, Skipped: 0.");
}

#[test]
fn run_skips_synced_file() {
    let fp = "d41d8cd98f00b204e9800998ecf8427e";
    let mut run = SyncRun::new();
    run.begin_file("backup_2.txt", &rules()).unwrap();
    let probe = ObjectProbe::Exists { etag: Some(format!("\"{}\"", fp)) };
    assert_eq!(run.resolve_probe(fp, &probe), SyncDecision::Skip);

    let summary = run.summary().unwrap();
    assert_eq!(summary, "Matched: 1, Uploaded: 0, Skipped: 1.");
}

#[test]
fn run_ignores_unmatched_file() {
    let mut run = SyncRun::new();
    // No rule prefix starts this name: not matched, nothing owed.
    assert!(run.begin_file("some_other_file.txt", &rules()).is_none());
    let summary = run.summary().unwrap();
    assert_eq!(summary, "Matched: 0, Uploaded: 0, Skipped: 0.");
}

#[test]
fn aborted_run_produces_no_summary() {
    let mut run = SyncRun::new();

    // First file goes through.
    run.begin_file("backup_a", &rules()).unwrap();
    run.resolve_probe("fp", &ObjectProbe::Absent);
    run.record_upload();

    // The second file's upload fails: the run stops, the summary is
    // withheld, and the earlier upload stays counted (not rolled back).
    run.begin_file("backup_b", &rules()).unwrap();
    run.resolve_probe("fp", &ObjectProbe::Absent);
    run.abort();

    assert!(run.summary().is_none());
    assert!(run.aborted);
    assert_eq!(run.uploaded, 1);
    assert_eq!(run.matched, 2);
}

#[test]
fn summary_message_renders_counters_exactly() {
    assert_eq!(summary_message(0, 0, 0), "Matched: 0, Uploaded: 0, Skipped: 0.");
    assert_eq!(summary_message(12, 3, 9), "Matched: 12, Uploaded: 3, Skipped: 9.");
    assert_eq!(
        summary_message(1000000, 999999, 1),
        "Matched: 1000000, Uploaded: 999999, Skipped: 1."
    );
}
