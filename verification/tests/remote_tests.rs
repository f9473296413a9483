use prefixload::remote::{
    classify_bucket_probe, decide_sync, etag_matches, strip_quotes, BucketAccess, ObjectProbe,
    SyncDecision,
};

const MD5_HEX: &str = "d41d8cd98f00b204e9800998ecf8427e";

#[test]
fn bucket_probe_success_is_accessible() {
    assert_eq!(classify_bucket_probe(200), BucketAccess::Accessible);
    assert_eq!(classify_bucket_probe(204), BucketAccess::Accessible);
}

#[test]
fn bucket_probe_denied_is_forbidden_not_fatal() {
    assert_eq!(classify_bucket_probe(401), BucketAccess::Forbidden);
    assert_eq!(classify_bucket_probe(403), BucketAccess::Forbidden);
}

#[test]
fn bucket_probe_other_statuses_fail() {
    assert_eq!(classify_bucket_probe(404), BucketAccess::Failed);
    assert_eq!(classify_bucket_probe(500), BucketAccess::Failed);
    assert_eq!(classify_bucket_probe(301), BucketAccess::Failed);
    assert_eq!(classify_bucket_probe(0), BucketAccess::Failed);
}

#[test]
fn quotes_are_stripped_from_both_ends() {
    assert_eq!(strip_quotes("\"abc\""), "abc");
    assert_eq!(strip_quotes("abc"), "abc");
    assert_eq!(strip_quotes("\"\"abc\"\""), "abc");
    assert_eq!(strip_quotes("\"\""), "");
    assert_eq!(strip_quotes(""), "");
    assert_eq!(strip_quotes("\"a\"b\""), "a\"b");
}

#[test]
fn etag_comparison_ignores_surrounding_quotes_only() {
    assert!(etag_matches(MD5_HEX, &format!("\"{}\"", MD5_HEX)));
    assert!(etag_matches(MD5_HEX, MD5_HEX));
    assert!(!etag_matches(MD5_HEX, "\"another-md5-hash\""));
    assert!(!etag_matches(MD5_HEX, ""));
}

#[test]
fn absent_object_means_upload() {
    let d = decide_sync(MD5_HEX, &ObjectProbe::Absent);
    assert_eq!(d, SyncDecision::Upload);
}

#[test]
fn matching_stored_fingerprint_means_skip() {
    let probe = ObjectProbe::Exists { etag: Some(format!("\"{}\"", MD5_HEX)) };
    assert_eq!(decide_sync(MD5_HEX, &probe), SyncDecision::Skip);
}

#[test]
fn mismatching_stored_fingerprint_means_upload() {
    let probe = ObjectProbe::Exists { etag: Some("\"another-md5-hash\"".to_string()) };
    assert_eq!(decide_sync(MD5_HEX, &probe), SyncDecision::Upload);
}

#[test]
fn missing_fingerprint_metadata_means_upload() {
    let probe = ObjectProbe::Exists { etag: None };
    assert_eq!(decide_sync(MD5_HEX, &probe), SyncDecision::Upload);
}
