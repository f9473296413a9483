//! What the remote store's answers mean: bucket-probe classification,
//! stored-fingerprint comparison, and the skip-or-upload decision.

use vstd::prelude::*;

verus! {

/// The outcome of a bucket probe: reachable; existing but off limits to
/// these credentials (a successful, non-fatal outcome); or a failure
/// that must stop the run.
#[derive(Debug, Clone, Copy, PartialEq, Eq, Structural)]
pub enum BucketAccess {
    Accessible,
    Forbidden,
    Failed,
}

/// The state of the remote object a probe reports: absent, or present
/// with the stored fingerprint, when it carries one.
#[derive(Debug, Clone)]
pub enum ObjectProbe {
    Absent,
    Exists { etag: Option<String> },
}

/// Decision taken for one local file after its remote state is known:
/// either the remote copy already matches and the file is skipped, or
/// the file must be uploaded.
#[derive(Debug, Clone, Copy, PartialEq, Eq, Structural)]
pub enum SyncDecision {
    Skip,
    Upload,
}

/// How an HTTP status answers a bucket probe: success means reachable,
/// 401 and 403 mean the bucket exists but these credentials lack
/// rights, and anything else (404 included) is a failure.
pub open spec fn spec_classify_bucket_probe(status: u16) -> BucketAccess {
    if 200 <= status < 300 {
        BucketAccess::Accessible
    } else if status == 401 || status == 403 {
        BucketAccess::Forbidden
    } else {
        BucketAccess::Failed
    }
}

/// Classifies the HTTP status of a bucket probe.
pub fn classify_bucket_probe(status: u16) -> (r: BucketAccess)
    ensures
        r == spec_classify_bucket_probe(status),
{
    if 200 <= status && status < 300 {
        BucketAccess::Accessible
    } else if status == 401 || status == 403 {
        BucketAccess::Forbidden
    } else {
        BucketAccess::Failed
    }
}

/// `s` with every leading and trailing `"` removed.
pub open spec fn spec_strip_quotes(s: Seq<char>) -> Seq<char>
    decreases s.len(),
{
    if s.len() > 0 && s.first() == '"' {
        spec_strip_quotes(s.drop_first())
    } else if s.len() > 0 && s.last() == '"' {
        spec_strip_quotes(s.drop_last())
    } else {
        s
    }
}

/// A string of nothing but quotes strips to nothing.
proof fn lemma_strip_all_quotes(s: Seq<char>)
    requires
        forall|j: int| 0 <= j < s.len() ==> s[j] == '"',
    ensures
        spec_strip_quotes(s) == Seq::<char>::empty(),
    decreases s.len(),
{
    if s.len() > 0 {
        lemma_strip_all_quotes(s.drop_first());
    } else {
        assert(s =~= Seq::<char>::empty());
    }
}

/// Stripping takes exactly the inner range once the outer characters
/// are all quotes and the range's own ends are not.
proof fn lemma_strip_quotes_range(s: Seq<char>, lo: int, hi: int)
    requires
        0 <= lo < hi <= s.len(),
        forall|j: int| 0 <= j < lo ==> s[j] == '"',
        forall|j: int| hi <= j < s.len() ==> s[j] == '"',
        s[lo] != '"',
        s[hi - 1] != '"',
    ensures
        spec_strip_quotes(s) == s.subrange(lo, hi),
    decreases s.len(),
{
    if lo > 0 {
        let rest = s.drop_first();
        assert(forall|j: int| 0 <= j < rest.len() ==> rest[j] == s[j + 1]);
        lemma_strip_quotes_range(rest, lo - 1, hi - 1);
        assert(rest.subrange(lo - 1, hi - 1) =~= s.subrange(lo, hi));
    } else if hi < s.len() {
        let rest = s.drop_last();
        lemma_strip_quotes_range(rest, lo, hi);
        assert(rest.subrange(lo, hi) =~= s.subrange(lo, hi));
    } else {
        assert(s.subrange(0, s.len() as int) =~= s);
    }
}

/// `etag` with surrounding quote characters removed, as the store quotes
/// fingerprints in its answers.
pub fn strip_quotes(etag: &str) -> (r: String)
    ensures
        r@ == spec_strip_quotes(etag@),
{
    let n = etag.unicode_len();
    let mut lo: usize = 0;
    while lo < n && etag.get_char(lo) == '"'
        invariant
            lo <= n,
            n == etag@.len(),
            forall|j: int| 0 <= j < lo ==> etag@[j] == '"',
        decreases n - lo,
    {
        lo = lo + 1;
    }
    if lo == n {
        proof {
            lemma_strip_all_quotes(etag@);
        }
        return String::new();
    }
    let mut hi: usize = n;
    while hi > lo + 1 && etag.get_char(hi - 1) == '"'
        invariant
            lo < hi <= n,
            n == etag@.len(),
            forall|j: int| hi <= j < n ==> etag@[j] == '"',
        decreases hi,
    {
        hi = hi - 1;
    }
    proof {
        lemma_strip_quotes_range(etag@, lo as int, hi as int);
    }
    let inner = etag.substring_char(lo, hi);
    String::from_str(inner)
}

/// Whether the stored fingerprint, quotes stripped, equals the local
/// one.
pub fn etag_matches(local_fingerprint: &str, stored_etag: &str) -> (b: bool)
    ensures
        b == (spec_strip_quotes(stored_etag@) == local_fingerprint@),
{
    let stripped = strip_quotes(stored_etag);
    let local = String::from_str(local_fingerprint);
    stripped == local
}

/// What one probe answer decides: an absent object and one without a
/// stored fingerprint are uploaded; a present one is skipped exactly
/// when its stored fingerprint, quotes stripped, equals the local one.
pub open spec fn spec_decide_sync(local: Seq<char>, probe: ObjectProbe) -> SyncDecision {
    match probe {
        ObjectProbe::Absent => SyncDecision::Upload,
        ObjectProbe::Exists { etag } => match etag {
            None => SyncDecision::Upload,
            Some(e) => if spec_strip_quotes(e@) == local {
                SyncDecision::Skip
            } else {
                SyncDecision::Upload
            },
        },
    }
}

/// Decides skip-or-upload from the local fingerprint and the probe's
/// answer.
pub fn decide_sync(local_fingerprint: &str, probe: &ObjectProbe) -> (d: SyncDecision)
    ensures
        d == spec_decide_sync(local_fingerprint@, *probe),
{
    match probe {
        ObjectProbe::Absent => SyncDecision::Upload,
        ObjectProbe::Exists { etag } => match etag {
            None => SyncDecision::Upload,
            Some(e) => {
                if etag_matches(local_fingerprint, e.as_str()) {
                    SyncDecision::Skip
                } else {
                    SyncDecision::Upload
                }
            },
        },
    }
}

} // verus!
