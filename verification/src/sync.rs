//! The synchronization run: one pass over the discovered files, each
//! matched file fingerprinted, probed and then skipped or uploaded, with
//! exact counters and a fatal stop on any failure.
//!
//! The caller owns the walk — it lists the directory, computes the
//! fingerprint, performs the probe and the upload — and reports each
//! step here. [`SyncRun`] accounts for every matched file exactly once:
//! a file enters through [`SyncRun::begin_file`], is resolved through
//! [`SyncRun::resolve_probe`] and [`SyncRun::record_upload`], and a
//! failure recorded through [`SyncRun::abort`] withholds the summary
//! while keeping what was already uploaded.

use vstd::prelude::*;
use crate::remote::{spec_decide_sync, ObjectProbe, SyncDecision};
use crate::rules::{spec_match_rule, spec_remote_key, match_rule, remote_key, DirectoryEntry};
use crate::textfmt::dec_of;

verus! {

/// One run's accounting: how many files matched a rule, how many were
/// uploaded, how many were skipped as already synced, whether one
/// matched file is still unresolved, and whether the run has failed.
#[derive(Debug)]
pub struct SyncRun {
    pub matched: u64,
    pub uploaded: u64,
    pub skipped: u64,
    pub pending: bool,
    pub aborted: bool,
}

/// Every matched file is accounted for exactly once: as uploaded, as
/// skipped, or as the one file currently in flight.
pub open spec fn spec_run_consistent(run: SyncRun) -> bool {
    run.matched as int == run.uploaded as int + run.skipped as int + (if run.pending {
        1int
    } else {
        0int
    })
}

/// The run's closing line over its counters.
pub open spec fn spec_summary_message(matched: u64, uploaded: u64, skipped: u64) -> Seq<char> {
    "Matched: "@ + dec_of(matched as nat) + ", Uploaded: "@ + dec_of(uploaded as nat)
        + ", Skipped: "@ + dec_of(skipped as nat) + "."@
}

impl SyncRun {
    /// A fresh run: nothing matched, nothing resolved, not failed.
    pub fn new() -> (r: Self)
        ensures
            r.matched == 0,
            r.uploaded == 0,
            r.skipped == 0,
            !r.pending,
            !r.aborted,
            spec_run_consistent(r),
    {
        SyncRun { matched: 0, uploaded: 0, skipped: 0, pending: false, aborted: false }
    }

    /// Considers one discovered file. A file whose base name starts
    /// with no rule's prefix is ignored entirely — not counted, nothing
    /// further owed for it. The first rule in configuration order whose
    /// prefix starts the name wins, the file counts as matched and is
    /// now in flight, and the returned key is the rule's remote
    /// directory joined with the base name.
    pub fn begin_file(&mut self, name: &str, rules: &Vec<DirectoryEntry>) -> (r: Option<String>)
        requires
            spec_run_consistent(*old(self)),
            !old(self).pending,
            !old(self).aborted,
            old(self).matched < u64::MAX,
        ensures
            spec_run_consistent(*final(self)),
            !final(self).aborted,
            final(self).uploaded == old(self).uploaded,
            final(self).skipped == old(self).skipped,
            r is Some <==> spec_match_rule(name@, rules@) is Some,
            r is None ==> *final(self) == *old(self),
            r is Some ==> final(self).matched == old(self).matched + 1 && final(self).pending,
            (match (r, spec_match_rule(name@, rules@)) {
                (Some(key), Some(i)) => key@ == spec_remote_key(rules@[i].remote_path@, name@),
                (None, None) => true,
                _ => false,
            }),
    {
        match match_rule(name, rules) {
            None => None,
            Some(i) => {
                self.matched = self.matched + 1;
                self.pending = true;
                Some(remote_key(rules[i].remote_path.as_str(), name))
            },
        }
    }

    /// Resolves the in-flight file against what the probe reported: a
    /// remote copy whose stored fingerprint matches is counted skipped
    /// and the file is done; otherwise the file stays in flight and the
    /// caller owes an upload.
    pub fn resolve_probe(&mut self, local_fingerprint: &str, probe: &ObjectProbe) -> (d:
        SyncDecision)
        requires
            spec_run_consistent(*old(self)),
            old(self).pending,
            !old(self).aborted,
            old(self).skipped < u64::MAX,
        ensures
            spec_run_consistent(*final(self)),
            d == spec_decide_sync(local_fingerprint@, *probe),
            final(self).matched == old(self).matched,
            final(self).uploaded == old(self).uploaded,
            !final(self).aborted,
            d is Skip ==> final(self).skipped == old(self).skipped + 1 && !final(self).pending,
            d is Upload ==> *final(self) == *old(self),
    {
        let d = crate::remote::decide_sync(local_fingerprint, probe);
        match d {
            SyncDecision::Skip => {
                self.skipped = self.skipped + 1;
                self.pending = false;
                SyncDecision::Skip
            },
            SyncDecision::Upload => SyncDecision::Upload,
        }
    }

    /// Records that the in-flight file was uploaded.
    pub fn record_upload(&mut self)
        requires
            spec_run_consistent(*old(self)),
            old(self).pending,
            !old(self).aborted,
            old(self).uploaded < u64::MAX,
        ensures
            spec_run_consistent(*final(self)),
            final(self).uploaded == old(self).uploaded + 1,
            final(self).matched == old(self).matched,
            final(self).skipped == old(self).skipped,
            !final(self).pending,
            !final(self).aborted,
    {
        self.uploaded = self.uploaded + 1;
        self.pending = false;
    }

    /// Records a fatal failure — a fingerprint, probe or upload that
    /// failed. The counters keep what already happened; nothing is
    /// rolled back; only the summary is withheld.
    pub fn abort(&mut self)
        ensures
            final(self).aborted,
            final(self).matched == old(self).matched,
            final(self).uploaded == old(self).uploaded,
            final(self).skipped == old(self).skipped,
            final(self).pending == old(self).pending,
    {
        self.aborted = true;
    }

    /// The run's summary, produced exactly when the run completed: no
    /// failure recorded and no file left in flight. Then every matched
    /// file was either uploaded or skipped.
    pub fn summary(&self) -> (r: Option<String>)
        requires
            spec_run_consistent(*self),
        ensures
            r is Some <==> (!self.aborted && !self.pending),
            r matches Some(m) ==> m@ == spec_summary_message(
                self.matched,
                self.uploaded,
                self.skipped,
            ) && self.matched as int == self.uploaded as int + self.skipped as int,
    {
        if self.aborted || self.pending {
            None
        } else {
            Some(summary_message(self.matched, self.uploaded, self.skipped))
        }
    }
}

/// Renders the closing line for the given counters.
pub fn summary_message(matched: u64, uploaded: u64, skipped: u64) -> (r: String)
    ensures
        r@ == spec_summary_message(matched, uploaded, skipped),
{
    let mut out = String::from_str("Matched: ");
    crate::textfmt::append_decimal(&mut out, matched);
    out.append(", Uploaded: ");
    crate::textfmt::append_decimal(&mut out, uploaded);
    out.append(", Skipped: ");
    crate::textfmt::append_decimal(&mut out, skipped);
    out.append(".");
    proof {
        assert(out@ =~= spec_summary_message(matched, uploaded, skipped));
    }
    out
}

} // verus!
