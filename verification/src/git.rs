//! The repository-side notification domain, and a content-hash helper
//! used to detect whether fetched state actually changed.

use vstd::prelude::*;

use std::collections::hash_map::DefaultHasher;
use std::hash::Hasher;
use vstd::std_specs::hash::DefaultHasherAdditionalSpecFns;

verus! {

/// A payload-free signal that the job slot of one repository-side kind
/// changed state; the consumer pulls the actual result separately.
#[derive(Copy, Clone, Debug, PartialEq, Eq, Structural)]
pub enum AsyncNotification {
    /// No new state was fetched, but an async process finished.
    FinishUnchanged,
    Status,
    Diff,
    Log,
    CommitFiles,
    Tags,
    Push,
    PushTags,
    Fetch,
    Blame,
    SyntaxHighlighting,
}

/// Hash of a byte snapshot, as `DefaultHasher` computes it after a
/// single `write` of the whole slice.
pub fn hash(v: &[u8]) -> (r: u64)
    ensures
        r == DefaultHasher::spec_finish(seq![v@]),
{
    let mut hasher = DefaultHasher::new();
    hasher.write(v);
    proof {
        assert(hasher@ =~= seq![v@]);
    }
    hasher.finish()
}

} // verus!
