//! Destination resolution.
//!
//! Before an object is transferred its destination inside the date
//! bucket is settled against what already sits on disk.  The caller
//! probes one candidate path at a time and reports what it observed
//! there — no file, or a file of some byte length — and the resolver
//! answers with the next move: write here, skip a file already
//! downloaded, probe the next suffix, or give up once probing has run
//! past its cap.

use vstd::prelude::*;

verus! {

/// How many `-{n}` suffixes probing will try before treating the
/// filesystem as pathological and giving the object up.
pub const SUFFIX_PROBE_CAP: u64 = 10000;

/// The resolver's answer after one probe of candidate `n`.
#[derive(Clone, Copy, PartialEq, Eq, Structural, Debug)]
pub enum ResolveDecision {
    /// Candidate `suffix` is unused: write the object there.
    Write { suffix: u64 },
    /// The unsuffixed candidate holds a file of the expected length:
    /// the object was downloaded before, write nothing.
    AlreadyDownloaded,
    /// The candidate is taken: probe candidate `suffix` next.
    ProbeNext { suffix: u64 },
    /// Probing ran past its cap without an unused candidate.
    GiveUp,
}

/// One step of destination resolution: `observed` is the byte length
/// of whatever sits at candidate `n`, or nothing when the path is
/// unused.  Only the unsuffixed candidate is compared by length; a
/// taken suffixed candidate just moves probing on.
pub open spec fn spec_resolve_step(expected: u64, n: u64, observed: Option<u64>) -> ResolveDecision {
    match observed {
        None => ResolveDecision::Write { suffix: n },
        Some(len) => {
            if n == 0 && len == expected {
                ResolveDecision::AlreadyDownloaded
            } else if n >= SUFFIX_PROBE_CAP {
                ResolveDecision::GiveUp
            } else {
                ResolveDecision::ProbeNext { suffix: (n + 1) as u64 }
            }
        },
    }
}

/// Answers one probe of candidate `n` during destination resolution.
pub fn resolve_step(expected: u64, n: u64, observed: Option<u64>) -> (r: ResolveDecision)
    ensures
        r == spec_resolve_step(expected, n, observed),
{
    match observed {
        None => ResolveDecision::Write { suffix: n },
        Some(len) => {
            if n == 0 && len == expected {
                ResolveDecision::AlreadyDownloaded
            } else if n >= SUFFIX_PROBE_CAP {
                ResolveDecision::GiveUp
            } else {
                ResolveDecision::ProbeNext { suffix: n + 1 }
            }
        },
    }
}

/// What a probe of candidate `n` observes in a bucket snapshot laid
/// out as a sequence indexed by suffix: candidates past the snapshot's
/// end are unused.
pub open spec fn obs_at(obs: Seq<Option<u64>>, n: u64) -> Option<u64> {
    if n < obs.len() {
        obs[n as int]
    } else {
        None
    }
}

/// Where resolution lands when probing starts at candidate `n`
/// against a fixed bucket snapshot.
pub open spec fn spec_resolve_from(expected: u64, n: u64, obs: Seq<Option<u64>>) -> ResolveDecision
    decreases SUFFIX_PROBE_CAP + 1 - n,
{
    match spec_resolve_step(expected, n, obs_at(obs, n)) {
        ResolveDecision::ProbeNext { suffix } => spec_resolve_from(expected, suffix, obs),
        d => d,
    }
}

/// Runs destination resolution to its end against a bucket snapshot:
/// `obs[n]` is the byte length of the file at candidate `n`, or
/// nothing where the path is unused.
pub fn resolve_destination(expected: u64, obs: &Vec<Option<u64>>) -> (r: ResolveDecision)
    ensures
        r == spec_resolve_from(expected, 0, obs@),
        !(r is ProbeNext),
{
    let mut n: u64 = 0;
    loop
        invariant
            n <= SUFFIX_PROBE_CAP,
            spec_resolve_from(expected, n, obs@) == spec_resolve_from(expected, 0, obs@),
        decreases SUFFIX_PROBE_CAP - n,
    {
        let observed: Option<u64> = if (n as usize) < obs.len() {
            obs[n as usize]
        } else {
            None
        };
        proof {
            assert(observed == obs_at(obs@, n));
        }
        let d = resolve_step(expected, n, observed);
        match d {
            ResolveDecision::ProbeNext { suffix } => {
                n = suffix;
            },
            _ => {
                return d;
            },
        }
    }
}

/// Re-running the pipeline against unchanged storage writes nothing:
/// when the unsuffixed candidate already holds a file of exactly the
/// expected length — as it does after a completed earlier run, whose
/// committed buffer length always equals the expected size —
/// resolution answers `AlreadyDownloaded` at once.
pub proof fn lemma_second_run_skips(expected: u64, obs: Seq<Option<u64>>)
    requires
        obs_at(obs, 0) == Some(expected),
    ensures
        spec_resolve_from(expected, 0, obs) == ResolveDecision::AlreadyDownloaded,
{
}

proof fn lemma_probe_reaches(expected: u64, obs: Seq<Option<u64>>, n: u64, k: u64)
    requires
        1 <= n <= k <= SUFFIX_PROBE_CAP,
        forall|j: u64| n <= j < k ==> obs_at(obs, j) is Some,
        obs_at(obs, k) is None,
    ensures
        spec_resolve_from(expected, n, obs) == (ResolveDecision::Write { suffix: k }),
    decreases k - n,
{
    if n < k {
        assert(obs_at(obs, n) is Some);
        lemma_probe_reaches(expected, obs, (n + 1) as u64, k);
    }
}

/// Resolution never overwrites: wherever it answers `Write`, the
/// bucket snapshot holds nothing at that candidate.
pub proof fn lemma_write_candidate_unused(expected: u64, n: u64, obs: Seq<Option<u64>>, k: u64)
    requires
        n <= SUFFIX_PROBE_CAP,
        spec_resolve_from(expected, n, obs) == (ResolveDecision::Write { suffix: k }),
    ensures
        obs_at(obs, k) is None,
    decreases SUFFIX_PROBE_CAP + 1 - n,
{
    match spec_resolve_step(expected, n, obs_at(obs, n)) {
        ResolveDecision::ProbeNext { suffix } => {
            lemma_write_candidate_unused(expected, suffix, obs, k);
        },
        _ => {
        },
    }
}

proof fn lemma_no_skip_past_zero(expected: u64, n: u64, obs: Seq<Option<u64>>)
    requires
        1 <= n <= SUFFIX_PROBE_CAP,
    ensures
        spec_resolve_from(expected, n, obs) != ResolveDecision::AlreadyDownloaded,
    decreases SUFFIX_PROBE_CAP + 1 - n,
{
    match spec_resolve_step(expected, n, obs_at(obs, n)) {
        ResolveDecision::ProbeNext { suffix } => {
            lemma_no_skip_past_zero(expected, suffix, obs);
        },
        _ => {
        },
    }
}

/// Resolution reports a prior download only on the strength of an
/// exact length match at the unsuffixed candidate: nothing else makes
/// it skip the transfer.
pub proof fn lemma_skip_means_same_length(expected: u64, obs: Seq<Option<u64>>)
    requires
        spec_resolve_from(expected, 0, obs) == ResolveDecision::AlreadyDownloaded,
    ensures
        obs_at(obs, 0) == Some(expected),
{
    match spec_resolve_step(expected, 0, obs_at(obs, 0)) {
        ResolveDecision::ProbeNext { suffix } => {
            lemma_no_skip_past_zero(expected, suffix, obs);
        },
        _ => {
        },
    }
}

/// Collision handling finds the lowest-numbered unused suffix: when
/// the unsuffixed candidate holds a file of a different length, and
/// `k` is the least suffix whose candidate is unused, resolution lands
/// exactly on `k`.
pub proof fn lemma_lowest_unused_suffix(expected: u64, obs: Seq<Option<u64>>, k: u64)
    requires
        1 <= k <= SUFFIX_PROBE_CAP,
        obs_at(obs, 0) matches Some(len) && len != expected,
        forall|j: u64| 1 <= j < k ==> obs_at(obs, j) is Some,
        obs_at(obs, k) is None,
    ensures
        spec_resolve_from(expected, 0, obs) == (ResolveDecision::Write { suffix: k }),
{
    lemma_probe_reaches(expected, obs, 1, k);
}

} // verus!
