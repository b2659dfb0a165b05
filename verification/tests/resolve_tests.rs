use ptp_ingest::resolve::ResolveDecision;
use ptp_ingest::resolve::SUFFIX_PROBE_CAP;
use ptp_ingest::resolve::resolve_destination;
use ptp_ingest::resolve::resolve_step;

#[test]
fn empty_bucket_writes_unsuffixed() {
    let obs: Vec<Option<u64>> = vec![];
    assert_eq!(
        resolve_destination(5_242_880, &obs),
        ResolveDecision::Write { suffix: 0 }
    );
}

#[test]
fn equal_length_means_already_downloaded() {
    let obs = vec![Some(5_242_880u64)];
    assert_eq!(
        resolve_destination(5_242_880, &obs),
        ResolveDecision::AlreadyDownloaded
    );
}

#[test]
fn mismatched_length_takes_first_suffix() {
    let obs = vec![Some(4_000_000u64)];
    assert_eq!(
        resolve_destination(5_242_880, &obs),
        ResolveDecision::Write { suffix: 1 }
    );
}

#[test]
fn probing_finds_lowest_unused_suffix() {
    let obs = vec![Some(4_000_000u64), Some(1u64), Some(2u64)];
    assert_eq!(
        resolve_destination(5_242_880, &obs),
        ResolveDecision::Write { suffix: 3 }
    );
}

#[test]
fn probing_skips_holes_only_up_to_first_unused() {
    let obs = vec![Some(4_000_000u64), Some(1u64), None, Some(2u64)];
    assert_eq!(
        resolve_destination(5_242_880, &obs),
        ResolveDecision::Write { suffix: 2 }
    );
}

#[test]
fn suffixed_candidates_are_not_compared_by_length() {
    // The file at suffix 1 has exactly the expected length, but only
    // the unsuffixed candidate is treated as a prior download.
    let obs = vec![Some(4_000_000u64), Some(5_242_880u64)];
    assert_eq!(
        resolve_destination(5_242_880, &obs),
        ResolveDecision::Write { suffix: 2 }
    );
}

#[test]
fn probing_gives_up_past_the_cap() {
    let obs: Vec<Option<u64>> = (0..(SUFFIX_PROBE_CAP as usize + 1)).map(|_| Some(1u64)).collect();
    assert_eq!(resolve_destination(5_242_880, &obs), ResolveDecision::GiveUp);
}

#[test]
fn probing_succeeds_at_the_cap_boundary() {
    let obs: Vec<Option<u64>> = (0..(SUFFIX_PROBE_CAP as usize)).map(|_| Some(1u64)).collect();
    assert_eq!(
        resolve_destination(5_242_880, &obs),
        ResolveDecision::Write {
            suffix: SUFFIX_PROBE_CAP
        }
    );
}

#[test]
fn single_steps_match_the_driver() {
    assert_eq!(
        resolve_step(100, 0, None),
        ResolveDecision::Write { suffix: 0 }
    );
    assert_eq!(resolve_step(100, 0, Some(100)), ResolveDecision::AlreadyDownloaded);
    assert_eq!(
        resolve_step(100, 0, Some(99)),
        ResolveDecision::ProbeNext { suffix: 1 }
    );
    assert_eq!(
        resolve_step(100, 3, Some(100)),
        ResolveDecision::ProbeNext { suffix: 4 }
    );
    assert_eq!(
        resolve_step(100, 7, None),
        ResolveDecision::Write { suffix: 7 }
    );
    assert_eq!(resolve_step(100, SUFFIX_PROBE_CAP, Some(1)), ResolveDecision::GiveUp);
}
