use ptp_ingest::transfer::DEFAULT_CHUNK_SIZE_BYTES;
use ptp_ingest::transfer::choose_mode;
use ptp_ingest::transfer::FetchMode;
use ptp_ingest::transfer::FetchRequest;
use ptp_ingest::transfer::SizeMismatch;
use ptp_ingest::transfer::TransferEngine;

/// Drives an engine against a fake device holding `total` bytes of
/// rolling content, returning the requests made and the finish
/// result.
fn drive(expected: u64, mode: FetchMode, available: u64) -> (Vec<FetchRequest>, Result<Vec<u8>, SizeMismatch>) {
    let mut engine = TransferEngine::new(expected, mode);
    let mut requests = Vec::new();
    while let Some(req) = engine.next_request() {
        requests.push(req);
        let data: Vec<u8> = match req {
            FetchRequest::Whole => (0..available).map(|i| i as u8).collect(),
            FetchRequest::Partial { offset, max_len } => {
                let end = available.min(offset + max_len as u64);
                (offset.min(available)..end).map(|i| i as u8).collect()
            }
        };
        engine.push(data);
    }
    (requests, engine.finish())
}

#[test]
fn whole_fetch_is_a_single_call_of_exact_size() {
    let s = 5_242_880u64;
    let (requests, result) = drive(s, FetchMode::Whole, s);
    assert_eq!(requests, vec![FetchRequest::Whole]);
    let buf = result.unwrap();
    assert_eq!(buf.len() as u64, s);
}

#[test]
fn small_object_within_one_chunk_takes_one_partial_call() {
    let s = 5u64;
    let c = 8u32;
    let (requests, result) = drive(s, FetchMode::Chunked { chunk_size: c }, s);
    assert_eq!(
        requests,
        vec![FetchRequest::Partial {
            offset: 0,
            max_len: c
        }]
    );
    assert_eq!(result.unwrap(), vec![0, 1, 2, 3, 4]);
}

#[test]
fn chunked_fetch_requests_increasing_offsets() {
    // ceil(5 / 2) = 3 requests at offsets 0, 2, 4; the last call may
    // ask past the remainder and gets back only what is left.
    let s = 5u64;
    let c = 2u32;
    let (requests, result) = drive(s, FetchMode::Chunked { chunk_size: c }, s);
    assert_eq!(
        requests,
        vec![
            FetchRequest::Partial {
                offset: 0,
                max_len: c
            },
            FetchRequest::Partial {
                offset: 2,
                max_len: c
            },
            FetchRequest::Partial {
                offset: 4,
                max_len: c
            },
        ]
    );
    assert_eq!(result.unwrap().len(), 5);
}

#[test]
fn two_full_chunks_cover_an_exact_multiple() {
    let c = 15_728_640u32;
    let s = 31_457_280u64;
    let (requests, result) = drive(s, FetchMode::Chunked { chunk_size: c }, s);
    assert_eq!(
        requests,
        vec![
            FetchRequest::Partial {
                offset: 0,
                max_len: c
            },
            FetchRequest::Partial {
                offset: 15_728_640,
                max_len: c
            },
        ]
    );
    let buf = result.unwrap();
    assert_eq!(buf.len() as u64, s);
}

#[test]
fn truncated_transfer_is_a_size_mismatch() {
    let s = 10u64;
    let c = 4u32;
    let (_, result) = drive(s, FetchMode::Chunked { chunk_size: c }, 7);
    assert_eq!(
        result,
        Err(SizeMismatch {
            expected: 10,
            actual: 7
        })
    );
}

#[test]
fn oversupplying_device_is_a_size_mismatch() {
    let s = 3u64;
    let (_, result) = drive(s, FetchMode::Whole, 5);
    assert_eq!(
        result,
        Err(SizeMismatch {
            expected: 3,
            actual: 5
        })
    );
}

#[test]
fn empty_chunked_object_needs_no_request() {
    let (requests, result) = drive(0, FetchMode::Chunked { chunk_size: 4 }, 0);
    assert_eq!(requests, vec![]);
    assert_eq!(result.unwrap(), Vec::<u8>::new());
}

#[test]
fn mode_choice_prefers_whole_below_the_chunk_bound() {
    assert_eq!(choose_mode(5_242_880, None), FetchMode::Whole);
    assert_eq!(
        choose_mode(5_242_880, Some(DEFAULT_CHUNK_SIZE_BYTES)),
        FetchMode::Whole
    );
    assert_eq!(
        choose_mode(31_457_280, Some(DEFAULT_CHUNK_SIZE_BYTES)),
        FetchMode::Chunked {
            chunk_size: DEFAULT_CHUNK_SIZE_BYTES
        }
    );
    assert_eq!(
        choose_mode(15_728_640, Some(15_728_640)),
        FetchMode::Chunked {
            chunk_size: 15_728_640
        }
    );
}
