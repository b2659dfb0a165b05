//! Chunked transfer engine.
//!
//! An object's bytes are retrieved either in one whole-object call or
//! in bounded chunks requested at increasing offsets.  The engine
//! plans each request, reassembles what the device returns in order,
//! and on completion checks the assembled buffer against the expected
//! size, so that no truncated or padded object is ever committed.

use vstd::arithmetic::div_mod::lemma_fundamental_div_mod;
use vstd::prelude::*;

verus! {

/// The default bound on one partial transfer: 15 MiB.
pub const DEFAULT_CHUNK_SIZE_BYTES: u32 = 15 * 1024 * 1024;

/// The retrieval strategy for one object.
#[derive(Clone, Copy, PartialEq, Eq, Structural, Debug)]
pub enum FetchMode {
    /// One whole-object call.
    Whole,
    /// Partial calls of at most `chunk_size` bytes each.
    Chunked { chunk_size: u32 },
}

/// One retrieval call the engine asks its caller to make.
#[derive(Clone, Copy, PartialEq, Eq, Structural, Debug)]
pub enum FetchRequest {
    /// Fetch the whole object.
    Whole,
    /// Fetch at most `max_len` bytes starting at `offset`.
    Partial { offset: u64, max_len: u32 },
}

/// The assembled buffer's length differed from the object's expected
/// size: a data-integrity failure, and the object is not committed.
#[derive(Clone, Copy, PartialEq, Eq, Structural, Debug)]
pub struct SizeMismatch {
    pub expected: u64,
    pub actual: u64,
}

/// How many requests a chunked retrieval of `s` bytes makes with
/// chunks of `c` bytes: the least count whose requests cover `s`.
pub open spec fn chunk_count(s: int, c: int) -> int {
    (s + c - 1) / c
}

/// Where the `k`-th partial request of a chunked retrieval starts.
pub open spec fn chunk_offset(k: int, c: int) -> int {
    k * c
}

/// The request offsets of a chunked retrieval strictly increase with
/// the request number.
pub proof fn lemma_offsets_strictly_increase(k1: int, k2: int, c: int)
    requires
        0 <= k1 < k2,
        c > 0,
    ensures
        chunk_offset(k1, c) < chunk_offset(k2, c),
{
    assert(k1 * c < k2 * c) by (nonlinear_arith)
        requires
            0 <= k1 < k2,
            c > 0,
    ;
}

/// Picks the retrieval strategy: chunking must be available, and the
/// expected size must reach the chunk bound, for partial calls to be
/// worthwhile; otherwise the object comes in one whole-object call.
pub fn choose_mode(expected_size: u64, chunking: Option<u32>) -> (r: FetchMode)
    ensures
        chunking is None ==> r == FetchMode::Whole,
        chunking matches Some(c) ==> r == (if expected_size < c {
            FetchMode::Whole
        } else {
            FetchMode::Chunked { chunk_size: c }
        }),
{
    match chunking {
        None => FetchMode::Whole,
        Some(c) => {
            if expected_size < c as u64 {
                FetchMode::Whole
            } else {
                FetchMode::Chunked { chunk_size: c }
            }
        },
    }
}

/// Reassembles one object from retrieval calls the caller makes on
/// its behalf: the engine names each request, the caller feeds back
/// the returned bytes in order.
pub struct TransferEngine {
    pub expected_size: u64,
    pub mode: FetchMode,
    /// Cumulative bytes requested so far in chunked mode.
    pub requested: u64,
    /// Whether the single whole-object call is still owed.
    pub whole_pending: bool,
    /// The returned bytes, appended in request order.
    pub buffer: Vec<u8>,
    /// How many requests have been answered.
    pub pushes: Ghost<nat>,
}

impl TransferEngine {
    /// The chunk bound, in chunked mode.
    pub open spec fn chunk(self) -> u64 {
        match self.mode {
            FetchMode::Whole => 0,
            FetchMode::Chunked { chunk_size } => chunk_size as u64,
        }
    }

    pub open spec fn wf(self) -> bool {
        match self.mode {
            FetchMode::Whole => self.whole_pending <==> self.pushes@ == 0,
            FetchMode::Chunked { chunk_size } => {
                &&& chunk_size > 0
                &&& !self.whole_pending
                &&& self.expected_size + chunk_size <= u64::MAX
                &&& self.requested == self.pushes@ * (chunk_size as int)
                &&& (self.pushes@ > 0 ==> (self.pushes@ - 1) * (chunk_size as int)
                    < self.expected_size)
            },
        }
    }

    /// Whether another retrieval call is still owed: in chunked mode,
    /// until the cumulative bytes requested reach the expected size.
    pub open spec fn pending(self) -> bool {
        match self.mode {
            FetchMode::Whole => self.whole_pending,
            FetchMode::Chunked { .. } => self.requested < self.expected_size,
        }
    }

    /// Starts a retrieval of `expected_size` bytes under the given
    /// strategy, with nothing yet requested or buffered.
    pub fn new(expected_size: u64, mode: FetchMode) -> (r: TransferEngine)
        requires
            mode matches FetchMode::Chunked { chunk_size } ==> chunk_size > 0 && expected_size
                + chunk_size <= u64::MAX,
        ensures
            r.wf(),
            r.expected_size == expected_size,
            r.mode == mode,
            r.requested == 0,
            r.pushes@ == 0,
            r.buffer@ == Seq::<u8>::empty(),
            r.mode is Whole ==> r.whole_pending,
    {
        let whole_pending = match mode {
            FetchMode::Whole => true,
            FetchMode::Chunked { .. } => false,
        };
        TransferEngine {
            expected_size,
            mode,
            requested: 0,
            whole_pending,
            buffer: Vec::new(),
            pushes: Ghost(0),
        }
    }

    /// Names the next retrieval call, or nothing once every needed
    /// request has been answered.  Chunked requests start at the
    /// cumulative offset and ask for one chunk bound; the final one
    /// may ask past the bytes remaining, and the device returns only
    /// what it has.
    pub fn next_request(&self) -> (r: Option<FetchRequest>)
        requires
            self.wf(),
        ensures
            r is Some <==> self.pending(),
            self.mode is Whole && self.pending() ==> r == Some(FetchRequest::Whole),
            self.mode matches FetchMode::Chunked { chunk_size } ==> (self.pending() ==> r == Some(
                (FetchRequest::Partial { offset: self.requested, max_len: chunk_size }),
            )),
    {
        match self.mode {
            FetchMode::Whole => {
                if self.whole_pending {
                    Some(FetchRequest::Whole)
                } else {
                    None
                }
            },
            FetchMode::Chunked { chunk_size } => {
                if self.requested < self.expected_size {
                    Some(FetchRequest::Partial { offset: self.requested, max_len: chunk_size })
                } else {
                    None
                }
            },
        }
    }

    /// Takes the bytes one retrieval call returned, appending them to
    /// the buffer and advancing the cumulative request offset.
    pub fn push(&mut self, data: Vec<u8>)
        requires
            old(self).wf(),
            old(self).pending(),
            old(self).buffer@.len() + data@.len() <= usize::MAX,
        ensures
            final(self).wf(),
            final(self).expected_size == old(self).expected_size,
            final(self).mode == old(self).mode,
            final(self).buffer@ == old(self).buffer@ + data@,
            final(self).pushes@ == old(self).pushes@ + 1,
            !final(self).whole_pending,
            old(self).mode is Chunked ==> final(self).requested == old(self).requested + old(
                self,
            ).chunk(),
    {
        let mut data = data;
        self.buffer.append(&mut data);
        match self.mode {
            FetchMode::Whole => {
                self.whole_pending = false;
            },
            FetchMode::Chunked { chunk_size } => {
                self.requested = self.requested + chunk_size as u64;
            },
        }
        self.pushes = Ghost(self.pushes@ + 1);
        proof {
            if self.mode is Chunked {
                assert(self.requested == self.pushes@ * (self.chunk() as int)) by (nonlinear_arith)
                    requires
                        self.requested == (self.pushes@ - 1) * (self.chunk() as int) + self.chunk(),
                        self.pushes@ > 0,
                ;
            }
        }
    }

    /// Closes the retrieval: the assembled buffer is handed out only
    /// when its length equals the expected size, else the mismatch is
    /// reported and nothing is committed.
    pub fn finish(self) -> (r: Result<Vec<u8>, SizeMismatch>)
        ensures
            r matches Ok(buf) ==> buf@ == self.buffer@ && buf@.len() == self.expected_size,
            r matches Err(e) ==> e.expected == self.expected_size && e.actual == self.buffer@.len()
                && self.buffer@.len() != self.expected_size,
    {
        let len = self.buffer.len();
        if len as u64 == self.expected_size {
            Ok(self.buffer)
        } else {
            Err(SizeMismatch { expected: self.expected_size, actual: len as u64 })
        }
    }
}

proof fn lemma_count_iff(s: int, c: int, k: int)
    requires
        c > 0,
        k >= 0,
    ensures
        (k * c < s) <==> (k < chunk_count(s, c)),
{
    let q = (s + c - 1) / c;
    let r = (s + c - 1) % c;
    lemma_fundamental_div_mod(s + c - 1, c);
    assert((k * c < s) <==> (k < q)) by (nonlinear_arith)
        requires
            s + c - 1 == c * q + r,
            0 <= r < c,
            c > 0,
            k >= 0,
    ;
}

/// Chunked reassembly follows the schedule `0, C, 2C, …`: after `k`
/// answered requests the next request's offset is exactly `k * C`,
/// and a request is still owed precisely while fewer than
/// `ceil(S / C)` have been answered — so a chunked retrieval of `S`
/// bytes makes exactly `chunk_count(S, C)` requests, at strictly
/// increasing offsets.
pub proof fn lemma_chunk_schedule(e: TransferEngine)
    requires
        e.wf(),
        e.mode is Chunked,
    ensures
        e.requested == chunk_offset(e.pushes@ as int, e.chunk() as int),
        e.pending() <==> e.pushes@ < chunk_count(e.expected_size as int, e.chunk() as int),
{
    lemma_count_iff(e.expected_size as int, e.chunk() as int, e.pushes@ as int);
}

/// Whole-object fetch, and any expected size within one chunk bound,
/// takes a single retrieval call: one request is owed at the start
/// (none at all for an empty chunked object), and none after it is
/// answered.
pub proof fn lemma_single_request(e: TransferEngine)
    requires
        e.wf(),
        e.mode is Whole || e.expected_size <= e.chunk(),
    ensures
        e.mode is Whole ==> (e.pending() <==> e.pushes@ == 0),
        e.mode is Chunked ==> (e.pending() <==> (e.pushes@ == 0 && e.expected_size > 0)),
{
    if e.mode is Chunked {
        let c = e.chunk() as int;
        let p = e.pushes@ as int;
        assert(e.requested == p * c);
        if p > 0 {
            assert(p * c >= c) by (nonlinear_arith)
                requires
                    p >= 1,
                    c >= 0,
            ;
            assert(!e.pending());
        } else {
            assert(p * c == 0) by (nonlinear_arith)
                requires
                    p == 0,
            ;
            assert(e.pending() <==> e.expected_size > 0);
        }
    }
}

} // verus!
