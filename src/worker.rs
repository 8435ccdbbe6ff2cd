use vstd::prelude::*;

use crate::config::{first_issue, TusConfig};
use crate::entries::keys_unique;
use crate::error::{error_text, TusError};
use crate::number::{parse_u64, parsed_u64};
use crate::upload::{Upload, UploadState};

verus! {

/// Upper bound of the backoff delay, in milliseconds.
pub const MAX_BACKOFF_MS: u64 = 30000;

/// `2^n`.
pub open spec fn pow2(n: nat) -> nat
    decreases n,
{
    if n == 0 {
        1
    } else {
        2 * pow2((n - 1) as nat)
    }
}

/// The delay before retry number `retry` (from 1):
/// `min(base · 2^(retry-1), 30 s)`, in milliseconds.
pub open spec fn backoff(base_ms: u64, retry: nat) -> nat
    recommends
        retry >= 1,
{
    let d = base_ms * pow2((retry - 1) as nat);
    if d < MAX_BACKOFF_MS {
        d as nat
    } else {
        MAX_BACKOFF_MS as nat
    }
}

proof fn lemma_pow2_monotone(j: nat, k: nat)
    requires
        j <= k,
    ensures
        pow2(j) <= pow2(k),
    decreases k,
{
    if j < k {
        lemma_pow2_monotone(j, (k - 1) as nat);
    }
}

proof fn lemma_scaled_monotone(b: nat, j: nat, k: nat)
    requires
        j <= k,
    ensures
        b * pow2(j) <= b * pow2(k),
{
    lemma_pow2_monotone(j, k);
    assert(b * pow2(j) <= b * pow2(k)) by (nonlinear_arith)
        requires
            pow2(j) <= pow2(k),
    {
    }
}

/// The delay before retry number `retry`, as `backoff` states it.
pub fn backoff_delay(base_ms: u64, retry: u32) -> (r: u64)
    requires
        retry >= 1,
    ensures
        r == backoff(base_ms, retry as nat),
{
    assert(pow2(0) == 1);
    if base_ms >= MAX_BACKOFF_MS {
        proof {
            lemma_scaled_monotone(base_ms as nat, 0, (retry - 1) as nat);
        }
        return MAX_BACKOFF_MS;
    }
    let mut d = base_ms;
    let mut i: u32 = 1;
    while i < retry
        invariant
            1 <= i <= retry,
            d == base_ms * pow2((i - 1) as nat),
            d < MAX_BACKOFF_MS,
        decreases retry - i,
    {
        d = d * 2;
        i = i + 1;
        assert(pow2((i - 1) as nat) == 2 * pow2((i - 2) as nat));
        assert(d == base_ms * pow2((i - 1) as nat)) by (nonlinear_arith)
            requires
                d == 2 * (base_ms * pow2((i - 2) as nat)),
                pow2((i - 1) as nat) == 2 * pow2((i - 2) as nat),
        {
        }
        if d >= MAX_BACKOFF_MS {
            proof {
                lemma_scaled_monotone(base_ms as nat, (i - 1) as nat, (retry - 1) as nat);
            }
            return MAX_BACKOFF_MS;
        }
    }
    d
}

/// Whether `status` is a 2xx status.
pub open spec fn is_success(status: u16) -> bool {
    200 <= status <= 299
}

/// Why a worker is asked to stop.
#[derive(Clone, Copy, Debug, PartialEq, Eq, Structural)]
pub enum CancelReason {
    /// Stop, keeping the upload resumable.
    Pause,
    /// Stop for good.
    Cancel,
}

/// What the worker asks its driver to do next.
#[derive(Clone, Copy, Debug, PartialEq, Eq, Structural)]
pub enum WorkerAction {
    /// Send the creation request (`POST` to the endpoint).
    Create,
    /// Ask the server for its offset (`HEAD` to the location).
    QueryOffset,
    /// Read at most the given length of the file from the given offset.
    ReadChunk(u64, usize),
    /// Send the bytes read, of the given length, at the given offset
    /// (`PATCH` to the location).
    SendChunk(u64, usize),
    /// Wait the given number of milliseconds.
    Sleep(u64),
    /// Stop: the record holds the outcome of this run.
    Finish,
}

/// What the driver reports back.
#[derive(Debug)]
pub enum WorkerEvent {
    /// A pause or a cancel was signalled.
    Cancelled(CancelReason),
    /// The creation request was answered: status and `Location` header.
    Created(u16, Option<String>),
    /// The creation request failed in transport.
    CreateFailed(String),
    /// The offset request was answered: status and `Upload-Offset` header.
    OffsetReply(u16, Option<String>),
    /// The offset request failed in transport.
    OffsetFailed(String),
    /// The read gave the given number of bytes.
    ChunkRead(usize),
    /// The local file could not be read.
    ReadFailed(String),
    /// The chunk request was answered with the given status.
    PatchReply(u16),
    /// The chunk request failed in transport.
    PatchFailed(String),
    /// The wait has ended.
    Slept,
}

/// Whether `e` answers the action `p`. A cancellation answers any action.
pub open spec fn answers(p: WorkerAction, e: WorkerEvent) -> bool {
    match e {
        WorkerEvent::Cancelled(_) => true,
        WorkerEvent::Created(_, _) | WorkerEvent::CreateFailed(_) => p is Create,
        WorkerEvent::OffsetReply(_, _) | WorkerEvent::OffsetFailed(_) => p is QueryOffset,
        WorkerEvent::ChunkRead(_) | WorkerEvent::ReadFailed(_) => p is ReadChunk,
        WorkerEvent::PatchReply(_) | WorkerEvent::PatchFailed(_) => p is SendChunk,
        WorkerEvent::Slept => p is Sleep,
    }
}

/// The server offset that an offset reply carries, where it is a 2xx
/// reply with a well-formed `Upload-Offset`.
pub open spec fn reported_offset(e: WorkerEvent) -> Option<u64> {
    match e {
        WorkerEvent::OffsetReply(s, Some(t)) => if is_success(s) {
            parsed_u64(t@)
        } else {
            None
        },
        _ => None,
    }
}

/// The text of the error that a failed answer carries, where it is one
/// that the retry budget covers: a transport failure, a non-2xx status, or
/// a missing or malformed offset.
pub open spec fn retryable_error(e: WorkerEvent) -> Option<Seq<char>> {
    match e {
        WorkerEvent::OffsetFailed(m) => Some(error_text(TusError::NetworkError(m))),
        WorkerEvent::OffsetReply(s, _) => if !is_success(s) {
            Some(error_text(TusError::Protocol(s)))
        } else if reported_offset(e) is None {
            Some("Configuration error: Invalid offset in response"@)
        } else {
            None
        },
        WorkerEvent::PatchFailed(m) => Some(error_text(TusError::NetworkError(m))),
        WorkerEvent::PatchReply(s) => if !is_success(s) {
            Some(error_text(TusError::Protocol(s)))
        } else {
            None
        },
        _ => None,
    }
}

/// Whether `e`, answering `p`, is a successful creation, the one answer
/// that sets the location.
pub open spec fn stores_location(p: WorkerAction, e: WorkerEvent) -> bool {
    &&& p == WorkerAction::Create
    &&& (e matches WorkerEvent::Created(st, loc) && is_success(st) && loc is Some)
}

/// Whether the record's last error holds the text `t`.
pub open spec fn last_error_is(u: Upload, t: Seq<char>) -> bool {
    u.progress.last_error matches Some(m) && m@ == t
}

/// The smaller of two sizes.
pub open spec fn min_len(a: int, b: int) -> int {
    if a < b {
        a
    } else {
        b
    }
}

/// The chunks that a run sends, from server offset `o` on, against a
/// server that commits each chunk it acknowledges: as `handle` states, each
/// is read and sent at exactly the offset the server reports, and is
/// `min(chunk, total - o)` bytes long.
pub open spec fn transfer_plan(o: nat, total: nat, chunk: nat) -> Seq<(nat, nat)>
    decreases total - o,
{
    if o >= total || chunk == 0 {
        seq![]
    } else {
        let n = min_len(chunk as int, total - o) as nat;
        seq![(o, n)] + transfer_plan(o + n, total, chunk)
    }
}

/// The number of bytes that the chunks of `p` hold.
pub open spec fn plan_bytes(p: Seq<(nat, nat)>) -> nat
    decreases p.len(),
{
    if p.len() == 0 {
        0
    } else {
        p[0].1 + plan_bytes(p.subrange(1, p.len() as int))
    }
}

/// The offset at which the first `j` chunks of `p`, sent from `o`, end.
pub open spec fn plan_end(p: Seq<(nat, nat)>, o: nat, j: int) -> nat {
    if j <= 0 {
        o
    } else {
        p[j - 1].0 + p[j - 1].1
    }
}

proof fn lemma_plan_from(o: nat, total: nat, chunk: nat, j: int)
    requires
        chunk > 0,
        0 <= j <= transfer_plan(o, total, chunk).len(),
    ensures
        ({
            let p = transfer_plan(o, total, chunk);
            &&& o <= total ==> plan_bytes(p) == total - o
            &&& p.len() > 0 ==> p[0].0 == o
            &&& forall|i: int| 0 <= i < p.len() - 1 ==> #[trigger] p[i].0 + p[i].1 == p[i + 1].0
            &&& forall|i: int| 0 <= i < p.len() ==> #[trigger] p[i].1 > 0 && p[i].0 + p[i].1 <= total
            &&& p.subrange(0, j) + transfer_plan(plan_end(p, o, j), total, chunk) == p
        }),
    decreases total - o,
{
    let p = transfer_plan(o, total, chunk);
    if o >= total {
        assert(p.len() == 0);
        assert(p.subrange(0, j) + transfer_plan(plan_end(p, o, j), total, chunk) =~= p);
    } else {
        let n = min_len(chunk as int, total - o) as nat;
        let rest = transfer_plan(o + n, total, chunk);
        assert(p == seq![(o, n)] + rest);
        let jr = if j > 0 { j - 1 } else { 0 };
        lemma_plan_from(o + n, total, chunk, jr);
        assert(p.subrange(1, p.len() as int) =~= rest);
        assert forall|i: int| 0 <= i < p.len() - 1 implies #[trigger] p[i].0 + p[i].1 == p[i + 1].0 by {
            if i > 0 {
                assert(p[i] == rest[i - 1]);
                assert(p[i + 1] == rest[i]);
            } else if rest.len() > 0 {
                assert(p[1] == rest[0]);
            }
        }
        assert forall|i: int| 0 <= i < p.len() implies #[trigger] p[i].1 > 0 && p[i].0 + p[i].1 <= total by {
            if i > 0 {
                assert(p[i] == rest[i - 1]);
            }
        }
        if j > 0 {
            assert(plan_end(p, o, j) == plan_end(rest, o + n, jr)) by {
                if jr > 0 {
                    assert(p[j - 1] == rest[jr - 1]);
                }
            }
            assert(p.subrange(0, j) =~= seq![(o, n)] + rest.subrange(0, jr));
            assert(p.subrange(0, j) + transfer_plan(plan_end(p, o, j), total, chunk) =~= p);
        } else {
            assert(p.subrange(0, j) + transfer_plan(plan_end(p, o, j), total, chunk) =~= p);
        }
    }
}

/// Resumption: a transfer of a `total`-byte file in chunks of `chunk`
/// bytes, paused after its first `j` chunks and resumed from the offset the
/// server then reports, sends exactly the chunks that an uninterrupted run
/// would have sent. The chunks follow one another without gap or overlap,
/// start at 0, and hold `total` bytes in all: each byte is sent once.
pub proof fn lemma_resume_sends_each_byte_once(total: nat, chunk: nat, j: int)
    requires
        chunk > 0,
        0 <= j <= transfer_plan(0, total, chunk).len(),
    ensures
        ({
            let p = transfer_plan(0, total, chunk);
            &&& p.subrange(0, j) + transfer_plan(plan_end(p, 0, j), total, chunk) == p
            &&& plan_bytes(p) == total
            &&& p.len() > 0 ==> p[0].0 == 0
            &&& forall|i: int| 0 <= i < p.len() - 1 ==> #[trigger] p[i].0 + p[i].1 == p[i + 1].0
            &&& forall|i: int| 0 <= i < p.len() ==> #[trigger] p[i].1 > 0 && p[i].0 + p[i].1 <= total
        }),
{
    lemma_plan_from(0, total, chunk, j);
}

/// The transfer state machine of one upload. The driver performs each
/// action it returns and reports the outcome with `handle`.
#[derive(Debug)]
pub struct UploadWorker {
    /// The record being driven.
    pub upload: Upload,
    /// The settings in force.
    pub config: TusConfig,
    /// Failed attempts since the last successful chunk.
    pub retry_count: u32,
    /// The action awaiting its answer; `None` before `start`.
    pub pending: Option<WorkerAction>,
}

impl UploadWorker {
    /// The worker's invariant: a well-formed record and settings; while
    /// transferring, the record is `Active`, its location is known, the
    /// retry count is within the budget, and the chunk asked for lies
    /// within the file.
    pub open spec fn wf(&self) -> bool {
        &&& self.upload.wf()
        &&& first_issue(self.config) is None
        &&& keys_unique(self.config.headers@)
        &&& match self.pending {
            None => true,
            Some(WorkerAction::Finish) => true,
            Some(WorkerAction::Create) => self.upload.state == UploadState::Active
                && self.upload.location is None && self.retry_count == 0,
            Some(p) => {
                &&& self.upload.state == UploadState::Active
                &&& self.upload.location is Some
                &&& self.retry_count <= self.config.max_retries
                &&& p matches WorkerAction::ReadChunk(o, n) ==> (o < self.upload.progress.total_bytes
                    && 0 < n <= self.config.chunk_size && o + n <= self.upload.progress.total_bytes)
                &&& p matches WorkerAction::SendChunk(o, n) ==> (0 < n && o + n
                    <= self.upload.progress.total_bytes)
            },
        }
    }

    /// A worker over `upload` with the settings `config`; `start` sets it
    /// going.
    pub fn new(config: TusConfig, upload: Upload) -> (r: Self)
        ensures
            r.upload == upload,
            r.config == config,
            r.retry_count == 0,
            r.pending is None,
    {
        UploadWorker { upload, config, retry_count: 0, pending: None }
    }

    /// Moves the record to `Active` and returns the first action: the
    /// creation request where the location is unknown, else the offset
    /// request. Fails with `InvalidState`, changing nothing, where the
    /// record cannot start or the worker has started already.
    pub fn start(&mut self) -> (r: Result<WorkerAction, TusError>)
        requires
            old(self).wf(),
        ensures
            final(self).wf(),
            r is Ok <==> old(self).pending is None && (old(self).upload.state == UploadState::Pending
                || old(self).upload.state == UploadState::Paused),
            r matches Err(e) ==> e is InvalidState && *final(self) == *old(self),
            r matches Ok(a) ==> {
                &&& final(self).pending == Some(a)
                &&& final(self).upload.state == UploadState::Active
                &&& final(self).upload.location == old(self).upload.location
                &&& final(self).upload.progress == old(self).upload.progress
                &&& final(self).upload.same_job(old(self).upload)
                &&& final(self).retry_count == 0
                &&& a == if old(self).upload.location is None {
                    WorkerAction::Create
                } else {
                    WorkerAction::QueryOffset
                }
            },
    {
        if self.pending.is_some() || !self.upload.can_start() {
            return Err(
                TusError::InvalidState(String::from_str("Upload cannot be started in current state")),
            );
        }
        let res = self.upload.transition_to(UploadState::Active);
        assert(res is Ok);
        self.retry_count = 0;
        let a = if self.upload.location.is_none() {
            WorkerAction::Create
        } else {
            WorkerAction::QueryOffset
        };
        self.pending = Some(a);
        Ok(a)
    }

    /// Takes the answer to the pending action and returns the next action.
    ///
    /// - A finished run stays finished; an event that does not answer the
    ///   pending action changes nothing and repeats it.
    /// - A cancellation ends the run: `Paused` for a pause, `Cancelled`
    ///   for a cancel, the location kept.
    /// - A 2xx creation answer with a `Location` stores it and asks for the
    ///   offset; any other creation answer ends the run with `Failed`.
    /// - A server offset at or past the end completes the upload; below the
    ///   end, the next chunk is read from exactly that offset.
    /// - A read of no bytes completes the upload; otherwise exactly the
    ///   bytes read are sent at the offset they were read from. A read
    ///   failure ends the run with `Failed`.
    /// - A 2xx chunk answer counts the bytes and the chunk, resets the retry
    ///   count and asks for the offset again.
    /// - Transport failures, non-2xx answers and a malformed offset count
    ///   against the retry budget: a wait of `backoff`, then the offset is
    ///   asked for again; past the budget the run ends with `Failed`.
    pub fn handle(&mut self, event: WorkerEvent) -> (r: WorkerAction)
        requires
            old(self).wf(),
            old(self).pending is Some,
        ensures
            final(self).wf(),
            final(self).pending == Some(r),
            final(self).config == old(self).config,
            final(self).upload.same_job(old(self).upload),
            final(self).upload.metadata == old(self).upload.metadata,
            !stores_location(old(self).pending.unwrap(), event) ==> final(self).upload.location
                == old(self).upload.location,
            ({
                let p = old(self).pending.unwrap();
                let total = old(self).upload.progress.total_bytes;
                let u0 = old(self).upload;
                let u1 = final(self).upload;
                &&& p == WorkerAction::Finish ==> r == WorkerAction::Finish && *final(self) == *old(self)
                &&& (p != WorkerAction::Finish && !answers(p, event)) ==> r == p && *final(self) == *old(self)
                &&& event matches WorkerEvent::Cancelled(c) ==> p != WorkerAction::Finish ==> {
                    &&& r == WorkerAction::Finish
                    &&& u1.state == if c == CancelReason::Pause {
                        UploadState::Paused
                    } else {
                        UploadState::Cancelled
                    }
                    &&& u1.location == u0.location
                    &&& u1.progress == u0.progress
                }
                &&& event matches WorkerEvent::Created(st, loc) ==> p == WorkerAction::Create ==> {
                    if is_success(st) && loc is Some {
                        &&& r == WorkerAction::QueryOffset
                        &&& u1.location == loc
                        &&& u1.state == UploadState::Active
                        &&& u1.progress == u0.progress
                    } else {
                        &&& r == WorkerAction::Finish
                        &&& u1.state == UploadState::Failed
                        &&& last_error_is(u1, if !is_success(st) {
                            error_text(TusError::Protocol(st))
                        } else {
                            "Configuration error: No location header in response"@
                        })
                    }
                }
                &&& event matches WorkerEvent::CreateFailed(m) ==> p == WorkerAction::Create ==> {
                    &&& r == WorkerAction::Finish
                    &&& u1.state == UploadState::Failed
                    &&& last_error_is(u1, error_text(TusError::NetworkError(m)))
                }
                &&& reported_offset(event) matches Some(o) ==> p == WorkerAction::QueryOffset ==> {
                    &&& o >= total ==> r == WorkerAction::Finish && u1.state == UploadState::Completed
                        && u1.progress.bytes_transferred == total
                    &&& o < total ==> r == WorkerAction::ReadChunk(
                        o,
                        min_len(old(self).config.chunk_size as int, total - o) as usize,
                    ) && u1 == u0 && final(self).retry_count == old(self).retry_count
                    &&& o < total ==> transfer_plan(o as nat, total as nat, old(self).config.chunk_size as nat)[0]
                        == (o as nat, min_len(old(self).config.chunk_size as int, total - o) as nat)
                }
                &&& retryable_error(event) matches Some(t) ==> answers(p, event) ==> {
                    &&& u1.location == u0.location
                    &&& u1.progress.bytes_transferred == u0.progress.bytes_transferred
                    &&& old(self).retry_count + 1 > old(self).config.max_retries ==> {
                        &&& r == WorkerAction::Finish
                        &&& u1.state == UploadState::Failed
                        &&& last_error_is(u1, t)
                    }
                    &&& old(self).retry_count + 1 <= old(self).config.max_retries ==> {
                        &&& r == WorkerAction::Sleep(
                            backoff(old(self).config.retry_delay_ms, (old(self).retry_count + 1) as nat) as u64,
                        )
                        &&& final(self).retry_count == old(self).retry_count + 1
                        &&& u1.state == UploadState::Active
                        &&& u1.progress == u0.progress
                    }
                }
                &&& p matches WorkerAction::ReadChunk(o, n) ==> event matches WorkerEvent::ChunkRead(k) ==> {
                    &&& k == 0 ==> r == WorkerAction::Finish && u1.state == UploadState::Completed
                        && u1.progress.bytes_transferred == total
                    &&& k > 0 ==> r == WorkerAction::SendChunk(o, min_len(k as int, n as int) as usize)
                        && u1.state == UploadState::Active && u1.progress == u0.progress
                        && u1.location == u0.location
                }
                &&& event matches WorkerEvent::ReadFailed(m) ==> p is ReadChunk ==> {
                    &&& r == WorkerAction::Finish
                    &&& u1.state == UploadState::Failed
                    &&& last_error_is(u1, error_text(TusError::IOError(m)))
                }
                &&& p matches WorkerAction::SendChunk(o, n) ==> event matches WorkerEvent::PatchReply(st)
                    ==> is_success(st) ==> {
                    &&& r == WorkerAction::QueryOffset
                    &&& final(self).retry_count == 0
                    &&& u1.state == UploadState::Active
                    &&& u1.location == u0.location
                    &&& u1.progress.bytes_transferred == vstd::math::min(
                        u0.progress.bytes_transferred + n,
                        total as int,
                    )
                    &&& u1.progress.chunks_completed == if u0.progress.chunks_completed < u32::MAX {
                        (u0.progress.chunks_completed + 1) as u32
                    } else {
                        u0.progress.chunks_completed
                    }
                }
                &&& (p is Sleep && event is Slept) ==> {
                    &&& r == WorkerAction::QueryOffset
                    &&& u1.state == UploadState::Active
                    &&& u1.progress == u0.progress
                    &&& u1.location == u0.location
                }
            }),
    {
        let p = match self.pending {
            Some(p) => p,
            None => {
                return WorkerAction::Finish;
            },
        };
        if p == WorkerAction::Finish {
            return WorkerAction::Finish;
        }
        match event {
            WorkerEvent::Cancelled(c) => {
                let target = match c {
                    CancelReason::Pause => UploadState::Paused,
                    CancelReason::Cancel => UploadState::Cancelled,
                };
                let res = self.upload.transition_to(target);
                assert(res is Ok);
                self.pending = Some(WorkerAction::Finish);
                WorkerAction::Finish
            },
            WorkerEvent::Created(st, loc) => {
                if p != WorkerAction::Create {
                    return p;
                }
                if !(200 <= st && st <= 299) {
                    return self.fail(TusError::Protocol(st));
                }
                match loc {
                    Some(l) => {
                        let res = self.upload.set_location(l);
                        assert(res is Ok);
                        self.pending = Some(WorkerAction::QueryOffset);
                        WorkerAction::QueryOffset
                    },
                    None => {
                        let e = TusError::Config(String::from_str("No location header in response"));
                        proof {
                            reveal_strlit("Configuration error: ");
                            reveal_strlit("No location header in response");
                            reveal_strlit("Configuration error: No location header in response");
                        }
                        assert(error_text(e) =~= "Configuration error: No location header in response"@);
                        self.fail(e)
                    },
                }
            },
            WorkerEvent::CreateFailed(m) => {
                if p != WorkerAction::Create {
                    return p;
                }
                self.fail(TusError::NetworkError(m))
            },
            WorkerEvent::OffsetReply(st, text) => {
                if p != WorkerAction::QueryOffset {
                    return p;
                }
                if !(200 <= st && st <= 299) {
                    return self.retry_or_fail(TusError::Protocol(st));
                }
                let parsed = match &text {
                    Some(t) => parse_u64(t.as_str()),
                    None => None,
                };
                match parsed {
                    Some(o) => {
                        let total = self.upload.progress.total_bytes;
                        if o >= total {
                            let res = self.upload.transition_to(UploadState::Completed);
                            assert(res is Ok);
                            self.pending = Some(WorkerAction::Finish);
                            WorkerAction::Finish
                        } else {
                            let rest = total - o;
                            let n: usize = if (self.config.chunk_size as u64) < rest {
                                self.config.chunk_size
                            } else {
                                rest as usize
                            };
                            let a = WorkerAction::ReadChunk(o, n);
                            assert(transfer_plan(o as nat, total as nat, self.config.chunk_size as nat)[0]
                                == (o as nat, n as nat));
                            self.pending = Some(a);
                            a
                        }
                    },
                    None => {
                        let e = TusError::Config(String::from_str("Invalid offset in response"));
                        proof {
                            reveal_strlit("Configuration error: ");
                            reveal_strlit("Invalid offset in response");
                            reveal_strlit("Configuration error: Invalid offset in response");
                        }
                        assert(error_text(e) =~= "Configuration error: Invalid offset in response"@);
                        self.retry_or_fail(e)
                    },
                }
            },
            WorkerEvent::OffsetFailed(m) => {
                if p != WorkerAction::QueryOffset {
                    return p;
                }
                self.retry_or_fail(TusError::NetworkError(m))
            },
            WorkerEvent::ChunkRead(k) => {
                match p {
                    WorkerAction::ReadChunk(o, n) => {
                        if k == 0 {
                            let res = self.upload.transition_to(UploadState::Completed);
                            assert(res is Ok);
                            self.pending = Some(WorkerAction::Finish);
                            WorkerAction::Finish
                        } else {
                            let len = if k < n { k } else { n };
                            let a = WorkerAction::SendChunk(o, len);
                            self.pending = Some(a);
                            a
                        }
                    },
                    _ => p,
                }
            },
            WorkerEvent::ReadFailed(m) => {
                match p {
                    WorkerAction::ReadChunk(_, _) => self.fail(TusError::IOError(m)),
                    _ => p,
                }
            },
            WorkerEvent::PatchReply(st) => {
                match p {
                    WorkerAction::SendChunk(_, n) => {
                        if !(200 <= st && st <= 299) {
                            return self.retry_or_fail(TusError::Protocol(st));
                        }
                        self.upload.update_progress(n as u64, true);
                        self.retry_count = 0;
                        self.pending = Some(WorkerAction::QueryOffset);
                        WorkerAction::QueryOffset
                    },
                    _ => p,
                }
            },
            WorkerEvent::PatchFailed(m) => {
                match p {
                    WorkerAction::SendChunk(_, _) => self.retry_or_fail(TusError::NetworkError(m)),
                    _ => p,
                }
            },
            WorkerEvent::Slept => {
                match p {
                    WorkerAction::Sleep(_) => {
                        self.pending = Some(WorkerAction::QueryOffset);
                        WorkerAction::QueryOffset
                    },
                    _ => p,
                }
            },
        }
    }

    /// Ends the run with `Failed`, recording `err` as the last error.
    fn fail(&mut self, err: TusError) -> (r: WorkerAction)
        requires
            old(self).wf(),
            old(self).upload.state == UploadState::Active,
        ensures
            final(self).wf(),
            r == WorkerAction::Finish,
            final(self).pending == Some(WorkerAction::Finish),
            final(self).upload.state == UploadState::Failed,
            last_error_is(final(self).upload, error_text(err)),
            final(self).upload.progress.bytes_transferred == old(self).upload.progress.bytes_transferred,
            final(self).upload.location == old(self).upload.location,
            final(self).upload.same_job(old(self).upload),
            final(self).config == old(self).config,
            final(self).retry_count == old(self).retry_count,
            final(self).upload.metadata == old(self).upload.metadata,
    {
        let msg = err.message();
        self.upload.progress.last_error = Some(msg);
        let res = self.upload.transition_to(UploadState::Failed);
        assert(res is Ok);
        self.pending = Some(WorkerAction::Finish);
        WorkerAction::Finish
    }

    /// Counts one more failed attempt: waits `backoff` before the next one,
    /// or ends the run with `Failed` once the budget is spent.
    fn retry_or_fail(&mut self, err: TusError) -> (r: WorkerAction)
        requires
            old(self).wf(),
            old(self).upload.state == UploadState::Active,
            old(self).upload.location is Some,
            old(self).retry_count <= old(self).config.max_retries,
        ensures
            final(self).wf(),
            final(self).pending == Some(r),
            final(self).upload.location == old(self).upload.location,
            final(self).upload.same_job(old(self).upload),
            final(self).config == old(self).config,
            final(self).upload.progress.bytes_transferred == old(self).upload.progress.bytes_transferred,
            final(self).upload.metadata == old(self).upload.metadata,
            old(self).retry_count + 1 > old(self).config.max_retries ==> {
                &&& r == WorkerAction::Finish
                &&& final(self).upload.state == UploadState::Failed
                &&& last_error_is(final(self).upload, error_text(err))
            },
            old(self).retry_count + 1 <= old(self).config.max_retries ==> {
                &&& r == WorkerAction::Sleep(
                    backoff(old(self).config.retry_delay_ms, (old(self).retry_count + 1) as nat) as u64,
                )
                &&& final(self).retry_count == old(self).retry_count + 1
                &&& final(self).upload.state == UploadState::Active
                &&& final(self).upload.progress == old(self).upload.progress
            },
    {
        let count = self.retry_count + 1;
        if count > self.config.max_retries as u32 {
            let a = self.fail(err);
            self.retry_count = count;
            return a;
        }
        self.retry_count = count;
        let d = backoff_delay(self.config.retry_delay_ms, count);
        let a = WorkerAction::Sleep(d);
        self.pending = Some(a);
        a
    }
}

} // verus!
