use vstd::prelude::*;

use crate::clock::now_millis;
use crate::encoding::{metadata_header, metadata_text};
use crate::error::TusError;
use crate::entries::{entries_insert, entries_lookup, entries_view, insert_entry, keys_unique, lookup_entry};

verus! {

/// The lifecycle state of one upload.
#[derive(Clone, Copy, Debug, PartialEq, Eq, Structural)]
pub enum UploadState {
    /// Created, not started yet.
    Pending,
    /// A worker is transferring data.
    Active,
    /// Stopped; can be resumed.
    Paused,
    /// Stopped for good by the caller.
    Cancelled,
    /// Every byte reached the server.
    Completed,
    /// Stopped for good by an error.
    Failed,
}

/// The transition table: which state may follow which.
pub open spec fn transition_allowed(from: UploadState, to: UploadState) -> bool {
    match (from, to) {
        (UploadState::Pending, UploadState::Active) => true,
        (UploadState::Pending, UploadState::Cancelled) => true,
        (UploadState::Active, UploadState::Paused) => true,
        (UploadState::Active, UploadState::Cancelled) => true,
        (UploadState::Active, UploadState::Completed) => true,
        (UploadState::Active, UploadState::Failed) => true,
        (UploadState::Paused, UploadState::Active) => true,
        (UploadState::Paused, UploadState::Cancelled) => true,
        _ => false,
    }
}

/// The states that have no outgoing transition.
pub open spec fn is_terminal(s: UploadState) -> bool {
    s == UploadState::Completed || s == UploadState::Cancelled || s == UploadState::Failed
}

/// The states from which a worker may start.
pub open spec fn is_startable(s: UploadState) -> bool {
    s == UploadState::Pending || s == UploadState::Paused
}

/// A terminal state admits no transition at all, to any state.
pub proof fn lemma_terminal_states_are_final(from: UploadState, to: UploadState)
    requires
        is_terminal(from),
    ensures
        !transition_allowed(from, to),
{
}

impl UploadState {
    /// Whether the table allows a move from `self` to `target`.
    pub fn can_transition_to(&self, target: UploadState) -> (r: bool)
        ensures
            r == transition_allowed(*self, target),
    {
        match (*self, target) {
            (UploadState::Pending, UploadState::Active) => true,
            (UploadState::Pending, UploadState::Cancelled) => true,
            (UploadState::Active, UploadState::Paused) => true,
            (UploadState::Active, UploadState::Cancelled) => true,
            (UploadState::Active, UploadState::Completed) => true,
            (UploadState::Active, UploadState::Failed) => true,
            (UploadState::Paused, UploadState::Active) => true,
            (UploadState::Paused, UploadState::Cancelled) => true,
            _ => false,
        }
    }

    /// The state's name, as shown to callers.
    pub fn name(&self) -> (r: String)
        ensures
            r@ == state_name(*self),
    {
        match self {
            UploadState::Pending => String::from_str("Pending"),
            UploadState::Active => String::from_str("Active"),
            UploadState::Paused => String::from_str("Paused"),
            UploadState::Cancelled => String::from_str("Cancelled"),
            UploadState::Completed => String::from_str("Completed"),
            UploadState::Failed => String::from_str("Failed"),
        }
    }
}

/// The name of a state, as shown to callers.
pub open spec fn state_name(s: UploadState) -> Seq<char> {
    match s {
        UploadState::Pending => "Pending"@,
        UploadState::Active => "Active"@,
        UploadState::Paused => "Paused"@,
        UploadState::Cancelled => "Cancelled"@,
        UploadState::Completed => "Completed"@,
        UploadState::Failed => "Failed"@,
    }
}

/// `ceil(total / chunk)`, saturated at `u32::MAX`.
pub open spec fn chunk_count(total: u64, chunk: usize) -> u32
    recommends
        chunk > 0,
{
    let n = (total as int + chunk as int - 1) / (chunk as int);
    if n > u32::MAX { u32::MAX } else { n as u32 }
}

/// Bytes per second of `bytes` moved in `elapsed_ms` milliseconds,
/// saturated at `u64::MAX`.
pub open spec fn instant_speed(bytes: u64, elapsed_ms: int) -> u64
    recommends
        elapsed_ms > 0,
{
    let v = bytes as int * 1000 / elapsed_ms;
    if v > u64::MAX { u64::MAX } else { v as u64 }
}

/// The speed after moving `bytes` in `elapsed_ms` milliseconds: a moving
/// average that weighs the previous speed 7/10 and the new one 3/10, or the
/// new one alone where no speed was known. Unchanged where no time passed.
pub open spec fn next_speed(speed: u64, bytes: u64, elapsed_ms: int) -> u64 {
    if elapsed_ms <= 0 {
        speed
    } else if speed == 0 {
        instant_speed(bytes, elapsed_ms)
    } else {
        ((7 * speed as int + 3 * instant_speed(bytes, elapsed_ms) as int) / 10) as u64
    }
}

/// Progress counters of one upload.
#[derive(Debug)]
pub struct UploadProgress {
    /// Bytes the server has acknowledged.
    pub bytes_transferred: u64,
    /// Size of the file.
    pub total_bytes: u64,
    /// Transfer speed in bytes per second.
    pub speed: u64,
    /// Chunks sent successfully.
    pub chunks_completed: u32,
    /// Number of chunks the file splits into.
    pub total_chunks: u32,
    /// The last error that stopped the upload, if any.
    pub last_error: Option<String>,
    /// Time of the last update, in milliseconds since the Unix epoch.
    pub last_updated: i64,
}

impl Clone for UploadProgress {
    fn clone(&self) -> (r: Self)
        ensures
            r == *self,
    {
        UploadProgress {
            bytes_transferred: self.bytes_transferred,
            total_bytes: self.total_bytes,
            speed: self.speed,
            chunks_completed: self.chunks_completed,
            total_chunks: self.total_chunks,
            last_error: match &self.last_error {
                Some(e) => Some(e.clone()),
                None => None,
            },
            last_updated: self.last_updated,
        }
    }
}

impl UploadProgress {
    /// Never more bytes acknowledged than the file holds.
    pub open spec fn wf(&self) -> bool {
        self.bytes_transferred <= self.total_bytes
    }

    /// Fresh counters for a file of `total_bytes` sent in chunks of
    /// `chunk_size`.
    pub fn new(total_bytes: u64, chunk_size: usize) -> (r: Self)
        requires
            chunk_size > 0,
        ensures
            r.wf(),
            r.bytes_transferred == 0,
            r.total_bytes == total_bytes,
            r.speed == 0,
            r.chunks_completed == 0,
            r.total_chunks == chunk_count(total_bytes, chunk_size),
            r.last_error is None,
    {
        let now = now_millis();
        Self::new_at(total_bytes, chunk_size, now)
    }

    /// Fresh counters, stamped with the time `now`.
    pub fn new_at(total_bytes: u64, chunk_size: usize, now: i64) -> (r: Self)
        requires
            chunk_size > 0,
        ensures
            r.wf(),
            r.bytes_transferred == 0,
            r.total_bytes == total_bytes,
            r.speed == 0,
            r.chunks_completed == 0,
            r.total_chunks == chunk_count(total_bytes, chunk_size),
            r.last_error is None,
            r.last_updated == now,
    {
        let c = chunk_size as u128;
        let t = total_bytes as u128;
        let q = t / c;
        let n: u128 = if t % c != 0 { q + 1 } else { q };
        assert(n as int == (total_bytes as int + c as int - 1) / (c as int)) by (nonlinear_arith)
            requires
                c > 0,
                t == total_bytes,
                q == t / c,
                n == if t % c != 0 { q + 1 } else { q as int },
        {
        }
        let total_chunks: u32 = if n > u32::MAX as u128 { u32::MAX } else { n as u32 };
        UploadProgress {
            bytes_transferred: 0,
            total_bytes,
            speed: 0,
            chunks_completed: 0,
            total_chunks,
            last_error: None,
            last_updated: now,
        }
    }

    /// Records that `new_bytes` more bytes reached the server, and one more
    /// chunk where `chunk_completed`.
    pub fn update(&mut self, new_bytes: u64, chunk_completed: bool)
        requires
            old(self).wf(),
        ensures
            final(self).wf(),
            final(self).bytes_transferred == vstd::math::min(
                old(self).bytes_transferred + new_bytes,
                old(self).total_bytes as int,
            ),
            final(self).total_bytes == old(self).total_bytes,
            final(self).chunks_completed == if chunk_completed && old(self).chunks_completed
                < u32::MAX {
                (old(self).chunks_completed + 1) as u32
            } else {
                old(self).chunks_completed
            },
            final(self).total_chunks == old(self).total_chunks,
            final(self).last_error == old(self).last_error,
    {
        let now = now_millis();
        self.update_at(new_bytes, chunk_completed, now);
    }

    /// Records that `new_bytes` more bytes reached the server at time `now`:
    /// the byte count grows by `new_bytes`, never past `total_bytes`; the
    /// chunk count grows by one where `chunk_completed`; the speed follows
    /// `next_speed` over the time since the last update.
    pub fn update_at(&mut self, new_bytes: u64, chunk_completed: bool, now: i64)
        requires
            old(self).wf(),
        ensures
            final(self).wf(),
            final(self).bytes_transferred == vstd::math::min(
                old(self).bytes_transferred + new_bytes,
                old(self).total_bytes as int,
            ),
            final(self).total_bytes == old(self).total_bytes,
            final(self).chunks_completed == if chunk_completed && old(self).chunks_completed
                < u32::MAX {
                (old(self).chunks_completed + 1) as u32
            } else {
                old(self).chunks_completed
            },
            final(self).total_chunks == old(self).total_chunks,
            final(self).last_error == old(self).last_error,
            final(self).speed == next_speed(
                old(self).speed,
                new_bytes,
                now - old(self).last_updated,
            ),
            final(self).last_updated == now,
    {
        let elapsed: i128 = now as i128 - self.last_updated as i128;
        if elapsed > 0 {
            let e = elapsed as u128;
            let v: u128 = new_bytes as u128 * 1000 / e;
            assert(v <= new_bytes as int * 1000) by (nonlinear_arith)
                requires
                    e > 0,
                    v == new_bytes as int * 1000 / e as int,
            {
            }
            let inst: u64 = if v > u64::MAX as u128 { u64::MAX } else { v as u64 };
            if self.speed == 0 {
                self.speed = inst;
            } else {
                let s = self.speed as u128;
                let avg: u128 = (7 * s + 3 * inst as u128) / 10;
                assert(avg <= u64::MAX) by (nonlinear_arith)
                    requires
                        s <= u64::MAX,
                        inst <= u64::MAX,
                        avg == (7 * s + 3 * inst) / 10,
                {
                }
                self.speed = avg as u64;
            }
        }
        let room = self.total_bytes - self.bytes_transferred;
        if new_bytes >= room {
            self.bytes_transferred = self.total_bytes;
        } else {
            self.bytes_transferred = self.bytes_transferred + new_bytes;
        }
        if chunk_completed && self.chunks_completed < u32::MAX {
            self.chunks_completed = self.chunks_completed + 1;
        }
        self.last_updated = now;
    }
}

/// Relies on `uuid::Uuid::new_v4` and its `Display`: a random identifier,
/// written in the hyphenated form of 36 characters.
#[verifier::external_body]
pub(crate) fn new_upload_id() -> (r: String)
    ensures
        r@.len() == 36,
{
    uuid::Uuid::new_v4().to_string()
}

/// `end` moved left past the path separators and the `.` components
/// that end `p[..end]`.
pub open spec fn trimmed_end(p: Seq<char>, end: int) -> int
    decreases end,
{
    if 0 < end <= p.len() && p[end - 1] == '/' {
        trimmed_end(p, end - 1)
    } else if 2 <= end <= p.len() && p[end - 1] == '.' && p[end - 2] == '/' {
        trimmed_end(p, end - 1)
    } else {
        end
    }
}

/// `start` moved left to the first character after the last separator
/// in `p[..start]`.
pub open spec fn component_start(p: Seq<char>, start: int) -> int
    decreases start,
{
    if 0 < start <= p.len() && p[start - 1] != '/' {
        component_start(p, start - 1)
    } else {
        start
    }
}

/// The last component of `p` (separators and `.` components at its end
/// ignored).
pub open spec fn last_component(p: Seq<char>) -> Seq<char> {
    let e = trimmed_end(p, p.len() as int);
    p.subrange(component_start(p, e), e)
}

/// The file name of a path: its last component, where that names a file
/// (neither empty, nor `.` or `..`).
pub open spec fn file_name_of(p: Seq<char>) -> Option<Seq<char>> {
    let c = last_component(p);
    if c.len() == 0 || c == seq!['.'] || c == seq!['.', '.'] {
        None
    } else {
        Some(c)
    }
}

/// Computes `file_name_of(p@)`.
pub fn file_name(p: &str) -> (r: Option<String>)
    ensures
        r matches Some(n) ==> file_name_of(p@) == Some(n@),
        r is None ==> file_name_of(p@) is None,
{
    let len = p.unicode_len();
    let mut e = len;
    while e > 0 && (p.get_char(e - 1) == '/' || (e >= 2 && p.get_char(e - 1) == '.' && p.get_char(
        e - 2,
    ) == '/'))
        invariant
            len == p@.len(),
            e <= len,
            trimmed_end(p@, e as int) == trimmed_end(p@, len as int),
        decreases e,
    {
        e = e - 1;
    }
    let mut st = e;
    while st > 0 && p.get_char(st - 1) != '/'
        invariant
            len == p@.len(),
            e == trimmed_end(p@, len as int),
            st <= e <= len,
            component_start(p@, st as int) == component_start(p@, e as int),
        decreases st,
    {
        st = st - 1;
    }
    let c = p.substring_char(st, e);
    assert(c@ == last_component(p@));
    let n = e - st;
    if n == 0 {
        return None;
    }
    if n == 1 && c.get_char(0) == '.' {
        assert(c@ =~= seq!['.']);
        return None;
    }
    if n == 2 && c.get_char(0) == '.' && c.get_char(1) == '.' {
        assert(c@ =~= seq!['.', '.']);
        return None;
    }
    assert(c@.len() != 0);
    assert(c@ != seq!['.']) by {
        if n == 1 {
            assert(c@[0] != seq!['.'][0]);
        }
    }
    assert(c@ != seq!['.', '.']) by {
        if n == 2 {
            assert(c@[0] != '.' || c@[1] != '.');
            if c@[0] != '.' {
                assert(c@[0] != seq!['.', '.'][0]);
            } else {
                assert(c@[1] != seq!['.', '.'][1]);
            }
        }
    }
    Some(String::from_str(c))
}

/// One file job.
#[derive(Debug)]
pub struct Upload {
    /// Unique identifier of the job.
    pub id: String,
    /// Path of the local file.
    pub file_path: String,
    /// The final component of `file_path`.
    pub filename: String,
    /// Lifecycle state; changed by `transition_to` alone.
    pub state: UploadState,
    /// Transfer granularity in bytes.
    pub chunk_size: usize,
    /// The resource URL that the server assigned, once known.
    pub location: Option<String>,
    /// Progress counters.
    pub progress: UploadProgress,
    /// Metadata sent on creation, in order of insertion, keys unique.
    pub metadata: Vec<(String, String)>,
    /// Creation time, in milliseconds since the Unix epoch.
    pub created_at: i64,
    /// Time of the last change, in milliseconds since the Unix epoch.
    pub updated_at: i64,
}

impl Clone for Upload {
    fn clone(&self) -> (r: Self)
        ensures
            r.eqv(*self),
    {
        let mut metadata: Vec<(String, String)> = Vec::new();
        let mut i: usize = 0;
        while i < self.metadata.len()
            invariant
                i <= self.metadata@.len(),
                metadata@ == self.metadata@.subrange(0, i as int),
            decreases self.metadata@.len() - i,
        {
            let k = self.metadata[i].0.clone();
            let v = self.metadata[i].1.clone();
            metadata.push((k, v));
            i = i + 1;
            assert(metadata@ =~= self.metadata@.subrange(0, i as int));
        }
        assert(metadata@ =~= self.metadata@);
        Upload {
            id: self.id.clone(),
            file_path: self.file_path.clone(),
            filename: self.filename.clone(),
            state: self.state,
            chunk_size: self.chunk_size,
            location: match &self.location {
                Some(l) => Some(l.clone()),
                None => None,
            },
            progress: self.progress.clone(),
            metadata,
            created_at: self.created_at,
            updated_at: self.updated_at,
        }
    }
}

impl Upload {
    /// Equal in every field, the metadata compared by its entries.
    pub open spec fn eqv(&self, o: Upload) -> bool {
        &&& self.id == o.id
        &&& self.file_path == o.file_path
        &&& self.filename == o.filename
        &&& self.state == o.state
        &&& self.chunk_size == o.chunk_size
        &&& self.location == o.location
        &&& self.progress == o.progress
        &&& self.metadata@ == o.metadata@
        &&& self.created_at == o.created_at
        &&& self.updated_at == o.updated_at
    }

    /// The record's invariant: progress within bounds, a completed upload
    /// has every byte acknowledged, chunks are non-empty, metadata keys
    /// are unique.
    pub open spec fn wf(&self) -> bool {
        &&& self.progress.wf()
        &&& self.state == UploadState::Completed ==> self.progress.bytes_transferred
            == self.progress.total_bytes
        &&& self.chunk_size > 0
        &&& keys_unique(self.metadata@)
    }

    /// A new `Pending` job for the file at `file_path`, `total_bytes` long,
    /// under a fresh random id. Fails with `Config` where the path names no
    /// file.
    pub fn new(file_path: String, total_bytes: u64, chunk_size: usize) -> (r: Result<Upload, TusError>)
        requires
            chunk_size > 0,
        ensures
            file_name_of(file_path@) is None <==> r is Err,
            r matches Err(e) ==> (e matches TusError::Config(m) && m@ == "Invalid filename"@),
            r matches Ok(u) ==> {
                &&& u.wf()
                &&& u.id@.len() == 36
                &&& u.file_path@ == file_path@
                &&& file_name_of(file_path@) == Some(u.filename@)
                &&& u.state == UploadState::Pending
                &&& u.chunk_size == chunk_size
                &&& u.location is None
                &&& u.progress.bytes_transferred == 0
                &&& u.progress.total_bytes == total_bytes
                &&& u.progress.chunks_completed == 0
                &&& u.progress.total_chunks == chunk_count(total_bytes, chunk_size)
                &&& u.metadata@.len() == 0
            },
    {
        let id = new_upload_id();
        let now = now_millis();
        Self::from_parts(id, file_path, total_bytes, chunk_size, now)
    }

    /// A new `Pending` job with the given id, created at time `now`. Fails
    /// with `Config` where the path names no file.
    pub fn from_parts(id: String, file_path: String, total_bytes: u64, chunk_size: usize, now: i64) -> (r: Result<Upload, TusError>)
        requires
            chunk_size > 0,
        ensures
            file_name_of(file_path@) is None <==> r is Err,
            r matches Err(e) ==> (e matches TusError::Config(m) && m@ == "Invalid filename"@),
            r matches Ok(u) ==> {
                &&& u.wf()
                &&& u.id == id
                &&& u.file_path@ == file_path@
                &&& file_name_of(file_path@) == Some(u.filename@)
                &&& u.state == UploadState::Pending
                &&& u.chunk_size == chunk_size
                &&& u.location is None
                &&& u.progress.bytes_transferred == 0
                &&& u.progress.total_bytes == total_bytes
                &&& u.progress.speed == 0
                &&& u.progress.chunks_completed == 0
                &&& u.progress.total_chunks == chunk_count(total_bytes, chunk_size)
                &&& u.progress.last_error is None
                &&& u.progress.last_updated == now
                &&& u.metadata@.len() == 0
                &&& u.created_at == now
                &&& u.updated_at == now
            },
    {
        let filename = match file_name(file_path.as_str()) {
            Some(n) => n,
            None => {
                return Err(TusError::Config(String::from_str("Invalid filename")));
            },
        };
        Ok(Upload {
            id,
            file_path,
            filename,
            state: UploadState::Pending,
            chunk_size,
            location: None,
            progress: UploadProgress::new_at(total_bytes, chunk_size, now),
            metadata: Vec::new(),
            created_at: now,
            updated_at: now,
        })
    }

    /// Moves the record to `new_state` where the table allows it, and
    /// fails with `InvalidState`, changing nothing, where it does not.
    /// Reaching `Completed` records every byte as acknowledged.
    pub fn transition_to(&mut self, new_state: UploadState) -> (r: Result<(), TusError>)
        requires
            old(self).wf(),
        ensures
            final(self).wf(),
            r is Ok <==> transition_allowed(old(self).state, new_state),
            r matches Err(e) ==> e is InvalidState && *final(self) == *old(self),
            r is Ok ==> {
                &&& final(self).state == new_state
                &&& final(self).progress.bytes_transferred == if new_state
                    == UploadState::Completed {
                    old(self).progress.total_bytes
                } else {
                    old(self).progress.bytes_transferred
                }
                &&& new_state != UploadState::Completed ==> final(self).progress == old(self).progress
                &&& final(self).progress.chunks_completed == old(self).progress.chunks_completed
                &&& final(self).progress.last_error == old(self).progress.last_error
                &&& final(self).same_job(*old(self))
                &&& final(self).location == old(self).location
                &&& final(self).progress.speed == old(self).progress.speed
                &&& final(self).progress.last_updated == old(self).progress.last_updated
                &&& final(self).metadata == old(self).metadata
            },
    {
        let now = now_millis();
        self.transition_to_at(new_state, now)
    }

    /// As `transition_to`, with `now` as the time of the change.
    pub fn transition_to_at(&mut self, new_state: UploadState, now: i64) -> (r: Result<(), TusError>)
        requires
            old(self).wf(),
        ensures
            final(self).wf(),
            r is Ok <==> transition_allowed(old(self).state, new_state),
            r matches Err(e) ==> e is InvalidState && *final(self) == *old(self),
            r is Ok ==> {
                &&& final(self).state == new_state
                &&& final(self).progress.bytes_transferred == if new_state
                    == UploadState::Completed {
                    old(self).progress.total_bytes
                } else {
                    old(self).progress.bytes_transferred
                }
                &&& new_state != UploadState::Completed ==> final(self).progress == old(self).progress
                &&& final(self).progress.chunks_completed == old(self).progress.chunks_completed
                &&& final(self).progress.last_error == old(self).progress.last_error
                &&& final(self).same_job(*old(self))
                &&& final(self).location == old(self).location
                &&& final(self).progress.speed == old(self).progress.speed
                &&& final(self).progress.last_updated == old(self).progress.last_updated
                &&& final(self).metadata == old(self).metadata
                &&& final(self).updated_at == now
            },
    {
        if !self.state.can_transition_to(new_state) {
            let mut msg = String::from_str("Cannot transition from ");
            msg.append(self.state.name().as_str());
            msg.append(" to ");
            msg.append(new_state.name().as_str());
            return Err(TusError::InvalidState(msg));
        }
        self.state = new_state;
        if new_state == UploadState::Completed {
            self.progress.bytes_transferred = self.progress.total_bytes;
        }
        self.updated_at = now;
        Ok(())
    }

    /// The fields that no change of state, progress or location touches.
    pub open spec fn same_job(&self, other: Upload) -> bool {
        &&& self.id == other.id
        &&& self.file_path == other.file_path
        &&& self.filename == other.filename
        &&& self.chunk_size == other.chunk_size
        &&& self.created_at == other.created_at
        &&& self.progress.total_bytes == other.progress.total_bytes
        &&& self.progress.total_chunks == other.progress.total_chunks
    }

    /// Sets the resource URL that the server assigned. The location is set
    /// once: where it is known already, fails with `InvalidState` and
    /// changes nothing.
    pub fn set_location(&mut self, location: String) -> (r: Result<(), TusError>)
        requires
            old(self).wf(),
        ensures
            final(self).wf(),
            r is Ok <==> old(self).location is None,
            r is Err ==> *final(self) == *old(self),
            r matches Err(e) ==> e is InvalidState,
            r is Ok ==> {
                &&& final(self).location == Some(location)
                &&& final(self).state == old(self).state
                &&& final(self).progress == old(self).progress
                &&& final(self).metadata == old(self).metadata
                &&& final(self).same_job(*old(self))
            },
    {
        if self.location.is_some() {
            return Err(TusError::InvalidState(String::from_str("Location is already set")));
        }
        self.location = Some(location);
        self.updated_at = now_millis();
        Ok(())
    }

    /// Maps `key` to `value` in the metadata: an entry of that key is
    /// replaced where it stands, else a new one is appended.
    pub fn add_metadata(&mut self, key: String, value: String)
        requires
            old(self).wf(),
        ensures
            final(self).wf(),
            entries_view(final(self).metadata@) == entries_insert(old(self).metadata@, key@, value@),
            final(self).state == old(self).state,
            final(self).progress == old(self).progress,
            final(self).location == old(self).location,
            final(self).same_job(*old(self)),
    {
        insert_entry(&mut self.metadata, key, value);
        self.updated_at = now_millis();
    }

    /// The value that the metadata maps `key` to, if any.
    pub fn metadata_value(&self, key: &str) -> (r: Option<String>)
        requires
            self.wf(),
        ensures
            r matches Some(v) ==> entries_lookup(self.metadata@, key@) == Some(v@),
            r is None ==> entries_lookup(self.metadata@, key@) is None,
    {
        lookup_entry(&self.metadata, key)
    }

    /// The value of the `Upload-Metadata` creation header, or `None` where
    /// the metadata is empty and the header is left out.
    pub fn upload_metadata(&self) -> (r: Option<Vec<u8>>)
        ensures
            r is None <==> self.metadata@.len() == 0,
            r matches Some(v) ==> v@ == metadata_text(entries_view(self.metadata@)),
    {
        if self.metadata.len() == 0 {
            None
        } else {
            Some(metadata_header(&self.metadata))
        }
    }

    /// Records that `bytes` more bytes reached the server, and one more
    /// chunk where `chunk_completed` (see `UploadProgress::update`).
    pub fn update_progress(&mut self, bytes: u64, chunk_completed: bool)
        requires
            old(self).wf(),
        ensures
            final(self).wf(),
            final(self).progress.bytes_transferred == vstd::math::min(
                old(self).progress.bytes_transferred + bytes,
                old(self).progress.total_bytes as int,
            ),
            final(self).progress.chunks_completed == if chunk_completed
                && old(self).progress.chunks_completed < u32::MAX {
                (old(self).progress.chunks_completed + 1) as u32
            } else {
                old(self).progress.chunks_completed
            },
            final(self).progress.last_error == old(self).progress.last_error,
            final(self).state == old(self).state,
            final(self).location == old(self).location,
            final(self).metadata == old(self).metadata,
            final(self).same_job(*old(self)),
    {
        self.progress.update(bytes, chunk_completed);
        self.updated_at = now_millis();
    }

    /// Whether the record keeps its invariant.
    pub fn check_wf(&self) -> (r: bool)
        ensures
            r == self.wf(),
    {
        if self.progress.bytes_transferred > self.progress.total_bytes {
            return false;
        }
        if self.state == UploadState::Completed && self.progress.bytes_transferred
            != self.progress.total_bytes {
            return false;
        }
        if self.chunk_size == 0 {
            return false;
        }
        let n = self.metadata.len();
        let mut i: usize = 0;
        while i < n
            invariant
                n == self.metadata@.len(),
                i <= n,
                forall|a: int, b: int| 0 <= a < b < i ==> self.metadata@[a].0@ != self.metadata@[b].0@,
            decreases n - i,
        {
            let mut j: usize = 0;
            while j < i
                invariant
                    n == self.metadata@.len(),
                    j <= i < n,
                    forall|a: int| 0 <= a < j ==> self.metadata@[a].0@ != self.metadata@[i as int].0@,
                decreases i - j,
            {
                if self.metadata[j].0 == self.metadata[i].0 {
                    return false;
                }
                j = j + 1;
            }
            i = i + 1;
        }
        true
    }

    /// Whether a worker may start on this record.
    pub fn can_start(&self) -> (r: bool)
        ensures
            r == is_startable(self.state),
    {
        matches!(self.state, UploadState::Pending | UploadState::Paused)
    }

    /// Whether the record has reached a terminal state.
    pub fn is_finished(&self) -> (r: bool)
        ensures
            r == is_terminal(self.state),
    {
        matches!(self.state, UploadState::Completed | UploadState::Cancelled | UploadState::Failed)
    }

    /// Whether a worker is transferring this record.
    pub fn is_active(&self) -> (r: bool)
        ensures
            r == (self.state == UploadState::Active),
    {
        matches!(self.state, UploadState::Active)
    }
}

} // verus!
