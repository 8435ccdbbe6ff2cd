use vstd::prelude::*;

use crate::config::{first_issue, TusConfig};
use crate::entries::keys_unique;
use crate::error::TusError;
use crate::state::{has_id, index_of, interrupted_state, UploadManager as UploadStore};
use crate::text::text_eq;
use crate::clock::now_millis;
use crate::upload::{file_name_of, is_startable, new_upload_id, transition_allowed, Upload, UploadState};
use crate::worker::CancelReason;

verus! {

/// The bookkeeping of one running worker.
#[derive(Debug)]
pub struct ActiveUpload {
    /// Id of the record the worker drives.
    pub id: String,
    /// Why the worker was asked to stop, once it was.
    pub cancel_reason: Option<CancelReason>,
}

/// What `start_upload` did.
#[derive(Debug)]
pub enum StartOutcome {
    /// A permit was free: run a worker on this record.
    Spawn(Upload),
    /// Every permit is taken: the upload waits for one.
    Queued,
}

/// What `cancel_upload` did.
#[derive(Clone, Copy, Debug, PartialEq, Eq, Structural)]
pub enum CancelOutcome {
    /// A worker runs: it was asked to stop, and its record becomes
    /// `Cancelled` when it reports back.
    Signalled,
    /// No worker ran: the record is `Cancelled` now.
    Cancelled,
}

/// The state a finished worker's record is written with: `Cancelled`
/// where a cancel was asked for and the table allows it, else the state
/// the worker reached.
pub open spec fn published_state(s: UploadState, reason: Option<CancelReason>) -> UploadState {
    if reason == Some(CancelReason::Cancel) && transition_allowed(s, UploadState::Cancelled) {
        UploadState::Cancelled
    } else {
        s
    }
}

/// Whether `after` is `before` with one `Pending` record added at the end,
/// with the id `id`, for the file at `path` of `len` bytes.
pub open spec fn added(before: Seq<Upload>, after: Seq<Upload>, id: Seq<char>, path: Seq<char>, len: u64) -> bool {
    &&& after.len() == before.len() + 1
    &&& after.drop_last() == before
    &&& after.last().id@ == id
    &&& after.last().state == UploadState::Pending
    &&& after.last().file_path@ == path
    &&& after.last().progress.total_bytes == len
    &&& after.last().progress.bytes_transferred == 0
}

/// The ids of the running workers, in order of admission.
pub open spec fn ids_of(a: Seq<ActiveUpload>) -> Seq<Seq<char>> {
    a.map_values(|h: ActiveUpload| h.id@)
}

/// The ids of the uploads waiting for a permit, in order of arrival.
pub open spec fn texts_of(w: Seq<String>) -> Seq<Seq<char>> {
    w.map_values(|s: String| s@)
}

/// Admission control over the workers, and the lifecycle operations on
/// uploads. At most `max_concurrent_uploads` workers run at once; an
/// upload started while every permit is taken waits for one.
#[derive(Debug)]
pub struct UploadManager {
    /// The registry of records.
    pub store: UploadStore,
    /// The settings in force.
    pub config: TusConfig,
    /// The running workers.
    pub active: Vec<ActiveUpload>,
    /// Uploads started while every permit was taken, first come first.
    pub waiting: Vec<String>,
}

/// Position of `id` among the running workers.
fn find_active(a: &Vec<ActiveUpload>, id: &str) -> (r: Option<usize>)
    ensures
        r is None <==> !ids_of(a@).contains(id@),
        r matches Some(i) ==> i < a@.len() && a@[i as int].id@ == id@,
{
    let mut i: usize = 0;
    while i < a.len()
        invariant
            i <= a@.len(),
            forall|j: int| 0 <= j < i ==> a@[j].id@ != id@,
        decreases a@.len() - i,
    {
        if text_eq(a[i].id.as_str(), id) {
            assert(ids_of(a@)[i as int] == id@);
            return Some(i);
        }
        i = i + 1;
    }
    assert forall|j: int| 0 <= j < ids_of(a@).len() implies ids_of(a@)[j] != id@ by {
        assert(a@[j].id@ != id@);
    }
    None
}

/// Position of `id` among the waiting uploads.
fn find_waiting(w: &Vec<String>, id: &str) -> (r: Option<usize>)
    ensures
        r is None <==> !texts_of(w@).contains(id@),
        r matches Some(i) ==> i < w@.len() && w@[i as int]@ == id@,
{
    let mut i: usize = 0;
    while i < w.len()
        invariant
            i <= w@.len(),
            forall|j: int| 0 <= j < i ==> w@[j]@ != id@,
        decreases w@.len() - i,
    {
        if text_eq(w[i].as_str(), id) {
            assert(texts_of(w@)[i as int] == id@);
            return Some(i);
        }
        i = i + 1;
    }
    assert forall|j: int| 0 <= j < texts_of(w@).len() implies texts_of(w@)[j] != id@ by {
        assert(w@[j]@ != id@);
    }
    None
}

impl UploadManager {
    /// The manager's invariant: a well-formed registry and valid settings,
    /// no more running workers than permits, and no upload both running
    /// and waiting, or twice in either.
    pub open spec fn wf(&self) -> bool {
        &&& self.store.wf()
        &&& first_issue(self.config) is None
        &&& keys_unique(self.config.headers@)
        &&& self.active@.len() <= self.config.max_concurrent_uploads
        &&& (ids_of(self.active@) + texts_of(self.waiting@)).no_duplicates()
    }

    /// A manager with no running worker, over the registry `store`. As no
    /// worker runs yet, records left `Active` are moved to `Paused`. Fails
    /// with `Config` where the settings break a rule.
    pub fn new(config: TusConfig, store: UploadStore) -> (r: Result<Self, TusError>)
        requires
            store.wf(),
            keys_unique(config.headers@),
        ensures
            r is Ok <==> first_issue(config) is None,
            r matches Err(e) ==> e is Config,
            r matches Ok(m) ==> {
                &&& m.wf()
                &&& m.store.records().len() == store.records().len()
                &&& forall|i: int| 0 <= i < m.store.records().len() ==> {
                    &&& (#[trigger] m.store.records()[i]).state == interrupted_state(store.records()[i].state)
                    &&& m.store.records()[i].same_job(store.records()[i])
                    &&& m.store.records()[i].location == store.records()[i].location
                }
                &&& m.config == config
                &&& m.store.state.config.eqv(config)
                &&& m.store.state.version == store.state.version
                &&& m.active@.len() == 0
                &&& m.waiting@.len() == 0
            },
    {
        match config.validate() {
            Err(e) => Err(e),
            Ok(()) => {
                let mut store = store;
                store.pause_interrupted();
                store.state.config = config.clone();
                let m = UploadManager { store, config, active: Vec::new(), waiting: Vec::new() };
                assert((ids_of(m.active@) + texts_of(m.waiting@)) =~= Seq::<Seq<char>>::empty());
                Ok(m)
            },
        }
    }

    /// How many workers run.
    pub fn get_active_count(&self) -> (r: usize)
        ensures
            r == self.active@.len(),
    {
        self.active.len()
    }

    /// Creates a `Pending` record for the file at `file_path`, `file_len`
    /// bytes long, under a fresh random id, and returns the id. Fails with
    /// `Config` exactly where the path names no file; otherwise it can fail
    /// only where the drawn id is taken, with `InvalidState`.
    pub fn add_upload(&mut self, file_path: String, file_len: u64) -> (r: Result<String, TusError>)
        requires
            old(self).wf(),
        ensures
            final(self).wf(),
            file_name_of(file_path@) is None ==> (r matches Err(e) && (e matches TusError::Config(m)
                && m@ == "Invalid filename"@)),
            r matches Err(e) && e is Config ==> file_name_of(file_path@) is None,
            file_name_of(file_path@) is Some ==> (r is Ok || (r matches Err(e) && e is InvalidState)),
            r is Err ==> final(self).store.records() == old(self).store.records(),
            r matches Ok(id) ==> added(old(self).store.records(), final(self).store.records(), id@, file_path@, file_len),
            final(self).active == old(self).active,
            final(self).waiting == old(self).waiting,
            final(self).config == old(self).config,
    {
        let id = new_upload_id();
        self.add_upload_with_id(id, file_path, file_len)
    }

    /// Creates a `Pending` record with the id `id` for the file at
    /// `file_path`, `file_len` bytes long, and returns the id. Fails with
    /// `Config` where the path names no file, else with `InvalidState`
    /// where the id is taken; a failure changes nothing.
    pub fn add_upload_with_id(&mut self, id: String, file_path: String, file_len: u64) -> (r: Result<String, TusError>)
        requires
            old(self).wf(),
        ensures
            final(self).wf(),
            r is Ok <==> file_name_of(file_path@) is Some && !has_id(old(self).store.records(), id@),
            file_name_of(file_path@) is None ==> (r matches Err(e) && (e matches TusError::Config(m)
                && m@ == "Invalid filename"@)),
            file_name_of(file_path@) is Some && has_id(old(self).store.records(), id@) ==> (r matches Err(e)
                && e is InvalidState),
            r is Err ==> final(self).store.records() == old(self).store.records(),
            r matches Ok(rid) ==> rid@ == id@ && added(old(self).store.records(), final(self).store.records(), id@, file_path@, file_len),
            final(self).active == old(self).active,
            final(self).waiting == old(self).waiting,
            final(self).config == old(self).config,
    {
        let now = now_millis();
        let upload = Upload::from_parts(id, file_path, file_len, self.config.chunk_size, now)?;
        let rid = upload.id.clone();
        let ghost s = self.store.records();
        let ghost u = upload;
        match self.store.add_upload(upload) {
            Ok(()) => {
                assert(self.store.records() == s.push(u));
                assert(self.store.records().drop_last() =~= s);
                Ok(rid)
            },
            Err(e) => Err(e),
        }
    }

    /// Starts the upload with the id `id`: runs a worker where a permit is
    /// free, else queues it. Fails with `UploadNotFound` where no record
    /// has the id, and with `InvalidState` where it runs or waits already
    /// or its state does not allow a start; a failure changes nothing.
    pub fn start_upload(&mut self, id: &str) -> (r: Result<StartOutcome, TusError>)
        requires
            old(self).wf(),
        ensures
            final(self).wf(),
            final(self).store == old(self).store,
            final(self).config == old(self).config,
            !has_id(old(self).store.records(), id@) ==> (r matches Err(e) && (e matches TusError::UploadNotFound(m) && m@ == id@)),
            has_id(old(self).store.records(), id@) && r is Err ==> (r matches Err(e) && e is InvalidState),
            r is Ok <==> {
                &&& has_id(old(self).store.records(), id@)
                &&& !(ids_of(old(self).active@) + texts_of(old(self).waiting@)).contains(id@)
                &&& is_startable(old(self).store.records()[index_of(old(self).store.records(), id@)].state)
            },
            r is Err ==> final(self).active == old(self).active && final(self).waiting == old(self).waiting,
            r matches Ok(o) ==> {
                if old(self).active@.len() < old(self).config.max_concurrent_uploads {
                    &&& o matches StartOutcome::Spawn(u) && u.eqv(
                        old(self).store.records()[index_of(old(self).store.records(), id@)],
                    ) && u.wf()
                    &&& ids_of(final(self).active@) == ids_of(old(self).active@).push(id@)
                    &&& final(self).waiting == old(self).waiting
                } else {
                    &&& o is Queued
                    &&& final(self).active == old(self).active
                    &&& texts_of(final(self).waiting@) == texts_of(old(self).waiting@).push(id@)
                }
            },
    {
        let u = self.store.get_upload(id)?;
        let in_active = find_active(&self.active, id).is_some();
        let in_waiting = find_waiting(&self.waiting, id).is_some();
        proof {
            let a = ids_of(self.active@);
            let w = texts_of(self.waiting@);
            if (a + w).contains(id@) {
                let k = choose|k: int| 0 <= k < (a + w).len() && (a + w)[k] == id@;
                if k < a.len() {
                    assert(a[k] == id@);
                } else {
                    assert(w[k - a.len()] == id@);
                }
            }
            if a.contains(id@) {
                let k = choose|k: int| 0 <= k < a.len() && a[k] == id@;
                assert((a + w)[k] == id@);
            }
            if w.contains(id@) {
                let k = choose|k: int| 0 <= k < w.len() && w[k] == id@;
                assert((a + w)[a.len() + k] == id@);
            }
        }
        if in_active || in_waiting {
            return Err(TusError::InvalidState(String::from_str("Upload is already running")));
        }
        if !u.can_start() {
            return Err(
                TusError::InvalidState(String::from_str("Upload cannot be started in current state")),
            );
        }
        let ghost a0 = ids_of(self.active@);
        let ghost w0 = texts_of(self.waiting@);
        if self.active.len() < self.config.max_concurrent_uploads {
            let handle = ActiveUpload { id: String::from_str(id), cancel_reason: None };
            self.active.push(handle);
            assert(ids_of(self.active@) =~= a0.push(id@));
            assert((ids_of(self.active@) + texts_of(self.waiting@)).no_duplicates()) by {
                let all = ids_of(self.active@) + texts_of(self.waiting@);
                assert forall|i: int, j: int| 0 <= i < all.len() && 0 <= j < all.len() && i != j
                    implies all[i] != all[j] by {
                    let old_all = a0 + w0;
                    let oi = if i < a0.len() { i } else if i == a0.len() { -1 } else { i - 1 };
                    let oj = if j < a0.len() { j } else if j == a0.len() { -1 } else { j - 1 };
                    if oi >= 0 && oj >= 0 {
                        assert(all[i] == old_all[oi]);
                        assert(all[j] == old_all[oj]);
                    } else if oi < 0 {
                        assert(all[i] == id@);
                        assert(all[j] == old_all[oj]);
                        assert(old_all.contains(all[j]));
                    } else {
                        assert(all[j] == id@);
                        assert(all[i] == old_all[oi]);
                        assert(old_all.contains(all[i]));
                    }
                }
            }
            Ok(StartOutcome::Spawn(u))
        } else {
            self.waiting.push(String::from_str(id));
            assert(texts_of(self.waiting@) =~= w0.push(id@));
            assert(ids_of(self.active@) + texts_of(self.waiting@) =~= (a0 + w0).push(id@));
            assert((a0 + w0).push(id@).no_duplicates()) by {
                let all = (a0 + w0).push(id@);
                assert forall|i: int, j: int| 0 <= i < all.len() && 0 <= j < all.len() && i != j
                    implies all[i] != all[j] by {
                    if i < (a0 + w0).len() && j < (a0 + w0).len() {
                    } else if i < (a0 + w0).len() {
                        assert((a0 + w0).contains(all[i]));
                    } else {
                        assert((a0 + w0).contains(all[j]));
                    }
                }
            }
            Ok(StartOutcome::Queued)
        }
    }

    /// Records that the worker of the upload `id` ended with the record
    /// `record`, and frees its permit. Where a cancel was asked for, the
    /// record is moved to `Cancelled` as far as the table allows, whatever
    /// the worker reached. The record is written to the registry; then the
    /// first waiting upload that can still start is admitted and returned,
    /// to run a worker on. Fails with `UploadNotFound`, changing nothing,
    /// where no worker of that id runs.
    pub fn finish_upload(&mut self, id: &str, record: Upload) -> (r: Result<Option<Upload>, TusError>)
        requires
            old(self).wf(),
            record.wf(),
            record.id@ == id@,
        ensures
            final(self).wf(),
            final(self).config == old(self).config,
            r is Err <==> !ids_of(old(self).active@).contains(id@) || !has_id(
                old(self).store.records(),
                id@,
            ),
            r is Err ==> final(self).store == old(self).store,
            !ids_of(old(self).active@).contains(id@) ==> *final(self) == *old(self),
            r is Ok ==> !ids_of(final(self).active@).contains(id@),
            r is Ok ==> has_id(final(self).store.records(), id@),
            r is Ok ==> ({
                let old_recs = old(self).store.records();
                let k = index_of(old_recs, id@);
                let h = old(self).active@[ids_of(old(self).active@).index_of(id@)];
                let new_recs = final(self).store.records();
                &&& new_recs.len() == old_recs.len()
                &&& forall|j: int| 0 <= j < new_recs.len() && j != k ==> new_recs[j] == old_recs[j]
                &&& new_recs[k].same_job(record)
                &&& new_recs[k].location == record.location
                &&& new_recs[k].state == published_state(record.state, h.cancel_reason)
                &&& new_recs[k].progress == record.progress
                &&& new_recs[k].metadata == record.metadata
            }),
            r matches Ok(Some(u)) ==> ids_of(final(self).active@).last() == u.id@ && u.wf()
                && is_startable(u.state),
            r matches Ok(Some(_)) ==> final(self).active@.len() == old(self).active@.len(),
            r matches Ok(None) ==> final(self).active@.len() + 1 == old(self).active@.len(),
    {
        let idx = match find_active(&self.active, id) {
            Some(i) => i,
            None => {
                return Err(TusError::UploadNotFound(String::from_str(id)));
            },
        };
        let ghost a0 = ids_of(self.active@);
        let ghost w0 = texts_of(self.waiting@);
        let mut record = record;
        if self.store.get_upload(id).is_err() {
            return Err(TusError::UploadNotFound(String::from_str(id)));
        }
        assert(ids_of(self.active@).index_of(id@) == idx) by {
            let a = ids_of(self.active@);
            assert(a[idx as int] == id@);
            let f = a.index_of(id@);
            if f != idx {
                assert((a + w0)[f] == (a + w0)[idx as int]);
            }
        }
        let cancelled = match self.active[idx].cancel_reason {
            Some(CancelReason::Cancel) => true,
            _ => false,
        };
        if cancelled && record.state.can_transition_to(UploadState::Cancelled) {
            let _ = record.transition_to(UploadState::Cancelled);
        }
        let ghost recs = self.store.records();
        let res = self.store.update_upload(record);
        assert(res is Ok);
        assert(self.store.records()[index_of(recs, id@)].id@ == id@);
        assert(has_id(self.store.records(), id@));
        assert(!w0.contains(id@)) by {
            if w0.contains(id@) {
                let k = choose|k: int| 0 <= k < w0.len() && w0[k] == id@;
                assert((a0 + w0)[a0.len() + k] == (a0 + w0)[idx as int]);
            }
        }
        self.active.remove(idx);
        proof {
            let t = ids_of(self.active@) + texts_of(self.waiting@);
            assert(ids_of(self.active@) =~= a0.remove(idx as int));
            lemma_no_dup_embed(a0 + w0, t, |i: int| if i < idx { i } else { i + 1 });
            assert(!ids_of(self.active@).contains(id@)) by {
                if ids_of(self.active@).contains(id@) {
                    let k = choose|k: int| 0 <= k < ids_of(self.active@).len() && ids_of(self.active@)[k] == id@;
                    let k0 = if k < idx { k } else { k + 1 };
                    assert((a0 + w0)[k0] == (a0 + w0)[idx as int]);
                }
            }
        }
        let ghost a1 = ids_of(self.active@);
        let r = self.admit_next();
        proof {
            lemma_concat_contains(a1, w0, id@);
        }
        r
    }

    /// Admits the first waiting upload that can still start, dropping the
    /// waiting ones before it that cannot.
    fn admit_next(&mut self) -> (r: Result<Option<Upload>, TusError>)
        requires
            old(self).store.wf(),
            first_issue(old(self).config) is None,
            keys_unique(old(self).config.headers@),
            old(self).active@.len() < old(self).config.max_concurrent_uploads,
            (ids_of(old(self).active@) + texts_of(old(self).waiting@)).no_duplicates(),
        ensures
            final(self).wf(),
            final(self).store == old(self).store,
            final(self).config == old(self).config,
            r is Ok,
            forall|x: Seq<char>| ids_of(final(self).active@).contains(x) ==> (ids_of(old(self).active@)
                + texts_of(old(self).waiting@)).contains(x),
            r matches Ok(Some(u)) ==> ids_of(final(self).active@) == ids_of(old(self).active@).push(u.id@)
                && u.wf() && is_startable(u.state),
            r matches Ok(None) ==> final(self).active == old(self).active,
    {
        while self.waiting.len() > 0
            invariant
                self.store == old(self).store,
                self.config == old(self).config,
                self.active == old(self).active,
                self.store.wf(),
                first_issue(self.config) is None,
                keys_unique(self.config.headers@),
                self.active@.len() < self.config.max_concurrent_uploads,
                (ids_of(self.active@) + texts_of(self.waiting@)).no_duplicates(),
                forall|x: Seq<char>| texts_of(self.waiting@).contains(x) ==> texts_of(old(self).waiting@).contains(x),
            decreases self.waiting@.len(),
        {
            let ghost a0 = ids_of(self.active@);
            let ghost w0 = texts_of(self.waiting@);
            let next = self.waiting.remove(0);
            assert(texts_of(self.waiting@) =~= w0.subrange(1, w0.len() as int));
            assert(next@ == w0[0]);
            proof {
                lemma_no_dup_embed(a0 + w0, a0 + texts_of(self.waiting@), |i: int| if i < a0.len() { i } else { i + 1 });
                assert forall|x: Seq<char>| texts_of(self.waiting@).contains(x) implies texts_of(old(self).waiting@).contains(x) by {
                    let k = choose|k: int| 0 <= k < texts_of(self.waiting@).len() && texts_of(self.waiting@)[k] == x;
                    assert(w0[k + 1] == x);
                }
            }
            match self.store.get_upload(next.as_str()) {
                Ok(u) => {
                    if u.can_start() {
                        let ghost wr = texts_of(self.waiting@);
                        self.active.push(ActiveUpload { id: next, cancel_reason: None });
                        proof {
                            assert(ids_of(self.active@) =~= a0.push(w0[0]));
                            lemma_no_dup_embed(
                                a0 + w0,
                                ids_of(self.active@) + wr,
                                |i: int| if i < a0.len() { i } else if i == a0.len() { a0.len() as int } else { i },
                            );
                            assert(w0.contains(w0[0]));
                            assert((a0 + w0)[a0.len() as int] == w0[0]);
                            assert forall|x: Seq<char>| ids_of(self.active@).contains(x) implies (ids_of(
                                old(self).active@,
                            ) + texts_of(old(self).waiting@)).contains(x) by {
                                lemma_concat_contains(ids_of(old(self).active@), texts_of(old(self).waiting@), x);
                                let k = choose|k: int| 0 <= k < ids_of(self.active@).len() && ids_of(self.active@)[k] == x;
                                if k < a0.len() {
                                    assert(a0[k] == x);
                                    assert(ids_of(old(self).active@).contains(x));
                                } else {
                                    assert(w0.contains(x));
                                }
                            }
                        }
                        return Ok(Some(u));
                    }
                },
                Err(_) => {},
            }
        }
        assert forall|x: Seq<char>| ids_of(self.active@).contains(x) implies (ids_of(old(self).active@)
            + texts_of(old(self).waiting@)).contains(x) by {
            lemma_concat_contains(ids_of(old(self).active@), texts_of(old(self).waiting@), x);
        }
        Ok(None)
    }

    /// Asks the worker of the upload `id` to pause; the driver then stops
    /// it and reports with `finish_upload`. Fails with `UploadNotFound`,
    /// changing nothing, where no worker of that id runs (an upload
    /// waiting for a permit has none).
    pub fn pause_upload(&mut self, id: &str) -> (r: Result<(), TusError>)
        requires
            old(self).wf(),
        ensures
            final(self).wf(),
            final(self).store == old(self).store,
            final(self).config == old(self).config,
            r is Ok <==> ids_of(old(self).active@).contains(id@),
            r matches Err(e) ==> (e matches TusError::UploadNotFound(m) && m@ == id@),
            r is Err ==> *final(self) == *old(self),
            ids_of(final(self).active@) == ids_of(old(self).active@),
            final(self).waiting == old(self).waiting,
            r is Ok ==> exists|i: int|
                0 <= i < final(self).active@.len() && final(self).active@[i].id@ == id@
                    && final(self).active@[i].cancel_reason == Some(CancelReason::Pause),
    {
        if find_active(&self.active, id).is_none() {
            return Err(TusError::UploadNotFound(String::from_str(id)));
        }
        proof {
            lemma_concat_contains(ids_of(self.active@), texts_of(self.waiting@), id@);
        }
        self.signal(id, CancelReason::Pause)
    }

    /// Marks the worker of `id` with `reason`, or takes `id` off the
    /// waiting list.
    fn signal(&mut self, id: &str, reason: CancelReason) -> (r: Result<(), TusError>)
        requires
            old(self).wf(),
        ensures
            final(self).wf(),
            final(self).store == old(self).store,
            final(self).config == old(self).config,
            r is Ok <==> (ids_of(old(self).active@) + texts_of(old(self).waiting@)).contains(id@),
            r matches Err(e) ==> e is UploadNotFound && *final(self) == *old(self),
            ids_of(final(self).active@) == ids_of(old(self).active@),
            ids_of(old(self).active@).contains(id@) ==> exists|i: int|
                0 <= i < final(self).active@.len() && final(self).active@[i].id@ == id@
                    && final(self).active@[i].cancel_reason == Some(reason),
            ids_of(old(self).active@).contains(id@) ==> final(self).waiting == old(self).waiting,
            !texts_of(final(self).waiting@).contains(id@),
    {
        let ghost a0 = ids_of(self.active@);
        let ghost w0 = texts_of(self.waiting@);
        proof {
            lemma_concat_contains(a0, w0, id@);
        }
        match find_active(&self.active, id) {
            Some(i) => {
                let handle = ActiveUpload { id: self.active[i].id.clone(), cancel_reason: Some(reason) };
                self.active.set(i, handle);
                assert(self.active@[i as int].id@ == id@);
                assert(ids_of(self.active@) =~= a0);
                proof {
                    if texts_of(self.waiting@).contains(id@) {
                        let k = choose|k: int| 0 <= k < w0.len() && w0[k] == id@;
                        assert((a0 + w0)[i as int] == (a0 + w0)[a0.len() + k]);
                    }
                }
                Ok(())
            },
            None => match find_waiting(&self.waiting, id) {
                Some(j) => {
                    self.waiting.remove(j);
                    proof {
                        assert(texts_of(self.waiting@) =~= w0.remove(j as int));
                        lemma_no_dup_embed(a0 + w0, a0 + texts_of(self.waiting@), |i: int| if i < a0.len() + j { i } else { i + 1 });
                        if texts_of(self.waiting@).contains(id@) {
                            let k = choose|k: int| 0 <= k < texts_of(self.waiting@).len() && texts_of(self.waiting@)[k] == id@;
                            let k0 = if k < j { k } else { k + 1 };
                            assert((a0 + w0)[a0.len() + k0] == (a0 + w0)[a0.len() + j]);
                        }
                    }
                    Ok(())
                },
                None => Err(TusError::UploadNotFound(String::from_str(id))),
            },
        }
    }

    /// Cancels the upload `id`. Where a worker runs, it is asked to stop
    /// and its record becomes `Cancelled` when it reports back. Otherwise
    /// the record (waiting or not) moves to `Cancelled` now, where the
    /// table allows it. Fails with `UploadNotFound` where no record has
    /// the id, and with `InvalidState` where its state cannot move to
    /// `Cancelled`.
    pub fn cancel_upload(&mut self, id: &str) -> (r: Result<CancelOutcome, TusError>)
        requires
            old(self).wf(),
        ensures
            final(self).wf(),
            final(self).config == old(self).config,
            ids_of(final(self).active@) == ids_of(old(self).active@),
            r is Ok ==> !texts_of(final(self).waiting@).contains(id@),
            ids_of(old(self).active@).contains(id@) ==> r == Ok::<CancelOutcome, TusError>(CancelOutcome::Signalled)
                && final(self).store == old(self).store,
            !ids_of(old(self).active@).contains(id@) ==> {
                &&& r is Ok <==> has_id(old(self).store.records(), id@) && transition_allowed(
                    old(self).store.records()[index_of(old(self).store.records(), id@)].state,
                    UploadState::Cancelled,
                )
                &&& !has_id(old(self).store.records(), id@) ==> (r matches Err(e) && (e matches TusError::UploadNotFound(m) && m@ == id@))
                &&& has_id(old(self).store.records(), id@) && !transition_allowed(
                    old(self).store.records()[index_of(old(self).store.records(), id@)].state,
                    UploadState::Cancelled,
                ) ==> (r matches Err(e) && e is InvalidState)
                &&& r is Ok ==> r == Ok::<CancelOutcome, TusError>(CancelOutcome::Cancelled)
                    && final(self).store.records()[index_of(old(self).store.records(), id@)].state
                    == UploadState::Cancelled
                &&& r is Err ==> final(self).store == old(self).store
            },
    {
        let ghost a0 = ids_of(self.active@);
        if find_active(&self.active, id).is_some() {
            let _ = self.signal(id, CancelReason::Cancel);
            assert(a0 + texts_of(old(self).waiting@) =~= ids_of(old(self).active@) + texts_of(old(self).waiting@));
            proof {
                lemma_concat_contains(a0, texts_of(old(self).waiting@), id@);
            }
            return Ok(CancelOutcome::Signalled);
        }
        let mut u = self.store.get_upload(id)?;
        if !u.state.can_transition_to(UploadState::Cancelled) {
            return Err(TusError::InvalidState(String::from_str("Upload cannot be cancelled in current state")));
        }
        let res = u.transition_to(UploadState::Cancelled);
        assert(res is Ok);
        let res2 = self.store.update_upload(u);
        assert(res2 is Ok);
        if find_waiting(&self.waiting, id).is_some() {
            let _ = self.signal(id, CancelReason::Cancel);
        }
        Ok(CancelOutcome::Cancelled)
    }

    /// A copy of the record with the id `id`, or `UploadNotFound`.
    pub fn get_upload_status(&self, id: &str) -> (r: Result<Upload, TusError>)
        requires
            self.wf(),
        ensures
            r is Ok <==> has_id(self.store.records(), id@),
            r matches Ok(u) ==> u.eqv(self.store.records()[index_of(self.store.records(), id@)]),
            r matches Err(e) ==> e is UploadNotFound,
    {
        self.store.get_upload(id)
    }

    /// Copies of every record, in order.
    pub fn list_uploads(&self) -> (r: Vec<Upload>)
        requires
            self.wf(),
        ensures
            crate::state::all_eqv(r@, self.store.records()),
    {
        self.store.list_uploads()
    }

    /// Begins a shutdown: every running worker is asked to pause, and no
    /// waiting upload will be admitted. Returns the ids of the workers to
    /// await; each reports back with `finish_upload`.
    pub fn shutdown(&mut self) -> (r: Vec<String>)
        requires
            old(self).wf(),
        ensures
            final(self).wf(),
            final(self).store == old(self).store,
            texts_of(r@) == ids_of(old(self).active@),
            ids_of(final(self).active@) == ids_of(old(self).active@),
            forall|i: int| 0 <= i < final(self).active@.len() ==> final(self).active@[i].cancel_reason
                is Some,
            final(self).waiting@.len() == 0,
    {
        let ghost a0 = ids_of(self.active@);
        self.waiting.clear();
        proof {
            assert(ids_of(self.active@) + texts_of(self.waiting@) =~= a0);
            lemma_no_dup_embed(a0 + texts_of(old(self).waiting@), a0, |i: int| i);
        }
        let mut ids: Vec<String> = Vec::new();
        let mut i: usize = 0;
        while i < self.active.len()
            invariant
                i <= self.active@.len(),
                ids_of(self.active@) == a0,
                self.waiting@.len() == 0,
                self.store == old(self).store,
                self.config == old(self).config,
                texts_of(ids@) == a0.subrange(0, i as int),
                forall|k: int| 0 <= k < i ==> self.active@[k].cancel_reason is Some,
            decreases self.active@.len() - i,
        {
            let reason = match self.active[i].cancel_reason {
                Some(c) => c,
                None => CancelReason::Pause,
            };
            let id = self.active[i].id.clone();
            let copy = self.active[i].id.clone();
            assert(copy@ == a0[i as int]);
            let ghost before = ids@;
            ids.push(copy);
            assert(ids@ == before.push(copy));
            self.active.set(i, ActiveUpload { id, cancel_reason: Some(reason) });
            assert(ids_of(self.active@) =~= a0);
            assert(texts_of(ids@) =~= texts_of(before).push(a0[i as int]));
            assert(texts_of(ids@) =~= a0.subrange(0, i + 1));
            i = i + 1;
        }
        assert(texts_of(ids@) =~= a0);
        assert(ids_of(self.active@) + texts_of(self.waiting@) =~= a0);
        ids
    }
}

/// A sequence whose items sit at distinct places of a sequence without
/// duplicates has none either.
proof fn lemma_no_dup_embed(s: Seq<Seq<char>>, t: Seq<Seq<char>>, f: spec_fn(int) -> int)
    requires
        s.no_duplicates(),
        forall|i: int| 0 <= i < t.len() ==> 0 <= #[trigger] f(i) < s.len() && t[i] == s[f(i)],
        forall|i: int, j: int| 0 <= i < t.len() && 0 <= j < t.len() && i != j ==> #[trigger] f(i) != #[trigger] f(j),
    ensures
        t.no_duplicates(),
{
    assert forall|i: int, j: int| 0 <= i < t.len() && 0 <= j < t.len() && i != j implies t[i] != t[j] by {
        assert(f(i) != f(j));
        assert(0 <= f(i) < s.len() && t[i] == s[f(i)]);
        assert(0 <= f(j) < s.len() && t[j] == s[f(j)]);
    }
}

/// An item of a concatenation is an item of one of its parts.
proof fn lemma_concat_contains(a: Seq<Seq<char>>, w: Seq<Seq<char>>, x: Seq<char>)
    ensures
        (a + w).contains(x) <==> a.contains(x) || w.contains(x),
{
    if (a + w).contains(x) {
        let k = choose|k: int| 0 <= k < (a + w).len() && (a + w)[k] == x;
        if k < a.len() {
            assert(a[k] == x);
        } else {
            assert(w[k - a.len()] == x);
        }
    }
    if a.contains(x) {
        let k = choose|k: int| 0 <= k < a.len() && a[k] == x;
        assert((a + w)[k] == x);
    }
    if w.contains(x) {
        let k = choose|k: int| 0 <= k < w.len() && w[k] == x;
        assert((a + w)[a.len() + k] == x);
    }
}

} // verus!
