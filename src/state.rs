use vstd::prelude::*;

use crate::config::TusConfig;
use crate::error::TusError;
use crate::text::{path_join, path_joined, text_eq};
use crate::upload::{is_startable, Upload, UploadState};

verus! {

/// Schema version of the snapshot written by this engine.
pub const SNAPSHOT_VERSION: u32 = 1;

/// Whether some record of `s` has the id `id`.
pub open spec fn has_id(s: Seq<Upload>, id: Seq<char>) -> bool {
    exists|i: int| 0 <= i < s.len() && s[i].id@ == id
}

/// The position of the record of `s` with the id `id`.
pub open spec fn index_of(s: Seq<Upload>, id: Seq<char>) -> int
    recommends
        has_id(s, id),
{
    choose|i: int| 0 <= i < s.len() && s[i].id@ == id
}

/// Whether no two records of `s` share an id.
pub open spec fn ids_unique(s: Seq<Upload>) -> bool {
    forall|i: int, j: int| 0 <= i < j < s.len() ==> s[i].id@ != s[j].id@
}

/// Whether every record of `s` keeps its own invariant.
pub open spec fn records_wf(s: Seq<Upload>) -> bool {
    forall|i: int| 0 <= i < s.len() ==> (#[trigger] s[i]).wf()
}

/// The records of `s` after adding `u`: `None` where its id is taken.
pub open spec fn store_add(s: Seq<Upload>, u: Upload) -> Option<Seq<Upload>> {
    if has_id(s, u.id@) {
        None
    } else {
        Some(s.push(u))
    }
}

/// The records of `s` after adding each of `us` in turn; `None` where an
/// add is refused.
pub open spec fn store_add_all(s: Seq<Upload>, us: Seq<Upload>) -> Option<Seq<Upload>>
    decreases us.len(),
{
    if us.len() == 0 {
        Some(s)
    } else {
        match store_add(s, us[0]) {
            Some(s1) => store_add_all(s1, us.subrange(1, us.len() as int)),
            None => None,
        }
    }
}

/// Adding records whose ids are pairwise distinct and not in the registry
/// never fails, in whatever order the adds come: the registry ends with
/// exactly those records more, and no two records share an id.
pub proof fn lemma_distinct_adds(s: Seq<Upload>, us: Seq<Upload>)
    requires
        ids_unique(s),
        ids_unique(us),
        forall|i: int| 0 <= i < us.len() ==> !has_id(s, #[trigger] us[i].id@),
    ensures
        store_add_all(s, us) == Some(s + us),
        ids_unique(s + us),
    decreases us.len(),
{
    if us.len() == 0 {
        assert(s + us =~= s);
    } else {
        let rest = us.subrange(1, us.len() as int);
        let s1 = s.push(us[0]);
        assert(store_add(s, us[0]) == Some(s1));
        assert(ids_unique(s1)) by {
            assert forall|a: int, b: int| 0 <= a < b < s1.len() implies s1[a].id@ != s1[b].id@ by {
                if b == s.len() {
                    assert(!has_id(s, us[0].id@));
                    assert(s[a].id@ == s1[a].id@);
                }
            }
        }
        assert(ids_unique(rest)) by {
            assert forall|a: int, b: int| 0 <= a < b < rest.len() implies rest[a].id@ != rest[b].id@ by {
                assert(us[a + 1].id@ != us[b + 1].id@);
            }
        }
        assert forall|i: int| 0 <= i < rest.len() implies !has_id(s1, #[trigger] rest[i].id@) by {
            assert(rest[i] == us[i + 1]);
            assert(!has_id(s, us[i + 1].id@));
            assert(us[0].id@ != us[i + 1].id@);
            if has_id(s1, rest[i].id@) {
                let k = choose|k: int| 0 <= k < s1.len() && s1[k].id@ == rest[i].id@;
                if k < s.len() {
                    assert(s[k].id@ == us[i + 1].id@);
                }
            }
        }
        lemma_distinct_adds(s1, rest);
        assert(s1 + rest =~= s + us);
    }
}

/// The state a record is found in after a restart: `Paused` where it was
/// `Active`, else unchanged.
pub open spec fn interrupted_state(s: UploadState) -> UploadState {
    if s == UploadState::Active {
        UploadState::Paused
    } else {
        s
    }
}

/// Whether `a` holds, in order, records equivalent to those of `b`.
pub open spec fn all_eqv(a: Seq<Upload>, b: Seq<Upload>) -> bool {
    &&& a.len() == b.len()
    &&& forall|i: int| 0 <= i < a.len() ==> (#[trigger] a[i]).eqv(b[i])
}

/// The full persisted state of the engine.
#[derive(Debug)]
pub struct UploadStateSnapshot {
    /// Schema tag, for compatibility.
    pub version: u32,
    /// Every record, ids unique.
    pub uploads: Vec<Upload>,
    /// The settings in force when the snapshot was taken.
    pub config: TusConfig,
}

impl UploadStateSnapshot {
    /// Ids unique, every record well formed.
    pub open spec fn wf(&self) -> bool {
        ids_unique(self.uploads@) && records_wf(self.uploads@)
    }

    /// An empty snapshot of the current version.
    pub fn new(config: TusConfig) -> (r: Self)
        ensures
            r.wf(),
            r.version == SNAPSHOT_VERSION,
            r.uploads@.len() == 0,
            r.config == config,
    {
        UploadStateSnapshot { version: SNAPSHOT_VERSION, uploads: Vec::new(), config }
    }
}

/// The path of the snapshot file in `dir`.
pub fn state_file_path(dir: &str) -> (r: String)
    ensures
        r@ == path_joined(dir@, "upload-state.json"@),
{
    path_join(dir, "upload-state.json")
}

/// The path of the file that a new snapshot is written to before it
/// replaces the snapshot file by a rename.
pub fn temp_file_path(dir: &str) -> (r: String)
    ensures
        r@ == path_joined(dir@, "upload-state.tmp"@),
{
    path_join(dir, "upload-state.tmp")
}

/// The registry of every upload record, keyed by id. Each change is made
/// here and then written out whole by the caller (see `state_file_path`).
#[derive(Debug)]
pub struct UploadManager {
    /// The records and the settings.
    pub state: UploadStateSnapshot,
    /// Where the snapshot is kept.
    pub state_file: String,
    /// Where a new snapshot is written before it replaces the old one.
    pub temp_file: String,
}

/// Finds the position of the record with the id `id`.
fn find_index(s: &Vec<Upload>, id: &str) -> (r: Option<usize>)
    requires
        ids_unique(s@),
    ensures
        r is None <==> !has_id(s@, id@),
        r matches Some(i) ==> i < s@.len() && s@[i as int].id@ == id@ && i == index_of(s@, id@),
{
    let mut i: usize = 0;
    while i < s.len()
        invariant
            ids_unique(s@),
            i <= s@.len(),
            forall|j: int| 0 <= j < i ==> s@[j].id@ != id@,
        decreases s@.len() - i,
    {
        if text_eq(s[i].id.as_str(), id) {
            assert(s@[i as int].id@ == id@);
            let ghost c = index_of(s@, id@);
            assert(c == i) by {
                if c > i {
                    assert(s@[i as int].id@ != s@[c].id@);
                }
            }
            return Some(i);
        }
        i = i + 1;
    }
    None
}

impl UploadManager {
    /// Ids unique, every record well formed.
    pub open spec fn wf(&self) -> bool {
        self.state.wf()
    }

    /// The records, in the order they were added.
    pub open spec fn records(&self) -> Seq<Upload> {
        self.state.uploads@
    }

    /// A registry with no records, kept in the state directory of
    /// `config`.
    pub fn new(config: TusConfig) -> (r: Self)
        ensures
            r.wf(),
            r.records().len() == 0,
            r.state.version == SNAPSHOT_VERSION,
            r.state.config == config,
            r.state_file@ == path_joined(config.state_dir@, "upload-state.json"@),
            r.temp_file@ == path_joined(config.state_dir@, "upload-state.tmp"@),
    {
        let state_file = state_file_path(config.state_dir.as_str());
        let temp_file = temp_file_path(config.state_dir.as_str());
        UploadManager { state: UploadStateSnapshot::new(config), state_file, temp_file }
    }

    /// A registry over a snapshot read back from the state directory
    /// `state_dir`. Fails with
    /// `SerdeError` where two records share an id or a record breaks its
    /// invariant.
    pub fn restore(state: UploadStateSnapshot, state_dir: &str) -> (r: Result<Self, TusError>)
        ensures
            r is Ok <==> state.wf(),
            r matches Ok(m) ==> m.state == state && m.state_file@ == path_joined(state_dir@, "upload-state.json"@)
                && m.temp_file@ == path_joined(state_dir@, "upload-state.tmp"@),
            r matches Err(e) ==> e is SerdeError,
    {
        let n = state.uploads.len();
        let mut i: usize = 0;
        while i < n
            invariant
                n == state.uploads@.len(),
                i <= n,
                forall|a: int, b: int| 0 <= a < b < i ==> state.uploads@[a].id@ != state.uploads@[b].id@,
                forall|a: int| 0 <= a < i ==> (#[trigger] state.uploads@[a]).wf(),
            decreases n - i,
        {
            if !state.uploads[i].check_wf() {
                return Err(TusError::SerdeError(String::from_str("Invalid upload record")));
            }
            let mut j: usize = 0;
            while j < i
                invariant
                    n == state.uploads@.len(),
                    j <= i < n,
                    forall|b: int| 0 <= b < j ==> state.uploads@[b].id@ != state.uploads@[i as int].id@,
                decreases i - j,
            {
                if state.uploads[j].id == state.uploads[i].id {
                    return Err(TusError::SerdeError(String::from_str("Duplicate upload id")));
                }
                j = j + 1;
            }
            i = i + 1;
        }
        let state_file = state_file_path(state_dir);
        let temp_file = temp_file_path(state_dir);
        Ok(UploadManager { state, state_file, temp_file })
    }

    /// Moves every `Active` record to `Paused`. No worker survives a
    /// restart, so a record found `Active` was interrupted; paused, it can
    /// be started again.
    pub fn pause_interrupted(&mut self)
        requires
            old(self).wf(),
        ensures
            final(self).wf(),
            final(self).records().len() == old(self).records().len(),
            forall|i: int| 0 <= i < final(self).records().len() ==> {
                &&& (#[trigger] final(self).records()[i]).state == interrupted_state(old(self).records()[i].state)
                &&& final(self).records()[i].same_job(old(self).records()[i])
                &&& final(self).records()[i].location == old(self).records()[i].location
            },
            final(self).state.config == old(self).state.config,
            final(self).state.version == old(self).state.version,
            final(self).state_file == old(self).state_file,
            final(self).temp_file == old(self).temp_file,
    {
        let n = self.state.uploads.len();
        let mut i: usize = 0;
        while i < n
            invariant
                n == self.records().len(),
                n == old(self).records().len(),
                i <= n,
                self.wf(),
                forall|k: int| 0 <= k < n ==> {
                    &&& (#[trigger] self.records()[k]).same_job(old(self).records()[k])
                    &&& self.records()[k].location == old(self).records()[k].location
                    &&& self.records()[k].state == if k < i {
                        interrupted_state(old(self).records()[k].state)
                    } else {
                        old(self).records()[k].state
                    }
                },
                self.state.config == old(self).state.config,
                self.state.version == old(self).state.version,
                self.state_file == old(self).state_file,
                self.temp_file == old(self).temp_file,
            decreases n - i,
        {
            if self.state.uploads[i].is_active() {
                let mut u = self.state.uploads[i].clone();
                assert(self.records()[i as int].wf());
                let res = u.transition_to(UploadState::Paused);
                assert(res is Ok);
                let ghost s = self.records();
                self.state.uploads.set(i, u);
                assert forall|a: int, b: int| 0 <= a < b < self.records().len() implies self.records()[a].id@
                    != self.records()[b].id@ by {
                    assert(s[a].id@ != s[b].id@);
                }
                assert forall|a: int| 0 <= a < self.records().len() implies (#[trigger] self.records()[a]).wf() by {
                    if a != i {
                        assert(s[a].wf());
                    }
                }
            }
            i = i + 1;
        }
    }

    /// Adds a record. Fails with `InvalidState`, changing nothing, where
    /// its id is taken.
    pub fn add_upload(&mut self, upload: Upload) -> (r: Result<(), TusError>)
        requires
            old(self).wf(),
            upload.wf(),
        ensures
            final(self).wf(),
            r is Ok <==> store_add(old(self).records(), upload) is Some,
            r is Ok ==> store_add(old(self).records(), upload) == Some(final(self).records()),
            r matches Err(e) ==> e is InvalidState && final(self).records() == old(self).records(),
            final(self).state.config == old(self).state.config,
            final(self).state.version == old(self).state.version,
            final(self).state_file == old(self).state_file,
            final(self).temp_file == old(self).temp_file,
    {
        if find_index(&self.state.uploads, upload.id.as_str()).is_some() {
            return Err(TusError::InvalidState(String::from_str("Upload id already exists")));
        }
        let ghost s = self.state.uploads@;
        self.state.uploads.push(upload);
        assert forall|a: int, b: int| 0 <= a < b < self.state.uploads@.len() implies self.state.uploads@[a].id@
            != self.state.uploads@[b].id@ by {
            if b < s.len() {
                assert(s[a].id@ != s[b].id@);
            } else {
                assert(!(0 <= a < s.len() && s[a].id@ == upload.id@));
            }
        }
        assert(records_wf(self.state.uploads@)) by {
            assert forall|a: int| 0 <= a < self.state.uploads@.len() implies (
            #[trigger] self.state.uploads@[a]).wf() by {
                if a < s.len() {
                    assert(s[a].wf());
                }
            }
        }
        Ok(())
    }

    /// A copy of the record with the id `id`, or `UploadNotFound`.
    pub fn get_upload(&self, id: &str) -> (r: Result<Upload, TusError>)
        requires
            self.wf(),
        ensures
            r is Ok <==> has_id(self.records(), id@),
            r matches Ok(u) ==> u.eqv(self.records()[index_of(self.records(), id@)]) && u.wf(),
            r matches Err(e) ==> (e matches TusError::UploadNotFound(m) && m@ == id@),
    {
        match find_index(&self.state.uploads, id) {
            Some(i) => {
                let u = self.state.uploads[i].clone();
                assert(self.records()[i as int].wf());
                Ok(u)
            },
            None => Err(TusError::UploadNotFound(String::from_str(id))),
        }
    }

    /// Deletes the record with the id `id`, or fails with `UploadNotFound`
    /// and changes nothing.
    pub fn remove_upload(&mut self, id: &str) -> (r: Result<(), TusError>)
        requires
            old(self).wf(),
        ensures
            final(self).wf(),
            r is Ok <==> has_id(old(self).records(), id@),
            r is Ok ==> final(self).records() == old(self).records().remove(
                index_of(old(self).records(), id@),
            ),
            r is Ok ==> !has_id(final(self).records(), id@),
            r matches Err(e) ==> (e matches TusError::UploadNotFound(m) && m@ == id@),
            r is Err ==> final(self).records() == old(self).records(),
            final(self).state.config == old(self).state.config,
            final(self).state.version == old(self).state.version,
            final(self).state_file == old(self).state_file,
            final(self).temp_file == old(self).temp_file,
    {
        match find_index(&self.state.uploads, id) {
            Some(i) => {
                let ghost s = self.state.uploads@;
                self.state.uploads.remove(i);
                assert(self.state.uploads@ =~= s.remove(i as int));
                assert forall|a: int, b: int| 0 <= a < b < self.state.uploads@.len() implies self.state.uploads@[a].id@
                    != self.state.uploads@[b].id@ by {
                    let a0 = if a < i { a } else { a + 1 };
                    let b0 = if b < i { b } else { b + 1 };
                    assert(s[a0].id@ != s[b0].id@);
                }
                assert(records_wf(self.state.uploads@)) by {
                    assert forall|a: int| 0 <= a < self.state.uploads@.len() implies (
                    #[trigger] self.state.uploads@[a]).wf() by {
                        let a0 = if a < i { a } else { a + 1 };
                        assert(s[a0].wf());
                    }
                }
                assert forall|a: int| 0 <= a < self.state.uploads@.len() implies self.state.uploads@[a].id@
                    != id@ by {
                    let a0 = if a < i { a } else { a + 1 };
                    assert(s[a0].id@ != s[i as int].id@);
                }
                Ok(())
            },
            None => Err(TusError::UploadNotFound(String::from_str(id))),
        }
    }

    /// Replaces the record that has the id of `upload`, or fails with
    /// `UploadNotFound` and changes nothing.
    pub fn update_upload(&mut self, upload: Upload) -> (r: Result<(), TusError>)
        requires
            old(self).wf(),
            upload.wf(),
        ensures
            final(self).wf(),
            r is Ok <==> has_id(old(self).records(), upload.id@),
            r is Ok ==> final(self).records() == old(self).records().update(
                index_of(old(self).records(), upload.id@),
                upload,
            ),
            r matches Err(e) ==> (e matches TusError::UploadNotFound(m) && m@ == upload.id@),
            r is Err ==> final(self).records() == old(self).records(),
            final(self).state.config == old(self).state.config,
            final(self).state.version == old(self).state.version,
            final(self).state_file == old(self).state_file,
            final(self).temp_file == old(self).temp_file,
    {
        match find_index(&self.state.uploads, upload.id.as_str()) {
            Some(i) => {
                let ghost s = self.state.uploads@;
                let ghost u = upload;
                self.state.uploads.set(i, upload);
                assert forall|a: int, b: int| 0 <= a < b < self.state.uploads@.len() implies self.state.uploads@[a].id@
                    != self.state.uploads@[b].id@ by {
                    assert(s[a].id@ != s[b].id@);
                }
                assert(records_wf(self.state.uploads@)) by {
                    assert forall|a: int| 0 <= a < self.state.uploads@.len() implies (
                    #[trigger] self.state.uploads@[a]).wf() by {
                        if a != i {
                            assert(s[a].wf());
                        }
                    }
                }
                Ok(())
            },
            None => Err(TusError::UploadNotFound(upload.id)),
        }
    }

    /// Copies of every record, in order.
    pub fn list_uploads(&self) -> (r: Vec<Upload>)
        requires
            self.wf(),
        ensures
            all_eqv(r@, self.records()),
    {
        let mut out: Vec<Upload> = Vec::new();
        let mut i: usize = 0;
        while i < self.state.uploads.len()
            invariant
                i <= self.records().len(),
                all_eqv(out@, self.records().subrange(0, i as int)),
            decreases self.records().len() - i,
        {
            out.push(self.state.uploads[i].clone());
            i = i + 1;
        }
        assert(self.records().subrange(0, i as int) =~= self.records());
        out
    }

    /// Copies of the records in state `state`, in order.
    pub fn get_uploads_by_state(&self, state: UploadState) -> (r: Vec<Upload>)
        requires
            self.wf(),
        ensures
            all_eqv(r@, self.records().filter(|u: Upload| u.state == state)),
    {
        let ghost f = |u: Upload| u.state == state;
        let mut out: Vec<Upload> = Vec::new();
        let mut i: usize = 0;
        while i < self.state.uploads.len()
            invariant
                i <= self.records().len(),
                f == (|u: Upload| u.state == state),
                all_eqv(out@, self.records().subrange(0, i as int).filter(f)),
            decreases self.records().len() - i,
        {
            let ghost pre = self.records().subrange(0, i as int);
            let ghost next = self.records().subrange(0, i + 1);
            assert(next.drop_last() =~= pre);
            assert(next.filter(f) == if f(self.records()[i as int]) {
                pre.filter(f).push(self.records()[i as int])
            } else {
                pre.filter(f)
            }) by {
                reveal(Seq::filter);
            }
            if self.state.uploads[i].state == state {
                out.push(self.state.uploads[i].clone());
            } else {
            }
            i = i + 1;
        }
        assert(self.records().subrange(0, i as int) =~= self.records());
        out
    }

    /// Copies of the records that a worker may start on, in order.
    pub fn get_resumable_uploads(&self) -> (r: Vec<Upload>)
        requires
            self.wf(),
        ensures
            all_eqv(r@, self.records().filter(|u: Upload| is_startable(u.state))),
    {
        let ghost f = |u: Upload| is_startable(u.state);
        let mut out: Vec<Upload> = Vec::new();
        let mut i: usize = 0;
        while i < self.state.uploads.len()
            invariant
                i <= self.records().len(),
                f == (|u: Upload| is_startable(u.state)),
                all_eqv(out@, self.records().subrange(0, i as int).filter(f)),
            decreases self.records().len() - i,
        {
            let ghost pre = self.records().subrange(0, i as int);
            let ghost next = self.records().subrange(0, i + 1);
            assert(next.drop_last() =~= pre);
            assert(next.filter(f) == if f(self.records()[i as int]) {
                pre.filter(f).push(self.records()[i as int])
            } else {
                pre.filter(f)
            }) by {
                reveal(Seq::filter);
            }
            if self.state.uploads[i].can_start() {
                out.push(self.state.uploads[i].clone());
            } else {
            }
            i = i + 1;
        }
        assert(self.records().subrange(0, i as int) =~= self.records());
        out
    }

    /// The number of records in state `Active`.
    pub fn active_upload_count(&self) -> (r: usize)
        requires
            self.wf(),
        ensures
            r == self.records().filter(|u: Upload| u.state == UploadState::Active).len(),
    {
        let ghost f = |u: Upload| u.state == UploadState::Active;
        let mut n: usize = 0;
        let mut i: usize = 0;
        while i < self.state.uploads.len()
            invariant
                i <= self.records().len(),
                f == (|u: Upload| u.state == UploadState::Active),
                n == self.records().subrange(0, i as int).filter(f).len(),
                n <= i,
            decreases self.records().len() - i,
        {
            let ghost pre = self.records().subrange(0, i as int);
            let ghost next = self.records().subrange(0, i + 1);
            assert(next.drop_last() =~= pre);
            assert(next.filter(f) == if f(self.records()[i as int]) {
                pre.filter(f).push(self.records()[i as int])
            } else {
                pre.filter(f)
            }) by {
                reveal(Seq::filter);
            }
            if self.state.uploads[i].is_active() {
                n = n + 1;
            } else {
            }
            i = i + 1;
        }
        assert(self.records().subrange(0, i as int) =~= self.records());
        n
    }
}

} // verus!
