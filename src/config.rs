use vstd::prelude::*;

use crate::entries::{entries_insert, entries_lookup, entries_view, insert_entry, keys_unique, lookup_entry};
use crate::error::TusError;
use crate::text::{path_join, path_joined, starts_with};

verus! {

/// The largest chunk size accepted: 100 MiB.
pub const MAX_CHUNK_SIZE: usize = 104857600;

/// Relies on `dirs::cache_dir`: the user's cache directory, where the
/// platform has one. It depends on the environment; nothing is promised of
/// the value.
#[verifier::external_body]
fn cache_dir() -> (r: Option<String>) {
    dirs::cache_dir().map(|p| p.to_string_lossy().into_owned())
}

/// Default admission capacity.
pub fn default_max_concurrent_uploads() -> (r: usize)
    ensures
        r == 3,
{
    3
}

/// Default chunk size: 5 MiB.
pub fn default_chunk_size() -> (r: usize)
    ensures
        r == 5 * 1024 * 1024,
{
    5 * 1024 * 1024
}

/// Default retry budget per chunk.
pub fn default_max_retries() -> (r: u8)
    ensures
        r == 3,
{
    3
}

/// Default base delay of the backoff, in milliseconds: one second.
pub fn default_retry_delay() -> (r: u64)
    ensures
        r == 1000,
{
    1000
}

/// Default read-ahead buffer: 1 MiB.
pub fn default_buffer_size() -> (r: usize)
    ensures
        r == 1024 * 1024,
{
    1024 * 1024
}

/// Default state directory: `tus-uploads` under the user's cache
/// directory, or under the working directory where there is none.
pub fn default_state_dir() -> (r: String)
    ensures
        exists|base: Option<String>| r@ == path_joined(cache_base(base), "tus-uploads"@),
{
    let base = cache_dir();
    let r = state_dir_under(base);
    assert(r@ == path_joined(cache_base(base), "tus-uploads"@));
    r
}

/// The directory that the state directory is placed in: the cache
/// directory where there is one, else `.`.
pub open spec fn cache_base(base: Option<String>) -> Seq<char> {
    match base {
        Some(d) => d@,
        None => "."@,
    }
}

/// The state directory `tus-uploads` under the cache directory `base`, or
/// under `.` where there is none.
pub fn state_dir_under(base: Option<String>) -> (r: String)
    ensures
        r@ == path_joined(cache_base(base), "tus-uploads"@),
{
    match base {
        Some(d) => path_join(d.as_str(), "tus-uploads"),
        None => path_join(".", "tus-uploads"),
    }
}

/// A rule of the configuration that can be violated.
#[derive(Clone, Copy, Debug, PartialEq, Eq, Structural)]
pub enum ConfigIssue {
    /// The endpoint is empty.
    EmptyEndpoint,
    /// The endpoint starts with neither `http://` nor `https://`.
    EndpointScheme,
    /// The admission capacity is zero.
    NoConcurrency,
    /// The chunk size is zero.
    EmptyChunk,
    /// The chunk size exceeds 100 MiB.
    ChunkTooLarge,
    /// The buffer size is zero.
    EmptyBuffer,
    /// The buffer is larger than a chunk.
    BufferLargerThanChunk,
}

/// The text of the `Config` error for each rule.
pub open spec fn issue_text(i: ConfigIssue) -> Seq<char> {
    match i {
        ConfigIssue::EmptyEndpoint => "Endpoint URL cannot be empty"@,
        ConfigIssue::EndpointScheme => "Endpoint URL must start with http:// or https://"@,
        ConfigIssue::NoConcurrency => "Max concurrent uploads must be greater than 0"@,
        ConfigIssue::EmptyChunk => "Chunk size must be greater than 0"@,
        ConfigIssue::ChunkTooLarge => "Chunk size cannot be larger than 100MB"@,
        ConfigIssue::EmptyBuffer => "Buffer size must be greater than 0"@,
        ConfigIssue::BufferLargerThanChunk => "Buffer size cannot be larger than chunk size"@,
    }
}

impl ConfigIssue {
    /// The text of the `Config` error for this rule.
    pub fn message(&self) -> (r: String)
        ensures
            r@ == issue_text(*self),
    {
        match self {
            ConfigIssue::EmptyEndpoint => String::from_str("Endpoint URL cannot be empty"),
            ConfigIssue::EndpointScheme => String::from_str(
                "Endpoint URL must start with http:// or https://",
            ),
            ConfigIssue::NoConcurrency => String::from_str(
                "Max concurrent uploads must be greater than 0",
            ),
            ConfigIssue::EmptyChunk => String::from_str("Chunk size must be greater than 0"),
            ConfigIssue::ChunkTooLarge => String::from_str("Chunk size cannot be larger than 100MB"),
            ConfigIssue::EmptyBuffer => String::from_str("Buffer size must be greater than 0"),
            ConfigIssue::BufferLargerThanChunk => String::from_str(
                "Buffer size cannot be larger than chunk size",
            ),
        }
    }
}

/// Settings of the upload engine.
#[derive(Debug)]
pub struct TusConfig {
    /// Base URL for creation requests.
    pub endpoint: String,
    /// Extra headers sent with every request, keys unique.
    pub headers: Vec<(String, String)>,
    /// Admission capacity: how many uploads run at once.
    pub max_concurrent_uploads: usize,
    /// Transfer granularity in bytes.
    pub chunk_size: usize,
    /// Retry budget per chunk.
    pub max_retries: u8,
    /// Base delay of the exponential backoff, in milliseconds.
    pub retry_delay_ms: u64,
    /// Directory of the snapshot file.
    pub state_dir: String,
    /// Read-ahead buffer size in bytes.
    pub buffer_size: usize,
}

/// The first rule, in the order checked, that `c` violates.
pub open spec fn first_issue(c: TusConfig) -> Option<ConfigIssue> {
    if c.endpoint@.len() == 0 {
        Some(ConfigIssue::EmptyEndpoint)
    } else if !"http://"@.is_prefix_of(c.endpoint@) && !"https://"@.is_prefix_of(c.endpoint@) {
        Some(ConfigIssue::EndpointScheme)
    } else if c.max_concurrent_uploads == 0 {
        Some(ConfigIssue::NoConcurrency)
    } else if c.chunk_size == 0 {
        Some(ConfigIssue::EmptyChunk)
    } else if c.chunk_size > MAX_CHUNK_SIZE {
        Some(ConfigIssue::ChunkTooLarge)
    } else if c.buffer_size == 0 {
        Some(ConfigIssue::EmptyBuffer)
    } else if c.buffer_size > c.chunk_size {
        Some(ConfigIssue::BufferLargerThanChunk)
    } else {
        None
    }
}

impl Clone for TusConfig {
    fn clone(&self) -> (r: Self)
        ensures
            r.eqv(*self),
    {
        let mut headers: Vec<(String, String)> = Vec::new();
        let mut i: usize = 0;
        while i < self.headers.len()
            invariant
                i <= self.headers@.len(),
                headers@ == self.headers@.subrange(0, i as int),
            decreases self.headers@.len() - i,
        {
            let k = self.headers[i].0.clone();
            let v = self.headers[i].1.clone();
            headers.push((k, v));
            i = i + 1;
            assert(headers@ =~= self.headers@.subrange(0, i as int));
        }
        assert(headers@ =~= self.headers@);
        TusConfig {
            endpoint: self.endpoint.clone(),
            headers,
            max_concurrent_uploads: self.max_concurrent_uploads,
            chunk_size: self.chunk_size,
            max_retries: self.max_retries,
            retry_delay_ms: self.retry_delay_ms,
            state_dir: self.state_dir.clone(),
            buffer_size: self.buffer_size,
        }
    }
}

impl Default for TusConfig {
    /// An empty endpoint with the default settings.
    fn default() -> (r: TusConfig)
        ensures
            r.endpoint@.len() == 0,
            r.headers@.len() == 0,
            r.max_concurrent_uploads == 3,
            r.chunk_size == 5 * 1024 * 1024,
            r.max_retries == 3,
            r.retry_delay_ms == 1000,
            r.buffer_size == 1024 * 1024,
    {
        TusConfig {
            endpoint: String::new(),
            headers: Vec::new(),
            max_concurrent_uploads: default_max_concurrent_uploads(),
            chunk_size: default_chunk_size(),
            max_retries: default_max_retries(),
            retry_delay_ms: default_retry_delay(),
            state_dir: default_state_dir(),
            buffer_size: default_buffer_size(),
        }
    }
}

impl TusConfig {
    /// Equal in every field, the headers compared by their entries.
    pub open spec fn eqv(&self, o: TusConfig) -> bool {
        &&& self.endpoint == o.endpoint
        &&& self.headers@ == o.headers@
        &&& self.max_concurrent_uploads == o.max_concurrent_uploads
        &&& self.chunk_size == o.chunk_size
        &&& self.max_retries == o.max_retries
        &&& self.retry_delay_ms == o.retry_delay_ms
        &&& self.state_dir == o.state_dir
        &&& self.buffer_size == o.buffer_size
    }

    /// The settings that the rest of the engine relies on: those that
    /// `validate` checks, and unique header keys.
    pub open spec fn wf(&self) -> bool {
        &&& first_issue(*self) is None
        &&& keys_unique(self.headers@)
    }

    /// The default settings with the given endpoint.
    pub fn new(endpoint: &str) -> (r: TusConfig)
        ensures
            r.endpoint@ == endpoint@,
            r.headers@.len() == 0,
            r.max_concurrent_uploads == 3,
            r.chunk_size == 5 * 1024 * 1024,
            r.max_retries == 3,
            r.retry_delay_ms == 1000,
            r.buffer_size == 1024 * 1024,
    {
        let mut c = TusConfig::default();
        c.endpoint = String::from_str(endpoint);
        c
    }

    /// Succeeds where every rule holds; otherwise fails with a `Config`
    /// error that names the first rule violated.
    pub fn validate(&self) -> (r: Result<(), TusError>)
        ensures
            r is Ok <==> first_issue(*self) is None,
            r matches Err(e) ==> (e matches TusError::Config(m) && first_issue(*self) matches Some(
                i,
            ) && m@ == issue_text(i)),
    {
        let issue = if self.endpoint.as_str().unicode_len() == 0 {
            Some(ConfigIssue::EmptyEndpoint)
        } else if !starts_with(self.endpoint.as_str(), "http://") && !starts_with(
            self.endpoint.as_str(),
            "https://",
        ) {
            Some(ConfigIssue::EndpointScheme)
        } else if self.max_concurrent_uploads == 0 {
            Some(ConfigIssue::NoConcurrency)
        } else if self.chunk_size == 0 {
            Some(ConfigIssue::EmptyChunk)
        } else if self.chunk_size > MAX_CHUNK_SIZE {
            Some(ConfigIssue::ChunkTooLarge)
        } else if self.buffer_size == 0 {
            Some(ConfigIssue::EmptyBuffer)
        } else if self.buffer_size > self.chunk_size {
            Some(ConfigIssue::BufferLargerThanChunk)
        } else {
            None
        };
        match issue {
            Some(i) => Err(TusError::Config(i.message())),
            None => Ok(()),
        }
    }

    /// Adds the header `key: value`, replacing an earlier value of `key`.
    pub fn with_header(self, key: String, value: String) -> (r: TusConfig)
        requires
            keys_unique(self.headers@),
        ensures
            keys_unique(r.headers@),
            entries_view(r.headers@) == entries_insert(self.headers@, key@, value@),
            r.endpoint == self.endpoint,
            r.max_concurrent_uploads == self.max_concurrent_uploads,
            r.chunk_size == self.chunk_size,
            r.max_retries == self.max_retries,
            r.retry_delay_ms == self.retry_delay_ms,
            r.state_dir == self.state_dir,
            r.buffer_size == self.buffer_size,
    {
        let mut c = self;
        insert_entry(&mut c.headers, key, value);
        c
    }

    /// Adds each header of `headers` in turn, as `with_header` does.
    pub fn with_headers(self, headers: Vec<(String, String)>) -> (r: TusConfig)
        requires
            keys_unique(self.headers@),
        ensures
            keys_unique(r.headers@),
            forall|i: int|
                0 <= i < headers@.len() && (forall|j: int| i < j < headers@.len() ==> headers@[j].0@
                    != headers@[i].0@) ==> entries_lookup(r.headers@, headers@[i].0@) == Some(
                    headers@[i].1@,
                ),
            r.endpoint == self.endpoint,
            r.max_concurrent_uploads == self.max_concurrent_uploads,
            r.chunk_size == self.chunk_size,
            r.max_retries == self.max_retries,
            r.retry_delay_ms == self.retry_delay_ms,
            r.state_dir == self.state_dir,
            r.buffer_size == self.buffer_size,
    {
        let mut c = self;
        let mut i: usize = 0;
        while i < headers.len()
            invariant
                i <= headers@.len(),
                keys_unique(c.headers@),
                forall|a: int|
                    0 <= a < i && (forall|j: int| a < j < i ==> headers@[j].0@ != headers@[a].0@)
                        ==> entries_lookup(c.headers@, headers@[a].0@) == Some(headers@[a].1@),
                c.endpoint == self.endpoint,
                c.max_concurrent_uploads == self.max_concurrent_uploads,
                c.chunk_size == self.chunk_size,
                c.max_retries == self.max_retries,
                c.retry_delay_ms == self.retry_delay_ms,
                c.state_dir == self.state_dir,
                c.buffer_size == self.buffer_size,
            decreases headers@.len() - i,
        {
            let k = headers[i].0.clone();
            let v = headers[i].1.clone();
            let ghost before = c.headers@;
            insert_entry(&mut c.headers, k, v);
            proof {
                lemma_insert_then_lookup(before, c.headers@, headers@[i as int].0@, headers@[i as int].1@);
            }
            i = i + 1;
        }
        c
    }

    /// Sets the admission capacity.
    pub fn with_max_concurrent_uploads(self, max: usize) -> (r: TusConfig)
        ensures
            r.max_concurrent_uploads == max,
            r.endpoint == self.endpoint,
            r.headers == self.headers,
            r.chunk_size == self.chunk_size,
            r.max_retries == self.max_retries,
            r.retry_delay_ms == self.retry_delay_ms,
            r.state_dir == self.state_dir,
            r.buffer_size == self.buffer_size,
    {
        let mut c = self;
        c.max_concurrent_uploads = max;
        c
    }

    /// Sets the chunk size.
    pub fn with_chunk_size(self, size: usize) -> (r: TusConfig)
        ensures
            r.chunk_size == size,
            r.endpoint == self.endpoint,
            r.headers == self.headers,
            r.max_concurrent_uploads == self.max_concurrent_uploads,
            r.max_retries == self.max_retries,
            r.retry_delay_ms == self.retry_delay_ms,
            r.state_dir == self.state_dir,
            r.buffer_size == self.buffer_size,
    {
        let mut c = self;
        c.chunk_size = size;
        c
    }

    /// Sets the retry budget and the base delay of the backoff.
    pub fn with_retry_settings(self, max_retries: u8, delay_ms: u64) -> (r: TusConfig)
        ensures
            r.max_retries == max_retries,
            r.retry_delay_ms == delay_ms,
            r.endpoint == self.endpoint,
            r.headers == self.headers,
            r.max_concurrent_uploads == self.max_concurrent_uploads,
            r.chunk_size == self.chunk_size,
            r.state_dir == self.state_dir,
            r.buffer_size == self.buffer_size,
    {
        let mut c = self;
        c.max_retries = max_retries;
        c.retry_delay_ms = delay_ms;
        c
    }

    /// Sets the directory of the snapshot file.
    pub fn with_state_dir(self, path: String) -> (r: TusConfig)
        ensures
            r.state_dir == path,
            r.endpoint == self.endpoint,
            r.headers == self.headers,
            r.max_concurrent_uploads == self.max_concurrent_uploads,
            r.chunk_size == self.chunk_size,
            r.max_retries == self.max_retries,
            r.retry_delay_ms == self.retry_delay_ms,
            r.buffer_size == self.buffer_size,
    {
        let mut c = self;
        c.state_dir = path;
        c
    }

    /// The value of the header `key`, if set.
    pub fn header_value(&self, key: &str) -> (r: Option<String>)
        requires
            keys_unique(self.headers@),
        ensures
            r matches Some(v) ==> entries_lookup(self.headers@, key@) == Some(v@),
            r is None ==> entries_lookup(self.headers@, key@) is None,
    {
        lookup_entry(&self.headers, key)
    }
}

/// After mapping `k` to `v`, looking up `k` gives `v`, and every other key
/// keeps its value.
proof fn lemma_insert_then_lookup(
    before: Seq<(String, String)>,
    after: Seq<(String, String)>,
    k: Seq<char>,
    v: Seq<char>,
)
    requires
        keys_unique(before),
        keys_unique(after),
        entries_view(after) == entries_insert(before, k, v),
    ensures
        entries_lookup(after, k) == Some(v),
        forall|k2: Seq<char>| k2 != k ==> entries_lookup(after, k2) == entries_lookup(before, k2),
{
    let va = entries_view(after);
    let vb = entries_view(before);
    assert(va.len() == after.len());
    assert(forall|j: int| 0 <= j < after.len() ==> #[trigger] va[j] == (after[j].0@, after[j].1@));
    assert(forall|j: int| 0 <= j < before.len() ==> #[trigger] vb[j] == (before[j].0@, before[j].1@));
    let ghost idx: int = if exists|i: int| 0 <= i < before.len() && before[i].0@ == k {
        choose|i: int| 0 <= i < before.len() && before[i].0@ == k
    } else {
        before.len() as int
    };
    assert(0 <= idx < after.len());
    assert(va[idx] == (k, v));
    assert(after[idx].0@ == k);
    let c = choose|i: int| 0 <= i < after.len() && after[i].0@ == k;
    assert(c == idx) by {
        if c < idx {
            assert(after[c].0@ != after[idx].0@);
        } else if c > idx {
            assert(after[idx].0@ != after[c].0@);
        }
    }
    assert forall|k2: Seq<char>| k2 != k implies entries_lookup(after, k2) == entries_lookup(
        before,
        k2,
    ) by {
        assert forall|j: int| 0 <= j < after.len() && j != idx implies #[trigger] after[j].0@
            == before[j].0@ && after[j].1@ == before[j].1@ by {
            assert(va[j] == vb[j]);
        }
        if exists|i: int| 0 <= i < before.len() && before[i].0@ == k2 {
            let b = choose|i: int| 0 <= i < before.len() && before[i].0@ == k2;
            assert(b != idx);
            assert(after[b].0@ == k2);
            let a = choose|i: int| 0 <= i < after.len() && after[i].0@ == k2;
            assert(a == b) by {
                if a < b {
                    assert(after[a].0@ != after[b].0@);
                } else if a > b {
                    assert(after[b].0@ != after[a].0@);
                }
            }
        } else {
            assert forall|i: int| 0 <= i < after.len() implies after[i].0@ != k2 by {
                if i != idx {
                    assert(after[i].0@ == before[i].0@);
                }
            }
        }
    }
}

/// Settings given by the host application when the engine starts.
#[derive(Debug)]
pub struct InitConfig {
    /// Base URL for creation requests.
    pub endpoint: String,
    /// Admission capacity, where not the default.
    pub max_concurrent: Option<usize>,
    /// Chunk size, where not the default.
    pub chunk_size: Option<usize>,
}

impl InitConfig {
    /// The engine settings: the endpoint given, capacity and chunk size
    /// where given (else the defaults), the snapshot kept in `state_dir`.
    pub fn tus_config(&self, state_dir: String) -> (r: TusConfig)
        ensures
            r.endpoint == self.endpoint,
            r.headers@.len() == 0,
            r.state_dir == state_dir,
            r.max_concurrent_uploads == match self.max_concurrent {
                Some(m) => m,
                None => 3usize,
            },
            r.chunk_size == match self.chunk_size {
                Some(c) => c,
                None => 5242880usize,
            },
            r.max_retries == 3,
            r.retry_delay_ms == 1000,
            r.buffer_size == 1024 * 1024,
    {
        let mut c = TusConfig::default();
        c.endpoint = self.endpoint.clone();
        c = c.with_state_dir(state_dir);
        c = c.with_max_concurrent_uploads(
            match self.max_concurrent {
                Some(m) => m,
                None => default_max_concurrent_uploads(),
            },
        );
        c.with_chunk_size(
            match self.chunk_size {
                Some(s) => s,
                None => default_chunk_size(),
            },
        )
    }
}

} // verus!
