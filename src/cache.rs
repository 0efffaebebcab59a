//! Values reported by the model cache, which the program around the
//! library manages on disk.

use vstd::prelude::*;
use vstd::string::*;
use crate::text::{decimal, usize_text};

verus! {

/// Cache-related errors.
#[derive(Debug, Clone, PartialEq, Eq)]
pub enum CacheError {
    DownloadFailed(String),
    ChecksumMismatch { model_id: String, expected: String, actual: String },
    ModelNotFound(String),
    IoError(String),
    ManifestError(String),
    DirectoryError(String),
}

/// Statistics about the cache.
#[derive(Debug, Clone)]
pub struct CacheStats {
    pub cache_dir: String,
    pub total_models: usize,
    pub total_size_bytes: u64,
    pub models: Vec<String>,
}

/// Integrity validation report.
#[derive(Debug, Clone)]
pub struct IntegrityReport {
    pub valid_models: Vec<String>,
    pub corrupted_models: Vec<String>,
    pub missing_models: Vec<String>,
}

/// A byte is an ASCII hexadecimal digit.
pub open spec fn is_hex_byte(b: u8) -> bool {
    (0x30 <= b <= 0x39) || (0x41 <= b <= 0x46) || (0x61 <= b <= 0x66)
}

/// Cached model metadata; times are seconds since the Unix epoch.
#[derive(Debug, Clone)]
pub struct CachedModel {
    pub model_id: String,
    pub path: String,
    /// SHA-256 digest of the model file, in hexadecimal.
    pub checksum: String,
    pub size_bytes: u64,
    pub downloaded_at: i64,
    pub last_accessed: i64,
    pub version: Option<String>,
}

impl CachedModel {
    /// Validate cached model metadata: a non-empty identifier and a
    /// checksum of 64 hexadecimal digits, checked in that order.
    pub fn validate(&self) -> (r: Result<(), String>)
        ensures
            r is Ok <==> self.model_id@.len() > 0 && self.checksum@.len() == 64
                && forall|i: int|
                0 <= i < vstd::utf8::encode_utf8(self.checksum@).len() ==> is_hex_byte(
                    #[trigger] vstd::utf8::encode_utf8(self.checksum@)[i],
                ),
            r matches Err(m) ==> (self.model_id@.len() == 0 ==> m@ == "Model ID cannot be empty"@),
            r matches Err(m) ==> (self.model_id@.len() > 0 && self.checksum@.len() != 64 ==> m@
                == "Checksum must be 64 characters (SHA256 hex), got "@ + decimal(
                self.checksum@.len(),
            )),
            r matches Err(m) ==> (self.model_id@.len() > 0 && self.checksum@.len() == 64 ==> m@
                == "Checksum must be valid hexadecimal"@),
    {
        if self.model_id.as_str().is_empty() {
            return Err("Model ID cannot be empty".to_owned());
        }
        let n = self.checksum.as_str().unicode_len();
        if n != 64 {
            let mut m = String::new();
            m.append("Checksum must be 64 characters (SHA256 hex), got ");
            m.append(usize_text(n).as_str());
            return Err(m);
        }
        let b = self.checksum.as_str().as_bytes();
        let mut i: usize = 0;
        while i < b.len()
            invariant
                i <= b@.len(),
                self.model_id@.len() > 0,
                self.checksum@.len() == 64,
                b@ == vstd::utf8::encode_utf8(self.checksum@),
                forall|k: int| 0 <= k < i ==> is_hex_byte(#[trigger] b@[k]),
            decreases b@.len() - i,
        {
            let c = b[i];
            if !((0x30 <= c && c <= 0x39) || (0x41 <= c && c <= 0x46) || (0x61 <= c && c <= 0x66)) {
                return Err("Checksum must be valid hexadecimal".to_owned());
            }
            i = i + 1;
        }
        Ok(())
    }
}

/// The model identifiers of a list of models.
pub open spec fn ids(models: Seq<CachedModel>) -> Seq<Seq<char>> {
    models.map_values(|m: CachedModel| m.model_id@)
}

/// Sum of the sizes of `models`.
pub open spec fn size_sum(models: Seq<CachedModel>) -> int
    decreases models.len(),
{
    if models.len() == 0 {
        0
    } else {
        size_sum(models.drop_last()) + models.last().size_bytes
    }
}

/// Cache manifest tracking all cached models, at most one per identifier.
#[derive(Debug, Clone)]
pub struct CacheManifest {
    pub version: String,
    pub models: Vec<CachedModel>,
    pub total_size_bytes: u64,
    pub max_cache_size_bytes: u64,
    /// Seconds since the Unix epoch.
    pub last_updated: i64,
}

/// Bytes in a gigabyte.
pub const GIB: u64 = 1073741824;

impl CacheManifest {
    /// No two models share an identifier.
    pub open spec fn spec_wf(&self) -> bool {
        forall|i: int, j: int|
            0 <= i < j < self.models@.len() ==> self.models@[i].model_id@ != self.models@[j].model_id@
    }

    /// Position of the model with identifier `id`.
    pub open spec fn spec_position(&self, id: Seq<char>) -> Option<int> {
        if exists|i: int| 0 <= i < self.models@.len() && self.models@[i].model_id@ == id {
            Some(choose|i: int| 0 <= i < self.models@.len() && self.models@[i].model_id@ == id)
        } else {
            None
        }
    }

    /// Create a new empty manifest with a limit of `max_size_gb` gigabytes,
    /// updated at `now` (seconds since the Unix epoch).
    pub fn new(max_size_gb: u64, now: i64) -> (r: CacheManifest)
        requires
            max_size_gb * GIB <= u64::MAX,
        ensures
            r.version@ == "1.0.0"@,
            r.models@.len() == 0,
            r.total_size_bytes == 0,
            r.max_cache_size_bytes == max_size_gb * GIB,
            r.last_updated == now,
            r.spec_wf(),
    {
        CacheManifest {
            version: "1.0.0".to_owned(),
            models: Vec::new(),
            total_size_bytes: 0,
            max_cache_size_bytes: max_size_gb * GIB,
            last_updated: now,
        }
    }

    /// Position of the model with identifier `id`, if present.
    fn find(&self, id: &str) -> (r: Option<usize>)
        requires
            self.spec_wf(),
        ensures
            r matches Some(i) ==> i < self.models@.len() && self.models@[i as int].model_id@ == id@,
            r is None ==> forall|i: int| 0 <= i < self.models@.len() ==> self.models@[i].model_id@ != id@,
    {
        let mut i: usize = 0;
        while i < self.models.len()
            invariant
                i <= self.models@.len(),
                forall|k: int| 0 <= k < i ==> self.models@[k].model_id@ != id@,
            decreases self.models@.len() - i,
        {
            if crate::text::same_text(self.models[i].model_id.as_str(), id) {
                return Some(i);
            }
            i = i + 1;
        }
        None
    }

    /// Get a model from the manifest.
    pub fn get_model(&self, model_id: &str) -> (r: Option<&CachedModel>)
        requires
            self.spec_wf(),
        ensures
            r is Some <==> exists|i: int| 0 <= i < self.models@.len() && self.models@[i].model_id@ == model_id@,
            r matches Some(m) ==> m.model_id@ == model_id@ && self.models@.contains(*m),
    {
        match self.find(model_id) {
            Some(i) => Some(&self.models[i]),
            None => None,
        }
    }

    /// Add a model at time `now`, replacing one with the same identifier;
    /// the total grows by the new model's size.
    pub fn add_model(&mut self, model: CachedModel, now: i64)
        requires
            old(self).spec_wf(),
            old(self).total_size_bytes + model.size_bytes <= u64::MAX,
        ensures
            final(self).spec_wf(),
            final(self).total_size_bytes == old(self).total_size_bytes + model.size_bytes,
            final(self).last_updated == now,
            final(self).max_cache_size_bytes == old(self).max_cache_size_bytes,
            final(self).models@.contains(model),
            final(self).models@.len() >= old(self).models@.len(),
            forall|i: int|
                0 <= i < old(self).models@.len() && old(self).models@[i].model_id@ != model.model_id@
                    ==> final(self).models@.contains(#[trigger] old(self).models@[i]),
            forall|i: int|
                0 <= i < final(self).models@.len() ==> (final(self).models@[i] == model
                    || old(self).models@.contains(#[trigger] final(self).models@[i])),
    {
        self.total_size_bytes = self.total_size_bytes + model.size_bytes;
        match self.find(model.model_id.as_str()) {
            Some(i) => {
                let ghost before = self.models@;
                self.models.set(i, model);
                assert(self.models@[i as int] == model);
                assert forall|k: int| 0 <= k < before.len() && before[k].model_id@ != model.model_id@
                    implies self.models@.contains(#[trigger] before[k]) by {
                    assert(k != i);
                    assert(self.models@[k] == before[k]);
                }
                assert forall|k: int| 0 <= k < self.models@.len() implies (self.models@[k] == model
                    || before.contains(#[trigger] self.models@[k])) by {
                    if k != i {
                        assert(self.models@[k] == before[k]);
                    }
                }
            },
            None => {
                let ghost before = self.models@;
                self.models.push(model);
                assert(self.models@[before.len() as int] == model);
                assert forall|k: int| 0 <= k < before.len() && before[k].model_id@ != model.model_id@
                    implies self.models@.contains(#[trigger] before[k]) by {
                    assert(self.models@[k] == before[k]);
                }
                assert forall|k: int| 0 <= k < self.models@.len() implies (self.models@[k] == model
                    || before.contains(#[trigger] self.models@[k])) by {
                    if k < before.len() {
                        assert(self.models@[k] == before[k]);
                    }
                }
            },
        }
        self.last_updated = now;
    }

    /// Remove the model with identifier `model_id` at time `now`, returning
    /// it; the total shrinks by its size, stopping at zero.
    pub fn remove_model(&mut self, model_id: &str, now: i64) -> (r: Option<CachedModel>)
        requires
            old(self).spec_wf(),
        ensures
            final(self).spec_wf(),
            final(self).max_cache_size_bytes == old(self).max_cache_size_bytes,
            r is None ==> (forall|i: int| 0 <= i < old(self).models@.len() ==> old(self).models@[i].model_id@ != model_id@)
                && final(self).models@ == old(self).models@
                && final(self).total_size_bytes == old(self).total_size_bytes
                && final(self).last_updated == old(self).last_updated,
            r is Some ==> final(self).last_updated == now,
            r matches Some(m) ==> exists|i: int|
                0 <= i < old(self).models@.len() && old(self).models@[i] == m && m.model_id@ == model_id@
                    && final(self).models@ == old(self).models@.remove(i),
            r matches Some(m) ==> final(self).total_size_bytes == (if old(self).total_size_bytes >= m.size_bytes {
                (old(self).total_size_bytes - m.size_bytes) as u64
            } else {
                0
            }),
    {
        match self.find(model_id) {
            Some(i) => {
                let ghost before = self.models@;
                let m = self.models.remove(i);
                assert(before[i as int] == m);
                assert forall|a: int, b: int| 0 <= a < b < self.models@.len()
                    implies self.models@[a].model_id@ != self.models@[b].model_id@ by {
                    let a0 = if a < i { a } else { a + 1 };
                    let b0 = if b < i { b } else { b + 1 };
                    assert(self.models@[a] == before[a0]);
                    assert(self.models@[b] == before[b0]);
                }
                self.total_size_bytes = self.total_size_bytes.saturating_sub(m.size_bytes);
                self.last_updated = now;
                Some(m)
            },
            None => None,
        }
    }

    /// Position of a least recently accessed model; the first of equals.
    fn lru_position(&self) -> (r: usize)
        requires
            self.models@.len() > 0,
        ensures
            r < self.models@.len(),
            forall|k: int|
                0 <= k < self.models@.len() ==> self.models@[r as int].last_accessed
                    <= #[trigger] self.models@[k].last_accessed,
    {
        let mut best: usize = 0;
        let mut i: usize = 1;
        while i < self.models.len()
            invariant
                self.models@.len() > 0,
                best < self.models@.len(),
                1 <= i <= self.models@.len(),
                forall|k: int|
                    0 <= k < i ==> self.models@[best as int].last_accessed
                        <= #[trigger] self.models@[k].last_accessed,
            decreases self.models@.len() - i,
        {
            if self.models[i].last_accessed < self.models[best].last_accessed {
                best = i;
            }
            i = i + 1;
        }
        best
    }

    /// Remove least recently used models at time `now` while the total
    /// exceeds the limit, returning their identifiers in order of removal.
    pub fn cleanup_lru(&mut self, now: i64) -> (r: Vec<String>)
        requires
            old(self).spec_wf(),
        ensures
            final(self).spec_wf(),
            final(self).max_cache_size_bytes == old(self).max_cache_size_bytes,
            final(self).total_size_bytes <= final(self).max_cache_size_bytes || final(self).models@.len() == 0,
            r@.len() + final(self).models@.len() == old(self).models@.len(),
            forall|i: int|
                0 <= i < final(self).models@.len() ==> old(self).models@.contains(#[trigger] final(self).models@[i]),
            old(self).total_size_bytes <= old(self).max_cache_size_bytes ==> final(self).models@
                == old(self).models@,
            exists|removed: Seq<CachedModel>|
                #![trigger removed.len()]
                removed.len() == r@.len() && (forall|i: int|
                    0 <= i < r@.len() ==> r@[i]@ == (#[trigger] removed[i]).model_id@
                        && old(self).models@.contains(removed[i])) && (forall|i: int, k: int|
                    0 <= i < removed.len() && 0 <= k < final(self).models@.len()
                        ==> (#[trigger] removed[i]).last_accessed
                        <= (#[trigger] final(self).models@[k]).last_accessed),
    {
        let ghost start = self.models@;
        let ghost mut removed: Seq<CachedModel> = Seq::empty();
        let mut out: Vec<String> = Vec::new();
        while self.total_size_bytes > self.max_cache_size_bytes && self.models.len() > 0
            invariant
                self.spec_wf(),
                self.max_cache_size_bytes == old(self).max_cache_size_bytes,
                start == old(self).models@,
                out@.len() + self.models@.len() == start.len(),
                removed.len() == out@.len(),
                forall|i: int| 0 <= i < self.models@.len() ==> start.contains(#[trigger] self.models@[i]),
                forall|i: int|
                    0 <= i < out@.len() ==> out@[i]@ == (#[trigger] removed[i]).model_id@
                        && start.contains(removed[i]),
                forall|i: int, k: int|
                    0 <= i < removed.len() && 0 <= k < self.models@.len()
                        ==> (#[trigger] removed[i]).last_accessed
                        <= (#[trigger] self.models@[k]).last_accessed,
                out@.len() == 0 ==> self.models@ == start,
                out@.len() == 0 ==> self.total_size_bytes == old(self).total_size_bytes,
                out@.len() > 0 ==> old(self).total_size_bytes > old(self).max_cache_size_bytes,
            decreases self.models@.len(),
        {
            let p = self.lru_position();
            let id = self.models[p].model_id.clone();
            let ghost victim = self.models@[p as int];
            let ghost before = self.models@;
            let gone = self.remove_model(id.as_str(), now);
            proof {
                assert(before[p as int].model_id@ == id@);
                let j = choose|j: int|
                    0 <= j < before.len() && before[j] == gone.unwrap() && gone.unwrap().model_id@ == id@
                        && self.models@ == before.remove(j);
                assert(j == p) by {
                    if j != p {
                        assert(before[j].model_id@ == before[p as int].model_id@);
                    }
                }
                assert forall|k: int| 0 <= k < self.models@.len() implies start.contains(
                    #[trigger] self.models@[k],
                ) by {
                    let k0 = if k < p { k } else { k + 1 };
                    assert(self.models@[k] == before[k0]);
                }
                assert forall|i: int, k: int|
                    0 <= i < removed.len() + 1 && 0 <= k < self.models@.len() implies (#[trigger] removed.push(victim)[i]).last_accessed
                        <= (#[trigger] self.models@[k]).last_accessed by {
                    let k0 = if k < p { k } else { k + 1 };
                    assert(self.models@[k] == before[k0]);
                    if i < removed.len() {
                        assert(removed.push(victim)[i] == removed[i]);
                    }
                }
                removed = removed.push(victim);
            }
            out.push(id);
            proof {
                assert forall|i: int| 0 <= i < out@.len() implies out@[i]@ == (#[trigger] removed[i]).model_id@
                    && start.contains(removed[i]) by {
                    if i == out@.len() - 1 {
                        assert(start.contains(victim));
                    }
                }
            }
        }
        out
    }

    /// Recompute the total from the sizes of the models.
    pub fn recalculate_total_size(&mut self)
        requires
            size_sum(old(self).models@) <= u64::MAX,
        ensures
            final(self).models@ == old(self).models@,
            final(self).max_cache_size_bytes == old(self).max_cache_size_bytes,
            final(self).total_size_bytes == size_sum(old(self).models@),
    {
        let mut total: u64 = 0;
        let mut i: usize = 0;
        while i < self.models.len()
            invariant
                i <= self.models@.len(),
                size_sum(self.models@) <= u64::MAX,
                total == size_sum(self.models@.take(i as int)),
            decreases self.models@.len() - i,
        {
            proof {
                assert(self.models@.take(i + 1).drop_last() =~= self.models@.take(i as int));
                lemma_size_sum_prefix(self.models@, i + 1);
            }
            total = total + self.models[i].size_bytes;
            i = i + 1;
        }
        assert(self.models@.take(self.models@.len() as int) =~= self.models@);
        self.total_size_bytes = total;
    }
}

proof fn lemma_size_sum_prefix(s: Seq<CachedModel>, n: int)
    requires
        0 <= n <= s.len(),
    ensures
        size_sum(s.take(n)) <= size_sum(s),
    decreases s.len(),
{
    if n < s.len() {
        assert(s.drop_last().take(n) =~= s.take(n));
        lemma_size_sum_prefix(s.drop_last(), n);
    } else {
        assert(s.take(n) =~= s);
    }
}

} // verus!
