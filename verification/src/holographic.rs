//! Holographic rendering: hologram storage with its compression modes,
//! capture colour formats, propagation methods, and their errors.

use vstd::prelude::*;
use crate::text::owned;
use crate::assoc::{assoc_map, keys_distinct, lemma_assoc_absent, lemma_assoc_empty, lemma_assoc_len, lemma_assoc_lookup, lemma_assoc_push, lemma_assoc_remove, lemma_assoc_update};

verus! {

/// A failure of the holographic engine.
#[derive(Debug, Clone)]
pub enum HolographicError {
    InitializationFailed(String),
    ComputationFailed(String),
    InsufficientResources(String),
    UnsupportedFormat(String),
}

/// The displayed text of holographic error.
pub open spec fn holographic_error_text(e: HolographicError) -> Seq<char> {
    match e {
        HolographicError::InitializationFailed(m) => "初始化失败: "@ + m@,
        HolographicError::ComputationFailed(m) => "计算失败: "@ + m@,
        HolographicError::InsufficientResources(m) => "资源不足: "@ + m@,
        HolographicError::UnsupportedFormat(m) => "不支持的格式: "@ + m@,
    }
}

impl HolographicError {
    /// The displayed text of the error.
    pub fn to_string(&self) -> (r: String)
        ensures
            r@ == holographic_error_text(*self),
    {
        match self {
            HolographicError::InitializationFailed(m) => owned("初始化失败: ").concat(m.as_str()),
            HolographicError::ComputationFailed(m) => owned("计算失败: ").concat(m.as_str()),
            HolographicError::InsufficientResources(m) => owned("资源不足: ").concat(m.as_str()),
            HolographicError::UnsupportedFormat(m) => owned("不支持的格式: ").concat(m.as_str()),
        }
    }
}

/// How stored holograms are compressed.
#[derive(Debug, Clone, Copy, PartialEq, Eq, Structural)]
pub enum CompressionMode {
    /// No compression.
    Uncompressed,
    LZ4,
    Zstd,
    Intelligent,
}

impl Default for CompressionMode {
    fn default() -> (m: CompressionMode)
        ensures
            m == CompressionMode::Intelligent,
    {
        CompressionMode::Intelligent
    }
}

/// A failure of hologram storage.
#[derive(Debug, Clone)]
pub enum StorageError {
    InitializationFailed(String),
    StoreFailed(String),
    NotFound(String),
    CompressionFailed(String),
    DecompressionFailed(String),
}

/// The displayed text of storage error.
pub open spec fn storage_error_text(e: StorageError) -> Seq<char> {
    match e {
        StorageError::InitializationFailed(m) => "初始化失败: "@ + m@,
        StorageError::StoreFailed(m) => "存储失败: "@ + m@,
        StorageError::NotFound(m) => "未找到: "@ + m@,
        StorageError::CompressionFailed(m) => "压缩失败: "@ + m@,
        StorageError::DecompressionFailed(m) => "解压失败: "@ + m@,
    }
}

impl StorageError {
    /// The displayed text of the error.
    pub fn to_string(&self) -> (r: String)
        ensures
            r@ == storage_error_text(*self),
    {
        match self {
            StorageError::InitializationFailed(m) => owned("初始化失败: ").concat(m.as_str()),
            StorageError::StoreFailed(m) => owned("存储失败: ").concat(m.as_str()),
            StorageError::NotFound(m) => owned("未找到: ").concat(m.as_str()),
            StorageError::CompressionFailed(m) => owned("压缩失败: ").concat(m.as_str()),
            StorageError::DecompressionFailed(m) => owned("解压失败: ").concat(m.as_str()),
        }
    }
}

/// A hologram as stored: its name, its size before and after compression,
/// and the stored bytes.
#[derive(Debug, Clone)]
pub struct StoredHologram {
    pub name: String,
    pub original_size: usize,
    pub compressed_size: usize,
    pub data: Vec<u8>,
}

/// The sum of the original (or, with `compressed`, the compressed) sizes of
/// the stored holograms.
pub open spec fn size_sum(s: Seq<(String, StoredHologram)>, compressed: bool) -> int
    decreases s.len(),
{
    if s.len() == 0 {
        0
    } else {
        size_sum(s.drop_last(), compressed) + if compressed {
            s.last().1.compressed_size as int
        } else {
            s.last().1.original_size as int
        }
    }
}

/// The size of one stored hologram that `size_sum` counts.
pub open spec fn size_of(h: StoredHologram, compressed: bool) -> int {
    if compressed {
        h.compressed_size as int
    } else {
        h.original_size as int
    }
}

/// Replacing an entry replaces its size in the sum.
proof fn lemma_size_sum_update(s: Seq<(String, StoredHologram)>, i: int, e: (String, StoredHologram), c: bool)
    requires
        0 <= i < s.len(),
    ensures
        size_sum(s.update(i, e), c) == size_sum(s, c) - size_of(s[i].1, c) + size_of(e.1, c),
    decreases s.len(),
{
    if i < s.len() - 1 {
        assert(s.update(i, e).drop_last() =~= s.drop_last().update(i, e));
        lemma_size_sum_update(s.drop_last(), i, e, c);
    } else {
        assert(s.update(i, e).drop_last() =~= s.drop_last());
    }
}

/// Removing an entry removes its size from the sum.
proof fn lemma_size_sum_remove(s: Seq<(String, StoredHologram)>, i: int, c: bool)
    requires
        0 <= i < s.len(),
    ensures
        size_sum(s.remove(i), c) == size_sum(s, c) - size_of(s[i].1, c),
    decreases s.len(),
{
    if i < s.len() - 1 {
        assert(s.remove(i).drop_last() =~= s.drop_last().remove(i));
        assert(s.remove(i).last() == s.last());
        lemma_size_sum_remove(s.drop_last(), i, c);
    } else {
        assert(s.remove(i) =~= s.drop_last());
    }
}

/// Sizes are never negative, so no entry outweighs the sum.
proof fn lemma_size_sum_entry(s: Seq<(String, StoredHologram)>, i: int, c: bool)
    requires
        0 <= i < s.len(),
    ensures
        size_of(s[i].1, c) <= size_sum(s, c),
    decreases s.len(),
{
    lemma_size_sum_nonneg(s.drop_last(), c);
    if i < s.len() - 1 {
        lemma_size_sum_entry(s.drop_last(), i, c);
    }
}

proof fn lemma_size_sum_nonneg(s: Seq<(String, StoredHologram)>, c: bool)
    ensures
        0 <= size_sum(s, c),
    decreases s.len(),
{
    if s.len() > 0 {
        lemma_size_sum_nonneg(s.drop_last(), c);
    }
}

/// Holograms by name, with the running totals of stored bytes before and
/// after compression. Compression keeps the bytes as they are.
#[derive(Debug)]
pub struct HolographicStorage {
    compression: CompressionMode,
    enable_deduplication: bool,
    entries: Vec<(String, StoredHologram)>,
    total_size: usize,
    compressed_size: usize,
}

impl HolographicStorage {
    #[verifier::type_invariant]
    closed spec fn inv(self) -> bool {
        &&& keys_distinct(self.entries@)
        &&& forall|i: int| 0 <= i < self.entries@.len() ==> {
            let h = #[trigger] self.entries@[i].1;
            &&& h.original_size == h.data@.len()
            &&& h.compressed_size == h.data@.len()
        }
        &&& size_sum(self.entries@, false) <= self.total_size
        &&& size_sum(self.entries@, true) <= self.compressed_size
    }

    /// The stored holograms by name.
    pub closed spec fn holograms(&self) -> Map<Seq<char>, StoredHologram> {
        assoc_map(self.entries@)
    }

    /// The stored bytes by name.
    pub open spec fn contents(&self) -> Map<Seq<char>, Seq<u8>> {
        self.holograms().map_values(|h: StoredHologram| h.data@)
    }

    /// The bytes stored so far, less those deleted, before compression.
    pub closed spec fn stored_total(&self) -> nat {
        self.total_size as nat
    }

    /// The same after compression.
    pub closed spec fn stored_compressed(&self) -> nat {
        self.compressed_size as nat
    }

    /// The compression mode the storage was made with.
    pub closed spec fn mode(&self) -> CompressionMode {
        self.compression
    }

    /// An empty storage.
    pub fn new(compression: CompressionMode, enable_deduplication: bool) -> (r: Result<HolographicStorage, StorageError>)
        ensures
            r matches Ok(st) && {
                &&& st.contents() == Map::<Seq<char>, Seq<u8>>::empty()
                &&& st.stored_total() == 0
                &&& st.stored_compressed() == 0
                &&& st.mode() == compression
            },
    {
        let entries: Vec<(String, StoredHologram)> = Vec::new();
        proof {
            lemma_assoc_empty(entries@);
        }
        let st = HolographicStorage { compression, enable_deduplication, entries, total_size: 0, compressed_size: 0 };
        assert(st.contents() =~= Map::<Seq<char>, Seq<u8>>::empty());
        Ok(st)
    }

    /// The compressed form of `data`: the bytes as they are.
    fn compress(&self, data: &[u8]) -> (r: Result<Vec<u8>, StorageError>)
        ensures
            r matches Ok(v) && v@ == data@,
    {
        let mut v: Vec<u8> = Vec::new();
        let mut i: usize = 0;
        while i < data.len()
            invariant
                i <= data@.len(),
                v@ == data@.take(i as int),
            decreases data@.len() - i,
        {
            v.push(data[i]);
            assert(data@.take(i + 1) =~= data@.take(i as int).push(data@[i as int]));
            i = i + 1;
        }
        assert(data@.take(data@.len() as int) =~= data@);
        Ok(v)
    }

    /// The bytes of compressed data: the data as it is.
    fn decompress(&self, data: &Vec<u8>) -> (r: Result<Vec<u8>, StorageError>)
        ensures
            r matches Ok(v) && v@ == data@,
    {
        self.compress(data.as_slice())
    }

    fn position(&self, name: &str) -> (r: Option<usize>)
        ensures
            match r {
                Some(i) => i < self.entries@.len() && self.entries@[i as int].0@ == name@,
                None => forall|i: int| 0 <= i < self.entries@.len() ==> self.entries@[i].0@ != name@,
            },
    {
        let mut i: usize = 0;
        while i < self.entries.len()
            invariant
                i <= self.entries@.len(),
                forall|k: int| 0 <= k < i ==> self.entries@[k].0@ != name@,
            decreases self.entries@.len() - i,
        {
            if crate::text::str_eq(self.entries[i].0.as_str(), name) {
                return Some(i);
            }
            i = i + 1;
        }
        None
    }

    /// Stores `data` under `name`, replacing what was there; both totals grow
    /// by the size of `data`.
    pub fn store(&mut self, name: &str, data: &[u8]) -> (r: Result<(), StorageError>)
        requires
            old(self).stored_total() + data@.len() <= usize::MAX,
            old(self).stored_compressed() + data@.len() <= usize::MAX,
        ensures
            r is Ok,
            final(self).contents() == old(self).contents().insert(name@, data@),
            final(self).stored_total() == old(self).stored_total() + data@.len(),
            final(self).stored_compressed() == old(self).stored_compressed() + data@.len(),
            final(self).mode() == old(self).mode(),
    {
        proof {
            use_type_invariant(&*self);
        }
        let original_size = data.len();
        let compressed_data = match self.compress(data) {
            Ok(v) => v,
            Err(e) => {
                return Err(e);
            },
        };
        let compressed_size = compressed_data.len();
        let key = owned(name);
        let stored = StoredHologram { name: owned(name), original_size, compressed_size, data: compressed_data };
        let ghost old_entries = self.entries@;
        let pos = self.position(name);
        let mut entries: Vec<(String, StoredHologram)> = Vec::new();
        std::mem::swap(&mut entries, &mut self.entries);
        match pos {
            Some(i) => {
                proof {
                    lemma_assoc_update(entries@, i as int, key, stored);
                    lemma_size_sum_update(entries@, i as int, (key, stored), false);
                    lemma_size_sum_update(entries@, i as int, (key, stored), true);
                    lemma_size_sum_entry(entries@, i as int, false);
                    lemma_size_sum_entry(entries@, i as int, true);
                }
                entries.set(i, (key, stored));
            },
            None => {
                proof {
                    lemma_assoc_absent(entries@, name@);
                    lemma_assoc_push(entries@, key, stored);
                    assert(entries@.push((key, stored)).drop_last() =~= entries@);
                }
                entries.push((key, stored));
            },
        }
        self.total_size = self.total_size + original_size;
        self.compressed_size = self.compressed_size + compressed_size;
        self.entries = entries;
        proof {
            assert(self.contents() =~= old(self).contents().insert(name@, data@));
        }
        Ok(())
    }

    /// The bytes stored under `name`.
    pub fn retrieve(&self, name: &str) -> (r: Result<Vec<u8>, StorageError>)
        ensures
            match r {
                Ok(v) => self.contents().contains_key(name@) && v@ == self.contents()[name@],
                Err(e) => !self.contents().contains_key(name@) && (e matches StorageError::NotFound(m) && m@ == name@),
            },
    {
        proof {
            use_type_invariant(self);
        }
        match self.position(name) {
            Some(i) => {
                proof {
                    lemma_assoc_lookup(self.entries@, i as int);
                }
                self.decompress(&self.entries[i].1.data)
            },
            None => {
                proof {
                    lemma_assoc_absent(self.entries@, name@);
                }
                Err(StorageError::NotFound(owned(name)))
            },
        }
    }

    /// Deletes the hologram under `name`; both totals shrink by its size.
    pub fn delete(&mut self, name: &str) -> (r: Result<(), StorageError>)
        ensures
            r is Ok <==> old(self).contents().contains_key(name@),
            r is Ok ==> {
                &&& final(self).contents() == old(self).contents().remove(name@)
                &&& final(self).stored_total() == old(self).stored_total() - old(self).contents()[name@].len()
                &&& final(self).stored_compressed() == old(self).stored_compressed() - old(self).contents()[name@].len()
            },
            r matches Err(e) ==> (e matches StorageError::NotFound(m) && m@ == name@) && *final(self) == *old(self),
            final(self).mode() == old(self).mode(),
    {
        proof {
            use_type_invariant(&*self);
        }
        match self.position(name) {
            Some(i) => {
                let mut entries: Vec<(String, StoredHologram)> = Vec::new();
                std::mem::swap(&mut entries, &mut self.entries);
                proof {
                    lemma_assoc_lookup(entries@, i as int);
                    lemma_assoc_remove(entries@, i as int);
                    lemma_size_sum_remove(entries@, i as int, false);
                    lemma_size_sum_remove(entries@, i as int, true);
                    lemma_size_sum_entry(entries@, i as int, false);
                    lemma_size_sum_entry(entries@, i as int, true);
                }
                let (_, stored) = entries.remove(i);
                self.entries = entries;
                self.total_size = self.total_size - stored.original_size;
                self.compressed_size = self.compressed_size - stored.compressed_size;
                proof {
                    assert(self.contents() =~= old(self).contents().remove(name@));
                }
                Ok(())
            },
            None => {
                proof {
                    lemma_assoc_absent(self.entries@, name@);
                }
                Err(StorageError::NotFound(owned(name)))
            },
        }
    }

    /// The number of stored holograms.
    pub fn count(&self) -> (n: usize)
        ensures
            n == self.contents().dom().len(),
    {
        proof {
            use_type_invariant(self);
            lemma_assoc_len(self.entries@);
            assert(self.contents().dom() =~= self.holograms().dom());
        }
        self.entries.len()
    }

    /// The bytes stored so far, less those deleted, before compression.
    pub fn total_size(&self) -> (n: usize)
        ensures
            n == self.stored_total(),
    {
        self.total_size
    }

    /// The bytes stored so far, less those deleted, after compression; the
    /// compression ratio is the total size over this, and nothing where this
    /// is zero.
    pub fn compressed_size(&self) -> (n: usize)
        ensures
            n == self.stored_compressed(),
    {
        self.compressed_size
    }
}

/// What a retrieve gives back is what the last store of that name stored, and
/// a store leaves the other names as they were.
pub proof fn law_retrieve_after_store(
    before: Map<Seq<char>, Seq<u8>>,
    name: Seq<char>,
    data: Seq<u8>,
    other: Seq<char>,
)
    requires
        other != name,
    ensures
        before.insert(name, data).contains_key(name),
        before.insert(name, data)[name] == data,
        before.insert(name, data).contains_key(other) == before.contains_key(other),
        before.contains_key(other) ==> before.insert(name, data)[other] == before[other],
{
}

/// Deleting a name that a store has just added undoes the store: the contents
/// and both totals are back to what they were.
pub proof fn law_delete_undoes_store(
    before: Map<Seq<char>, Seq<u8>>,
    total: nat,
    compressed: nat,
    name: Seq<char>,
    data: Seq<u8>,
)
    requires
        !before.contains_key(name),
    ensures
        before.insert(name, data).remove(name) == before,
        (total + data.len()) - before.insert(name, data)[name].len() == total,
        (compressed + data.len()) - before.insert(name, data)[name].len() == compressed,
{
    assert(before.insert(name, data).remove(name) =~= before);
}

/// The pixel format of captured volumes.
#[derive(Debug, Clone, Copy, PartialEq, Eq, Structural)]
pub enum ColorFormat {
    Grayscale8,
    Grayscale16,
    RGB24,
    RGBA32,
    RGBA32F,
    RGBA16F,
}

impl Default for ColorFormat {
    fn default() -> (f: ColorFormat)
        ensures
            f == ColorFormat::RGBA32,
    {
        ColorFormat::RGBA32
    }
}

/// A failure of volume capture.
#[derive(Debug, Clone)]
pub enum CaptureError {
    InitializationFailed(String),
    CaptureFailed(String),
    DeviceNotFound,
}

/// The displayed text of capture error.
pub open spec fn capture_error_text(e: CaptureError) -> Seq<char> {
    match e {
        CaptureError::InitializationFailed(m) => "初始化失败: "@ + m@,
        CaptureError::CaptureFailed(m) => "捕捉失败: "@ + m@,
        CaptureError::DeviceNotFound => "设备未找到"@,
    }
}

impl CaptureError {
    /// The displayed text of the error.
    pub fn to_string(&self) -> (r: String)
        ensures
            r@ == capture_error_text(*self),
    {
        match self {
            CaptureError::InitializationFailed(m) => owned("初始化失败: ").concat(m.as_str()),
            CaptureError::CaptureFailed(m) => owned("捕捉失败: ").concat(m.as_str()),
            CaptureError::DeviceNotFound => owned("设备未找到"),
        }
    }
}

/// How a wavefront is propagated.
#[derive(Debug, Clone, Copy, PartialEq, Eq, Structural)]
pub enum PropagationMethod {
    AngularSpectrum,
    Fresnel,
    RayleighSommerfeld,
    FFT,
}

impl Default for PropagationMethod {
    fn default() -> (m: PropagationMethod)
        ensures
            m == PropagationMethod::Fresnel,
    {
        PropagationMethod::Fresnel
    }
}

/// A failure of wavefront propagation.
#[derive(Debug, Clone)]
pub enum PropagatorError {
    InitializationFailed(String),
    ComputationFailed(String),
    InvalidParameter(String),
}

/// The displayed text of propagator error.
pub open spec fn propagator_error_text(e: PropagatorError) -> Seq<char> {
    match e {
        PropagatorError::InitializationFailed(m) => "初始化失败: "@ + m@,
        PropagatorError::ComputationFailed(m) => "计算失败: "@ + m@,
        PropagatorError::InvalidParameter(m) => "参数无效: "@ + m@,
    }
}

impl PropagatorError {
    /// The displayed text of the error.
    pub fn to_string(&self) -> (r: String)
        ensures
            r@ == propagator_error_text(*self),
    {
        match self {
            PropagatorError::InitializationFailed(m) => owned("初始化失败: ").concat(m.as_str()),
            PropagatorError::ComputationFailed(m) => owned("计算失败: ").concat(m.as_str()),
            PropagatorError::InvalidParameter(m) => owned("参数无效: ").concat(m.as_str()),
        }
    }
}

} // verus!
