//! A cache of detected encodings, keyed by file path, with a time to live.

use vstd::prelude::*;
use crate::encoding::TextEncoding;
use crate::git::{normalize_path, normalized, components};

verus! {

#[verifier::external_type_specification]
#[verifier::external_body]
#[verifier::reject_recursive_types(K)]
#[verifier::reject_recursive_types(V)]
#[verifier::reject_recursive_types(S)]
pub struct ExDashMap<K, V, S>(dashmap::DashMap<K, V, S>);

#[verifier::external_type_specification]
#[verifier::external_body]
pub struct ExInstant(std::time::Instant);

/// A cached detection result and the moment it was stored.
#[derive(Clone, Copy, Debug)]
pub struct CacheEntry {
    encoding: TextEncoding,
    inserted_at: std::time::Instant,
}

/// The map behind the cache.
pub type PathMap = dashmap::DashMap<String, CacheEntry>;

/// No cached paths.
pub open spec fn no_entries() -> Map<Seq<char>, Seq<char>> {
    Map::empty()
}

/// The contents of the map behind the cache: each path's encoding name.
pub uninterp spec fn cache_contents(m: PathMap) -> Map<
    Seq<char>,
    Seq<char>,
>;

/// Calls `DashMap::new`: an empty map.
#[verifier::external_body]
fn map_new() -> (r: PathMap)
    ensures
        cache_contents(r) == no_entries(),
{
    dashmap::DashMap::new()
}

/// Calls `DashMap::get` and copies the entry out: present exactly when the key is.
#[verifier::external_body]
fn map_get(m: &PathMap, key: &str) -> (r: Option<CacheEntry>)
    ensures
        r is Some <==> cache_contents(*m).dom().contains(key@),
        r is Some ==> cache_contents(*m)[key@] == r.unwrap().encoding@,
{
    m.get(key).map(|entry| *entry.value())
}

/// Calls `DashMap::insert`: the key now maps to the entry's encoding.
#[verifier::external_body]
fn map_insert(m: &mut PathMap, key: String, entry: CacheEntry)
    ensures
        cache_contents(*final(m)) == cache_contents(*old(m)).insert(key@, entry.encoding@),
{
    m.insert(key, entry);
}

/// Calls `DashMap::remove`: the key is gone.
#[verifier::external_body]
fn map_remove(m: &mut PathMap, key: &str)
    ensures
        cache_contents(*final(m)) == cache_contents(*old(m)).remove(key@),
{
    m.remove(key);
}

/// Calls `DashMap::clear`: the map is empty.
#[verifier::external_body]
fn map_clear(m: &mut PathMap)
    ensures
        cache_contents(*final(m)) == no_entries(),
{
    m.clear();
}

/// Calls `DashMap::len`: the number of keys.
#[verifier::external_body]
fn map_len(m: &PathMap) -> (r: usize)
    ensures
        r == cache_contents(*m).dom().len(),
{
    m.len()
}

/// Calls `Instant::now`. Nothing is stated of the moment it gives.
#[verifier::external_body]
fn instant_now() -> std::time::Instant {
    std::time::Instant::now()
}

/// Calls `Instant::elapsed`, in nanoseconds. Nothing is stated of the time that passed.
#[verifier::external_body]
fn elapsed_nanos(i: &std::time::Instant) -> u128 {
    i.elapsed().as_nanos()
}

/// The key a path is cached under: the path written back from its components, so that
/// spellings of one path (`a//b`, `a/./b`, `a/b`) share an entry.
pub open spec fn cache_key(path: Seq<char>) -> Seq<char> {
    normalized(path, false)
}

/// The name of an optional encoding.
pub open spec fn opt_name(e: Option<TextEncoding>) -> Option<Seq<char>> {
    match e {
        Some(x) => Some(x@),
        None => None,
    }
}

/// Cache for file encoding results: file path to detected encoding, with a time to live.
pub struct EncodingCache {
    cache: PathMap,
    ttl_seconds: u64,
    max_entries: u64,
}

impl View for EncodingCache {
    type V = Map<Seq<char>, Seq<char>>;

    /// The cached encoding name of each path.
    closed spec fn view(&self) -> Map<Seq<char>, Seq<char>> {
        cache_contents(self.cache)
    }
}

impl EncodingCache {
    /// The time to live of entries, in seconds.
    pub closed spec fn ttl(&self) -> u64 {
        self.ttl_seconds
    }

    /// The configured entry limit (kept, not enforced).
    pub closed spec fn limit(&self) -> u64 {
        self.max_entries
    }

    /// What a lookup of `path` gives when its entry was stored `age` nanoseconds ago: the
    /// cached encoding while less than the time to live has passed, else nothing.
    pub open spec fn answer(&self, path: Seq<char>, age: u128) -> Option<Seq<char>> {
        if self.has(path) && (age as int) < (self.ttl() as int) * 1_000_000_000 {
            Some(self.cached(path))
        } else {
            None
        }
    }

    /// Whether an encoding is cached for a path.
    pub open spec fn has(&self, path: Seq<char>) -> bool {
        self@.dom().contains(cache_key(path))
    }

    /// The encoding name cached for a path.
    pub open spec fn cached(&self, path: Seq<char>) -> Seq<char> {
        self@[cache_key(path)]
    }

    /// An empty cache.
    pub fn new(max_entries: u64, ttl_seconds: u64) -> (r: EncodingCache)
        ensures
            r@ == no_entries(),
            r.ttl() == ttl_seconds,
            r.limit() == max_entries,
    {
        EncodingCache { cache: map_new(), ttl_seconds, max_entries }
    }

    /// The cached encoding of a file, or `None` if it is not cached or has expired.
    /// An entry has expired once its time to live has passed since it was stored, so
    /// with a time to live of zero nothing is ever given. How long ago a present entry
    /// was stored is read from the clock; `fresh_entry` gives the result for each value
    /// of that time.
    pub fn get(&self, path: &str) -> (r: Option<TextEncoding>)
        ensures
            r is Some ==> self.has(path@) && self.cached(path@) == r.unwrap()@,
            !self.has(path@) ==> r is None,
            self.ttl() == 0 ==> r is None,
            exists|age: u128| #[trigger] self.answer(path@, age) == opt_name(r),
    {
        let (r, age) = self.get_with_age(path);
        assert(self.answer(path@, age) == opt_name(r));
        r
    }

    /// A lookup that also gives the age it judged by: the time since the entry for the
    /// path was stored, in nanoseconds, as read from the clock (0 when nothing is cached).
    /// The encoding comes back exactly when `answer` gives it for that age.
    pub fn get_with_age(&self, path: &str) -> (r: (Option<TextEncoding>, u128))
        ensures
            opt_name(r.0) == self.answer(path@, r.1),
    {
        let key = normalize_path(path, false);
        match map_get(&self.cache, key.as_str()) {
            Some(entry) => {
                let elapsed: u128 = elapsed_nanos(&entry.inserted_at);
                (self.fresh_entry(entry.encoding, elapsed), elapsed)
            },
            None => (None, 0),
        }
    }

    /// What a lookup gives for a cached `encoding` that was stored `elapsed_nanos`
    /// nanoseconds ago: the encoding while less than the time to live has passed,
    /// else `None` (expired).
    pub fn fresh_entry(&self, encoding: TextEncoding, elapsed_nanos: u128) -> (r: Option<TextEncoding>)
        ensures
            r == (if (elapsed_nanos as int) < (self.ttl() as int) * 1_000_000_000 {
                Some(encoding)
            } else {
                None::<TextEncoding>
            }),
    {
        let ttl_nanos: u128 = (self.ttl_seconds as u128) * 1_000_000_000u128;
        if elapsed_nanos < ttl_nanos {
            Some(encoding)
        } else {
            None
        }
    }

    /// Caches the detected encoding of a file.
    pub fn insert(&mut self, path: &str, encoding: TextEncoding)
        ensures
            final(self)@ == old(self)@.insert(cache_key(path@), encoding@),
            final(self).ttl() == old(self).ttl(),
            final(self).limit() == old(self).limit(),
    {
        let key = normalize_path(path, false);
        map_insert(&mut self.cache, key, CacheEntry { encoding, inserted_at: instant_now() });
    }

    /// Removes the cached encoding of a file (e.g. after the file was modified).
    pub fn invalidate(&mut self, path: &str)
        ensures
            final(self)@ == old(self)@.remove(cache_key(path@)),
            final(self).ttl() == old(self).ttl(),
            final(self).limit() == old(self).limit(),
    {
        let key = normalize_path(path, false);
        map_remove(&mut self.cache, key.as_str());
    }

    /// Clears all cached encodings.
    pub fn invalidate_all(&mut self)
        ensures
            final(self)@ == no_entries(),
            final(self).ttl() == old(self).ttl(),
            final(self).limit() == old(self).limit(),
    {
        map_clear(&mut self.cache);
    }

    /// The number of cached entries.
    pub fn entry_count(&self) -> (r: usize)
        ensures
            r == self@.dom().len(),
    {
        map_len(&self.cache)
    }
}

/// A lookup right after an insert gives the inserted encoding, if it gives anything.
pub proof fn law_read_after_insert(
    before: Map<Seq<char>, Seq<char>>,
    path: Seq<char>,
    enc: Seq<char>,
)
    ensures
        before.insert(path, enc).dom().contains(path),
        before.insert(path, enc)[path] == enc,
{
}

/// After an invalidation the path is no longer cached, so a lookup gives `None`;
/// other paths keep their entries.
pub proof fn law_invalidate_forgets(before: Map<Seq<char>, Seq<char>>, path: Seq<char>, other: Seq<char>)
    requires
        other != path,
    ensures
        !before.remove(path).dom().contains(path),
        before.remove(path).dom().contains(other) == before.dom().contains(other),
        before.dom().contains(other) ==> before.remove(path)[other] == before[other],
{
}

/// Spellings of one path share a cache entry: paths with the same components have the
/// same key.
pub proof fn law_same_path_same_entry(a: Seq<char>, b: Seq<char>)
    requires
        components(a, false) == components(b, false),
    ensures
        cache_key(a) == cache_key(b),
{
}

/// Entries expire with their time to live: a lookup of a path whose entry was stored
/// the time to live or more ago gives nothing; a younger entry gives the cached
/// encoding; and growing older only ever turns an answer into nothing.
pub proof fn law_entries_expire(c: &EncodingCache, path: Seq<char>, age: u128, older: u128)
    requires
        age <= older,
    ensures
        (age as int) >= (c.ttl() as int) * 1_000_000_000 ==> c.answer(path, age) is None,
        c.has(path) && (age as int) < (c.ttl() as int) * 1_000_000_000 ==> c.answer(path, age) == Some(
            c.cached(path),
        ),
        c.answer(path, older) is Some ==> c.answer(path, age) == c.answer(path, older),
        c.answer(path, age) is Some ==> c.has(path),
{
}

} // verus!
