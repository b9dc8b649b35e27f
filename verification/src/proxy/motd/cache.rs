//! Bounded LRU caches of upstream status responses and of status icons.
use vstd::prelude::*;
use vstd::string::*;

use lru::LruCache;

verus! {

/// `lru::LruCache`, a map that holds at most a fixed number of entries and
/// forgets the least recently used one to make room.
#[verifier::external_type_specification]
#[verifier::external_body]
#[verifier::reject_recursive_types(K)]
#[verifier::reject_recursive_types(V)]
#[verifier::reject_recursive_types(S)]
pub struct ExLruCache<K, V, S>(LruCache<K, V, S>);

/// `lru::DefaultHasher`, the hasher an `LruCache` uses unless told
/// otherwise.
#[verifier::external_type_specification]
#[verifier::external_body]
pub struct ExDefaultHasher(lru::DefaultHasher);

/// The first place at or after `i` where `entries` holds `key`.
pub open spec fn lru_find<K, V>(entries: Seq<(K, V)>, key: K, i: nat) -> Option<nat>
    decreases entries.len() - i,
{
    if i >= entries.len() {
        None
    } else if entries[i as int].0 == key {
        Some(i)
    } else {
        lru_find(entries, key, i + 1)
    }
}

/// `entries` with the one at `i` moved to the front, as a lookup leaves
/// them.
pub open spec fn lru_touched<K, V>(entries: Seq<(K, V)>, i: nat) -> Seq<(K, V)> {
    seq![entries[i as int]] + entries.remove(i as int)
}

/// `entries` without the one for `key`, where there is one.
pub open spec fn lru_removed<K, V>(entries: Seq<(K, V)>, key: K) -> Seq<(K, V)> {
    match lru_find(entries, key, 0) {
        Some(i) => entries.remove(i as int),
        None => entries,
    }
}

/// `entries` after `key` is stored with `value` in a cache of `cap`
/// entries: the entry goes to the front, replacing the one for the same
/// key, or, where the cache is full, the least recently used one.
pub open spec fn lru_put<K, V>(entries: Seq<(K, V)>, key: K, value: V, cap: nat) -> Seq<(K, V)> {
    match lru_find(entries, key, 0) {
        Some(i) => seq![(key, value)] + entries.remove(i as int),
        None => if entries.len() == cap {
            seq![(key, value)] + entries.drop_last()
        } else {
            seq![(key, value)] + entries
        },
    }
}

proof fn lemma_lru_find<K, V>(entries: Seq<(K, V)>, key: K, i: nat)
    ensures
        lru_find(entries, key, i) matches Some(k) ==> i <= k < entries.len() && entries[k as int].0
            == key,
    decreases entries.len() - i,
{
    if i < entries.len() && entries[i as int].0 != key {
        lemma_lru_find(entries, key, i + 1);
    }
}

/// Storing an entry never takes a cache past its capacity.
pub proof fn lemma_lru_put_bounded<K, V>(entries: Seq<(K, V)>, key: K, value: V, cap: nat)
    requires
        0 < cap,
        entries.len() <= cap,
    ensures
        lru_put(entries, key, value, cap).len() <= cap,
        lru_put(entries, key, value, cap)[0] == (key, value),
{
    lemma_lru_find(entries, key, 0);
}

/// The entries of a status cache, most recently used first: the target and
/// rewrite addresses, then the status JSON and when it was stored (ms).
pub uninterp spec fn status_lru_entries(c: LruCache<(String, String), (String, u64)>) -> Seq<
    ((Seq<char>, Seq<char>), (Seq<char>, u64)),
>;

/// How many entries a status cache was made to hold.
pub uninterp spec fn status_lru_capacity(c: LruCache<(String, String), (String, u64)>) -> nat;

/// `LruCache::new` with room for `cap` entries: empty.
#[verifier::external_body]
fn status_lru_new(cap: usize) -> (c: LruCache<(String, String), (String, u64)>)
    requires
        cap > 0,
    ensures
        status_lru_entries(c) == Seq::<((Seq<char>, Seq<char>), (Seq<char>, u64))>::empty(),
        status_lru_capacity(c) == cap,
{
    LruCache::new(std::num::NonZeroUsize::new(cap).unwrap())
}

/// `LruCache::get`: the value stored for `key`, which becomes the most
/// recently used entry.
#[verifier::external_body]
fn status_lru_get(c: &mut LruCache<(String, String), (String, u64)>, key: &(String, String)) -> (r:
    Option<(String, u64)>)
    ensures
        status_lru_capacity(*final(c)) == status_lru_capacity(*old(c)),
        match lru_find(status_lru_entries(*old(c)), (key.0@, key.1@), 0) {
            Some(i) => {
                &&& status_lru_entries(*final(c)) == lru_touched(status_lru_entries(*old(c)), i)
                &&& r matches Some(v) && (v.0@, v.1) == status_lru_entries(*old(c))[i as int].1
            },
            None => status_lru_entries(*final(c)) == status_lru_entries(*old(c)) && r is None,
        },
{
    c.get(key).cloned()
}

/// `LruCache::pop`: removes the entry for `key`.
#[verifier::external_body]
fn status_lru_pop(c: &mut LruCache<(String, String), (String, u64)>, key: &(String, String))
    ensures
        status_lru_capacity(*final(c)) == status_lru_capacity(*old(c)),
        status_lru_entries(*final(c)) == lru_removed(status_lru_entries(*old(c)), (key.0@, key.1@)),
{
    c.pop(key);
}

/// `LruCache::put`: stores `value` for `key` as the most recently used
/// entry; see `lru_put`.
#[verifier::external_body]
fn status_lru_put(
    c: &mut LruCache<(String, String), (String, u64)>,
    key: (String, String),
    value: (String, u64),
)
    ensures
        status_lru_capacity(*final(c)) == status_lru_capacity(*old(c)),
        status_lru_entries(*final(c)) == lru_put(
            status_lru_entries(*old(c)),
            (key.0@, key.1@),
            (value.0@, value.1),
            status_lru_capacity(*old(c)),
        ),
{
    c.put(key, value);
}

/// How many milliseconds have passed since `at` at `now_ms`; none where
/// `at` is later.
pub open spec fn spec_elapsed(at: u64, now_ms: u64) -> nat {
    if now_ms >= at {
        (now_ms - at) as nat
    } else {
        0
    }
}

/// What a status cache holding `entries` answers for `key` at `now_ms`: the
/// JSON stored for it at most `ttl_ms` before.
pub open spec fn spec_status_read(
    entries: Seq<((Seq<char>, Seq<char>), (Seq<char>, u64))>,
    key: (Seq<char>, Seq<char>),
    ttl_ms: u64,
    now_ms: u64,
) -> Option<Seq<char>> {
    match lru_find(entries, key, 0) {
        Some(i) => if spec_elapsed(entries[i as int].1.1, now_ms) <= ttl_ms {
            Some(entries[i as int].1.0)
        } else {
            None
        },
        None => None,
    }
}

/// The entries after that read: a fresh entry becomes the most recently
/// used, a stale one is dropped.
pub open spec fn spec_status_after_read(
    entries: Seq<((Seq<char>, Seq<char>), (Seq<char>, u64))>,
    key: (Seq<char>, Seq<char>),
    ttl_ms: u64,
    now_ms: u64,
) -> Seq<((Seq<char>, Seq<char>), (Seq<char>, u64))> {
    match lru_find(entries, key, 0) {
        Some(i) => if spec_elapsed(entries[i as int].1.1, now_ms) <= ttl_ms {
            lru_touched(entries, i)
        } else {
            entries.remove(i as int)
        },
        None => entries,
    }
}

/// The status responses last fetched from each upstream, for at most 100
/// upstreams.
pub struct StatusCache {
    inner: LruCache<(String, String), (String, u64)>,
}

impl StatusCache {
    /// The entries, most recently used first.
    pub closed spec fn spec_entries(&self) -> Seq<((Seq<char>, Seq<char>), (Seq<char>, u64))> {
        status_lru_entries(self.inner)
    }

    /// How many entries the cache holds at most.
    pub closed spec fn spec_capacity(&self) -> nat {
        status_lru_capacity(self.inner)
    }

    /// An empty cache for 100 upstreams.
    pub fn new() -> (c: Self)
        ensures
            c.spec_entries() == Seq::<((Seq<char>, Seq<char>), (Seq<char>, u64))>::empty(),
            c.spec_capacity() == 100,
    {
        StatusCache { inner: status_lru_new(100) }
    }

    /// The status JSON fetched from `target_addr` for `rewrite_addr` at most
    /// `ttl_ms` before `now_ms`; a stale entry is dropped.
    pub fn read(&mut self, target_addr: &str, rewrite_addr: &str, ttl_ms: u64, now_ms: u64) -> (r:
        Option<String>)
        ensures
            final(self).spec_capacity() == old(self).spec_capacity(),
            match spec_status_read(
                old(self).spec_entries(),
                (target_addr@, rewrite_addr@),
                ttl_ms,
                now_ms,
            ) {
                Some(json) => r matches Some(s) && s@ == json,
                None => r is None,
            },
            final(self).spec_entries() == spec_status_after_read(
                old(self).spec_entries(),
                (target_addr@, rewrite_addr@),
                ttl_ms,
                now_ms,
            ),
    {
        let key = (target_addr.to_string(), rewrite_addr.to_string());
        let ghost k = (target_addr@, rewrite_addr@);
        let ghost before = status_lru_entries(self.inner);
        match status_lru_get(&mut self.inner, &key) {
            Some((json, at)) => {
                let elapsed = if now_ms >= at {
                    now_ms - at
                } else {
                    0
                };
                if elapsed <= ttl_ms {
                    Some(json)
                } else {
                    proof {
                        let i = lru_find(before, k, 0)->0;
                        lemma_lru_find(before, k, 0);
                        let touched = lru_touched(before, i);
                        assert(touched[0].0 == k);
                        assert(lru_find(touched, k, 0) == Some(0nat));
                        assert(touched.remove(0) =~= before.remove(i as int));
                    }
                    status_lru_pop(&mut self.inner, &key);
                    None
                }
            },
            None => None,
        }
    }

    /// Stores the status JSON `json` fetched from `target_addr` for
    /// `rewrite_addr` at `now_ms`.
    pub fn write_arc(&mut self, target_addr: &str, rewrite_addr: &str, json: &str, now_ms: u64)
        ensures
            final(self).spec_capacity() == old(self).spec_capacity(),
            final(self).spec_entries() == lru_put(
                old(self).spec_entries(),
                (target_addr@, rewrite_addr@),
                (json@, now_ms),
                old(self).spec_capacity(),
            ),
    {
        status_lru_put(
            &mut self.inner,
            (target_addr.to_string(), rewrite_addr.to_string()),
            (json.to_string(), now_ms),
        );
    }
}

/// A status JSON stored at `at` is what the cache answers for its key until
/// `ttl_ms` have passed, and nothing after, whatever the cache held before.
pub proof fn lemma_status_read_after_write(
    entries: Seq<((Seq<char>, Seq<char>), (Seq<char>, u64))>,
    key: (Seq<char>, Seq<char>),
    json: Seq<char>,
    at: u64,
    cap: nat,
    ttl_ms: u64,
    now_ms: u64,
)
    ensures
        spec_status_read(lru_put(entries, key, (json, at), cap), key, ttl_ms, now_ms) == if spec_elapsed(
            at,
            now_ms,
        ) <= ttl_ms {
            Some(json)
        } else {
            None::<Seq<char>>
        },
{
    let after = lru_put(entries, key, (json, at), cap);
    assert(after[0] == (key, (json, at)));
    assert(lru_find(after, key, 0) == Some(0nat));
}

/// The entries of an icon cache, most recently used first: the icon's
/// path, then the file's modification time (nanoseconds from the Unix
/// epoch), its length, and its data URL.
pub uninterp spec fn favicon_lru_entries(c: LruCache<String, (i128, u64, String)>) -> Seq<
    (Seq<char>, (i128, u64, Seq<char>)),
>;

/// How many entries an icon cache was made to hold.
pub uninterp spec fn favicon_lru_capacity(c: LruCache<String, (i128, u64, String)>) -> nat;

/// `LruCache::new` with room for `cap` icons: empty.
#[verifier::external_body]
fn favicon_lru_new(cap: usize) -> (c: LruCache<String, (i128, u64, String)>)
    requires
        cap > 0,
    ensures
        favicon_lru_entries(c) == Seq::<(Seq<char>, (i128, u64, Seq<char>))>::empty(),
        favicon_lru_capacity(c) == cap,
{
    LruCache::new(std::num::NonZeroUsize::new(cap).unwrap())
}

/// `LruCache::get`: the icon stored for `path`, which becomes the most
/// recently used entry.
#[verifier::external_body]
fn favicon_lru_get(c: &mut LruCache<String, (i128, u64, String)>, path: &str) -> (r: Option<
    (i128, u64, String),
>)
    ensures
        favicon_lru_capacity(*final(c)) == favicon_lru_capacity(*old(c)),
        match lru_find(favicon_lru_entries(*old(c)), path@, 0) {
            Some(i) => {
                &&& favicon_lru_entries(*final(c)) == lru_touched(favicon_lru_entries(*old(c)), i)
                &&& r matches Some(v) && (v.0, v.1, v.2@) == favicon_lru_entries(*old(c))[i as int].1
            },
            None => favicon_lru_entries(*final(c)) == favicon_lru_entries(*old(c)) && r is None,
        },
{
    c.get(path).cloned()
}

/// `LruCache::pop`: removes the icon stored for `path`.
#[verifier::external_body]
fn favicon_lru_pop(c: &mut LruCache<String, (i128, u64, String)>, path: &str)
    ensures
        favicon_lru_capacity(*final(c)) == favicon_lru_capacity(*old(c)),
        favicon_lru_entries(*final(c)) == lru_removed(favicon_lru_entries(*old(c)), path@),
{
    c.pop(path);
}

/// `LruCache::put`: stores `value` for `path` as the most recently used
/// entry; see `lru_put`.
#[verifier::external_body]
fn favicon_lru_put(c: &mut LruCache<String, (i128, u64, String)>, path: String, value: (
    i128,
    u64,
    String,
))
    ensures
        favicon_lru_capacity(*final(c)) == favicon_lru_capacity(*old(c)),
        favicon_lru_entries(*final(c)) == lru_put(
            favicon_lru_entries(*old(c)),
            path@,
            (value.0, value.1, value.2@),
            favicon_lru_capacity(*old(c)),
        ),
{
    c.put(path, value);
}

/// What an icon cache holding `entries` answers for the file at `path`
/// with modification time `modified` and length `len`: the data URL stored
/// for that same file, unchanged since.
pub open spec fn spec_favicon_read(
    entries: Seq<(Seq<char>, (i128, u64, Seq<char>))>,
    path: Seq<char>,
    modified: i128,
    len: u64,
) -> Option<Seq<char>> {
    match lru_find(entries, path, 0) {
        Some(i) => if entries[i as int].1.0 == modified && entries[i as int].1.1 == len {
            Some(entries[i as int].1.2)
        } else {
            None
        },
        None => None,
    }
}

/// The entries after that read: a current entry becomes the most recently
/// used, an outdated one is dropped.
pub open spec fn spec_favicon_after_read(
    entries: Seq<(Seq<char>, (i128, u64, Seq<char>))>,
    path: Seq<char>,
    modified: i128,
    len: u64,
) -> Seq<(Seq<char>, (i128, u64, Seq<char>))> {
    match lru_find(entries, path, 0) {
        Some(i) => if entries[i as int].1.0 == modified && entries[i as int].1.1 == len {
            lru_touched(entries, i)
        } else {
            entries.remove(i as int)
        },
        None => entries,
    }
}

/// The data URLs of the icons last read, for at most 50 files.
pub struct FaviconCache {
    inner: LruCache<String, (i128, u64, String)>,
}

impl FaviconCache {
    /// The entries, most recently used first.
    pub closed spec fn spec_entries(&self) -> Seq<(Seq<char>, (i128, u64, Seq<char>))> {
        favicon_lru_entries(self.inner)
    }

    /// How many icons the cache holds at most.
    pub closed spec fn spec_capacity(&self) -> nat {
        favicon_lru_capacity(self.inner)
    }

    /// An empty cache for 50 icons.
    pub fn new() -> (c: Self)
        ensures
            c.spec_entries() == Seq::<(Seq<char>, (i128, u64, Seq<char>))>::empty(),
            c.spec_capacity() == 50,
    {
        FaviconCache { inner: favicon_lru_new(50) }
    }

    /// The data URL stored for the icon at `path`, where the file still has
    /// the modification time `modified` and the length `len` it had then;
    /// an outdated entry is dropped.
    pub fn cached_data_url(&mut self, path: &str, modified: i128, len: u64) -> (r: Option<String>)
        ensures
            final(self).spec_capacity() == old(self).spec_capacity(),
            match spec_favicon_read(old(self).spec_entries(), path@, modified, len) {
                Some(url) => r matches Some(s) && s@ == url,
                None => r is None,
            },
            final(self).spec_entries() == spec_favicon_after_read(
                old(self).spec_entries(),
                path@,
                modified,
                len,
            ),
    {
        let ghost before = favicon_lru_entries(self.inner);
        match favicon_lru_get(&mut self.inner, path) {
            Some((cached_modified, cached_len, url)) => {
                if cached_modified == modified && cached_len == len {
                    Some(url)
                } else {
                    proof {
                        let i = lru_find(before, path@, 0)->0;
                        lemma_lru_find(before, path@, 0);
                        let touched = lru_touched(before, i);
                        assert(touched[0].0 == path@);
                        assert(lru_find(touched, path@, 0) == Some(0nat));
                        assert(touched.remove(0) =~= before.remove(i as int));
                    }
                    favicon_lru_pop(&mut self.inner, path);
                    None
                }
            },
            None => None,
        }
    }

    /// Stores the data URL `url` of the icon at `path`, read when the file
    /// had the modification time `modified` and the length `len`.
    pub fn store_data_url(&mut self, path: &str, modified: i128, len: u64, url: &str)
        ensures
            final(self).spec_capacity() == old(self).spec_capacity(),
            final(self).spec_entries() == lru_put(
                old(self).spec_entries(),
                path@,
                (modified, len, url@),
                old(self).spec_capacity(),
            ),
    {
        favicon_lru_put(&mut self.inner, path.to_string(), (modified, len, url.to_string()));
    }
}

/// An icon stored for a file is what the cache answers while the file keeps
/// its modification time and length, and nothing once either changes.
pub proof fn lemma_favicon_read_after_store(
    entries: Seq<(Seq<char>, (i128, u64, Seq<char>))>,
    path: Seq<char>,
    modified: i128,
    len: u64,
    url: Seq<char>,
    cap: nat,
    now_modified: i128,
    now_len: u64,
)
    ensures
        spec_favicon_read(lru_put(entries, path, (modified, len, url), cap), path, now_modified, now_len)
            == if now_modified == modified && now_len == len {
            Some(url)
        } else {
            None::<Seq<char>>
        },
{
    let after = lru_put(entries, path, (modified, len, url), cap);
    assert(after[0] == (path, (modified, len, url)));
    assert(lru_find(after, path, 0) == Some(0nat));
}

} // verus!
