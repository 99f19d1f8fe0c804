//! A cache from working directories to projects, with a time to live.
use dashmap::DashMap;
use vstd::prelude::*;

verus! {

/// The concurrent map that holds the cache.
#[verifier::external_type_specification]
#[verifier::external_body]
#[verifier::reject_recursive_types(K)]
#[verifier::reject_recursive_types(V)]
#[verifier::reject_recursive_types(S)]
pub struct ExDashMap<K, V, S>(dashmap::DashMap<K, V, S>);

/// What a map of the cache holds: for each directory the project, if any, and
/// the reading of the clock at which it was stored.
pub uninterp spec fn held(m: DashMap<String, (Option<i32>, u64)>) -> Map<
    Seq<char>,
    (Option<i32>, u64),
>;

/// The contents of an empty map.
pub open spec fn no_entries() -> Map<Seq<char>, (Option<i32>, u64)> {
    Map::empty()
}

/// `DashMap::new`: the map is empty.
#[verifier::external_body]
fn new_map() -> (r: DashMap<String, (Option<i32>, u64)>)
    ensures
        held(r) == no_entries(),
{
    DashMap::new()
}

/// `DashMap::get`: the value of a key, where the map has the key.
#[verifier::external_body]
fn get_entry(m: &DashMap<String, (Option<i32>, u64)>, key: &str) -> (r: Option<(Option<i32>, u64)>)
    ensures
        r == (if held(*m).contains_key(key@) {
            Some(held(*m)[key@])
        } else {
            None
        }),
{
    m.get(key).map(|hit| *hit)
}

/// `DashMap::len`: the number of keys.
#[verifier::external_body]
fn count_entries(m: &DashMap<String, (Option<i32>, u64)>) -> (r: usize)
    ensures
        r == held(*m).len(),
{
    m.len()
}

/// `DashMap::clear`: no key is left.
#[verifier::external_body]
fn clear_entries(m: &mut DashMap<String, (Option<i32>, u64)>)
    ensures
        held(*final(m)) == no_entries(),
{
    m.clear()
}

/// `DashMap::insert`: the key gets the value, and the others keep theirs.
#[verifier::external_body]
fn put_entry(m: &mut DashMap<String, (Option<i32>, u64)>, key: String, value: (Option<i32>, u64))
    ensures
        held(*final(m)) == held(*old(m)).insert(key@, value),
{
    m.insert(key, value);
}

/// For how many seconds a result is reused unless set otherwise.
pub const DEFAULT_TTL_SECS: u64 = 30;

/// How many directories are held at most.
pub const CWD_PROJECT_CACHE_MAX: usize = 4096;

pub const NANOS_PER_SEC: u64 = 1_000_000_000;

/// The cache. Readings of the clock are nanoseconds from a fixed start.
pub struct CwdProjectCache {
    ttl_secs: u64,
    entries: DashMap<String, (Option<i32>, u64)>,
}

/// The cache as a mathematical value.
pub struct CacheView {
    pub ttl_secs: u64,
    pub entries: Map<Seq<char>, (Option<i32>, u64)>,
}

impl View for CwdProjectCache {
    type V = CacheView;

    closed spec fn view(&self) -> CacheView {
        CacheView { ttl_secs: self.ttl_secs, entries: held(self.entries) }
    }
}

/// The whole seconds that passed between two readings of the clock; none if
/// it went back.
pub open spec fn elapsed_secs(at: u64, now: u64) -> int {
    if now < at {
        0
    } else {
        (now - at) / (NANOS_PER_SEC as int)
    }
}

impl CacheView {
    /// What the cache answers: the project of a directory, where it was
    /// stored less than the time to live ago.
    pub open spec fn answer(self, cwd: Seq<char>, now: u64) -> Option<Option<i32>> {
        if self.ttl_secs > 0 && self.entries.contains_key(cwd) && elapsed_secs(
            self.entries[cwd].1,
            now,
        ) < self.ttl_secs {
            Some(self.entries[cwd].0)
        } else {
            None
        }
    }

    /// The cache after a result was stored: unchanged where caching is off;
    /// otherwise with the result, and without the older ones if it was full.
    pub open spec fn stored(self, cwd: Seq<char>, id: Option<i32>, now: u64) -> CacheView {
        if self.ttl_secs == 0 {
            self
        } else {
            let kept = if self.entries.len() >= CWD_PROJECT_CACHE_MAX {
                no_entries()
            } else {
                self.entries
            };
            CacheView { entries: kept.insert(cwd, (id, now)), ..self }
        }
    }

    /// At most the allowed number of directories is held.
    pub open spec fn wf(self) -> bool {
        &&& self.entries.dom().finite()
        &&& self.entries.len() <= CWD_PROJECT_CACHE_MAX
    }
}

impl CwdProjectCache {
    pub fn new() -> (r: CwdProjectCache)
        ensures
            r@.ttl_secs == DEFAULT_TTL_SECS,
            r@.entries == no_entries(),
            r@.wf(),
    {
        CwdProjectCache { ttl_secs: DEFAULT_TTL_SECS, entries: new_map() }
    }

    /// The cached project of a directory: `None` where it has to be looked up,
    /// `Some(None)` where it is known to have no project.
    pub fn lookup(&self, cwd: &str, now: u64) -> (r: Option<Option<i32>>)
        ensures
            r == self@.answer(cwd@, now),
    {
        if self.ttl_secs == 0 {
            return None;
        }
        match get_entry(&self.entries, cwd) {
            Some(hit) => {
                let age: u64 = if now < hit.1 {
                    0
                } else {
                    (now - hit.1) / NANOS_PER_SEC
                };
                if age < self.ttl_secs {
                    Some(hit.0)
                } else {
                    None
                }
            },
            None => None,
        }
    }

    /// Stores the project that a look-up found for a directory.
    pub fn store(&mut self, cwd: &str, id: Option<i32>, now: u64)
        requires
            old(self)@.wf(),
        ensures
            final(self)@ == old(self)@.stored(cwd@, id, now),
            final(self)@.wf(),
    {
        if self.ttl_secs == 0 {
            return;
        }
        if count_entries(&self.entries) >= CWD_PROJECT_CACHE_MAX {
            clear_entries(&mut self.entries);
        }
        put_entry(&mut self.entries, String::from_str(cwd), (id, now));
    }
}

/// Sets for how many seconds a result is reused; zero turns the cache off.
pub fn set_cwd_project_cache_ttl_secs(cache: &mut CwdProjectCache, secs: u64)
    ensures
        final(cache)@ == (CacheView { ttl_secs: secs, ..old(cache)@ }),
{
    cache.ttl_secs = secs;
}

/// What was stored is answered until the time to live has passed, and not
/// after; other directories are answered as before, or not at all.
pub proof fn law_stored_result_is_answered(
    c: CacheView,
    cwd: Seq<char>,
    id: Option<i32>,
    at: u64,
    now: u64,
    other: Seq<char>,
)
    ensures
        c.ttl_secs > 0 && elapsed_secs(at, now) < c.ttl_secs ==> c.stored(cwd, id, at).answer(
            cwd,
            now,
        ) == Some(id),
        elapsed_secs(at, now) >= c.ttl_secs ==> c.stored(cwd, id, at).answer(cwd, now) is None,
        other != cwd ==> c.stored(cwd, id, at).answer(other, now) == c.answer(other, now)
            || c.stored(cwd, id, at).answer(other, now) is None,
{
}

/// With a time to live of zero nothing is answered and nothing is stored.
pub proof fn law_zero_turns_the_cache_off(c: CacheView, cwd: Seq<char>, id: Option<i32>, now: u64)
    requires
        c.ttl_secs == 0,
    ensures
        c.answer(cwd, now) is None,
        c.stored(cwd, id, now) == c,
{
}

} // verus!
