use vstd::prelude::*;
use vstd::string::StringExecFns;
use crate::repo::Repo;

verus! {

/// One marker: its key, the stored value and the second at which it expires.
struct Entry {
    key: String,
    value: u64,
    expires_at: u128,
}

/// The second at which a marker written at `now` with lifetime `ttl` expires.
pub open spec fn expiry(now: u64, ttl: u64) -> u128 {
    (now + ttl) as u128
}

/// The key has a marker that has not expired at second `now`.
pub open spec fn live(m: Map<Seq<char>, (u64, u128)>, key: Seq<char>, now: u64) -> bool {
    m.contains_key(key) && (now as u128) < m[key].1
}

/// A record store held in memory, driven by an explicit clock: each key maps
/// to its value and the second at which it expires.
pub struct MemoryStore {
    entries: Vec<Entry>,
    model: Ghost<Map<Seq<char>, (u64, u128)>>,
}

impl View for MemoryStore {
    type V = Map<Seq<char>, (u64, u128)>;

    closed spec fn view(&self) -> Map<Seq<char>, (u64, u128)> {
        self.model@
    }
}

impl MemoryStore {
    /// Each entry stands in the model, each key of the model has an entry,
    /// and no key has two entries.
    pub closed spec fn wf(&self) -> bool {
        &&& forall|i: int|
            0 <= i < self.entries@.len() ==> {
                let e = #[trigger] self.entries@[i];
                self.model@.contains_key(e.key@) && self.model@[e.key@] == (e.value, e.expires_at)
            }
        &&& forall|k: Seq<char>|
            #[trigger] self.model@.contains_key(k) ==> exists|i: int|
                0 <= i < self.entries@.len() && #[trigger] self.entries@[i].key@ == k
        &&& forall|i: int, j: int|
            0 <= i < j < self.entries@.len() ==> #[trigger] self.entries@[i].key@
                != #[trigger] self.entries@[j].key@
    }

    pub fn new() -> (r: MemoryStore)
        ensures
            r.wf(),
            r@ == Map::<Seq<char>, (u64, u128)>::empty(),
    {
        MemoryStore { entries: Vec::new(), model: Ghost(Map::empty()) }
    }

    fn find(&self, key: &String) -> (r: Option<usize>)
        requires
            self.wf(),
        ensures
            match r {
                Some(i) => i < self.entries@.len() && self.entries@[i as int].key@ == key@,
                None => !self@.contains_key(key@),
            },
    {
        let mut i: usize = 0;
        while i < self.entries.len()
            invariant
                self.wf(),
                i <= self.entries@.len(),
                forall|j: int| 0 <= j < i ==> self.entries@[j].key@ != key@,
            decreases self.entries.len() - i,
        {
            if self.entries[i].key == *key {
                return Some(i);
            }
            i = i + 1;
        }
        None
    }

    /// Whether `key` has a marker that is still alive at second `now`.
    pub fn contains_live(&self, key: &str, now: u64) -> (r: bool)
        requires
            self.wf(),
        ensures
            r == live(self@, key@, now),
    {
        let k = String::from_str(key);
        match self.find(&k) {
            Some(i) => (now as u128) < self.entries[i].expires_at,
            None => false,
        }
    }

    /// Writes `value` under `key` at second `now`, to live for `ttl` seconds;
    /// an earlier marker of the key is replaced.
    pub fn set_ex(&mut self, key: &str, value: u64, ttl: u64, now: u64)
        requires
            old(self).wf(),
        ensures
            final(self).wf(),
            final(self)@ == old(self)@.insert(key@, (value, expiry(now, ttl))),
    {
        let k = String::from_str(key);
        let expires_at: u128 = now as u128 + ttl as u128;
        let found = self.find(&k);
        let ghost old_entries = self.entries@;
        let ghost m = self.model@.insert(key@, (value, expires_at));
        match found {
            Some(i) => {
                self.entries.set(i, Entry { key: k, value, expires_at });
            },
            None => {
                self.entries.push(Entry { key: k, value, expires_at });
            },
        }
        self.model = Ghost(m);
        assert forall|q: Seq<char>| #[trigger] m.contains_key(q) implies exists|i: int|
            0 <= i < self.entries@.len() && #[trigger] self.entries@[i].key@ == q by {
            if q == key@ {
                match found {
                    Some(i) => {
                        assert(self.entries@[i as int].key@ == q);
                    },
                    None => {
                        assert(self.entries@[old_entries.len() as int].key@ == q);
                    },
                }
            } else {
                let i = choose|i: int|
                    0 <= i < old_entries.len() && #[trigger] old_entries[i].key@ == q;
                assert(self.entries@[i].key@ == q);
            }
        }
    }

    /// Writes the posted marker of `repo`: its key, the second of posting,
    /// and the configured time to live.
    pub fn mark_posted(&mut self, repo: &Repo, ttl: u64, now: u64)
        requires
            old(self).wf(),
        ensures
            final(self).wf(),
            final(self)@ == old(self)@.insert(repo.key_spec(), (now, expiry(now, ttl))),
    {
        let key = repo.posted_key();
        self.set_ex(key.as_str(), now, ttl, now);
    }

    /// Whether `repo` was marked posted and the marker is alive at `now`.
    pub fn is_posted(&self, repo: &Repo, now: u64) -> (r: bool)
        requires
            self.wf(),
        ensures
            r == live(self@, repo.key_spec(), now),
    {
        let key = repo.posted_key();
        self.contains_live(key.as_str(), now)
    }
}

/// Once a candidate is marked posted at second `now` with lifetime `ttl`, its
/// marker exists at every second from `now` until `ttl` seconds have passed,
/// and from then on it no longer does.
pub proof fn lemma_marker_lives_for_ttl(
    m: Map<Seq<char>, (u64, u128)>,
    repo: Repo,
    ttl: u64,
    now: u64,
    t: u64,
)
    requires
        now <= t,
    ensures
        t < now + ttl ==> live(m.insert(repo.key_spec(), (now, expiry(now, ttl))), repo.key_spec(), t),
        t >= now + ttl ==> !live(m.insert(repo.key_spec(), (now, expiry(now, ttl))), repo.key_spec(), t),
{
}

} // verus!
