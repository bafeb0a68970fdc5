use vstd::prelude::*;
use vstd::hash_map::StringHashMap;
use vstd::string::*;
use crate::text::str_is;

verus! {

/// How long an uploaded cover stays usable: three days, in seconds.
pub const CACHE_MAX_AGE: u64 = 259200;

/// A cover image uploaded to Litterbox, and when (in seconds since the Unix epoch).
pub struct LitterboxImage {
    url: String,
    uploaded_at: u64,
}

impl View for LitterboxImage {
    type V = (Seq<char>, u64);

    closed spec fn view(&self) -> (Seq<char>, u64) {
        (self.url@, self.uploaded_at)
    }
}

impl LitterboxImage {
    pub fn new(url: String, uploaded_at: u64) -> (r: LitterboxImage)
        ensures
            r@ == (url@, uploaded_at),
    {
        LitterboxImage { url, uploaded_at }
    }

    pub fn url(&self) -> (r: &String)
        ensures
            r@ == self@.0,
    {
        &self.url
    }

    pub fn uploaded_at(&self) -> (r: u64)
        ensures
            r == self@.1,
    {
        self.uploaded_at
    }
}

/// The uploaded covers, by title id: a map, and the list of its title ids
/// (each once) so that the cache can be written out.
pub struct LitterboxCache {
    map: StringHashMap<LitterboxImage>,
    titles: Vec<String>,
}

/// The map from title id to (URL, upload time) that a map of covers holds.
pub open spec fn images_view(m: Map<Seq<char>, LitterboxImage>) -> Map<Seq<char>, (Seq<char>, u64)> {
    Map::new(|k: Seq<char>| m.dom().contains(k), |k: Seq<char>| m[k]@)
}

/// The title ids of `titles` are distinct and are exactly the keys of `m`.
pub open spec fn titles_match<V>(titles: Seq<String>, m: Map<Seq<char>, V>) -> bool {
    &&& forall|i: int, j: int|
        0 <= i < titles.len() && 0 <= j < titles.len() && #[trigger] titles[i]@ == #[trigger] titles[j]@
            ==> i == j
    &&& forall|i: int| 0 <= i < titles.len() ==> m.contains_key(#[trigger] titles[i]@)
    &&& forall|k: Seq<char>| #[trigger] m.contains_key(k) ==> exists|i: int| 0 <= i < titles.len() && titles[i]@ == k
}

/// What a lookup of `titleid` at time `now` returns: the URL of an entry
/// younger than `CACHE_MAX_AGE`, and nothing otherwise.
pub open spec fn spec_lookup(m: Map<Seq<char>, (Seq<char>, u64)>, titleid: Seq<char>, now: u64) -> Option<Seq<char>> {
    if m.contains_key(titleid) && now - m[titleid].1 < CACHE_MAX_AGE {
        Some(m[titleid].0)
    } else {
        None
    }
}

/// The cache after a lookup of `titleid` at time `now`: an entry that has
/// expired is dropped, and nothing else changes.
pub open spec fn spec_after_lookup(m: Map<Seq<char>, (Seq<char>, u64)>, titleid: Seq<char>, now: u64) -> Map<Seq<char>, (Seq<char>, u64)> {
    if m.contains_key(titleid) && now - m[titleid].1 >= CACHE_MAX_AGE {
        m.remove(titleid)
    } else {
        m
    }
}

/// A lookup can be made at `now` without going back in time before the entry's upload.
pub open spec fn lookup_allowed(m: Map<Seq<char>, (Seq<char>, u64)>, titleid: Seq<char>, now: u64) -> bool {
    m.contains_key(titleid) ==> m[titleid].1 <= now
}

impl View for LitterboxCache {
    type V = Map<Seq<char>, (Seq<char>, u64)>;

    closed spec fn view(&self) -> Map<Seq<char>, (Seq<char>, u64)> {
        images_view(self.map@)
    }
}

/// The position of `titleid` in `titles`, if it is there.
fn position_of(titles: &Vec<String>, titleid: &str) -> (r: Option<usize>)
    ensures
        r matches Some(i) ==> i < titles@.len() && titles@[i as int]@ == titleid@,
        r is None ==> forall|j: int| 0 <= j < titles@.len() ==> titles@[j]@ != titleid@,
{
    let mut i: usize = 0;
    while i < titles.len()
        invariant
            i <= titles@.len(),
            forall|j: int| 0 <= j < i ==> titles@[j]@ != titleid@,
        decreases titles@.len() - i,
    {
        if str_is(titles[i].as_str(), titleid) {
            return Some(i);
        }
        i = i + 1;
    }
    None
}

impl LitterboxCache {
    #[verifier::type_invariant]
    closed spec fn titles_listed(self) -> bool {
        titles_match(self.titles@, self.map@)
    }

    /// An empty cache.
    pub fn new() -> (r: LitterboxCache)
        ensures
            r@ == Map::<Seq<char>, (Seq<char>, u64)>::empty(),
    {
        let r = LitterboxCache { map: StringHashMap::new(), titles: Vec::new() };
        assert(r@ =~= Map::<Seq<char>, (Seq<char>, u64)>::empty());
        r
    }

    /// The number of cached covers.
    pub fn len(&self) -> (r: usize)
        ensures
            r == self@.len(),
    {
        assert(self@.dom() =~= self.map@.dom());
        self.map.len()
    }

    /// The cached cover of a title id, whatever its age.
    pub fn entry(&self, titleid: &str) -> (r: Option<&LitterboxImage>)
        ensures
            r is None ==> !self@.contains_key(titleid@),
            r matches Some(e) ==> self@.contains_key(titleid@) && self@[titleid@] == e@,
    {
        self.map.get(titleid)
    }

    /// The title ids of all cached covers, each once.
    pub fn titles(&self) -> (r: &Vec<String>)
        ensures
            forall|i: int, j: int|
                0 <= i < r@.len() && 0 <= j < r@.len() && #[trigger] r@[i]@ == #[trigger] r@[j]@ ==> i == j,
            forall|i: int| 0 <= i < r@.len() ==> self@.contains_key(#[trigger] r@[i]@),
            forall|k: Seq<char>| #[trigger] self@.contains_key(k) ==> exists|i: int| 0 <= i < r@.len() && r@[i]@ == k,
    {
        proof {
            use_type_invariant(self);
        }
        &self.titles
    }
}

/// Looks up the cover uploaded for a title id. A cover younger than
/// `CACHE_MAX_AGE` is returned; an older one is dropped from the cache.
pub fn get_litterbox_image(cache: &mut LitterboxCache, titleid: &str, now: u64) -> (r: Option<String>)
    requires
        lookup_allowed(old(cache)@, titleid@, now),
    ensures
        r matches Some(u) ==> spec_lookup(old(cache)@, titleid@, now) == Some(u@),
        r is None ==> spec_lookup(old(cache)@, titleid@, now) is None,
        final(cache)@ == spec_after_lookup(old(cache)@, titleid@, now),
{
    let uploaded_at = match cache.map.get(titleid) {
        None => return None,
        Some(image) => {
            if now - image.uploaded_at < CACHE_MAX_AGE {
                return Some(image.url.clone());
            }
            image.uploaded_at
        },
    };
    proof {
        use_type_invariant(&*cache);
    }
    let mut taken = LitterboxCache::new();
    std::mem::swap(&mut taken, cache);
    let LitterboxCache { mut map, mut titles } = taken;
    let ghost k = titleid@;
    let ghost old_map = map@;
    let ghost old_titles = titles@;
    map.remove(titleid);
    match position_of(&titles, titleid) {
        Some(i) => {
            titles.remove(i);
            proof {
                let t = titles@;
                assert(t =~= old_titles.remove(i as int));
                assert forall|a: int, b: int|
                    0 <= a < t.len() && 0 <= b < t.len() && #[trigger] t[a]@ == #[trigger] t[b]@ implies a == b by {
                    let a2 = if a < i { a } else { a + 1 };
                    let b2 = if b < i { b } else { b + 1 };
                    assert(t[a] == old_titles[a2]);
                    assert(t[b] == old_titles[b2]);
                }
                assert forall|a: int| 0 <= a < t.len() implies map@.contains_key(#[trigger] t[a]@) by {
                    let a2 = if a < i { a } else { a + 1 };
                    assert(t[a] == old_titles[a2]);
                    assert(a2 != i);
                    assert(old_map.contains_key(t[a]@));
                }
                assert forall|kk: Seq<char>| #[trigger] map@.contains_key(kk) implies exists|a: int|
                    0 <= a < t.len() && t[a]@ == kk by {
                    assert(old_map.contains_key(kk));
                    let b = choose|b: int| 0 <= b < old_titles.len() && old_titles[b]@ == kk;
                    assert(b != i);
                    let b2 = if b < i { b } else { b - 1 };
                    assert(t[b2] == old_titles[b]);
                }
            }
        },
        None => {
            proof {
                assert(old_map.contains_key(k));
                let b = choose|b: int| 0 <= b < old_titles.len() && old_titles[b]@ == k;
                assert(old_titles[b]@ == k);
            }
        },
    }
    *cache = LitterboxCache { map, titles };
    proof {
        assert(cache@ =~= images_view(old_map).remove(k));
    }
    None
}

/// Records the cover uploaded for a title id at time `now`, replacing any earlier one.
pub fn insert_litterbox_cache(cache: &mut LitterboxCache, titleid: &str, url: &str, now: u64)
    ensures
        final(cache)@ == old(cache)@.insert(titleid@, (url@, now)),
{
    proof {
        use_type_invariant(&*cache);
    }
    let image = LitterboxImage { url: String::from_str(url), uploaded_at: now };
    let mut taken = LitterboxCache::new();
    std::mem::swap(&mut taken, cache);
    let LitterboxCache { mut map, mut titles } = taken;
    let ghost k = titleid@;
    let ghost old_map = map@;
    let ghost old_titles = titles@;
    if !map.contains_key(titleid) {
        titles.push(String::from_str(titleid));
        proof {
            let t = titles@;
            let n = old_titles.len() as int;
            assert(t =~= old_titles.push(t[n]));
            assert forall|a: int, b: int|
                0 <= a < t.len() && 0 <= b < t.len() && #[trigger] t[a]@ == #[trigger] t[b]@ implies a == b by {
                if a < n {
                    assert(t[a] == old_titles[a]);
                }
                if b < n {
                    assert(t[b] == old_titles[b]);
                }
            }
            assert forall|kk: Seq<char>| #[trigger] old_map.contains_key(kk) implies exists|a: int|
                0 <= a < t.len() && t[a]@ == kk by {
                let b = choose|b: int| 0 <= b < old_titles.len() && old_titles[b]@ == kk;
                assert(t[b] == old_titles[b]);
            }
        }
    }
    let ghost v = image@;
    map.insert(String::from_str(titleid), image);
    proof {
        let t = titles@;
        assert(map@ == old_map.insert(k, map@[k]));
        assert forall|a: int| 0 <= a < t.len() implies map@.contains_key(#[trigger] t[a]@) by {
            if a < old_titles.len() {
                assert(t[a] == old_titles[a]);
            }
        }
        assert forall|kk: Seq<char>| #[trigger] map@.contains_key(kk) implies exists|a: int|
            0 <= a < t.len() && t[a]@ == kk by {
            if kk == k {
                if old_map.contains_key(k) {
                    let b = choose|b: int| 0 <= b < old_titles.len() && old_titles[b]@ == kk;
                    assert(t[b] == old_titles[b]);
                } else {
                    assert(t[old_titles.len() as int]@ == k);
                }
            } else {
                assert(old_map.contains_key(kk));
                let b = choose|b: int| 0 <= b < old_titles.len() && old_titles[b]@ == kk;
                assert(t[b] == old_titles[b]);
            }
        }
    }
    *cache = LitterboxCache { map, titles };
    proof {
        assert(cache@ =~= images_view(old_map).insert(k, v));
    }
}

/// A cover stored at time `t` is given back, and kept, by a lookup at any
/// time `now` from `t` until `CACHE_MAX_AGE` seconds later.
pub proof fn law_lookup_after_insert(
    m: Map<Seq<char>, (Seq<char>, u64)>,
    titleid: Seq<char>,
    url: Seq<char>,
    t: u64,
    now: u64,
)
    requires
        t <= now,
        now - t < CACHE_MAX_AGE,
    ensures
        lookup_allowed(m.insert(titleid, (url, t)), titleid, now),
        spec_lookup(m.insert(titleid, (url, t)), titleid, now) == Some(url),
        spec_after_lookup(m.insert(titleid, (url, t)), titleid, now) == m.insert(titleid, (url, t)),
{
}

/// A lookup never gives back a cover that is `CACHE_MAX_AGE` seconds old or
/// older, and it drops such a cover from the cache.
pub proof fn law_lookup_drops_expired(m: Map<Seq<char>, (Seq<char>, u64)>, titleid: Seq<char>, now: u64)
    requires
        lookup_allowed(m, titleid, now),
    ensures
        spec_lookup(m, titleid, now) matches Some(u) ==> m.contains_key(titleid) && m[titleid].0
            == u && now < m[titleid].1 + CACHE_MAX_AGE,
        m.contains_key(titleid) && now >= m[titleid].1 + CACHE_MAX_AGE ==> spec_lookup(m, titleid, now) is None
            && !spec_after_lookup(m, titleid, now).contains_key(titleid),
{
}

/// Looking a title id up twice at the same time gives the same answer as
/// looking it up once, and leaves the cache as the first lookup left it.
pub proof fn law_lookup_idempotent(m: Map<Seq<char>, (Seq<char>, u64)>, titleid: Seq<char>, now: u64)
    requires
        lookup_allowed(m, titleid, now),
    ensures
        lookup_allowed(spec_after_lookup(m, titleid, now), titleid, now),
        spec_lookup(spec_after_lookup(m, titleid, now), titleid, now) == spec_lookup(m, titleid, now),
        spec_after_lookup(spec_after_lookup(m, titleid, now), titleid, now) == spec_after_lookup(
            m,
            titleid,
            now,
        ),
{
}

/// Looking up or storing the cover of one title id leaves the covers of all
/// other title ids as they were.
pub proof fn law_other_titles_untouched(
    m: Map<Seq<char>, (Seq<char>, u64)>,
    titleid: Seq<char>,
    other: Seq<char>,
    url: Seq<char>,
    now: u64,
)
    requires
        other != titleid,
    ensures
        spec_after_lookup(m, titleid, now).contains_key(other) == m.contains_key(other),
        m.contains_key(other) ==> spec_after_lookup(m, titleid, now)[other] == m[other],
        m.insert(titleid, (url, now)).contains_key(other) == m.contains_key(other),
        m.contains_key(other) ==> m.insert(titleid, (url, now))[other] == m[other],
{
}

} // verus!
