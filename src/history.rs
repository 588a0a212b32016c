//! Navigation history: visited URLs with a current position, and a cache of
//! fetched pages keyed by exact URL text.

use vstd::prelude::*;
use crate::document::{Line, LineSpec, lines_view};

verus! {

/// A page that can be shown again without fetching it.
pub enum TextPage {
    Gemini(Vec<Line>),
    Plain(String),
}

pub enum TextPageSpec {
    Gemini(Seq<LineSpec>),
    Plain(Seq<char>),
}

impl View for TextPage {
    type V = TextPageSpec;

    open spec fn view(&self) -> TextPageSpec {
        match self {
            TextPage::Gemini(v) => TextPageSpec::Gemini(lines_view(v@)),
            TextPage::Plain(s) => TextPageSpec::Plain(s@),
        }
    }
}

/// Visited URLs, the position in them, and the page cache.
pub struct GeminiHistory {
    urlhistory: Vec<String>,
    current: usize,
    cache: Vec<(String, TextPage)>,
    cache_map: Ghost<Map<Seq<char>, TextPageSpec>>,
}

/// The history after visiting `url` from position `current`: entries after
/// the current one are dropped, then `url` is appended.
pub open spec fn after_insert(urls: Seq<Seq<char>>, current: nat, url: Seq<char>) -> Seq<Seq<char>> {
    if urls.len() == 0 { seq![url] } else { urls.take(current + 1 as int).push(url) }
}

/// The cache holds each URL once, and the map is exactly what it holds.
pub open spec fn cache_wf(cache: Seq<(String, TextPage)>, map: Map<Seq<char>, TextPageSpec>) -> bool {
    &&& forall|i: int, j: int| 0 <= i < j < cache.len() ==> cache[i].0@ != cache[j].0@
    &&& forall|i: int| 0 <= i < cache.len() ==> {
        &&& #[trigger] map.contains_key(cache[i].0@)
        &&& map[cache[i].0@] == cache[i].1@
    }
    &&& forall|k: Seq<char>| #[trigger] map.contains_key(k) ==>
        exists|i: int| 0 <= i < cache.len() && cache[i].0@ == k
}

/// Branch truncation: a visit made from position `current` keeps the entries
/// up to and including `current`, drops every later one, and ends with the
/// new URL.
pub proof fn branch_truncation(urls: Seq<Seq<char>>, current: nat, url: Seq<char>)
    requires
        current < urls.len(),
    ensures
        after_insert(urls, current, url).len() == current + 2,
        forall|i: int| 0 <= i <= current ==> #[trigger] after_insert(urls, current, url)[i] == urls[i],
        after_insert(urls, current, url).last() == url,
{
}

impl GeminiHistory {
    /// The visited URLs in order.
    pub closed spec fn urls(&self) -> Seq<Seq<char>> {
        self.urlhistory@.map_values(|s: String| s@)
    }

    /// The position of the current page in `urls()`.
    pub closed spec fn current_spec(&self) -> nat {
        self.current as nat
    }

    /// The cached pages by URL.
    pub closed spec fn cache_spec(&self) -> Map<Seq<char>, TextPageSpec> {
        self.cache_map@
    }

    pub closed spec fn wf(&self) -> bool {
        &&& (self.urlhistory@.len() == 0 ==> self.current == 0)
        &&& (self.urlhistory@.len() > 0 ==> self.current < self.urlhistory@.len())
        &&& cache_wf(self.cache@, self.cache_map@)
    }

    /// `current` is a valid index whenever the history is not empty.
    pub proof fn lemma_current_valid(&self)
        requires
            self.wf(),
        ensures
            self.urls().len() == 0 ==> self.current_spec() == 0,
            self.urls().len() > 0 ==> self.current_spec() < self.urls().len(),
    {
    }

    /// An empty history.
    pub fn new() -> (r: Self)
        ensures
            r.wf(),
            r.urls() == Seq::<Seq<char>>::empty(),
            r.current_spec() == 0,
            r.cache_spec() == Map::<Seq<char>, TextPageSpec>::empty(),
    {
        let r = GeminiHistory {
            urlhistory: Vec::new(),
            current: 0,
            cache: Vec::new(),
            cache_map: Ghost(Map::empty()),
        };
        assert(r.urls() =~= Seq::<Seq<char>>::empty());
        r
    }

    /// Records a visit: drops the entries after the current one, appends
    /// `url`, makes it current, and caches `page` under it.
    pub fn insert(&mut self, url: String, page: TextPage)
        requires
            old(self).wf(),
        ensures
            final(self).wf(),
            final(self).urls() == after_insert(old(self).urls(), old(self).current_spec(), url@),
            final(self).current_spec() == final(self).urls().len() - 1,
            final(self).cache_spec() == old(self).cache_spec().insert(url@, page@),
    {
        let ghost old_urls = self.urls();
        if self.urlhistory.len() > 0 {
            self.urlhistory.truncate(self.current + 1);
        }
        assert(old_urls.len() > 0 ==> self.urls() =~= old_urls.take(self.current + 1));
        let ghost mid = self.urls();
        self.urlhistory.push(url.clone());
        assert(self.urls() =~= mid.push(url@));
        self.current = self.urlhistory.len() - 1;
        let ghost old_cache = self.cache@;
        let ghost old_map = self.cache_map@;
        assert(forall|a: int, b: int| 0 <= a < b < old_cache.len() ==> old_cache[a].0@ != old_cache[b].0@);
        let mut i: usize = 0;
        while i < self.cache.len()
            invariant
                self.cache@ == old_cache,
                i <= old_cache.len(),
                forall|k: int| 0 <= k < i ==> old_cache[k].0@ != url@,
            ensures
                i <= old_cache.len(),
                forall|k: int| 0 <= k < i ==> old_cache[k].0@ != url@,
                i < old_cache.len() ==> old_cache[i as int].0@ == url@,
            decreases old_cache.len() - i,
        {
            if self.cache[i].0 == url {
                break;
            }
            i = i + 1;
        }
        self.cache_map = Ghost(old_map.insert(url@, page@));
        if i < self.cache.len() {
            self.cache.set(i, (url, page));
            assert(forall|k: int| 0 <= k < old_cache.len() && k != i ==> old_cache[k].0@ != url@);
            assert forall|k: Seq<char>| #[trigger] self.cache_map@.contains_key(k) implies
                exists|j: int| 0 <= j < self.cache@.len() && self.cache@[j].0@ == k by {
                if k != url@ {
                    let j = choose|j: int| 0 <= j < old_cache.len() && old_cache[j].0@ == k;
                    assert(self.cache@[j].0@ == k);
                } else {
                    assert(self.cache@[i as int].0@ == k);
                }
            }
        } else {
            self.cache.push((url, page));
            assert forall|k: Seq<char>| #[trigger] self.cache_map@.contains_key(k) implies
                exists|j: int| 0 <= j < self.cache@.len() && self.cache@[j].0@ == k by {
                if k != url@ {
                    let j = choose|j: int| 0 <= j < old_cache.len() && old_cache[j].0@ == k;
                    assert(self.cache@[j].0@ == k);
                } else {
                    assert(self.cache@[old_cache.len() as int].0@ == k);
                }
            }
        }
    }

    /// The visited URLs in order.
    pub fn visited(&self) -> (r: Vec<String>)
        ensures
            r@.map_values(|s: String| s@) == self.urls(),
    {
        let mut r: Vec<String> = Vec::new();
        let mut i: usize = 0;
        while i < self.urlhistory.len()
            invariant
                i <= self.urlhistory@.len(),
                r@.map_values(|s: String| s@) == self.urls().take(i as int),
            decreases self.urlhistory@.len() - i,
        {
            let ghost prev = r@.map_values(|s: String| s@);
            r.push(self.urlhistory[i].clone());
            assert(r@.map_values(|s: String| s@) =~= prev.push(self.urlhistory@[i as int]@));
            assert(self.urls().take(i + 1) =~= self.urls().take(i as int).push(self.urlhistory@[i as int]@));
            i = i + 1;
        }
        assert(self.urls().take(self.urlhistory@.len() as int) =~= self.urls());
        r
    }

    /// The cached page for exactly this URL text, if any.
    pub fn get_from_cache(&self, url: &String) -> (r: Option<&TextPage>)
        requires
            self.wf(),
        ensures
            match r {
                Some(p) => self.cache_spec().contains_key(url@) && self.cache_spec()[url@] == p@,
                None => !self.cache_spec().contains_key(url@),
            },
    {
        let mut i: usize = 0;
        while i < self.cache.len()
            invariant
                self.wf(),
                i <= self.cache@.len(),
                forall|k: int| 0 <= k < i ==> self.cache@[k].0@ != url@,
            decreases self.cache@.len() - i,
        {
            if self.cache[i].0 == *url {
                return Some(&self.cache[i].1);
            }
            i = i + 1;
        }
        None
    }

    /// The URL at the current position, `None` when nothing was visited.
    pub fn get_current_url(&self) -> (r: Option<String>)
        requires
            self.wf(),
        ensures
            self.urls().len() == 0 ==> r is None,
            self.urls().len() > 0 ==> (r matches Some(u) && u@ == self.urls()[self.current_spec() as int]),
    {
        if self.current < self.urlhistory.len() {
            Some(self.urlhistory[self.current].clone())
        } else {
            None
        }
    }

    /// Moves one entry back; `false`, changing nothing, at the first entry.
    pub fn go_back(&mut self) -> (moved: bool)
        requires
            old(self).wf(),
        ensures
            final(self).wf(),
            final(self).urls() == old(self).urls(),
            final(self).cache_spec() == old(self).cache_spec(),
            moved == (old(self).current_spec() > 0),
            !moved ==> *final(self) == *old(self),
            final(self).current_spec() == if moved { old(self).current_spec() - 1 } else { old(self).current_spec() as int },
    {
        if self.current > 0 {
            self.current = self.current - 1;
            true
        } else {
            false
        }
    }

    /// Moves one entry forward; `false`, changing nothing, at the last entry.
    pub fn go_forwards(&mut self) -> (moved: bool)
        requires
            old(self).wf(),
        ensures
            final(self).wf(),
            final(self).urls() == old(self).urls(),
            final(self).cache_spec() == old(self).cache_spec(),
            moved == (old(self).current_spec() + 1 < old(self).urls().len()),
            !moved ==> *final(self) == *old(self),
            final(self).current_spec() == if moved { old(self).current_spec() + 1 as int } else { old(self).current_spec() as int },
    {
        if self.urlhistory.len() > 0 && self.current < self.urlhistory.len() - 1 {
            self.current = self.current + 1;
            true
        } else {
            false
        }
    }
}

} // verus!
