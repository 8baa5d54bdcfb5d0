//! The cache of search result pages. An entry is good for ten minutes after
//! it was written; an entry past that age is treated as absent on every
//! read and is removed on every read and write.

use crate::text::str_eq;
use crate::workshop_item::{
    clone_enhanced, enhanced_views, EnhancedWorkshopItem, EnhancedWorkshopItemView,
};
use vstd::prelude::*;

verus! {

/// How long a search page stays good, in minutes.
pub const CACHE_DURATION_MINUTES: u64 = 10;

/// How long a search page stays good, in seconds.
pub open spec fn expiry_seconds() -> int {
    CACHE_DURATION_MINUTES as int * 60
}

/// Whether an entry written at `written` is still good when read at `now`.
/// An entry whose write time lies ahead of `now` counts as good.
pub open spec fn is_fresh(now: u64, written: u64) -> bool {
    (now as int) - (written as int) < expiry_seconds()
}

/// Everything that identifies one page of one search.
#[derive(Debug)]
pub struct SearchCacheKey {
    pub steam_game_id: u32,
    pub search_text: String,
    pub sort_by: String,
    pub period: Option<String>,
    pub page: u32,
    pub tags: Option<String>,
}

/// What a [`SearchCacheKey`] holds.
pub ghost struct SearchCacheKeyView {
    pub steam_game_id: u32,
    pub search_text: Seq<char>,
    pub sort_by: Seq<char>,
    pub period: Option<Seq<char>>,
    pub page: u32,
    pub tags: Option<Seq<char>>,
}

/// The characters of an optional string.
pub open spec fn optional_chars(text: Option<String>) -> Option<Seq<char>> {
    match text {
        Some(text) => Some(text@),
        None => None,
    }
}

impl View for SearchCacheKey {
    type V = SearchCacheKeyView;

    open spec fn view(&self) -> SearchCacheKeyView {
        SearchCacheKeyView {
            steam_game_id: self.steam_game_id,
            search_text: self.search_text@,
            sort_by: self.sort_by@,
            period: optional_chars(self.period),
            page: self.page,
            tags: optional_chars(self.tags),
        }
    }
}

/// A copy of an optional string.
fn clone_optional(text: &Option<String>) -> (out: Option<String>)
    ensures
        optional_chars(out) == optional_chars(*text),
{
    match text {
        Some(text) => Some(text.clone()),
        None => None,
    }
}

/// Whether two optional strings hold the same characters, or are both absent.
fn same_optional(a: &Option<String>, b: &Option<String>) -> (same: bool)
    ensures
        same == (optional_chars(*a) == optional_chars(*b)),
{
    match (a, b) {
        (Some(a), Some(b)) => str_eq(a.as_str(), b.as_str()),
        (None, None) => true,
        _ => false,
    }
}

impl Clone for SearchCacheKey {
    fn clone(&self) -> (out: Self)
        ensures
            out@ == self@,
    {
        SearchCacheKey {
            steam_game_id: self.steam_game_id,
            search_text: self.search_text.clone(),
            sort_by: self.sort_by.clone(),
            period: clone_optional(&self.period),
            page: self.page,
            tags: clone_optional(&self.tags),
        }
    }
}

impl SearchCacheKey {
    /// Whether two keys identify the same page of the same search.
    pub fn same_as(&self, other: &SearchCacheKey) -> (same: bool)
        ensures
            same == (self@ == other@),
    {
        self.steam_game_id == other.steam_game_id && self.page == other.page && str_eq(
            self.search_text.as_str(),
            other.search_text.as_str(),
        ) && str_eq(self.sort_by.as_str(), other.sort_by.as_str()) && same_optional(
            &self.period,
            &other.period,
        ) && same_optional(&self.tags, &other.tags)
    }
}

/// One cached page: the items in result order, and when they were written,
/// in seconds since the Unix epoch.
#[derive(Debug)]
pub struct CachedSearchResult {
    pub items: Vec<EnhancedWorkshopItem>,
    pub timestamp: u64,
}

/// What a [`CachedSearchResult`] holds.
pub ghost struct CachedSearchResultView {
    pub items: Seq<EnhancedWorkshopItemView>,
    pub timestamp: u64,
}

impl View for CachedSearchResult {
    type V = CachedSearchResultView;

    open spec fn view(&self) -> CachedSearchResultView {
        CachedSearchResultView { items: enhanced_views(self.items@), timestamp: self.timestamp }
    }
}

/// The views of a list of entries.
pub open spec fn entry_views(entries: Seq<(SearchCacheKey, CachedSearchResult)>) -> Seq<
    (SearchCacheKeyView, CachedSearchResultView),
> {
    entries.map_values(|entry: (SearchCacheKey, CachedSearchResult)| (entry.0@, entry.1@))
}

/// The map that a list of entries stands for; of two entries with one key
/// the later one counts.
pub open spec fn entries_map(pairs: Seq<(SearchCacheKeyView, CachedSearchResultView)>) -> Map<
    SearchCacheKeyView,
    CachedSearchResultView,
>
    decreases pairs.len(),
{
    if pairs.len() == 0 {
        Map::empty()
    } else {
        entries_map(pairs.drop_last()).insert(pairs.last().0, pairs.last().1)
    }
}

/// Whether no key occurs twice.
pub open spec fn distinct_keys(pairs: Seq<(SearchCacheKeyView, CachedSearchResultView)>) -> bool {
    forall|i: int, j: int|
        0 <= i < pairs.len() && 0 <= j < pairs.len() && i != j ==> (#[trigger] pairs[i]).0
            != (#[trigger] pairs[j]).0
}

/// The entries of `cached` that are still good at `now`.
pub open spec fn fresh_part(
    cached: Map<SearchCacheKeyView, CachedSearchResultView>,
    now: u64,
) -> Map<SearchCacheKeyView, CachedSearchResultView> {
    cached.restrict(
        Set::new(
            |key: SearchCacheKeyView| cached.contains_key(key) && is_fresh(now, cached[key].timestamp),
        ),
    )
}

/// A key is in the map of a list exactly when some entry has it.
pub proof fn lemma_entries_map_keys(pairs: Seq<(SearchCacheKeyView, CachedSearchResultView)>)
    ensures
        forall|key: SearchCacheKeyView|
            entries_map(pairs).contains_key(key) <==> exists|i: int|
                0 <= i < pairs.len() && (#[trigger] pairs[i]).0 == key,
    decreases pairs.len(),
{
    if pairs.len() > 0 {
        let rest = pairs.drop_last();
        lemma_entries_map_keys(rest);
        assert forall|key: SearchCacheKeyView|
            entries_map(pairs).contains_key(key) <==> exists|i: int|
                0 <= i < pairs.len() && (#[trigger] pairs[i]).0 == key by {
            if entries_map(rest).contains_key(key) {
                let i = choose|i: int| 0 <= i < rest.len() && (#[trigger] rest[i]).0 == key;
                assert(pairs[i].0 == key);
            }
            if key == pairs.last().0 {
                assert(pairs[pairs.len() - 1].0 == key);
            }
            if exists|i: int| 0 <= i < pairs.len() && (#[trigger] pairs[i]).0 == key {
                let i = choose|i: int| 0 <= i < pairs.len() && (#[trigger] pairs[i]).0 == key;
                if i < rest.len() {
                    assert(rest[i].0 == key);
                }
            }
        }
    }
}

/// Where no key occurs twice, the map of a list gives each entry's value
/// under that entry's key.
pub proof fn lemma_entries_map_values(pairs: Seq<(SearchCacheKeyView, CachedSearchResultView)>)
    requires
        distinct_keys(pairs),
    ensures
        forall|i: int|
            0 <= i < pairs.len() ==> entries_map(pairs).contains_key((#[trigger] pairs[i]).0)
                && entries_map(pairs)[pairs[i].0] == pairs[i].1,
    decreases pairs.len(),
{
    if pairs.len() > 0 {
        let rest = pairs.drop_last();
        assert(distinct_keys(rest)) by {
            assert forall|i: int, j: int|
                0 <= i < rest.len() && 0 <= j < rest.len() && i != j implies (#[trigger] rest[i]).0
                != (#[trigger] rest[j]).0 by {
                assert(pairs[i].0 != pairs[j].0);
            }
        }
        lemma_entries_map_values(rest);
        assert forall|i: int| 0 <= i < pairs.len() implies entries_map(pairs).contains_key(
            (#[trigger] pairs[i]).0,
        ) && entries_map(pairs)[pairs[i].0] == pairs[i].1 by {
            if i < rest.len() {
                assert(rest[i] == pairs[i]);
                assert(pairs[i].0 != pairs[pairs.len() - 1].0);
            }
        }
    }
}

/// The cache of search result pages.
#[derive(Debug)]
pub struct SearchCache {
    entries: Vec<(SearchCacheKey, CachedSearchResult)>,
}

impl View for SearchCache {
    type V = Map<SearchCacheKeyView, CachedSearchResultView>;

    closed spec fn view(&self) -> Map<SearchCacheKeyView, CachedSearchResultView> {
        entries_map(entry_views(self.entries@))
    }
}

/// What a lookup at `now` does to a cache and gives back: expired entries go,
/// and the page under `key` is returned exactly when it is still good.
pub open spec fn lookup_at(
    before: Map<SearchCacheKeyView, CachedSearchResultView>,
    after: Map<SearchCacheKeyView, CachedSearchResultView>,
    key: SearchCacheKeyView,
    now: u64,
    found: Option<Vec<EnhancedWorkshopItem>>,
) -> bool {
    &&& after == fresh_part(before, now)
    &&& found is Some <==> before.contains_key(key) && is_fresh(now, before[key].timestamp)
    &&& found is Some ==> enhanced_views(found->0@) == before[key].items
}

/// The cache after `items` were written under `key` at `now`: the new page
/// replaces any older one under that key, and expired entries go.
pub open spec fn written_at(
    before: Map<SearchCacheKeyView, CachedSearchResultView>,
    key: SearchCacheKeyView,
    items: Seq<EnhancedWorkshopItemView>,
    now: u64,
) -> Map<SearchCacheKeyView, CachedSearchResultView> {
    fresh_part(before.insert(key, CachedSearchResultView { items, timestamp: now }), now)
}

/// A page that the cache holds is returned by a lookup exactly when fewer
/// than 600 seconds lie between its write time and the lookup; otherwise the
/// lookup misses and the page is gone from the cache afterwards.
pub proof fn lemma_lookup_returns_page_iff_fresh(
    before: Map<SearchCacheKeyView, CachedSearchResultView>,
    after: Map<SearchCacheKeyView, CachedSearchResultView>,
    key: SearchCacheKeyView,
    now: u64,
    found: Option<Vec<EnhancedWorkshopItem>>,
)
    requires
        before.contains_key(key),
        lookup_at(before, after, key, now, found),
    ensures
        found is Some <==> (now as int) - (before[key].timestamp as int) < 600,
        found is Some ==> after.contains_key(key) && after[key] == before[key],
        found is None ==> !after.contains_key(key),
{
}

/// A page that was written is read back unchanged by any lookup made fewer
/// than 600 seconds after the write.
pub proof fn lemma_written_page_reads_back(
    before: Map<SearchCacheKeyView, CachedSearchResultView>,
    key: SearchCacheKeyView,
    items: Seq<EnhancedWorkshopItemView>,
    written: u64,
    after: Map<SearchCacheKeyView, CachedSearchResultView>,
    now: u64,
    found: Option<Vec<EnhancedWorkshopItem>>,
)
    requires
        (now as int) - (written as int) < 600,
        lookup_at(written_at(before, key, items, written), after, key, now, found),
    ensures
        found is Some,
        enhanced_views(found->0@) == items,
{
}

/// What reading the cache file at `now` gives: the file's entries without
/// those that have expired, and nothing where the file is missing or could
/// not be decoded.
pub open spec fn loaded(
    decoded: Option<Vec<(SearchCacheKey, CachedSearchResult)>>,
    now: u64,
) -> Map<SearchCacheKeyView, CachedSearchResultView> {
    match decoded {
        Some(entries) => fresh_part(entries_map(entry_views(entries@)), now),
        None => Map::empty(),
    }
}

/// `SystemTime::now`, as `SystemTime::duration_since` measures it from the
/// Unix epoch: the whole seconds, or nothing for a clock that stands before
/// the epoch. Nothing is claimed of the value: it is the machine's clock.
#[verifier::external_body]
fn clock_seconds() -> (since_epoch: Option<u64>) {
    match std::time::SystemTime::now().duration_since(std::time::UNIX_EPOCH) {
        Ok(elapsed) => Some(elapsed.as_secs()),
        Err(_) => None,
    }
}

/// The timestamp that a clock reading stands for: its seconds since the
/// epoch, and 0 for a clock that stands before the epoch.
pub fn timestamp_of(since_epoch: Option<u64>) -> (now: u64)
    ensures
        now == match since_epoch {
            Some(seconds) => seconds,
            None => 0,
        },
{
    match since_epoch {
        Some(seconds) => seconds,
        None => 0,
    }
}

impl SearchCache {
    /// Whether the cache is well formed: no key has two entries.
    pub closed spec fn wf(&self) -> bool {
        distinct_keys(entry_views(self.entries@))
    }

    /// The name of the file in the cache directory that keeps this cache.
    pub fn file_name() -> (name: &'static str)
        ensures
            name@ == "search_workshop_cache.bin"@,
    {
        "search_workshop_cache.bin"
    }

    /// A cache that holds nothing.
    pub fn new() -> (cache: Self)
        ensures
            cache.wf(),
            cache@ == Map::<SearchCacheKeyView, CachedSearchResultView>::empty(),
    {
        SearchCache { entries: Vec::new() }
    }

    /// The current time in seconds since the Unix epoch.
    pub fn current_timestamp() -> (now: u64) {
        timestamp_of(clock_seconds())
    }

    /// The position of the entry under `key`, if there is one.
    fn position(&self, key: &SearchCacheKey) -> (found: Option<usize>)
        ensures
            match found {
                Some(i) => i < self.entries@.len() && self.entries@[i as int].0@ == key@,
                None => forall|j: int| 0 <= j < self.entries@.len() ==> self.entries@[j].0@ != key@,
            },
    {
        let mut i: usize = 0;
        while i < self.entries.len()
            invariant
                i <= self.entries.len(),
                forall|j: int| 0 <= j < i ==> self.entries@[j].0@ != key@,
            decreases self.entries.len() - i,
        {
            if self.entries[i].0.same_as(key) {
                return Some(i);
            }
            i += 1;
        }
        None
    }

    /// Removes every entry that is no longer good at `now`.
    pub fn clean_expired_entries_at(&mut self, now: u64)
        requires
            old(self).wf(),
        ensures
            final(self).wf(),
            final(self)@ == fresh_part(old(self)@, now),
    {
        let mut all: Vec<(SearchCacheKey, CachedSearchResult)> = Vec::new();
        core::mem::swap(&mut self.entries, &mut all);
        let ghost source = entry_views(all@);
        let ghost mut origin: Seq<int> = Seq::empty();
        let mut kept: Vec<(SearchCacheKey, CachedSearchResult)> = Vec::new();
        for entry in it: all
            invariant
                it.seq() == all@,
                source == entry_views(all@),
                distinct_keys(source),
                origin.len() == kept@.len(),
                forall|k: int|
                    0 <= k < origin.len() ==> 0 <= #[trigger] origin[k] < it.index() && is_fresh(
                        now,
                        source[origin[k]].1.timestamp,
                    ) && (kept@[k].0@, kept@[k].1@) == source[origin[k]],
                forall|j: int, k: int|
                    0 <= j < k < origin.len() ==> #[trigger] origin[j] < #[trigger] origin[k],
                forall|i: int|
                    0 <= i < it.index() && is_fresh(now, (#[trigger] source[i]).1.timestamp)
                        ==> exists|k: int| 0 <= k < origin.len() && #[trigger] origin[k] == i,
        {
            let ghost index = it.index() as int;
            assert(source[index] == (entry.0@, entry.1@));
            if now.saturating_sub(entry.1.timestamp) < CACHE_DURATION_MINUTES * 60 {
                let ghost earlier = origin;
                kept.push(entry);
                proof {
                    origin = origin.push(index);
                    assert forall|i: int|
                        0 <= i < index + 1 && is_fresh(
                            now,
                            (#[trigger] source[i]).1.timestamp,
                        ) implies exists|k: int| 0 <= k < origin.len() && #[trigger] origin[k]
                        == i by {
                        if i < index {
                            let k = choose|k: int| 0 <= k < earlier.len() && #[trigger] earlier[k] == i;
                            assert(origin[k] == i);
                        } else {
                            assert(origin[earlier.len() as int] == i);
                        }
                    }
                }
            }
        }
        self.entries = kept;
        proof {
            let pairs = entry_views(self.entries@);
            assert forall|j: int, k: int|
                0 <= j < pairs.len() && 0 <= k < pairs.len() && j != k implies (#[trigger] pairs[j]).0
                != (#[trigger] pairs[k]).0 by {
                assert(pairs[j] == source[origin[j]]);
                assert(pairs[k] == source[origin[k]]);
                if j < k {
                    assert(origin[j] < origin[k]);
                } else {
                    assert(origin[k] < origin[j]);
                }
            }
            lemma_entries_map_keys(pairs);
            lemma_entries_map_keys(source);
            lemma_entries_map_values(pairs);
            lemma_entries_map_values(source);
            let after = entries_map(pairs);
            let before = entries_map(source);
            assert forall|key: SearchCacheKeyView| after.contains_key(key) <==> fresh_part(
                before,
                now,
            ).contains_key(key) by {
                if after.contains_key(key) {
                    let k = choose|k: int| 0 <= k < pairs.len() && (#[trigger] pairs[k]).0 == key;
                    assert(pairs[k] == source[origin[k]]);
                }
                if fresh_part(before, now).contains_key(key) {
                    let i = choose|i: int| 0 <= i < source.len() && (#[trigger] source[i]).0 == key;
                    let k = choose|k: int| 0 <= k < origin.len() && #[trigger] origin[k] == i;
                    assert(pairs[k] == source[origin[k]]);
                }
            }
            assert forall|key: SearchCacheKeyView| after.contains_key(key) implies after[key]
                == fresh_part(before, now)[key] by {
                let k = choose|k: int| 0 <= k < pairs.len() && (#[trigger] pairs[k]).0 == key;
                assert(pairs[k] == source[origin[k]]);
            }
            assert(after =~= fresh_part(before, now));
        }
    }

    /// Looks `key` up at time `now`. Expired entries are removed first; the
    /// page is returned exactly when it is less than ten minutes old.
    pub fn get_at(&mut self, key: &SearchCacheKey, now: u64) -> (found: Option<
        Vec<EnhancedWorkshopItem>,
    >)
        requires
            old(self).wf(),
        ensures
            final(self).wf(),
            lookup_at(old(self)@, final(self)@, key@, now, found),
    {
        self.clean_expired_entries_at(now);
        proof {
            lemma_entries_map_keys(entry_views(self.entries@));
            lemma_entries_map_values(entry_views(self.entries@));
        }
        match self.position(key) {
            Some(i) => {
                assert(entry_views(self.entries@)[i as int].0 == key@);
                Some(clone_enhanced(&self.entries[i].1.items))
            },
            None => {
                assert(!self@.contains_key(key@)) by {
                    if self@.contains_key(key@) {
                        let j = choose|j: int|
                            0 <= j < self.entries@.len() && (#[trigger] entry_views(
                                self.entries@,
                            )[j]).0 == key@;
                        assert(self.entries@[j].0@ == key@);
                    }
                }
                None
            },
        }
    }

    /// Writes `items` under `key` with write time `now`, replacing an older
    /// page under that key, then removes every expired entry.
    pub fn insert_at(&mut self, key: SearchCacheKey, items: Vec<EnhancedWorkshopItem>, now: u64)
        requires
            old(self).wf(),
        ensures
            final(self).wf(),
            final(self)@ == written_at(old(self)@, key@, enhanced_views(items@), now),
    {
        self.put(key, CachedSearchResult { items, timestamp: now });
        self.clean_expired_entries_at(now);
    }

    /// Removes every entry that is no longer good by the machine's clock.
    pub fn clean_expired_entries(&mut self)
        requires
            old(self).wf(),
        ensures
            final(self).wf(),
            exists|now: u64| final(self)@ == fresh_part(old(self)@, now),
    {
        let now = Self::current_timestamp();
        self.clean_expired_entries_at(now);
    }

    /// Looks `key` up by the machine's clock.
    pub fn get(&mut self, key: &SearchCacheKey) -> (found: Option<Vec<EnhancedWorkshopItem>>)
        requires
            old(self).wf(),
        ensures
            final(self).wf(),
            exists|now: u64| lookup_at(old(self)@, final(self)@, key@, now, found),
    {
        let now = Self::current_timestamp();
        self.get_at(key, now)
    }

    /// Writes `items` under `key`, stamped with the machine's clock.
    pub fn insert(&mut self, key: SearchCacheKey, items: Vec<EnhancedWorkshopItem>)
        requires
            old(self).wf(),
        ensures
            final(self).wf(),
            exists|now: u64|
                final(self)@ == written_at(old(self)@, key@, enhanced_views(items@), now),
    {
        let now = Self::current_timestamp();
        self.insert_at(key, items, now);
    }

    /// Builds a cache from the entries of a cache file. Of two entries with
    /// one key the later one counts. Nothing is removed for its age.
    pub fn from_entries(entries: Vec<(SearchCacheKey, CachedSearchResult)>) -> (cache: Self)
        ensures
            cache.wf(),
            cache@ == entries_map(entry_views(entries@)),
    {
        let mut cache = SearchCache::new();
        for entry in it: entries
            invariant
                it.seq() == entries@,
                cache.wf(),
                cache@ == entries_map(entry_views(entries@.take(it.index() as int))),
        {
            let ghost before = entry_views(entries@.take(it.index() as int));
            let ghost after = entry_views(entries@.take(it.index() + 1));
            assert(after.drop_last() =~= before);
            assert(after.last() == (entry.0@, entry.1@));
            cache.put(entry.0, entry.1);
        }
        assert(entries@.take(entries@.len() as int) =~= entries@);
        cache
    }

    /// The cache that reading the cache file gave, at time `now`.
    pub fn load_at(decoded: Option<Vec<(SearchCacheKey, CachedSearchResult)>>, now: u64) -> (cache:
        Self)
        ensures
            cache.wf(),
            cache@ == loaded(decoded, now),
    {
        match decoded {
            Some(entries) => {
                let mut cache = SearchCache::from_entries(entries);
                cache.clean_expired_entries_at(now);
                cache
            },
            None => SearchCache::new(),
        }
    }

    /// The cache that reading the cache file gave, by the machine's clock.
    pub fn load_from_disk(decoded: Option<Vec<(SearchCacheKey, CachedSearchResult)>>) -> (cache:
        Self)
        ensures
            cache.wf(),
            exists|now: u64| cache@ == loaded(decoded, now),
    {
        let now = Self::current_timestamp();
        Self::load_at(decoded, now)
    }

    /// The entries to write to the cache file: one per key.
    pub fn entries(&self) -> (entries: &Vec<(SearchCacheKey, CachedSearchResult)>)
        requires
            self.wf(),
        ensures
            distinct_keys(entry_views(entries@)),
            entries_map(entry_views(entries@)) == self@,
    {
        &self.entries
    }

    /// Stores one entry as it is, replacing an older one under its key.
    fn put(&mut self, key: SearchCacheKey, value: CachedSearchResult)
        requires
            old(self).wf(),
        ensures
            final(self).wf(),
            final(self)@ == old(self)@.insert(key@, value@),
    {
        let ghost before = entry_views(self.entries@);
        let ghost key_view = key@;
        let ghost value_view = value@;
        let place = self.position(&key);
        proof {
            lemma_entries_map_keys(before);
            lemma_entries_map_values(before);
        }
        match place {
            Some(i) => {
                self.entries.set(i, (key, value));
                proof {
                    let after = entry_views(self.entries@);
                    assert(after =~= before.update(i as int, (key_view, value_view)));
                    assert(distinct_keys(after)) by {
                        assert forall|j: int, k: int|
                            0 <= j < after.len() && 0 <= k < after.len() && j != k implies (
                        #[trigger] after[j]).0 != (#[trigger] after[k]).0 by {
                            assert(before[j].0 != before[k].0);
                        }
                    }
                    lemma_entries_map_keys(after);
                    lemma_entries_map_values(after);
                    assert forall|other: SearchCacheKeyView|
                        entries_map(after).contains_key(other) <==> entries_map(before).insert(
                            key_view,
                            value_view,
                        ).contains_key(other) by {
                        if entries_map(after).contains_key(other) {
                            let j = choose|j: int|
                                0 <= j < after.len() && (#[trigger] after[j]).0 == other;
                            assert(before[j].0 == other);
                        }
                        if entries_map(before).contains_key(other) {
                            let j = choose|j: int|
                                0 <= j < before.len() && (#[trigger] before[j]).0 == other;
                            assert(after[j].0 == other);
                        }
                        if other == key_view {
                            assert(after[i as int].0 == other);
                        }
                    }
                    assert forall|other: SearchCacheKeyView|
                        entries_map(after).contains_key(other) implies entries_map(after)[other]
                        == entries_map(before).insert(key_view, value_view)[other] by {
                        let j = choose|j: int|
                            0 <= j < after.len() && (#[trigger] after[j]).0 == other;
                        if j != i {
                            assert(after[j] == before[j]);
                            assert(before[j].0 != before[i as int].0);
                        }
                    }
                    assert(entries_map(after) =~= entries_map(before).insert(key_view, value_view));
                }
            },
            None => {
                self.entries.push((key, value));
                proof {
                    let after = entry_views(self.entries@);
                    assert(after =~= before.push((key_view, value_view)));
                    assert(after.drop_last() =~= before);
                    assert(distinct_keys(after)) by {
                        assert forall|j: int, k: int|
                            0 <= j < after.len() && 0 <= k < after.len() && j != k implies (
                        #[trigger] after[j]).0 != (#[trigger] after[k]).0 by {
                            if j < before.len() {
                                assert(after[j] == before[j]);
                                assert(before[j].0 == old(self).entries@[j].0@);
                            }
                            if k < before.len() {
                                assert(after[k] == before[k]);
                                assert(before[k].0 == old(self).entries@[k].0@);
                            }
                        }
                    }
                }
            },
        }
    }
}

} // verus!
