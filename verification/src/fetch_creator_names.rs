//! Resolving account ids to display names through the name cache.

use crate::fx_map::{fx_contains_key, fx_get, fx_insert, fx_new};
use crate::text::str_eq;
use crate::workshop_item::{
    enhanced_views, EnhancedWorkshopItem, EnhancedWorkshopItemView, WorkshopItem,
};
use crate::workshop_items::{lacks, missing_ids};
use rustc_hash::FxHashMap;
use vstd::prelude::*;

verus! {

/// The name cache: the display name of every account seen so far, under the
/// account's id. Entries never expire.
#[derive(Debug)]
pub struct CreatorNameCache {
    pub names: FxHashMap<u64, String>,
}

/// What to do next to resolve a list of account ids.
#[derive(Debug)]
pub enum NamesStep {
    /// Every id was cached (or none was asked for): the names.
    Done(FxHashMap<u64, String>),
    /// These ids are not cached and have to be asked for: the uncached ids of
    /// the request, each once, in the order in which they first occur.
    Fetch(Vec<u64>),
}

/// How long the worker waits for unknown names to arrive, in milliseconds.
pub const NAME_WAIT_MILLIS: u64 = 2000;

/// The pause between two looks at the unknown names, in milliseconds.
pub const NAME_POLL_MILLIS: u64 = 50;

/// The name cache after each fetched pair was written to it, first to last.
pub open spec fn stored_names(cached: Map<u64, String>, fetched: Seq<(u64, String)>) -> Map<
    u64,
    String,
>
    decreases fetched.len(),
{
    if fetched.len() == 0 {
        cached
    } else {
        stored_names(cached, fetched.drop_last()).insert(fetched.last().0, fetched.last().1)
    }
}

/// `s` without the later occurrences of each element.
pub open spec fn first_occurrences(s: Seq<u64>) -> Seq<u64>
    decreases s.len(),
{
    if s.len() == 0 {
        s
    } else if s.drop_last().contains(s.last()) {
        first_occurrences(s.drop_last())
    } else {
        first_occurrences(s.drop_last()).push(s.last())
    }
}

/// The placeholder that the service gives for an account whose name it has
/// not loaded yet.
pub open spec fn unknown_name() -> Seq<char> {
    "[unknown]"@
}

/// The name shown for the owner of an item: the resolved name, or the
/// placeholder where none was resolved.
pub open spec fn shown_name(names: Map<u64, String>, owner: u64) -> Seq<char> {
    if names.contains_key(owner) {
        names[owner]@
    } else {
        unknown_name()
    }
}

/// Each item paired with the name shown for its owner, in order.
pub open spec fn named_items(items: Seq<WorkshopItem>, names: Map<u64, String>) -> Seq<
    EnhancedWorkshopItemView,
> {
    Seq::new(
        items.len(),
        |k: int|
            EnhancedWorkshopItemView {
                workshop_item: items[k]@,
                creator_name: shown_name(names, items[k].owner.steam_id64),
            },
    )
}

/// The ids under which `fetched` would be stored.
pub open spec fn fetched_name_ids(fetched: Seq<(u64, String)>) -> Set<u64> {
    Set::new(|id: u64| exists|k: int| 0 <= k < fetched.len() && #[trigger] fetched[k].0 == id)
}

impl CreatorNameCache {
    /// The name of the file in the cache directory that keeps this cache.
    pub fn file_name() -> (name: &'static str)
        ensures
            name@ == "creator_names_cache.bin"@,
    {
        "creator_names_cache.bin"
    }

    /// A cache that holds nothing.
    pub fn new() -> (cache: Self)
        ensures
            cache.names@.dom() == Set::<u64>::empty(),
    {
        CreatorNameCache { names: fx_new() }
    }

    /// The cache that reading the cache file gave: what the file held, and
    /// nothing where the file is missing or could not be decoded.
    pub fn load(decoded: Option<FxHashMap<u64, String>>) -> (cache: Self)
        ensures
            match decoded {
                Some(names) => cache.names == names,
                None => cache.names@.dom() == Set::<u64>::empty(),
            },
    {
        match decoded {
            Some(names) => CreatorNameCache { names },
            None => CreatorNameCache::new(),
        }
    }
}

/// First occurrences contain exactly the elements of the sequence, each once.
pub proof fn lemma_first_occurrences(s: Seq<u64>)
    ensures
        first_occurrences(s).no_duplicates(),
        forall|id: u64| first_occurrences(s).contains(id) <==> s.contains(id),
    decreases s.len(),
{
    if s.len() > 0 {
        let rest = s.drop_last();
        let unique = first_occurrences(rest);
        lemma_first_occurrences(rest);
        assert(s =~= rest.push(s.last()));
        assert forall|id: u64| first_occurrences(s).contains(id) <==> s.contains(id) by {
            vstd::seq_lib::lemma_seq_contains_after_push(rest, s.last(), id);
            vstd::seq_lib::lemma_seq_contains_after_push(unique, s.last(), id);
        }
        if !rest.contains(s.last()) {
            assert(!unique.contains(s.last()));
            assert forall|j: int, k: int|
                0 <= j < unique.len() + 1 && 0 <= k < unique.len() + 1 && j != k implies unique.push(
                s.last(),
            )[j] != unique.push(s.last())[k] by {
                if j < unique.len() && k < unique.len() {
                } else if j < unique.len() {
                    assert(unique.contains(unique[j]));
                } else {
                    assert(unique.contains(unique[k]));
                }
            }
        }
    }
}

/// Whether `ids` holds `id`.
fn contains_id(ids: &Vec<u64>, id: u64) -> (found: bool)
    ensures
        found == ids@.contains(id),
{
    let mut i: usize = 0;
    while i < ids.len()
        invariant
            i <= ids.len(),
            forall|j: int| 0 <= j < i ==> ids@[j] != id,
        decreases ids.len() - i,
    {
        if ids[i] == id {
            return true;
        }
        i += 1;
    }
    false
}

/// The requested ids that the cache lacks, each once, in the order in which
/// they first occur in the request.
pub fn names_to_fetch(creator_ids: &Vec<u64>, cache: &CreatorNameCache) -> (ids: Vec<u64>)
    ensures
        ids@ == first_occurrences(missing_ids(creator_ids@, cache.names@.dom())),
{
    let mut missing: Vec<u64> = Vec::new();
    let mut ids: Vec<u64> = Vec::new();
    let mut i: usize = 0;
    while i < creator_ids.len()
        invariant
            i <= creator_ids.len(),
            missing@ == missing_ids(creator_ids@.take(i as int), cache.names@.dom()),
            ids@ == first_occurrences(missing@),
        decreases creator_ids.len() - i,
    {
        let id = creator_ids[i];
        proof {
            assert(creator_ids@.take(i + 1) =~= creator_ids@.take(i as int).push(id));
            creator_ids@.take(i as int).lemma_filter_push(id, lacks(cache.names@.dom()));
        }
        if !fx_contains_key(&cache.names, id) {
            let ghost before = missing@;
            let seen = contains_id(&missing, id);
            missing.push(id);
            assert(missing@.drop_last() =~= before);
            if !seen {
                ids.push(id);
            }
        }
        i += 1;
    }
    assert(creator_ids@.take(creator_ids@.len() as int) =~= creator_ids@);
    ids
}

/// The cached names of the requested ids.
pub fn cached_names(creator_ids: &Vec<u64>, cache: &CreatorNameCache) -> (names: FxHashMap<
    u64,
    String,
>)
    ensures
        names@ == cache.names@.restrict(creator_ids@.to_set()),
{
    let mut names: FxHashMap<u64, String> = fx_new();
    assert(names@ =~= cache.names@.restrict(creator_ids@.take(0).to_set()));
    let mut i: usize = 0;
    while i < creator_ids.len()
        invariant
            i <= creator_ids.len(),
            names@ == cache.names@.restrict(creator_ids@.take(i as int).to_set()),
        decreases creator_ids.len() - i,
    {
        let id = creator_ids[i];
        let ghost before = creator_ids@.take(i as int);
        proof {
            assert(creator_ids@.take(i + 1) =~= before.push(id));
            before.lemma_push_to_set_commute(id);
        }
        match fx_get(&cache.names, id) {
            Some(name) => {
                fx_insert(&mut names, id, name.clone());
            },
            None => {},
        }
        assert(names@ =~= cache.names@.restrict(before.to_set().insert(id)));
        i += 1;
    }
    assert(creator_ids@.take(creator_ids@.len() as int) =~= creator_ids@);
    names
}

/// Writes each fetched name to the cache under its id; of two fetched names
/// for one id the later one stays.
pub fn store_names(cache: &mut CreatorNameCache, fetched: Vec<(u64, String)>)
    ensures
        final(cache).names@ == stored_names(old(cache).names@, fetched@),
{
    for pair in it: fetched
        invariant
            it.seq() == fetched@,
            cache.names@ == stored_names(old(cache).names@, fetched@.take(it.index() as int)),
    {
        assert(fetched@.take(it.index() + 1).drop_last() =~= fetched@.take(it.index() as int));
        fx_insert(&mut cache.names, pair.0, pair.1);
    }
    assert(fetched@.take(fetched@.len() as int) =~= fetched@);
}

/// The first decision when names are asked for: answer from the cache when it
/// holds every requested id, else name the ids to ask the service for.
pub fn fetch_creator_names(creator_ids: &Vec<u64>, cache: &CreatorNameCache) -> (step: NamesStep)
    ensures
        match step {
            NamesStep::Done(names) => {
                &&& missing_ids(creator_ids@, cache.names@.dom()).len() == 0
                &&& names@ == cache.names@.restrict(creator_ids@.to_set())
            },
            NamesStep::Fetch(ids) => {
                &&& ids@.len() > 0
                &&& ids@ == first_occurrences(missing_ids(creator_ids@, cache.names@.dom()))
            },
        },
{
    let ids = names_to_fetch(creator_ids, cache);
    proof {
        let missing = missing_ids(creator_ids@, cache.names@.dom());
        lemma_first_occurrences(missing);
        if missing.len() > 0 {
            assert(missing.contains(missing[0]));
            assert(first_occurrences(missing).contains(missing[0]));
        }
    }
    if ids.len() == 0 {
        NamesStep::Done(cached_names(creator_ids, cache))
    } else {
        NamesStep::Fetch(ids)
    }
}

/// The second decision, once the service gave its names: they enter the
/// cache, and the answer holds the cache's name for every requested id that
/// it now knows.
pub fn fetch_creator_names_fetched(
    creator_ids: &Vec<u64>,
    cache: &mut CreatorNameCache,
    fetched: Vec<(u64, String)>,
) -> (names: FxHashMap<u64, String>)
    ensures
        final(cache).names@ == stored_names(old(cache).names@, fetched@),
        names@ == final(cache).names@.restrict(creator_ids@.to_set()),
{
    store_names(cache, fetched);
    cached_names(creator_ids, cache)
}

/// Whether the service has not loaded this name yet.
pub fn is_unknown_name(name: &str) -> (unknown: bool)
    ensures
        unknown == (name@ == unknown_name()),
{
    str_eq(name, "[unknown]")
}

/// Whether the worker goes on waiting for names: some are still unknown and
/// the wait has not run out.
pub fn keep_waiting_for_names(unknown_left: usize, elapsed_millis: u64) -> (wait: bool)
    ensures
        wait == (unknown_left > 0 && elapsed_millis < NAME_WAIT_MILLIS),
{
    unknown_left > 0 && elapsed_millis < NAME_WAIT_MILLIS
}

/// The account ids that own `items`, one per item, in order.
pub fn creator_ids(items: &Vec<WorkshopItem>) -> (ids: Vec<u64>)
    ensures
        ids@ == items@.map_values(|item: WorkshopItem| item.owner.steam_id64),
{
    let mut ids: Vec<u64> = Vec::new();
    let mut i: usize = 0;
    while i < items.len()
        invariant
            i <= items.len(),
            ids@ == items@.take(i as int).map_values(|item: WorkshopItem| item.owner.steam_id64),
        decreases items.len() - i,
    {
        ids.push(items[i].owner.steam_id64);
        assert(ids@ =~= items@.take(i + 1).map_values(
            |item: WorkshopItem| item.owner.steam_id64,
        ));
        i += 1;
    }
    assert(items@.take(items@.len() as int) =~= items@);
    ids
}

/// Pairs each item with the name shown for its owner, in order.
pub fn with_creator_names(items: Vec<WorkshopItem>, names: &FxHashMap<u64, String>) -> (out: Vec<
    EnhancedWorkshopItem,
>)
    ensures
        out@.len() == items@.len(),
        forall|k: int|
            0 <= k < out@.len() ==> {
                &&& (#[trigger] out@[k]).workshop_item == items@[k]
                &&& out@[k].creator_name@ == shown_name(names@, items@[k].owner.steam_id64)
            },
        enhanced_views(out@) == named_items(items@, names@),
{
    let mut out: Vec<EnhancedWorkshopItem> = Vec::new();
    for item in it: items
        invariant
            it.seq() == items@,
            out@.len() == it.index(),
            forall|k: int|
                0 <= k < out@.len() ==> {
                    &&& (#[trigger] out@[k]).workshop_item == items@[k]
                    &&& out@[k].creator_name@ == shown_name(names@, items@[k].owner.steam_id64)
                },
    {
        let name = match fx_get(names, item.owner.steam_id64) {
            Some(name) => name.clone(),
            None => "[unknown]".to_string(),
        };
        out.push(EnhancedWorkshopItem::new(item, name));
    }
    assert(enhanced_views(out@) =~= named_items(items@, names@));
    out
}

} // verus!
