//! Looking items up by id through the item cache: which ids still have to be
//! fetched, how fetched items enter the cache, and how the answer is put
//! together in the order the caller asked in.

use crate::order::{keeps_order, lemma_filter_keeps_order};
use crate::fx_map::{fx_contains_key, fx_get, fx_insert, fx_new};
use crate::text::str_eq;
use crate::workshop_item::{item_views, WorkshopItem, WorkshopItemView, WorkshopItemsResult};
use rustc_hash::FxHashMap;
use vstd::prelude::*;

verus! {

/// The item cache: every item seen so far, under its id. Entries never expire.
#[derive(Debug)]
pub struct WorkshopItemCache {
    pub items: FxHashMap<u64, WorkshopItem>,
}

/// What to do next for a batch lookup.
#[derive(Debug)]
pub enum ItemsStep {
    /// Every requested id was cached (or none was requested): the answer.
    Done(Vec<WorkshopItem>),
    /// These ids are not cached and have to be fetched, in this order.
    Fetch(Vec<u64>),
}

/// The test "is not in `cached`".
pub open spec fn lacks(cached: Set<u64>) -> spec_fn(u64) -> bool {
    |id: u64| !cached.contains(id)
}

/// The test "is in `cached`".
pub open spec fn holds(cached: Set<u64>) -> spec_fn(u64) -> bool {
    |id: u64| cached.contains(id)
}

/// The ids of `ids` that `cached` lacks, in order.
pub open spec fn missing_ids(ids: Seq<u64>, cached: Set<u64>) -> Seq<u64> {
    ids.filter(lacks(cached))
}

/// The ids of `ids` that `cached` holds, in order.
pub open spec fn found_ids(ids: Seq<u64>, cached: Set<u64>) -> Seq<u64> {
    ids.filter(holds(cached))
}

/// The cached items for `ids`, in the order of `ids`; ids without an entry are
/// left out.
pub open spec fn found_items(ids: Seq<u64>, cached: Map<u64, WorkshopItem>) -> Seq<WorkshopItem> {
    found_ids(ids, cached.dom()).map_values(|id: u64| cached[id])
}

/// Whether an item is public community content.
pub open spec fn is_community(item: WorkshopItem) -> bool {
    item.file_type@ == "Community"@
}

/// The items of a fetched page that are present and are community content, in
/// order.
pub open spec fn community(slots: Seq<Option<WorkshopItem>>) -> Seq<WorkshopItem> {
    slots.filter_map(keep_community())
}

/// Keeps a slot's item where it is present and is community content.
pub open spec fn keep_community() -> spec_fn(Option<WorkshopItem>) -> Option<WorkshopItem> {
    |slot: Option<WorkshopItem>|
        match slot {
            Some(item) => if is_community(item) {
                Some(item)
            } else {
                None
            },
            None => None,
        }
}

/// The cache after each of `fetched` was stored under its id, first to last.
pub open spec fn stored(cached: Map<u64, WorkshopItem>, fetched: Seq<WorkshopItem>) -> Map<
    u64,
    WorkshopItem,
>
    decreases fetched.len(),
{
    if fetched.len() == 0 {
        cached
    } else {
        stored(cached, fetched.drop_last()).insert(
            fetched.last().published_file_id,
            fetched.last(),
        )
    }
}

/// Whether every entry stands under its item's own id.
pub open spec fn keyed_by_id(cached: Map<u64, WorkshopItem>) -> bool {
    forall|id: u64| cached.contains_key(id) ==> (#[trigger] cached[id]).published_file_id == id
}

/// Whether each item of an answer holds the id that was asked for at its
/// place: the answer has one item for each requested id that is known, and
/// the k-th item holds the k-th of those ids.
pub open spec fn answers_ids(items: Seq<WorkshopItem>, ids: Seq<u64>, known: Set<u64>) -> bool {
    &&& items.len() == found_ids(ids, known).len()
    &&& forall|k: int|
        0 <= k < items.len() ==> (#[trigger] items[k]).published_file_id == found_ids(ids, known)[k]
}

/// The views of a cache's entries.
pub open spec fn cache_views(cached: Map<u64, WorkshopItem>) -> Map<u64, WorkshopItemView> {
    cached.map_values(|item: WorkshopItem| item@)
}

impl WorkshopItemCache {
    /// The name of the file in the cache directory that keeps this cache.
    pub fn file_name() -> (name: &'static str)
        ensures
            name@ == "workshop_items_cache.bin"@,
    {
        "workshop_items_cache.bin"
    }

    /// A cache that holds nothing.
    pub fn new() -> (cache: Self)
        ensures
            cache.items@.dom() == Set::<u64>::empty(),
    {
        WorkshopItemCache { items: fx_new() }
    }

    /// The cache that reading the cache file gave: what the file held, and
    /// nothing where the file is missing or could not be decoded.
    pub fn load(decoded: Option<FxHashMap<u64, WorkshopItem>>) -> (cache: Self)
        ensures
            match decoded {
                Some(items) => cache.items == items,
                None => cache.items@.dom() == Set::<u64>::empty(),
            },
    {
        match decoded {
            Some(items) => WorkshopItemCache { items },
            None => WorkshopItemCache::new(),
        }
    }
}

/// The requested ids that the cache lacks, in the order requested.
pub fn ids_to_fetch(item_ids: &Vec<u64>, cache: &WorkshopItemCache) -> (ids: Vec<u64>)
    ensures
        ids@ == missing_ids(item_ids@, cache.items@.dom()),
{
    let mut ids: Vec<u64> = Vec::new();
    let mut i: usize = 0;
    while i < item_ids.len()
        invariant
            i <= item_ids.len(),
            ids@ == missing_ids(item_ids@.take(i as int), cache.items@.dom()),
        decreases item_ids.len() - i,
    {
        let id = item_ids[i];
        proof {
            assert(item_ids@.take(i + 1) =~= item_ids@.take(i as int).push(id));
            item_ids@.take(i as int).lemma_filter_push(id, lacks(cache.items@.dom()));
        }
        if !fx_contains_key(&cache.items, id) {
            ids.push(id);
        }
        i += 1;
    }
    assert(item_ids@.take(item_ids@.len() as int) =~= item_ids@);
    ids
}

/// The cached items for the requested ids, in the order requested; an id
/// without an entry contributes nothing.
pub fn cached_in_order(item_ids: &Vec<u64>, cache: &WorkshopItemCache) -> (items: Vec<WorkshopItem>)
    ensures
        item_views(items@) == item_views(found_items(item_ids@, cache.items@)),
        keyed_by_id(cache.items@) ==> answers_ids(items@, item_ids@, cache.items@.dom()),
{
    let mut items: Vec<WorkshopItem> = Vec::new();
    let mut i: usize = 0;
    while i < item_ids.len()
        invariant
            i <= item_ids.len(),
            item_views(items@) == item_views(found_items(item_ids@.take(i as int), cache.items@)),
        decreases item_ids.len() - i,
    {
        let ghost before = item_ids@.take(i as int);
        let ghost after = item_ids@.take(i + 1);
        let id = item_ids[i];
        proof {
            assert(after =~= before.push(id));
            before.lemma_filter_push(id, holds(cache.items@.dom()));
        }
        match fx_get(&cache.items, id) {
            Some(item) => {
                let ghost prev = items@;
                items.push(item.clone());
                assert(found_ids(after, cache.items@.dom()) == found_ids(
                    before,
                    cache.items@.dom(),
                ).push(id));
                assert(item_views(items@) =~= item_views(prev).push(item@));
                assert(item_views(found_items(after, cache.items@)) =~= item_views(
                    found_items(before, cache.items@),
                ).push(item@));
            },
            None => {
                assert(found_ids(after, cache.items@.dom()) == found_ids(
                    before,
                    cache.items@.dom(),
                ));
            },
        }
        i += 1;
    }
    assert(item_ids@.take(item_ids@.len() as int) =~= item_ids@);
    proof {
        if keyed_by_id(cache.items@) {
            lemma_answer_holds_requested_ids(item_ids@, cache.items@);
            let found = found_items(item_ids@, cache.items@);
            assert(item_views(items@).len() == items@.len());
            assert(item_views(found).len() == found.len());
            assert forall|k: int| 0 <= k < items@.len() implies (#[trigger] items@[k]).published_file_id
                == found_ids(item_ids@, cache.items@.dom())[k] by {
                assert(item_views(items@)[k] == items@[k]@);
                assert(item_views(found)[k] == found[k]@);
            }
        }
    }
    items
}

/// Keeps the items of a fetched page that are present and are community
/// content, in the order of the page.
pub fn community_items(result: WorkshopItemsResult) -> (items: Vec<WorkshopItem>)
    ensures
        items@ == community(result.items@),
{
    let slots = result.items;
    let mut items: Vec<WorkshopItem> = Vec::new();
    for slot in it: slots
        invariant
            it.seq() == slots@,
            items@ == community(slots@.take(it.index() as int)),
    {
        proof {
            slots@.lemma_filter_map_take_succ(keep_community(), it.index() as int);
        }
        match slot {
            Some(item) => {
                if str_eq(item.file_type.as_str(), "Community") {
                    items.push(item);
                }
            },
            None => {},
        }
    }
    assert(slots@.take(slots@.len() as int) =~= slots@);
    items
}

/// Stores each fetched item in the cache under its id; of two fetched items
/// with one id the later one stays.
pub fn store_fetched(cache: &mut WorkshopItemCache, fetched: &Vec<WorkshopItem>)
    ensures
        cache_views(final(cache).items@) == cache_views(stored(old(cache).items@, fetched@)),
        final(cache).items@.dom() == stored(old(cache).items@, fetched@).dom(),
        keyed_by_id(old(cache).items@) ==> keyed_by_id(final(cache).items@),
{
    let mut i: usize = 0;
    while i < fetched.len()
        invariant
            i <= fetched.len(),
            cache_views(cache.items@) == cache_views(
                stored(old(cache).items@, fetched@.take(i as int)),
            ),
            cache.items@.dom() == stored(old(cache).items@, fetched@.take(i as int)).dom(),
        decreases fetched.len() - i,
    {
        let ghost before = stored(old(cache).items@, fetched@.take(i as int));
        let ghost held = cache.items@;
        assert(fetched@.take(i + 1).drop_last() =~= fetched@.take(i as int));
        let copy = fetched[i].clone();
        fx_insert(&mut cache.items, fetched[i].published_file_id, copy);
        assert(cache_views(held.insert(fetched@[i as int].published_file_id, copy))
            =~= cache_views(held).insert(fetched@[i as int].published_file_id, copy@));
        assert(cache_views(before.insert(fetched@[i as int].published_file_id, fetched@[i as int]))
            =~= cache_views(before).insert(
            fetched@[i as int].published_file_id,
            fetched@[i as int]@,
        ));
        i += 1;
    }
    assert(fetched@.take(fetched@.len() as int) =~= fetched@);
    proof {
        if keyed_by_id(old(cache).items@) {
            lemma_stored_is_keyed_by_id(old(cache).items@, fetched@);
            lemma_same_views_same_ids(stored(old(cache).items@, fetched@), cache.items@);
        }
    }
}

/// The first decision of a batch lookup: answer from the cache when it holds
/// every requested id, else name the ids to fetch.
pub fn workshop_items(item_ids: &Vec<u64>, cache: &WorkshopItemCache) -> (step: ItemsStep)
    ensures
        match step {
            ItemsStep::Done(items) => {
                &&& missing_ids(item_ids@, cache.items@.dom()).len() == 0
                &&& item_views(items@) == item_views(found_items(item_ids@, cache.items@))
                &&& keyed_by_id(cache.items@) ==> answers_ids(
                    items@,
                    item_ids@,
                    cache.items@.dom(),
                )
            },
            ItemsStep::Fetch(ids) => {
                &&& ids@.len() > 0
                &&& ids@ == missing_ids(item_ids@, cache.items@.dom())
            },
        },
{
    let ids = ids_to_fetch(item_ids, cache);
    if ids.len() == 0 {
        ItemsStep::Done(cached_in_order(item_ids, cache))
    } else {
        ItemsStep::Fetch(ids)
    }
}

/// The second decision of a batch lookup, once the missing ids were fetched:
/// the community items of the fetched page enter the cache, and the answer is
/// read from the cache in the order requested. An id that is still unknown
/// is left out of the answer.
pub fn workshop_items_fetched(
    item_ids: &Vec<u64>,
    cache: &mut WorkshopItemCache,
    fetched: WorkshopItemsResult,
) -> (items: Vec<WorkshopItem>)
    ensures
        cache_views(final(cache).items@) == cache_views(
            stored(old(cache).items@, community(fetched.items@)),
        ),
        final(cache).items@.dom() == stored(old(cache).items@, community(fetched.items@)).dom(),
        item_views(items@) == item_views(found_items(item_ids@, final(cache).items@)),
        keyed_by_id(old(cache).items@) ==> {
            &&& keyed_by_id(final(cache).items@)
            &&& answers_ids(items@, item_ids@, final(cache).items@.dom())
        },
{
    let kept = community_items(fetched);
    store_fetched(cache, &kept);
    cached_in_order(item_ids, cache)
}

/// Storing fetched items keeps every entry under its item's own id.
pub proof fn lemma_stored_is_keyed_by_id(cached: Map<u64, WorkshopItem>, fetched: Seq<WorkshopItem>)
    requires
        keyed_by_id(cached),
    ensures
        keyed_by_id(stored(cached, fetched)),
    decreases fetched.len(),
{
    if fetched.len() > 0 {
        lemma_stored_is_keyed_by_id(cached, fetched.drop_last());
    }
}

/// Two caches with the same views stand under their items' ids together.
pub proof fn lemma_same_views_same_ids(one: Map<u64, WorkshopItem>, other: Map<u64, WorkshopItem>)
    requires
        keyed_by_id(one),
        one.dom() == other.dom(),
        cache_views(one) == cache_views(other),
    ensures
        keyed_by_id(other),
{
    assert forall|id: u64| other.contains_key(id) implies (#[trigger] other[id]).published_file_id
        == id by {
        assert(one.contains_key(id));
        assert(cache_views(one)[id] == one[id]@);
        assert(cache_views(other)[id] == other[id]@);
    }
}

/// Where every entry stands under its item's own id, each item of an answer
/// holds the id that was asked for at its place.
pub proof fn lemma_answer_holds_requested_ids(ids: Seq<u64>, cached: Map<u64, WorkshopItem>)
    requires
        keyed_by_id(cached),
    ensures
        answers_ids(found_items(ids, cached), ids, cached.dom()),
{
    let found = found_ids(ids, cached.dom());
    assert forall|k: int| 0 <= k < found.len() implies cached.contains_key(#[trigger] found[k]) by {
        assert(found.contains(found[k]));
        ids.lemma_filter_contains_rev(holds(cached.dom()), found[k]);
    }
}

/// The ids under which `fetched` would be stored.
pub open spec fn fetched_ids(fetched: Seq<WorkshopItem>) -> Set<u64> {
    Set::new(
        |id: u64| exists|k: int| 0 <= k < fetched.len() && #[trigger] fetched[k].published_file_id == id,
    )
}

/// Storing fetched items adds their ids to the cache and removes none.
pub proof fn lemma_stored_ids(cached: Map<u64, WorkshopItem>, fetched: Seq<WorkshopItem>)
    ensures
        stored(cached, fetched).dom() == cached.dom().union(fetched_ids(fetched)),
    decreases fetched.len(),
{
    if fetched.len() == 0 {
        assert(stored(cached, fetched).dom() =~= cached.dom().union(fetched_ids(fetched)));
    } else {
        let rest = fetched.drop_last();
        lemma_stored_ids(cached, rest);
        assert forall|id: u64|
            stored(cached, fetched).dom().contains(id) <==> cached.dom().union(
                fetched_ids(fetched),
            ).contains(id) by {
            if fetched_ids(rest).contains(id) {
                let k = choose|k: int| 0 <= k < rest.len() && #[trigger] rest[k].published_file_id == id;
                assert(fetched[k].published_file_id == id);
            }
            if fetched_ids(fetched).contains(id) {
                let k = choose|k: int|
                    0 <= k < fetched.len() && #[trigger] fetched[k].published_file_id == id;
                if k < rest.len() {
                    assert(rest[k].published_file_id == id);
                }
            }
            if id == fetched.last().published_file_id {
                assert(fetched[fetched.len() - 1].published_file_id == id);
            }
        }
        assert(stored(cached, fetched).dom() =~= cached.dom().union(fetched_ids(fetched)));
    }
}

/// A batch lookup answers in the caller's order: the ids that are answered
/// are the requested ids with the unknown ones left out and nothing moved,
/// and the k-th item of the answer is the cache's entry for the k-th of them.
pub proof fn lemma_lookup_keeps_request_order(ids: Seq<u64>, cached: Map<u64, WorkshopItem>)
    ensures
        keeps_order(found_ids(ids, cached.dom()), ids),
        found_items(ids, cached).len() == found_ids(ids, cached.dom()).len(),
        forall|k: int|
            0 <= k < found_items(ids, cached).len() ==> #[trigger] found_items(ids, cached)[k]
                == cached[found_ids(ids, cached.dom())[k]],
        forall|id: u64|
            found_ids(ids, cached.dom()).contains(id) <==> ids.contains(id) && cached.contains_key(
                id,
            ),
{
    lemma_filter_keeps_order(ids, holds(cached.dom()));
    let found = found_ids(ids, cached.dom());
    assert forall|id: u64| found.contains(id) <==> ids.contains(id) && cached.contains_key(
        id,
    ) by {
        if found.contains(id) {
            ids.lemma_filter_contains_rev(holds(cached.dom()), id);
        }
        if ids.contains(id) && cached.contains_key(id) {
            let k = choose|k: int| 0 <= k < ids.len() && ids[k] == id;
            ids.lemma_filter_contains(holds(cached.dom()), k);
        }
    }
}

/// After the missing ids were fetched, a requested id is answered exactly
/// when it was cached before or came back as community content; every other
/// requested id is left out, and the order is the caller's.
pub proof fn lemma_fetched_lookup_answers_known_ids(
    ids: Seq<u64>,
    cached: Map<u64, WorkshopItem>,
    page: Seq<Option<WorkshopItem>>,
)
    ensures
        keeps_order(found_ids(ids, stored(cached, community(page)).dom()), ids),
        forall|id: u64|
            found_ids(ids, stored(cached, community(page)).dom()).contains(id) <==> ids.contains(id)
                && (cached.contains_key(id) || fetched_ids(community(page)).contains(id)),
{
    lemma_stored_ids(cached, community(page));
    lemma_lookup_keeps_request_order(ids, stored(cached, community(page)));
}

} // verus!
