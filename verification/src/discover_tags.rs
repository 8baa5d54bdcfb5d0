//! Discovering the tags that a catalog uses: a few rankings are sampled, and
//! the tags of every community item on the sampled pages are collected.

use crate::error::Error;
use crate::lex_order::{insert_sorted, strictly_sorted};
use crate::search_workshop::QueryKind;
use crate::text::{
    from_chars, keep_pieces, kept_pieces, split_chars_on_comma_space, split_on_comma_space,
    str_eq, string_views, to_chars,
};
use crate::workshop_item::{WorkshopItem, WorkshopItemsResult};
use vstd::prelude::*;

verus! {

/// One ranking to sample, with the number of days it looks back where it
/// is a trend ranking.
pub type SamplingSource = (QueryKind, Option<u32>);

/// The rankings that are sampled, in the order in which they are asked:
/// all-time votes, the trend of a week, the trend of thirty days, the newest
/// publications, and the most subscriptions. Of each the first page is read.
pub open spec fn sources() -> Seq<SamplingSource> {
    seq![
        (QueryKind::RankedByVote, None),
        (QueryKind::RankedByTrend, Some(7u32)),
        (QueryKind::RankedByTrend, Some(30u32)),
        (QueryKind::RankedByPublicationDate, None),
        (QueryKind::RankedByTotalUniqueSubscriptions, None),
    ]
}

/// The tags of one item, in order: the pieces of its tag text between
/// ", ", trimmed, the empty ones left out. An item that is not community
/// content has none.
pub open spec fn item_tags(file_type: Seq<char>, tags: Seq<char>) -> Seq<Seq<char>> {
    if file_type == "Community"@ && tags.len() > 0 {
        kept_pieces(split_on_comma_space(tags))
    } else {
        Seq::empty()
    }
}

/// The tags of the items of one page, in order.
pub open spec fn page_tags(slots: Seq<Option<WorkshopItem>>) -> Seq<Seq<char>>
    decreases slots.len(),
{
    if slots.len() == 0 {
        Seq::empty()
    } else {
        page_tags(slots.drop_last()) + match slots.last() {
            Some(item) => item_tags(item.file_type@, item.tags@),
            None => Seq::empty(),
        }
    }
}

/// The tags of every sample that was read; a sample that failed has none.
pub open spec fn sampled_tags(samples: Seq<Result<WorkshopItemsResult, Error>>) -> Seq<Seq<char>>
    decreases samples.len(),
{
    if samples.len() == 0 {
        Seq::empty()
    } else {
        sampled_tags(samples.drop_last()) + match samples.last() {
            Ok(page) => page_tags(page.items@),
            Err(_) => Seq::empty(),
        }
    }
}

/// The rankings to sample.
pub fn sampling_sources() -> (out: Vec<SamplingSource>)
    ensures
        out@ == sources(),
{
    let mut out: Vec<SamplingSource> = Vec::new();
    out.push((QueryKind::RankedByVote, None));
    out.push((QueryKind::RankedByTrend, Some(7)));
    out.push((QueryKind::RankedByTrend, Some(30)));
    out.push((QueryKind::RankedByPublicationDate, None));
    out.push((QueryKind::RankedByTotalUniqueSubscriptions, None));
    assert(out@ =~= sources());
    out
}

/// The tags of one item.
pub fn tags_of_item(item: &WorkshopItem) -> (tags: Vec<String>)
    ensures
        string_views(tags@) == item_tags(item.file_type@, item.tags@),
{
    if str_eq(item.file_type.as_str(), "Community") && to_chars(item.tags.as_str()).len() > 0 {
        keep_pieces(&split_chars_on_comma_space(item.tags.as_str()))
    } else {
        let tags: Vec<String> = Vec::new();
        assert(string_views(tags@) =~= Seq::<Seq<char>>::empty());
        tags
    }
}

/// Adds the tags of every item of `page` to a sorted list of tags.
fn add_page_tags(sorted: &mut Vec<Vec<char>>, page: &WorkshopItemsResult)
    requires
        strictly_sorted(old(sorted)@.map_values(|entry: Vec<char>| entry@)),
    ensures
        strictly_sorted(final(sorted)@.map_values(|entry: Vec<char>| entry@)),
        final(sorted)@.map_values(|entry: Vec<char>| entry@).to_set() == old(sorted)@.map_values(
            |entry: Vec<char>| entry@,
        ).to_set().union(page_tags(page.items@).to_set()),
{
    let ghost start = sorted@.map_values(|entry: Vec<char>| entry@).to_set();
    let mut i: usize = 0;
    assert(page_tags(page.items@.take(0)).to_set() =~= Set::<Seq<char>>::empty());
    assert(start.union(Set::<Seq<char>>::empty()) =~= start);
    while i < page.items.len()
        invariant
            i <= page.items.len(),
            strictly_sorted(sorted@.map_values(|entry: Vec<char>| entry@)),
            sorted@.map_values(|entry: Vec<char>| entry@).to_set() == start.union(
                page_tags(page.items@.take(i as int)).to_set(),
            ),
        decreases page.items.len() - i,
    {
        let ghost seen = page_tags(page.items@.take(i as int));
        assert(page.items@.take(i + 1).drop_last() =~= page.items@.take(i as int));
        match &page.items[i] {
            Some(item) => {
                let tags = tags_of_item(item);
                let ghost added = string_views(tags@);
                assert(page_tags(page.items@.take(i + 1)) == seen + added);
                let mut k: usize = 0;
                assert(added.take(0) =~= Seq::<Seq<char>>::empty());
                assert((seen + added.take(0)) =~= seen);
                while k < tags.len()
                    invariant
                        k <= tags.len(),
                        added == string_views(tags@),
                        strictly_sorted(sorted@.map_values(|entry: Vec<char>| entry@)),
                        sorted@.map_values(|entry: Vec<char>| entry@).to_set() == start.union(
                            (seen + added.take(k as int)).to_set(),
                        ),
                    decreases tags.len() - k,
                {
                    let tag = to_chars(tags[k].as_str());
                    assert(tag@ == added[k as int]);
                    proof {
                        assert(seen + added.take(k + 1) =~= (seen + added.take(k as int)).push(
                            added[k as int],
                        ));
                        (seen + added.take(k as int)).lemma_push_to_set_commute(added[k as int]);
                        assert(start.union((seen + added.take(k as int)).to_set()).insert(tag@)
                            =~= start.union((seen + added.take(k + 1)).to_set()));
                    }
                    insert_sorted(sorted, tag);
                    k += 1;
                }
                assert(added.take(added.len() as int) =~= added);
            },
            None => {
                assert(page_tags(page.items@.take(i + 1)) =~= seen);
            },
        }
        i += 1;
    }
    assert(page.items@.take(page.items@.len() as int) =~= page.items@);
}

/// The tags found on the samples that were read, each once, in sorted
/// order. A sample that failed is passed over and fails nothing.
pub fn discover_tags(samples: &Vec<Result<WorkshopItemsResult, Error>>) -> (tags: Vec<String>)
    ensures
        strictly_sorted(string_views(tags@)),
        string_views(tags@).to_set() == sampled_tags(samples@).to_set(),
{
    let mut sorted: Vec<Vec<char>> = Vec::new();
    let mut i: usize = 0;
    assert(sorted@.map_values(|entry: Vec<char>| entry@).to_set() =~= sampled_tags(
        samples@.take(0),
    ).to_set());
    while i < samples.len()
        invariant
            i <= samples.len(),
            strictly_sorted(sorted@.map_values(|entry: Vec<char>| entry@)),
            sorted@.map_values(|entry: Vec<char>| entry@).to_set() == sampled_tags(
                samples@.take(i as int),
            ).to_set(),
        decreases samples.len() - i,
    {
        let ghost seen = sampled_tags(samples@.take(i as int));
        assert(samples@.take(i + 1).drop_last() =~= samples@.take(i as int));
        match &samples[i] {
            Ok(page) => {
                add_page_tags(&mut sorted, page);
                proof {
                    vstd::seq_lib::seq_to_set_distributes_over_add(seen, page_tags(page.items@));
                }
            },
            Err(_) => {
                assert(sampled_tags(samples@.take(i + 1)) =~= seen);
            },
        }
        i += 1;
    }
    assert(samples@.take(samples@.len() as int) =~= samples@);
    let mut tags: Vec<String> = Vec::new();
    let mut k: usize = 0;
    while k < sorted.len()
        invariant
            k <= sorted.len(),
            tags@.len() == k,
            forall|j: int| 0 <= j < k ==> (#[trigger] tags@[j])@ == sorted@[j]@,
        decreases sorted.len() - k,
    {
        tags.push(from_chars(&sorted[k]));
        k += 1;
    }
    assert(string_views(tags@) =~= sorted@.map_values(|entry: Vec<char>| entry@));
    tags
}

} // verus!
