use s7forge::search_cache::{CachedSearchResult, SearchCache, SearchCacheKey};
use s7forge::workshop_item::{EnhancedWorkshopItem, SteamUserInfo, WorkshopItem};

fn item(id: u64, title: &str, owner: u64) -> WorkshopItem {
    WorkshopItem {
        published_file_id: id,
        creator_steam_game_id: Some(548430),
        consumer_steam_game_id: Some(548430),
        title: title.to_string(),
        description: format!("about {}", title),
        owner: SteamUserInfo { steam_id64: owner },
        time_created: 1_600_000_000,
        time_updated: 1_700_000_000,
        time_added_to_user_list: 0,
        visibility: "Public".to_string(),
        banned: false,
        accepted_for_use: true,
        tags: "mod, weapon".to_string(),
        tags_truncated: false,
        url: format!("https://example.invalid/{}", id),
        num_upvotes: 12,
        num_downvotes: 3,
        num_children: 0,
        file_type: "Community".to_string(),
        file_size: 4096,
    }
}

fn page(ids: &[u64]) -> Vec<EnhancedWorkshopItem> {
    ids.iter()
        .map(|id| EnhancedWorkshopItem::new(item(*id, &format!("item {}", id), 7000 + id), format!("creator {}", id)))
        .collect()
}

fn key(text: &str, page: u32) -> SearchCacheKey {
    SearchCacheKey {
        steam_game_id: 548430,
        search_text: text.to_string(),
        sort_by: "recent".to_string(),
        period: None,
        page,
        tags: Some("mod,weapon".to_string()),
    }
}

fn shown(items: &Vec<EnhancedWorkshopItem>) -> String {
    format!("{:?}", items)
}

#[test]
fn a_page_is_returned_while_it_is_less_than_600_seconds_old() {
    for age in [0u64, 1, 59, 599] {
        let mut cache = SearchCache::new();
        cache.insert_at(key("tank", 1), page(&[1, 2]), 10_000);
        let found = cache.get_at(&key("tank", 1), 10_000 + age);
        assert_eq!(found.map(|items| shown(&items)), Some(shown(&page(&[1, 2]))), "age {}", age);
        assert_eq!(cache.entries().len(), 1);
    }
}

#[test]
fn a_page_of_600_seconds_or_more_is_a_miss_and_is_removed() {
    for age in [600u64, 601, 3600, u64::MAX - 10_000] {
        let mut cache = SearchCache::new();
        cache.insert_at(key("tank", 1), page(&[1, 2]), 10_000);
        assert!(cache.get_at(&key("tank", 1), 10_000 + age).is_none(), "age {}", age);
        assert!(cache.entries().is_empty());
    }
}

#[test]
fn a_page_written_ahead_of_the_clock_counts_as_fresh() {
    let mut cache = SearchCache::new();
    cache.insert_at(key("tank", 1), page(&[5]), 10_000);
    let found = cache.get_at(&key("tank", 1), 5);
    assert_eq!(found.map(|items| shown(&items)), Some(shown(&page(&[5]))));
}

#[test]
fn what_was_written_is_read_back_unchanged() {
    let mut cache = SearchCache::new();
    let written = page(&[9, 4, 7]);
    cache.insert_at(key("tank", 2), page(&[9, 4, 7]), 42);
    let read = cache.get_at(&key("tank", 2), 42).expect("a hit");
    assert_eq!(shown(&read), shown(&written));
    assert_eq!(read.len(), 3);
    assert_eq!(read[0].workshop_item.published_file_id, 9);
    assert_eq!(read[1].creator_name, "creator 4");
    assert_eq!(read[2].workshop_item.title, "item 7");
}

#[test]
fn keys_differ_in_every_field() {
    let mut cache = SearchCache::new();
    cache.insert_at(key("tank", 1), page(&[1]), 100);
    let base = key("tank", 1);
    assert!(cache.get_at(&base, 100).is_some());
    assert!(cache.get_at(&key("tank", 2), 100).is_none());
    assert!(cache.get_at(&key("tan", 1), 100).is_none());
    assert!(cache.get_at(&SearchCacheKey { steam_game_id: 1, ..key("tank", 1) }, 100).is_none());
    assert!(cache
        .get_at(&SearchCacheKey { sort_by: "popular".to_string(), ..key("tank", 1) }, 100)
        .is_none());
    assert!(cache
        .get_at(&SearchCacheKey { period: Some("today".to_string()), ..key("tank", 1) }, 100)
        .is_none());
    assert!(cache.get_at(&SearchCacheKey { tags: None, ..key("tank", 1) }, 100).is_none());
    assert!(cache
        .get_at(&SearchCacheKey { tags: Some("mod".to_string()), ..key("tank", 1) }, 100)
        .is_none());
    assert!(base.same_as(&key("tank", 1)));
    assert!(!base.same_as(&key("tank", 3)));
    assert!(base.clone().same_as(&base));
}

#[test]
fn a_second_write_replaces_the_first() {
    let mut cache = SearchCache::new();
    cache.insert_at(key("tank", 1), page(&[1]), 100);
    cache.insert_at(key("tank", 1), page(&[2, 3]), 200);
    assert_eq!(cache.entries().len(), 1);
    let read = cache.get_at(&key("tank", 1), 750).expect("fresh by the second write");
    assert_eq!(shown(&read), shown(&page(&[2, 3])));
    assert!(cache.get_at(&key("tank", 1), 800).is_none());
}

#[test]
fn every_write_and_read_prunes_expired_pages() {
    let mut cache = SearchCache::new();
    cache.insert_at(key("a", 1), page(&[1]), 0);
    cache.insert_at(key("b", 1), page(&[2]), 300);
    assert_eq!(cache.entries().len(), 2);
    cache.insert_at(key("c", 1), page(&[3]), 600);
    assert_eq!(cache.entries().len(), 2);
    assert!(cache.get_at(&key("a", 1), 600).is_none());
    assert!(cache.get_at(&key("missing", 1), 900).is_none());
    assert_eq!(cache.entries().len(), 1);
    assert!(cache.entries()[0].0.same_as(&key("c", 1)));
    cache.clean_expired_entries_at(1200);
    assert!(cache.entries().is_empty());
}

#[test]
fn cleaning_keeps_the_order_of_what_stays() {
    let mut cache = SearchCache::new();
    cache.insert_at(key("a", 1), page(&[1]), 500);
    cache.insert_at(key("b", 1), page(&[2]), 100);
    cache.insert_at(key("c", 1), page(&[3]), 500);
    cache.clean_expired_entries_at(700);
    let kept: Vec<String> = cache.entries().iter().map(|entry| entry.0.search_text.clone()).collect();
    assert_eq!(kept, vec!["a".to_string(), "c".to_string()]);
}

#[test]
fn entries_of_a_file_become_a_cache() {
    let entries = vec![
        (key("a", 1), CachedSearchResult { items: page(&[1]), timestamp: 10 }),
        (key("b", 1), CachedSearchResult { items: page(&[2]), timestamp: 20 }),
        (key("a", 1), CachedSearchResult { items: page(&[3]), timestamp: 30 }),
    ];
    let mut cache = SearchCache::from_entries(entries);
    assert_eq!(cache.entries().len(), 2);
    assert_eq!(cache.entries()[0].1.timestamp, 30);
    let read = cache.get_at(&key("a", 1), 40).expect("a hit");
    assert_eq!(shown(&read), shown(&page(&[3])));
    let mut old = SearchCache::from_entries(vec![(
        key("z", 1),
        CachedSearchResult { items: page(&[1]), timestamp: 0 },
    )]);
    assert_eq!(old.entries().len(), 1);
    assert!(old.get_at(&key("z", 1), 600).is_none());
}

#[test]
fn the_clock_gives_seconds_since_the_epoch() {
    let now = SearchCache::current_timestamp();
    assert!(now > 1_600_000_000);
    assert!(SearchCache::current_timestamp() >= now);
}

#[test]
fn reads_and_writes_by_the_clock_agree() {
    let mut cache = SearchCache::new();
    cache.insert(key("tank", 1), page(&[1, 2]));
    let read = cache.get(&key("tank", 1)).expect("a hit right after the write");
    assert_eq!(shown(&read), shown(&page(&[1, 2])));
    let stamp = cache.entries()[0].1.timestamp;
    assert!(stamp > 1_600_000_000);
    cache.clean_expired_entries();
    assert_eq!(cache.entries().len(), 1);
    let mut stale = SearchCache::from_entries(vec![(
        key("old", 1),
        CachedSearchResult { items: page(&[1]), timestamp: 1 },
    )]);
    assert!(stale.get(&key("old", 1)).is_none());
    assert!(stale.entries().is_empty());
}

#[test]
fn cache_files_have_their_names() {
    assert_eq!(SearchCache::file_name(), "search_workshop_cache.bin");
    assert_eq!(s7forge::workshop_items::WorkshopItemCache::file_name(), "workshop_items_cache.bin");
    assert_eq!(
        s7forge::fetch_creator_names::CreatorNameCache::file_name(),
        "creator_names_cache.bin"
    );
}

#[test]
fn a_file_that_could_not_be_read_gives_an_empty_cache() {
    assert!(SearchCache::load_at(None, 50).entries().is_empty());
    assert!(SearchCache::load_from_disk(None).entries().is_empty());
    let entries = vec![
        (key("old", 1), CachedSearchResult { items: page(&[1]), timestamp: 0 }),
        (key("new", 1), CachedSearchResult { items: page(&[2]), timestamp: 500 }),
    ];
    let cache = SearchCache::load_at(Some(entries), 700);
    assert_eq!(cache.entries().len(), 1);
    assert!(cache.entries()[0].0.same_as(&key("new", 1)));
    let stale = vec![(key("old", 1), CachedSearchResult { items: page(&[1]), timestamp: 5 })];
    assert!(SearchCache::load_from_disk(Some(stale)).entries().is_empty());
}

#[test]
fn a_clock_before_the_epoch_reads_as_zero() {
    assert_eq!(s7forge::search_cache::timestamp_of(None), 0);
    assert_eq!(s7forge::search_cache::timestamp_of(Some(0)), 0);
    assert_eq!(s7forge::search_cache::timestamp_of(Some(1_700_000_000)), 1_700_000_000);
    assert_eq!(s7forge::search_cache::timestamp_of(Some(u64::MAX)), u64::MAX);
}
