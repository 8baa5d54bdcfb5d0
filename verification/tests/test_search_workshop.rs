use rustc_hash::FxHashMap;
use s7forge::error::{Error, ValidationError};
use s7forge::popular_items::{known_period, popular_items, popular_items_fetched, PopularPlan};
use s7forge::search_cache::{SearchCache, SearchCacheKey};
use s7forge::search_workshop::{
    plan_search, query_kind, required_tags, search_workshop, search_workshop_fetched, trend_days,
    QueryKind, SearchStep,
};
use s7forge::workshop_item::{EnhancedWorkshopItem, SteamUserInfo, WorkshopItem};

fn item(id: u64, owner: u64) -> WorkshopItem {
    WorkshopItem {
        published_file_id: id,
        creator_steam_game_id: Some(548430),
        consumer_steam_game_id: Some(548430),
        title: format!("item {}", id),
        description: "d".to_string(),
        owner: SteamUserInfo { steam_id64: owner },
        time_created: 10,
        time_updated: 20,
        time_added_to_user_list: 0,
        visibility: "Public".to_string(),
        banned: false,
        accepted_for_use: false,
        tags: "mod".to_string(),
        tags_truncated: false,
        url: "u".to_string(),
        num_upvotes: 1,
        num_downvotes: 0,
        num_children: 0,
        file_type: "Community".to_string(),
        file_size: 1,
    }
}

fn render(items: &Vec<EnhancedWorkshopItem>) -> String {
    let values = items
        .iter()
        .map(|item| {
            let mut object = serde_json::Map::new();
            object.insert(
                "published_file_id".to_string(),
                serde_json::Value::Number(serde_json::Number::from(
                    item.workshop_item.published_file_id,
                )),
            );
            object.insert(
                "title".to_string(),
                serde_json::Value::String(item.workshop_item.title.clone()),
            );
            object.insert(
                "creator_name".to_string(),
                serde_json::Value::String(item.creator_name.clone()),
            );
            serde_json::Value::Object(object)
        })
        .collect();
    serde_json::to_string_pretty(&serde_json::Value::Array(values)).unwrap()
}

fn assert_valid_json(json_str: &str) -> serde_json::Value {
    serde_json::from_str(json_str).expect(&format!("Expected valid JSON, got: {}", json_str))
}

/// One run of the search command on a cache, with the service played by
/// `upstream`; counts the calls made to it.
fn run_search(
    cache: &mut SearchCache,
    now: u64,
    app_id: u32,
    sort_by: &str,
    page: u32,
    upstream: &Vec<WorkshopItem>,
    calls: &mut u32,
) -> Result<String, String> {
    let step = search_workshop(
        cache,
        now,
        app_id,
        String::new(),
        sort_by.to_string(),
        None,
        page,
        None,
    )
    .map_err(|error| format!("Error: {:?}", error.message()))?;
    match step {
        SearchStep::Done(items) => Ok(render(&items)),
        SearchStep::Fetch(_) => {
            *calls += 1;
            let mut names: FxHashMap<u64, String> = FxHashMap::default();
            names.insert(100, "Ann".to_string());
            let key = SearchCacheKey {
                steam_game_id: app_id,
                search_text: String::new(),
                sort_by: sort_by.to_string(),
                period: None,
                page,
                tags: None,
            };
            let items = upstream.iter().map(|item| item.clone()).collect();
            Ok(render(&search_workshop_fetched(cache, key, now, items, &names)))
        }
    }
}

#[test]
fn test_search_workshop_caching() {
    let upstream = vec![item(1, 100), item(2, 200)];
    let mut cache = SearchCache::new();
    let mut calls = 0;

    let output1 = run_search(&mut cache, 1_000, 548430, "recent", 1, &upstream, &mut calls);
    assert!(output1.is_ok(), "First search call should succeed: {}", output1.unwrap_err());
    let stdout1 = output1.unwrap();
    let value1 = assert_valid_json(&stdout1);
    assert_eq!(calls, 1);

    let output2 = run_search(&mut cache, 1_599, 548430, "recent", 1, &upstream, &mut calls);
    assert!(output2.is_ok(), "Second search call should succeed: {}", output2.unwrap_err());
    let stdout2 = output2.unwrap();
    let value2 = assert_valid_json(&stdout2);

    assert_eq!(
        serde_json::to_string(&value1).unwrap(),
        serde_json::to_string(&value2).unwrap(),
        "Cached results should be identical to original results"
    );
    assert_eq!(calls, 1, "the second search is answered from the cache");

    let output3 = run_search(&mut cache, 1_600, 548430, "recent", 1, &upstream, &mut calls);
    assert!(output3.is_ok());
    assert_eq!(calls, 2, "after ten minutes the page is fetched again");
}

#[test]
fn test_search_workshop_negative_cases() {
    let upstream = vec![item(1, 100)];
    let mut cache = SearchCache::new();
    let mut calls = 0;

    let output = run_search(&mut cache, 1_000, 548430, "recent", 0, &upstream, &mut calls);
    assert!(output.is_err(), "Page 0 should fail but it succeeded");

    let stderr = output.unwrap_err();
    assert!(
        stderr.contains("Page number must be at least 1"),
        "Should contain proper error message for invalid page, got: {}",
        stderr
    );
    assert_eq!(calls, 0, "a rejected search reaches no session");
    assert!(cache.entries().is_empty());

    let output = run_search(&mut cache, 1_000, 0, "recent", 1, &upstream, &mut calls);
    let stdout = output.expect("a search for app id 0 is a search like any other");
    let value = assert_valid_json(&stdout);
    assert!(value.is_array(), "Should return array even for invalid app ID");
}

#[test]
fn page_zero_is_rejected_before_anything_else() {
    let mut cache = SearchCache::new();
    let step = search_workshop(
        &mut cache,
        5,
        1,
        "x".to_string(),
        "recent".to_string(),
        Some("today".to_string()),
        0,
        None,
    );
    assert!(matches!(step, Err(Error::Validation(ValidationError::PageBelowOne))));
    let plan = plan_search(&"x".to_string(), &"popular".to_string(), &None, 0, &None);
    assert!(matches!(plan, Err(Error::Validation(ValidationError::PageBelowOne))));
    assert_eq!(
        Error::Validation(ValidationError::PageBelowOne).message(),
        "Page number must be at least 1"
    );
}

#[test]
fn a_period_needs_the_trend_ranking() {
    for sort_by in ["relevance", "recent", "most-subscribed", "recently-updated", "other"] {
        let plan = plan_search(
            &String::new(),
            &sort_by.to_string(),
            &Some("one-week".to_string()),
            1,
            &None,
        );
        assert!(
            matches!(plan, Err(Error::Validation(ValidationError::PeriodWithoutTrendSort))),
            "sort {}",
            sort_by
        );
    }
    assert_eq!(
        Error::Validation(ValidationError::PeriodWithoutTrendSort).message(),
        "Period filter is only applicable for popular sort type"
    );
    let mut cache = SearchCache::new();
    let step = search_workshop(
        &mut cache,
        5,
        1,
        String::new(),
        "recent".to_string(),
        Some("today".to_string()),
        1,
        None,
    );
    assert!(matches!(step, Err(Error::Validation(ValidationError::PeriodWithoutTrendSort))));
}

#[test]
fn sort_modes_stand_for_rankings() {
    assert_eq!(query_kind("relevance"), QueryKind::RankedByTextSearch);
    assert_eq!(query_kind("recent"), QueryKind::RankedByPublicationDate);
    assert_eq!(query_kind("popular"), QueryKind::RankedByTrend);
    assert_eq!(query_kind("most-subscribed"), QueryKind::RankedByTotalUniqueSubscriptions);
    assert_eq!(query_kind("recently-updated"), QueryKind::RankedByLastUpdatedDate);
    assert_eq!(query_kind("Recent"), QueryKind::RankedByTextSearch);
    assert_eq!(query_kind(""), QueryKind::RankedByTextSearch);
}

#[test]
fn periods_stand_for_days() {
    assert_eq!(trend_days("today"), 1);
    assert_eq!(trend_days("one-week"), 7);
    assert_eq!(trend_days("three-months"), 90);
    assert_eq!(trend_days("six-months"), 180);
    assert_eq!(trend_days("one-year"), 365);
    assert_eq!(trend_days("forever"), 7);
    assert_eq!(trend_days(""), 7);
}

#[test]
fn a_tag_filter_is_split_at_commas_and_trimmed() {
    assert_eq!(
        required_tags(&Some("mod, weapon ,,  , map".to_string())),
        vec!["mod".to_string(), "weapon".to_string(), "map".to_string()]
    );
    assert_eq!(required_tags(&Some(String::new())), Vec::<String>::new());
    assert_eq!(required_tags(&Some(" , ".to_string())), Vec::<String>::new());
    assert_eq!(required_tags(&Some("one".to_string())), vec!["one".to_string()]);
    assert_eq!(required_tags(&None), Vec::<String>::new());
    for text in ["mod, weapon ,,  , map", "a,b", ",a,", " x y , z\t"] {
        let expected: Vec<String> = text
            .split(',')
            .map(|piece| piece.trim())
            .filter(|piece| !piece.is_empty())
            .map(|piece| piece.to_string())
            .collect();
        assert_eq!(required_tags(&Some(text.to_string())), expected);
    }
}

#[test]
fn a_valid_request_becomes_a_query() {
    let plan = plan_search(
        &" tank ".to_string(),
        &"popular".to_string(),
        &Some("three-months".to_string()),
        4,
        &Some("mod,weapon".to_string()),
    )
    .unwrap();
    assert_eq!(plan.query_kind, QueryKind::RankedByTrend);
    assert_eq!(plan.page, 4);
    assert_eq!(plan.search_text, Some(" tank ".to_string()));
    assert_eq!(plan.trend_days, Some(90));
    assert_eq!(plan.required_tags, vec!["mod".to_string(), "weapon".to_string()]);

    let plain = plan_search(&" \t ".to_string(), &"recent".to_string(), &None, 1, &None).unwrap();
    assert_eq!(plain.query_kind, QueryKind::RankedByPublicationDate);
    assert_eq!(plain.search_text, None);
    assert_eq!(plain.trend_days, None);
    assert!(plain.required_tags.is_empty());

    let trend = plan_search(&String::new(), &"popular".to_string(), &None, 1, &None).unwrap();
    assert_eq!(trend.trend_days, Some(7));
}

#[test]
fn a_miss_names_the_query_and_prunes_the_cache() {
    let mut cache = SearchCache::new();
    let old_key = SearchCacheKey {
        steam_game_id: 1,
        search_text: "old".to_string(),
        sort_by: "recent".to_string(),
        period: None,
        page: 1,
        tags: None,
    };
    cache.insert_at(old_key, Vec::new(), 0);
    let step = search_workshop(
        &mut cache,
        700,
        1,
        "new".to_string(),
        "relevance".to_string(),
        None,
        2,
        Some("a, b".to_string()),
    )
    .unwrap();
    match step {
        SearchStep::Fetch(plan) => {
            assert_eq!(plan.query_kind, QueryKind::RankedByTextSearch);
            assert_eq!(plan.page, 2);
            assert_eq!(plan.search_text, Some("new".to_string()));
            assert_eq!(plan.required_tags, vec!["a".to_string(), "b".to_string()]);
        }
        SearchStep::Done(_) => panic!("nothing was cached for this search"),
    }
    assert!(cache.entries().is_empty());
}

#[test]
fn a_page_without_items_is_cached_like_any_other() {
    let mut cache = SearchCache::new();
    let names: FxHashMap<u64, String> = FxHashMap::default();
    let key = SearchCacheKey {
        steam_game_id: 1,
        search_text: String::new(),
        sort_by: "recent".to_string(),
        period: None,
        page: 1,
        tags: None,
    };
    let page = search_workshop_fetched(&mut cache, key.clone(), 10, Vec::new(), &names);
    assert!(page.is_empty());
    assert_eq!(cache.entries().len(), 1);
    assert_eq!(cache.entries()[0].1.timestamp, 10);
    assert!(cache.entries()[0].1.items.is_empty());
    let read = cache.get_at(&key, 609).expect("an empty page is a hit while it is good");
    assert!(read.is_empty());
    assert!(cache.get_at(&key, 610).is_none());
}

#[test]
fn a_search_without_results_is_not_asked_twice() {
    let upstream: Vec<WorkshopItem> = Vec::new();
    let mut cache = SearchCache::new();
    let mut calls = 0;
    let first = run_search(&mut cache, 1_000, 548430, "recent", 1, &upstream, &mut calls).unwrap();
    assert_eq!(calls, 1);
    let second = run_search(&mut cache, 1_599, 548430, "recent", 1, &upstream, &mut calls).unwrap();
    assert_eq!(calls, 1, "the second search is answered from the cache");
    assert_eq!(first, second);
    assert_eq!(second, "[]");
    run_search(&mut cache, 1_600, 548430, "recent", 1, &upstream, &mut calls).unwrap();
    assert_eq!(calls, 2);
}

#[test]
fn a_fetched_page_is_named_and_cached() {
    let mut cache = SearchCache::new();
    let mut names: FxHashMap<u64, String> = FxHashMap::default();
    names.insert(100, "Ann".to_string());
    let key = SearchCacheKey {
        steam_game_id: 1,
        search_text: String::new(),
        sort_by: "recent".to_string(),
        period: None,
        page: 1,
        tags: None,
    };
    let page = search_workshop_fetched(&mut cache, key.clone(), 10, vec![item(2, 200), item(1, 100)], &names);
    assert_eq!(page.len(), 2);
    assert_eq!(page[0].workshop_item.published_file_id, 2);
    assert_eq!(page[0].creator_name, "[unknown]");
    assert_eq!(page[1].creator_name, "Ann");
    assert_eq!(cache.entries().len(), 1);
    assert_eq!(cache.entries()[0].1.timestamp, 10);
    let read = cache.get_at(&key, 11).unwrap();
    assert_eq!(format!("{:?}", read), format!("{:?}", page));
}

#[test]
fn popular_items_rejects_page_zero() {
    assert!(matches!(
        popular_items(&"one-week".to_string(), 0),
        Err(Error::Validation(ValidationError::PageBelowOne))
    ));
    assert!(matches!(
        popular_items(&"all".to_string(), 0),
        Err(Error::Validation(ValidationError::PageBelowOne))
    ));
}

#[test]
fn a_known_period_asks_for_the_first_page_of_the_trend() {
    for (period, days) in [
        ("today", 1),
        ("one-week", 7),
        ("three-months", 90),
        ("six-months", 180),
        ("one-year", 365),
    ] {
        assert!(known_period(period));
        assert_eq!(
            popular_items(&period.to_string(), 5).unwrap(),
            PopularPlan { query_kind: QueryKind::RankedByTrend, page: 1, trend_days: Some(days) }
        );
    }
}

#[test]
fn any_other_period_asks_for_the_page_by_votes() {
    assert!(!known_period("all-time"));
    assert!(!known_period(""));
    assert_eq!(
        popular_items(&"all-time".to_string(), 5).unwrap(),
        PopularPlan { query_kind: QueryKind::RankedByVote, page: 5, trend_days: None }
    );
}

#[test]
fn popular_items_are_named_in_page_order() {
    let mut names: FxHashMap<u64, String> = FxHashMap::default();
    names.insert(200, "Bo".to_string());
    let page = popular_items_fetched(vec![item(7, 200), item(8, 300)], &names);
    assert_eq!(page.len(), 2);
    assert_eq!(page[0].workshop_item.published_file_id, 7);
    assert_eq!(page[0].creator_name, "Bo");
    assert_eq!(page[1].creator_name, "[unknown]");
    assert!(popular_items_fetched(Vec::new(), &names).is_empty());
}
