use rustc_hash::FxHashMap;
use s7forge::fetch_creator_names::{
    cached_names, fetch_creator_names, fetch_creator_names_fetched, is_unknown_name,
    keep_waiting_for_names, names_to_fetch, store_names, CreatorNameCache, NamesStep,
    NAME_POLL_MILLIS, NAME_WAIT_MILLIS,
};

fn cache_of(pairs: &[(u64, &str)]) -> CreatorNameCache {
    let mut cache = CreatorNameCache::new();
    store_names(&mut cache, pairs.iter().map(|(id, name)| (*id, name.to_string())).collect());
    cache
}

fn sorted(names: &FxHashMap<u64, String>) -> Vec<(u64, String)> {
    let mut pairs: Vec<(u64, String)> = names.iter().map(|(id, name)| (*id, name.clone())).collect();
    pairs.sort();
    pairs
}

#[test]
fn a_new_name_cache_is_empty() {
    assert!(CreatorNameCache::new().names.is_empty());
}

#[test]
fn uncached_ids_are_asked_for_once_each_in_first_order() {
    let cache = cache_of(&[(2, "Bo")]);
    assert_eq!(names_to_fetch(&vec![5, 2, 3, 5, 3, 9], &cache), vec![5, 3, 9]);
    assert_eq!(names_to_fetch(&vec![2, 2], &cache), Vec::<u64>::new());
    match fetch_creator_names(&vec![5, 2, 5], &cache) {
        NamesStep::Fetch(ids) => assert_eq!(ids, vec![5]),
        NamesStep::Done(_) => panic!("5 is not cached"),
    }
}

#[test]
fn cached_names_answer_without_a_fetch() {
    let cache = cache_of(&[(1, "Ann"), (2, "Bo"), (3, "Cy")]);
    match fetch_creator_names(&vec![3, 1, 3], &cache) {
        NamesStep::Done(names) => {
            assert_eq!(sorted(&names), vec![(1, "Ann".to_string()), (3, "Cy".to_string())])
        }
        NamesStep::Fetch(ids) => panic!("all cached, yet asked to fetch {:?}", ids),
    }
    match fetch_creator_names(&Vec::new(), &cache) {
        NamesStep::Done(names) => assert!(names.is_empty()),
        NamesStep::Fetch(_) => panic!("nothing was asked for"),
    }
    assert_eq!(sorted(&cached_names(&vec![2, 8], &cache)), vec![(2, "Bo".to_string())]);
}

#[test]
fn fetched_names_enter_the_cache_and_the_answer() {
    let mut cache = cache_of(&[(1, "Ann")]);
    let fetched = vec![(2, "Bo".to_string()), (4, "Di".to_string()), (2, "Bob".to_string())];
    let names = fetch_creator_names_fetched(&vec![2, 1, 3], &mut cache, fetched);
    assert_eq!(sorted(&names), vec![(1, "Ann".to_string()), (2, "Bob".to_string())]);
    assert_eq!(
        sorted(&cache.names),
        vec![(1, "Ann".to_string()), (2, "Bob".to_string()), (4, "Di".to_string())]
    );
}

#[test]
fn a_fetched_name_replaces_a_cached_one() {
    let mut cache = cache_of(&[(1, "Ann")]);
    store_names(&mut cache, vec![(1, "Anna".to_string())]);
    assert_eq!(sorted(&cache.names), vec![(1, "Anna".to_string())]);
}

#[test]
fn the_placeholder_is_the_only_unknown_name() {
    assert!(is_unknown_name("[unknown]"));
    assert!(!is_unknown_name("unknown"));
    assert!(!is_unknown_name("[unknown] "));
    assert!(!is_unknown_name(""));
    assert!(!is_unknown_name("[Unknown]"));
}

#[test]
fn the_wait_for_names_ends_after_two_seconds_or_when_none_is_unknown() {
    assert_eq!(NAME_WAIT_MILLIS, 2000);
    assert_eq!(NAME_POLL_MILLIS, 50);
    assert!(keep_waiting_for_names(1, 0));
    assert!(keep_waiting_for_names(3, 1999));
    assert!(!keep_waiting_for_names(3, 2000));
    assert!(!keep_waiting_for_names(0, 0));
    assert!(!keep_waiting_for_names(0, 5000));
}

#[test]
fn a_decoded_file_becomes_the_name_cache() {
    assert!(CreatorNameCache::load(None).names.is_empty());
    let mut names: FxHashMap<u64, String> = FxHashMap::default();
    names.insert(4, "Di".to_string());
    let cache = CreatorNameCache::load(Some(names));
    assert_eq!(sorted(&cache.names), vec![(4, "Di".to_string())]);
}
