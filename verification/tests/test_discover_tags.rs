use s7forge::discover_tags::{discover_tags, sampling_sources, tags_of_item};
use s7forge::error::{Error, Operation};
use s7forge::search_workshop::QueryKind;
use s7forge::workshop_item::{SteamUserInfo, WorkshopItem, WorkshopItemsResult};

fn item(file_type: &str, tags: &str) -> WorkshopItem {
    WorkshopItem {
        published_file_id: 1,
        creator_steam_game_id: None,
        consumer_steam_game_id: None,
        title: String::new(),
        description: String::new(),
        owner: SteamUserInfo { steam_id64: 1 },
        time_created: 0,
        time_updated: 0,
        time_added_to_user_list: 0,
        visibility: String::new(),
        banned: false,
        accepted_for_use: false,
        tags: tags.to_string(),
        tags_truncated: false,
        url: String::new(),
        num_upvotes: 0,
        num_downvotes: 0,
        num_children: 0,
        file_type: file_type.to_string(),
        file_size: 0,
    }
}

#[test]
fn five_rankings_are_sampled() {
    assert_eq!(
        sampling_sources(),
        vec![
            (QueryKind::RankedByVote, None),
            (QueryKind::RankedByTrend, Some(7)),
            (QueryKind::RankedByTrend, Some(30)),
            (QueryKind::RankedByPublicationDate, None),
            (QueryKind::RankedByTotalUniqueSubscriptions, None),
        ]
    );
}

#[test]
fn the_tags_of_an_item_are_split_and_trimmed() {
    assert_eq!(
        tags_of_item(&item("Community", "mod, weapon,  map , ,x")),
        vec!["mod".to_string(), "weapon".to_string(), "map".to_string(), ",x".to_string()]
    );
    assert_eq!(tags_of_item(&item("Community", "")), Vec::<String>::new());
    assert_eq!(tags_of_item(&item("Community", "  ")), Vec::<String>::new());
    assert_eq!(tags_of_item(&item("Collection", "mod, weapon")), Vec::<String>::new());
    assert_eq!(tags_of_item(&item("Community", "a,b")), vec!["a,b".to_string()]);
}

#[test]
fn discovered_tags_are_sorted_and_listed_once() {
    let samples = vec![
        Ok(WorkshopItemsResult {
            items: vec![
                Some(item("Community", "weapon, mod")),
                None,
                Some(item("Art", "skin")),
                Some(item("Community", "map, mod")),
            ],
        }),
        Err(Error::Timeout(Operation::TagSampling)),
        Ok(WorkshopItemsResult { items: vec![Some(item("Community", "Zeta, alpha, mod"))] }),
        Ok(WorkshopItemsResult { items: Vec::new() }),
    ];
    assert_eq!(
        discover_tags(&samples),
        vec![
            "Zeta".to_string(),
            "alpha".to_string(),
            "map".to_string(),
            "mod".to_string(),
            "weapon".to_string(),
        ]
    );
}

#[test]
fn failed_samples_fail_nothing() {
    let samples = vec![
        Err(Error::Timeout(Operation::TagSampling)),
        Err(Error::ForeignApi("Fail".to_string())),
    ];
    assert_eq!(discover_tags(&samples), Vec::<String>::new());
    assert_eq!(discover_tags(&Vec::new()), Vec::<String>::new());
    assert_eq!(
        Error::Timeout(Operation::TagSampling).message(),
        "Sampling operation timed out waiting for Steam response"
    );
}

#[test]
fn discovered_tags_match_a_sorted_set() {
    let texts = ["b, a, c", "c, d, é, B", "", "a, a, a", "10, 9, 1"];
    let samples: Vec<Result<WorkshopItemsResult, Error>> = texts
        .iter()
        .map(|text| Ok(WorkshopItemsResult { items: vec![Some(item("Community", text))] }))
        .collect();
    let mut expected: Vec<String> = texts
        .iter()
        .flat_map(|text| text.split(", "))
        .map(|tag| tag.trim().to_string())
        .filter(|tag| !tag.is_empty())
        .collect();
    expected.sort();
    expected.dedup();
    assert_eq!(discover_tags(&samples), expected);
}
