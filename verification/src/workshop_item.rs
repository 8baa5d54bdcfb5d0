//! The metadata record of one workshop item, as plain data, and the record
//! that pairs it with the display name of its creator.

use vstd::prelude::*;

verus! {

/// The account that owns a workshop item.
#[derive(Debug)]
pub struct SteamUserInfo {
    pub steam_id64: u64,
}

/// Metadata of one workshop item.
#[derive(Debug)]
pub struct WorkshopItem {
    pub published_file_id: u64,
    pub creator_steam_game_id: Option<u32>,
    pub consumer_steam_game_id: Option<u32>,
    pub title: String,
    pub description: String,
    pub owner: SteamUserInfo,
    pub time_created: u32,
    pub time_updated: u32,
    pub time_added_to_user_list: u32,
    pub visibility: String,
    pub banned: bool,
    pub accepted_for_use: bool,
    pub tags: String,
    pub tags_truncated: bool,
    pub url: String,
    pub num_upvotes: u32,
    pub num_downvotes: u32,
    pub num_children: u32,
    pub file_type: String,
    pub file_size: u32,
}

/// What a [`WorkshopItem`] holds, with each string as its characters.
pub ghost struct WorkshopItemView {
    pub published_file_id: u64,
    pub creator_steam_game_id: Option<u32>,
    pub consumer_steam_game_id: Option<u32>,
    pub title: Seq<char>,
    pub description: Seq<char>,
    pub owner_id: u64,
    pub time_created: u32,
    pub time_updated: u32,
    pub time_added_to_user_list: u32,
    pub visibility: Seq<char>,
    pub banned: bool,
    pub accepted_for_use: bool,
    pub tags: Seq<char>,
    pub tags_truncated: bool,
    pub url: Seq<char>,
    pub num_upvotes: u32,
    pub num_downvotes: u32,
    pub num_children: u32,
    pub file_type: Seq<char>,
    pub file_size: u32,
}

impl View for WorkshopItem {
    type V = WorkshopItemView;

    open spec fn view(&self) -> WorkshopItemView {
        WorkshopItemView {
            published_file_id: self.published_file_id,
            creator_steam_game_id: self.creator_steam_game_id,
            consumer_steam_game_id: self.consumer_steam_game_id,
            title: self.title@,
            description: self.description@,
            owner_id: self.owner.steam_id64,
            time_created: self.time_created,
            time_updated: self.time_updated,
            time_added_to_user_list: self.time_added_to_user_list,
            visibility: self.visibility@,
            banned: self.banned,
            accepted_for_use: self.accepted_for_use,
            tags: self.tags@,
            tags_truncated: self.tags_truncated,
            url: self.url@,
            num_upvotes: self.num_upvotes,
            num_downvotes: self.num_downvotes,
            num_children: self.num_children,
            file_type: self.file_type@,
            file_size: self.file_size,
        }
    }
}

impl Clone for WorkshopItem {
    fn clone(&self) -> (out: Self)
        ensures
            out@ == self@,
    {
        WorkshopItem {
            published_file_id: self.published_file_id,
            creator_steam_game_id: self.creator_steam_game_id,
            consumer_steam_game_id: self.consumer_steam_game_id,
            title: self.title.clone(),
            description: self.description.clone(),
            owner: SteamUserInfo { steam_id64: self.owner.steam_id64 },
            time_created: self.time_created,
            time_updated: self.time_updated,
            time_added_to_user_list: self.time_added_to_user_list,
            visibility: self.visibility.clone(),
            banned: self.banned,
            accepted_for_use: self.accepted_for_use,
            tags: self.tags.clone(),
            tags_truncated: self.tags_truncated,
            url: self.url.clone(),
            num_upvotes: self.num_upvotes,
            num_downvotes: self.num_downvotes,
            num_children: self.num_children,
            file_type: self.file_type.clone(),
            file_size: self.file_size,
        }
    }
}

/// One page of a catalog query: a slot per requested item, empty where the
/// catalog had nothing to return for it.
#[derive(Debug)]
pub struct WorkshopItemsResult {
    pub items: Vec<Option<WorkshopItem>>,
}

/// A workshop item together with the display name of its creator.
#[derive(Debug)]
pub struct EnhancedWorkshopItem {
    pub workshop_item: WorkshopItem,
    pub creator_name: String,
}

/// What an [`EnhancedWorkshopItem`] holds.
pub ghost struct EnhancedWorkshopItemView {
    pub workshop_item: WorkshopItemView,
    pub creator_name: Seq<char>,
}

impl View for EnhancedWorkshopItem {
    type V = EnhancedWorkshopItemView;

    open spec fn view(&self) -> EnhancedWorkshopItemView {
        EnhancedWorkshopItemView {
            workshop_item: self.workshop_item@,
            creator_name: self.creator_name@,
        }
    }
}

impl Clone for EnhancedWorkshopItem {
    fn clone(&self) -> (out: Self)
        ensures
            out@ == self@,
    {
        EnhancedWorkshopItem {
            workshop_item: self.workshop_item.clone(),
            creator_name: self.creator_name.clone(),
        }
    }
}

impl EnhancedWorkshopItem {
    /// Pairs an item with its creator's display name.
    pub fn new(workshop_item: WorkshopItem, creator_name: String) -> (out: Self)
        ensures
            out.workshop_item == workshop_item,
            out.creator_name == creator_name,
    {
        Self { workshop_item, creator_name }
    }
}

/// The views of a sequence of items, in order.
pub open spec fn item_views(items: Seq<WorkshopItem>) -> Seq<WorkshopItemView> {
    items.map_values(|item: WorkshopItem| item@)
}

/// The views of a sequence of enhanced items, in order.
pub open spec fn enhanced_views(items: Seq<EnhancedWorkshopItem>) -> Seq<EnhancedWorkshopItemView> {
    items.map_values(|item: EnhancedWorkshopItem| item@)
}

/// A copy of `items`, element by element.
pub fn clone_items(items: &Vec<WorkshopItem>) -> (out: Vec<WorkshopItem>)
    ensures
        item_views(out@) == item_views(items@),
{
    let mut out: Vec<WorkshopItem> = Vec::new();
    let mut i: usize = 0;
    while i < items.len()
        invariant
            i <= items.len(),
            out.len() == i,
            forall|j: int| 0 <= j < i ==> out@[j]@ == items@[j]@,
        decreases items.len() - i,
    {
        out.push(items[i].clone());
        i += 1;
    }
    assert(item_views(out@) =~= item_views(items@));
    out
}

/// A copy of `items`, element by element.
pub fn clone_enhanced(items: &Vec<EnhancedWorkshopItem>) -> (out: Vec<EnhancedWorkshopItem>)
    ensures
        enhanced_views(out@) == enhanced_views(items@),
{
    let mut out: Vec<EnhancedWorkshopItem> = Vec::new();
    let mut i: usize = 0;
    while i < items.len()
        invariant
            i <= items.len(),
            out.len() == i,
            forall|j: int| 0 <= j < i ==> out@[j]@ == items@[j]@,
        decreases items.len() - i,
    {
        out.push(items[i].clone());
        i += 1;
    }
    assert(enhanced_views(out@) =~= enhanced_views(items@));
    out
}

} // verus!
