//! Searching the catalog: what is checked before anything else happens, how
//! a request becomes a query, and how the page cache stands in front of it.

use crate::error::{Error, ValidationError};
use crate::fetch_creator_names::{named_items, with_creator_names};
use crate::search_cache::{
    lookup_at, optional_chars, written_at, CachedSearchResultView, SearchCache, SearchCacheKey,
    SearchCacheKeyView,
};
use crate::text::{
    keep_pieces, kept_pieces, split_chars, split_on, str_eq, string_views, to_chars, trim_chars,
    trimmed,
};
use crate::workshop_item::{
    clone_enhanced, enhanced_views, EnhancedWorkshopItem, EnhancedWorkshopItemView, WorkshopItem,
};
use rustc_hash::FxHashMap;
use vstd::prelude::*;

verus! {

/// How the catalog ranks the results of a query.
#[derive(Debug, Clone, Copy, PartialEq, Eq, Structural)]
pub enum QueryKind {
    RankedByVote,
    RankedByPublicationDate,
    RankedByTrend,
    RankedByTotalUniqueSubscriptions,
    RankedByLastUpdatedDate,
    RankedByTextSearch,
}

/// A query, ready to be issued.
#[derive(Debug)]
pub struct SearchPlan {
    pub query_kind: QueryKind,
    pub page: u32,
    /// The text to search for; absent where the request's text is blank.
    pub search_text: Option<String>,
    /// The number of days a trend ranking looks back; present exactly for a
    /// query ranked by trend.
    pub trend_days: Option<u32>,
    /// The tags every result must carry.
    pub required_tags: Vec<String>,
}

/// What a [`SearchPlan`] holds.
pub ghost struct SearchPlanView {
    pub query_kind: QueryKind,
    pub page: u32,
    pub search_text: Option<Seq<char>>,
    pub trend_days: Option<u32>,
    pub required_tags: Seq<Seq<char>>,
}

impl View for SearchPlan {
    type V = SearchPlanView;

    open spec fn view(&self) -> SearchPlanView {
        SearchPlanView {
            query_kind: self.query_kind,
            page: self.page,
            search_text: optional_chars(self.search_text),
            trend_days: self.trend_days,
            required_tags: string_views(self.required_tags@),
        }
    }
}

/// What to do next for a search.
#[derive(Debug)]
pub enum SearchStep {
    /// The page was cached and is still good: the answer.
    Done(Vec<EnhancedWorkshopItem>),
    /// The page has to be fetched with this query.
    Fetch(SearchPlan),
}

/// The ranking that a sort mode stands for; an unknown mode ranks by text
/// search.
pub open spec fn query_kind_of(sort_by: Seq<char>) -> QueryKind {
    if sort_by == "relevance"@ {
        QueryKind::RankedByTextSearch
    } else if sort_by == "recent"@ {
        QueryKind::RankedByPublicationDate
    } else if sort_by == "popular"@ {
        QueryKind::RankedByTrend
    } else if sort_by == "most-subscribed"@ {
        QueryKind::RankedByTotalUniqueSubscriptions
    } else if sort_by == "recently-updated"@ {
        QueryKind::RankedByLastUpdatedDate
    } else {
        QueryKind::RankedByTextSearch
    }
}

/// The number of days that a time period stands for; an unknown period
/// stands for a week.
pub open spec fn trend_days_of(period: Seq<char>) -> u32 {
    if period == "today"@ {
        1
    } else if period == "one-week"@ {
        7
    } else if period == "three-months"@ {
        90
    } else if period == "six-months"@ {
        180
    } else if period == "one-year"@ {
        365
    } else {
        7
    }
}

/// The number of days of the trend ranking of a request: that of its period,
/// and a week where it names none.
pub open spec fn trend_days_or_week(period: Option<Seq<char>>) -> u32 {
    match period {
        Some(period) => trend_days_of(period),
        None => 7,
    }
}

/// The tags of a tag filter: its pieces between commas, each without the
/// white space around it, the empty ones left out.
pub open spec fn required_tags_of(tags: Option<Seq<char>>) -> Seq<Seq<char>> {
    match tags {
        Some(tags) => kept_pieces(split_on(tags, ',')),
        None => Seq::empty(),
    }
}

/// Why a request is rejected, if it is: a page below 1 first, then a time
/// period together with a sort mode that is not ranked by trend.
pub open spec fn rejection_of(sort_by: Seq<char>, period: Option<Seq<char>>, page: u32) -> Option<
    ValidationError,
> {
    if page == 0 {
        Some(ValidationError::PageBelowOne)
    } else if query_kind_of(sort_by) != QueryKind::RankedByTrend && period is Some {
        Some(ValidationError::PeriodWithoutTrendSort)
    } else {
        None
    }
}

/// The query that a valid request becomes.
pub open spec fn plan_of(
    search_text: Seq<char>,
    sort_by: Seq<char>,
    period: Option<Seq<char>>,
    page: u32,
    tags: Option<Seq<char>>,
) -> SearchPlanView {
    SearchPlanView {
        query_kind: query_kind_of(sort_by),
        page,
        search_text: if trimmed(search_text).len() > 0 {
            Some(search_text)
        } else {
            None
        },
        trend_days: if query_kind_of(sort_by) == QueryKind::RankedByTrend {
            Some(trend_days_or_week(period))
        } else {
            None
        },
        required_tags: required_tags_of(tags),
    }
}

/// The cache key of a request.
pub open spec fn key_of(
    steam_game_id: u32,
    search_text: Seq<char>,
    sort_by: Seq<char>,
    period: Option<Seq<char>>,
    page: u32,
    tags: Option<Seq<char>>,
) -> SearchCacheKeyView {
    SearchCacheKeyView { steam_game_id, search_text, sort_by, period, page, tags }
}

/// The ranking that a sort mode stands for.
pub fn query_kind(sort_by: &str) -> (kind: QueryKind)
    ensures
        kind == query_kind_of(sort_by@),
{
    if str_eq(sort_by, "relevance") {
        QueryKind::RankedByTextSearch
    } else if str_eq(sort_by, "recent") {
        QueryKind::RankedByPublicationDate
    } else if str_eq(sort_by, "popular") {
        QueryKind::RankedByTrend
    } else if str_eq(sort_by, "most-subscribed") {
        QueryKind::RankedByTotalUniqueSubscriptions
    } else if str_eq(sort_by, "recently-updated") {
        QueryKind::RankedByLastUpdatedDate
    } else {
        QueryKind::RankedByTextSearch
    }
}

/// The number of days that a time period stands for.
pub fn trend_days(period: &str) -> (days: u32)
    ensures
        days == trend_days_of(period@),
{
    if str_eq(period, "today") {
        1
    } else if str_eq(period, "one-week") {
        7
    } else if str_eq(period, "three-months") {
        90
    } else if str_eq(period, "six-months") {
        180
    } else if str_eq(period, "one-year") {
        365
    } else {
        7
    }
}

/// The tags of a tag filter.
pub fn required_tags(tags: &Option<String>) -> (out: Vec<String>)
    ensures
        string_views(out@) == required_tags_of(optional_chars(*tags)),
{
    match tags {
        Some(tags) => keep_pieces(&split_chars(tags.as_str(), ',')),
        None => {
            let out: Vec<String> = Vec::new();
            assert(string_views(out@) =~= Seq::<Seq<char>>::empty());
            out
        },
    }
}

/// Checks a request and turns it into a query. A request that is rejected
/// is rejected here, before any session or cache is touched.
pub fn plan_search(
    search_text: &String,
    sort_by: &String,
    period: &Option<String>,
    page: u32,
    tags: &Option<String>,
) -> (plan: Result<SearchPlan, Error>)
    ensures
        match rejection_of(sort_by@, optional_chars(*period), page) {
            Some(reason) => plan == Err::<SearchPlan, Error>(Error::Validation(reason)),
            None => plan is Ok && plan->Ok_0@ == plan_of(
                search_text@,
                sort_by@,
                optional_chars(*period),
                page,
                optional_chars(*tags),
            ),
        },
{
    if page == 0 {
        return Err(Error::Validation(ValidationError::PageBelowOne));
    }
    let kind = query_kind(sort_by.as_str());
    let days = match kind {
        QueryKind::RankedByTrend => {
            match period {
                Some(period) => Some(trend_days(period.as_str())),
                None => Some(7),
            }
        },
        _ => {
            if period.is_some() {
                return Err(Error::Validation(ValidationError::PeriodWithoutTrendSort));
            }
            None
        },
    };
    let blank = trim_chars(&to_chars(search_text.as_str())).len() == 0;
    let text = if blank {
        None
    } else {
        Some(search_text.clone())
    };
    Ok(
        SearchPlan {
            query_kind: kind,
            page,
            search_text: text,
            trend_days: days,
            required_tags: required_tags(tags),
        },
    )
}

/// The first decision of a search at time `now`: reject an invalid request;
/// else answer from the page cache if it holds a page for this request that
/// is still good; else say which query to issue. The lookup removes expired
/// pages from the cache; a rejected request leaves the cache as it was.
pub fn search_workshop(
    cache: &mut SearchCache,
    now: u64,
    steam_game_id: u32,
    search_text: String,
    sort_by: String,
    period: Option<String>,
    page: u32,
    tags: Option<String>,
) -> (step: Result<SearchStep, Error>)
    requires
        old(cache).wf(),
    ensures
        final(cache).wf(),
        match rejection_of(sort_by@, optional_chars(period), page) {
            Some(reason) => {
                &&& step == Err::<SearchStep, Error>(Error::Validation(reason))
                &&& final(cache)@ == old(cache)@
            },
            None => {
                let key = key_of(
                    steam_game_id,
                    search_text@,
                    sort_by@,
                    optional_chars(period),
                    page,
                    optional_chars(tags),
                );
                match step {
                    Ok(SearchStep::Done(items)) => lookup_at(
                        old(cache)@,
                        final(cache)@,
                        key,
                        now,
                        Some(items),
                    ),
                    Ok(SearchStep::Fetch(plan)) => {
                        &&& lookup_at(old(cache)@, final(cache)@, key, now, None)
                        &&& plan@ == plan_of(
                            search_text@,
                            sort_by@,
                            optional_chars(period),
                            page,
                            optional_chars(tags),
                        )
                    },
                    Err(_) => false,
                }
            },
        },
{
    let plan = match plan_search(&search_text, &sort_by, &period, page, &tags) {
        Ok(plan) => plan,
        Err(error) => {
            return Err(error);
        },
    };
    let key = SearchCacheKey { steam_game_id, search_text, sort_by, period, page, tags };
    match cache.get_at(&key, now) {
        Some(items) => Ok(SearchStep::Done(items)),
        None => Ok(SearchStep::Fetch(plan)),
    }
}

/// The last decision of a search whose page was fetched at time `now`: the
/// kept items are paired with their creators' names, and the page is written
/// to the cache under `key`. A page without items is written like any
/// other, so that the same search is not asked of the service again while
/// the page is good.
pub fn search_workshop_fetched(
    cache: &mut SearchCache,
    key: SearchCacheKey,
    now: u64,
    items: Vec<WorkshopItem>,
    names: &FxHashMap<u64, String>,
) -> (page: Vec<EnhancedWorkshopItem>)
    requires
        old(cache).wf(),
    ensures
        final(cache).wf(),
        enhanced_views(page@) == named_items(items@, names@),
        final(cache)@ == written_at(old(cache)@, key@, named_items(items@, names@), now),
{
    let page = with_creator_names(items, names);
    cache.insert_at(key, clone_enhanced(&page), now);
    page
}

/// A search whose page was written to the cache at `written` is answered
/// from the cache by the same search made fewer than 600 seconds later: its
/// first decision is the page that was written, and no query is asked for.
pub proof fn lemma_repeated_search_is_answered_from_the_cache(
    before: Map<SearchCacheKeyView, CachedSearchResultView>,
    key: SearchCacheKeyView,
    page: Seq<EnhancedWorkshopItemView>,
    written: u64,
    after: Map<SearchCacheKeyView, CachedSearchResultView>,
    now: u64,
    step: SearchStep,
)
    requires
        (now as int) - (written as int) < 600,
        match step {
            SearchStep::Done(items) => lookup_at(
                written_at(before, key, page, written),
                after,
                key,
                now,
                Some(items),
            ),
            SearchStep::Fetch(_) => lookup_at(
                written_at(before, key, page, written),
                after,
                key,
                now,
                None,
            ),
        },
    ensures
        step matches SearchStep::Done(items) && enhanced_views(items@) == page,
{
}

} // verus!
