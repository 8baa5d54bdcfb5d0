//! The most popular items of a catalog: what is checked first, which query
//! is issued, and how the answer is put together.

use crate::error::{Error, ValidationError};
use crate::fetch_creator_names::{named_items, with_creator_names};
use crate::search_workshop::{trend_days, trend_days_of, QueryKind};
use crate::text::str_eq;
use crate::workshop_item::{enhanced_views, EnhancedWorkshopItem, WorkshopItem};
use rustc_hash::FxHashMap;
use vstd::prelude::*;

verus! {

/// The query for the most popular items, ready to be issued.
#[derive(Debug, Clone, Copy, PartialEq, Eq, Structural)]
pub struct PopularPlan {
    pub query_kind: QueryKind,
    pub page: u32,
    /// The number of days a trend ranking looks back; present exactly for a
    /// query ranked by trend.
    pub trend_days: Option<u32>,
}

/// Whether `period` names one of the time periods that a trend ranking
/// knows.
pub open spec fn is_known_period(period: Seq<char>) -> bool {
    ||| period == "today"@
    ||| period == "one-week"@
    ||| period == "three-months"@
    ||| period == "six-months"@
    ||| period == "one-year"@
}

/// The query that a valid request becomes: for a known time period the first
/// page of the trend ranking over that period, whatever page was asked for;
/// for any other period the requested page of the ranking by votes.
pub open spec fn popular_plan_of(period: Seq<char>, page: u32) -> PopularPlan {
    if is_known_period(period) {
        PopularPlan {
            query_kind: QueryKind::RankedByTrend,
            page: 1,
            trend_days: Some(trend_days_of(period)),
        }
    } else {
        PopularPlan { query_kind: QueryKind::RankedByVote, page, trend_days: None }
    }
}

/// Whether `period` names one of the time periods that a trend ranking
/// knows.
pub fn known_period(period: &str) -> (known: bool)
    ensures
        known == is_known_period(period@),
{
    str_eq(period, "today") || str_eq(period, "one-week") || str_eq(period, "three-months")
        || str_eq(period, "six-months") || str_eq(period, "one-year")
}

/// The first decision: a page below 1 is rejected before any session is
/// touched; any other request becomes a query.
pub fn popular_items(period: &String, page: u32) -> (plan: Result<PopularPlan, Error>)
    ensures
        page == 0 ==> plan == Err::<PopularPlan, Error>(
            Error::Validation(ValidationError::PageBelowOne),
        ),
        page != 0 ==> plan == Ok::<PopularPlan, Error>(popular_plan_of(period@, page)),
{
    if page == 0 {
        return Err(Error::Validation(ValidationError::PageBelowOne));
    }
    if known_period(period.as_str()) {
        Ok(
            PopularPlan {
                query_kind: QueryKind::RankedByTrend,
                page: 1,
                trend_days: Some(trend_days(period.as_str())),
            },
        )
    } else {
        Ok(PopularPlan { query_kind: QueryKind::RankedByVote, page, trend_days: None })
    }
}

/// The last decision: the kept items of the fetched page, each paired with
/// its creator's name, in the order of the page.
pub fn popular_items_fetched(items: Vec<WorkshopItem>, names: &FxHashMap<u64, String>) -> (page:
    Vec<EnhancedWorkshopItem>)
    ensures
        enhanced_views(page@) == named_items(items@, names@),
{
    with_creator_names(items, names)
}

} // verus!
