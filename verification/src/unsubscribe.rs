//! Unsubscribing from a list of items: one bridged operation per item, one
//! after the other, and one result per item whatever became of the others.

use crate::error::Error;
use crate::search_cache::optional_chars;
use vstd::prelude::*;

verus! {

/// What became of the attempt to unsubscribe from one item.
#[derive(Debug)]
pub struct UnsubscribeResult {
    pub item_id: u64,
    pub success: bool,
    pub error: Option<String>,
}

/// What a [`UnsubscribeResult`] holds.
pub ghost struct UnsubscribeResultView {
    pub item_id: u64,
    pub success: bool,
    pub error: Option<Seq<char>>,
}

impl View for UnsubscribeResult {
    type V = UnsubscribeResultView;

    open spec fn view(&self) -> UnsubscribeResultView {
        UnsubscribeResultView {
            item_id: self.item_id,
            success: self.success,
            error: optional_chars(self.error),
        }
    }
}

/// The result for one item: what the service said where it answered, and a
/// failure with the error's text where the operation failed.
pub open spec fn result_of(item_id: u64, outcome: Result<bool, Error>) -> UnsubscribeResultView {
    match outcome {
        Ok(success) => UnsubscribeResultView { item_id, success, error: None },
        Err(error) => UnsubscribeResultView { item_id, success: false, error: Some(error.text()) },
    }
}

/// The result for one item.
pub fn unsubscribe_single_item(item_id: u64, outcome: Result<bool, Error>) -> (result: UnsubscribeResult)
    ensures
        result@ == result_of(item_id, outcome),
{
    match outcome {
        Ok(success) => UnsubscribeResult { item_id, success, error: None },
        Err(error) => UnsubscribeResult { item_id, success: false, error: Some(error.message()) },
    }
}

/// The results of a batch: one per item, in the order in which the items
/// were tried. An item that failed fails only its own result.
pub fn unsubscribe(outcomes: Vec<(u64, Result<bool, Error>)>) -> (results: Vec<UnsubscribeResult>)
    ensures
        results@.len() == outcomes@.len(),
        forall|k: int|
            0 <= k < results@.len() ==> (#[trigger] results@[k])@ == result_of(
                outcomes@[k].0,
                outcomes@[k].1,
            ),
{
    let mut results: Vec<UnsubscribeResult> = Vec::new();
    for pair in it: outcomes
        invariant
            it.seq() == outcomes@,
            results@.len() == it.index(),
            forall|k: int|
                0 <= k < results@.len() ==> (#[trigger] results@[k])@ == result_of(
                    outcomes@[k].0,
                    outcomes@[k].1,
                ),
    {
        results.push(unsubscribe_single_item(pair.0, pair.1));
    }
    results
}

} // verus!
