use s7forge::error::{Error, Operation};
use s7forge::subscribe::{subscribe, subscribe_single_item, SubscribeResult};
use s7forge::unsubscribe::{unsubscribe, unsubscribe_single_item, UnsubscribeResult};

fn shown(result: &SubscribeResult) -> (u64, bool, Option<String>) {
    (result.item_id, result.success, result.error.clone())
}

fn shown_un(result: &UnsubscribeResult) -> (u64, bool, Option<String>) {
    (result.item_id, result.success, result.error.clone())
}

#[test]
fn one_failed_item_fails_only_its_own_result() {
    let results = subscribe(vec![
        (10, Ok(true)),
        (20, Err(Error::ForeignApi("Fail".to_string()))),
    ]);
    assert_eq!(results.len(), 2);
    assert_eq!(shown(&results[0]), (10, true, None));
    assert_eq!(shown(&results[1]), (20, false, Some("Steam API error: Fail".to_string())));
}

#[test]
fn results_come_in_the_order_tried() {
    let results = subscribe(vec![
        (3, Err(Error::Timeout(Operation::Subscribe))),
        (1, Ok(true)),
        (2, Ok(false)),
        (3, Ok(true)),
    ]);
    let ids: Vec<u64> = results.iter().map(|result| result.item_id).collect();
    assert_eq!(ids, vec![3, 1, 2, 3]);
    assert_eq!(
        shown(&results[0]),
        (3, false, Some("Operation timed out waiting for Steam response".to_string()))
    );
    assert_eq!(shown(&results[2]), (2, false, None));
    assert!(subscribe(Vec::new()).is_empty());
}

#[test]
fn a_single_result_holds_the_error_text() {
    assert_eq!(shown(&subscribe_single_item(5, Ok(true))), (5, true, None));
    assert_eq!(
        shown(&subscribe_single_item(5, Err(Error::NoActiveSession))),
        (5, false, Some("Single client not found for given steam_game_id".to_string()))
    );
    assert_eq!(
        shown(&subscribe_single_item(
            5,
            Err(Error::WorkerJoin(Operation::Subscribe, "JoinError::Panic".to_string()))
        )),
        (5, false, Some("Task join error: JoinError::Panic".to_string()))
    );
}

#[test]
fn unsubscribing_reports_item_by_item() {
    let results = unsubscribe(vec![
        (10, Ok(true)),
        (20, Err(Error::ForeignApi("AccessDenied".to_string()))),
        (30, Err(Error::Timeout(Operation::Unsubscribe))),
    ]);
    assert_eq!(results.len(), 3);
    assert_eq!(shown_un(&results[0]), (10, true, None));
    assert_eq!(
        shown_un(&results[1]),
        (20, false, Some("Steam API error: AccessDenied".to_string()))
    );
    assert_eq!(
        shown_un(&results[2]),
        (30, false, Some("Operation timed out waiting for Steam response".to_string()))
    );
    assert_eq!(shown_un(&unsubscribe_single_item(1, Ok(false))), (1, false, None));
    assert!(unsubscribe(Vec::new()).is_empty());
}
