use s7forge::error::{join_lines, Error, Operation, ValidationError};

#[test]
fn every_error_has_its_text() {
    let cases: Vec<(Error, &str)> = vec![
        (Error::SessionInit("x".to_string()), "Failed to initialize Steam client: x"),
        (Error::NoActiveSession, "Single client not found for given steam_game_id"),
        (
            Error::Timeout(Operation::Search),
            "Search operation timed out waiting for Steam response",
        ),
        (
            Error::Timeout(Operation::WorkshopItems),
            "Operation timed out waiting for Steam response",
        ),
        (
            Error::Timeout(Operation::PopularItems),
            "Popular items operation timed out waiting for Steam response",
        ),
        (
            Error::Timeout(Operation::TagSampling),
            "Sampling operation timed out waiting for Steam response",
        ),
        (Error::Timeout(Operation::Subscribe), "Operation timed out waiting for Steam response"),
        (Error::Timeout(Operation::Unsubscribe), "Operation timed out waiting for Steam response"),
        (Error::Timeout(Operation::Download), "Download timeout after 10 minutes"),
        (Error::ForeignApi("Fail".to_string()), "Steam API error: Fail"),
        (Error::WorkerJoin(Operation::Search, "p".to_string()), "Task error: p"),
        (Error::WorkerJoin(Operation::WorkshopItems, "p".to_string()), "Task error: p"),
        (Error::WorkerJoin(Operation::Subscribe, "p".to_string()), "Task join error: p"),
        (Error::WorkerJoin(Operation::Unsubscribe, "p".to_string()), "Task join error: p"),
        (Error::NameWorkerLost("p".to_string()), "Creator task error: p"),
        (Error::Io("Failed to create cache directory: denied".to_string()), "Failed to create cache directory: denied"),
        (Error::CacheIo(vec!["a".to_string()]), "Errors occurred while clearing cache: a"),
        (
            Error::CacheIo(vec!["a".to_string(), "b".to_string(), "c".to_string()]),
            "Errors occurred while clearing cache: a, b, c",
        ),
        (Error::CacheIo(Vec::new()), "Errors occurred while clearing cache: "),
        (Error::Validation(ValidationError::PageBelowOne), "Page number must be at least 1"),
        (
            Error::Validation(ValidationError::PeriodWithoutTrendSort),
            "Period filter is only applicable for popular sort type",
        ),
        (
            Error::QueryCreation(Operation::Search, "CreateQueryError".to_string()),
            "Failed to create search query: CreateQueryError",
        ),
        (
            Error::QueryCreation(Operation::WorkshopItems, "e".to_string()),
            "Failed to create query handle: e",
        ),
        (
            Error::QueryCreation(Operation::PopularItems, "e".to_string()),
            "Failed to create popular items query: e",
        ),
        (Error::QueryCreation(Operation::TagSampling, "e".to_string()), "Failed to create query: e"),
        (Error::SessionMissing, "Failed to get Steam client"),
        (Error::NotSubscribed, "Workshop item is not subscribed"),
        (Error::DownloadCancelled, "Download cancelled"),
        (Error::DownloadMonitorLost, "Download monitoring failed unexpectedly"),
    ];
    for (error, text) in cases {
        assert_eq!(error.message(), text, "{:?}", error);
    }
}

#[test]
fn lines_are_joined_with_comma_and_space() {
    assert_eq!(join_lines(&Vec::new()), "");
    assert_eq!(join_lines(&vec!["one".to_string()]), "one");
    assert_eq!(join_lines(&vec!["one".to_string(), "".to_string(), "three".to_string()]), "one, , three");
    let lines = vec!["a".to_string(), "b".to_string(), "c".to_string(), "d".to_string()];
    assert_eq!(join_lines(&lines), lines.join(", "));
}
