use s7forge::clear_cache::{clear_cache, ClearCacheResult, Removal};
use s7forge::error::Error;

fn render(result: &ClearCacheResult) -> String {
    let mut object = serde_json::Map::new();
    object.insert("success".to_string(), serde_json::Value::Bool(result.success));
    object.insert("message".to_string(), serde_json::Value::String(result.message.clone()));
    object.insert(
        "files_cleared".to_string(),
        serde_json::Value::Number(serde_json::Number::from(result.files_cleared as u64)),
    );
    object.insert(
        "files".to_string(),
        serde_json::Value::Array(
            result.files.iter().map(|name| serde_json::Value::String(name.clone())).collect(),
        ),
    );
    serde_json::to_string_pretty(&serde_json::Value::Object(object)).unwrap()
}

fn assert_valid_json(json_str: &str) -> serde_json::Value {
    serde_json::from_str(json_str).expect(&format!("Expected valid JSON, got: {}", json_str))
}

fn check_report(stdout: &str) {
    let value = assert_valid_json(stdout);

    assert!(value.is_object(), "Expected JSON object for clear-cache result");

    let success = value.get("success").expect("Missing 'success' field");
    assert!(success.is_boolean(), "Expected 'success' to be a boolean");
    assert_eq!(success.as_bool().unwrap(), true, "Expected cache clearing to succeed");

    let message = value.get("message").expect("Missing 'message' field");
    assert!(message.is_string(), "Expected 'message' to be a string");
    let message_str = message.as_str().unwrap();
    assert!(!message_str.is_empty(), "Expected non-empty message");

    let files_cleared = value.get("files_cleared").expect("Missing 'files_cleared' field");
    assert!(files_cleared.is_number(), "Expected 'files_cleared' to be a number");
    let cleared_count = files_cleared.as_u64().unwrap();

    let files = value.get("files").expect("Missing 'files' field");
    assert!(files.is_array(), "Expected 'files' to be an array");
    let files_array = files.as_array().unwrap();
    assert_eq!(
        files_array.len() as u64,
        cleared_count,
        "files array length should match files_cleared count"
    );

    for (index, file) in files_array.iter().enumerate() {
        assert!(file.is_string(), "Expected file at index {} to be a string", index);
        let file_str = file.as_str().unwrap();
        assert!(!file_str.is_empty(), "Expected non-empty filename at index {}", index);
    }

    if let Some(errors) = value.get("errors") {
        assert!(errors.is_array(), "Expected 'errors' to be an array if present");
    }
}

#[test]
fn test_clear_cache() {
    let removals = vec![
        Removal::Removed(Some("workshop_items_cache.bin".to_string())),
        Removal::Skipped,
        Removal::Removed(Some("creator_names_cache.bin".to_string())),
        Removal::Removed(Some("search_workshop_cache.bin".to_string())),
    ];
    let report = clear_cache(true, removals).expect("clear-cache");
    check_report(&render(&report));
    let again = clear_cache(true, Vec::new()).expect("clear-cache");
    check_report(&render(&again));
    let missing = clear_cache(false, Vec::new()).expect("clear-cache");
    check_report(&render(&missing));
}

#[test]
fn clear_reports_names_and_count() {
    let removals = vec![
        Removal::Removed(Some("a.bin".to_string())),
        Removal::Removed(None),
        Removal::Skipped,
        Removal::Removed(Some("b.bin".to_string())),
    ];
    let report = clear_cache(true, removals).unwrap();
    assert!(report.success);
    assert_eq!(report.message, "Successfully cleared 2 cache files");
    assert_eq!(report.files_cleared, 2);
    assert_eq!(report.files, vec!["a.bin".to_string(), "b.bin".to_string()]);
}

#[test]
fn clear_counts_in_decimal() {
    let mut removals = Vec::new();
    for index in 0..120 {
        removals.push(Removal::Removed(Some(format!("file{}", index))));
    }
    let report = clear_cache(true, removals).unwrap();
    assert_eq!(report.message, "Successfully cleared 120 cache files");
    assert_eq!(report.files_cleared, 120);
    assert_eq!(report.files.len(), 120);
    assert_eq!(report.files[119], "file119");
}

#[test]
fn clearing_an_empty_directory_reports_zero_files() {
    let report = clear_cache(true, Vec::new()).unwrap();
    assert!(report.success);
    assert_eq!(report.message, "Cache directory was already empty");
    assert_eq!(report.files_cleared, 0);
    assert!(report.files.is_empty());
}

#[test]
fn clearing_twice_reports_zero_files_the_second_time() {
    let first = clear_cache(true, vec![Removal::Removed(Some("x.bin".to_string()))]).unwrap();
    assert_eq!(first.files_cleared, 1);
    let second = clear_cache(true, Vec::new()).unwrap();
    assert!(second.success);
    assert_eq!(second.files_cleared, 0);
    let third = clear_cache(true, vec![Removal::Skipped]).unwrap();
    assert!(third.success);
    assert_eq!(third.files_cleared, 0);
}

#[test]
fn clearing_without_a_directory_succeeds() {
    let report = clear_cache(false, vec![Removal::Failed("p".to_string(), "r".to_string())]).unwrap();
    assert!(report.success);
    assert_eq!(report.message, "Cache directory does not exist, nothing to clear");
    assert_eq!(report.files_cleared, 0);
    assert!(report.files.is_empty());
}

#[test]
fn one_failure_fails_the_clear_and_every_failure_is_listed() {
    let removals = vec![
        Removal::Removed(Some("a.bin".to_string())),
        Removal::Failed("/cache/b.bin".to_string(), "denied".to_string()),
        Removal::Unreadable("gone".to_string()),
        Removal::Removed(Some("c.bin".to_string())),
    ];
    let error = clear_cache(true, removals).unwrap_err();
    match &error {
        Error::CacheIo(lines) => {
            assert_eq!(
                lines,
                &vec![
                    "Failed to remove /cache/b.bin: denied".to_string(),
                    "Failed to read directory entry: gone".to_string(),
                ]
            );
        }
        other => panic!("unexpected error: {:?}", other),
    }
    assert_eq!(
        error.message(),
        "Errors occurred while clearing cache: Failed to remove /cache/b.bin: denied, Failed to read directory entry: gone"
    );
}
