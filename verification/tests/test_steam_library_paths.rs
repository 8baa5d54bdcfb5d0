use s7forge::error::Error;
use s7forge::extract_quoted_strings::extract_quoted_strings;
use s7forge::steam_library_paths::{library_folders, steam_library_paths};
use s7forge::workshop_path::{
    collapse_backslashes, content_folders, workshop_library_folders, workshop_path,
};

const VDF: &str = "\"libraryfolders\"\n{\n\t\"0\"\n\t{\n\t\t\"path\"\t\t\"C:\\\\Program Files (x86)\\\\Steam\"\n\t\t\"label\"\t\t\"\"\n\t\t\"apps\"\n\t\t{\n\t\t\t\"228980\"\t\t\"1\"\n\t\t}\n\t}\n\t\"1\"\n\t{\n\t\t\"path\"\t\t\"D:\\\\SteamLibrary\"\n\t}\n}\n";

fn assert_valid_json(json_str: &str) -> serde_json::Value {
    serde_json::from_str(json_str).expect(&format!("Expected valid JSON, got: {}", json_str))
}

fn render(paths: &Vec<String>) -> String {
    let values = paths.iter().map(|path| serde_json::Value::String(path.clone())).collect();
    serde_json::to_string_pretty(&serde_json::Value::Array(values)).unwrap()
}

#[test]
fn test_steam_library_paths() {
    let outcomes = vec![
        steam_library_paths(&vec![Ok(VDF.to_string())]),
        steam_library_paths(&Vec::new()),
        steam_library_paths(&vec![Err("unreadable".to_string())]),
    ];
    for output in outcomes {
        match output {
            Ok(paths) => {
                let stdout = render(&paths);
                assert_valid_json(&stdout);
            }
            Err(error) => {
                let stderr = format!("Error: {:?}", error.message());
                assert!(stderr.contains("Error:"));
            }
        }
    }
}

#[test]
fn quoted_strings_are_read_in_order() {
    assert_eq!(
        extract_quoted_strings("\"path\"  \"C:\\\\Games\" rest \"x\""),
        vec!["path".to_string(), "C:\\Games".to_string(), "x".to_string()]
    );
    assert_eq!(extract_quoted_strings(""), Vec::<String>::new());
    assert_eq!(extract_quoted_strings("no quotes here"), Vec::<String>::new());
    assert_eq!(extract_quoted_strings("\"\""), vec!["".to_string()]);
}

#[test]
fn escapes_inside_quotes_are_resolved() {
    assert_eq!(
        extract_quoted_strings("\"a\\\"b\" \"c\\nd\" \"e\\tf\" \"g\\rh\" \"i\\\\j\""),
        vec![
            "a\"b".to_string(),
            "c\nd".to_string(),
            "e\tf".to_string(),
            "g\rh".to_string(),
            "i\\j".to_string(),
        ]
    );
    assert_eq!(extract_quoted_strings("\"a\\qb\""), vec!["a\\qb".to_string()]);
}

#[test]
fn an_unclosed_string_is_not_read() {
    assert_eq!(extract_quoted_strings("\"closed\" \"open"), vec!["closed".to_string()]);
    assert_eq!(extract_quoted_strings("\"open\\"), Vec::<String>::new());
    assert_eq!(extract_quoted_strings("\"open\\\""), Vec::<String>::new());
    assert_eq!(extract_quoted_strings("\"é\" \"日本\""), vec!["é".to_string(), "日本".to_string()]);
}

#[test]
fn library_folders_follow_the_word_path() {
    assert_eq!(
        library_folders(VDF),
        vec!["C:\\Program Files (x86)\\Steam".to_string(), "D:\\SteamLibrary".to_string()]
    );
    assert_eq!(library_folders("\"path\""), Vec::<String>::new());
    assert_eq!(library_folders("\"path\" \"path\" \"x\""), vec!["path".to_string(), "x".to_string()]);
    assert_eq!(library_folders("\"a\" \"b\""), Vec::<String>::new());
}

#[test]
fn folders_of_all_files_are_listed_in_order() {
    let files = vec![Ok("\"path\" \"one\"".to_string()), Ok(VDF.to_string())];
    assert_eq!(
        steam_library_paths(&files).unwrap(),
        vec![
            "one".to_string(),
            "C:\\Program Files (x86)\\Steam".to_string(),
            "D:\\SteamLibrary".to_string(),
        ]
    );
    assert_eq!(steam_library_paths(&Vec::new()).unwrap(), Vec::<String>::new());
}

#[test]
fn one_unreadable_file_fails_the_listing() {
    let files = vec![
        Ok("\"path\" \"one\"".to_string()),
        Err("first".to_string()),
        Err("second".to_string()),
    ];
    let error = steam_library_paths(&files).unwrap_err();
    assert!(matches!(&error, Error::Io(text) if text == "Failed to read library metadata file: first"));
    assert_eq!(error.message(), "Failed to read library metadata file: first");
}

#[test]
fn pairs_of_backslashes_become_one() {
    assert_eq!(collapse_backslashes("C:\\\\Games\\\\Steam"), "C:\\Games\\Steam");
    assert_eq!(collapse_backslashes("a\\\\\\b"), "a\\\\b");
    assert_eq!(collapse_backslashes("\\\\\\\\"), "\\\\");
    assert_eq!(collapse_backslashes("plain"), "plain");
    assert_eq!(collapse_backslashes(""), "");
    for text in ["C:\\\\Games\\\\Steam", "a\\\\\\b", "\\\\\\\\", "\\", "x\\\\"] {
        assert_eq!(collapse_backslashes(text), text.replace("\\\\", "\\"));
    }
}

#[test]
fn workshop_folders_are_listed_collapsed() {
    assert_eq!(
        workshop_library_folders("\"path\" \"D:\\\\\\\\Lib\""),
        vec!["D:\\Lib".to_string()]
    );
    assert_eq!(
        workshop_library_folders(VDF),
        vec!["C:\\Program Files (x86)\\Steam".to_string(), "D:\\SteamLibrary".to_string()]
    );
}

#[test]
fn content_folders_end_in_the_game_id() {
    assert_eq!(
        content_folders(548430),
        vec![
            "steamapps".to_string(),
            "workshop".to_string(),
            "content".to_string(),
            "548430".to_string(),
        ]
    );
    assert_eq!(content_folders(0)[3], "0");
    assert_eq!(content_folders(u32::MAX)[3], "4294967295");
}

#[test]
fn the_first_existing_candidate_is_the_workshop_path() {
    let candidates = vec![
        ("a".to_string(), false),
        ("b".to_string(), true),
        ("c".to_string(), true),
    ];
    assert_eq!(workshop_path(&candidates), Some("b".to_string()));
    assert_eq!(workshop_path(&vec![("a".to_string(), false)]), None);
    assert_eq!(workshop_path(&Vec::new()), None);
}
