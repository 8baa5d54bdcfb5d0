use s7forge::client::SteamState;
use s7forge::error::Error;
use s7forge::steam_manager::{initialize_client, run_callbacks, SessionStep, SteamManager};

#[test]
fn a_new_slot_holds_no_session() {
    let state: SteamState<&str, &str> = SteamState::new();
    assert!(!state.has_client(0));
    assert!(!state.has_client(548430));
    assert!(state.get_client(548430).is_none());
    assert!(matches!(state.run_callbacks(548430), Err(Error::NoActiveSession)));
}

#[test]
fn a_session_answers_for_its_own_catalog_only() {
    let mut state: SteamState<String, u8> = SteamState::new();
    state.set_clients(10, "requests".to_string(), 77);
    assert!(state.has_client(10));
    assert!(!state.has_client(11));
    assert_eq!(state.get_client(10), Some(&"requests".to_string()));
    assert!(state.get_client(11).is_none());
    assert!(matches!(state.run_callbacks(10), Ok(&77)));
    let refused = state.run_callbacks(11).unwrap_err();
    assert!(matches!(refused, Error::NoActiveSession));
    assert_eq!(refused.message(), "Single client not found for given steam_game_id");
}

#[test]
fn setting_a_session_replaces_the_one_before() {
    let mut state: SteamState<u8, u8> = SteamState::new();
    state.set_clients(10, 1, 2);
    state.set_clients(20, 3, 4);
    assert!(!state.has_client(10));
    assert!(state.run_callbacks(10).is_err());
    assert_eq!(state.get_client(20), Some(&3));
    assert!(matches!(state.run_callbacks(20), Ok(&4)));
    state.drop_all_clients();
    assert!(!state.has_client(20));
    assert!(state.get_client(20).is_none());
    assert!(state.run_callbacks(20).is_err());
}

#[test]
fn the_first_operation_asks_for_a_handshake() {
    let mut manager: SteamManager<u8, u8> = SteamManager::new();
    assert_eq!(manager.initialize_client(10), SessionStep::Handshake);
    assert!(matches!(manager.get_client(10), Err(Error::SessionMissing)));
    assert!(manager.complete_handshake(10, Ok((1, 2))).is_ok());
    assert!(matches!(manager.get_client(10), Ok(&1)));
    assert!(matches!(manager.run_callbacks(10), Ok(&2)));
}

#[test]
fn the_session_is_reused_for_the_same_catalog() {
    let mut manager: SteamManager<u8, u8> = SteamManager::new();
    manager.initialize_client(10);
    manager.complete_handshake(10, Ok((1, 2))).unwrap();
    assert_eq!(manager.initialize_client(10), SessionStep::Ready);
    assert_eq!(initialize_client(&mut manager, 10), SessionStep::Ready);
    assert!(matches!(manager.get_client(10), Ok(&1)));
    assert!(matches!(run_callbacks(&manager, 10), Ok(&2)));
}

#[test]
fn another_catalog_drops_the_session_before_the_handshake() {
    let mut manager: SteamManager<u8, u8> = SteamManager::new();
    manager.initialize_client(10);
    manager.complete_handshake(10, Ok((1, 2))).unwrap();
    assert_eq!(initialize_client(&mut manager, 20), SessionStep::Handshake);
    assert!(manager.get_client(10).is_err());
    assert!(manager.get_client(20).is_err());
    assert!(matches!(run_callbacks(&manager, 10), Err(Error::NoActiveSession)));
    manager.complete_handshake(20, Ok((3, 4))).unwrap();
    assert!(matches!(manager.get_client(20), Ok(&3)));
    assert!(matches!(run_callbacks(&manager, 20), Ok(&4)));
    assert!(matches!(run_callbacks(&manager, 10), Err(Error::NoActiveSession)));
}

#[test]
fn a_failed_handshake_is_an_error_with_the_diagnostic() {
    let mut manager: SteamManager<u8, u8> = SteamManager::new();
    manager.initialize_client(10);
    let failed = manager.complete_handshake(10, Err("Generic(\"offline\")".to_string())).unwrap_err();
    assert!(matches!(&failed, Error::SessionInit(text) if text == "Generic(\"offline\")"));
    assert_eq!(failed.message(), "Failed to initialize Steam client: Generic(\"offline\")");
    assert!(manager.get_client(10).is_err());
    assert!(manager.run_callbacks(10).is_err());
    assert_eq!(manager.initialize_client(10), SessionStep::Handshake);
    assert_eq!(
        Error::SessionMissing.message(),
        "Failed to get Steam client"
    );
}
