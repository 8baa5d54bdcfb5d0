//! Verified core of a workshop catalog client: the disk cache rules, the
//! poll-driven bridge decisions, the session registry and the pure parts of
//! each command.

pub mod args;
pub mod bridge;
pub mod clear_cache;
pub mod cli;
pub mod client;
pub mod discover_tags;
pub mod download_workshop_item;
pub mod error;
pub mod extract_quoted_strings;
pub mod fetch_creator_names;
pub mod fx_map;
pub mod lex_order;
pub mod numbers;
pub mod order;
pub mod popular_items;
pub mod search_cache;
pub mod search_workshop;
pub mod steam_library_paths;
pub mod steam_manager;
pub mod subscribe;
pub mod test_config;
pub mod text;
pub mod unsubscribe;
pub mod workshop_item;
pub mod workshop_items;
pub mod workshop_path;
