//! The ids that the tests against a live service run with.

use crate::numbers::{number_of, parse_u32, parse_u64};
use vstd::prelude::*;

verus! {

/// The game, the item and the collection that the live tests use.
#[derive(Debug, Clone, Copy, PartialEq, Eq, Structural)]
pub struct TestConfig {
    pub app_id: u32,
    pub item_id: u64,
    pub collection_id: u64,
}

impl TestConfig {
    /// The configuration that three settings stand for, if each of them is a
    /// number of its width.
    pub fn load(app_id: &str, item_id: &str, collection_id: &str) -> (config: Option<TestConfig>)
        ensures
            match (
                number_of(app_id@, u32::MAX as nat),
                number_of(item_id@, u64::MAX as nat),
                number_of(collection_id@, u64::MAX as nat),
            ) {
                (Some(app), Some(item), Some(collection)) => config == Some(
                    TestConfig {
                        app_id: app as u32,
                        item_id: item as u64,
                        collection_id: collection as u64,
                    },
                ),
                _ => config is None,
            },
    {
        let app = parse_u32(app_id);
        let item = parse_u64(item_id);
        let collection = parse_u64(collection_id);
        match (app, item, collection) {
            (Some(app_id), Some(item_id), Some(collection_id)) => Some(
                TestConfig { app_id, item_id, collection_id },
            ),
            _ => None,
        }
    }
}

} // verus!
