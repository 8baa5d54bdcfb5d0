//! The commands of the command line and the help text of each.

use vstd::prelude::*;
use vstd::string::StringExecFns;

verus! {

/// One invocation of the program.
#[derive(Debug)]
pub enum Command {
    CheckItemDownload { app_id: u32, item_id: u64 },
    CollectionItems { app_id: u32, item_id: u64 },
    WorkshopItems { app_id: u32, item_ids: Vec<u64> },
    Subscribe { app_id: u32, item_ids: Vec<u64> },
    Unsubscribe { app_id: u32, item_ids: Vec<u64> },
    DownloadWorkshopItem { app_id: u32, item_id: u64 },
    SubscribedItems { app_id: u32 },
    SearchWorkshop {
        app_id: u32,
        query: String,
        sort_by: String,
        period: Option<String>,
        page: u32,
        tags: Option<String>,
    },
    WorkshopPath { app_id: u32 },
    SteamLibraryPaths,
    ClearCache,
    DiscoverTags { app_id: u32 },
}

/// The help for the program as a whole: its lines, each ended by a line feed.
pub open spec fn main_help_text() -> Seq<char> {
    "s7forge - Steam utility\n\n"@
        + "USAGE:\n"@
        + "    s7forge <COMMAND>\n\n"@
        + "COMMANDS:\n"@
        + "    check-item-download     Check download status of a workshop item\n"@
        + "    collection-items        Get items from a workshop collection\n"@
        + "    workshop-items          Get detailed information about workshop items\n"@
        + "    subscribe               Subscribe to workshop items\n"@
        + "    unsubscribe             Unsubscribe from workshop items\n"@
        + "    download-workshop-item  Download a workshop item you own\n"@
        + "    subscribed-items        List all items you're subscribed to for a game\n"@
        + "    search-workshop         Search workshop content by text query\n"@
        + "    workshop-path           Get the local workshop path for a game\n"@
        + "    steam-library-paths     List all Steam library folder paths\n"@
        + "    clear-cache             Clear all cached data\n"@
        + "    discover-tags           Discover all available workshop tags for a game\n"@
        + "    help                    Print this message\n\n"@
        + "For more information on a specific command, use: s7forge <COMMAND> --help\n"@
}

/// The help for the program as a whole, as it is printed.
pub fn main_help() -> (text: String)
    ensures
        text@ == main_help_text(),
{
    let mut text = "s7forge - Steam utility\n\n".to_string();
    text.append("USAGE:\n");
    text.append("    s7forge <COMMAND>\n\n");
    text.append("COMMANDS:\n");
    text.append("    check-item-download     Check download status of a workshop item\n");
    text.append("    collection-items        Get items from a workshop collection\n");
    text.append("    workshop-items          Get detailed information about workshop items\n");
    text.append("    subscribe               Subscribe to workshop items\n");
    text.append("    unsubscribe             Unsubscribe from workshop items\n");
    text.append("    download-workshop-item  Download a workshop item you own\n");
    text.append("    subscribed-items        List all items you're subscribed to for a game\n");
    text.append("    search-workshop         Search workshop content by text query\n");
    text.append("    workshop-path           Get the local workshop path for a game\n");
    text.append("    steam-library-paths     List all Steam library folder paths\n");
    text.append("    clear-cache             Clear all cached data\n");
    text.append("    discover-tags           Discover all available workshop tags for a game\n");
    text.append("    help                    Print this message\n\n");
    text.append("For more information on a specific command, use: s7forge <COMMAND> --help\n");
    text
}

/// The help for `check-item-download`: its lines, each ended by a line feed.
pub open spec fn check_item_help_text() -> Seq<char> {
    "Check download status of a workshop item\n\n"@
        + "USAGE:\n"@
        + "    s7forge check-item-download --app-id <APP_ID> --item-id <ITEM_ID>\n\n"@
        + "OPTIONS:\n"@
        + "    --app-id <APP_ID>      Steam App ID of the game\n"@
        + "    --item-id <ITEM_ID>    Workshop item ID to check download status for\n"@
        + "    -h, --help             Print help\n\n"@
        + "EXAMPLE:\n"@
        + "    s7forge check-item-download --app-id 548430 --item-id 123456789\n"@
}

/// The help for `check-item-download`, as it is printed.
pub fn check_item_help() -> (text: String)
    ensures
        text@ == check_item_help_text(),
{
    let mut text = "Check download status of a workshop item\n\n".to_string();
    text.append("USAGE:\n");
    text.append("    s7forge check-item-download --app-id <APP_ID> --item-id <ITEM_ID>\n\n");
    text.append("OPTIONS:\n");
    text.append("    --app-id <APP_ID>      Steam App ID of the game\n");
    text.append("    --item-id <ITEM_ID>    Workshop item ID to check download status for\n");
    text.append("    -h, --help             Print help\n\n");
    text.append("EXAMPLE:\n");
    text.append("    s7forge check-item-download --app-id 548430 --item-id 123456789\n");
    text
}

/// The help for `collection-items`: its lines, each ended by a line feed.
pub open spec fn collection_items_help_text() -> Seq<char> {
    "Get items from a workshop collection\n\n"@
        + "USAGE:\n"@
        + "    s7forge collection-items --app-id <APP_ID> --item-id <ITEM_ID>\n\n"@
        + "OPTIONS:\n"@
        + "    --app-id <APP_ID>      Steam App ID of the game\n"@
        + "    --item-id <ITEM_ID>    Collection ID to get items from\n"@
        + "    -h, --help             Print help\n\n"@
        + "EXAMPLE:\n"@
        + "    s7forge collection-items --app-id 548430 --item-id 987654321\n"@
}

/// The help for `collection-items`, as it is printed.
pub fn collection_items_help() -> (text: String)
    ensures
        text@ == collection_items_help_text(),
{
    let mut text = "Get items from a workshop collection\n\n".to_string();
    text.append("USAGE:\n");
    text.append("    s7forge collection-items --app-id <APP_ID> --item-id <ITEM_ID>\n\n");
    text.append("OPTIONS:\n");
    text.append("    --app-id <APP_ID>      Steam App ID of the game\n");
    text.append("    --item-id <ITEM_ID>    Collection ID to get items from\n");
    text.append("    -h, --help             Print help\n\n");
    text.append("EXAMPLE:\n");
    text.append("    s7forge collection-items --app-id 548430 --item-id 987654321\n");
    text
}

/// The help for `search-workshop`: its lines, each ended by a line feed.
pub open spec fn search_workshop_help_text() -> Seq<char> {
    "Search workshop content by text query with flexible sorting options\n\n"@
        + "USAGE:\n"@
        + "    s7forge search-workshop --app-id <APP_ID> [OPTIONS]\n\n"@
        + "OPTIONS:\n"@
        + "    --app-id <APP_ID>        Steam App ID of the game\n"@
        + "    --query <QUERY>          Text to search for (optional for most sort methods)\n"@
        + "    --sort-by <SORT>         Sort by: relevance, recent, popular, most-subscribed, recently-updated [default: relevance]\n"@
        + "    --period <PERIOD>        Time period filter: today, one-week, three-months, six-months, one-year (only for 'popular' sort)\n"@
        + "    --page <PAGE>            Page number for pagination [default: 1]\n"@
        + "    --tags <TAGS>            Filter by tags, comma-separated (e.g., 'mod,weapon')\n"@
        + "    -h, --help               Print help\n\n"@
        + "EXAMPLES:\n"@
        + "    s7forge search-workshop --app-id 548430 --query \"tank\" --sort-by relevance\n"@
        + "    s7forge search-workshop --app-id 548430 --sort-by recent --tags \"mod,weapon\"\n"@
        + "    s7forge search-workshop --app-id 548430 --sort-by popular --period one-week\n"@
}

/// The help for `search-workshop`, as it is printed.
pub fn search_workshop_help() -> (text: String)
    ensures
        text@ == search_workshop_help_text(),
{
    let mut text = "Search workshop content by text query with flexible sorting options\n\n".to_string();
    text.append("USAGE:\n");
    text.append("    s7forge search-workshop --app-id <APP_ID> [OPTIONS]\n\n");
    text.append("OPTIONS:\n");
    text.append("    --app-id <APP_ID>        Steam App ID of the game\n");
    text.append("    --query <QUERY>          Text to search for (optional for most sort methods)\n");
    text.append("    --sort-by <SORT>         Sort by: relevance, recent, popular, most-subscribed, recently-updated [default: relevance]\n");
    text.append("    --period <PERIOD>        Time period filter: today, one-week, three-months, six-months, one-year (only for 'popular' sort)\n");
    text.append("    --page <PAGE>            Page number for pagination [default: 1]\n");
    text.append("    --tags <TAGS>            Filter by tags, comma-separated (e.g., 'mod,weapon')\n");
    text.append("    -h, --help               Print help\n\n");
    text.append("EXAMPLES:\n");
    text.append("    s7forge search-workshop --app-id 548430 --query \"tank\" --sort-by relevance\n");
    text.append("    s7forge search-workshop --app-id 548430 --sort-by recent --tags \"mod,weapon\"\n");
    text.append("    s7forge search-workshop --app-id 548430 --sort-by popular --period one-week\n");
    text
}

/// The help for `clear-cache`: its lines, each ended by a line feed.
pub open spec fn clear_cache_help_text() -> Seq<char> {
    "Clear all cached data (creator names, workshop items)\n\n"@
        + "USAGE:\n"@
        + "    s7forge clear-cache\n\n"@
        + "OPTIONS:\n"@
        + "    -h, --help    Print help\n\n"@
        + "EXAMPLE:\n"@
        + "    s7forge clear-cache\n"@
}

/// The help for `clear-cache`, as it is printed.
pub fn clear_cache_help() -> (text: String)
    ensures
        text@ == clear_cache_help_text(),
{
    let mut text = "Clear all cached data (creator names, workshop items)\n\n".to_string();
    text.append("USAGE:\n");
    text.append("    s7forge clear-cache\n\n");
    text.append("OPTIONS:\n");
    text.append("    -h, --help    Print help\n\n");
    text.append("EXAMPLE:\n");
    text.append("    s7forge clear-cache\n");
    text
}

/// The help for `steam-library-paths`: its lines, each ended by a line feed.
pub open spec fn steam_library_paths_help_text() -> Seq<char> {
    "List all Steam library folder paths\n\n"@
        + "USAGE:\n"@
        + "    s7forge steam-library-paths\n\n"@
        + "OPTIONS:\n"@
        + "    -h, --help    Print help\n\n"@
        + "EXAMPLE:\n"@
        + "    s7forge steam-library-paths\n"@
}

/// The help for `steam-library-paths`, as it is printed.
pub fn steam_library_paths_help() -> (text: String)
    ensures
        text@ == steam_library_paths_help_text(),
{
    let mut text = "List all Steam library folder paths\n\n".to_string();
    text.append("USAGE:\n");
    text.append("    s7forge steam-library-paths\n\n");
    text.append("OPTIONS:\n");
    text.append("    -h, --help    Print help\n\n");
    text.append("EXAMPLE:\n");
    text.append("    s7forge steam-library-paths\n");
    text
}

/// The help for `workshop-items`: its lines, each ended by a line feed.
pub open spec fn workshop_items_help_text() -> Seq<char> {
    "Get detailed information about workshop items\n\n"@
        + "USAGE:\n"@
        + "    s7forge workshop-items --app-id <APP_ID> --item-ids <ITEM_IDS>\n\n"@
        + "OPTIONS:\n"@
        + "    --app-id <APP_ID>          Steam App ID of the game\n"@
        + "    --item-ids <ITEM_IDS>      Workshop item IDs (comma-separated)\n"@
        + "    -h, --help                 Print help\n\n"@
        + "EXAMPLE:\n"@
        + "    s7forge workshop-items --app-id 548430 --item-ids 123,456,789\n"@
}

/// The help for `workshop-items`, as it is printed.
pub fn workshop_items_help() -> (text: String)
    ensures
        text@ == workshop_items_help_text(),
{
    let mut text = "Get detailed information about workshop items\n\n".to_string();
    text.append("USAGE:\n");
    text.append("    s7forge workshop-items --app-id <APP_ID> --item-ids <ITEM_IDS>\n\n");
    text.append("OPTIONS:\n");
    text.append("    --app-id <APP_ID>          Steam App ID of the game\n");
    text.append("    --item-ids <ITEM_IDS>      Workshop item IDs (comma-separated)\n");
    text.append("    -h, --help                 Print help\n\n");
    text.append("EXAMPLE:\n");
    text.append("    s7forge workshop-items --app-id 548430 --item-ids 123,456,789\n");
    text
}

/// The help for `subscribe`: its lines, each ended by a line feed.
pub open spec fn subscribe_help_text() -> Seq<char> {
    "Subscribe to workshop items\n\n"@
        + "USAGE:\n"@
        + "    s7forge subscribe --app-id <APP_ID> --item-ids <ITEM_IDS>\n\n"@
        + "OPTIONS:\n"@
        + "    --app-id <APP_ID>          Steam App ID of the game\n"@
        + "    --item-ids <ITEM_IDS>      Workshop item IDs to subscribe to (comma-separated)\n"@
        + "    -h, --help                 Print help\n\n"@
        + "EXAMPLE:\n"@
        + "    s7forge subscribe --app-id 548430 --item-ids 123,456,789\n"@
}

/// The help for `subscribe`, as it is printed.
pub fn subscribe_help() -> (text: String)
    ensures
        text@ == subscribe_help_text(),
{
    let mut text = "Subscribe to workshop items\n\n".to_string();
    text.append("USAGE:\n");
    text.append("    s7forge subscribe --app-id <APP_ID> --item-ids <ITEM_IDS>\n\n");
    text.append("OPTIONS:\n");
    text.append("    --app-id <APP_ID>          Steam App ID of the game\n");
    text.append("    --item-ids <ITEM_IDS>      Workshop item IDs to subscribe to (comma-separated)\n");
    text.append("    -h, --help                 Print help\n\n");
    text.append("EXAMPLE:\n");
    text.append("    s7forge subscribe --app-id 548430 --item-ids 123,456,789\n");
    text
}

/// The help for `unsubscribe`: its lines, each ended by a line feed.
pub open spec fn unsubscribe_help_text() -> Seq<char> {
    "Unsubscribe from workshop items\n\n"@
        + "USAGE:\n"@
        + "    s7forge unsubscribe --app-id <APP_ID> --item-ids <ITEM_IDS>\n\n"@
        + "OPTIONS:\n"@
        + "    --app-id <APP_ID>          Steam App ID of the game\n"@
        + "    --item-ids <ITEM_IDS>      Workshop item IDs to unsubscribe from (comma-separated)\n"@
        + "    -h, --help                 Print help\n\n"@
        + "EXAMPLE:\n"@
        + "    s7forge unsubscribe --app-id 548430 --item-ids 123,456,789\n"@
}

/// The help for `unsubscribe`, as it is printed.
pub fn unsubscribe_help() -> (text: String)
    ensures
        text@ == unsubscribe_help_text(),
{
    let mut text = "Unsubscribe from workshop items\n\n".to_string();
    text.append("USAGE:\n");
    text.append("    s7forge unsubscribe --app-id <APP_ID> --item-ids <ITEM_IDS>\n\n");
    text.append("OPTIONS:\n");
    text.append("    --app-id <APP_ID>          Steam App ID of the game\n");
    text.append("    --item-ids <ITEM_IDS>      Workshop item IDs to unsubscribe from (comma-separated)\n");
    text.append("    -h, --help                 Print help\n\n");
    text.append("EXAMPLE:\n");
    text.append("    s7forge unsubscribe --app-id 548430 --item-ids 123,456,789\n");
    text
}

/// The help for `download-workshop-item`: its lines, each ended by a line feed.
pub open spec fn download_workshop_item_help_text() -> Seq<char> {
    "Download a workshop item you own\n\n"@
        + "USAGE:\n"@
        + "    s7forge download-workshop-item --app-id <APP_ID> --item-id <ITEM_ID>\n\n"@
        + "OPTIONS:\n"@
        + "    --app-id <APP_ID>      Steam App ID of the game\n"@
        + "    --item-id <ITEM_ID>    Workshop item ID to download\n"@
        + "    -h, --help             Print help\n\n"@
        + "EXAMPLE:\n"@
        + "    s7forge download-workshop-item --app-id 548430 --item-id 123456789\n"@
}

/// The help for `download-workshop-item`, as it is printed.
pub fn download_workshop_item_help() -> (text: String)
    ensures
        text@ == download_workshop_item_help_text(),
{
    let mut text = "Download a workshop item you own\n\n".to_string();
    text.append("USAGE:\n");
    text.append("    s7forge download-workshop-item --app-id <APP_ID> --item-id <ITEM_ID>\n\n");
    text.append("OPTIONS:\n");
    text.append("    --app-id <APP_ID>      Steam App ID of the game\n");
    text.append("    --item-id <ITEM_ID>    Workshop item ID to download\n");
    text.append("    -h, --help             Print help\n\n");
    text.append("EXAMPLE:\n");
    text.append("    s7forge download-workshop-item --app-id 548430 --item-id 123456789\n");
    text
}

/// The help for `subscribed-items`: its lines, each ended by a line feed.
pub open spec fn subscribed_items_help_text() -> Seq<char> {
    "List all items you're subscribed to for a game\n\n"@
        + "USAGE:\n"@
        + "    s7forge subscribed-items --app-id <APP_ID>\n\n"@
        + "OPTIONS:\n"@
        + "    --app-id <APP_ID>      Steam App ID of the game\n"@
        + "    -h, --help             Print help\n\n"@
        + "EXAMPLE:\n"@
        + "    s7forge subscribed-items --app-id 548430\n"@
}

/// The help for `subscribed-items`, as it is printed.
pub fn subscribed_items_help() -> (text: String)
    ensures
        text@ == subscribed_items_help_text(),
{
    let mut text = "List all items you're subscribed to for a game\n\n".to_string();
    text.append("USAGE:\n");
    text.append("    s7forge subscribed-items --app-id <APP_ID>\n\n");
    text.append("OPTIONS:\n");
    text.append("    --app-id <APP_ID>      Steam App ID of the game\n");
    text.append("    -h, --help             Print help\n\n");
    text.append("EXAMPLE:\n");
    text.append("    s7forge subscribed-items --app-id 548430\n");
    text
}

/// The help for `workshop-path`: its lines, each ended by a line feed.
pub open spec fn workshop_path_help_text() -> Seq<char> {
    "Get the local workshop path for a game\n\n"@
        + "USAGE:\n"@
        + "    s7forge workshop-path --app-id <APP_ID>\n\n"@
        + "OPTIONS:\n"@
        + "    --app-id <APP_ID>      Steam App ID of the game\n"@
        + "    -h, --help             Print help\n\n"@
        + "EXAMPLE:\n"@
        + "    s7forge workshop-path --app-id 548430\n"@
}

/// The help for `workshop-path`, as it is printed.
pub fn workshop_path_help() -> (text: String)
    ensures
        text@ == workshop_path_help_text(),
{
    let mut text = "Get the local workshop path for a game\n\n".to_string();
    text.append("USAGE:\n");
    text.append("    s7forge workshop-path --app-id <APP_ID>\n\n");
    text.append("OPTIONS:\n");
    text.append("    --app-id <APP_ID>      Steam App ID of the game\n");
    text.append("    -h, --help             Print help\n\n");
    text.append("EXAMPLE:\n");
    text.append("    s7forge workshop-path --app-id 548430\n");
    text
}

/// The help for `discover-tags`: its lines, each ended by a line feed.
pub open spec fn discover_tags_help_text() -> Seq<char> {
    "Discover all available workshop tags for a game\n\n"@
        + "USAGE:\n"@
        + "    s7forge discover-tags --app-id <APP_ID>\n\n"@
        + "OPTIONS:\n"@
        + "    --app-id <APP_ID>      Steam App ID of the game\n"@
        + "    -h, --help             Print help\n\n"@
        + "EXAMPLE:\n"@
        + "    s7forge discover-tags --app-id 548430\n"@
}

/// The help for `discover-tags`, as it is printed.
pub fn discover_tags_help() -> (text: String)
    ensures
        text@ == discover_tags_help_text(),
{
    let mut text = "Discover all available workshop tags for a game\n\n".to_string();
    text.append("USAGE:\n");
    text.append("    s7forge discover-tags --app-id <APP_ID>\n\n");
    text.append("OPTIONS:\n");
    text.append("    --app-id <APP_ID>      Steam App ID of the game\n");
    text.append("    -h, --help             Print help\n\n");
    text.append("EXAMPLE:\n");
    text.append("    s7forge discover-tags --app-id 548430\n");
    text
}

} // verus!
