//! Reading a command line. The arguments are cut into options and values by
//! `lexopt`; what each of them means for the command is decided here, one
//! argument at a time.

use crate::cli::Command;
use crate::numbers::{item_ids_of, number_of, parse_item_ids};
use crate::text::{str_eq, string_views};
use lexopt::ValueExt;
use vstd::prelude::*;
use vstd::string::StringExecFns;

verus! {

/// `lexopt::Parser`, the tokenizer with what is left of the line: carried
/// through as it is, nothing is known of it.
#[verifier::external_type_specification]
#[verifier::external_body]
pub struct ExParser(lexopt::Parser);

/// One argument as the tokenizer hands it out.
#[derive(Debug)]
pub enum Token {
    /// A short option, without its dash.
    Short(char),
    /// A long option, without its dashes.
    Long(String),
    /// An argument that is no option.
    Value(String),
}

/// The commands by name.
#[derive(Debug, Clone, Copy, PartialEq, Eq, Structural)]
pub enum CommandKind {
    CheckItemDownload,
    CollectionItems,
    WorkshopItems,
    Subscribe,
    Unsubscribe,
    DownloadWorkshopItem,
    SubscribedItems,
    SearchWorkshop,
    WorkshopPath,
    SteamLibraryPaths,
    ClearCache,
    DiscoverTags,
}

/// The options that take a value.
#[derive(Debug, Clone, Copy, PartialEq, Eq, Structural)]
pub enum OptionName {
    AppId,
    ItemId,
    ItemIds,
    Query,
    SortBy,
    Period,
    Page,
    Tags,
}

/// What a help text is about.
#[derive(Debug, Clone, Copy, PartialEq, Eq, Structural)]
pub enum HelpTopic {
    Program,
    Command(CommandKind),
}

/// What a command line asks for.
#[derive(Debug)]
pub enum Parsed {
    /// Run this command.
    Run(Command),
    /// Print this help and stop.
    Help(HelpTopic),
}

/// Why a command line is refused.
#[derive(Debug)]
pub enum CliError {
    /// The line does not start with a command.
    MissingCommand,
    /// The line starts with a word that is no command; holds the word.
    UnknownCommand(String),
    /// The command needs `--app-id` and has none.
    MissingAppId,
    /// The command needs `--item-id` and has none.
    MissingItemId,
    /// A piece of `--item-ids` is no id; holds the piece.
    InvalidItemId(String),
    /// The tokenizer refused the line; holds its words.
    Tokenizer(String),
}

/// What the options of a command line have given so far.
#[derive(Debug)]
pub struct Options {
    pub app_id: Option<u32>,
    pub item_id: Option<u64>,
    pub item_ids: Vec<u64>,
    pub query: String,
    pub sort_by: String,
    pub period: Option<String>,
    pub page: u32,
    pub tags: Option<String>,
}

/// How far the reading of a command line has come.
#[derive(Debug)]
pub enum Progress {
    /// Nothing was read yet.
    Start,
    /// The command was read, and these options.
    Reading(CommandKind, Options),
}

/// What the reading needs next.
#[derive(Debug)]
pub enum Request {
    /// The next argument.
    Token(Progress),
    /// The value of this option.
    Value(CommandKind, Options, OptionName),
    /// Nothing: this argument is not one the command takes.
    Reject(Token),
    /// Nothing: the line is read.
    Done(Result<Parsed, CliError>),
}

/// The command that a word names.
pub open spec fn kind_named(name: Seq<char>) -> Option<CommandKind> {
    if name == "check-item-download"@ {
        Some(CommandKind::CheckItemDownload)
    } else if name == "collection-items"@ {
        Some(CommandKind::CollectionItems)
    } else if name == "search-workshop"@ {
        Some(CommandKind::SearchWorkshop)
    } else if name == "clear-cache"@ {
        Some(CommandKind::ClearCache)
    } else if name == "steam-library-paths"@ {
        Some(CommandKind::SteamLibraryPaths)
    } else if name == "workshop-items"@ {
        Some(CommandKind::WorkshopItems)
    } else if name == "subscribe"@ {
        Some(CommandKind::Subscribe)
    } else if name == "unsubscribe"@ {
        Some(CommandKind::Unsubscribe)
    } else if name == "download-workshop-item"@ {
        Some(CommandKind::DownloadWorkshopItem)
    } else if name == "subscribed-items"@ {
        Some(CommandKind::SubscribedItems)
    } else if name == "workshop-path"@ {
        Some(CommandKind::WorkshopPath)
    } else if name == "discover-tags"@ {
        Some(CommandKind::DiscoverTags)
    } else {
        None
    }
}

/// Whether a word in the place of the command asks for the program's help.
pub open spec fn is_help_word(name: Seq<char>) -> bool {
    name == "help"@ || name == "--help"@ || name == "-h"@
}

/// The option that a long name stands for.
pub open spec fn option_named(name: Seq<char>) -> Option<OptionName> {
    if name == "app-id"@ {
        Some(OptionName::AppId)
    } else if name == "item-id"@ {
        Some(OptionName::ItemId)
    } else if name == "item-ids"@ {
        Some(OptionName::ItemIds)
    } else if name == "query"@ {
        Some(OptionName::Query)
    } else if name == "sort-by"@ {
        Some(OptionName::SortBy)
    } else if name == "period"@ {
        Some(OptionName::Period)
    } else if name == "page"@ {
        Some(OptionName::Page)
    } else if name == "tags"@ {
        Some(OptionName::Tags)
    } else {
        None
    }
}

/// Whether a command takes an option.
pub open spec fn takes(kind: CommandKind, option: OptionName) -> bool {
    match kind {
        CommandKind::CheckItemDownload | CommandKind::CollectionItems
        | CommandKind::DownloadWorkshopItem => option == OptionName::AppId || option
            == OptionName::ItemId,
        CommandKind::WorkshopItems | CommandKind::Subscribe | CommandKind::Unsubscribe => option
            == OptionName::AppId || option == OptionName::ItemIds,
        CommandKind::SubscribedItems | CommandKind::WorkshopPath | CommandKind::DiscoverTags => option
            == OptionName::AppId,
        CommandKind::SearchWorkshop => option == OptionName::AppId || option == OptionName::Query
            || option == OptionName::SortBy || option == OptionName::Period || option
            == OptionName::Page || option == OptionName::Tags,
        CommandKind::SteamLibraryPaths | CommandKind::ClearCache => false,
    }
}

/// Whether an argument asks for the help of the command.
pub open spec fn is_help_flag(token: Token) -> bool {
    match token {
        Token::Long(name) => name@ == "help"@,
        Token::Short(c) => c == 'h',
        Token::Value(_) => false,
    }
}

/// The option of `kind` that an argument opens, if it opens one.
pub open spec fn opened(kind: CommandKind, token: Token) -> Option<OptionName> {
    match token {
        Token::Long(name) => match option_named(name@) {
            Some(option) => if takes(kind, option) {
                Some(option)
            } else {
                None
            },
            None => None,
        },
        _ => None,
    }
}

/// Whether the value of an option is a number.
pub open spec fn is_number(option: OptionName) -> bool {
    option == OptionName::AppId || option == OptionName::ItemId || option == OptionName::Page
}

/// Whether a command needs an item id.
pub open spec fn needs_item_id(kind: CommandKind) -> bool {
    kind == CommandKind::CheckItemDownload || kind == CommandKind::CollectionItems || kind
        == CommandKind::DownloadWorkshopItem
}

/// Whether a command needs a game id.
pub open spec fn needs_app_id(kind: CommandKind) -> bool {
    kind != CommandKind::SteamLibraryPaths && kind != CommandKind::ClearCache
}

/// The command that a kind and its options make, where nothing is missing.
pub open spec fn command_of(kind: CommandKind, options: Options) -> Command {
    let app_id = options.app_id->0;
    let item_id = options.item_id->0;
    match kind {
        CommandKind::CheckItemDownload => Command::CheckItemDownload { app_id, item_id },
        CommandKind::CollectionItems => Command::CollectionItems { app_id, item_id },
        CommandKind::WorkshopItems => Command::WorkshopItems { app_id, item_ids: options.item_ids },
        CommandKind::Subscribe => Command::Subscribe { app_id, item_ids: options.item_ids },
        CommandKind::Unsubscribe => Command::Unsubscribe { app_id, item_ids: options.item_ids },
        CommandKind::DownloadWorkshopItem => Command::DownloadWorkshopItem { app_id, item_id },
        CommandKind::SubscribedItems => Command::SubscribedItems { app_id },
        CommandKind::SearchWorkshop => Command::SearchWorkshop {
            app_id,
            query: options.query,
            sort_by: options.sort_by,
            period: options.period,
            page: options.page,
            tags: options.tags,
        },
        CommandKind::WorkshopPath => Command::WorkshopPath { app_id },
        CommandKind::SteamLibraryPaths => Command::SteamLibraryPaths,
        CommandKind::ClearCache => Command::ClearCache,
        CommandKind::DiscoverTags => Command::DiscoverTags { app_id },
    }
}

/// What the end of the line makes of a command and its options: a missing
/// game id is reported first, then a missing item id.
pub open spec fn finished(kind: CommandKind, options: Options) -> Result<Parsed, CliError> {
    if needs_app_id(kind) && options.app_id is None {
        Err(CliError::MissingAppId)
    } else if needs_item_id(kind) && options.item_id is None {
        Err(CliError::MissingItemId)
    } else {
        Ok(Parsed::Run(command_of(kind, options)))
    }
}

/// `options` with the number `number` as the value of `option`. A number
/// for an option that takes none changes nothing.
pub open spec fn with_number(options: Options, option: OptionName, number: u64) -> Options {
    match option {
        OptionName::AppId => Options { app_id: Some(number as u32), ..options },
        OptionName::ItemId => Options { item_id: Some(number), ..options },
        OptionName::Page => Options { page: number as u32, ..options },
        _ => options,
    }
}

impl Options {
    /// Whether the options are those of a line without options: no ids, an
    /// empty query, sorting by relevance, no period, page 1 and no tags.
    pub open spec fn is_initial(&self) -> bool {
        &&& self.app_id is None
        &&& self.item_id is None
        &&& self.item_ids@.len() == 0
        &&& self.query@.len() == 0
        &&& self.sort_by@ == "relevance"@
        &&& self.period is None
        &&& self.page == 1
        &&& self.tags is None
    }

    /// The options of a line without options.
    pub fn new() -> (options: Self)
        ensures
            options.is_initial(),
    {
        Options {
            app_id: None,
            item_id: None,
            item_ids: Vec::new(),
            query: String::new(),
            sort_by: "relevance".to_string(),
            period: None,
            page: 1,
            tags: None,
        }
    }
}

/// The command that a word names.
pub fn command_kind(name: &str) -> (kind: Option<CommandKind>)
    ensures
        kind == kind_named(name@),
{
    if str_eq(name, "check-item-download") {
        Some(CommandKind::CheckItemDownload)
    } else if str_eq(name, "collection-items") {
        Some(CommandKind::CollectionItems)
    } else if str_eq(name, "search-workshop") {
        Some(CommandKind::SearchWorkshop)
    } else if str_eq(name, "clear-cache") {
        Some(CommandKind::ClearCache)
    } else if str_eq(name, "steam-library-paths") {
        Some(CommandKind::SteamLibraryPaths)
    } else if str_eq(name, "workshop-items") {
        Some(CommandKind::WorkshopItems)
    } else if str_eq(name, "subscribe") {
        Some(CommandKind::Subscribe)
    } else if str_eq(name, "unsubscribe") {
        Some(CommandKind::Unsubscribe)
    } else if str_eq(name, "download-workshop-item") {
        Some(CommandKind::DownloadWorkshopItem)
    } else if str_eq(name, "subscribed-items") {
        Some(CommandKind::SubscribedItems)
    } else if str_eq(name, "workshop-path") {
        Some(CommandKind::WorkshopPath)
    } else if str_eq(name, "discover-tags") {
        Some(CommandKind::DiscoverTags)
    } else {
        None
    }
}

/// The option that a long name stands for.
pub fn option_name(name: &str) -> (option: Option<OptionName>)
    ensures
        option == option_named(name@),
{
    if str_eq(name, "app-id") {
        Some(OptionName::AppId)
    } else if str_eq(name, "item-id") {
        Some(OptionName::ItemId)
    } else if str_eq(name, "item-ids") {
        Some(OptionName::ItemIds)
    } else if str_eq(name, "query") {
        Some(OptionName::Query)
    } else if str_eq(name, "sort-by") {
        Some(OptionName::SortBy)
    } else if str_eq(name, "period") {
        Some(OptionName::Period)
    } else if str_eq(name, "page") {
        Some(OptionName::Page)
    } else if str_eq(name, "tags") {
        Some(OptionName::Tags)
    } else {
        None
    }
}

/// Whether a command takes an option.
pub fn command_takes(kind: CommandKind, option: OptionName) -> (taken: bool)
    ensures
        taken == takes(kind, option),
{
    match kind {
        CommandKind::CheckItemDownload | CommandKind::CollectionItems
        | CommandKind::DownloadWorkshopItem => {
            matches!(option, OptionName::AppId | OptionName::ItemId)
        },
        CommandKind::WorkshopItems | CommandKind::Subscribe | CommandKind::Unsubscribe => {
            matches!(option, OptionName::AppId | OptionName::ItemIds)
        },
        CommandKind::SubscribedItems | CommandKind::WorkshopPath | CommandKind::DiscoverTags => {
            matches!(option, OptionName::AppId)
        },
        CommandKind::SearchWorkshop => {
            matches!(
                option,
                OptionName::AppId | OptionName::Query | OptionName::SortBy | OptionName::Period
                    | OptionName::Page | OptionName::Tags
            )
        },
        CommandKind::SteamLibraryPaths | CommandKind::ClearCache => false,
    }
}

/// Makes the command of a line that has ended.
pub fn finish(kind: CommandKind, options: Options) -> (parsed: Result<Parsed, CliError>)
    ensures
        parsed == finished(kind, options),
{
    let needs_app = !matches!(kind, CommandKind::SteamLibraryPaths | CommandKind::ClearCache);
    let needs_item = matches!(
        kind,
        CommandKind::CheckItemDownload | CommandKind::CollectionItems
            | CommandKind::DownloadWorkshopItem
    );
    let app_id = match options.app_id {
        Some(app_id) => app_id,
        None => {
            if needs_app {
                return Err(CliError::MissingAppId);
            }
            0
        },
    };
    let item_id = match options.item_id {
        Some(item_id) => item_id,
        None => {
            if needs_item {
                return Err(CliError::MissingItemId);
            }
            0
        },
    };
    let command = match kind {
        CommandKind::CheckItemDownload => Command::CheckItemDownload { app_id, item_id },
        CommandKind::CollectionItems => Command::CollectionItems { app_id, item_id },
        CommandKind::WorkshopItems => Command::WorkshopItems { app_id, item_ids: options.item_ids },
        CommandKind::Subscribe => Command::Subscribe { app_id, item_ids: options.item_ids },
        CommandKind::Unsubscribe => Command::Unsubscribe { app_id, item_ids: options.item_ids },
        CommandKind::DownloadWorkshopItem => Command::DownloadWorkshopItem { app_id, item_id },
        CommandKind::SubscribedItems => Command::SubscribedItems { app_id },
        CommandKind::SearchWorkshop => Command::SearchWorkshop {
            app_id,
            query: options.query,
            sort_by: options.sort_by,
            period: options.period,
            page: options.page,
            tags: options.tags,
        },
        CommandKind::WorkshopPath => Command::WorkshopPath { app_id },
        CommandKind::SteamLibraryPaths => Command::SteamLibraryPaths,
        CommandKind::ClearCache => Command::ClearCache,
        CommandKind::DiscoverTags => Command::DiscoverTags { app_id },
    };
    Ok(Parsed::Run(command))
}

/// What one argument, or the end of the line, means where the reading
/// stands.
///
/// At the start, the argument must be a word: a command's name starts the
/// reading of its options, a help word asks for the program's help, and any
/// other word is an unknown command. Anything else there, the end of the
/// line too, is a missing command.
///
/// After the command, the end of the line ends the reading; `--help` and
/// `-h` ask for the command's help; a long option that the command takes
/// asks for its value; any other argument is rejected.
pub open spec fn token_step(progress: Progress, token: Option<Token>, request: Request) -> bool {
    match progress {
        Progress::Start => match token {
            Some(Token::Value(name)) => match kind_named(name@) {
                Some(kind) => {
                    &&& request matches Request::Token(Progress::Reading(read, options))
                    &&& read == kind
                    &&& options.is_initial()
                },
                None => if is_help_word(name@) {
                    request == Request::Done(Ok(Parsed::Help(HelpTopic::Program)))
                } else {
                    request == Request::Done(Err(CliError::UnknownCommand(name)))
                },
            },
            _ => request == Request::Done(Err(CliError::MissingCommand)),
        },
        Progress::Reading(kind, options) => match token {
            None => request == Request::Done(finished(kind, options)),
            Some(token) => if opened(kind, token) is Some {
                request == Request::Value(kind, options, opened(kind, token)->0)
            } else if is_help_flag(token) {
                request == Request::Done(Ok(Parsed::Help(HelpTopic::Command(kind))))
            } else {
                request == Request::Reject(token)
            },
        },
    }
}

/// Decides what one argument, or the end of the line, means.
pub fn on_token(progress: Progress, token: Option<Token>) -> (request: Request)
    ensures
        token_step(progress, token, request),
        token is None ==> request is Done,
{
    match progress {
        Progress::Start => match token {
            Some(Token::Value(name)) => match command_kind(name.as_str()) {
                Some(kind) => Request::Token(Progress::Reading(kind, Options::new())),
                None => {
                    if str_eq(name.as_str(), "help") || str_eq(name.as_str(), "--help") || str_eq(
                        name.as_str(),
                        "-h",
                    ) {
                        Request::Done(Ok(Parsed::Help(HelpTopic::Program)))
                    } else {
                        Request::Done(Err(CliError::UnknownCommand(name)))
                    }
                },
            },
            _ => Request::Done(Err(CliError::MissingCommand)),
        },
        Progress::Reading(kind, options) => match token {
            None => Request::Done(finish(kind, options)),
            Some(Token::Long(name)) => {
                match option_name(name.as_str()) {
                    Some(option) => {
                        if command_takes(kind, option) {
                            return Request::Value(kind, options, option);
                        }
                    },
                    None => {},
                }
                if str_eq(name.as_str(), "help") {
                    Request::Done(Ok(Parsed::Help(HelpTopic::Command(kind))))
                } else {
                    Request::Reject(Token::Long(name))
                }
            },
            Some(Token::Short(c)) => {
                if c == 'h' {
                    Request::Done(Ok(Parsed::Help(HelpTopic::Command(kind))))
                } else {
                    Request::Reject(Token::Short(c))
                }
            },
            Some(Token::Value(value)) => Request::Reject(Token::Value(value)),
        },
    }
}

/// Whether the value of an option is a number.
pub fn takes_number(option: OptionName) -> (number: bool)
    ensures
        number == is_number(option),
{
    matches!(option, OptionName::AppId | OptionName::ItemId | OptionName::Page)
}

/// Takes in the number that was read as the value of an option; the reading
/// goes on with the next argument. A later value of an option replaces an
/// earlier one.
pub fn on_number(kind: CommandKind, options: Options, option: OptionName, number: u64) -> (request:
    Request)
    requires
        option == OptionName::ItemId || number <= u32::MAX,
    ensures
        request == Request::Token(Progress::Reading(kind, with_number(options, option, number))),
{
    let mut options = options;
    match option {
        OptionName::AppId => {
            options.app_id = Some(number as u32);
        },
        OptionName::ItemId => {
            options.item_id = Some(number);
        },
        OptionName::Page => {
            options.page = number as u32;
        },
        _ => {},
    }
    Request::Token(Progress::Reading(kind, options))
}

/// What the text of an option's value means: a list of item ids is read
/// and fails the line at its first piece that is no id; any other text is
/// kept as it is, and the reading goes on with the next argument.
pub open spec fn text_step(
    kind: CommandKind,
    options: Options,
    option: OptionName,
    text: String,
    request: Request,
) -> bool {
    match option {
        OptionName::ItemIds => match item_ids_of(text@) {
            Ok(ids) => {
                &&& request matches Request::Token(Progress::Reading(read, after))
                &&& read == kind
                &&& after.item_ids@ == ids
                &&& after == (Options { item_ids: after.item_ids, ..options })
            },
            Err(piece) => {
                &&& request matches Request::Done(Err(CliError::InvalidItemId(refused)))
                &&& refused@ == piece
            },
        },
        OptionName::Query => request == Request::Token(
            Progress::Reading(kind, Options { query: text, ..options }),
        ),
        OptionName::SortBy => request == Request::Token(
            Progress::Reading(kind, Options { sort_by: text, ..options }),
        ),
        OptionName::Period => request == Request::Token(
            Progress::Reading(kind, Options { period: Some(text), ..options }),
        ),
        OptionName::Tags => request == Request::Token(
            Progress::Reading(kind, Options { tags: Some(text), ..options }),
        ),
        _ => request == Request::Token(Progress::Reading(kind, options)),
    }
}

/// Takes in the text that was read as the value of an option.
pub fn on_text(kind: CommandKind, options: Options, option: OptionName, text: String) -> (request:
    Request)
    ensures
        text_step(kind, options, option, text, request),
{
    let mut options = options;
    match option {
        OptionName::ItemIds => match parse_item_ids(text.as_str()) {
            Ok(ids) => {
                options.item_ids = ids;
            },
            Err(piece) => {
                return Request::Done(Err(CliError::InvalidItemId(piece)));
            },
        },
        OptionName::Query => {
            options.query = text;
        },
        OptionName::SortBy => {
            options.sort_by = text;
        },
        OptionName::Period => {
            options.period = Some(text);
        },
        OptionName::Tags => {
            options.tags = Some(text);
        },
        _ => {},
    }
    Request::Token(Progress::Reading(kind, options))
}

/// What is left of the line: the arguments that the tokenizer has not begun
/// to read, in order.
pub uninterp spec fn unread(parser: lexopt::Parser) -> Seq<Seq<char>>;

/// Where the tokenizer stands between two arguments with options still to
/// come: the value that came attached to the long option it handed out last
/// and was not taken yet, if there is one. Nothing where it stands inside a
/// cluster of short options, or after `--`.
pub uninterp spec fn attached(parser: lexopt::Parser) -> Option<Option<Seq<char>>>;

/// Whether an argument is a value wherever it stands: it is empty, a lone
/// dash, or starts with no dash.
pub open spec fn is_value_arg(arg: Seq<char>) -> bool {
    arg.len() <= 1 || arg[0] != '-'
}

/// Whether an argument is a long option: two dashes and more.
pub open spec fn is_long_arg(arg: Seq<char>) -> bool {
    arg.len() > 2 && arg[0] == '-' && arg[1] == '-'
}

/// The place of the first equals sign of an argument, or its length where it
/// has none.
pub open spec fn first_equals(arg: Seq<char>) -> int
    decreases arg.len(),
{
    if arg.len() == 0 {
        0
    } else if arg[0] == '=' {
        0
    } else {
        1 + first_equals(arg.drop_first())
    }
}

/// The name of a long option: what stands between its two dashes and its
/// first equals sign, or its end.
pub open spec fn long_name(arg: Seq<char>) -> Seq<char> {
    arg.subrange(2, first_equals(arg))
}

/// The value attached to a long option: what stands after its first equals
/// sign, if it has one.
pub open spec fn long_value(arg: Seq<char>) -> Option<Seq<char>> {
    if first_equals(arg) < arg.len() {
        Some(arg.skip(first_equals(arg) + 1))
    } else {
        None
    }
}

/// The value that an option gets: the one attached to it, else the next
/// argument, whatever that looks like; none at the end of the line.
pub open spec fn taken_value(unread: Seq<Seq<char>>, attached: Option<Seq<char>>) -> Option<
    Seq<char>,
> {
    if attached is Some {
        attached
    } else if unread.len() > 0 {
        Some(unread[0])
    } else {
        None
    }
}

/// What is left of the line once an option got its value.
pub open spec fn rest_after_value(unread: Seq<Seq<char>>, attached: Option<Seq<char>>) -> Seq<
    Seq<char>,
> {
    if attached is None && unread.len() > 0 {
        unread.drop_first()
    } else {
        unread
    }
}

/// What the tokenizer does when it is asked for the next argument while it
/// stands between two arguments. With a value still attached to the last
/// option it refuses. At the end of the line it hands out nothing. A value
/// is handed out as it is; a long option is handed out by its name, and
/// what is attached to it is kept for the next call. Each of these takes one
/// argument off the line. Of a cluster of short options and of `--` nothing
/// is stated.
pub open spec fn hands_out(
    unread: Seq<Seq<char>>,
    attached: Option<Option<Seq<char>>>,
    token: Result<Option<Token>, String>,
    unread_after: Seq<Seq<char>>,
    attached_after: Option<Option<Seq<char>>>,
) -> bool {
    match attached {
        None => true,
        Some(Some(_)) => {
            &&& token is Err
            &&& unread_after == unread
            &&& attached_after == Some(None::<Seq<char>>)
        },
        Some(None) => if unread.len() == 0 {
            &&& token matches Ok(None)
            &&& unread_after == unread
            &&& attached_after == Some(None::<Seq<char>>)
        } else if is_value_arg(unread[0]) {
            &&& token matches Ok(Some(Token::Value(word)))
            &&& word@ == unread[0]
            &&& unread_after == unread.drop_first()
            &&& attached_after == Some(None::<Seq<char>>)
        } else if is_long_arg(unread[0]) {
            &&& token matches Ok(Some(Token::Long(name)))
            &&& name@ == long_name(unread[0])
            &&& unread_after == unread.drop_first()
            &&& attached_after == Some(long_value(unread[0]))
        } else {
            true
        },
    }
}

/// What the tokenizer does when it is asked for a value while it stands
/// between two arguments: it gives the value that the option gets, takes it
/// off the line, and stands between two arguments with nothing attached. At
/// the end of the line it refuses.
pub open spec fn gives_value(
    unread: Seq<Seq<char>>,
    attached: Option<Option<Seq<char>>>,
    value: Option<Seq<char>>,
    unread_after: Seq<Seq<char>>,
    attached_after: Option<Option<Seq<char>>>,
) -> bool {
    match attached {
        None => true,
        Some(inner) => {
            &&& value == taken_value(unread, inner)
            &&& unread_after == rest_after_value(unread, inner)
            &&& attached_after == Some(None::<Seq<char>>)
        },
    }
}

/// The characters of the text that was read, if one was.
pub open spec fn text_read(text: Result<String, String>) -> Option<Seq<char>> {
    match text {
        Ok(text) => Some(text@),
        Err(_) => None,
    }
}

/// Whether `number` is what reading `value` as a number of at most `max`
/// gives: the number that the value stands for, and a refusal where there is
/// no value or it stands for no such number.
pub open spec fn number_read(value: Option<Seq<char>>, max: nat, number: Result<u64, String>) -> bool {
    match value {
        None => number is Err,
        Some(value) => match number_of(value, max) {
            Some(n) => number matches Ok(read) && read == n,
            None => number is Err,
        },
    }
}

/// A number of 32 bits as one of 64.
pub open spec fn widened(number: Result<u32, String>) -> Result<u64, String> {
    match number {
        Ok(number) => Ok(number as u64),
        Err(words) => Err(words),
    }
}

/// `lexopt::Parser::from_args`: a tokenizer over arguments that do not start
/// with the program's name. It has read nothing yet and stands before the
/// first argument.
#[verifier::external_body]
fn tokenizer(args: Vec<String>) -> (parser: lexopt::Parser)
    ensures
        unread(parser) == string_views(args@),
        attached(parser) == Some(None::<Seq<char>>),
{
    lexopt::Parser::from_args(args)
}

/// `lexopt::Parser::next`: the next option or positional argument, nothing at
/// the end of the line, or the tokenizer's words where it refuses the line.
/// What it does between two arguments is said by [`hands_out`].
#[verifier::external_body]
fn next_token(parser: &mut lexopt::Parser) -> (token: Result<Option<Token>, String>)
    ensures
        hands_out(
            unread(*old(parser)),
            attached(*old(parser)),
            token,
            unread(*final(parser)),
            attached(*final(parser)),
        ),
{
    match parser.next() {
        Ok(Some(lexopt::Arg::Short(c))) => Ok(Some(Token::Short(c))),
        Ok(Some(lexopt::Arg::Long(name))) => Ok(Some(Token::Long(name.to_string()))),
        Ok(Some(lexopt::Arg::Value(value))) => {
            Ok(Some(Token::Value(value.to_string_lossy().to_string())))
        },
        Ok(None) => Ok(None),
        Err(error) => Err(error.to_string()),
    }
}

/// `lexopt::Parser::value`: the value of the option that was handed out
/// last, or the tokenizer's words where there is none. What it does between
/// two arguments is said by [`gives_value`].
#[verifier::external_body]
fn next_text(parser: &mut lexopt::Parser) -> (text: Result<String, String>)
    ensures
        gives_value(
            unread(*old(parser)),
            attached(*old(parser)),
            text_read(text),
            unread(*final(parser)),
            attached(*final(parser)),
        ),
{
    parser.value().map(|value| value.to_string_lossy().to_string()).map_err(
        |error| error.to_string(),
    )
}

/// `lexopt::Parser::value` and `lexopt::ValueExt::parse`: the value of the
/// option that was handed out last, read as a number of 32 bits, or the
/// tokenizer's words where there is no value or it is no such number. The
/// value is taken as [`gives_value`] says; it is read as std reads a `u32`
/// from text: an optional plus sign and then digits only, of a value that
/// fits.
#[verifier::external_body]
fn next_u32(parser: &mut lexopt::Parser) -> (number: Result<u32, String>)
    ensures
        attached(*old(parser)) matches Some(inner) ==> {
            &&& gives_value(
                unread(*old(parser)),
                attached(*old(parser)),
                taken_value(unread(*old(parser)), inner),
                unread(*final(parser)),
                attached(*final(parser)),
            )
            &&& number_read(
                taken_value(unread(*old(parser)), inner),
                u32::MAX as nat,
                widened(number),
            )
        },
{
    parser.value().and_then(|value| value.parse::<u32>()).map_err(|error| error.to_string())
}

/// `lexopt::Parser::value` and `lexopt::ValueExt::parse`: the value of the
/// option that was handed out last, read as a number of 64 bits, or the
/// tokenizer's words where there is no value or it is no such number. The
/// value is taken as [`gives_value`] says; it is read as std reads a `u64`
/// from text: an optional plus sign and then digits only, of a value that
/// fits.
#[verifier::external_body]
fn next_u64(parser: &mut lexopt::Parser) -> (number: Result<u64, String>)
    ensures
        attached(*old(parser)) matches Some(inner) ==> {
            &&& gives_value(
                unread(*old(parser)),
                attached(*old(parser)),
                taken_value(unread(*old(parser)), inner),
                unread(*final(parser)),
                attached(*final(parser)),
            )
            &&& number_read(taken_value(unread(*old(parser)), inner), u64::MAX as nat, number)
        },
{
    parser.value().and_then(|value| value.parse::<u64>()).map_err(|error| error.to_string())
}

/// `lexopt::Arg::unexpected`, shown: the tokenizer's words for an argument
/// that was not expected. For an option they are `invalid option`, a space
/// and the option between single quotes, with its dashes. Of the words for
/// any other argument nothing is claimed.
#[verifier::external_body]
fn unexpected(token: Token) -> (words: String)
    ensures
        token matches Token::Short(c) ==> words@ == "invalid option '-"@ + seq![c] + "'"@,
        token matches Token::Long(name) ==> words@ == "invalid option '--"@ + name@ + "'"@,
{
    match token {
        Token::Short(c) => lexopt::Arg::Short(c).unexpected().to_string(),
        Token::Long(name) => lexopt::Arg::Long(&name).unexpected().to_string(),
        Token::Value(value) => lexopt::Arg::Value(value.into()).unexpected().to_string(),
    }
}

/// Whether a reading can end as `parsed`: the tokenizer refused the line, or
/// one step of the reading ends so.
pub open spec fn is_outcome(parsed: Result<Parsed, CliError>) -> bool {
    ||| parsed matches Err(CliError::Tokenizer(_))
    ||| exists|progress: Progress, token: Option<Token>| #[trigger]
        token_step(progress, token, Request::Done(parsed))
    ||| exists|kind: CommandKind, options: Options, option: OptionName, text: String| #[trigger]
        text_step(kind, options, option, text, Request::Done(parsed))
}

/// The size of a line: the bytes of its arguments and their number, and one
/// more.
pub open spec fn line_size(args: Seq<String>) -> nat
    decreases args.len(),
{
    if args.len() == 0 {
        1
    } else {
        line_size(args.drop_last()) + vstd::utf8::encode_utf8(args.last()@).len() + 1
    }
}

/// `size`, or the largest count that the machine holds where `size` is more.
pub open spec fn capped(size: nat) -> usize {
    if size > usize::MAX {
        usize::MAX
    } else {
        size as usize
    }
}

/// How many arguments the reading asks the tokenizer for at most: one for
/// each byte of the line and one for each of its arguments, and one more.
fn token_budget(args: &Vec<String>) -> (budget: usize)
    ensures
        budget == capped(line_size(args@)),
{
    let mut budget: usize = 1;
    let mut i: usize = 0;
    assert(args@.take(0) =~= Seq::<String>::empty());
    while i < args.len()
        invariant
            i <= args.len(),
            budget == capped(line_size(args@.take(i as int))),
        decreases args.len() - i,
    {
        assert(args@.take(i + 1).drop_last() =~= args@.take(i as int));
        assert(args@.take(i + 1).last() == args@[i as int]);
        let bytes = args[i].as_str().as_bytes().len();
        assert(bytes == vstd::utf8::encode_utf8(args@[i as int]@).len());
        budget = budget.saturating_add(bytes).saturating_add(1);
        i += 1;
    }
    assert(args@.take(args@.len() as int) =~= args@);
    budget
}

/// Whether `words` are the tokenizer's words for an argument that is
/// rejected: for an option, `invalid option` and the option between single
/// quotes, with its dashes. Of the words for a value nothing is stated.
pub open spec fn rejected_words(token: Token, words: Seq<char>) -> bool {
    match token {
        Token::Short(c) => words == "invalid option '-"@ + seq![c] + "'"@,
        Token::Long(name) => words == "invalid option '--"@ + name@ + "'"@,
        Token::Value(_) => true,
    }
}

/// The largest number that an option takes.
pub open spec fn max_of(option: OptionName) -> nat {
    if option == OptionName::ItemId {
        u64::MAX as nat
    } else {
        u32::MAX as nat
    }
}

/// Whether reading what is left of a line ends as `parsed`, where the
/// reading needs `request` next, `unread` is what is left of the line, and
/// `attached` is the value attached to the option that was read last.
///
/// The arguments are read from left to right. A value, and a long option
/// with or without a value attached by an equals sign, is decided by
/// [`token_step`]; the value of an option is what is attached to it or else
/// the next argument, whatever it looks like, and is decided by
/// [`with_number`] or [`text_step`]. A number that is too large or is no
/// number, a value that is missing, and a value attached to an option that
/// takes none, end the reading with the tokenizer's refusal. From the first
/// cluster of short options or `--` that is read as an argument, nothing is
/// stated of the line.
pub open spec fn reads(
    request: Request,
    unread: Seq<Seq<char>>,
    attached: Option<Seq<char>>,
    parsed: Result<Parsed, CliError>,
) -> bool
    decreases 2 * unread.len() + (if attached is Some {
        1nat
    } else {
        0nat
    }),
{
    match request {
        Request::Done(end) => parsed == end,
        Request::Reject(token) => {
            &&& parsed matches Err(CliError::Tokenizer(words))
            &&& rejected_words(token, words@)
        },
        Request::Token(progress) => if attached is Some {
            parsed matches Err(CliError::Tokenizer(_))
        } else if unread.len() == 0 {
            match progress {
                Progress::Start => parsed == Err::<Parsed, CliError>(CliError::MissingCommand),
                Progress::Reading(kind, options) => parsed == finished(kind, options),
            }
        } else if is_value_arg(unread[0]) {
            exists|word: String, next: Request|
                {
                    &&& #[trigger] token_step(progress, Some(Token::Value(word)), next)
                    &&& word@ == unread[0]
                    &&& reads(next, unread.drop_first(), None, parsed)
                }
        } else if is_long_arg(unread[0]) {
            exists|name: String, next: Request|
                {
                    &&& #[trigger] token_step(progress, Some(Token::Long(name)), next)
                    &&& name@ == long_name(unread[0])
                    &&& reads(next, unread.drop_first(), long_value(unread[0]), parsed)
                }
        } else {
            true
        },
        Request::Value(kind, options, option) => match taken_value(unread, attached) {
            None => parsed matches Err(CliError::Tokenizer(_)),
            Some(value) => if is_number(option) {
                match number_of(value, max_of(option)) {
                    Some(number) => reads(
                        Request::Token(
                            Progress::Reading(kind, with_number(options, option, number as u64)),
                        ),
                        rest_after_value(unread, attached),
                        None,
                        parsed,
                    ),
                    None => parsed matches Err(CliError::Tokenizer(_)),
                }
            } else {
                exists|text: String, next: Request|
                    {
                        &&& #[trigger] text_step(kind, options, option, text, next)
                        &&& text@ == value
                        &&& reads(next, rest_after_value(unread, attached), None, parsed)
                    }
            },
        },
    }
}

/// Whether reading the whole line `line` ends as `parsed`.
pub open spec fn reads_line(line: Seq<Seq<char>>, parsed: Result<Parsed, CliError>) -> bool {
    reads(Request::Token(Progress::Start), line, None, parsed)
}

/// A line has at least one more in size than it has arguments.
pub proof fn lemma_line_size(args: Seq<String>)
    ensures
        line_size(args) > args.len(),
    decreases args.len(),
{
    if args.len() > 0 {
        lemma_line_size(args.drop_last());
    }
}

/// Reads a command line, without the program's name in front. The tokenizer
/// cuts the line into arguments; each argument is decided by [`on_token`],
/// each value by [`on_number`] or [`on_text`], and an argument that they
/// reject is refused in the tokenizer's words. What the line gives is said
/// by [`reads_line`]. The tokenizer hands out no more arguments than the
/// line has bytes and arguments; the reading asks for no more than that and
/// takes the line as ended then.
pub fn parse_args(args: Vec<String>) -> (parsed: Result<Parsed, CliError>)
    ensures
        is_outcome(parsed),
        reads_line(string_views(args@), parsed),
{
    let ghost line = string_views(args@);
    let mut budget = token_budget(&args);
    proof {
        lemma_line_size(args@);
        assert(line.len() == args@.len());
        assert(args@.len() == args.len());
        assert(budget >= line.len());
    }
    let mut parser = tokenizer(args);
    let mut request = Request::Token(Progress::Start);
    let ghost mut silent = false;
    loop
        invariant
            line == string_views(args@),
            request matches Request::Done(parsed) ==> is_outcome(parsed),
            silent ==> forall|end: Result<Parsed, CliError>| #[trigger] reads_line(line, end),
            !silent ==> {
                &&& attached(parser) is Some
                &&& request is Token ==> attached(parser)->0 is None
                &&& budget >= unread(parser).len()
                &&& forall|end: Result<Parsed, CliError>| #[trigger]
                    reads(request, unread(parser), attached(parser)->0, end) ==> reads_line(
                        line,
                        end,
                    )
            },
        decreases
            budget,
            (if request is Value {
                2nat
            } else if request is Token {
                1nat
            } else {
                0nat
            }),
    {
        let ghost before = request;
        let ghost left = unread(parser);
        let ghost held = attached(parser);
        match request {
            Request::Done(parsed) => {
                assert(reads(before, left, held->0, parsed));
                return parsed;
            },
            Request::Reject(token) => {
                let words = unexpected(token);
                let parsed = Err(CliError::Tokenizer(words));
                assert(reads(before, left, held->0, parsed));
                return parsed;
            },
            Request::Token(progress) => {
                if budget == 0 {
                    request = on_token(progress, None);
                    proof {
                        if !silent {
                            assert(left.len() == 0);
                            assert forall|end: Result<Parsed, CliError>| #[trigger]
                                reads(request, left, held->0, end) implies reads_line(line, end) by {
                                assert(reads(before, left, held->0, end));
                            }
                        }
                    }
                } else {
                    budget = budget - 1;
                    match next_token(&mut parser) {
                        Ok(token) => {
                            request = on_token(progress, token);
                            proof {
                                if !silent {
                                    if left.len() > 0 && !is_value_arg(left[0]) && !is_long_arg(
                                        left[0],
                                    ) {
                                        assert forall|end: Result<Parsed, CliError>| #[trigger]
                                            reads_line(line, end) by {
                                            assert(reads(before, left, held->0, end));
                                        }
                                        silent = true;
                                    } else {
                                        assert forall|end: Result<Parsed, CliError>| #[trigger]
                                            reads(
                                                request,
                                                unread(parser),
                                                attached(parser)->0,
                                                end,
                                            ) implies reads_line(line, end) by {
                                            assert(token_step(progress, token, request));
                                            assert(reads(before, left, held->0, end));
                                        }
                                    }
                                }
                            }
                        },
                        Err(words) => {
                            let parsed = Err(CliError::Tokenizer(words));
                            proof {
                                if !silent {
                                    assert(reads(before, left, held->0, parsed));
                                }
                            }
                            return parsed;
                        },
                    }
                }
            },
            Request::Value(kind, options, option) => {
                if takes_number(option) {
                    let number = match option {
                        OptionName::ItemId => next_u64(&mut parser),
                        _ => match next_u32(&mut parser) {
                            Ok(number) => Ok(number as u64),
                            Err(words) => Err(words),
                        },
                    };
                    match number {
                        Ok(number) => {
                            request = on_number(kind, options, option, number);
                            proof {
                                if !silent {
                                    assert forall|end: Result<Parsed, CliError>| #[trigger]
                                        reads(
                                            request,
                                            unread(parser),
                                            attached(parser)->0,
                                            end,
                                        ) implies reads_line(line, end) by {
                                        assert(reads(before, left, held->0, end));
                                    }
                                }
                            }
                        },
                        Err(words) => {
                            let parsed = Err(CliError::Tokenizer(words));
                            proof {
                                if !silent {
                                    assert(reads(before, left, held->0, parsed));
                                }
                            }
                            return parsed;
                        },
                    }
                } else {
                    match next_text(&mut parser) {
                        Ok(text) => {
                            request = on_text(kind, options, option, text);
                            proof {
                                if !silent {
                                    assert forall|end: Result<Parsed, CliError>| #[trigger]
                                        reads(
                                            request,
                                            unread(parser),
                                            attached(parser)->0,
                                            end,
                                        ) implies reads_line(line, end) by {
                                        assert(text_step(kind, options, option, text, request));
                                        assert(reads(before, left, held->0, end));
                                    }
                                }
                            }
                        },
                        Err(words) => {
                            let parsed = Err(CliError::Tokenizer(words));
                            proof {
                                if !silent {
                                    assert(reads(before, left, held->0, parsed));
                                }
                            }
                            return parsed;
                        },
                    }
                }
            },
        }
    }
}

impl CliError {
    /// The words of this refusal.
    pub open spec fn text(self) -> Seq<char> {
        match self {
            CliError::MissingCommand => "Missing command"@,
            CliError::UnknownCommand(name) => "Unknown command: "@ + name@,
            CliError::MissingAppId => "Missing --app-id"@,
            CliError::MissingItemId => "Missing --item-id"@,
            CliError::InvalidItemId(piece) => "Invalid item ID: "@ + piece@,
            CliError::Tokenizer(words) => words@,
        }
    }

    /// The words of this refusal, as the command line shows them.
    pub fn message(&self) -> (out: String)
        ensures
            out@ == self.text(),
    {
        match self {
            CliError::MissingCommand => "Missing command".to_string(),
            CliError::UnknownCommand(name) => "Unknown command: ".to_string().concat(name.as_str()),
            CliError::MissingAppId => "Missing --app-id".to_string(),
            CliError::MissingItemId => "Missing --item-id".to_string(),
            CliError::InvalidItemId(piece) => {
                "Invalid item ID: ".to_string().concat(piece.as_str())
            },
            CliError::Tokenizer(words) => words.clone(),
        }
    }
}

} // verus!
