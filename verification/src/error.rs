//! The tagged errors that the library reports, and the text of each.

use crate::text::string_views;
use vstd::prelude::*;
use vstd::string::StringExecFns;

verus! {

/// The bridged operations, each with its own timeout text.
#[derive(Debug, Clone, Copy, PartialEq, Eq, Structural)]
pub enum Operation {
    Search,
    WorkshopItems,
    PopularItems,
    TagSampling,
    Subscribe,
    Unsubscribe,
    Download,
}

/// A request that is rejected before any session is touched.
#[derive(Debug, Clone, Copy, PartialEq, Eq, Structural)]
pub enum ValidationError {
    /// The page number was below 1.
    PageBelowOne,
    /// A time period was given with a sort mode that is not ranked by trend.
    PeriodWithoutTrendSort,
}

/// Every way an operation can fail.
#[derive(Debug)]
pub enum Error {
    /// The handshake with the service failed; holds the service's diagnostic.
    SessionInit(String),
    /// No session is held for the requested catalog.
    NoActiveSession,
    /// The deadline passed before the service answered.
    Timeout(Operation),
    /// The service answered with an error; holds its diagnostic.
    ForeignApi(String),
    /// The worker of an operation was lost before it reported; holds the
    /// operation and the diagnostic.
    WorkerJoin(Operation, String),
    /// The worker that asks for display names was lost; holds the diagnostic.
    NameWorkerLost(String),
    /// Reading or writing outside the caches failed; holds the whole text.
    Io(String),
    /// Cache files could not be handled; holds one line per failure.
    CacheIo(Vec<String>),
    /// The request itself was invalid.
    Validation(ValidationError),
    /// The service refused to set a query up; holds the operation and the
    /// service's diagnostic.
    QueryCreation(Operation, String),
    /// A session was set up but its handle could not be read back.
    SessionMissing,
    /// A download was asked for an item that the account is not subscribed to.
    NotSubscribed,
    /// The download monitor was told to stop.
    DownloadCancelled,
    /// The download monitor went away without a verdict.
    DownloadMonitorLost,
}

/// `lines` joined by `", "`.
pub open spec fn joined(lines: Seq<Seq<char>>) -> Seq<char>
    decreases lines.len(),
{
    if lines.len() == 0 {
        Seq::empty()
    } else if lines.len() == 1 {
        lines[0]
    } else {
        joined(lines.drop_last()) + ", "@ + lines.last()
    }
}

/// The text reported when `operation` runs past its deadline.
pub open spec fn timeout_text(operation: Operation) -> Seq<char> {
    match operation {
        Operation::Search => "Search operation timed out waiting for Steam response"@,
        Operation::WorkshopItems => "Operation timed out waiting for Steam response"@,
        Operation::PopularItems => "Popular items operation timed out waiting for Steam response"@,
        Operation::TagSampling => "Sampling operation timed out waiting for Steam response"@,
        Operation::Subscribe => "Operation timed out waiting for Steam response"@,
        Operation::Unsubscribe => "Operation timed out waiting for Steam response"@,
        Operation::Download => "Download timeout after 10 minutes"@,
    }
}

/// The text that opens the report of a query that could not be set up.
pub open spec fn query_creation_text(operation: Operation) -> Seq<char> {
    match operation {
        Operation::Search => "Failed to create search query: "@,
        Operation::WorkshopItems => "Failed to create query handle: "@,
        Operation::PopularItems => "Failed to create popular items query: "@,
        Operation::TagSampling => "Failed to create query: "@,
        Operation::Subscribe => "Failed to create query: "@,
        Operation::Unsubscribe => "Failed to create query: "@,
        Operation::Download => "Failed to create query: "@,
    }
}

/// The text that opens the report of a worker that was lost.
pub open spec fn worker_lost_text(operation: Operation) -> Seq<char> {
    match operation {
        Operation::Subscribe => "Task join error: "@,
        Operation::Unsubscribe => "Task join error: "@,
        _ => "Task error: "@,
    }
}

/// The text reported for an invalid request.
pub open spec fn validation_text(error: ValidationError) -> Seq<char> {
    match error {
        ValidationError::PageBelowOne => "Page number must be at least 1"@,
        ValidationError::PeriodWithoutTrendSort =>
            "Period filter is only applicable for popular sort type"@,
    }
}

/// Joins `lines` with `", "` between neighbours.
pub fn join_lines(lines: &Vec<String>) -> (out: String)
    ensures
        out@ == joined(string_views(lines@)),
{
    let mut out = String::new();
    let mut i: usize = 0;
    while i < lines.len()
        invariant
            i <= lines.len(),
            out@ == joined(string_views(lines@.take(i as int))),
        decreases lines.len() - i,
    {
        let ghost before = string_views(lines@.take(i as int));
        let ghost after = string_views(lines@.take(i + 1));
        assert(after.drop_last() =~= before);
        assert(after.last() == lines@[i as int]@);
        if i > 0 {
            out.append(", ");
        }
        out.append(lines[i].as_str());
        assert(out@ =~= joined(after));
        i += 1;
    }
    assert(lines@.take(lines@.len() as int) =~= lines@);
    out
}

impl Error {
    /// The text of this error.
    pub open spec fn text(self) -> Seq<char> {
        match self {
            Error::SessionInit(diagnostic) => "Failed to initialize Steam client: "@ + diagnostic@,
            Error::NoActiveSession => "Single client not found for given steam_game_id"@,
            Error::Timeout(operation) => timeout_text(operation),
            Error::ForeignApi(diagnostic) => "Steam API error: "@ + diagnostic@,
            Error::WorkerJoin(operation, diagnostic) => worker_lost_text(operation) + diagnostic@,
            Error::NameWorkerLost(diagnostic) => "Creator task error: "@ + diagnostic@,
            Error::Io(text) => text@,
            Error::CacheIo(failures) => "Errors occurred while clearing cache: "@ + joined(
                string_views(failures@),
            ),
            Error::Validation(error) => validation_text(error),
            Error::QueryCreation(operation, diagnostic) => query_creation_text(operation)
                + diagnostic@,
            Error::SessionMissing => "Failed to get Steam client"@,
            Error::NotSubscribed => "Workshop item is not subscribed"@,
            Error::DownloadCancelled => "Download cancelled"@,
            Error::DownloadMonitorLost => "Download monitoring failed unexpectedly"@,
        }
    }

    /// The text of this error, as the command line shows it.
    pub fn message(&self) -> (out: String)
        ensures
            out@ == self.text(),
    {
        match self {
            Error::SessionInit(diagnostic) => {
                "Failed to initialize Steam client: ".to_string().concat(diagnostic.as_str())
            },
            Error::NoActiveSession => "Single client not found for given steam_game_id".to_string(),
            Error::Timeout(operation) => match operation {
                Operation::Search => {
                    "Search operation timed out waiting for Steam response".to_string()
                },
                Operation::PopularItems => {
                    "Popular items operation timed out waiting for Steam response".to_string()
                },
                Operation::TagSampling => {
                    "Sampling operation timed out waiting for Steam response".to_string()
                },
                Operation::Download => "Download timeout after 10 minutes".to_string(),
                Operation::WorkshopItems | Operation::Subscribe | Operation::Unsubscribe => {
                    "Operation timed out waiting for Steam response".to_string()
                },
            },
            Error::ForeignApi(diagnostic) => {
                "Steam API error: ".to_string().concat(diagnostic.as_str())
            },
            Error::WorkerJoin(operation, diagnostic) => {
                let opening = match operation {
                    Operation::Subscribe | Operation::Unsubscribe => "Task join error: ",
                    _ => "Task error: ",
                };
                opening.to_string().concat(diagnostic.as_str())
            },
            Error::NameWorkerLost(diagnostic) => {
                "Creator task error: ".to_string().concat(diagnostic.as_str())
            },
            Error::Io(text) => text.clone(),
            Error::CacheIo(failures) => {
                let lines = join_lines(failures);
                "Errors occurred while clearing cache: ".to_string().concat(lines.as_str())
            },
            Error::Validation(error) => match error {
                ValidationError::PageBelowOne => "Page number must be at least 1".to_string(),
                ValidationError::PeriodWithoutTrendSort => {
                    "Period filter is only applicable for popular sort type".to_string()
                },
            },
            Error::QueryCreation(operation, diagnostic) => {
                let opening = match operation {
                    Operation::Search => "Failed to create search query: ",
                    Operation::WorkshopItems => "Failed to create query handle: ",
                    Operation::PopularItems => "Failed to create popular items query: ",
                    Operation::TagSampling | Operation::Subscribe | Operation::Unsubscribe
                    | Operation::Download => "Failed to create query: ",
                };
                opening.to_string().concat(diagnostic.as_str())
            },
            Error::SessionMissing => "Failed to get Steam client".to_string(),
            Error::NotSubscribed => "Workshop item is not subscribed".to_string(),
            Error::DownloadCancelled => "Download cancelled".to_string(),
            Error::DownloadMonitorLost => "Download monitoring failed unexpectedly".to_string(),
        }
    }
}

} // verus!
