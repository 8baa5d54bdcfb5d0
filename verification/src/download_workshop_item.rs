//! Downloading one item: what is checked before the download starts, and
//! what the monitor decides each time it looks at the download.

use crate::bridge::{DOWNLOAD_DEADLINE_MILLIS, DOWNLOAD_POLL_MILLIS};
use crate::error::{Error, Operation};
use vstd::prelude::*;

verus! {

/// What the service says of an item on this machine, as far as a download
/// depends on it.
#[derive(Debug, Clone, Copy, PartialEq, Eq, Structural)]
pub struct ItemState {
    pub subscribed: bool,
    pub installed: bool,
    pub downloading: bool,
    pub download_pending: bool,
}

/// What the monitor does after one look at the download.
#[derive(Debug)]
pub enum MonitorAction {
    /// Stop and report this result.
    Finish(Result<(), Error>),
    /// Sleep this many milliseconds, then look again.
    Sleep(u64),
}

/// Whether the item is in place: installed and subscribed, with nothing
/// being downloaded and nothing waiting to be.
pub open spec fn is_settled(state: ItemState) -> bool {
    state.installed && state.subscribed && !state.downloading && !state.download_pending
}

/// Whether the progress says that every byte is there; a download of no
/// bytes says nothing.
pub open spec fn is_complete(progress: Option<(u64, u64)>) -> bool {
    match progress {
        Some(bytes) => bytes.0 == bytes.1 && bytes.1 > 0,
        None => false,
    }
}

/// What one look of the monitor leads to, in this order: a monitor that was
/// told to stop reports that; one past the deadline reports a timeout; a
/// download that is complete or an item that is in place ends with success;
/// otherwise the monitor sleeps and looks again.
pub open spec fn monitor_decision(
    cancelled: bool,
    elapsed_millis: u64,
    progress: Option<(u64, u64)>,
    state: ItemState,
) -> MonitorAction {
    if cancelled {
        MonitorAction::Finish(Err(Error::DownloadCancelled))
    } else if elapsed_millis > DOWNLOAD_DEADLINE_MILLIS {
        MonitorAction::Finish(Err(Error::Timeout(Operation::Download)))
    } else if is_complete(progress) || is_settled(state) {
        MonitorAction::Finish(Ok(()))
    } else {
        MonitorAction::Sleep(DOWNLOAD_POLL_MILLIS)
    }
}

/// The check before a download starts: the account must be subscribed to the
/// item.
pub fn download_workshop_item(state: ItemState) -> (start: Result<(), Error>)
    ensures
        state.subscribed ==> start is Ok,
        !state.subscribed ==> start == Err::<(), Error>(Error::NotSubscribed),
{
    if !state.subscribed {
        return Err(Error::NotSubscribed);
    }
    Ok(())
}

/// Decides what the monitor does after one look: `progress` holds the bytes
/// downloaded and the bytes in all, where the service gives them.
pub fn monitor_step(
    cancelled: bool,
    elapsed_millis: u64,
    progress: Option<(u64, u64)>,
    state: ItemState,
) -> (action: MonitorAction)
    ensures
        action == monitor_decision(cancelled, elapsed_millis, progress, state),
{
    if cancelled {
        return MonitorAction::Finish(Err(Error::DownloadCancelled));
    }
    if elapsed_millis > DOWNLOAD_DEADLINE_MILLIS {
        return MonitorAction::Finish(Err(Error::Timeout(Operation::Download)));
    }
    if let Some(bytes) = progress {
        if bytes.0 == bytes.1 && bytes.1 > 0 {
            return MonitorAction::Finish(Ok(()));
        }
    }
    if state.installed && state.subscribed && !state.downloading && !state.download_pending {
        return MonitorAction::Finish(Ok(()));
    }
    MonitorAction::Sleep(DOWNLOAD_POLL_MILLIS)
}

/// What the caller reports when the monitor ends: the monitor's verdict, or
/// that the monitor was lost where it gave none.
pub fn monitor_verdict(verdict: Option<Result<(), Error>>) -> (done: Result<(), Error>)
    ensures
        match verdict {
            Some(result) => done == result,
            None => done == Err::<(), Error>(Error::DownloadMonitorLost),
        },
{
    match verdict {
        Some(result) => result,
        None => Err(Error::DownloadMonitorLost),
    }
}

} // verus!
