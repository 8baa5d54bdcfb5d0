//! The decisions of the poll-driven bridge.
//!
//! A bridged operation has two sides. The worker issues the request and then
//! looks for the answer again and again, sleeping a fixed interval between
//! two looks, until the answer is there or the deadline has passed. The
//! caller waits for either a heartbeat of the worker, on which it pumps the
//! session once, or the worker's end, on which it takes the worker's result.
//! Both sides' loops run outside this library; what they decide at each turn
//! is decided here.

use crate::error::{Error, Operation};
use vstd::prelude::*;

verus! {

/// The pause between two looks for the answer of a query, in milliseconds.
pub const POLL_INTERVAL_MILLIS: u64 = 10;

/// The pause between two looks at a download, in milliseconds.
pub const DOWNLOAD_POLL_MILLIS: u64 = 500;

/// The deadline of a query, in milliseconds.
pub const QUERY_DEADLINE_MILLIS: u64 = 30000;

/// The deadline of a download, in milliseconds.
pub const DOWNLOAD_DEADLINE_MILLIS: u64 = 600000;

/// How many heartbeats may wait for the caller; one sent beyond that is
/// dropped, which delays one pump and nothing else.
pub const HEARTBEAT_CAPACITY: usize = 32;

/// The deadline of `operation`, in milliseconds.
pub open spec fn deadline_of(operation: Operation) -> u64 {
    match operation {
        Operation::Download => DOWNLOAD_DEADLINE_MILLIS,
        _ => QUERY_DEADLINE_MILLIS,
    }
}

/// The pause between two looks of `operation`, in milliseconds.
pub open spec fn interval_of(operation: Operation) -> u64 {
    match operation {
        Operation::Download => DOWNLOAD_POLL_MILLIS,
        _ => POLL_INTERVAL_MILLIS,
    }
}

/// What the worker does after one look for the answer.
#[derive(Debug)]
pub enum WorkerAction<T> {
    /// Stop and report this result.
    Finish(Result<T, Error>),
    /// Sleep this many milliseconds, then look again.
    Sleep(u64),
}

/// What the caller learns while it waits.
#[derive(Debug)]
pub enum BridgeEvent<T> {
    /// The worker signalled that it is still waiting.
    Heartbeat,
    /// The worker ended with this result.
    Completed(Result<T, Error>),
    /// The worker was lost; holds the diagnostic.
    WorkerLost(String),
}

/// What the caller does about an event.
#[derive(Debug)]
pub enum CallerAction<T> {
    /// Pump the session once, then wait again.
    Pump,
    /// Stop waiting and return this result.
    Return(Result<T, Error>),
}

/// What one look of the worker leads to: an answer that has arrived ends the
/// wait with that answer, whatever the clock says; without one the wait ends
/// with a timeout once more than the deadline has passed, and goes on after
/// one interval of sleep otherwise.
pub open spec fn worker_decision<T>(
    arrived: Option<Result<T, Error>>,
    elapsed_millis: u64,
    operation: Operation,
) -> WorkerAction<T> {
    match arrived {
        Some(result) => WorkerAction::Finish(result),
        None => if elapsed_millis > deadline_of(operation) {
            WorkerAction::Finish(Err(Error::Timeout(operation)))
        } else {
            WorkerAction::Sleep(interval_of(operation))
        },
    }
}

/// The deadline of `operation`, in milliseconds.
pub fn deadline_millis(operation: Operation) -> (millis: u64)
    ensures
        millis == deadline_of(operation),
{
    match operation {
        Operation::Download => DOWNLOAD_DEADLINE_MILLIS,
        _ => QUERY_DEADLINE_MILLIS,
    }
}

/// The pause between two looks of `operation`, in milliseconds.
pub fn interval_millis(operation: Operation) -> (millis: u64)
    ensures
        millis == interval_of(operation),
{
    match operation {
        Operation::Download => DOWNLOAD_POLL_MILLIS,
        _ => POLL_INTERVAL_MILLIS,
    }
}

/// Decides what the worker does after one look: `arrived` is what the result
/// slot held, `elapsed_millis` the time since the request was issued.
pub fn worker_step<T>(
    arrived: Option<Result<T, Error>>,
    elapsed_millis: u64,
    operation: Operation,
) -> (action: WorkerAction<T>)
    ensures
        action == worker_decision(arrived, elapsed_millis, operation),
{
    match arrived {
        Some(result) => WorkerAction::Finish(result),
        None => {
            if elapsed_millis > deadline_millis(operation) {
                WorkerAction::Finish(Err(Error::Timeout(operation)))
            } else {
                WorkerAction::Sleep(interval_millis(operation))
            }
        },
    }
}

/// Decides what the caller does about an event: a heartbeat asks for one
/// pump, the worker's result is taken as it is, and a lost worker is reported.
pub fn caller_step<T>(event: BridgeEvent<T>, operation: Operation) -> (action: CallerAction<T>)
    ensures
        match event {
            BridgeEvent::Heartbeat => action is Pump,
            BridgeEvent::Completed(result) => action == CallerAction::Return(result),
            BridgeEvent::WorkerLost(diagnostic) => action == CallerAction::<T>::Return(
                Err(Error::WorkerJoin(operation, diagnostic)),
            ),
        },
{
    match event {
        BridgeEvent::Heartbeat => CallerAction::Pump,
        BridgeEvent::Completed(result) => CallerAction::Return(result),
        BridgeEvent::WorkerLost(diagnostic) => CallerAction::Return(
            Err(Error::WorkerJoin(operation, diagnostic)),
        ),
    }
}

/// Decides how the caller goes on after a pump: a pump that failed ends the
/// wait with its error, one that worked lets the wait go on.
pub fn after_pump<T>(pumped: Result<(), Error>) -> (end: Option<Result<T, Error>>)
    ensures
        match pumped {
            Ok(_) => end is None,
            Err(error) => end == Some(Err::<T, Error>(error)),
        },
{
    match pumped {
        Ok(_) => None,
        Err(error) => Some(Err(error)),
    }
}

/// The time of the `looks`-th look, in milliseconds since the request, for a
/// worker whose sleeps take exactly one interval and whose looks take no
/// time. The first look is look 0.
pub open spec fn look_time(operation: Operation, looks: nat) -> int {
    looks * interval_of(operation)
}

/// The number of the look at which a worker without an answer gives up.
pub open spec fn last_look(operation: Operation) -> nat {
    (deadline_of(operation) / interval_of(operation) + 1) as nat
}

/// A worker whose answer never arrives reports a timeout no later than one
/// interval after the deadline: if it slept after a look at `previous` and
/// looks again within one interval, at a time past the deadline, then this
/// look ends the wait with a timeout, and it happens at most one interval
/// after the deadline.
pub proof fn lemma_timeout_within_one_interval(operation: Operation, previous: u64, elapsed: u64)
    requires
        worker_decision::<()>(None, previous, operation) is Sleep,
        previous <= elapsed <= previous + interval_of(operation),
        elapsed > deadline_of(operation),
    ensures
        worker_decision::<()>(None, elapsed, operation) == WorkerAction::<()>::Finish(
            Err(Error::Timeout(operation)),
        ),
        elapsed <= deadline_of(operation) + interval_of(operation),
{
}

/// A worker whose answer never arrives does not wait for ever: it sleeps at
/// every look before `last_look`, and reports a timeout at that one, which
/// comes no later than one interval after the deadline.
pub proof fn lemma_worker_gives_up(operation: Operation)
    ensures
        forall|looks: nat|
            looks < last_look(operation) ==> worker_decision::<()>(
                None,
                #[trigger] look_time(operation, looks) as u64,
                operation,
            ) is Sleep,
        worker_decision::<()>(
            None,
            look_time(operation, last_look(operation)) as u64,
            operation,
        ) == WorkerAction::<()>::Finish(Err(Error::Timeout(operation))),
        deadline_of(operation) < look_time(operation, last_look(operation)) <= deadline_of(
            operation,
        ) + interval_of(operation),
{
    match operation {
        Operation::Download => {
            assert(600000int / 500 == 1200) by (nonlinear_arith);
            assert(last_look(operation) == 1201);
            assert forall|looks: nat| looks < last_look(operation) implies worker_decision::<()>(
                None,
                #[trigger] look_time(operation, looks) as u64,
                operation,
            ) is Sleep by {
                assert(looks * 500 <= 600000) by (nonlinear_arith)
                    requires
                        looks <= 1200,
                ;
            }
            assert(look_time(operation, 1201) == 600500);
        },
        _ => {
            assert(30000int / 10 == 3000) by (nonlinear_arith);
            assert(last_look(operation) == 3001);
            assert forall|looks: nat| looks < last_look(operation) implies worker_decision::<()>(
                None,
                #[trigger] look_time(operation, looks) as u64,
                operation,
            ) is Sleep by {
                assert(looks * 10 <= 30000) by (nonlinear_arith)
                    requires
                        looks <= 3000,
                ;
            }
            assert(look_time(operation, 3001) == 30010);
        },
    }
}

} // verus!
