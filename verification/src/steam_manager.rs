//! The session registry: it makes sure that the session held is the one for
//! the catalog that an operation asks for, and that at most one is live.

use crate::client::SteamState;
use crate::error::Error;
use vstd::prelude::*;

verus! {

/// What has to happen before an operation can use the session.
#[derive(Debug, Clone, Copy, PartialEq, Eq, Structural)]
pub enum SessionStep {
    /// The session held is the one asked for.
    Ready,
    /// No session is held any more: one has to be opened with the service.
    Handshake,
}

/// The owner of the process's one session.
pub struct SteamManager<C, S> {
    steam_state: SteamState<C, S>,
}

impl<C, S> SteamManager<C, S> {
    /// The session slot.
    pub closed spec fn state(&self) -> SteamState<C, S> {
        self.steam_state
    }

    /// A registry that holds no session.
    pub fn new() -> (manager: Self)
        ensures
            manager.state().client_slot() is None,
            manager.state().pump_slot() is None,
            manager.state().wf(),
    {
        Self { steam_state: SteamState::new() }
    }

    /// Decides how to come by the session for `app_id`: the session held is
    /// kept if it is one for `app_id`; otherwise it is dropped at once, before
    /// any new one is opened, and a handshake is asked for.
    pub fn initialize_client(&mut self, app_id: u32) -> (step: SessionStep)
        ensures
            old(self).state().holds_client(app_id) ==> {
                &&& step == SessionStep::Ready
                &&& final(self).state() == old(self).state()
            },
            !old(self).state().holds_client(app_id) ==> {
                &&& step == SessionStep::Handshake
                &&& final(self).state().client_slot() is None
                &&& final(self).state().pump_slot() is None
            },
            old(self).state().wf() ==> final(self).state().wf(),
    {
        if !self.steam_state.has_client(app_id) {
            self.steam_state.drop_all_clients();
            SessionStep::Handshake
        } else {
            SessionStep::Ready
        }
    }

    /// Takes in what the handshake for `app_id` gave: its two handles become
    /// the session held, or its diagnostic becomes the error and the registry
    /// stays as it is.
    pub fn complete_handshake(&mut self, app_id: u32, outcome: Result<(C, S), String>) -> (done:
        Result<(), Error>)
        ensures
            match outcome {
                Ok(handles) => {
                    &&& done is Ok
                    &&& final(self).state().client_slot() == Some((app_id, handles.0))
                    &&& final(self).state().pump_slot() == Some((app_id, handles.1))
                },
                Err(diagnostic) => {
                    &&& done == Err::<(), Error>(Error::SessionInit(diagnostic))
                    &&& final(self).state() == old(self).state()
                },
            },
            old(self).state().wf() ==> final(self).state().wf(),
    {
        match outcome {
            Ok(handles) => {
                self.steam_state.set_clients(app_id, handles.0, handles.1);
                Ok(())
            },
            Err(diagnostic) => Err(Error::SessionInit(diagnostic)),
        }
    }

    /// The request handle of the session for `app_id`.
    pub fn get_client(&self, app_id: u32) -> (handle: Result<&C, Error>)
        ensures
            handle is Ok <==> self.state().holds_client(app_id),
            handle is Ok ==> *handle->Ok_0 == self.state().client_handle(),
            handle is Err ==> handle->Err_0 == Error::SessionMissing,
    {
        match self.steam_state.get_client(app_id) {
            Some(client) => Ok(client),
            None => Err(Error::SessionMissing),
        }
    }

    /// The handle to pump for `app_id`, or the error that says that no
    /// session for `app_id` is active.
    pub fn run_callbacks(&self, app_id: u32) -> (pump: Result<&S, Error>)
        ensures
            pump is Ok <==> self.state().holds_pump(app_id),
            pump is Ok ==> *pump->Ok_0 == self.state().pump_handle(),
            pump is Err ==> pump->Err_0 == Error::NoActiveSession,
    {
        self.steam_state.run_callbacks(app_id)
    }
}

/// Decides how to come by the session for `app_id` in `manager`.
pub fn initialize_client<C, S>(manager: &mut SteamManager<C, S>, app_id: u32) -> (step:
    SessionStep)
    ensures
        old(manager).state().holds_client(app_id) ==> {
            &&& step == SessionStep::Ready
            &&& final(manager).state() == old(manager).state()
        },
        !old(manager).state().holds_client(app_id) ==> {
            &&& step == SessionStep::Handshake
            &&& final(manager).state().client_slot() is None
            &&& final(manager).state().pump_slot() is None
        },
{
    manager.initialize_client(app_id)
}

/// The handle to pump for `app_id` in `manager`, or the error that says that
/// no session for `app_id` is active.
pub fn run_callbacks<C, S>(manager: &SteamManager<C, S>, app_id: u32) -> (pump: Result<&S, Error>)
    ensures
        pump is Ok <==> manager.state().holds_pump(app_id),
        pump is Ok ==> *pump->Ok_0 == manager.state().pump_handle(),
        pump is Err ==> pump->Err_0 == Error::NoActiveSession,
{
    manager.run_callbacks(app_id)
}

/// Opening a session for another catalog leaves nothing of the one before:
/// after the handshake for `next` was taken in, the registry holds the
/// session for `next` and for no other catalog, and both handles are its own.
pub proof fn lemma_one_session_at_a_time<C, S>(
    after: SteamManager<C, S>,
    next: u32,
    handles: (C, S),
    other: u32,
)
    requires
        after.state().client_slot() == Some((next, handles.0)),
        after.state().pump_slot() == Some((next, handles.1)),
    ensures
        after.state().wf(),
        after.state().holds_client(other) <==> other == next,
        after.state().holds_pump(other) <==> other == next,
{
}

} // verus!
