//! The session slot: at most one live session, made of two handles for one
//! catalog id. The handles are the service's own; the slot only carries them.

use crate::error::Error;
use vstd::prelude::*;

verus! {

/// The session the process holds, if any: the handle that issues requests
/// (`C`) and the handle that pumps callbacks (`S`), each with the catalog id
/// it was opened for.
pub struct SteamState<C, S> {
    client: Option<(u32, C)>,
    single_client: Option<(u32, S)>,
}

impl<C, S> SteamState<C, S> {
    /// The request handle held, with its catalog id.
    pub closed spec fn client_slot(&self) -> Option<(u32, C)> {
        self.client
    }

    /// The pump handle held, with its catalog id.
    pub closed spec fn pump_slot(&self) -> Option<(u32, S)> {
        self.single_client
    }

    /// Whether a request handle for `steam_game_id` is held.
    pub open spec fn holds_client(&self, steam_game_id: u32) -> bool {
        match self.client_slot() {
            Some(pair) => pair.0 == steam_game_id,
            None => false,
        }
    }

    /// Whether a pump handle for `steam_game_id` is held.
    pub open spec fn holds_pump(&self, steam_game_id: u32) -> bool {
        match self.pump_slot() {
            Some(pair) => pair.0 == steam_game_id,
            None => false,
        }
    }

    /// The request handle held.
    pub open spec fn client_handle(&self) -> C
        recommends
            self.client_slot() is Some,
    {
        let pair = self.client_slot()->0;
        pair.1
    }

    /// The pump handle held.
    pub open spec fn pump_handle(&self) -> S
        recommends
            self.pump_slot() is Some,
    {
        let pair = self.pump_slot()->0;
        pair.1
    }

    /// Whether the two handles belong together: both absent, or both present
    /// for one catalog id.
    pub open spec fn wf(&self) -> bool {
        match (self.client_slot(), self.pump_slot()) {
            (None, None) => true,
            (Some(client), Some(pump)) => client.0 == pump.0,
            _ => false,
        }
    }

    /// A slot that holds no session.
    pub fn new() -> (state: Self)
        ensures
            state.client_slot() is None,
            state.pump_slot() is None,
            state.wf(),
    {
        SteamState { client: None, single_client: None }
    }

    /// Whether the session held is one for `steam_game_id`.
    pub fn has_client(&self, steam_game_id: u32) -> (held: bool)
        ensures
            held == self.holds_client(steam_game_id),
    {
        match &self.client {
            Some(pair) => pair.0 == steam_game_id,
            None => false,
        }
    }

    /// The request handle, if the session held is one for `steam_game_id`.
    pub fn get_client(&self, steam_game_id: u32) -> (handle: Option<&C>)
        ensures
            handle is Some <==> self.holds_client(steam_game_id),
            handle is Some ==> *handle->0 == self.client_handle(),
    {
        match &self.client {
            Some(pair) => {
                if pair.0 == steam_game_id {
                    Some(&pair.1)
                } else {
                    None
                }
            },
            None => None,
        }
    }

    /// The handle to pump for `steam_game_id`: the pump handle of the session
    /// held if that session is one for `steam_game_id`, and the error that
    /// says that no such session is active otherwise.
    pub fn run_callbacks(&self, steam_game_id: u32) -> (pump: Result<&S, Error>)
        ensures
            pump is Ok <==> self.holds_pump(steam_game_id),
            pump is Ok ==> *pump->Ok_0 == self.pump_handle(),
            pump is Err ==> pump->Err_0 == Error::NoActiveSession,
    {
        match &self.single_client {
            Some(pair) => {
                if pair.0 == steam_game_id {
                    Ok(&pair.1)
                } else {
                    Err(Error::NoActiveSession)
                }
            },
            None => Err(Error::NoActiveSession),
        }
    }

    /// Makes the two handles the session held, in place of any other.
    pub fn set_clients(&mut self, steam_game_id: u32, client: C, single_client: S)
        ensures
            final(self).client_slot() == Some((steam_game_id, client)),
            final(self).pump_slot() == Some((steam_game_id, single_client)),
            final(self).wf(),
    {
        self.client = Some((steam_game_id, client));
        self.single_client = Some((steam_game_id, single_client));
    }

    /// Drops the session held, if any.
    pub fn drop_all_clients(&mut self)
        ensures
            final(self).client_slot() is None,
            final(self).pump_slot() is None,
            final(self).wf(),
    {
        self.client = None;
        self.single_client = None;
    }
}

} // verus!
