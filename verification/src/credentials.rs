//! What an agent proves itself to the server with.

use vstd::prelude::*;

use crate::identity::{agent_id_text, id_text};

verus! {

/// The credentials that the server gave to a paired agent.
#[derive(Debug)]
pub struct Credentials {
    /// The id of the agent, as a number.
    pub agent_id: u128,
    pub room_id: String,
    pub token: String,
}

/// The credentials of a paired agent, over texts.
pub struct CredentialsView {
    pub agent_id: u128,
    pub room_id: Seq<char>,
    pub token: Seq<char>,
}

impl View for Credentials {
    type V = CredentialsView;

    open spec fn view(&self) -> CredentialsView {
        CredentialsView { agent_id: self.agent_id, room_id: self.room_id@, token: self.token@ }
    }
}

impl Clone for Credentials {
    fn clone(&self) -> (copy: Self)
        ensures
            copy == *self,
    {
        Credentials {
            agent_id: self.agent_id,
            room_id: self.room_id.clone(),
            token: self.token.clone(),
        }
    }
}

impl Credentials {
    /// The id of the agent as it stands in messages.
    pub fn agent_id_text(&self) -> (text: String)
        ensures
            text@ == id_text(self@.agent_id),
    {
        agent_id_text(self.agent_id)
    }

    /// The value of the header that proves the agent to the server.
    pub fn authorization(&self) -> (header: String)
        ensures
            header@ == "Bearer "@ + self@.token,
    {
        crate::text::joined_text("Bearer ", self.token.as_str())
    }
}

} // verus!
