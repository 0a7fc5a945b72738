//! The connection state machine of the simulated network layer. Timing
//! (connection time, message latency) and packet loss are simulated by the
//! application, which reports their outcome to the machine.
use vstd::prelude::*;
use crate::game::event::GameEvent;

verus! {

/// States of the simulated server connection.
#[derive(Debug, Clone, Copy, PartialEq, Eq, Structural)]
pub enum ConnectionState {
    Disconnected,
    Connecting,
    Connected,
    Disconnecting,
}

/// The connection: its state, how many messages were sent, the events the
/// server delivered that were not collected yet, and the reason of the last
/// disconnection.
pub struct NetworkLink {
    pub connection_state: ConnectionState,
    pub message_counter: u64,
    pub server_events: Vec<GameEvent>,
    pub disconnect_reason: Option<String>,
}

/// The event the server sends once a connection is established: a move
/// from the title screen to Mac Anu.
pub open spec fn is_welcome(e: GameEvent) -> bool {
    e matches GameEvent::AreaTransition { from, to } && from@ == "title"@ && to@ == "mac_anu"@
}

impl NetworkLink {
    /// A disconnected link that has sent nothing and holds no event.
    pub fn new() -> (r: Self)
        ensures
            r.connection_state == ConnectionState::Disconnected,
            r.message_counter == 0,
            r.server_events@.len() == 0,
            r.disconnect_reason is None,
    {
        Self {
            connection_state: ConnectionState::Disconnected,
            message_counter: 0,
            server_events: Vec::new(),
            disconnect_reason: None,
        }
    }

    /// Start connecting, when disconnected; returns whether it did (the
    /// connection timer then starts from zero).
    pub fn connect(&mut self) -> (r: bool)
        ensures
            r == (old(self).connection_state == ConnectionState::Disconnected),
            final(self).connection_state == (if r { ConnectionState::Connecting } else { old(self).connection_state }),
            final(self).message_counter == old(self).message_counter,
            final(self).server_events@ == old(self).server_events@,
            final(self).disconnect_reason == old(self).disconnect_reason,
    {
        if self.connection_state == ConnectionState::Disconnected {
            self.connection_state = ConnectionState::Connecting;
            true
        } else {
            false
        }
    }

    /// Start disconnecting for `reason`, whatever the state.
    pub fn disconnect(&mut self, reason: &str)
        ensures
            final(self).connection_state == ConnectionState::Disconnecting,
            final(self).disconnect_reason matches Some(s) && s@ == reason@,
            final(self).message_counter == old(self).message_counter,
            final(self).server_events@ == old(self).server_events@,
    {
        self.connection_state = ConnectionState::Disconnecting;
        self.disconnect_reason = Some(reason.to_string());
    }

    /// One step of the machine. A connecting link whose connection time has
    /// run out (`connect_time_elapsed`) becomes connected and receives the
    /// welcome event; a disconnecting link becomes disconnected, and the
    /// result asks for the messages in flight to be dropped.
    pub fn tick(&mut self, connect_time_elapsed: bool) -> (drop_messages: bool)
        ensures
            drop_messages == (old(self).connection_state == ConnectionState::Disconnecting),
            old(self).connection_state == ConnectionState::Connecting && connect_time_elapsed ==> {
                &&& final(self).connection_state == ConnectionState::Connected
                &&& final(self).server_events@.len() == old(self).server_events@.len() + 1
                &&& final(self).server_events@.drop_last() == old(self).server_events@
                &&& is_welcome(final(self).server_events@.last())
            },
            !(old(self).connection_state == ConnectionState::Connecting && connect_time_elapsed) ==> {
                &&& final(self).server_events@ == old(self).server_events@
                &&& final(self).connection_state == (if old(self).connection_state == ConnectionState::Disconnecting {
                    ConnectionState::Disconnected
                } else {
                    old(self).connection_state
                })
            },
            final(self).message_counter == old(self).message_counter,
            final(self).disconnect_reason == old(self).disconnect_reason,
    {
        match self.connection_state {
            ConnectionState::Connecting => {
                if connect_time_elapsed {
                    self.connection_state = ConnectionState::Connected;
                    self.server_events.push(GameEvent::AreaTransition { from: "title".to_string(), to: "mac_anu".to_string() });
                }
                false
            },
            ConnectionState::Disconnecting => {
                self.connection_state = ConnectionState::Disconnected;
                true
            },
            _ => false,
        }
    }

    /// A message whose latency has passed arrives: an event from the server
    /// is kept for collection unless the packet was `lost`; messages from
    /// the client are not kept.
    pub fn deliver(&mut self, event: GameEvent, from_server: bool, lost: bool)
        ensures
            final(self).server_events@ == (if from_server && !lost {
                old(self).server_events@.push(event)
            } else {
                old(self).server_events@
            }),
            final(self).connection_state == old(self).connection_state,
            final(self).message_counter == old(self).message_counter,
            final(self).disconnect_reason == old(self).disconnect_reason,
    {
        if !lost && from_server {
            self.server_events.push(event);
        }
    }

    /// The id of a new outgoing message: the next number when connected,
    /// `None` (and nothing counted) otherwise.
    pub fn next_message_id(&mut self) -> (r: Option<u64>)
        requires
            old(self).connection_state == ConnectionState::Connected ==> old(self).message_counter < u64::MAX,
        ensures
            old(self).connection_state == ConnectionState::Connected ==> {
                &&& r == Some((old(self).message_counter + 1) as u64)
                &&& final(self).message_counter == old(self).message_counter + 1
            },
            old(self).connection_state != ConnectionState::Connected ==> {
                &&& r is None
                &&& final(self).message_counter == old(self).message_counter
            },
            final(self).connection_state == old(self).connection_state,
            final(self).server_events@ == old(self).server_events@,
            final(self).disconnect_reason == old(self).disconnect_reason,
    {
        if self.connection_state != ConnectionState::Connected {
            return None;
        }
        self.message_counter = self.message_counter + 1;
        Some(self.message_counter)
    }

    /// Collect every event the server delivered, oldest first, leaving none.
    pub fn receive_server_events(&mut self) -> (r: Vec<GameEvent>)
        ensures
            r@ == old(self).server_events@,
            final(self).server_events@.len() == 0,
            final(self).connection_state == old(self).connection_state,
            final(self).message_counter == old(self).message_counter,
            final(self).disconnect_reason == old(self).disconnect_reason,
    {
        let mut taken: Vec<GameEvent> = Vec::new();
        std::mem::swap(&mut taken, &mut self.server_events);
        taken
    }

    /// Whether the link is connected.
    pub fn is_connected(&self) -> (r: bool)
        ensures
            r == (self.connection_state == ConnectionState::Connected),
    {
        self.connection_state == ConnectionState::Connected
    }

    /// Whether the link is connecting.
    pub fn is_connecting(&self) -> (r: bool)
        ensures
            r == (self.connection_state == ConnectionState::Connecting),
    {
        self.connection_state == ConnectionState::Connecting
    }

    /// The connection drops at once, with reason "Connection lost" (the
    /// messages in flight are dropped by the caller).
    pub fn simulate_disconnect(&mut self)
        ensures
            final(self).connection_state == ConnectionState::Disconnected,
            final(self).disconnect_reason matches Some(s) && s@ == "Connection lost"@,
            final(self).message_counter == old(self).message_counter,
            final(self).server_events@ == old(self).server_events@,
    {
        self.disconnect("Connection lost");
        self.connection_state = ConnectionState::Disconnected;
    }
}

} // verus!
