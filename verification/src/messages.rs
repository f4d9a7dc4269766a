//! The messages that travel on the channel between a client and the
//! server.

use crate::normal_match::opt_text;
use crate::timestamp::{TimestampManager, Timestamped};
use vstd::prelude::*;
use vstd::string::*;

verus! {

/// A message on the channel: the name of an event, its data as text, and
/// what is needed to route and to order it.
#[derive(Debug)]
pub struct GameMessage {
    /// The name of the event.
    pub event: String,
    /// The data of the event, written as a JSON object.
    pub data: String,
    /// Milliseconds since the start of 1970, for ordering.
    pub timestamp: i64,
    /// The match, for routing.
    pub game_id: Option<String>,
    /// The phase that the event belongs to.
    pub phase: Option<String>,
}

/// A message as plain values.
pub struct MessageView {
    pub event: Seq<char>,
    pub data: Seq<char>,
    pub timestamp: i64,
    pub game_id: Option<Seq<char>>,
    pub phase: Option<Seq<char>>,
}

impl View for GameMessage {
    type V = MessageView;

    open spec fn view(&self) -> MessageView {
        MessageView {
            event: self.event@,
            data: self.data@,
            timestamp: self.timestamp,
            game_id: opt_text(self.game_id),
            phase: opt_text(self.phase),
        }
    }
}

impl GameMessage {
    /// A message that is stamped now.
    pub fn new(event: String, data: String) -> (message: GameMessage)
        ensures
            message@.event == event@,
            message@.data == data@,
            message@.game_id is None,
            message@.phase is None,
    {
        GameMessage { event, data, timestamp: TimestampManager::now(), game_id: None, phase: None }
    }

    /// The message with a match to route it by.
    pub fn with_game_id(self, game_id: String) -> (message: GameMessage)
        ensures
            message@ == (MessageView { game_id: Some(game_id@), ..self@ }),
    {
        let mut message = self;
        message.game_id = Some(game_id);
        message
    }

    /// The message with the phase that it belongs to.
    pub fn with_phase(self, phase: String) -> (message: GameMessage)
        ensures
            message@ == (MessageView { phase: Some(phase@), ..self@ }),
    {
        let mut message = self;
        message.phase = Some(phase);
        message
    }

    /// The message with another time stamp.
    pub fn with_timestamp(self, timestamp: i64) -> (message: GameMessage)
        ensures
            message@ == (MessageView { timestamp, ..self@ }),
    {
        let mut message = self;
        message.timestamp = timestamp;
        message
    }
}

impl Timestamped for GameMessage {
    open spec fn stamp(&self) -> i64 {
        self.timestamp
    }

    fn timestamp(&self) -> (t: i64) {
        self.timestamp
    }

    fn set_timestamp(&mut self, timestamp: i64) {
        self.timestamp = timestamp;
    }
}

} // verus!
