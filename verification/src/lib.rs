//! Rules, state machine and data model of a server for Sjavs, the Faroese
//! trick-taking card game for four players in two partnerships.
//!
//! The crate decides; it does no input or output. A server reads what a
//! command needs from its store, hands it to the function of the command,
//! and carries out the writes and events that the function answers with.
//! Every function states what it returns in a contract, and the laws of the
//! game are proved from those contracts.
//!
//! The game:
//! - [`card`]: suits, ranks, trumps, and which card wins.
//! - [`deck`]: the 32 cards, dealing, and deals on which somebody can bid.
//! - [`hand`]: what a hand may bid and play.
//! - [`trick`]: tricks, their winners, and the tally of a game.
//! - [`partnership`]: who plays with the declarer.
//! - [`scoring`]: the result of a game.
//! - [`cross`]: the rubber.
//! - [`conservation`]: each card is somewhere exactly once.
//!
//! The match:
//! - [`normal_match`]: the record of a match and its phases.
//! - [`match_laws`]: what holds of bidding and of the stored record.
//! - [`players`]: who has joined, and in which seat.
//! - [`store`]: the keys and channels of the shared store.
//!
//! The commands:
//! - [`commands`]: writes to the store and events.
//! - [`lifecycle`]: create, join, leave, start.
//! - [`bidding`]: bid and pass.
//! - [`play`]: play a card.
//! - [`completion`]: score a game.
//! - [`queries`]: look at hand, trick and score.
//! - [`errors`]: the kinds of refusal.
//!
//! The sessions:
//! - [`pubsub`]: what an instance listens to.
//! - [`session`]: incoming frames and forwarded events.
//! - [`relay`]: events that clients pass on to their match.
//! - [`snapshot`]: what a late joiner is sent.
//! - [`messages`], [`events`], [`schemas`]: what travels on the wire.
//! - [`timestamp`]: the order of events.
//! - [`text`]: texts and numbers as text.

pub mod bidding;
pub mod card;
pub mod commands;
pub mod completion;
pub mod conservation;
pub mod cross;
pub mod deck;
pub mod errors;
pub mod events;
pub mod hand;
pub mod lifecycle;
pub mod match_laws;
pub mod messages;
pub mod normal_match;
pub mod partnership;
pub mod play;
pub mod players;
pub mod pubsub;
pub mod queries;
pub mod relay;
pub mod schemas;
pub mod scoring;
pub mod session;
pub mod snapshot;
pub mod store;
pub mod text;
pub mod timestamp;
pub mod trick;
