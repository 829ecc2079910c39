//! Classification of single lines of a Twitch IRC chat stream.
//!
//! A line is either a message that a user wrote to a channel, a liveness
//! probe of the server, or unknown. `MessageType::parse_from_str` tells which,
//! and the module `grammar` says over sequences of scalar values what it
//! returns.

pub mod grammar;
pub mod laws;
pub mod message;
pub mod parsing;
pub mod scan;

pub use message::{MessageInfo, MessageType, ParseMessageTypeError};
