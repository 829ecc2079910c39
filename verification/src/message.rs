//! The values a chat line is classified into, and their mathematical views.

use vstd::prelude::*;

verus! {

/// Why a line was not classified.
#[derive(Debug)]
pub enum ParseMessageTypeError {
    /// The line is neither a channel message nor a liveness probe.
    UnknownMessageType,
}

/// A channel message: who sent it and what it says.
#[derive(Debug)]
pub struct MessageInfo {
    /// Nickname of the sender, as its prefix gives it.
    pub user: String,
    /// Message body, without surrounding whitespace.
    pub text: String,
}

/// A classified chat line.
#[derive(Debug)]
pub enum MessageType {
    /// A message a user wrote to a channel.
    UserMessage(MessageInfo),
    /// A liveness probe, carrying the server argument to echo back.
    PingMessage(String),
}

/// A channel message as two sequences of scalar values.
pub struct MessageInfoView {
    pub user: Seq<char>,
    pub text: Seq<char>,
}

/// A classified chat line over sequences of scalar values.
pub enum MessageTypeView {
    UserMessage(MessageInfoView),
    PingMessage(Seq<char>),
}

impl View for MessageInfo {
    type V = MessageInfoView;

    open spec fn view(&self) -> MessageInfoView {
        MessageInfoView { user: self.user@, text: self.text@ }
    }
}

impl View for MessageType {
    type V = MessageTypeView;

    open spec fn view(&self) -> MessageTypeView {
        match *self {
            MessageType::UserMessage(info) => MessageTypeView::UserMessage(info@),
            MessageType::PingMessage(server) => MessageTypeView::PingMessage(server@),
        }
    }
}

} // verus!
