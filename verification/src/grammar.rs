//! The two line shapes that are recognised, stated over sequences of scalar
//! values.
//!
//! ```text
//! PING :<server>
//! :<nick>!<user>@<host> PRIVMSG #<channel> :<body>
//! ```

use crate::message::{MessageInfoView, MessageType, MessageTypeView, ParseMessageTypeError};
use crate::scan::{find_char, rfind_char, trimmed};
use vstd::prelude::*;

verus! {

/// The literal that opens a liveness probe.
pub open spec fn ping_prefix() -> Seq<char> {
    "PING :"@
}

/// The one command token that is accepted after a sender prefix.
pub open spec fn privmsg_token() -> Seq<char> {
    "PRIVMSG"@
}

/// Index of the first `!` of the line: where the nickname ends.
pub open spec fn bang_index(line: Seq<char>) -> int {
    find_char(line, '!', 0)
}

/// Index of the first space of the line: where the sender prefix ends.
pub open spec fn prefix_end(line: Seq<char>) -> int {
    find_char(line, ' ', 0)
}

/// Index of the space that ends the command token.
pub open spec fn token_end(line: Seq<char>) -> int {
    find_char(line, ' ', prefix_end(line) + 1)
}

/// Index of the space that ends the channel token.
pub open spec fn channel_end(line: Seq<char>) -> int {
    find_char(line, ' ', token_end(line) + 1)
}

/// Index at which the nickname begins: just after the last `:` that comes
/// before the first `!`, or the start of the line where there is no such `:`.
pub open spec fn nick_start(line: Seq<char>) -> int {
    rfind_char(line, ':', bang_index(line)) + 1
}

/// Index at which the body begins: one scalar is skipped after the space that
/// ends the channel token.
pub open spec fn body_start(line: Seq<char>) -> int {
    channel_end(line) + 2
}

/// Whether the line has the shape of a channel message: a `!` before the
/// first space, then the command token `PRIVMSG` between the first and the
/// second space, a third space, and at least one scalar after it.
pub open spec fn is_user_message(line: Seq<char>) -> bool {
    &&& bang_index(line) < prefix_end(line) < line.len()
    &&& token_end(line) < line.len()
    &&& line.subrange(prefix_end(line) + 1, token_end(line)) == privmsg_token()
    &&& channel_end(line) + 1 < line.len()
}

/// The nickname of a line that has the shape of a channel message.
pub open spec fn user_of(line: Seq<char>) -> Seq<char> {
    line.subrange(nick_start(line), bang_index(line))
}

/// The body of a line that has the shape of a channel message, without the
/// whitespace that surrounds it.
pub open spec fn text_of(line: Seq<char>) -> Seq<char> {
    trimmed(line.subrange(body_start(line), line.len() as int))
}

/// How a line is read as a channel message.
pub open spec fn text_message(line: Seq<char>) -> Result<
    MessageTypeView,
    ParseMessageTypeError,
> {
    if is_user_message(line) {
        Ok(
            MessageTypeView::UserMessage(
                MessageInfoView { user: user_of(line), text: text_of(line) },
            ),
        )
    } else {
        Err(ParseMessageTypeError::UnknownMessageType)
    }
}

/// How a line is read as a liveness probe: it begins with `PING :`, and what
/// follows is the server, taken as it stands.
pub open spec fn ping_message(line: Seq<char>) -> Result<MessageTypeView, ParseMessageTypeError> {
    if ping_prefix().is_prefix_of(line) {
        Ok(MessageTypeView::PingMessage(line.skip(ping_prefix().len() as int)))
    } else {
        Err(ParseMessageTypeError::UnknownMessageType)
    }
}

/// How a line is classified: one that begins with `:` is read as a channel
/// message, any other as a liveness probe.
pub open spec fn parse_line(line: Seq<char>) -> Result<MessageTypeView, ParseMessageTypeError> {
    if line.len() > 0 && line[0] == ':' {
        text_message(line)
    } else {
        ping_message(line)
    }
}

/// What a returned value stands for: the view of the message, or the error.
pub open spec fn outcome(r: Result<MessageType, ParseMessageTypeError>) -> Result<
    MessageTypeView,
    ParseMessageTypeError,
> {
    match r {
        Ok(message) => Ok(message@),
        Err(e) => Err(e),
    }
}

} // verus!
