//! The parser: one pass over the scalars of a line.

use crate::grammar::{
    bang_index, channel_end, is_user_message, outcome, parse_line, ping_message, ping_prefix,
    prefix_end, privmsg_token, text_message, token_end, user_of,
};
use crate::message::{MessageInfo, MessageType, ParseMessageTypeError};
use crate::scan::{
    lemma_find_char_is, lemma_find_char_props, lemma_rfind_char_props,
    lemma_trimmed_has_no_surrounding_whitespace, no_surrounding_ascii_whitespace, rfind_char,
    starts_with_char, str_eq, strip_prefix, trim,
};
use vstd::prelude::*;
use vstd::string::StrSliceExecFns;

verus! {

/// Where the scan of a prefixed line stands.
enum ParsingState {
    /// In the sender prefix, before its `!`.
    UserName,
    /// In the sender prefix, after its `!`.
    AdditionalUserInfo,
    /// In the command token.
    MessageToken,
    /// In the channel token.
    Channel,
    /// Past the channel token: the next scalar introduces the body.
    MessageText,
}

/// What the scan has established of `line` once its first `i` scalars are
/// read: where the tokens found so far lie, and that no later token has begun.
spec fn scanned(
    line: Seq<char>,
    i: int,
    state: ParsingState,
    marker: int,
    user_name: Seq<char>,
) -> bool {
    match state {
        ParsingState::UserName => {
            &&& forall|j: int| 0 <= j < i ==> line[j] != '!' && line[j] != ' '
            &&& marker == rfind_char(line, ':', i) + 1
        },
        ParsingState::AdditionalUserInfo => {
            &&& bang_index(line) < i
            &&& forall|j: int| 0 <= j < i ==> line[j] != ' '
            &&& user_name == user_of(line)
        },
        ParsingState::MessageToken => {
            &&& bang_index(line) < prefix_end(line) < i
            &&& marker == prefix_end(line) + 1
            &&& forall|j: int| marker <= j < i ==> line[j] != ' '
            &&& user_name == user_of(line)
        },
        ParsingState::Channel => {
            &&& bang_index(line) < prefix_end(line) < token_end(line) < i
            &&& line.subrange(prefix_end(line) + 1, token_end(line)) == privmsg_token()
            &&& forall|j: int| token_end(line) < j < i ==> line[j] != ' '
            &&& user_name == user_of(line)
        },
        ParsingState::MessageText => {
            &&& bang_index(line) < prefix_end(line) < token_end(line) < channel_end(line)
            &&& line.subrange(prefix_end(line) + 1, token_end(line)) == privmsg_token()
            &&& channel_end(line) == i - 1
            &&& user_name == user_of(line)
        },
    }
}

/// A scan that reaches the end of the line has not found a channel message.
proof fn lemma_scan_ended(line: Seq<char>, state: ParsingState, marker: int, user_name: Seq<char>)
    requires
        scanned(line, line.len() as int, state, marker, user_name),
    ensures
        !is_user_message(line),
{
    let n = line.len() as int;
    match state {
        ParsingState::UserName => {
            lemma_find_char_is(line, '!', 0, n);
            lemma_find_char_props(line, ' ', 0);
        },
        ParsingState::AdditionalUserInfo => {
            lemma_find_char_is(line, ' ', 0, n);
        },
        ParsingState::MessageToken => {
            lemma_find_char_props(line, ' ', 0);
            lemma_find_char_is(line, ' ', marker, n);
        },
        ParsingState::Channel => {
            lemma_find_char_props(line, '!', 0);
            lemma_find_char_is(line, ' ', token_end(line) + 1, n);
        },
        ParsingState::MessageText => {},
    }
}

impl MessageType {
    /// Classifies one line of the chat stream.
    ///
    /// A line that begins with `:` is read as a channel message, any other as
    /// a liveness probe; what is neither is `UnknownMessageType`.
    pub fn parse_from_str(s: &str) -> (r: Result<Self, ParseMessageTypeError>)
        ensures
            outcome(r) == parse_line(s@),
            r matches Ok(MessageType::UserMessage(info)) ==> no_surrounding_ascii_whitespace(
                info.text@,
            ),
            r matches Ok(MessageType::PingMessage(server)) ==> s@ == ping_prefix() + server@,
    {
        if starts_with_char(s, ':') {
            MessageType::from_text_message(s)
        } else {
            MessageType::from_ping_message(s)
        }
    }

    /// Reads a line as a liveness probe, as in `PING :tmi.twitch.tv`.
    ///
    /// The line is accepted exactly when it begins with `PING :`; the server
    /// is all that follows, untrimmed.
    pub fn from_ping_message(raw_message: &str) -> (r: Result<Self, ParseMessageTypeError>)
        ensures
            outcome(r) == ping_message(raw_message@),
            r matches Ok(MessageType::PingMessage(server)) ==> raw_message@ == ping_prefix()
                + server@,
    {
        if let Some(server) = strip_prefix(raw_message, "PING :") {
            assert(raw_message@ =~= ping_prefix() + server@);
            Ok(MessageType::PingMessage(server.to_owned()))
        } else {
            Err(ParseMessageTypeError::UnknownMessageType)
        }
    }

    /// Reads a line as a channel message, as in
    /// `:carkhy!carkhy@carkhy.tmi.twitch.tv PRIVMSG #captaincallback :backseating backseating`.
    ///
    /// The nickname runs from the last `:` before the first `!` up to that
    /// `!`, which must come before any space. The token between the first and
    /// the second space must be `PRIVMSG`. After the third space one scalar is
    /// skipped, and the trimmed rest is the text.
    pub fn from_text_message(raw_message: &str) -> (r: Result<Self, ParseMessageTypeError>)
        ensures
            outcome(r) == text_message(raw_message@),
            r matches Ok(MessageType::UserMessage(info)) ==> no_surrounding_ascii_whitespace(
                info.text@,
            ),
    {
        let n: usize = raw_message.unicode_len();
        let mut state = ParsingState::UserName;
        let mut user_name = raw_message.substring_char(0, 0);
        let mut marker: usize = 0;
        let mut i: usize = 0;

        for codepoint in it: raw_message.chars()
            invariant
                n == raw_message@.len(),
                it.seq() == raw_message@,
                i == it.index(),
                marker <= i,
                scanned(raw_message@, i as int, state, marker as int, user_name@),
        {
            let ghost line = raw_message@;
            match state {
                // :carkhy!carkhy@carkhy.tmi.twitch.tv
                ParsingState::UserName => {
                    if codepoint == ':' {
                        marker = i + 1;
                    } else if codepoint == ' ' {
                        proof {
                            lemma_find_char_is(line, ' ', 0, i as int);
                            lemma_find_char_props(line, '!', 0);
                        }
                        return Err(ParseMessageTypeError::UnknownMessageType);
                    } else if codepoint == '!' {
                        proof {
                            lemma_find_char_is(line, '!', 0, i as int);
                            lemma_rfind_char_props(line, ':', i as int);
                        }
                        user_name = raw_message.substring_char(marker, i);
                        state = ParsingState::AdditionalUserInfo;
                    }
                },
                ParsingState::AdditionalUserInfo => {
                    if codepoint == ' ' {
                        proof {
                            lemma_find_char_is(line, ' ', 0, i as int);
                        }
                        marker = i + 1;
                        state = ParsingState::MessageToken;
                    }
                },
                // PRIVMSG #captaincallback :backseating backseating
                ParsingState::MessageToken => {
                    if codepoint == ' ' {
                        proof {
                            lemma_find_char_is(line, ' ', marker as int, i as int);
                        }
                        let token = raw_message.substring_char(marker, i);
                        if str_eq(token, "PRIVMSG") {
                            state = ParsingState::Channel;
                        } else {
                            // only PRIVMSG is of interest
                            return Err(ParseMessageTypeError::UnknownMessageType);
                        }
                    }
                },
                ParsingState::Channel => {
                    if codepoint == ' ' {
                        proof {
                            lemma_find_char_is(line, ' ', token_end(line) + 1, i as int);
                        }
                        state = ParsingState::MessageText;
                    }
                },
                ParsingState::MessageText => {
                    proof {
                        lemma_trimmed_has_no_surrounding_whitespace(
                            line.subrange(i + 1, n as int),
                        );
                    }
                    return Ok(
                        MessageType::UserMessage(
                            MessageInfo {
                                user: user_name.to_owned(),
                                text: trim(raw_message.substring_char(i + 1, n)).to_owned(),
                            },
                        ),
                    );
                },
            }
            i = i + 1;
        }
        proof {
            lemma_scan_ended(raw_message@, state, marker as int, user_name@);
        }
        Err(ParseMessageTypeError::UnknownMessageType)
    }
}

impl std::str::FromStr for MessageType {
    type Err = ParseMessageTypeError;

    /// Classifies one line of the chat stream, as `parse_from_str` does.
    fn from_str(s: &str) -> (r: Result<Self, Self::Err>)
        ensures
            outcome(r) == parse_line(s@),
            r matches Ok(MessageType::UserMessage(info)) ==> no_surrounding_ascii_whitespace(
                info.text@,
            ),
            r matches Ok(MessageType::PingMessage(server)) ==> s@ == ping_prefix() + server@,
    {
        MessageType::parse_from_str(s)
    }
}

} // verus!
