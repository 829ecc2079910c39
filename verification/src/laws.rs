//! What holds of every classified line, proved from the grammar.

use crate::grammar::{
    bang_index, body_start, channel_end, is_user_message, nick_start, outcome, parse_line,
    ping_prefix, prefix_end, privmsg_token, text_of, token_end, user_of,
};
use crate::message::{MessageType, MessageTypeView, ParseMessageTypeError};
use crate::scan::{
    find_char, is_whitespace, lemma_find_char_props, lemma_rfind_char_props,
    lemma_trimmed_has_no_surrounding_whitespace, no_surrounding_ascii_whitespace, rfind_char,
};
use vstd::prelude::*;

verus! {

/// Whether `pattern` stands in `line` at index `at`.
pub open spec fn occurs_at(line: Seq<char>, pattern: Seq<char>, at: int) -> bool {
    0 <= at && at + pattern.len() <= line.len() && line.subrange(at, at + pattern.len())
        == pattern
}

/// Whether `line` holds `:`, `!`, ` PRIVMSG ` and ` :` one after the other,
/// each beginning where the one before it has ended, or later.
pub open spec fn literals_in_order(line: Seq<char>) -> bool {
    exists|c: int, b: int, t: int, q: int|
        #![trigger occurs_at(line, ":"@, c), occurs_at(line, "!"@, b), occurs_at(line, " PRIVMSG "@, t), occurs_at(line, " :"@, q)]
        occurs_at(line, ":"@, c) && occurs_at(line, "!"@, b) && occurs_at(line, " PRIVMSG "@, t)
            && occurs_at(line, " :"@, q) && c + 1 <= b && b + 1 <= t && t + 9 <= q
}

/// Whether a space followed by `:` stands somewhere after the command token.
pub open spec fn has_trailing_separator(line: Seq<char>) -> bool {
    exists|q: int| token_end(line) < q && #[trigger] occurs_at(line, " :"@, q)
}

/// Whether the first `:` of the line is the only one before its first `!`.
pub open spec fn nick_follows_first_colon(line: Seq<char>) -> bool {
    rfind_char(line, ':', bang_index(line)) == find_char(line, ':', 0)
}

/// Where the parts of a channel message lie: the nickname ends at the first
/// `!`, which comes before the first space; ` PRIVMSG ` stands at that space;
/// the channel token ends at the next space, and at least one scalar follows.
pub proof fn lemma_user_message_layout(line: Seq<char>)
    requires
        is_user_message(line),
    ensures
        0 <= nick_start(line) <= bang_index(line) < prefix_end(line),
        token_end(line) == prefix_end(line) + 8,
        token_end(line) < channel_end(line),
        body_start(line) <= line.len(),
        line[bang_index(line)] == '!',
        line[channel_end(line)] == ' ',
        occurs_at(line, " PRIVMSG "@, prefix_end(line)),
        nick_start(line) > 0 ==> line[nick_start(line) - 1] == ':',
{
    reveal_strlit("PRIVMSG");
    reveal_strlit(" PRIVMSG ");
    lemma_find_char_props(line, '!', 0);
    lemma_find_char_props(line, ' ', 0);
    lemma_find_char_props(line, ' ', prefix_end(line) + 1);
    lemma_find_char_props(line, ' ', token_end(line) + 1);
    lemma_rfind_char_props(line, ':', bang_index(line));
    let p = prefix_end(line);
    let token = line.subrange(p + 1, token_end(line));
    assert(token.len() == 7);
    let framed = line.subrange(p, p + 9);
    assert forall|j: int| 0 <= j < 9 implies framed[j] == " PRIVMSG "@[j] by {
        if 1 <= j <= 7 {
            assert(framed[j] == token[j - 1]);
        }
    }
    assert(framed =~= " PRIVMSG "@);
}

/// The nickname of a channel message holds no `:`, no `!` and no space.
pub proof fn lemma_user_has_no_delimiter(line: Seq<char>)
    requires
        is_user_message(line),
    ensures
        forall|j: int|
            0 <= j < user_of(line).len() ==> {
                let c = #[trigger] user_of(line)[j];
                c != ':' && c != '!' && c != ' '
            },
{
    lemma_user_message_layout(line);
    lemma_find_char_props(line, '!', 0);
    lemma_find_char_props(line, ' ', 0);
    lemma_rfind_char_props(line, ':', bang_index(line));
    assert forall|j: int| 0 <= j < user_of(line).len() implies {
        let c = #[trigger] user_of(line)[j];
        c != ':' && c != '!' && c != ' '
    } by {
        assert(user_of(line)[j] == line[nick_start(line) + j]);
    }
}

/// A line classified as a channel message begins with `:` and has the shape of
/// one, and the message returned holds its nickname and its trimmed body.
pub proof fn lemma_user_message_accepted(line: Seq<char>)
    requires
        parse_line(line) matches Ok(MessageTypeView::UserMessage(_)),
    ensures
        line.len() > 0 && line[0] == ':',
        is_user_message(line),
        parse_line(line) matches Ok(MessageTypeView::UserMessage(info)) && info.user == user_of(
            line,
        ) && info.text == text_of(line),
{
}

/// A line classified as a channel message holds `:`, `!` and ` PRIVMSG ` in
/// that order, and its user is what stands between the last `:` before the
/// first `!` and that `!`.
pub proof fn lemma_user_message_prefix_in_order(line: Seq<char>)
    requires
        parse_line(line) matches Ok(MessageTypeView::UserMessage(_)),
    ensures
        occurs_at(line, ":"@, nick_start(line) - 1),
        occurs_at(line, "!"@, bang_index(line)),
        occurs_at(line, " PRIVMSG "@, prefix_end(line)),
        nick_start(line) <= bang_index(line) < prefix_end(line),
        nick_start(line) - 1 == rfind_char(line, ':', bang_index(line)),
        bang_index(line) == find_char(line, '!', 0),
        parse_line(line) matches Ok(MessageTypeView::UserMessage(info)) && info.user
            == line.subrange(nick_start(line), bang_index(line)),
{
    reveal_strlit(":");
    reveal_strlit("!");
    lemma_user_message_layout(line);
    lemma_rfind_char_props(line, ':', bang_index(line));
    lemma_find_char_props(line, '!', 0);
    let k = rfind_char(line, ':', bang_index(line));
    if k < 0 {
        // The line begins with `:`, which comes before its first `!`.
        assert(line[0] == ':');
        assert(bang_index(line) > 0);
        assert(false);
    }
    assert(line.subrange(k, k + 1) =~= ":"@);
    assert(line.subrange(bang_index(line), bang_index(line) + 1) =~= "!"@);
}

/// A line classified as a channel message holds `:`, `!`, ` PRIVMSG ` and ` :`
/// in that order, and its user is what stands between the first `:` and the
/// first `!`: this holds where a space followed by `:` comes after the command
/// token, and no second `:` comes before the first `!`.
pub proof fn lemma_user_message_literals_in_order(line: Seq<char>)
    requires
        parse_line(line) matches Ok(MessageTypeView::UserMessage(_)),
        has_trailing_separator(line),
        nick_follows_first_colon(line),
    ensures
        literals_in_order(line),
        parse_line(line) matches Ok(MessageTypeView::UserMessage(info)) && info.user
            == line.subrange(find_char(line, ':', 0) + 1, find_char(line, '!', 0)),
{
    lemma_user_message_prefix_in_order(line);
    let c = nick_start(line) - 1;
    let b = bang_index(line);
    let t = prefix_end(line);
    let q = choose|q: int| token_end(line) < q && #[trigger] occurs_at(line, " :"@, q);
    lemma_user_message_layout(line);
    assert(occurs_at(line, ":"@, c) && occurs_at(line, "!"@, b) && occurs_at(
        line,
        " PRIVMSG "@,
        t,
    ) && occurs_at(line, " :"@, q));
}

/// Where the literals stand in order at all, a space followed by `:` comes
/// after the command token: the condition of the law above leaves out no line
/// of which its first claim holds.
pub proof fn lemma_literals_in_order_need_separator(line: Seq<char>)
    requires
        parse_line(line) matches Ok(MessageTypeView::UserMessage(_)),
        literals_in_order(line),
    ensures
        has_trailing_separator(line),
{
    reveal_strlit("!");
    reveal_strlit(" PRIVMSG ");
    let (c, b, t, q) = choose|c: int, b: int, t: int, q: int|
        #![trigger occurs_at(line, ":"@, c), occurs_at(line, "!"@, b), occurs_at(line, " PRIVMSG "@, t), occurs_at(line, " :"@, q)]
        occurs_at(line, ":"@, c) && occurs_at(line, "!"@, b) && occurs_at(line, " PRIVMSG "@, t)
            && occurs_at(line, " :"@, q) && c + 1 <= b && b + 1 <= t && t + 9 <= q;
    lemma_user_message_layout(line);
    lemma_find_char_props(line, '!', 0);
    lemma_find_char_props(line, ' ', 0);
    assert(line.subrange(b, b + 1)[0] == '!');
    assert(line.subrange(t, t + 9)[0] == ' ');
    // `b` is at or after the first `!`, so the space at `t` is at or after
    // the first space that follows it.
    assert(bang_index(line) <= b);
    assert(prefix_end(line) <= t);
    assert(occurs_at(line, " :"@, q));
}

/// The text of a line classified as a channel message neither begins nor ends
/// with whitespace, ASCII or other.
pub proof fn lemma_text_is_trimmed(line: Seq<char>)
    requires
        parse_line(line) matches Ok(MessageTypeView::UserMessage(_)),
    ensures
        parse_line(line) matches Ok(MessageTypeView::UserMessage(info)) && {
            &&& no_surrounding_ascii_whitespace(info.text)
            &&& info.text.len() > 0 ==> !is_whitespace(info.text[0]) && !is_whitespace(
                info.text.last(),
            )
        },
{
    lemma_trimmed_has_no_surrounding_whitespace(
        line.subrange(body_start(line), line.len() as int),
    );
}

/// A line classified as a liveness probe is `PING :` followed by the server,
/// which is returned as it stands.
pub proof fn lemma_ping_message_shape(line: Seq<char>)
    requires
        parse_line(line) matches Ok(MessageTypeView::PingMessage(_)),
    ensures
        line.len() >= 6,
        line.subrange(0, 6) == seq!['P', 'I', 'N', 'G', ' ', ':'],
        parse_line(line) matches Ok(MessageTypeView::PingMessage(server)) && server
            == line.subrange(6, line.len() as int) && line == ping_prefix() + server,
{
    reveal_strlit("PING :");
    assert(ping_prefix() =~= seq!['P', 'I', 'N', 'G', ' ', ':']);
    let server = line.subrange(6, line.len() as int);
    assert(line =~= ping_prefix() + server);
}

/// A line is a liveness probe exactly when it begins with `PING :`.
pub proof fn lemma_ping_message_iff_prefix(line: Seq<char>)
    ensures
        parse_line(line) matches Ok(MessageTypeView::PingMessage(_)) <==> ping_prefix().is_prefix_of(
            line,
        ),
{
    reveal_strlit("PING :");
    if ping_prefix().is_prefix_of(line) {
        assert(line[0] == ping_prefix()[0]);
    }
}

/// Classification is a function of the line: whatever two calls return on
/// lines that hold the same scalars stands for the same outcome.
pub proof fn lemma_parse_is_deterministic(
    a: Seq<char>,
    b: Seq<char>,
    ra: Result<MessageType, ParseMessageTypeError>,
    rb: Result<MessageType, ParseMessageTypeError>,
)
    requires
        a == b,
        outcome(ra) == parse_line(a),
        outcome(rb) == parse_line(b),
    ensures
        outcome(ra) == outcome(rb),
        ra is Ok <==> rb is Ok,
        ra matches Ok(x) ==> rb matches Ok(y) && x@ == y@,
{
}

} // verus!
