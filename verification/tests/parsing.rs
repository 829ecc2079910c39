use std::str::FromStr;

use twitch_chat::{MessageType, ParseMessageTypeError};

#[test]
fn parsing_private_messages() {
    let raw_message = ":carkhy!carkhy@carkhy.tmi.twitch.tv PRIVMSG #captaincallback :a function that takes a string and returns the message";
    let parsed = MessageType::from_str(raw_message);
    assert!(parsed.is_ok());
    if let MessageType::UserMessage(info) = parsed.unwrap() {
        assert_eq!(info.user, "carkhy");
        assert_eq!(
            info.text,
            "a function that takes a string and returns the message"
        );
    } else {
        unreachable!();
    }
}

#[test]
fn parsing_private_messages_with_trailing_newlines() {
    let raw_message = ":carkhy!carkhy@carkhy.tmi.twitch.tv PRIVMSG #captaincallback :a function that takes a string and returns the message\n";
    let parsed = MessageType::from_str(raw_message);
    assert!(parsed.is_ok());
    if let MessageType::UserMessage(info) = parsed.unwrap() {
        assert_eq!(info.user, "carkhy");
        assert_eq!(
            info.text,
            "a function that takes a string and returns the message"
        );
    } else {
        unreachable!();
    }
}

#[test]
fn parsing_ping_messages() {
    let ping_message = "PING :tmi.twitch.tv";
    let parsed = MessageType::from_str(ping_message);
    assert!(parsed.is_ok());
    if let MessageType::PingMessage(server) = parsed.unwrap() {
        assert_eq!(server, "tmi.twitch.tv");
    } else {
        unreachable!();
    }
}

#[test]
fn collect_after_skipping_past_the_end() {
    let s = String::from("bleh");
    let iter = s.chars().skip(35);
    let s2: String = iter.collect();
    assert_eq!(s2, "");
}

#[test]
fn slice_starting_at_len() {
    let s = String::from("bleh");
    let slice = &s[s.len()..];
    assert_eq!(slice, "");
}

fn user_message(line: &str) -> (String, String) {
    match MessageType::parse_from_str(line) {
        Ok(MessageType::UserMessage(info)) => (info.user, info.text),
        other => panic!("not a user message: {:?}", other),
    }
}

fn ping(line: &str) -> String {
    match MessageType::parse_from_str(line) {
        Ok(MessageType::PingMessage(server)) => server,
        other => panic!("not a ping: {:?}", other),
    }
}

fn is_unknown(line: &str) -> bool {
    matches!(
        MessageType::parse_from_str(line),
        Err(ParseMessageTypeError::UnknownMessageType)
    )
}

#[test]
fn empty_input_is_unknown() {
    assert!(is_unknown(""));
    assert!(matches!(
        MessageType::from_text_message(""),
        Err(ParseMessageTypeError::UnknownMessageType)
    ));
    assert!(matches!(
        MessageType::from_ping_message(""),
        Err(ParseMessageTypeError::UnknownMessageType)
    ));
}

#[test]
fn lone_colon_is_unknown() {
    assert!(is_unknown(":"));
}

#[test]
fn privmsg_without_body_is_unknown() {
    assert!(is_unknown(":nick!u@h PRIVMSG #c"));
    // The space that ends the channel token is there, but nothing follows.
    assert!(is_unknown(":nick!u@h PRIVMSG #c "));
}

#[test]
fn body_may_be_empty_after_the_skipped_scalar() {
    assert_eq!(
        user_message(":nick!u@h PRIVMSG #c :"),
        (String::from("nick"), String::new())
    );
    assert_eq!(
        user_message(":nick!u@h PRIVMSG #c : \r\n"),
        (String::from("nick"), String::new())
    );
}

#[test]
fn other_commands_are_unknown() {
    assert!(is_unknown(":x!y@z JOIN #c"));
    assert!(is_unknown(":x!y@z NOTICE #c :hi"));
    assert!(is_unknown(":x!y@z privmsg #c :hi"));
    assert!(is_unknown(":x!y@z PRIVMSGS #c :hi"));
    assert!(is_unknown(":x!y@z  PRIVMSG #c :hi"));
    assert!(is_unknown("@badge=1 :x!y@z PRIVMSG #c :hi"));
}

#[test]
fn ping_needs_its_exact_prefix() {
    assert!(is_unknown("PING tmi.twitch.tv"));
    assert!(is_unknown("PING"));
    assert!(is_unknown("PING "));
    assert!(is_unknown("ping :tmi.twitch.tv"));
    assert!(is_unknown(" PING :tmi.twitch.tv"));
    assert!(is_unknown("PONG :tmi.twitch.tv"));
}

#[test]
fn ping_server_is_taken_verbatim() {
    assert_eq!(ping("PING :"), "");
    assert_eq!(ping("PING : tmi.twitch.tv \r\n"), " tmi.twitch.tv \r\n");
    assert_eq!(ping("PING ::a b"), ":a b");
    assert_eq!(ping("PING :sérveur.日本"), "sérveur.日本");
}

#[test]
fn space_in_the_user_name_is_unknown() {
    assert!(is_unknown(":a b!c@d PRIVMSG #e :hi"));
    assert!(is_unknown(": a!c@d PRIVMSG #e :hi"));
}

#[test]
fn prefix_without_bang_is_unknown() {
    assert!(is_unknown(":tmi.twitch.tv PRIVMSG #c :hi"));
    assert!(is_unknown(":nick"));
    assert!(is_unknown(":nick!user@host"));
    assert!(is_unknown(":nick!user@host PRIVMSG"));
}

#[test]
fn user_starts_after_the_last_colon_before_the_bang() {
    assert_eq!(
        user_message("::a!b PRIVMSG #c :x"),
        (String::from("a"), String::from("x"))
    );
    assert_eq!(
        user_message(":a:b:c!d PRIVMSG #c :x"),
        (String::from("c"), String::from("x"))
    );
    assert_eq!(
        user_message(":!d PRIVMSG #c :x"),
        (String::new(), String::from("x"))
    );
    // A colon after the bang leaves the user as it is.
    assert_eq!(
        user_message(":a!b:c PRIVMSG #c :x"),
        (String::from("a"), String::from("x"))
    );
}

#[test]
fn text_message_does_not_need_the_leading_colon() {
    match MessageType::from_text_message("nick!u@h PRIVMSG #c :hello") {
        Ok(MessageType::UserMessage(info)) => {
            assert_eq!(info.user, "nick");
            assert_eq!(info.text, "hello");
        }
        other => panic!("not a user message: {:?}", other),
    }
    // Through the dispatch the same line is read as a liveness probe.
    assert!(is_unknown("nick!u@h PRIVMSG #c :hello"));
}

#[test]
fn one_scalar_is_skipped_before_the_body() {
    assert_eq!(user_message(":n!u PRIVMSG #c xhello").1, "hello");
    assert_eq!(user_message(":n!u PRIVMSG #c ::hello").1, ":hello");
    assert_eq!(user_message(":n!u PRIVMSG #c éhello").1, "hello");
    assert_eq!(user_message(":n!u PRIVMSG #c 日本語").1, "本語");
    // An empty channel token: the scalar after the third space is skipped.
    assert_eq!(user_message(":n!u PRIVMSG  :hello").1, "hello");
}

#[test]
fn non_ascii_scalars_are_preserved() {
    assert_eq!(
        user_message(":ünïcödé!u@h PRIVMSG #c :héllo wörld 日本語 🎉"),
        (String::from("ünïcödé"), String::from("héllo wörld 日本語 🎉"))
    );
    assert_eq!(
        user_message(":日本!u@h PRIVMSG #チャンネル :🎉"),
        (String::from("日本"), String::from("🎉"))
    );
}

#[test]
fn text_is_trimmed_on_both_sides() {
    assert_eq!(user_message(":n!u PRIVMSG #c :  a  b \t\r\n").1, "a  b");
    assert_eq!(user_message(":n!u PRIVMSG #c :\u{b}\u{c}a\u{b}\u{c}").1, "a");
    assert_eq!(
        user_message(":n!u PRIVMSG #c :\u{a0}\u{3000}a\u{2003}\u{85}").1,
        "a"
    );
    // Scalars next to the whitespace ranges stay.
    assert_eq!(
        user_message(":n!u PRIVMSG #c :\u{200b}a\u{200b}").1,
        "\u{200b}a\u{200b}"
    );
}

#[test]
fn text_has_no_surrounding_ascii_whitespace() {
    let lines = [
        ":n!u PRIVMSG #c : a ",
        ":n!u PRIVMSG #c :\ta\t",
        ":n!u PRIVMSG #c :\na\n",
        ":n!u PRIVMSG #c :\ra\r",
        ":n!u PRIVMSG #c :a",
        ":n!u PRIVMSG #c : ",
    ];
    for line in lines {
        let text = user_message(line).1;
        let ascii_space = |c: char| (c >= '\u{9}' && c <= '\u{d}') || c == ' ';
        assert!(!text.chars().next().map_or(false, ascii_space));
        assert!(!text.chars().last().map_or(false, ascii_space));
    }
}

#[test]
fn user_message_holds_its_literals_in_order() {
    let line = ":nick!u@h PRIVMSG #c :hello";
    let (user, _) = user_message(line);
    let colon = line.find(':').unwrap();
    let bang = line.find('!').unwrap();
    let token = line.find(" PRIVMSG ").unwrap();
    let separator = line[token + 9..].find(" :").unwrap() + token + 9;
    assert!(colon < bang && bang < token && token + 9 <= separator);
    assert_eq!(user, &line[colon + 1..bang]);
}

#[test]
fn ping_is_its_prefix_followed_by_the_server() {
    let line = "PING :tmi.twitch.tv";
    let server = ping(line);
    assert_eq!(&line.as_bytes()[..6], b"PING :");
    assert_eq!(format!("PING :{}", server), line);
}

#[test]
fn equal_inputs_give_equal_outputs() {
    let lines = [
        ":nick!u@h PRIVMSG #c :hello",
        "PING :tmi.twitch.tv",
        ":x!y@z JOIN #c",
        "",
    ];
    for line in lines {
        let copy = String::from(line);
        let first = format!("{:?}", MessageType::parse_from_str(line));
        let second = format!("{:?}", MessageType::parse_from_str(&copy));
        let third = format!("{:?}", MessageType::from_str(line));
        assert_eq!(first, second);
        assert_eq!(first, third);
    }
}

#[test]
fn results_do_not_depend_on_the_input_buffer() {
    let line = String::from(":nick!u@h PRIVMSG #c :hello");
    let parsed = MessageType::parse_from_str(&line);
    drop(line);
    match parsed {
        Ok(MessageType::UserMessage(info)) => {
            assert_eq!(info.user, "nick");
            assert_eq!(info.text, "hello");
        }
        other => panic!("not a user message: {:?}", other),
    }
}
