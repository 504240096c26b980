use boteg::{
    classify, parse, CallbackData, CallbackMessage, Chat, Command, Contents, Message, ParseError,
    RawCallback, RawMessage, RawUpdate, Update, User,
};

fn message(message_id: u64, text: &str, sender: u64, chat: u64) -> Message {
    Message {
        message_id,
        text: text.to_string(),
        from: User { id: sender },
        chat: Chat { id: chat },
    }
}

fn raw_message(text: Option<&str>) -> RawMessage {
    RawMessage {
        message_id: Some(3),
        text: text.map(|text| text.to_string()),
        sender_id: Some(11),
        chat_id: Some(42),
    }
}

fn raw_update(message: Option<RawMessage>) -> RawUpdate {
    RawUpdate { update_id: Some(1), callback_query: None, message, edited_message: None }
}

#[test]
fn plain_text_parses_as_a_message() {
    let body = br#"{"update_id": 5, "message": {"message_id": 3, "text": "hello",
        "from": {"id": 11}, "chat": {"id": 42}}}"#;
    assert_eq!(
        parse(body),
        Ok(Update { update_id: 5, contents: Contents::Message(message(3, "hello", 11, 42)) })
    );
}

#[test]
fn marked_text_parses_as_a_command() {
    let body = br#"{"update_id": 6, "message": {"text": "/test", "chat": {"id": 42}}}"#;
    assert_eq!(
        parse(body),
        Ok(Update {
            update_id: 6,
            contents: Contents::Command(Command { command: "test".to_string(), chat_id: 42 }),
        })
    );
}

#[test]
fn reserved_name_parses_as_the_probe() {
    let body = br#"{"update_id": 7, "message": {"text": "/current", "chat": {"id": 1}}}"#;
    assert_eq!(parse(body), Ok(Update { update_id: 7, contents: Contents::Current(1) }));
}

#[test]
fn longer_name_is_not_the_probe() {
    let body = br#"{"update_id": 7, "message": {"text": "/currently", "chat": {"id": 1}}}"#;
    assert_eq!(
        parse(body),
        Ok(Update {
            update_id: 7,
            contents: Contents::Command(Command { command: "currently".to_string(), chat_id: 1 }),
        })
    );
}

#[test]
fn marker_alone_is_a_command_without_a_name() {
    let body = br#"{"update_id": 7, "message": {"text": "/", "chat": {"id": 1}}}"#;
    assert_eq!(
        parse(body),
        Ok(Update {
            update_id: 7,
            contents: Contents::Command(Command { command: String::new(), chat_id: 1 }),
        })
    );
}

#[test]
fn button_press_parses_with_its_token() {
    let body = br#"{"update_id": 8, "callback_query": {"id": "q1", "from": {"id": 11},
        "message": {"message_id": 3, "text": "pick", "from": {"id": 12}, "chat": {"id": 42}},
        "data": "more/99"}}"#;
    assert_eq!(
        parse(body),
        Ok(Update {
            update_id: 8,
            contents: Contents::CallbackMessage(CallbackMessage {
                id: "q1".to_string(),
                from: User { id: 11 },
                message: message(3, "pick", 12, 42),
                data: CallbackData { command: "more".to_string(), message_id: Some(99) },
            }),
        })
    );
}

#[test]
fn button_press_with_a_bad_payload_is_malformed() {
    let body = br#"{"update_id": 8, "callback_query": {"id": "q1", "from": {"id": 11},
        "message": {"message_id": 3, "text": "pick", "from": {"id": 12}, "chat": {"id": 42}},
        "data": "more/x"}}"#;
    assert_eq!(parse(body), Err(ParseError::MalformedCallback));
}

#[test]
fn button_press_without_a_payload_is_malformed() {
    let body = br#"{"update_id": 8, "callback_query": {"id": "q1", "from": {"id": 11},
        "message": {"message_id": 3, "text": "pick", "from": {"id": 12}, "chat": {"id": 42}}}}"#;
    assert_eq!(parse(body), Err(ParseError::MalformedCallback));
    assert_eq!(parse(br#"{"update_id": 8, "callback_query": null}"#), Err(ParseError::MalformedCallback));
}

#[test]
fn button_press_without_its_message_misses_a_field() {
    let body = br#"{"update_id": 8, "callback_query": {"id": "q1", "from": {"id": 11},
        "data": "more/99"}}"#;
    assert_eq!(parse(body), Err(ParseError::MissingField));
}

#[test]
fn button_press_comes_before_a_message() {
    let body = br#"{"update_id": 8, "message": {"text": "/test", "chat": {"id": 42}},
        "callback_query": {"id": "q1", "from": {"id": 11},
        "message": {"message_id": 3, "text": "pick", "from": {"id": 12}, "chat": {"id": 42}},
        "data": "more"}}"#;
    let update = parse(body).unwrap();
    assert!(matches!(update.contents, Contents::CallbackMessage(_)));
}

#[test]
fn message_with_text_comes_before_an_edited_message() {
    let body = br#"{"update_id": 9,
        "edited_message": {"message_id": 4, "text": "new", "from": {"id": 11}, "chat": {"id": 42}},
        "message": {"message_id": 3, "text": "old", "from": {"id": 11}, "chat": {"id": 42}}}"#;
    assert_eq!(
        parse(body),
        Ok(Update { update_id: 9, contents: Contents::Message(message(3, "old", 11, 42)) })
    );
}

#[test]
fn edited_message_parses_as_a_message() {
    let body = br#"{"update_id": 9,
        "edited_message": {"message_id": 4, "text": "/new", "from": {"id": 11}, "chat": {"id": 42}}}"#;
    assert_eq!(
        parse(body),
        Ok(Update { update_id: 9, contents: Contents::Message(message(4, "/new", 11, 42)) })
    );
}

#[test]
fn message_without_text_gives_way_to_the_edited_message() {
    let body = br#"{"update_id": 9, "message": {"message_id": 3, "chat": {"id": 42}},
        "edited_message": {"message_id": 4, "text": "new", "from": {"id": 11}, "chat": {"id": 42}}}"#;
    assert_eq!(
        parse(body),
        Ok(Update { update_id: 9, contents: Contents::Message(message(4, "new", 11, 42)) })
    );
}

#[test]
fn nothing_recognized_is_empty() {
    assert_eq!(parse(br#"{"update_id": 10}"#), Ok(Update { update_id: 10, contents: Contents::Empty }));
    assert_eq!(
        parse(br#"{"update_id": 10, "poll": {"id": "p"}, "message": {"message_id": 1}}"#),
        Ok(Update { update_id: 10, contents: Contents::Empty })
    );
}

#[test]
fn empty_text_is_no_message() {
    let body = br#"{"update_id": 10, "message": {"message_id": 3, "text": "",
        "from": {"id": 11}, "chat": {"id": 42}}}"#;
    assert_eq!(parse(body), Ok(Update { update_id: 10, contents: Contents::Empty }));
    assert_eq!(
        classify(raw_update(Some(raw_message(Some(""))))),
        Ok(Update { update_id: 1, contents: Contents::Empty })
    );
}

#[test]
fn unknown_members_are_ignored() {
    let body = br#"{"later": [1, 2], "update_id": 5, "message": {"message_id": 3, "text": "hello",
        "entities": [], "from": {"id": 11, "is_bot": false}, "chat": {"id": 42, "type": "private"}}}"#;
    assert_eq!(
        parse(body),
        Ok(Update { update_id: 5, contents: Contents::Message(message(3, "hello", 11, 42)) })
    );
}

#[test]
fn missing_sequence_number_fails() {
    let body = br#"{"message": {"message_id": 3, "text": "hello", "from": {"id": 11}, "chat": {"id": 42}}}"#;
    assert_eq!(parse(body), Err(ParseError::MissingField));
    assert_eq!(parse(b"{}"), Err(ParseError::MissingField));
    assert_eq!(parse(b"[]"), Err(ParseError::MissingField));
    assert_eq!(parse(br#"{"update_id": "5"}"#), Err(ParseError::MissingField));
    assert_eq!(parse(br#"{"update_id": -5}"#), Err(ParseError::MissingField));
    assert_eq!(parse(br#"{"update_id": 5.5}"#), Err(ParseError::MissingField));
}

#[test]
fn message_without_a_needed_member_fails() {
    let body = br#"{"update_id": 5, "message": {"text": "hello", "from": {"id": 11}, "chat": {"id": 42}}}"#;
    assert_eq!(parse(body), Err(ParseError::MissingField));
    let body = br#"{"update_id": 5, "message": {"text": "/test"}}"#;
    assert_eq!(parse(body), Err(ParseError::MissingField));
    let body = br#"{"update_id": 5, "edited_message": {"message_id": 3}}"#;
    assert_eq!(parse(body), Err(ParseError::MissingField));
}

#[test]
fn bytes_that_are_no_json_fail() {
    assert_eq!(parse(b""), Err(ParseError::InvalidJson));
    assert_eq!(parse(b"{"), Err(ParseError::InvalidJson));
    assert_eq!(parse(b"{\"update_id\": 1} trailing"), Err(ParseError::InvalidJson));
    assert_eq!(parse(&[0xff, 0xfe]), Err(ParseError::InvalidJson));
}

#[test]
fn reading_takes_the_members_as_they_are() {
    let body = br#"{"update_id": 5, "message": {"message_id": "3", "text": "hello",
        "from": {"id": 11}, "chat": 42}, "edited_message": 7}"#;
    assert_eq!(
        RawUpdate::read(body),
        Ok(RawUpdate {
            update_id: Some(5),
            callback_query: None,
            message: Some(RawMessage {
                message_id: None,
                text: Some("hello".to_string()),
                sender_id: Some(11),
                chat_id: None,
            }),
            edited_message: Some(RawMessage {
                message_id: None,
                text: None,
                sender_id: None,
                chat_id: None,
            }),
        })
    );
    assert_eq!(RawUpdate::read(b"nonsense"), Err(ParseError::InvalidJson));
}

#[test]
fn reading_a_button_press_takes_its_members() {
    let body = br#"{"callback_query": {"id": "q", "from": {"id": 2}, "data": "x/1"}}"#;
    assert_eq!(
        RawUpdate::read(body),
        Ok(RawUpdate {
            update_id: None,
            callback_query: Some(RawCallback {
                id: Some("q".to_string()),
                sender_id: Some(2),
                message: None,
                data: Some("x/1".to_string()),
            }),
            message: None,
            edited_message: None,
        })
    );
}

#[test]
fn classify_decides_from_the_members_alone() {
    assert_eq!(
        classify(raw_update(Some(raw_message(Some("/test"))))),
        Ok(Update {
            update_id: 1,
            contents: Contents::Command(Command { command: "test".to_string(), chat_id: 42 }),
        })
    );
    assert_eq!(
        classify(raw_update(Some(raw_message(Some("/current"))))),
        Ok(Update { update_id: 1, contents: Contents::Current(42) })
    );
    assert_eq!(
        classify(raw_update(Some(raw_message(Some("hello"))))),
        Ok(Update { update_id: 1, contents: Contents::Message(message(3, "hello", 11, 42)) })
    );
    assert_eq!(
        classify(raw_update(Some(raw_message(None)))),
        Ok(Update { update_id: 1, contents: Contents::Empty })
    );
    assert_eq!(classify(raw_update(None)), Ok(Update { update_id: 1, contents: Contents::Empty }));
}

#[test]
fn classify_reports_the_contents_before_the_sequence_number() {
    let raw = RawUpdate {
        update_id: None,
        callback_query: Some(RawCallback {
            id: Some("q".to_string()),
            sender_id: Some(2),
            message: Some(raw_message(Some("pick"))),
            data: Some("more/x".to_string()),
        }),
        message: None,
        edited_message: None,
    };
    assert_eq!(classify(raw), Err(ParseError::MalformedCallback));
    let raw = RawUpdate { update_id: None, ..raw_update(Some(raw_message(Some("hello")))) };
    assert_eq!(classify(raw), Err(ParseError::MissingField));
}

#[test]
fn chat_id_is_that_of_the_contents() {
    let chat_of = |contents: Contents| Update { update_id: 1, contents }.chat_id();
    assert_eq!(chat_of(Contents::Command(Command { command: "a".to_string(), chat_id: 7 })), Some(7));
    assert_eq!(chat_of(Contents::Message(message(3, "hello", 11, 42))), Some(42));
    assert_eq!(chat_of(Contents::Current(9)), Some(9));
    assert_eq!(
        chat_of(Contents::CallbackMessage(CallbackMessage {
            id: "q".to_string(),
            from: User { id: 1 },
            message: message(3, "pick", 12, 43),
            data: CallbackData { command: "more".to_string(), message_id: None },
        })),
        Some(43)
    );
    assert_eq!(chat_of(Contents::Empty), None);
}
