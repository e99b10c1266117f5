use slack::decode::decode_fields;
use slack::events::{Event, EventError};
use slack::timestamps::timestamp_may_overflow;

fn decode(text: &str) -> Option<Result<Event, EventError>> {
    Event::from_json(text)
}

#[test]
fn hello_event_decodes() {
    assert!(matches!(decode(r#"{"type":"hello"}"#), Some(Ok(Event::Hello))));
}

#[test]
fn events_without_payload_decode() {
    assert!(matches!(decode(r#"{"type":"accounts_changed"}"#), Some(Ok(Event::AccountsChanged))));
    assert!(matches!(decode(r#"{"type":"team_migration_started"}"#), Some(Ok(Event::TeamMigrationStarted))));
    assert!(matches!(decode(r#"{"type":"reconnect_url","url":"wss://x"}"#), Some(Ok(Event::ReconnectUrl))));
}

#[test]
fn standard_message_decodes() {
    let text = r#"{"type":"message","channel":"C2147483705","user":"U2147483697","text":"Hello world","ts":"1355517523.000005"}"#;
    match decode(text) {
        Some(Ok(Event::Message(slack_api::Message::Standard(m)))) => {
            assert_eq!(m.text.as_deref(), Some("Hello world"));
            assert_eq!(m.channel.as_deref(), Some("C2147483705"));
            assert_eq!(m.user.as_deref(), Some("U2147483697"));
        }
        other => panic!("unexpected: {:?}", other),
    }
}

#[test]
fn message_with_unknown_subtype_is_refused() {
    match decode(r#"{"type":"message","subtype":"no_such_subtype"}"#) {
        Some(Err(EventError::BadMessage(m))) => assert!(m.contains("no_such_subtype")),
        other => panic!("unexpected: {:?}", other),
    }
}

#[test]
fn user_typing_decodes_in_any_field_order() {
    match decode(r#"{"type":"user_typing","user":"U1","id":3,"channel":"C1"}"#) {
        Some(Ok(Event::UserTyping { channel, user })) => {
            assert_eq!(channel, "C1");
            assert_eq!(user, "U1");
        }
        other => panic!("unexpected: {:?}", other),
    }
}

#[test]
fn user_typing_without_user_reports_what_it_found() {
    match decode(r#"{"type":"user_typing","channel":"C1"}"#) {
        Some(Err(e @ EventError::MissingFields { .. })) => {
            assert_eq!(e.description(), r#"missing fields: (Some("C1"), None)"#);
            match e {
                EventError::MissingFields { channel, user } => {
                    assert_eq!(channel.as_deref(), Some("C1"));
                    assert_eq!(user, None);
                }
                _ => unreachable!(),
            }
        }
        other => panic!("unexpected: {:?}", other),
    }
    match decode(r#"{"type":"user_typing"}"#) {
        Some(Err(EventError::MissingFields { channel: None, user: None })) => {}
        other => panic!("unexpected: {:?}", other),
    }
}

#[test]
fn user_typing_with_numeric_channel_is_refused() {
    match decode(r#"{"type":"user_typing","channel":7,"user":"U1"}"#) {
        Some(Err(EventError::NotText(key))) => assert_eq!(key, "channel"),
        other => panic!("unexpected: {:?}", other),
    }
    match decode(r#"{"type":"user_typing","channel":"C1","user":null}"#) {
        Some(Err(EventError::NotText(key))) => assert_eq!(key, "user"),
        other => panic!("unexpected: {:?}", other),
    }
}

#[test]
fn unknown_type_is_reported() {
    match decode(r#"{"type":"no_such_event","user":"U1"}"#) {
        Some(Err(e @ EventError::UnknownType(_))) => {
            assert_eq!(e.description(), "Unknown Message type: no_such_event");
        }
        other => panic!("unexpected: {:?}", other),
    }
}

#[test]
fn presence_change_decodes() {
    match decode(r#"{"type":"presence_change","user":"U1","presence":"away"}"#) {
        Some(Ok(Event::PresenceChange { user, presence })) => {
            assert_eq!(user, "U1");
            assert_eq!(presence, "away");
        }
        other => panic!("unexpected: {:?}", other),
    }
}

#[test]
fn type_that_is_not_text_is_refused() {
    match decode(r#"{"type":12}"#) {
        Some(Err(EventError::NotText(key))) => assert_eq!(key, "type"),
        other => panic!("unexpected: {:?}", other),
    }
    match decode(r#"{"ok":true,"type":"hello"}"#) {
        Some(Err(EventError::NotText(key))) => assert_eq!(key, "ok"),
        other => panic!("unexpected: {:?}", other),
    }
}

#[test]
fn text_that_is_no_object_is_malformed() {
    assert!(matches!(decode("[1, 2]"), Some(Err(EventError::Malformed(_)))));
    assert!(matches!(decode("not json"), Some(Err(EventError::Malformed(_)))));
    assert!(matches!(decode(r#"{"type":"hello""#), Some(Err(EventError::Malformed(_)))));
}

#[test]
fn undecided_objects_give_none() {
    assert!(decode("{}").is_none());
    assert!(decode(r#"{"reply_to":1,"type":"hello"}"#).is_some());
    assert!(decode(r#"{"channel":"C1","type":"user_typing"}"#).is_none());
}

fn field(key: &str, value: &str) -> (String, String, Option<String>, String) {
    (key.to_string(), format!("{:?}", key), Some(value.to_string()), format!("{:?}", value))
}

#[test]
fn decode_fields_reads_the_type_field() {
    let fields = vec![field("type", "user_typing"), field("channel", "C1"), field("channel", "C2"), field("user", "U1")];
    match decode_fields(&fields) {
        Ok(Event::UserTyping { channel, user }) => {
            assert_eq!(channel, "C2");
            assert_eq!(user, "U1");
        }
        other => panic!("unexpected: {:?}", other),
    }
    let fields = vec![field("type", "channel_marked"), field("ts", "1.5"), field("channel", "C9")];
    match decode_fields(&fields) {
        Ok(Event::ChannelMarked { channel, ts }) => {
            assert_eq!(channel, "C9");
            assert_eq!(ts, "1.5");
        }
        other => panic!("unexpected: {:?}", other),
    }
    let fields = vec![("type".to_string(), "\"type\"".to_string(), None, "3".to_string())];
    assert!(matches!(decode_fields(&fields), Err(EventError::NotText(k)) if k == "type"));
}

#[test]
fn decoded_events_clone() {
    let event = decode(r#"{"type":"user_typing","channel":"C1","user":"U1"}"#).unwrap().unwrap();
    let copy = event.clone();
    assert!(matches!(copy, Event::UserTyping { ref channel, .. } if channel == "C1"));
}

#[test]
fn message_is_read_from_the_fields_after_type() {
    let text = r#"{"type":"message","channel":"C1","user":"U1","text":"hi","ts":"1355517523.000005"}"#;
    match decode(text) {
        Some(Ok(Event::Message(slack_api::Message::Standard(m)))) => {
            assert_eq!(m.ty, None);
            assert_eq!(m.text.as_deref(), Some("hi"));
        }
        other => panic!("unexpected: {:?}", other),
    }
    match decode(r#"{"type":"message","subtype":"bot_message","bot_id":"B1","text":"beep"}"#) {
        Some(Ok(Event::Message(slack_api::Message::BotMessage(m)))) => {
            assert_eq!(m.bot_id.as_deref(), Some("B1"));
            assert_eq!(m.ty, None);
        }
        other => panic!("unexpected: {:?}", other),
    }
}

#[test]
fn channel_marked_and_im_open_decode() {
    match decode(r#"{"type":"channel_marked","channel":"C1","ts":"1.0"}"#) {
        Some(Ok(Event::ChannelMarked { channel, ts })) => {
            assert_eq!(channel, "C1");
            assert_eq!(ts, "1.0");
        }
        other => panic!("unexpected: {:?}", other),
    }
    match decode(r#"{"type":"im_open","user":"U1","channel":"D1"}"#) {
        Some(Ok(Event::ImOpen { user, channel })) => {
            assert_eq!(user, "U1");
            assert_eq!(channel, "D1");
        }
        other => panic!("unexpected: {:?}", other),
    }
}

#[test]
fn channel_payloads_decode() {
    match decode(r#"{"type":"channel_created","channel":{"id":"C024BE91L","name":"fun","created":1360782804,"creator":"U024BE7LH"}}"#) {
        Some(Ok(Event::ChannelCreated { channel })) => {
            assert_eq!(channel.id.as_deref(), Some("C024BE91L"));
            assert_eq!(channel.name.as_deref(), Some("fun"));
        }
        other => panic!("unexpected: {:?}", other),
    }
    match decode(r#"{"type":"im_created","user":"U1","channel":{"id":"D1"}}"#) {
        Some(Ok(Event::ImCreated { user, channel })) => {
            assert_eq!(user, "U1");
            assert_eq!(channel.id.as_deref(), Some("D1"));
        }
        other => panic!("unexpected: {:?}", other),
    }
}

#[test]
fn file_payloads_decode() {
    match decode(r#"{"type":"file_comment_added","file":{"id":"F1"},"comment":{"id":"Fc1","comment":"nice"}}"#) {
        Some(Ok(Event::FileCommentAdded { file, comment })) => {
            assert_eq!(file.id.as_deref(), Some("F1"));
            assert_eq!(comment.comment.as_deref(), Some("nice"));
        }
        other => panic!("unexpected: {:?}", other),
    }
    match decode(r#"{"type":"file_deleted","file_id":"F2","event_ts":"12.5"}"#) {
        Some(Ok(Event::FileDeleted { file_id, event_ts })) => {
            assert_eq!(file_id, "F2");
            assert_eq!(event_ts, "12.5");
        }
        other => panic!("unexpected: {:?}", other),
    }
}

#[test]
fn pin_removed_reads_its_flag() {
    let text = r#"{"type":"pin_removed","user":"U1","channel_id":"C1","item":{"type":"message","channel":"C1"},"has_pins":false,"event_ts":"2.0"}"#;
    match decode(text) {
        Some(Ok(Event::PinRemoved { user, channel_id, item, has_pins, event_ts })) => {
            assert_eq!(user, "U1");
            assert_eq!(channel_id, "C1");
            assert_eq!(item.channel.as_deref(), Some("C1"));
            assert!(!has_pins);
            assert_eq!(event_ts, "2.0");
        }
        other => panic!("unexpected: {:?}", other),
    }
}

#[test]
fn team_pref_change_reads_a_boolean() {
    match decode(r#"{"type":"team_pref_change","name":"slackbot_responses_only_admins","value":true}"#) {
        Some(Ok(Event::TeamPrefChange { name, value })) => {
            assert_eq!(name, "slackbot_responses_only_admins");
            assert!(value);
        }
        other => panic!("unexpected: {:?}", other),
    }
    match decode(r#"{"type":"team_pref_change","name":"x","value":"yes"}"#) {
        Some(Err(e @ EventError::BadField { .. })) => {
            assert!(e.description().starts_with("invalid field `value`: "));
        }
        other => panic!("unexpected: {:?}", other),
    }
}

#[test]
fn user_payloads_decode() {
    match decode(r#"{"type":"team_join","user":{"id":"U9","name":"bob"}}"#) {
        Some(Ok(Event::TeamJoin { user })) => assert_eq!(user.name.as_deref(), Some("bob")),
        other => panic!("unexpected: {:?}", other),
    }
    assert!(matches!(decode(r#"{"type":"user_change","user":{"id":"U9"}}"#), Some(Ok(Event::UserChange { .. }))));
}

#[test]
fn reactions_and_stars_decode() {
    let text = r#"{"type":"reaction_added","user":"U1","reaction":"thumbsup","item":{"type":"message","channel":"C1","message":{"type":"message","text":"hi"}},"item_user":"U2","event_ts":"3.0"}"#;
    match decode(text) {
        Some(Ok(Event::ReactionAdded { user, reaction, item_user, event_ts, .. })) => {
            assert_eq!(user, "U1");
            assert_eq!(reaction, "thumbsup");
            assert_eq!(item_user, "U2");
            assert_eq!(event_ts, "3.0");
        }
        other => panic!("unexpected: {:?}", other),
    }
    let text = r#"{"type":"star_added","user":"U1","item":{"type":"file","file":{"id":"F1"}},"event_ts":"4.0"}"#;
    assert!(matches!(decode(text), Some(Ok(Event::StarAdded { .. }))));
    let text = r#"{"type":"star_removed","user":"U1","item":{"type":"bogus"},"event_ts":"4.0"}"#;
    assert!(matches!(decode(text), Some(Err(EventError::BadField { ref key, .. })) if key == "item"));
}

#[test]
fn team_and_bot_events_decode() {
    assert!(matches!(decode(r#"{"type":"bot_added","bot":{"id":"B1","name":"hal"}}"#),
        Some(Ok(Event::BotAdded { ref bot })) if bot.name.as_deref() == Some("hal")));
    assert!(matches!(decode(r#"{"type":"email_domain_changed","email_domain":"x.com","event_ts":"1"}"#),
        Some(Ok(Event::EmailDomainChanged { ref email_domain, .. })) if email_domain == "x.com"));
    assert!(matches!(decode(r#"{"type":"email_domain_changeed","email_domain":"x.com","event_ts":"1"}"#),
        Some(Ok(Event::EmailDomainChanged { .. }))));
    assert!(matches!(decode(r#"{"type":"team_rename","name":"Acme"}"#),
        Some(Ok(Event::TeamRename { ref name })) if name == "Acme"));
    assert!(matches!(decode(r#"{"type":"emoji_changed","event_ts":"5"}"#), Some(Ok(Event::EmojiChanged { .. }))));
}

#[test]
fn missing_and_mistyped_fields_are_named() {
    match decode(r#"{"type":"channel_marked","channel":"C1"}"#) {
        Some(Err(e @ EventError::MissingField(_))) => assert_eq!(e.description(), "missing field `ts`"),
        other => panic!("unexpected: {:?}", other),
    }
    match decode(r#"{"type":"im_open","user":4,"channel":"D1"}"#) {
        Some(Err(e @ EventError::NotText(_))) => assert_eq!(e.description(), "invalid type: field `user` is not a string"),
        other => panic!("unexpected: {:?}", other),
    }
    match decode(r#"{"type":"channel_created","channel":5}"#) {
        Some(Err(EventError::BadField { key, .. })) => assert_eq!(key, "channel"),
        other => panic!("unexpected: {:?}", other),
    }
}

#[test]
fn error_texts_of_parsers_are_kept() {
    match decode("xyz") {
        Some(Err(e @ EventError::Malformed(_))) => assert!(e.description().starts_with("expected value")),
        other => panic!("unexpected: {:?}", other),
    }
    match decode(r#"{"type":"message","subtype":"no_such_subtype"}"#) {
        Some(Err(e @ EventError::BadMessage(_))) => assert!(e.description().contains("no_such_subtype")),
        other => panic!("unexpected: {:?}", other),
    }
}

#[test]
fn overflowing_timestamps_are_refused() {
    match decode(r#"{"type":"message","ts":"20000000000000"}"#) {
        Some(Err(e @ EventError::TimestampOverflow(None))) => {
            assert_eq!(e.description(), "timestamp out of range in the message")
        }
        other => panic!("unexpected: {:?}", other),
    }
    assert!(matches!(decode(r#"{"type":"message","ts":"1.5e20"}"#), Some(Err(EventError::TimestampOverflow(None)))));
    assert!(matches!(decode(r#"{"type":"message","ts":"18446744073709.9"}"#), Some(Err(EventError::TimestampOverflow(None)))));
    assert!(matches!(decode(r#"{"type":"message","ts":"18446744073708.999999"}"#), Some(Ok(Event::Message(_)))));
    match decode(r#"{"type":"channel_created","channel":{"id":"C1","latest":{"type":"message","ts":"+99999999999999"}}}"#) {
        Some(Err(e @ EventError::TimestampOverflow(Some(_)))) => {
            assert_eq!(e.description(), "timestamp out of range in field `channel`")
        }
        other => panic!("unexpected: {:?}", other),
    }
}

#[test]
fn timestamp_scan_reads_escapes() {
    assert!(timestamp_may_overflow(r#"{"ts":"\u0032\u00300000000000000"}"#));
    assert!(timestamp_may_overflow(r#"["18446744073709"]"#));
    assert!(!timestamp_may_overflow(r#"["18446744073708"]"#));
    assert!(!timestamp_may_overflow(r#"{"text":"\"20000000000000 apples\""}"#));
    assert!(!timestamp_may_overflow(r#"{"n":20000000000000000000}"#));
    assert!(!timestamp_may_overflow(r#"{"ts":"1355517523.000005","t":"caf\u00e9"}"#));
}
