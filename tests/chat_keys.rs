use ifi_blog::chat_id::{parse_target, ChatIdentifier, TargetError};
use ifi_blog::key::{decode, encode};

fn channel(name: &str) -> ChatIdentifier {
    ChatIdentifier::ChannelUsername(name.to_string())
}

#[test]
fn numeric_key_is_tag_then_little_endian_bytes() {
    assert_eq!(encode(&ChatIdentifier::Id(1)), vec![0, 1, 0, 0, 0, 0, 0, 0, 0]);
    assert_eq!(
        encode(&ChatIdentifier::Id(-2)),
        vec![0, 0xfe, 0xff, 0xff, 0xff, 0xff, 0xff, 0xff, 0xff]
    );
}

#[test]
fn channel_key_is_tag_length_then_utf8() {
    assert_eq!(
        encode(&channel("@ab")),
        vec![1, 3, 0, 0, 0, 0, 0, 0, 0, b'@', b'a', b'b']
    );
    assert_eq!(encode(&channel("é")), vec![1, 2, 0, 0, 0, 0, 0, 0, 0, 0xc3, 0xa9]);
}

#[test]
fn keys_round_trip() {
    let ids = vec![
        ChatIdentifier::Id(0),
        ChatIdentifier::Id(42),
        ChatIdentifier::Id(i64::MIN),
        ChatIdentifier::Id(i64::MAX),
        channel(""),
        channel("@somechannel"),
        channel("@ümlaut✓"),
    ];
    for id in ids {
        assert_eq!(decode(&encode(&id)), Some(id.clone()));
    }
}

#[test]
fn numeric_and_channel_keys_never_collide() {
    assert_ne!(encode(&ChatIdentifier::Id(42)), encode(&channel("42")));
    assert_ne!(ChatIdentifier::Id(42), channel("42"));
}

#[test]
fn malformed_keys_decode_to_nothing() {
    assert_eq!(decode(&[]), None);
    assert_eq!(decode(&[0, 1, 2]), None);
    assert_eq!(decode(&[0, 1, 0, 0, 0, 0, 0, 0, 0, 9]), None);
    assert_eq!(decode(&[2, 1, 0, 0, 0, 0, 0, 0, 0]), None);
    assert_eq!(decode(&[1, 2, 0, 0, 0, 0, 0, 0, 0, b'a']), None);
    assert_eq!(decode(&[1, 1, 0, 0, 0, 0, 0, 0, 0, b'a', b'b']), None);
    assert_eq!(decode(&[1, 1, 0, 0, 0, 0, 0, 0, 0, 0xff]), None);
}

#[test]
fn target_argument_forms() {
    assert_eq!(parse_target(""), Ok(None));
    assert_eq!(parse_target("@somechannel"), Ok(Some(channel("@somechannel"))));
    assert_eq!(parse_target("42"), Ok(Some(ChatIdentifier::Id(42))));
    assert_eq!(parse_target("-1001234"), Ok(Some(ChatIdentifier::Id(-1001234))));
    assert_eq!(parse_target("+7"), Ok(Some(ChatIdentifier::Id(7))));
}

#[test]
fn target_argument_errors() {
    assert_eq!(parse_target("abc"), Err(TargetError::NotAChat));
    assert_eq!(parse_target("-"), Err(TargetError::NotAChat));
    assert_eq!(parse_target(" 42"), Err(TargetError::NotAChat));
    assert_eq!(parse_target("9223372036854775808"), Err(TargetError::NotAChat));
}

#[test]
fn chat_text() {
    assert_eq!(ChatIdentifier::Id(-42).to_text(), "-42");
    assert_eq!(ChatIdentifier::Id(1234567).to_text(), "1234567");
    assert_eq!(channel("@news").to_text(), "@news");
}
