use ifi_blog::chat_id::ChatIdentifier;
use ifi_blog::key::encode;
use ifi_blog::store::{decode_members, membership, split_chat_id, Chat, StoreError};
use ifi_blog::util::display_iterable;

#[test]
fn lookup_failure_counts_as_absent() {
    assert!(membership(Ok(true)));
    assert!(!membership(Ok(false)));
    assert!(!membership(Err(StoreError::Io)));
}

#[test]
fn scan_decodes_every_key() {
    let a = ChatIdentifier::Id(7);
    let b = ChatIdentifier::ChannelUsername("@c".to_string());
    let keys = vec![encode(&a), encode(&b)];
    assert_eq!(decode_members(&keys), Ok(vec![a, b]));
    assert_eq!(decode_members(&vec![]), Ok(vec![]));
}

#[test]
fn scan_with_a_foreign_key_fails() {
    let keys = vec![encode(&ChatIdentifier::Id(7)), vec![9, 9]];
    assert_eq!(decode_members(&keys), Err(StoreError::CorruptKey));
}

#[test]
fn rows_and_columns() {
    assert_eq!(split_chat_id(ChatIdentifier::Id(5)), (Some(5), None));
    assert_eq!(
        split_chat_id(ChatIdentifier::ChannelUsername("@x".to_string())),
        (None, Some("@x".to_string()))
    );
    let row = Chat::from_columns(1, Some(5), None).unwrap();
    assert_eq!(row.id(), 1);
    assert_eq!(row.get_chat_id(), ChatIdentifier::Id(5));
    let row = Chat::from_columns(2, None, Some("@x".to_string())).unwrap();
    assert_eq!(row.get_chat_id(), ChatIdentifier::ChannelUsername("@x".to_string()));
    assert!(Chat::from_columns(3, None, None).is_none());
}

#[test]
fn lines_of_items() {
    assert_eq!(display_iterable(&vec![]), "");
    assert_eq!(
        display_iterable(&vec!["V1__init".to_string(), "V2__chats".to_string()]),
        "V1__init\nV2__chats\n"
    );
}
