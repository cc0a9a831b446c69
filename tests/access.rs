use ifi_blog::access::{
    check_perm, check_reply, plan_command, AdminList, AuthError, Sender, StoreRequest,
    Subscription,
};
use ifi_blog::chat_id::ChatIdentifier;

fn sender(name: &str) -> Option<Sender> {
    Some(Sender { username: Some(name.to_string()) })
}

#[test]
fn admin_list_from_text() {
    let admins = AdminList::from_text("alice bob\n\tcarol\n");
    assert!(admins.is_admin("alice"));
    assert!(admins.is_admin("carol"));
    assert!(!admins.is_admin("dave"));
    assert!(!admins.is_admin("ali"));
    assert!(!AdminList::from_text("").is_admin(""));
}

#[test]
fn permission_errors() {
    let admins = AdminList::from_text("alice");
    assert_eq!(check_perm(&admins, &None), Err(AuthError::NoSender));
    assert_eq!(
        check_perm(&admins, &Some(Sender { username: None })),
        Err(AuthError::NoUsername)
    );
    assert_eq!(check_perm(&admins, &sender("mallory")), Err(AuthError::NotAdmin));
    assert_eq!(check_perm(&admins, &sender("alice")), Ok(()));
}

#[test]
fn own_chat_needs_no_permission() {
    let admins = AdminList::from_text("alice");
    let own = ChatIdentifier::Id(42);
    let plan = plan_command(Subscription::Start, None, &own, &None, &admins);
    assert!(matches!(plan, Ok((StoreRequest::Add(ChatIdentifier::Id(42)), false))));
    let plan = plan_command(Subscription::Stop, None, &own, &None, &admins);
    assert!(matches!(plan, Ok((StoreRequest::Remove(ChatIdentifier::Id(42)), false))));
    let plan = plan_command(Subscription::Check, None, &own, &None, &admins);
    assert!(matches!(plan, Ok((StoreRequest::Query(ChatIdentifier::Id(42)), false))));
}

#[test]
fn named_chat_needs_an_admin() {
    let admins = AdminList::from_text("alice");
    let own = ChatIdentifier::Id(42);
    let chan = ChatIdentifier::ChannelUsername("@somechannel".to_string());
    let plan = plan_command(Subscription::Start, Some(chan.clone()), &own, &sender("mallory"), &admins);
    assert!(matches!(plan, Err(AuthError::NotAdmin)));
    let plan = plan_command(Subscription::Start, Some(chan.clone()), &own, &sender("alice"), &admins);
    match plan {
        Ok((StoreRequest::Add(c), true)) => assert_eq!(c, chan),
        _ => panic!("an admin's /start should add the named chat"),
    }
}

#[test]
fn check_replies() {
    assert_eq!(
        check_reply(None, true),
        "You're currently subscribed to the blog. Enter /stop to unsubscribe."
    );
    assert_eq!(
        check_reply(Some("@chan"), false),
        "@chan is currently not subscribed to the blog. Enter /start to subscribe."
    );
}
