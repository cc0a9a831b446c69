use std::collections::BTreeSet;

use ifi_blog::access::{plan_command, AdminList, StoreRequest, Subscription};
use ifi_blog::broadcast::{BroadcastLoop, CycleAction, CycleEvent};
use ifi_blog::chat_id::ChatIdentifier;
use ifi_blog::key::encode;
use ifi_blog::latch::FeedItem;
use ifi_blog::store::{decode_members, membership};

/// The stored keys, standing in for the storage engine.
struct Keys(BTreeSet<Vec<u8>>);

impl Keys {
    fn apply(&mut self, req: &StoreRequest) -> Option<bool> {
        match req {
            StoreRequest::Add(c) => {
                self.0.insert(encode(c));
                None
            }
            StoreRequest::Remove(c) => {
                self.0.remove(&encode(c));
                None
            }
            StoreRequest::Query(c) => Some(membership(Ok(self.0.contains(&encode(c))))),
        }
    }

    fn contains(&self, c: &ChatIdentifier) -> bool {
        membership(Ok(self.0.contains(&encode(c))))
    }

    fn list(&self) -> Vec<ChatIdentifier> {
        let keys: Vec<Vec<u8>> = self.0.iter().cloned().collect();
        decode_members(&keys).unwrap()
    }
}

fn post(title: &str) -> FeedItem {
    FeedItem { title: Some(title.to_string()), description: None, link: None }
}

fn cycle(b: &mut BroadcastLoop, keys: &Keys, item: FeedItem) -> Vec<ChatIdentifier> {
    let mut delivered = Vec::new();
    let mut item = Some(item);
    let mut action = b.start_cycle();
    loop {
        action = match action {
            CycleAction::Fetch => b.on_event(CycleEvent::Fetched(item.take().unwrap())),
            CycleAction::ListSubscribers => b.on_event(CycleEvent::Listed(keys.list())),
            CycleAction::Deliver(chat, _) => {
                delivered.push(chat);
                b.on_event(CycleEvent::Delivered)
            }
            CycleAction::Sleep => return delivered,
        };
    }
}

#[test]
fn start_broadcast_stop() {
    let admins = AdminList::from_text("");
    let chat = ChatIdentifier::Id(42);
    let mut keys = Keys(BTreeSet::new());
    let mut b = BroadcastLoop::new();
    cycle(&mut b, &keys, post("old"));

    let (req, _) = plan_command(Subscription::Start, None, &chat, &None, &admins).unwrap();
    keys.apply(&req);
    assert!(keys.contains(&chat));

    assert_eq!(cycle(&mut b, &keys, post("new")), vec![chat.clone()]);

    let (req, _) = plan_command(Subscription::Stop, None, &chat, &None, &admins).unwrap();
    keys.apply(&req);
    assert!(!keys.contains(&chat));

    assert!(cycle(&mut b, &keys, post("new")).is_empty());
}

#[test]
fn adding_twice_keeps_one_entry() {
    let chat = ChatIdentifier::ChannelUsername("@somechannel".to_string());
    let mut keys = Keys(BTreeSet::new());
    keys.apply(&StoreRequest::Add(chat.clone()));
    assert!(keys.contains(&chat));
    keys.apply(&StoreRequest::Add(chat.clone()));
    assert!(keys.contains(&chat));
    assert_eq!(keys.list(), vec![chat]);
}

#[test]
fn removing_from_an_empty_store_changes_nothing() {
    let mut keys = Keys(BTreeSet::new());
    keys.apply(&StoreRequest::Remove(ChatIdentifier::Id(42)));
    assert!(keys.0.is_empty());
    assert_eq!(keys.apply(&StoreRequest::Query(ChatIdentifier::Id(42))), Some(false));
}

#[test]
fn non_admin_cannot_subscribe_a_channel() {
    let admins = AdminList::from_text("alice");
    let own = ChatIdentifier::Id(7);
    let chan = ChatIdentifier::ChannelUsername("@somechannel".to_string());
    let mut keys = Keys(BTreeSet::new());
    let mallory = Some(ifi_blog::access::Sender { username: Some("mallory".to_string()) });
    if let Ok((req, _)) = plan_command(Subscription::Start, Some(chan.clone()), &own, &mallory, &admins) {
        keys.apply(&req);
    }
    assert!(keys.0.is_empty());
    let alice = Some(ifi_blog::access::Sender { username: Some("alice".to_string()) });
    let (req, named) =
        plan_command(Subscription::Start, Some(chan.clone()), &own, &alice, &admins).unwrap();
    assert!(named);
    keys.apply(&req);
    assert!(keys.contains(&chan));
    assert!(!keys.contains(&own));
}
