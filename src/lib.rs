//! The verified core of a bot that relays a blog's RSS feed to Telegram
//! chats: chat identifiers and their storage keys, the subscriber store's
//! rules, the admin gate for commands that name a chat, the latch that
//! tells a new post from a repeat, and the broadcast cycle that fans a new
//! post out to every subscriber.

pub mod access;
pub mod broadcast;
pub mod chat_id;
pub mod feed;
pub mod key;
pub mod latch;
pub mod store;
pub mod util;
