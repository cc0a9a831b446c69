use vstd::prelude::*;

use crate::chat_id::{ChatIdentifier, ChatRef};
use crate::key::{decode, id_of_key, key_of, lemma_key_canonical, lemma_key_round_trip, representable};

verus! {

/// A failure of the subscriber store.
#[derive(Debug, PartialEq, Eq, Clone, Copy)]
pub enum StoreError {
    /// The storage engine reported an I/O failure.
    Io,
    /// A stored key decodes to no chat identifier.
    CorruptKey,
}

/// Whether a lookup of a chat's key means that the chat is subscribed. A
/// failed lookup counts as "not subscribed": a rare false negative is
/// preferred to an error on this path.
pub fn membership(lookup: Result<bool, StoreError>) -> (r: bool)
    ensures
        r == (lookup == Ok::<bool, StoreError>(true)),
{
    match lookup {
        Ok(found) => found,
        Err(_) => false,
    }
}

/// The subscribers that a scan of the stored keys stands for, in the
/// scan's order, or the failure if some key is not a chat's key.
pub fn decode_members(keys: &Vec<Vec<u8>>) -> (r: Result<Vec<ChatIdentifier>, StoreError>)
    ensures
        match r {
            Ok(ids) => ids@.len() == keys@.len() && forall|i: int|
                0 <= i < keys@.len() ==> id_of_key(#[trigger] keys@[i]@) == Some(ids@[i]@),
            Err(e) => e == StoreError::CorruptKey && exists|i: int|
                0 <= i < keys@.len() && id_of_key(#[trigger] keys@[i]@) is None,
        },
{
    let mut ids: Vec<ChatIdentifier> = Vec::new();
    let mut i: usize = 0;
    while i < keys.len()
        invariant
            i <= keys@.len(),
            ids@.len() == i,
            forall|j: int| 0 <= j < i ==> id_of_key(#[trigger] keys@[j]@) == Some(ids@[j]@),
        decreases keys@.len() - i,
    {
        match decode(keys[i].as_slice()) {
            Some(id) => ids.push(id),
            None => {
                return Err(StoreError::CorruptKey);
            },
        }
        i = i + 1;
    }
    Ok(ids)
}

/// Whether `x` is a subscriber of a store that holds `keys`.
pub open spec fn is_member(keys: Set<Seq<u8>>, x: ChatRef) -> bool {
    keys.contains(key_of(x))
}

/// The keys that stand for `x` in a store that holds `keys`.
pub open spec fn entries_for(keys: Set<Seq<u8>>, x: ChatRef) -> Set<Seq<u8>> {
    keys.filter(|k: Seq<u8>| id_of_key(k) == Some(x))
}

/// Adding is idempotent: adding `x` twice leaves the same store as adding it
/// once, with exactly one entry for `x`, and `x` is a member after either.
pub proof fn lemma_add_idempotent(keys: Set<Seq<u8>>, x: ChatRef)
    requires
        representable(x),
    ensures
        keys.insert(key_of(x)).insert(key_of(x)) == keys.insert(key_of(x)),
        is_member(keys.insert(key_of(x)), x),
        entries_for(keys.insert(key_of(x)), x) == set![key_of(x)],
{
    lemma_key_round_trip(x);
    assert forall|k: Seq<u8>| #[trigger] entries_for(keys.insert(key_of(x)), x).contains(k) implies k
        == key_of(x) by {
        lemma_key_canonical(k);
    }
    assert(keys.insert(key_of(x)).insert(key_of(x)) =~= keys.insert(key_of(x)));
    assert(entries_for(keys.insert(key_of(x)), x) =~= set![key_of(x)]);
}

/// Removing an absent chat is no error and changes nothing: in particular
/// an empty store stays empty.
pub proof fn lemma_remove_absent(keys: Set<Seq<u8>>, x: ChatRef)
    requires
        !is_member(keys, x),
    ensures
        keys.remove(key_of(x)) == keys,
        Set::<Seq<u8>>::empty().remove(key_of(x)) == Set::<Seq<u8>>::empty(),
{
    assert(keys.remove(key_of(x)) =~= keys);
    assert(Set::<Seq<u8>>::empty().remove(key_of(x)) =~= Set::<Seq<u8>>::empty());
}

/// A row of the `chats` table: its row id and exactly the column of the
/// chat's kind filled in.
#[derive(Debug)]
pub struct Chat {
    id: i64,
    chat_id: Option<i64>,
    channel_name: Option<String>,
}

/// The columns that store a chat identifier: the numeric handle, or the
/// channel name.
pub open spec fn columns_of(c: ChatRef) -> (Option<i64>, Option<Seq<char>>) {
    match c {
        ChatRef::Id(n) => (Some(n), None),
        ChatRef::Channel(s) => (None, Some(s)),
    }
}

/// Splits a chat identifier into the two columns that store it.
pub fn split_chat_id(id: ChatIdentifier) -> (r: (Option<i64>, Option<String>))
    ensures
        (r.0, match r.1 {
            Some(s) => Some(s@),
            None => None,
        }) == columns_of(id@),
{
    match id {
        ChatIdentifier::Id(n) => (Some(n), None),
        ChatIdentifier::ChannelUsername(name) => (None, Some(name)),
    }
}

impl Chat {
    /// Whether at least one column names the chat.
    pub closed spec fn wf(&self) -> bool {
        self.chat_id is Some || self.channel_name is Some
    }

    /// The row id.
    pub closed spec fn row_id(&self) -> i64 {
        self.id
    }

    /// The chat this row stands for: the numeric handle where one is
    /// stored, else the channel name.
    pub closed spec fn chat(&self) -> ChatRef
        recommends
            self.wf(),
    {
        match self.chat_id {
            Some(n) => ChatRef::Id(n),
            None => ChatRef::Channel(self.channel_name->0@),
        }
    }

    /// A row read from the table, or `None` where neither column is set.
    pub fn from_columns(id: i64, chat_id: Option<i64>, channel_name: Option<String>) -> (r: Option<Chat>)
        ensures
            r is Some <==> (chat_id is Some || channel_name is Some),
            r matches Some(c) ==> c.wf() && c.row_id() == id && c.chat() == (match chat_id {
                Some(n) => ChatRef::Id(n),
                None => ChatRef::Channel(channel_name->0@),
            }),
    {
        if chat_id.is_none() && channel_name.is_none() {
            None
        } else {
            Some(Chat { id, chat_id, channel_name })
        }
    }

    /// The row id.
    pub fn id(&self) -> (r: i64)
        ensures
            r == self.row_id(),
    {
        self.id
    }

    /// The chat this row stands for.
    pub fn get_chat_id(&self) -> (r: ChatIdentifier)
        requires
            self.wf(),
        ensures
            r@ == self.chat(),
    {
        match self.chat_id {
            Some(n) => ChatIdentifier::Id(n),
            None => ChatIdentifier::ChannelUsername(self.channel_name.as_ref().unwrap().clone()),
        }
    }
}

} // verus!
