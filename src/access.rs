use vstd::prelude::*;
use vstd::string::StringExecFns;

use crate::chat_id::{ChatIdentifier, ChatRef};
use crate::key::key_of;

verus! {

/// The words of a text, split at Unicode whitespace, as `str::split_whitespace`
/// yields them.
pub uninterp spec fn whitespace_words(s: Seq<char>) -> Seq<Seq<char>>;

/// Relies on `str::split_whitespace`: the words of `s` in order; an empty
/// text has none.
#[verifier::external_body]
fn split_words(s: &str) -> (r: Vec<String>)
    ensures
        r@.map_values(|w: String| w@) == whitespace_words(s@),
        s@.len() == 0 ==> r@.len() == 0,
{
    s.split_whitespace().map(|w| w.to_owned()).collect()
}

/// The usernames that may act on behalf of a named chat. Loaded once and
/// never changed afterwards.
pub struct AdminList {
    names: Vec<String>,
}

impl View for AdminList {
    type V = Seq<Seq<char>>;

    closed spec fn view(&self) -> Seq<Seq<char>> {
        self.names@.map_values(|w: String| w@)
    }
}

impl AdminList {
    /// The list written in `text`: usernames separated by whitespace.
    pub fn from_text(text: &str) -> (r: AdminList)
        ensures
            r@ == whitespace_words(text@),
    {
        AdminList { names: split_words(text) }
    }

    /// Whether `username` is on the list.
    pub fn is_admin(&self, username: &str) -> (r: bool)
        ensures
            r == self@.contains(username@),
    {
        let wanted = username.to_owned();
        let mut i: usize = 0;
        while i < self.names.len()
            invariant
                i <= self.names@.len(),
                wanted@ == username@,
                self@.len() == self.names@.len(),
                forall|j: int| 0 <= j < i ==> self@[j] != username@,
            decreases self.names@.len() - i,
        {
            assert(self@[i as int] == self.names@[i as int]@);
            if self.names[i].eq(&wanted) {
                assert(self@[i as int] == username@);
                return true;
            }
            i = i + 1;
        }
        false
    }
}

/// The author of a command, as far as the messaging service tells.
pub struct Sender {
    pub username: Option<String>,
}

/// Why a command that names a chat was refused.
#[derive(Debug, PartialEq, Eq, Clone, Copy)]
pub enum AuthError {
    /// The command came from no user.
    NoSender,
    /// The user has no username to look up.
    NoUsername,
    /// The user's name is not on the administrator list.
    NotAdmin,
}

/// What the permission check decides for a sender.
pub open spec fn perm_of(admins: Seq<Seq<char>>, sender: Option<Option<Seq<char>>>) -> Result<
    (),
    AuthError,
> {
    match sender {
        None => Err(AuthError::NoSender),
        Some(None) => Err(AuthError::NoUsername),
        Some(Some(name)) => if admins.contains(name) {
            Ok(())
        } else {
            Err(AuthError::NotAdmin)
        },
    }
}

pub open spec fn sender_view(sender: Option<Sender>) -> Option<Option<Seq<char>>> {
    match sender {
        None => None,
        Some(s) => match s.username {
            None => Some(None),
            Some(n) => Some(Some(n@)),
        },
    }
}

/// Checks that the sender is an administrator.
pub fn check_perm(admins: &AdminList, sender: &Option<Sender>) -> (r: Result<(), AuthError>)
    ensures
        r == perm_of(admins@, sender_view(*sender)),
{
    match sender {
        None => Err(AuthError::NoSender),
        Some(s) => match &s.username {
            None => Err(AuthError::NoUsername),
            Some(name) => if admins.is_admin(name.as_str()) {
                Ok(())
            } else {
                Err(AuthError::NotAdmin)
            },
        },
    }
}

/// A command that reads or changes the subscriptions.
#[derive(Debug, PartialEq, Eq, Clone, Copy)]
pub enum Subscription {
    /// `/start`: subscribe.
    Start,
    /// `/stop`: unsubscribe.
    Stop,
    /// `/check`: ask whether subscribed.
    Check,
}

/// What the store is asked to do for a command.
#[derive(Debug)]
pub enum StoreRequest {
    Add(ChatIdentifier),
    Remove(ChatIdentifier),
    Query(ChatIdentifier),
}

/// The mathematical value of a [`StoreRequest`].
pub enum Request {
    Add(ChatRef),
    Remove(ChatRef),
    Query(ChatRef),
}

impl View for StoreRequest {
    type V = Request;

    open spec fn view(&self) -> Request {
        match self {
            StoreRequest::Add(c) => Request::Add(c@),
            StoreRequest::Remove(c) => Request::Remove(c@),
            StoreRequest::Query(c) => Request::Query(c@),
        }
    }
}

/// The request that a command makes for a chat.
pub open spec fn request_for(cmd: Subscription, target: ChatRef) -> Request {
    match cmd {
        Subscription::Start => Request::Add(target),
        Subscription::Stop => Request::Remove(target),
        Subscription::Check => Request::Query(target),
    }
}

/// What a command decides: it acts on the caller's own chat with no check,
/// and on a named chat only for an administrator; the flag tells whether a
/// chat was named.
pub open spec fn plan_of(
    cmd: Subscription,
    target: Option<ChatRef>,
    own: ChatRef,
    sender: Option<Option<Seq<char>>>,
    admins: Seq<Seq<char>>,
) -> Result<(Request, bool), AuthError> {
    match target {
        None => Ok((request_for(cmd, own), false)),
        Some(t) => match perm_of(admins, sender) {
            Ok(()) => Ok((request_for(cmd, t), true)),
            Err(e) => Err(e),
        },
    }
}

fn request(cmd: Subscription, target: ChatIdentifier) -> (r: StoreRequest)
    ensures
        r@ == request_for(cmd, target@),
{
    match cmd {
        Subscription::Start => StoreRequest::Add(target),
        Subscription::Stop => StoreRequest::Remove(target),
        Subscription::Check => StoreRequest::Query(target),
    }
}

/// Decides what a subscription command does: the store request to make and
/// whether a chat other than the caller's was named, or the reason it was
/// refused. A refused command makes no request.
pub fn plan_command(
    cmd: Subscription,
    target: Option<ChatIdentifier>,
    own_chat: &ChatIdentifier,
    sender: &Option<Sender>,
    admins: &AdminList,
) -> (r: Result<(StoreRequest, bool), AuthError>)
    ensures
        match r {
            Ok((req, named)) => plan_of(
                cmd,
                match target {
                    Some(t) => Some(t@),
                    None => None,
                },
                own_chat@,
                sender_view(*sender),
                admins@,
            ) == Ok::<(Request, bool), AuthError>((req@, named)),
            Err(e) => plan_of(
                cmd,
                match target {
                    Some(t) => Some(t@),
                    None => None,
                },
                own_chat@,
                sender_view(*sender),
                admins@,
            ) == Err::<(Request, bool), AuthError>(e),
        },
{
    match target {
        None => Ok((request(cmd, own_chat.clone()), false)),
        Some(t) => match check_perm(admins, sender) {
            Ok(()) => Ok((request(cmd, t), true)),
            Err(e) => Err(e),
        },
    }
}

/// The stored keys after a request: an add puts the chat's key, a remove
/// deletes it, and a query changes nothing.
pub open spec fn apply_request(keys: Set<Seq<u8>>, req: Request) -> Set<Seq<u8>> {
    match req {
        Request::Add(c) => keys.insert(key_of(c)),
        Request::Remove(c) => keys.remove(key_of(c)),
        Request::Query(_) => keys,
    }
}

/// The store after a planned command: unchanged when it was refused.
pub open spec fn store_after(
    keys: Set<Seq<u8>>,
    plan: Result<(Request, bool), AuthError>,
) -> Set<Seq<u8>> {
    match plan {
        Ok((req, _)) => apply_request(keys, req),
        Err(_) => keys,
    }
}

/// The authorization gate: `/start` naming a chat, sent by a user who is not
/// an administrator, is refused and leaves the store as it was; sent by an
/// administrator it makes the named chat a subscriber.
pub proof fn lemma_authorization_gate(
    keys: Set<Seq<u8>>,
    target: ChatRef,
    own: ChatRef,
    sender: Option<Option<Seq<char>>>,
    admins: Seq<Seq<char>>,
)
    ensures
        ({
            let plan = plan_of(Subscription::Start, Some(target), own, sender, admins);
            &&& perm_of(admins, sender) is Err ==> plan is Err && store_after(keys, plan) == keys
            &&& perm_of(admins, sender) is Ok ==> store_after(keys, plan).contains(key_of(target))
        }),
{
}

/// The answer to `/check`: who is meant (the caller, or the named chat
/// given by its text) and whether that chat is subscribed.
pub open spec fn check_text(subject: Option<Seq<char>>, subscribed: bool) -> Seq<char> {
    let who = match subject {
        Some(name) => name + " is"@,
        None => "You're"@,
    };
    if subscribed {
        who + " currently subscribed to the blog. Enter /stop to unsubscribe."@
    } else {
        who + " currently not subscribed to the blog. Enter /start to subscribe."@
    }
}

/// Words the answer to `/check`.
pub fn check_reply(subject: Option<&str>, subscribed: bool) -> (r: String)
    ensures
        r@ == check_text(
            match subject {
                Some(s) => Some(s@),
                None => None,
            },
            subscribed,
        ),
{
    let mut buf = match subject {
        Some(name) => {
            let mut b = String::from_str(name);
            b.append(" is");
            b
        },
        None => String::from_str("You're"),
    };
    if subscribed {
        buf.append(" currently subscribed to the blog. Enter /stop to unsubscribe.");
    } else {
        buf.append(" currently not subscribed to the blog. Enter /start to subscribe.");
    }
    buf
}

} // verus!
