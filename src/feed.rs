use vstd::prelude::*;

use crate::latch::{FeedItem, Post};

verus! {

/// The items of the RSS document in `body`, in document order, as the `rss`
/// crate reads them; nothing where the document is not a feed.
pub uninterp spec fn feed_items(body: Seq<u8>) -> Option<Seq<Post>>;

/// Relies on `rss::Channel::read_from` and `Channel::items`: the parsed
/// channel's items with their title, description and link, or nothing when
/// parsing fails.
#[verifier::external_body]
fn read_items(body: &[u8]) -> (r: Option<Vec<FeedItem>>)
    ensures
        match r {
            Some(v) => feed_items(body@) == Some(v@.map_values(|i: FeedItem| i@)),
            None => feed_items(body@) is None,
        },
{
    rss::Channel::read_from(body).ok().map(|c| c.items().iter().map(|i| FeedItem {
        title: i.title().map(str::to_owned),
        description: i.description().map(str::to_owned),
        link: i.link().map(str::to_owned),
    }).collect())
}

/// Why the latest post could not be had from a fetched feed.
#[derive(Debug, PartialEq, Eq, Clone, Copy)]
pub enum FetchError {
    /// The body is not an RSS document.
    Malformed,
    /// The feed holds no post.
    NoPosts,
}

/// The first (most recent) post of a fetched feed.
pub fn latest_post(body: &[u8]) -> (r: Result<FeedItem, FetchError>)
    ensures
        match feed_items(body@) {
            None => r == Err::<FeedItem, FetchError>(FetchError::Malformed),
            Some(items) => if items.len() == 0 {
                r == Err::<FeedItem, FetchError>(FetchError::NoPosts)
            } else {
                r matches Ok(item) && item@ == items[0]
            },
        },
{
    match read_items(body) {
        None => Err(FetchError::Malformed),
        Some(mut items) => {
            if items.len() == 0 {
                Err(FetchError::NoPosts)
            } else {
                let ghost all = items@;
                let first = items.swap_remove(0);
                assert(first == all[0]);
                Ok(first)
            }
        },
    }
}

} // verus!
