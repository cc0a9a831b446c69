use vstd::prelude::*;
use vstd::string::StringExecFns;

verus! {

/// One entry of the feed: each part may be missing.
#[derive(Debug)]
pub struct FeedItem {
    pub title: Option<String>,
    pub description: Option<String>,
    pub link: Option<String>,
}

/// The mathematical value of a [`FeedItem`].
pub struct Post {
    pub title: Option<Seq<char>>,
    pub description: Option<Seq<char>>,
    pub link: Option<Seq<char>>,
}

pub open spec fn opt_view(o: Option<String>) -> Option<Seq<char>> {
    match o {
        Some(s) => Some(s@),
        None => None,
    }
}

impl View for FeedItem {
    type V = Post;

    open spec fn view(&self) -> Post {
        Post {
            title: opt_view(self.title),
            description: opt_view(self.description),
            link: opt_view(self.link),
        }
    }
}

fn opt_clone(o: &Option<String>) -> (r: Option<String>)
    ensures
        opt_view(r) == opt_view(*o),
{
    match o {
        Some(s) => Some(s.clone()),
        None => None,
    }
}

fn opt_eq(a: &Option<String>, b: &Option<String>) -> (r: bool)
    ensures
        r == (opt_view(*a) == opt_view(*b)),
{
    match (a, b) {
        (Some(x), Some(y)) => x.eq(y),
        (None, None) => true,
        _ => false,
    }
}

impl Clone for FeedItem {
    fn clone(&self) -> (r: Self)
        ensures
            r@ == self@,
    {
        FeedItem {
            title: opt_clone(&self.title),
            description: opt_clone(&self.description),
            link: opt_clone(&self.link),
        }
    }
}

impl PartialEq for FeedItem {
    /// Structural equality: two fetches of the same post compare equal.
    fn eq(&self, other: &FeedItem) -> (r: bool)
        ensures
            r == (self@ == other@),
    {
        opt_eq(&self.title, &other.title) && opt_eq(&self.description, &other.description)
            && opt_eq(&self.link, &other.link)
    }
}

impl vstd::std_specs::cmp::PartialEqSpecImpl for FeedItem {
    open spec fn obeys_eq_spec() -> bool {
        true
    }

    open spec fn eq_spec(&self, other: &FeedItem) -> bool {
        self@ == other@
    }
}

impl Eq for FeedItem {

}

/// The part's text, or the placeholder when it is missing.
pub open spec fn or_placeholder(part: Option<Seq<char>>, placeholder: Seq<char>) -> Seq<char> {
    match part {
        Some(s) => s,
        None => placeholder,
    }
}

/// The message that announces a post: its title in bold, then its
/// description and its link on lines of their own.
pub open spec fn post_text(p: Post) -> Seq<char> {
    "<b>"@ + or_placeholder(p.title, "No title!"@) + "</b>:\n"@ + or_placeholder(
        p.description,
        "No description!"@,
    ) + "\n"@ + or_placeholder(p.link, "No link!"@)
}

fn push_or(buf: &mut String, part: &Option<String>, placeholder: &str)
    ensures
        final(buf)@ == old(buf)@ + or_placeholder(opt_view(*part), placeholder@),
{
    match part {
        Some(s) => buf.append(s.as_str()),
        None => buf.append(placeholder),
    }
}

/// Formats a post for delivery; a missing part is replaced by a fixed
/// placeholder, never an error.
pub fn format_post(post: &FeedItem) -> (r: String)
    ensures
        r@ == post_text(post@),
{
    let mut buf = String::from_str("<b>");
    push_or(&mut buf, &post.title, "No title!");
    buf.append("</b>:\n");
    push_or(&mut buf, &post.description, "No description!");
    buf.append("\n");
    push_or(&mut buf, &post.link, "No link!");
    buf
}

/// What one observation does to the held item: the new item is always
/// held afterwards, and it is news only when an item was held and differs.
pub open spec fn observe_step(held: Option<Post>, candidate: Post) -> (Option<Post>, bool) {
    (Some(candidate), held matches Some(h) && h != candidate)
}

/// Remembers the last item seen in the feed, to tell whether a freshly
/// fetched item is a new post.
pub struct ChangeDetector {
    last: Option<FeedItem>,
}

impl View for ChangeDetector {
    type V = Option<Post>;

    closed spec fn view(&self) -> Option<Post> {
        match self.last {
            Some(item) => Some(item@),
            None => None,
        }
    }
}

impl ChangeDetector {
    /// A detector that has seen nothing yet.
    pub fn new() -> (r: ChangeDetector)
        ensures
            r@ is None,
    {
        ChangeDetector { last: None }
    }

    /// Records `candidate` as the latest item and tells whether it is news:
    /// an item was held before and it differs from `candidate`. The item is
    /// replaced in every case, so a repeat is never news.
    pub fn observe(&mut self, candidate: FeedItem) -> (novel: bool)
        ensures
            (final(self)@, novel) == observe_step(old(self)@, candidate@),
    {
        let novel = match &self.last {
            Some(held) => !held.eq(&candidate),
            None => false,
        };
        self.last = Some(candidate);
        novel
    }

    /// A copy of the item held now, if any.
    pub fn latest(&self) -> (r: Option<FeedItem>)
        ensures
            match r {
                Some(item) => self@ == Some(item@),
                None => self@ is None,
            },
    {
        match &self.last {
            Some(item) => Some(item.clone()),
            None => None,
        }
    }
}

/// The first observation of a fresh detector is never news.
pub proof fn lemma_first_observation_not_novel(candidate: Post)
    ensures
        observe_step(None, candidate).1 == false,
{
}

/// After `observe(a)`, observing `b` is news exactly when `b != a`, and
/// observing `b` once more is not news.
pub proof fn lemma_novel_exactly_on_change(held: Option<Post>, a: Post, b: Post)
    ensures
        observe_step(observe_step(held, a).0, a).1 == false,
        observe_step(observe_step(held, a).0, b).1 == (a != b),
        observe_step(observe_step(observe_step(held, a).0, b).0, b).1 == false,
{
}

} // verus!
