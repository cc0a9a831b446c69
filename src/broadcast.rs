use vstd::prelude::*;

use crate::chat_id::{ChatIdentifier, ChatRef};
use crate::latch::{format_post, observe_step, post_text, ChangeDetector, FeedItem, Post};

verus! {

/// What the caller is asked to do next in a broadcast cycle.
#[derive(Debug)]
pub enum CycleAction {
    /// Fetch the latest feed item.
    Fetch,
    /// Read the current list of subscribers.
    ListSubscribers,
    /// Send the text to the chat.
    Deliver(ChatIdentifier, String),
    /// The cycle is over: wait for the next period.
    Sleep,
}

/// What came of the last action.
pub enum CycleEvent {
    Fetched(FeedItem),
    FetchFailed,
    Listed(Vec<ChatIdentifier>),
    ListFailed,
    Delivered,
    DeliveryFailed,
}

/// The mathematical value of a [`CycleAction`].
pub enum Step {
    Fetch,
    List,
    Deliver(ChatRef, Seq<char>),
    Sleep,
}

/// The mathematical value of a [`CycleEvent`].
pub enum Outcome {
    Fetched(Post),
    FetchFailed,
    Listed(Seq<ChatRef>),
    ListFailed,
    Delivered,
    DeliveryFailed,
}

/// Where a cycle stands.
pub enum Phase {
    Idle,
    Fetching,
    Listing(Seq<char>),
    /// Sending the text to each recipient in turn; the index is the one
    /// being sent to now.
    Delivering(Seq<char>, Seq<ChatRef>, nat),
}

/// The mathematical value of a [`BroadcastLoop`]: the latch and the phase.
pub struct LoopState {
    pub latch: Option<Post>,
    pub phase: Phase,
}

pub open spec fn ids_view(v: Seq<ChatIdentifier>) -> Seq<ChatRef> {
    v.map_values(|c: ChatIdentifier| c@)
}

impl View for CycleAction {
    type V = Step;

    open spec fn view(&self) -> Step {
        match self {
            CycleAction::Fetch => Step::Fetch,
            CycleAction::ListSubscribers => Step::List,
            CycleAction::Deliver(c, t) => Step::Deliver(c@, t@),
            CycleAction::Sleep => Step::Sleep,
        }
    }
}

impl View for CycleEvent {
    type V = Outcome;

    open spec fn view(&self) -> Outcome {
        match self {
            CycleEvent::Fetched(item) => Outcome::Fetched(item@),
            CycleEvent::FetchFailed => Outcome::FetchFailed,
            CycleEvent::Listed(v) => Outcome::Listed(ids_view(v@)),
            CycleEvent::ListFailed => Outcome::ListFailed,
            CycleEvent::Delivered => Outcome::Delivered,
            CycleEvent::DeliveryFailed => Outcome::DeliveryFailed,
        }
    }
}

pub open spec fn idle(latch: Option<Post>) -> LoopState {
    LoopState { latch, phase: Phase::Idle }
}

/// A new cycle starts by fetching; the latch is kept.
pub open spec fn start_step(s: LoopState) -> (LoopState, Step) {
    (LoopState { latch: s.latch, phase: Phase::Fetching }, Step::Fetch)
}

/// One decision of the cycle. A failed fetch or listing ends the cycle with
/// the latch as it was after the fetch; a fetched item goes through the
/// latch, and only news is formatted and listed for; each delivery, failed
/// or not, moves on to the next recipient; an event that does not answer
/// the pending action ends the cycle.
pub open spec fn event_step(s: LoopState, e: Outcome) -> (LoopState, Step) {
    match (s.phase, e) {
        (Phase::Fetching, Outcome::Fetched(p)) => {
            let (latch, novel) = observe_step(s.latch, p);
            if novel {
                (LoopState { latch, phase: Phase::Listing(post_text(p)) }, Step::List)
            } else {
                (idle(latch), Step::Sleep)
            }
        },
        (Phase::Listing(t), Outcome::Listed(r)) => {
            if r.len() == 0 {
                (idle(s.latch), Step::Sleep)
            } else {
                (
                    LoopState { latch: s.latch, phase: Phase::Delivering(t, r, 0) },
                    Step::Deliver(r[0], t),
                )
            }
        },
        (Phase::Delivering(t, r, i), Outcome::Delivered)
        | (Phase::Delivering(t, r, i), Outcome::DeliveryFailed) => {
            if i + 1 < r.len() {
                (
                    LoopState { latch: s.latch, phase: Phase::Delivering(t, r, i + 1) },
                    Step::Deliver(r[i + 1 as int], t),
                )
            } else {
                (idle(s.latch), Step::Sleep)
            }
        },
        _ => (idle(s.latch), Step::Sleep),
    }
}

enum CyclePhase {
    Idle,
    Fetching,
    Listing(String),
    Delivering(String, Vec<ChatIdentifier>, usize),
}

/// The recurring broadcast task's decisions: it fetches the feed, checks the
/// fetched item against the latch, and on news fans the formatted post out
/// to every subscriber, one delivery at a time. The caller performs each
/// action and reports back what came of it.
pub struct BroadcastLoop {
    detector: ChangeDetector,
    phase: CyclePhase,
}

impl View for BroadcastLoop {
    type V = LoopState;

    closed spec fn view(&self) -> LoopState {
        LoopState {
            latch: self.detector@,
            phase: match self.phase {
                CyclePhase::Idle => Phase::Idle,
                CyclePhase::Fetching => Phase::Fetching,
                CyclePhase::Listing(t) => Phase::Listing(t@),
                CyclePhase::Delivering(t, r, i) => Phase::Delivering(t@, ids_view(r@), i as nat),
            },
        }
    }
}

impl BroadcastLoop {
    /// Whether the index of a delivery lies within its recipients.
    pub closed spec fn wf(&self) -> bool {
        self.phase matches CyclePhase::Delivering(_, r, i) ==> i < r@.len()
    }

    /// A loop that has seen no item yet and is between cycles.
    pub fn new() -> (r: BroadcastLoop)
        ensures
            r.wf(),
            r@ == idle(None),
    {
        BroadcastLoop { detector: ChangeDetector::new(), phase: CyclePhase::Idle }
    }

    /// Starts a cycle: the caller is asked to fetch.
    pub fn start_cycle(&mut self) -> (action: CycleAction)
        ensures
            final(self).wf(),
            (final(self)@, action@) == start_step(old(self)@),
    {
        self.phase = CyclePhase::Fetching;
        CycleAction::Fetch
    }

    /// Takes what came of the last action and gives the next one.
    pub fn on_event(&mut self, event: CycleEvent) -> (action: CycleAction)
        requires
            old(self).wf(),
        ensures
            final(self).wf(),
            (final(self)@, action@) == event_step(old(self)@, event@),
    {
        let mut phase = CyclePhase::Idle;
        std::mem::swap(&mut self.phase, &mut phase);
        match (phase, event) {
            (CyclePhase::Fetching, CycleEvent::Fetched(item)) => {
                let text = format_post(&item);
                let novel = self.detector.observe(item);
                if novel {
                    self.phase = CyclePhase::Listing(text);
                    CycleAction::ListSubscribers
                } else {
                    CycleAction::Sleep
                }
            },
            (CyclePhase::Listing(text), CycleEvent::Listed(recipients)) => {
                if recipients.len() == 0 {
                    CycleAction::Sleep
                } else {
                    let first = recipients[0].clone();
                    let t = text.clone();
                    self.phase = CyclePhase::Delivering(text, recipients, 0);
                    CycleAction::Deliver(first, t)
                }
            },
            (CyclePhase::Delivering(text, recipients, i), CycleEvent::Delivered)
            | (CyclePhase::Delivering(text, recipients, i), CycleEvent::DeliveryFailed) => {
                let n = recipients.len();
                if i + 1 < n {
                    let next = recipients[i + 1].clone();
                    let t = text.clone();
                    self.phase = CyclePhase::Delivering(text, recipients, i + 1);
                    CycleAction::Deliver(next, t)
                } else {
                    CycleAction::Sleep
                }
            },
            _ => CycleAction::Sleep,
        }
    }

    /// A copy of the item the latch holds, if any.
    pub fn latest(&self) -> (r: Option<FeedItem>)
        ensures
            match r {
                Some(item) => self@.latch == Some(item@),
                None => self@.latch is None,
            },
    {
        self.detector.latest()
    }
}

/// The outcome that a delivery reports.
pub open spec fn delivery_outcome(ok: bool) -> Outcome {
    if ok {
        Outcome::Delivered
    } else {
        Outcome::DeliveryFailed
    }
}

/// Feeds the delivery outcomes to the cycle one by one and collects the
/// actions it asks for.
pub open spec fn run_deliveries(s: LoopState, oks: Seq<bool>) -> (LoopState, Seq<Step>)
    decreases oks.len(),
{
    if oks.len() == 0 {
        (s, Seq::empty())
    } else {
        let (s1, a) = event_step(s, delivery_outcome(oks[0]));
        let (s2, rest) = run_deliveries(s1, oks.drop_first());
        (s2, seq![a] + rest)
    }
}

pub open spec fn deliveries_to(r: Seq<ChatRef>, t: Seq<char>) -> Seq<Step> {
    r.map_values(|c: ChatRef| Step::Deliver(c, t))
}

proof fn lemma_deliveries_from(
    latch: Option<Post>,
    t: Seq<char>,
    r: Seq<ChatRef>,
    i: nat,
    oks: Seq<bool>,
)
    requires
        i < r.len(),
        oks.len() == r.len() - i,
    ensures
        run_deliveries(LoopState { latch, phase: Phase::Delivering(t, r, i) }, oks) == (
            idle(latch),
            deliveries_to(r.subrange(i + 1 as int, r.len() as int), t) + seq![Step::Sleep],
        ),
    decreases r.len() - i,
{
    let s = LoopState { latch, phase: Phase::Delivering(t, r, i) };
    let rest = oks.drop_first();
    let (s1, a) = event_step(s, delivery_outcome(oks[0]));
    assert(run_deliveries(s, oks) == (
        run_deliveries(s1, rest).0,
        seq![a] + run_deliveries(s1, rest).1,
    ));
    if i + 1 < r.len() {
        assert(s1 == LoopState { latch, phase: Phase::Delivering(t, r, i + 1) });
        assert(a == Step::Deliver(r[i + 1 as int], t));
        lemma_deliveries_from(latch, t, r, i + 1, rest);
        assert(deliveries_to(r.subrange(i + 1 as int, r.len() as int), t) =~= seq![
            Step::Deliver(r[i + 1 as int], t),
        ] + deliveries_to(r.subrange(i + 2 as int, r.len() as int), t));
    } else {
        assert(s1 == idle(latch));
        assert(a == Step::Sleep);
        assert(rest.len() == 0);
        assert(deliveries_to(r.subrange(i + 1 as int, r.len() as int), t) =~= Seq::empty());
    }
    assert(run_deliveries(s, oks).1 =~= deliveries_to(r.subrange(i + 1 as int, r.len() as int), t)
        + seq![Step::Sleep]);
}

/// Fan-out isolation: once the subscribers are listed, each of them is sent
/// the post in turn, whichever deliveries fail, and then the cycle ends
/// with the latch as it was.
pub proof fn lemma_fan_out_isolation(
    latch: Option<Post>,
    t: Seq<char>,
    r: Seq<ChatRef>,
    oks: Seq<bool>,
)
    requires
        oks.len() == r.len(),
    ensures
        ({
            let (s1, first) = event_step(
                LoopState { latch, phase: Phase::Listing(t) },
                Outcome::Listed(r),
            );
            let (s2, rest) = run_deliveries(s1, oks);
            &&& seq![first] + rest == deliveries_to(r, t) + seq![Step::Sleep]
            &&& s2 == idle(latch)
        }),
{
    if r.len() > 0 {
        lemma_deliveries_from(latch, t, r, 0, oks);
        assert(deliveries_to(r, t) =~= seq![Step::Deliver(r[0], t)] + deliveries_to(
            r.subrange(1, r.len() as int),
            t,
        ));
    } else {
        assert(deliveries_to(r, t) =~= Seq::empty());
        let (s1, first) = event_step(
            LoopState { latch, phase: Phase::Listing(t) },
            Outcome::Listed(r),
        );
        assert(run_deliveries(s1, oks).1 =~= Seq::<Step>::empty());
        assert(seq![first] + run_deliveries(s1, oks).1 =~= seq![Step::Sleep]);
    }
}

/// A cycle that fetches the item the latch already holds ends at once:
/// nobody is listed or sent anything.
pub proof fn lemma_repeat_sends_nothing(p: Post)
    ensures
        event_step(LoopState { latch: Some(p), phase: Phase::Fetching }, Outcome::Fetched(p)) == (
            idle(Some(p)),
            Step::Sleep,
        ),
{
}

/// The first cycle after start only fills the latch: nobody is sent
/// anything.
pub proof fn lemma_first_cycle_sends_nothing(p: Post)
    ensures
        event_step(LoopState { latch: None, phase: Phase::Fetching }, Outcome::Fetched(p)) == (
            idle(Some(p)),
            Step::Sleep,
        ),
{
}

} // verus!
