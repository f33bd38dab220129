use vstd::prelude::*;
use crate::realtime::{
    join_frame, join_frame_of, lemma_topic_refs_distinct, opt_view, topic_ref, topic_ref_of, ChangeEvent,
    Topic,
};
use crate::text::opt_eq;
use crate::text::str_eq;

verus! {

/// First wait before a reconnect, in milliseconds.
pub const BACKOFF_BASE_MS: u64 = 500;

/// Longest wait before a reconnect, in milliseconds.
pub const BACKOFF_CAP_MS: u64 = 30000;

/// Where a change-stream socket stands.
#[derive(PartialEq, Eq, Structural, Clone, Copy)]
pub enum SocketState {
    Disconnected,
    Connecting,
    Streaming,
}

/// What the owner of the socket must do next.
pub enum Action {
    Nothing,
    /// Open the socket.
    Connect,
    /// Send these frames, in order.
    Send(Vec<String>),
    /// Open the socket again after this many milliseconds.
    Reconnect(u64),
    /// Close the socket: nobody listens any more.
    Close,
    /// Retries are spent: tell the subscribers that their feed is lost.
    SubscriptionLost,
}

/// A registered consumer of one or more topics (by reference), with the
/// events delivered to it and not yet taken, in the order they arrived.
pub struct Subscriber {
    pub id: u64,
    pub topics: Vec<String>,
    pub inbox: Vec<ChangeEvent>,
}

/// A topic joined on the socket, with the reference its events arrive under.
pub struct JoinedTopic {
    pub topic: Topic,
    pub reference: String,
}

/// The topics and subscribers multiplexed over one change-stream socket.
pub struct SubscriptionManager {
    pub state: SocketState,
    pub topics: Vec<JoinedTopic>,
    pub subscribers: Vec<Subscriber>,
    pub next_id: u64,
    pub next_ref: u64,
    pub failures: u32,
    pub max_retries: u32,
}

pub type SubscriberView = (u64, Seq<Seq<char>>, Seq<ChangeEvent>);

pub open spec fn refs_view(refs: Seq<String>) -> Seq<Seq<char>> {
    refs.map_values(|t: String| t@)
}

pub open spec fn sub_view(s: Subscriber) -> SubscriberView {
    (s.id, refs_view(s.topics@), s.inbox@)
}

pub open spec fn subs_view(subs: Seq<Subscriber>) -> Seq<SubscriberView> {
    subs.map_values(|s: Subscriber| sub_view(s))
}

/// The events of the topics `ts`.
pub open spec fn on_topics(ts: Seq<Seq<char>>) -> spec_fn(ChangeEvent) -> bool {
    |e: ChangeEvent| ts.contains(e.topic@)
}

/// `ev` appended to the inbox of every subscriber of its topic.
pub open spec fn deliver(subs: Seq<SubscriberView>, ev: ChangeEvent) -> Seq<SubscriberView> {
    subs.map_values(
        |s: SubscriberView|
            if s.1.contains(ev.topic@) {
                (s.0, s.1, s.2.push(ev))
            } else {
                s
            },
    )
}

/// The events `evs` delivered one after the other, in order.
pub open spec fn deliver_all(subs: Seq<SubscriberView>, evs: Seq<ChangeEvent>) -> Seq<
    SubscriberView,
>
    decreases evs.len(),
{
    if evs.len() == 0 {
        subs
    } else {
        deliver(deliver_all(subs, evs.drop_last()), evs.last())
    }
}

/// The wait before reconnect attempt number `n` (from 0): it doubles from
/// the base up to the cap.
pub open spec fn backoff_ms(n: nat) -> nat
    decreases n,
{
    if n == 0 {
        BACKOFF_BASE_MS as nat
    } else if 2 * backoff_ms((n - 1) as nat) > BACKOFF_CAP_MS {
        BACKOFF_CAP_MS as nat
    } else {
        2 * backoff_ms((n - 1) as nat)
    }
}

/// Two topics are the same when they name the same table and the same row
/// filter (or both none).
pub open spec fn same_key(a: Topic, b: Topic) -> bool {
    a.table@ == b.table@ && opt_view(a.filter) == opt_view(b.filter)
}

pub open spec fn has_topic(topics: Seq<JoinedTopic>, t: Topic) -> bool {
    exists|j: int| 0 <= j < topics.len() && same_key(#[trigger] topics[j].topic, t)
}

/// What joining `topic` did, from manager `pre` to manager `post`, giving the
/// topic reference `reference` and the socket action `action`.
pub open spec fn join_step(
    pre: SubscriptionManager,
    post: SubscriptionManager,
    topic: Topic,
    reference: Seq<char>,
    action: Action,
) -> bool {
    let n = pre.topics@.len();
    &&& post.failures == pre.failures
    &&& post.max_retries == pre.max_retries
    &&& has_topic(pre.topics@, topic) ==> post.topics@ == pre.topics@ && exists|j: int|
        0 <= j < n && same_key(#[trigger] pre.topics@[j].topic, topic) && reference
            == pre.topics@[j].reference@
    &&& !has_topic(pre.topics@, topic) ==> {
        &&& post.topics@.len() == n + 1
        &&& post.topics@.drop_last() == pre.topics@
        &&& post.topics@.last().topic == topic
        &&& post.topics@.last().reference@ == topic_ref_of(n as nat)
        &&& reference == topic_ref_of(n as nat)
    }
    &&& pre.state == SocketState::Disconnected ==> action is Connect && post.state
        == SocketState::Connecting && post.next_ref == pre.next_ref
    &&& pre.state == SocketState::Connecting ==> action is Nothing && post.state
        == SocketState::Connecting && post.next_ref == pre.next_ref
    &&& pre.state == SocketState::Streaming && has_topic(pre.topics@, topic) ==> action is Nothing
        && post.state == SocketState::Streaming && post.next_ref == pre.next_ref
    &&& pre.state == SocketState::Streaming && !has_topic(pre.topics@, topic) ==> post.state
        == SocketState::Streaming && post.next_ref == pre.next_ref + 1 && (action matches Action::Send(
        frames,
    ) && frames@.len() == 1 && frames@[0]@ == join_frame_of(topic, reference, pre.next_ref as nat))
}

/// The wait before reconnect attempt number `attempt`.
pub fn backoff_delay(attempt: u32) -> (r: u64)
    ensures
        r == backoff_ms(attempt as nat),
        r <= BACKOFF_CAP_MS,
{
    let mut d: u64 = BACKOFF_BASE_MS;
    let mut k: u32 = 0;
    while k < attempt
        invariant
            k <= attempt,
            d == backoff_ms(k as nat),
            d <= BACKOFF_CAP_MS,
        decreases attempt - k,
    {
        if 2 * d > BACKOFF_CAP_MS {
            d = BACKOFF_CAP_MS;
        } else {
            d = 2 * d;
        }
        k = k + 1;
    }
    d
}

/// Whether subscriber `s` listens to the topic reference `topic`.
fn listens(s: &Subscriber, topic: &str) -> (r: bool)
    ensures
        r == sub_view(*s).1.contains(topic@),
{
    let mut k: usize = 0;
    while k < s.topics.len()
        invariant
            k <= s.topics@.len(),
            forall|m: int| 0 <= m < k ==> #[trigger] s.topics@[m]@ != topic@,
        decreases s.topics@.len() - k,
    {
        if str_eq(s.topics[k].as_str(), topic) {
            proof {
                assert(refs_view(s.topics@)[k as int] == topic@);
            }
            return true;
        }
        k = k + 1;
    }
    proof {
        if refs_view(s.topics@).contains(topic@) {
            let m = choose|m: int| 0 <= m < refs_view(s.topics@).len() && refs_view(s.topics@)[m] == topic@;
            assert(s.topics@[m]@ == topic@);
        }
    }
    false
}

impl SubscriptionManager {
    /// Subscriber ids are distinct and below `next_id`, and the failure count
    /// stays within the retry budget.
    pub open spec fn wf(&self) -> bool {
        &&& forall|j: int|
            0 <= j < self.subscribers@.len() ==> #[trigger] self.subscribers@[j].id < self.next_id
        &&& forall|j: int, k: int|
            0 <= j < k < self.subscribers@.len() ==> #[trigger] self.subscribers@[j].id
                != #[trigger] self.subscribers@[k].id
        &&& self.failures <= self.max_retries
        &&& forall|k: int|
            0 <= k < self.topics@.len() ==> #[trigger] self.topics@[k].reference@ == topic_ref_of(
                k as nat,
            )
        &&& forall|j: int, k: int|
            0 <= j < k < self.topics@.len() ==> !same_key(
                #[trigger] self.topics@[j].topic,
                #[trigger] self.topics@[k].topic,
            )
    }

    /// A disconnected manager with no topics, that retries a lost socket
    /// `max_retries` times.
    pub fn new(max_retries: u32) -> (r: SubscriptionManager)
        ensures
            r.wf(),
            r.state == SocketState::Disconnected,
            r.topics@.len() == 0,
            r.subscribers@.len() == 0,
            r.failures == 0,
            r.max_retries == max_retries,
            r.next_id == 0,
            r.next_ref == 1,
    {
        SubscriptionManager {
            state: SocketState::Disconnected,
            topics: Vec::new(),
            subscribers: Vec::new(),
            next_id: 0,
            next_ref: 1,
            failures: 0,
            max_retries,
        }
    }

    fn find_topic(&self, topic: &Topic) -> (r: Option<usize>)
        ensures
            r matches Some(j) ==> j < self.topics@.len() && same_key(self.topics@[j as int].topic, *topic),
            r is None <==> !has_topic(self.topics@, *topic),
    {
        let mut j: usize = 0;
        while j < self.topics.len()
            invariant
                j <= self.topics@.len(),
                forall|k: int| 0 <= k < j ==> !same_key(#[trigger] self.topics@[k].topic, *topic),
            decreases self.topics@.len() - j,
        {
            if str_eq(self.topics[j].topic.table.as_str(), topic.table.as_str()) && opt_eq(
                &self.topics[j].topic.filter,
                &topic.filter,
            ) {
                return Some(j);
            }
            j = j + 1;
        }
        None
    }

    /// Makes sure `topic` is joined and gives its reference, with what the
    /// socket must do: open (when disconnected), send the join frame (when a
    /// new topic is added to a streaming socket), or nothing (the topic is
    /// joined already, or will be on connect). A topic is told apart by its
    /// table and its row filter; each new one gets a reference of its own.
    fn join_topic(&mut self, topic: Topic) -> (r: (String, Action))
        requires
            old(self).wf(),
            old(self).next_ref < u64::MAX,
        ensures
            final(self).wf(),
            final(self).subscribers@ == old(self).subscribers@,
            final(self).next_id == old(self).next_id,
            join_step(*old(self), *final(self), topic, r.0@, r.1),
    {
        let found = self.find_topic(&topic);
        let ghost old_topics = self.topics@;
        let reference = match found {
            Some(j) => self.topics[j].reference.clone(),
            None => topic_ref(self.topics.len() as u64),
        };
        let action = match self.state {
            SocketState::Disconnected => {
                self.state = SocketState::Connecting;
                Action::Connect
            },
            SocketState::Connecting => Action::Nothing,
            SocketState::Streaming => {
                if found.is_some() {
                    Action::Nothing
                } else {
                    let mut frames: Vec<String> = Vec::new();
                    frames.push(join_frame(&topic, reference.as_str(), self.next_ref));
                    self.next_ref = self.next_ref + 1;
                    Action::Send(frames)
                }
            },
        };
        if found.is_none() {
            self.topics.push(JoinedTopic { topic, reference: reference.clone() });
            proof {
                assert(self.topics@.drop_last() =~= old_topics);
                assert forall|j: int, k: int|
                    0 <= j < k < self.topics@.len() implies !same_key(
                    #[trigger] self.topics@[j].topic,
                    #[trigger] self.topics@[k].topic,
                ) by {
                    assert(self.topics@[j] == old_topics[j]);
                    if k < old_topics.len() {
                        assert(self.topics@[k] == old_topics[k]);
                    }
                }
            }
        }
        (reference, action)
    }

    /// Registers a consumer of `topic` (see `join_step` for what happens to
    /// the topic and the socket). One socket carries every topic.
    pub fn subscribe(&mut self, topic: Topic) -> (r: (u64, Action))
        requires
            old(self).wf(),
            old(self).next_id < u64::MAX,
            old(self).next_ref < u64::MAX,
        ensures
            final(self).wf(),
            r.0 == old(self).next_id,
            final(self).next_id == old(self).next_id + 1,
            final(self).subscribers@.len() == old(self).subscribers@.len() + 1,
            ({
                let s = sub_view(final(self).subscribers@.last());
                &&& s.0 == r.0
                &&& s.1.len() == 1
                &&& s.2.len() == 0
                &&& subs_view(final(self).subscribers@) == subs_view(old(self).subscribers@).push(s)
                &&& join_step(*old(self), *final(self), topic, s.1[0], r.1)
            }),
    {
        let id = self.next_id;
        let (reference, action) = self.join_topic(topic);
        let ghost pre = subs_view(self.subscribers@);
        let mut refs: Vec<String> = Vec::new();
        refs.push(reference);
        self.subscribers.push(Subscriber { id, topics: refs, inbox: Vec::new() });
        self.next_id = id + 1;
        proof {
            assert(subs_view(self.subscribers@) =~= pre.push(sub_view(self.subscribers@.last())));
            assert(refs_view(self.subscribers@.last().topics@) =~= seq![reference@]);
        }
        (id, action)
    }

    /// Adds `topic` to the topics of subscriber `id`, whose inbox then takes
    /// the events of all its topics in the order they arrive; `None` (and
    /// nothing changed) if no such subscriber is registered.
    pub fn attach(&mut self, id: u64, topic: Topic) -> (r: Option<Action>)
        requires
            old(self).wf(),
            old(self).next_ref < u64::MAX,
        ensures
            final(self).wf(),
            final(self).next_id == old(self).next_id,
            r is None <==> forall|j: int|
                0 <= j < old(self).subscribers@.len() ==> #[trigger] old(self).subscribers@[j].id != id,
            r is None ==> *final(self) == *old(self),
            r matches Some(action) ==> exists|j: int|
                0 <= j < old(self).subscribers@.len() && #[trigger] old(self).subscribers@[j].id == id
                    && {
                    let s = sub_view(old(self).subscribers@[j]);
                    let t = sub_view(final(self).subscribers@[j]);
                    &&& t.1.len() == s.1.len() + 1
                    &&& subs_view(final(self).subscribers@) == subs_view(old(self).subscribers@).update(
                        j,
                        (id, s.1.push(t.1.last()), s.2),
                    )
                    &&& join_step(*old(self), *final(self), topic, t.1.last(), action)
                },
    {
        match self.position(id) {
            None => None,
            Some(j) => {
                let ghost pre_subs = self.subscribers@;
                let (reference, action) = self.join_topic(topic);
                let ghost mid = *self;
                let s = self.subscribers.remove(j);
                let Subscriber { id: sid, topics, inbox } = s;
                let mut refs = topics;
                let ghost old_refs = refs@;
                refs.push(reference);
                self.subscribers.insert(j, Subscriber { id: sid, topics: refs, inbox });
                proof {
                    assert(self.subscribers@ =~= pre_subs.update(j as int, self.subscribers@[j as int]));
                    assert(refs_view(self.subscribers@[j as int].topics@) =~= refs_view(old_refs).push(reference@));
                    assert(subs_view(self.subscribers@) =~= subs_view(pre_subs).update(
                        j as int,
                        (id, refs_view(old_refs).push(reference@), pre_subs[j as int].inbox@),
                    ));
                    assert forall|a: int, b: int|
                        0 <= a < b < self.subscribers@.len() implies #[trigger] self.subscribers@[a].id
                            != #[trigger] self.subscribers@[b].id by {
                        assert(self.subscribers@[a].id == pre_subs[a].id);
                        assert(self.subscribers@[b].id == pre_subs[b].id);
                    }
                    assert forall|a: int| 0 <= a < self.subscribers@.len() implies #[trigger] self.subscribers@[a].id < self.next_id by {
                        assert(self.subscribers@[a].id == pre_subs[a].id);
                    }
                    assert(join_step(*old(self), *self, topic, reference@, action));
                }
                Some(action)
            },
        }
    }

    /// The socket is open: every topic is joined again, in order, with fresh
    /// reference numbers, and the failure count starts over.
    pub fn on_connected(&mut self) -> (r: Vec<String>)
        requires
            old(self).wf(),
            old(self).next_ref + old(self).topics@.len() <= u64::MAX,
        ensures
            final(self).wf(),
            final(self).state == SocketState::Streaming,
            final(self).failures == 0,
            final(self).topics@ == old(self).topics@,
            final(self).subscribers@ == old(self).subscribers@,
            final(self).next_id == old(self).next_id,
            final(self).max_retries == old(self).max_retries,
            final(self).next_ref == old(self).next_ref + old(self).topics@.len(),
            r@.len() == old(self).topics@.len(),
            forall|j: int|
                0 <= j < r@.len() ==> #[trigger] r@[j]@ == join_frame_of(
                    old(self).topics@[j].topic,
                    old(self).topics@[j].reference@,
                    (old(self).next_ref + j) as nat,
                ),
    {
        let mut frames: Vec<String> = Vec::new();
        let mut j: usize = 0;
        let start = self.next_ref;
        while j < self.topics.len()
            invariant
                j <= self.topics@.len(),
                start + self.topics@.len() <= u64::MAX,
                frames@.len() == j,
                forall|k: int|
                    0 <= k < j ==> #[trigger] frames@[k]@ == join_frame_of(
                        self.topics@[k].topic,
                        self.topics@[k].reference@,
                        (start + k) as nat,
                    ),
            decreases self.topics@.len() - j,
        {
            frames.push(
                join_frame(&self.topics[j].topic, self.topics[j].reference.as_str(), start + j as u64),
            );
            j = j + 1;
        }
        self.next_ref = start + j as u64;
        self.state = SocketState::Streaming;
        self.failures = 0;
        frames
    }

    /// The socket closed or failed. With subscribers left and retries to
    /// spare it is opened again after the backoff delay; with retries spent
    /// the subscribers are told that their feed is lost. Subscribers are
    /// never dropped here.
    pub fn on_disconnected(&mut self) -> (r: Action)
        requires
            old(self).wf(),
        ensures
            final(self).wf(),
            final(self).topics@ == old(self).topics@,
            final(self).subscribers@ == old(self).subscribers@,
            final(self).next_id == old(self).next_id,
            final(self).next_ref == old(self).next_ref,
            final(self).max_retries == old(self).max_retries,
            old(self).subscribers@.len() == 0 ==> r is Nothing
                && final(self).state == SocketState::Disconnected
                && final(self).failures == old(self).failures,
            old(self).subscribers@.len() > 0 && old(self).failures < old(self).max_retries
                ==> (r matches Action::Reconnect(d) && d == backoff_ms(old(self).failures as nat))
                && final(self).state == SocketState::Connecting
                && final(self).failures == old(self).failures + 1,
            old(self).subscribers@.len() > 0 && old(self).failures >= old(self).max_retries
                ==> r is SubscriptionLost && final(self).state == SocketState::Disconnected
                && final(self).failures == old(self).failures,
    {
        if self.subscribers.len() == 0 {
            self.state = SocketState::Disconnected;
            return Action::Nothing;
        }
        if self.failures < self.max_retries {
            let d = backoff_delay(self.failures);
            self.failures = self.failures + 1;
            self.state = SocketState::Connecting;
            Action::Reconnect(d)
        } else {
            self.state = SocketState::Disconnected;
            Action::SubscriptionLost
        }
    }

    /// Hands `ev` to every subscriber of its topic, in arrival order; the
    /// others are left as they were.
    pub fn dispatch(&mut self, ev: &ChangeEvent)
        requires
            old(self).wf(),
        ensures
            final(self).wf(),
            subs_view(final(self).subscribers@) == deliver(subs_view(old(self).subscribers@), *ev),
            final(self).state == old(self).state,
            final(self).topics@ == old(self).topics@,
            final(self).next_id == old(self).next_id,
            final(self).next_ref == old(self).next_ref,
            final(self).failures == old(self).failures,
            final(self).max_retries == old(self).max_retries,
    {
        let ghost pre = self.subscribers@;
        let ghost want = deliver(subs_view(pre), *ev);
        let n = self.subscribers.len();
        let mut i: usize = 0;
        while i < n
            invariant
                n == self.subscribers@.len(),
                n == pre.len(),
                i <= n,
                want == deliver(subs_view(pre), *ev),
                forall|j: int| 0 <= j < i ==> #[trigger] sub_view(self.subscribers@[j]) == want[j],
                forall|j: int| i <= j < n ==> #[trigger] self.subscribers@[j] == pre[j],
                forall|j: int| 0 <= j < n ==> #[trigger] self.subscribers@[j].id == pre[j].id,
                self.state == old(self).state,
                self.topics@ == old(self).topics@,
                self.next_id == old(self).next_id,
                self.next_ref == old(self).next_ref,
                self.failures == old(self).failures,
                self.max_retries == old(self).max_retries,
                pre == old(self).subscribers@,
            decreases n - i,
        {
            if listens(&self.subscribers[i], ev.topic.as_str()) {
                let mut s = self.subscribers.remove(i);
                s.inbox.push(ev.duplicate());
                self.subscribers.insert(i, s);
            }
            i = i + 1;
        }
        proof {
            assert(subs_view(self.subscribers@) =~= want);
        }
    }

    /// The table of the topic joined under `reference`.
    pub fn table_of(&self, reference: &str) -> (r: Option<String>)
        ensures
            r matches Some(t) ==> exists|j: int|
                0 <= j < self.topics@.len() && #[trigger] self.topics@[j].reference@ == reference@
                    && t@ == self.topics@[j].topic.table@,
            r is None <==> forall|j: int|
                0 <= j < self.topics@.len() ==> #[trigger] self.topics@[j].reference@ != reference@,
    {
        let mut j: usize = 0;
        while j < self.topics.len()
            invariant
                j <= self.topics@.len(),
                forall|k: int| 0 <= k < j ==> #[trigger] self.topics@[k].reference@ != reference@,
            decreases self.topics@.len() - j,
        {
            if str_eq(self.topics[j].reference.as_str(), reference) {
                return Some(self.topics[j].topic.table.clone());
            }
            j = j + 1;
        }
        None
    }

    /// Hands a run of events to the subscribers, one after the other in the
    /// order given: each subscriber ends up with exactly the events of its
    /// topics, in that order (see `lemma_fanout_per_topic`).
    pub fn dispatch_all(&mut self, evs: &Vec<ChangeEvent>)
        requires
            old(self).wf(),
        ensures
            final(self).wf(),
            subs_view(final(self).subscribers@) == deliver_all(subs_view(old(self).subscribers@), evs@),
            final(self).state == old(self).state,
            final(self).topics@ == old(self).topics@,
            final(self).next_id == old(self).next_id,
            final(self).next_ref == old(self).next_ref,
            final(self).failures == old(self).failures,
            final(self).max_retries == old(self).max_retries,
    {
        let ghost start = subs_view(self.subscribers@);
        let mut i: usize = 0;
        while i < evs.len()
            invariant
                i <= evs@.len(),
                self.wf(),
                subs_view(self.subscribers@) == deliver_all(start, evs@.subrange(0, i as int)),
                start == subs_view(old(self).subscribers@),
                self.state == old(self).state,
                self.topics@ == old(self).topics@,
                self.next_id == old(self).next_id,
                self.next_ref == old(self).next_ref,
                self.failures == old(self).failures,
                self.max_retries == old(self).max_retries,
            decreases evs@.len() - i,
        {
            self.dispatch(&evs[i]);
            proof {
                let next = evs@.subrange(0, i as int + 1);
                assert(next.drop_last() =~= evs@.subrange(0, i as int));
                assert(next.last() == evs@[i as int]);
            }
            i = i + 1;
        }
        proof {
            assert(evs@.subrange(0, evs@.len() as int) =~= evs@);
        }
    }

    fn position(&self, id: u64) -> (r: Option<usize>)
        ensures
            r matches Some(j) ==> j < self.subscribers@.len() && self.subscribers@[j as int].id
                == id,
            r is None ==> forall|j: int|
                0 <= j < self.subscribers@.len() ==> #[trigger] self.subscribers@[j].id != id,
    {
        let mut j: usize = 0;
        while j < self.subscribers.len()
            invariant
                j <= self.subscribers@.len(),
                forall|k: int| 0 <= k < j ==> #[trigger] self.subscribers@[k].id != id,
            decreases self.subscribers@.len() - j,
        {
            if self.subscribers[j].id == id {
                return Some(j);
            }
            j = j + 1;
        }
        None
    }

    /// Takes the events delivered to subscriber `id` so far, leaving its
    /// inbox empty; `None` if no such subscriber is registered.
    pub fn take_inbox(&mut self, id: u64) -> (r: Option<Vec<ChangeEvent>>)
        requires
            old(self).wf(),
        ensures
            final(self).wf(),
            final(self).state == old(self).state,
            final(self).topics@ == old(self).topics@,
            final(self).next_id == old(self).next_id,
            final(self).next_ref == old(self).next_ref,
            final(self).failures == old(self).failures,
            final(self).max_retries == old(self).max_retries,
            r is None <==> forall|j: int|
                0 <= j < old(self).subscribers@.len() ==> #[trigger] old(self).subscribers@[j].id
                    != id,
            r is None ==> final(self).subscribers@ == old(self).subscribers@,
            r matches Some(evs) ==> exists|j: int|
                0 <= j < old(self).subscribers@.len() && #[trigger] old(self).subscribers@[j].id
                    == id && evs@ == old(self).subscribers@[j].inbox@ && subs_view(
                    final(self).subscribers@,
                ) == subs_view(old(self).subscribers@).update(
                    j,
                    (id, refs_view(old(self).subscribers@[j].topics@), Seq::empty()),
                ),
    {
        match self.position(id) {
            None => None,
            Some(j) => {
                let ghost pre = self.subscribers@;
                let s = self.subscribers.remove(j);
                let Subscriber { id: sid, topics, inbox } = s;
                self.subscribers.insert(j, Subscriber { id: sid, topics, inbox: Vec::new() });
                proof {
                    assert(self.subscribers@ =~= pre.update(
                        j as int,
                        self.subscribers@[j as int],
                    ));
                    assert(subs_view(self.subscribers@) =~= subs_view(pre).update(
                        j as int,
                        (id, refs_view(pre[j as int].topics@), Seq::empty()),
                    ));
                }
                Some(inbox)
            },
        }
    }

    /// Deregisters subscriber `id`; the others keep their place and their
    /// events. When the last one leaves, the topics are dropped and the
    /// socket is to be closed.
    pub fn unsubscribe(&mut self, id: u64) -> (r: Action)
        requires
            old(self).wf(),
        ensures
            final(self).wf(),
            final(self).next_id == old(self).next_id,
            final(self).next_ref == old(self).next_ref,
            final(self).max_retries == old(self).max_retries,
            (forall|j: int|
                0 <= j < old(self).subscribers@.len() ==> #[trigger] old(self).subscribers@[j].id
                    != id) ==> final(self).subscribers@ == old(self).subscribers@ && r is Nothing
                && final(self).state == old(self).state && final(self).topics@ == old(self).topics@,
            (exists|j: int|
                0 <= j < old(self).subscribers@.len() && #[trigger] old(self).subscribers@[j].id
                    == id) ==> exists|j: int|
                0 <= j < old(self).subscribers@.len() && #[trigger] old(self).subscribers@[j].id
                    == id && final(self).subscribers@ == old(self).subscribers@.remove(j),
            final(self).subscribers@.len() == 0 && old(self).subscribers@.len() > 0 ==> r is Close
                && final(self).state == SocketState::Disconnected && final(self).topics@.len()
                == 0,
            final(self).subscribers@.len() > 0 ==> r is Nothing && final(self).state == old(self).state && final(self).topics@ == old(self).topics@,
    {
        match self.position(id) {
            None => Action::Nothing,
            Some(j) => {
                let ghost pre = self.subscribers@;
                let _gone = self.subscribers.remove(j);
                proof {
                    assert forall|a: int, b: int|
                        0 <= a < b < self.subscribers@.len() implies #[trigger] self.subscribers@[a].id
                            != #[trigger] self.subscribers@[b].id by {
                        let a0 = if a < j { a } else { a + 1 };
                        let b0 = if b < j { b } else { b + 1 };
                        assert(self.subscribers@[a] == pre[a0]);
                        assert(self.subscribers@[b] == pre[b0]);
                    }
                    assert forall|a: int| 0 <= a < self.subscribers@.len() implies #[trigger] self.subscribers@[a].id < self.next_id by {
                        let a0 = if a < j { a } else { a + 1 };
                        assert(self.subscribers@[a] == pre[a0]);
                    }
                }
                if self.subscribers.len() == 0 {
                    self.topics = Vec::new();
                    self.state = SocketState::Disconnected;
                    Action::Close
                } else {
                    Action::Nothing
                }
            },
        }
    }
}

/// Every topic joined on a socket has a reference of its own.
pub proof fn lemma_topic_references_unique(m: SubscriptionManager)
    requires
        m.wf(),
    ensures
        forall|j: int, k: int|
            0 <= j < k < m.topics@.len() ==> #[trigger] m.topics@[j].reference@
                != #[trigger] m.topics@[k].reference@,
{
    assert forall|j: int, k: int| 0 <= j < k < m.topics@.len() implies #[trigger] m.topics@[j].reference@
        != #[trigger] m.topics@[k].reference@ by {
        lemma_topic_refs_distinct(j as nat, k as nat);
    }
}

/// Fan-out keeps topics apart and in order: after any run of events, every
/// subscriber has received exactly the events of its own topics, in the
/// order they arrived (across those topics too), after what it held before.
pub proof fn lemma_fanout_per_topic(subs: Seq<SubscriberView>, evs: Seq<ChangeEvent>)
    ensures
        deliver_all(subs, evs).len() == subs.len(),
        forall|i: int|
            0 <= i < subs.len() ==> {
                let s = #[trigger] deliver_all(subs, evs)[i];
                &&& s.0 == subs[i].0
                &&& s.1 == subs[i].1
                &&& s.2 == subs[i].2 + evs.filter(on_topics(subs[i].1))
            },
    decreases evs.len(),
{
    if evs.len() == 0 {
        assert forall|i: int| 0 <= i < subs.len() implies #[trigger] deliver_all(subs, evs)[i].2
            == subs[i].2 + evs.filter(on_topics(subs[i].1)) by {
            reveal(Seq::filter);
            assert(subs[i].2 + evs.filter(on_topics(subs[i].1)) =~= subs[i].2);
        }
    } else {
        let init = evs.drop_last();
        let last = evs.last();
        lemma_fanout_per_topic(subs, init);
        let prev = deliver_all(subs, init);
        assert forall|i: int| 0 <= i < subs.len() implies {
            let s = #[trigger] deliver_all(subs, evs)[i];
            &&& s.0 == subs[i].0
            &&& s.1 == subs[i].1
            &&& s.2 == subs[i].2 + evs.filter(on_topics(subs[i].1))
        } by {
            let p = on_topics(subs[i].1);
            assert(prev[i].2 == subs[i].2 + init.filter(p));
            reveal(Seq::filter);
            assert(evs.filter(p) == if p(last) {
                init.filter(p).push(last)
            } else {
                init.filter(p)
            });
            if p(last) {
                assert(subs[i].2 + init.filter(p).push(last) =~= (subs[i].2 + init.filter(p)).push(
                    last,
                ));
            }
        }
    }
}

} // verus!
