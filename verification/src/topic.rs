//! The per-room multicast topic: an in-memory broadcast of live chat events.
//!
//! A topic keeps the full publish log and, per subscription, a cursor into
//! that log. Subscribing places the cursor at the end of the log, so a new
//! subscription only ever observes later publishes. Receiving moves the
//! cursor forward; a subscription that has fallen more than the topic's
//! buffer capacity behind is skipped ahead (its oldest undelivered events
//! are dropped for it alone) so that publishers are never blocked or failed
//! by a slow subscriber. Each subscription carries a ghost record of every
//! event it has been handed, and the topic invariant pins that record to an
//! in-order selection of the publish log.

use vstd::prelude::*;

verus! {

/// Whether `a` is an in-order selection (a subsequence) of `b`.
pub open spec fn is_subsequence_of<T>(a: Seq<T>, b: Seq<T>) -> bool
    decreases b.len(),
{
    if a.len() == 0 {
        true
    } else if b.len() == 0 {
        false
    } else {
        (a.last() == b.last() && is_subsequence_of(a.drop_last(), b.drop_last()))
            || is_subsequence_of(a, b.drop_last())
    }
}

/// Appending the same element to both sequences keeps a subsequence a
/// subsequence.
pub proof fn lemma_subsequence_push_both<T>(a: Seq<T>, b: Seq<T>, x: T)
    requires
        is_subsequence_of(a, b),
    ensures
        is_subsequence_of(a.push(x), b.push(x)),
{
    assert(a.push(x).drop_last() =~= a);
    assert(b.push(x).drop_last() =~= b);
}

/// A subsequence of a prefix is a subsequence of the whole.
pub proof fn lemma_subsequence_of_prefix<T>(a: Seq<T>, b: Seq<T>, c: Seq<T>)
    requires
        is_subsequence_of(a, b),
        b.is_prefix_of(c),
    ensures
        is_subsequence_of(a, c),
    decreases c.len(),
{
    if b.len() == c.len() {
        assert(b =~= c);
    } else {
        assert(b.is_prefix_of(c.drop_last()));
        lemma_subsequence_of_prefix(a, b, c.drop_last());
    }
}

/// A subsequence of a subsequence is a subsequence.
pub proof fn lemma_subsequence_transitive<T>(a: Seq<T>, b: Seq<T>, c: Seq<T>)
    requires
        is_subsequence_of(a, b),
        is_subsequence_of(b, c),
    ensures
        is_subsequence_of(a, c),
    decreases b.len() + c.len(),
{
    if a.len() == 0 {
    } else if is_subsequence_of(b, c.drop_last()) {
        lemma_subsequence_transitive(a, b, c.drop_last());
    } else {
        if is_subsequence_of(a, b.drop_last()) {
            lemma_subsequence_transitive(a, b.drop_last(), c.drop_last());
        } else {
            lemma_subsequence_transitive(a.drop_last(), b.drop_last(), c.drop_last());
        }
    }
}

/// Every contiguous slice of a sequence is a subsequence of it.
pub proof fn lemma_subrange_is_subsequence<T>(s: Seq<T>, i: int, j: int)
    requires
        0 <= i <= j <= s.len(),
    ensures
        is_subsequence_of(s.subrange(i, j), s),
    decreases s.len(),
{
    if j == s.len() {
        if i == j {
            assert(s.subrange(i, j).len() == 0);
        } else {
            assert(s.subrange(i, j).last() == s.last());
            assert(s.subrange(i, j).drop_last() =~= s.drop_last().subrange(i, j - 1));
            lemma_subrange_is_subsequence(s.drop_last(), i, j - 1);
        }
    } else {
        assert(s.subrange(i, j) =~= s.drop_last().subrange(i, j));
        lemma_subrange_is_subsequence(s.drop_last(), i, j);
    }
}

/// A subsequence can be embedded in the larger sequence: there are strictly
/// increasing positions in `b` holding the elements of `a`, in order.
pub proof fn lemma_subsequence_embedding<T>(a: Seq<T>, b: Seq<T>) -> (idx: Seq<int>)
    requires
        is_subsequence_of(a, b),
    ensures
        idx.len() == a.len(),
        forall|k: int| 0 <= k < idx.len() ==> 0 <= #[trigger] idx[k] < b.len() && b[idx[k]] == a[k],
        forall|k: int, l: int| 0 <= k < l < idx.len() ==> idx[k] < idx[l],
    decreases b.len(),
{
    if a.len() == 0 {
        Seq::empty()
    } else if a.last() == b.last() && is_subsequence_of(a.drop_last(), b.drop_last()) {
        let idx0 = lemma_subsequence_embedding(a.drop_last(), b.drop_last());
        let idx = idx0.push(b.len() - 1);
        assert forall|k: int| 0 <= k < idx.len() implies 0 <= #[trigger] idx[k] < b.len()
            && b[idx[k]] == a[k] by {
            if k < idx0.len() {
                assert(b.drop_last()[idx0[k]] == a.drop_last()[k]);
            }
        }
        idx
    } else {
        let idx = lemma_subsequence_embedding(a, b.drop_last());
        assert forall|k: int| 0 <= k < idx.len() implies 0 <= #[trigger] idx[k] < b.len()
            && b[idx[k]] == a[k] by {
            assert(b.drop_last()[idx[k]] == a[k]);
        }
        idx
    }
}

/// Marks a live event as a user chat message or a system notice.
#[derive(Clone, Copy, Debug, PartialEq, Eq, Structural)]
pub enum MessageType {
    User,
    System,
}

/// One live event carried by a topic: a chat message (with its persisted id
/// and timestamp) or a system notice (with neither).
#[derive(Clone, Debug, PartialEq, Eq)]
pub struct ChatMessage {
    pub message_type: MessageType,
    pub id: Option<String>,
    pub user: String,
    pub message: String,
    pub created_at: Option<String>,
}

/// Whether two optional strings hold the same characters.
pub open spec fn opt_str_eq(a: Option<String>, b: Option<String>) -> bool {
    match (a, b) {
        (Option::None, Option::None) => true,
        (Option::Some(x), Option::Some(y)) => x@ == y@,
        _ => false,
    }
}

/// Whether two events carry the same kind, id, author, text and timestamp.
pub open spec fn msg_eq(a: ChatMessage, b: ChatMessage) -> bool {
    &&& a.message_type == b.message_type
    &&& opt_str_eq(a.id, b.id)
    &&& a.user@ == b.user@
    &&& a.message@ == b.message@
    &&& opt_str_eq(a.created_at, b.created_at)
}

impl ChatMessage {
    /// A copy of the event carrying the same contents.
    pub fn duplicate(&self) -> (r: ChatMessage)
        ensures
            msg_eq(r, *self),
    {
        ChatMessage {
            message_type: self.message_type,
            id: match &self.id {
                Some(s) => Some(s.clone()),
                None => None,
            },
            user: self.user.clone(),
            message: self.message.clone(),
            created_at: match &self.created_at {
                Some(s) => Some(s.clone()),
                None => None,
            },
        }
    }
}

/// One subscription's receive state: a cursor into the topic log, plus the
/// ghost record of every event handed out through it.
struct Subscription {
    cursor: usize,
    active: bool,
    start: Ghost<int>,
    observed: Ghost<Seq<ChatMessage>>,
}

/// The in-memory multicast channel for one room's live events.
pub struct Topic {
    room_id: String,
    capacity: usize,
    log: Vec<ChatMessage>,
    subs: Vec<Subscription>,
}

impl Topic {
    /// The room this topic fans out for.
    pub closed spec fn room_id_spec(&self) -> Seq<char> {
        self.room_id@
    }

    /// How far a subscription may fall behind before undelivered events are
    /// dropped for it.
    pub closed spec fn capacity_spec(&self) -> int {
        self.capacity as int
    }

    /// Every event ever published to this topic, in publish order.
    pub closed spec fn log_seq(&self) -> Seq<ChatMessage> {
        self.log@
    }

    /// How many subscriptions this topic has handed out (open or closed).
    pub closed spec fn sub_count(&self) -> int {
        self.subs@.len() as int
    }

    /// Whether subscription `i` is still open.
    pub closed spec fn sub_active(&self, i: int) -> bool {
        self.subs@[i].active
    }

    /// The log position subscription `i` was created at: it observes no
    /// event published before it.
    pub closed spec fn sub_start(&self, i: int) -> int {
        self.subs@[i].start@
    }

    /// The log position subscription `i` has received up to.
    pub closed spec fn sub_cursor(&self, i: int) -> int {
        self.subs@[i].cursor as int
    }

    /// Every event handed out through subscription `i`, in delivery order.
    pub closed spec fn sub_observed(&self, i: int) -> Seq<ChatMessage> {
        self.subs@[i].observed@
    }

    /// The topic invariant: every subscription's cursor lies between its
    /// start position and the end of the log, and what it has observed is an
    /// in-order selection of the log slice between those positions.
    pub closed spec fn wf(&self) -> bool {
        &&& self.capacity >= 1
        &&& forall|i: int|
            0 <= i < self.subs@.len() ==> {
                &&& 0 <= #[trigger] self.subs@[i].start@ <= self.subs@[i].cursor as int
                    <= self.log@.len()
                &&& is_subsequence_of(
                    self.subs@[i].observed@,
                    self.log@.subrange(self.subs@[i].start@, self.subs@[i].cursor as int),
                )
            }
    }

    /// A fresh topic for `room_id` with no published events and no
    /// subscriptions.
    pub fn new(room_id: String, capacity: usize) -> (t: Topic)
        requires
            capacity >= 1,
        ensures
            t.wf(),
            t.room_id_spec() == room_id@,
            t.capacity_spec() == capacity as int,
            t.log_seq() == Seq::<ChatMessage>::empty(),
            t.sub_count() == 0,
    {
        let t = Topic { room_id, capacity, log: Vec::new(), subs: Vec::new() };
        proof {
            assert(t.log@ =~= Seq::<ChatMessage>::empty());
        }
        t
    }

    /// Opens a new subscription. The new subscription starts at the current
    /// end of the log: it never observes any event published before this
    /// call.
    pub fn subscribe(&mut self) -> (s: usize)
        requires
            old(self).wf(),
        ensures
            final(self).wf(),
            s as int == old(self).sub_count(),
            final(self).sub_count() == old(self).sub_count() + 1,
            final(self).log_seq() == old(self).log_seq(),
            final(self).room_id_spec() == old(self).room_id_spec(),
            final(self).capacity_spec() == old(self).capacity_spec(),
            final(self).sub_active(s as int),
            final(self).sub_start(s as int) == old(self).log_seq().len(),
            final(self).sub_cursor(s as int) == old(self).log_seq().len(),
            final(self).sub_observed(s as int) == Seq::<ChatMessage>::empty(),
            forall|i: int|
                0 <= i < old(self).sub_count() ==> #[trigger] final(self).sub_state_eq(
                    *old(self),
                    i,
                ),
    {
        let s = self.subs.len();
        let cursor = self.log.len();
        self.subs.push(
            Subscription {
                cursor,
                active: true,
                start: Ghost(cursor as int),
                observed: Ghost(Seq::empty()),
            },
        );
        proof {
            assert(self.log@.subrange(cursor as int, cursor as int) =~= Seq::<
                ChatMessage,
            >::empty());
        }
        s
    }

    /// Whether subscription `i` is in the same state in `self` and `other`.
    pub open spec fn sub_state_eq(&self, other: Topic, i: int) -> bool {
        &&& self.sub_active(i) == other.sub_active(i)
        &&& self.sub_start(i) == other.sub_start(i)
        &&& self.sub_cursor(i) == other.sub_cursor(i)
        &&& self.sub_observed(i) == other.sub_observed(i)
    }

    /// Appends `event` to the topic log. Publishing never fails and never
    /// waits: it is a plain append, whatever the number of subscriptions
    /// (zero among them) and the state of their cursors.
    pub fn publish(&mut self, event: ChatMessage)
        requires
            old(self).wf(),
        ensures
            final(self).wf(),
            final(self).log_seq() == old(self).log_seq().push(event),
            final(self).sub_count() == old(self).sub_count(),
            final(self).room_id_spec() == old(self).room_id_spec(),
            final(self).capacity_spec() == old(self).capacity_spec(),
            forall|i: int|
                0 <= i < old(self).sub_count() ==> #[trigger] final(self).sub_state_eq(
                    *old(self),
                    i,
                ),
    {
        self.log.push(event);
        proof {
            assert forall|i: int| 0 <= i < self.subs@.len() implies {
                &&& 0 <= #[trigger] self.subs@[i].start@ <= self.subs@[i].cursor as int
                    <= self.log@.len()
                &&& is_subsequence_of(
                    self.subs@[i].observed@,
                    self.log@.subrange(self.subs@[i].start@, self.subs@[i].cursor as int),
                )
            } by {
                assert(self.log@.subrange(self.subs@[i].start@, self.subs@[i].cursor as int)
                    =~= old(self).log@.subrange(self.subs@[i].start@, self.subs@[i].cursor as int));
            }
        }
    }

    /// Hands subscription `i` its next undelivered event, or `None` if it
    /// has already received everything published so far. A subscription
    /// more than `capacity` events behind is first skipped ahead to the
    /// oldest retained event: the skipped events are dropped for that
    /// subscription only (at-most-once delivery).
    pub fn recv(&mut self, i: usize) -> (r: Option<ChatMessage>)
        requires
            old(self).wf(),
            0 <= (i as int) < old(self).sub_count(),
            old(self).sub_active(i as int),
        ensures
            final(self).wf(),
            final(self).log_seq() == old(self).log_seq(),
            final(self).sub_count() == old(self).sub_count(),
            final(self).room_id_spec() == old(self).room_id_spec(),
            final(self).capacity_spec() == old(self).capacity_spec(),
            forall|j: int|
                0 <= j < old(self).sub_count() && j != i as int ==> #[trigger] final(self).sub_state_eq(*old(self), j),
            final(self).sub_active(i as int),
            final(self).sub_start(i as int) == old(self).sub_start(i as int),
            r is None <==> old(self).sub_cursor(i as int) == old(self).log_seq().len(),
            r is None ==> final(self).sub_state_eq(*old(self), i as int),
            r matches Some(m) ==> {
                let c = if old(self).log_seq().len() - old(self).sub_cursor(i as int) > old(self).capacity_spec() {
                    old(self).log_seq().len() - old(self).capacity_spec()
                } else {
                    old(self).sub_cursor(i as int)
                };
                &&& msg_eq(m, old(self).log_seq()[c])
                &&& final(self).sub_cursor(i as int) == c + 1
                &&& final(self).sub_observed(i as int) == old(self).sub_observed(i as int).push(
                    old(self).log_seq()[c],
                )
            },
    {
        let cursor = self.subs[i].cursor;
        let len = self.log.len();
        if cursor == len {
            return None;
        }
        let ghost start = self.subs@[i as int].start@;
        let ghost observed = self.subs@[i as int].observed@;
        let c: usize = if len - cursor > self.capacity {
            len - self.capacity
        } else {
            cursor
        };
        proof {
            assert(self.log@.subrange(start, cursor as int).is_prefix_of(
                self.log@.subrange(start, c as int),
            ));
            lemma_subsequence_of_prefix(
                observed,
                self.log@.subrange(start, cursor as int),
                self.log@.subrange(start, c as int),
            );
            lemma_subsequence_push_both(
                observed,
                self.log@.subrange(start, c as int),
                self.log@[c as int],
            );
            assert(self.log@.subrange(start, c as int).push(self.log@[c as int])
                =~= self.log@.subrange(start, c + 1 as int));
        }
        let msg = self.log[c].duplicate();
        self.subs[i].cursor = c + 1;
        self.subs[i].observed = Ghost(observed.push(self.log@[c as int]));
        proof {
            assert forall|j: int| 0 <= j < self.subs@.len() implies {
                &&& 0 <= #[trigger] self.subs@[j].start@ <= self.subs@[j].cursor as int
                    <= self.log@.len()
                &&& is_subsequence_of(
                    self.subs@[j].observed@,
                    self.log@.subrange(self.subs@[j].start@, self.subs@[j].cursor as int),
                )
            } by {
                if j != i as int {
                    assert(self.subs@[j] == old(self).subs@[j]);
                }
            }
        }
        Some(msg)
    }

    /// Closes subscription `i`; its slot is kept but it receives nothing
    /// further.
    pub fn unsubscribe(&mut self, i: usize)
        requires
            old(self).wf(),
            0 <= (i as int) < old(self).sub_count(),
        ensures
            final(self).wf(),
            final(self).log_seq() == old(self).log_seq(),
            final(self).sub_count() == old(self).sub_count(),
            final(self).room_id_spec() == old(self).room_id_spec(),
            final(self).capacity_spec() == old(self).capacity_spec(),
            !final(self).sub_active(i as int),
            final(self).sub_start(i as int) == old(self).sub_start(i as int),
            final(self).sub_cursor(i as int) == old(self).sub_cursor(i as int),
            final(self).sub_observed(i as int) == old(self).sub_observed(i as int),
            forall|j: int|
                0 <= j < old(self).sub_count() && j != i as int ==> #[trigger] final(self).sub_state_eq(*old(self), j),
    {
        self.subs[i].active = false;
    }

    /// How many of the first `n` subscriptions are still open.
    pub open spec fn active_below(&self, n: int) -> int
        decreases n,
    {
        if n <= 0 {
            0
        } else {
            self.active_below(n - 1) + if self.sub_active(n - 1) {
                1int
            } else {
                0int
            }
        }
    }

    /// How many of this topic's subscriptions are still open.
    pub fn open_subscriptions(&self) -> (n: usize)
        requires
            self.wf(),
        ensures
            n as int == self.active_below(self.sub_count()),
    {
        let mut n: usize = 0;
        let mut i: usize = 0;
        while i < self.subs.len()
            invariant
                0 <= i <= self.subs@.len(),
                n as int == self.active_below(i as int),
                n <= i,
            decreases self.subs@.len() - i,
        {
            if self.subs[i].active {
                n = n + 1;
            }
            i = i + 1;
        }
        n
    }

    /// Every event a subscription has observed was drawn from the publish
    /// log, in publish order: for any two events it observed, the one
    /// observed first was published first.
    pub proof fn lemma_observed_in_publish_order(&self, i: int)
        requires
            self.wf(),
            0 <= i < self.sub_count(),
        ensures
            is_subsequence_of(self.sub_observed(i), self.log_seq()),
    {
        lemma_subrange_is_subsequence(self.log_seq(), self.sub_start(i), self.sub_cursor(i));
        lemma_subsequence_transitive(
            self.sub_observed(i),
            self.log_seq().subrange(self.sub_start(i), self.sub_cursor(i)),
            self.log_seq(),
        );
    }

    /// The pairwise reading of publish-order delivery: any two events a
    /// subscription observed, in the order it observed them, sit at
    /// strictly increasing positions of the publish log — so every
    /// subscriber that observes a set of publishes observes them in the one
    /// publish order.
    pub proof fn lemma_pairwise_publish_order(&self, i: int, k: int, l: int)
        requires
            self.wf(),
            0 <= i < self.sub_count(),
            0 <= k < l < self.sub_observed(i).len(),
        ensures
            exists|p: int, q: int|
                0 <= p < q < self.log_seq().len() && #[trigger] self.log_seq()[p]
                    == self.sub_observed(i)[k] && #[trigger] self.log_seq()[q]
                    == self.sub_observed(i)[l],
    {
        self.lemma_observed_in_publish_order(i);
        let idx = lemma_subsequence_embedding(self.sub_observed(i), self.log_seq());
        assert(0 <= idx[k] < idx[l] < self.log_seq().len() && self.log_seq()[idx[k]]
            == self.sub_observed(i)[k] && self.log_seq()[idx[l]] == self.sub_observed(i)[l]);
    }

    /// A subscription never observes an event published before it was
    /// opened: everything it observes is drawn from the log after its start
    /// position, so a subscription created after `n` publishes observes
    /// none of those `n` events.
    pub proof fn lemma_no_retroactive_replay(&self, i: int)
        requires
            self.wf(),
            0 <= i < self.sub_count(),
        ensures
            is_subsequence_of(
                self.sub_observed(i),
                self.log_seq().subrange(self.sub_start(i), self.log_seq().len() as int),
            ),
    {
        assert(self.log_seq().subrange(self.sub_start(i), self.sub_cursor(i)).is_prefix_of(
            self.log_seq().subrange(self.sub_start(i), self.log_seq().len() as int),
        ));
        lemma_subsequence_of_prefix(
            self.sub_observed(i),
            self.log_seq().subrange(self.sub_start(i), self.sub_cursor(i)),
            self.log_seq().subrange(self.sub_start(i), self.log_seq().len() as int),
        );
    }
}

} // verus!
