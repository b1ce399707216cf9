//! The room registry: the process-wide index from room id to its live topic.
//!
//! Topics are created lazily on first access and are never removed while the
//! process runs; the registry therefore grows with the number of distinct
//! rooms ever touched. Exactly one topic exists per room id: a lookup for a
//! known id returns the topic already indexed, untouched. The surrounding
//! runtime guards the registry with a mutual-exclusion discipline, so the
//! insert-if-absent below is atomic with respect to concurrent sessions;
//! under that discipline, two first accesses for the same room id — in
//! whichever order the lock serializes them — yield the same topic.

use vstd::prelude::*;

use crate::topic::{ChatMessage, Topic};

verus! {

/// Index from room id to the room's unique live topic.
pub struct RoomRegistry {
    capacity: usize,
    rooms: Vec<String>,
    topics: Vec<Topic>,
}

impl RoomRegistry {
    /// The buffer capacity every topic is created with.
    pub closed spec fn capacity_spec(&self) -> int {
        self.capacity as int
    }

    /// How many topics the registry holds.
    pub closed spec fn topic_count(&self) -> int {
        self.topics@.len() as int
    }

    /// The room id indexed at `i`.
    pub closed spec fn room_at(&self, i: int) -> Seq<char> {
        self.rooms@[i]@
    }

    /// The topic indexed at `i`.
    pub closed spec fn topic_at(&self, i: int) -> Topic {
        self.topics@[i]
    }

    /// Whether some topic is indexed under `id`.
    pub open spec fn has_room(&self, id: Seq<char>) -> bool {
        exists|i: int| 0 <= i < self.topic_count() && self.room_at(i) == id
    }

    /// The registry invariant: ids and topics pair up one to one, ids are
    /// unique, and each topic is well-formed, carries the id it is indexed
    /// under, and was created with the registry's capacity.
    pub closed spec fn wf(&self) -> bool {
        &&& self.capacity >= 1
        &&& self.rooms@.len() == self.topics@.len()
        &&& forall|i: int, j: int|
            0 <= i < j < self.rooms@.len() ==> #[trigger] self.rooms@[i]@ != #[trigger] self.rooms@[j]@
        &&& forall|i: int|
            0 <= i < self.topics@.len() ==> {
                &&& (#[trigger] self.topics@[i]).wf()
                &&& self.topics@[i].room_id_spec() == self.rooms@[i]@
                &&& self.topics@[i].capacity_spec() == self.capacity as int
            }
    }

    /// An empty registry whose topics will buffer `capacity` events.
    pub fn new(capacity: usize) -> (r: RoomRegistry)
        requires
            capacity >= 1,
        ensures
            r.wf(),
            r.topic_count() == 0,
            r.capacity_spec() == capacity as int,
    {
        RoomRegistry { capacity, rooms: Vec::new(), topics: Vec::new() }
    }

    /// Returns the handle of the topic for `room_id`, creating the topic if
    /// this is the room's first access. A room already indexed is returned
    /// as it stands — the registry does not change — so repeated or
    /// lock-serialized concurrent first accesses for one room id all end at
    /// the same single topic.
    pub fn get_or_create_topic(&mut self, room_id: &String) -> (h: usize)
        requires
            old(self).wf(),
        ensures
            final(self).wf(),
            final(self).capacity_spec() == old(self).capacity_spec(),
            (h as int) < final(self).topic_count(),
            final(self).room_at(h as int) == room_id@,
            final(self).has_room(room_id@),
            old(self).has_room(room_id@) ==> *final(self) == *old(self),
            !old(self).has_room(room_id@) ==> {
                &&& final(self).topic_count() == old(self).topic_count() + 1
                &&& h as int == old(self).topic_count()
                &&& final(self).topic_at(h as int).log_seq() == Seq::<ChatMessage>::empty()
                &&& final(self).topic_at(h as int).sub_count() == 0
                &&& forall|i: int|
                    0 <= i < old(self).topic_count() ==> #[trigger] final(self).topic_at(i) == old(self).topic_at(i) && #[trigger] final(self).room_at(i) == old(self).room_at(i)
            },
            forall|i: int|
                0 <= i < old(self).topic_count() ==> #[trigger] final(self).topic_at(i) == old(self).topic_at(i),
    {
        let n = self.rooms.len();
        let mut i: usize = 0;
        while i < n
            invariant
                0 <= i <= n,
                n == self.rooms@.len(),
                self.wf(),
                forall|j: int| 0 <= j < i as int ==> #[trigger] self.rooms@[j]@ != room_id@,
            decreases n - i,
        {
            if self.rooms[i].eq(room_id) {
                proof {
                    assert(self.room_at(i as int) == room_id@);
                    assert(self.has_room(room_id@));
                }
                return i;
            }
            i = i + 1;
        }
        let topic = Topic::new(room_id.clone(), self.capacity);
        self.rooms.push(room_id.clone());
        self.topics.push(topic);
        n
    }

    /// Opens a subscription on topic `h`; see [`Topic::subscribe`]. The new
    /// subscription starts at the current end of that topic's log.
    pub fn subscribe(&mut self, h: usize) -> (s: usize)
        requires
            old(self).wf(),
            (h as int) < old(self).topic_count(),
        ensures
            final(self).wf(),
            final(self).registry_shape_eq(*old(self)),
            forall|i: int|
                0 <= i < old(self).topic_count() && i != h as int ==> #[trigger] final(self).topic_at(i) == old(self).topic_at(i),
            s as int == old(self).topic_at(h as int).sub_count(),
            final(self).topic_at(h as int).sub_count() == old(self).topic_at(h as int).sub_count()
                + 1,
            final(self).topic_at(h as int).log_seq() == old(self).topic_at(h as int).log_seq(),
            final(self).topic_at(h as int).sub_active(s as int),
            final(self).topic_at(h as int).sub_start(s as int) == old(self).topic_at(
                h as int,
            ).log_seq().len(),
            final(self).topic_at(h as int).sub_cursor(s as int) == old(self).topic_at(
                h as int,
            ).log_seq().len(),
            final(self).topic_at(h as int).sub_observed(s as int) == Seq::<ChatMessage>::empty(),
            forall|j: int|
                0 <= j < old(self).topic_at(h as int).sub_count() ==> #[trigger] final(self).topic_at(h as int).sub_state_eq(old(self).topic_at(h as int), j),
    {
        let t = &mut self.topics[h];
        t.subscribe()
    }

    /// Publishes `event` on topic `h`; see [`Topic::publish`]. Appends to
    /// that topic's log and touches nothing else; it cannot fail, whatever
    /// the number of subscriptions.
    pub fn publish(&mut self, h: usize, event: ChatMessage)
        requires
            old(self).wf(),
            (h as int) < old(self).topic_count(),
        ensures
            final(self).wf(),
            final(self).registry_shape_eq(*old(self)),
            forall|i: int|
                0 <= i < old(self).topic_count() && i != h as int ==> #[trigger] final(self).topic_at(i) == old(self).topic_at(i),
            final(self).topic_at(h as int).log_seq() == old(self).topic_at(
                h as int,
            ).log_seq().push(event),
            final(self).topic_at(h as int).sub_count() == old(self).topic_at(h as int).sub_count(),
            forall|j: int|
                0 <= j < old(self).topic_at(h as int).sub_count() ==> #[trigger] final(self).topic_at(h as int).sub_state_eq(old(self).topic_at(h as int), j),
    {
        let t = &mut self.topics[h];
        t.publish(event)
    }

    /// Hands subscription `s` of topic `h` its next undelivered event; see
    /// [`Topic::recv`].
    pub fn recv(&mut self, h: usize, s: usize) -> (r: Option<ChatMessage>)
        requires
            old(self).wf(),
            (h as int) < old(self).topic_count(),
            (s as int) < old(self).topic_at(h as int).sub_count(),
            old(self).topic_at(h as int).sub_active(s as int),
        ensures
            final(self).wf(),
            final(self).registry_shape_eq(*old(self)),
            forall|i: int|
                0 <= i < old(self).topic_count() && i != h as int ==> #[trigger] final(self).topic_at(i) == old(self).topic_at(i),
            final(self).topic_at(h as int).log_seq() == old(self).topic_at(h as int).log_seq(),
            final(self).topic_at(h as int).sub_count() == old(self).topic_at(h as int).sub_count(),
            forall|j: int|
                0 <= j < old(self).topic_at(h as int).sub_count() && j != s as int
                    ==> #[trigger] final(self).topic_at(h as int).sub_state_eq(
                    old(self).topic_at(h as int),
                    j,
                ),
            final(self).topic_at(h as int).sub_active(s as int),
            final(self).topic_at(h as int).sub_start(s as int) == old(self).topic_at(
                h as int,
            ).sub_start(s as int),
            r is None <==> old(self).topic_at(h as int).sub_cursor(s as int) == old(self).topic_at(
                h as int,
            ).log_seq().len(),
            r is None ==> final(self).topic_at(h as int).sub_state_eq(
                old(self).topic_at(h as int),
                s as int,
            ),
            r matches Some(m) ==> {
                let t = old(self).topic_at(h as int);
                let c = if t.log_seq().len() - t.sub_cursor(s as int) > t.capacity_spec() {
                    t.log_seq().len() - t.capacity_spec()
                } else {
                    t.sub_cursor(s as int)
                };
                &&& crate::topic::msg_eq(m, t.log_seq()[c])
                &&& final(self).topic_at(h as int).sub_cursor(s as int) == c + 1
                &&& final(self).topic_at(h as int).sub_observed(s as int) == t.sub_observed(
                    s as int,
                ).push(t.log_seq()[c])
            },
    {
        let t = &mut self.topics[h];
        t.recv(s)
    }

    /// Closes subscription `s` of topic `h`; see [`Topic::unsubscribe`].
    pub fn unsubscribe(&mut self, h: usize, s: usize)
        requires
            old(self).wf(),
            (h as int) < old(self).topic_count(),
            (s as int) < old(self).topic_at(h as int).sub_count(),
        ensures
            final(self).wf(),
            final(self).registry_shape_eq(*old(self)),
            forall|i: int|
                0 <= i < old(self).topic_count() && i != h as int ==> #[trigger] final(self).topic_at(i) == old(self).topic_at(i),
            final(self).topic_at(h as int).log_seq() == old(self).topic_at(h as int).log_seq(),
            final(self).topic_at(h as int).sub_count() == old(self).topic_at(h as int).sub_count(),
            !final(self).topic_at(h as int).sub_active(s as int),
            forall|j: int|
                0 <= j < old(self).topic_at(h as int).sub_count() && j != s as int
                    ==> #[trigger] final(self).topic_at(h as int).sub_state_eq(
                    old(self).topic_at(h as int),
                    j,
                ),
    {
        let t = &mut self.topics[h];
        t.unsubscribe(s)
    }

    /// Whether `self` and `other` index the same rooms, with the same
    /// capacity, in the same order.
    pub open spec fn registry_shape_eq(&self, other: RoomRegistry) -> bool {
        &&& self.topic_count() == other.topic_count()
        &&& self.capacity_spec() == other.capacity_spec()
        &&& forall|i: int|
            0 <= i < self.topic_count() ==> #[trigger] self.room_at(i) == other.room_at(i)
    }

    /// Every topic a well-formed registry indexes is itself well-formed and
    /// carries the id it is indexed under.
    pub proof fn lemma_indexed_topic_wf(&self, i: int)
        requires
            self.wf(),
            0 <= i < self.topic_count(),
        ensures
            self.topic_at(i).wf(),
            self.topic_at(i).room_id_spec() == self.room_at(i),
    {
    }

    /// One topic per room id: two lookups for the same room id — including
    /// two first accesses racing through the registry lock in either order —
    /// return the same handle, and so the same topic.
    pub proof fn lemma_one_topic_per_room(&self, i: int, j: int)
        requires
            self.wf(),
            0 <= i < self.topic_count(),
            0 <= j < self.topic_count(),
            self.room_at(i) == self.room_at(j),
        ensures
            i == j,
    {
    }
}

} // verus!
