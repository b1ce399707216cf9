//! The per-connection session state machine.
//!
//! One session serves one connected client. It moves through
//! `Handshaking -> Streaming -> Closing -> Closed`. The surrounding runtime
//! owns the transport and the store and runs two concurrent tasks per
//! session — outbound (topic to transport) and inbound (transport to store
//! to topic) — but every decision those tasks act on is taken here, as a
//! step of this machine with a contract:
//!
//! - a failed identity lookup aborts the session before any topic is
//!   touched;
//! - attaching subscribes before the history snapshot is prepared, so the
//!   subscription misses nothing published after it (at the price of a
//!   possible history/live duplicate, which is left to client-side
//!   de-duplication by message id);
//! - an inbound chat frame is persisted only if its trimmed content is
//!   non-empty, and published only once the store acknowledged it; a blank
//!   frame, a malformed frame or a failed write is dropped without touching
//!   the topic and without ending the session;
//! - a ping publishes a system pong and persists nothing;
//! - a session's own subscription receives its own published chat messages
//!   like any other subscriber: there is no self-delivery suppression;
//! - whichever task finishes first, the machine orders the cancellation of
//!   the other; once both have acknowledged, the subscription is released.

use vstd::prelude::*;

use crate::registry::RoomRegistry;
use crate::room::{MessageDto, MessageResponse};
use crate::text::trim_spec;
use crate::topic::{ChatMessage, MessageType};
use crate::events::ClientEvent;

verus! {

/// Lifecycle phase of a session.
#[derive(Clone, Copy, Debug, PartialEq, Eq, Structural)]
pub enum SessionState {
    Handshaking,
    Streaming,
    Closing,
    Closed,
}

/// Which of the session's two tasks an event concerns.
#[derive(Clone, Copy, Debug, PartialEq, Eq, Structural)]
pub enum TaskSide {
    Inbound,
    Outbound,
}

/// What the runtime must do after reporting that a task finished.
#[derive(Clone, Copy, Debug, PartialEq, Eq, Structural)]
pub enum SessionAction {
    CancelInbound,
    CancelOutbound,
    ShutdownComplete,
}

/// What an inbound client event asks of the runtime.
#[derive(Debug, PartialEq, Eq)]
pub enum InboundDecision {
    /// The chat content passed validation: write this record to the store,
    /// then report back with `chat_persisted` or `persist failed` (by doing
    /// nothing).
    PersistChat(MessageDto),
    /// The chat content was blank: nothing is persisted, nothing published.
    DroppedInvalid,
    /// The frame was a ping: a pong was published, nothing persisted.
    PongPublished,
}

/// Whether `m` is the system pong notice.
pub open spec fn is_pong_event(m: ChatMessage) -> bool {
    &&& m.message_type == MessageType::System
    &&& m.id is None
    &&& m.user@ == "System"@
    &&& m.message@ == "pong"@
    &&& m.created_at is None
}

/// Whether `m` is the live chat event for the persisted record `saved`
/// authored under `username`.
pub open spec fn is_chat_event_for(m: ChatMessage, saved: MessageResponse, username: Seq<char>) -> bool {
    &&& m.message_type == MessageType::User
    &&& m.id matches Some(i) && i@ == saved.id@
    &&& m.user@ == username
    &&& m.message@ == saved.content@
    &&& m.created_at matches Some(c) && c@ == saved.created_at@
}

/// One client connection's state machine.
pub struct Session {
    room_id: String,
    user_id: String,
    username: Option<String>,
    state: SessionState,
    topic: Option<usize>,
    subscription: Option<usize>,
    inbound_done: bool,
    outbound_done: bool,
}

impl Session {
    /// The room this session joined.
    pub closed spec fn room_id_spec(&self) -> Seq<char> {
        self.room_id@
    }

    /// The authenticated caller's id.
    pub closed spec fn user_id_spec(&self) -> Seq<char> {
        self.user_id@
    }

    /// The resolved display name, once the handshake resolved it.
    pub closed spec fn username_spec(&self) -> Option<Seq<char>> {
        match self.username {
            Option::Some(n) => Option::Some(n@),
            Option::None => Option::None,
        }
    }

    /// The session's lifecycle phase.
    pub closed spec fn state_spec(&self) -> SessionState {
        self.state
    }

    /// The registry handle of the joined room's topic, once attached.
    pub closed spec fn topic_spec(&self) -> Option<usize> {
        self.topic
    }

    /// The session's subscription slot on that topic, once attached.
    pub closed spec fn subscription_spec(&self) -> Option<usize> {
        self.subscription
    }

    /// Whether the inbound task has terminated.
    pub closed spec fn inbound_done_spec(&self) -> bool {
        self.inbound_done
    }

    /// Whether the outbound task has terminated.
    pub closed spec fn outbound_done_spec(&self) -> bool {
        self.outbound_done
    }

    /// The session invariant relative to the registry it attaches through:
    /// while streaming or closing, the session holds a live subscription on
    /// the topic indexed under its room id; before attaching it holds none.
    pub open spec fn wf(&self, reg: RoomRegistry) -> bool {
        match self.state_spec() {
            SessionState::Handshaking => {
                &&& self.topic_spec() is None
                &&& self.subscription_spec() is None
                &&& !self.inbound_done_spec()
                &&& !self.outbound_done_spec()
            },
            SessionState::Streaming => {
                &&& self.attached_wf(reg)
                &&& !self.inbound_done_spec()
                &&& !self.outbound_done_spec()
            },
            SessionState::Closing => {
                &&& self.attached_wf(reg)
                &&& self.inbound_done_spec() || self.outbound_done_spec()
            },
            SessionState::Closed => true,
        }
    }

    /// The attached part of the invariant: a resolved name, a valid topic
    /// handle for this session's room, and a live subscription slot.
    pub open spec fn attached_wf(&self, reg: RoomRegistry) -> bool {
        &&& self.username_spec() is Some
        &&& self.topic_spec() matches Some(h) && (h as int) < reg.topic_count() && reg.room_at(
            h as int,
        ) == self.room_id_spec() && (self.subscription_spec() matches Some(s) && (s as int)
            < reg.topic_at(h as int).sub_count() && reg.topic_at(h as int).sub_active(s as int))
    }

    /// The session's lifecycle phase, for the runtime to branch on.
    pub fn state(&self) -> (s: SessionState)
        ensures
            s == self.state_spec(),
    {
        self.state
    }

    /// The registry handle of the joined room's topic, once attached.
    pub fn topic_handle(&self) -> (h: Option<usize>)
        ensures
            h == self.topic_spec(),
    {
        self.topic
    }

    /// The session's subscription slot on that topic, once attached.
    pub fn subscription_handle(&self) -> (s: Option<usize>)
        ensures
            s == self.subscription_spec(),
    {
        self.subscription
    }

    /// A fresh session for one accepted connection, still handshaking.
    pub fn new(room_id: String, user_id: String) -> (s: Session)
        ensures
            s.state_spec() == SessionState::Handshaking,
            s.room_id_spec() == room_id@,
            s.user_id_spec() == user_id@,
            s.username_spec() is None,
            s.topic_spec() is None,
            s.subscription_spec() is None,
            !s.inbound_done_spec(),
            !s.outbound_done_spec(),
    {
        Session {
            room_id,
            user_id,
            username: None,
            state: SessionState::Handshaking,
            topic: None,
            subscription: None,
            inbound_done: false,
            outbound_done: false,
        }
    }

    /// Feeds in the identity lookup's outcome. An unresolved identity
    /// aborts the session: it goes straight to `Closed` having touched no
    /// topic, and the runtime closes the transport with no side effects.
    pub fn resolve_identity(&mut self, display_name: Option<String>) -> (ok: bool)
        requires
            old(self).state_spec() == SessionState::Handshaking,
            old(self).topic_spec() is None,
            old(self).subscription_spec() is None,
            !old(self).inbound_done_spec(),
            !old(self).outbound_done_spec(),
        ensures
            final(self).room_id_spec() == old(self).room_id_spec(),
            final(self).user_id_spec() == old(self).user_id_spec(),
            final(self).topic_spec() is None,
            final(self).subscription_spec() is None,
            ok <==> display_name is Some,
            ok ==> {
                &&& final(self).state_spec() == SessionState::Handshaking
                &&& display_name matches Some(n) && final(self).username_spec() == Some(n@)
                &&& !final(self).inbound_done_spec()
                &&& !final(self).outbound_done_spec()
            },
            !ok ==> final(self).state_spec() == SessionState::Closed,
    {
        match display_name {
            Some(name) => {
                self.username = Some(name);
                true
            },
            None => {
                self.state = SessionState::Closed;
                false
            },
        }
    }

    /// Enters `Streaming`: fetches or creates the room's topic and
    /// subscribes to it. Subscribing happens before the runtime loads the
    /// history snapshot, so the new subscription starts at the topic log's
    /// current end and misses no later publish.
    pub fn attach(&mut self, reg: &mut RoomRegistry)
        requires
            old(self).state_spec() == SessionState::Handshaking,
            old(self).wf(*old(reg)),
            old(self).username_spec() is Some,
            old(reg).wf(),
        ensures
            final(reg).wf(),
            final(self).wf(*final(reg)),
            final(self).state_spec() == SessionState::Streaming,
            final(self).room_id_spec() == old(self).room_id_spec(),
            final(self).user_id_spec() == old(self).user_id_spec(),
            final(self).username_spec() == old(self).username_spec(),
            final(self).topic_spec() matches Some(h) && {
                let t = final(reg).topic_at(h as int);
                &&& final(reg).room_at(h as int) == old(self).room_id_spec()
                &&& (old(reg).has_room(old(self).room_id_spec()) ==> t.log_seq() == old(reg).topic_at(h as int).log_seq() && (h as int) < old(reg).topic_count())
                &&& (!old(reg).has_room(old(self).room_id_spec()) ==> t.log_seq() == Seq::<
                    ChatMessage,
                >::empty() && h as int == old(reg).topic_count())
                &&& (final(self).subscription_spec() matches Some(s) && {
                    &&& t.sub_start(s as int) == t.log_seq().len()
                    &&& t.sub_cursor(s as int) == t.log_seq().len()
                    &&& t.sub_observed(s as int) == Seq::<ChatMessage>::empty()
                    &&& t.sub_active(s as int)
                })
            },
            forall|i: int|
                0 <= i < old(reg).topic_count() ==> #[trigger] final(reg).topic_at(i).log_seq()
                    == old(reg).topic_at(i).log_seq(),
            final(reg).topic_count() >= old(reg).topic_count(),
    {
        let h = reg.get_or_create_topic(&self.room_id);
        let s = reg.subscribe(h);
        self.topic = Some(h);
        self.subscription = Some(s);
        self.state = SessionState::Streaming;
    }

    /// Handles one decoded inbound client event while streaming.
    ///
    /// A chat send is validated: blank content is dropped on the spot —
    /// nothing persisted, nothing published, the session streams on. Valid
    /// content is handed back for persistence, with the topic untouched
    /// until the store acknowledges. A ping publishes the system pong to
    /// this session's topic and persists nothing.
    pub fn handle_client_event(&mut self, reg: &mut RoomRegistry, event: ClientEvent) -> (d:
        InboundDecision)
        requires
            old(self).state_spec() == SessionState::Streaming,
            old(self).wf(*old(reg)),
            old(reg).wf(),
        ensures
            final(reg).wf(),
            *final(self) == *old(self),
            final(self).wf(*final(reg)),
            final(reg).registry_shape_eq(*old(reg)),
            event matches ClientEvent::ChatSend { content } ==> {
                if trim_spec(content@).len() == 0 {
                    &&& d == InboundDecision::DroppedInvalid
                    &&& *final(reg) == *old(reg)
                } else {
                    &&& d matches InboundDecision::PersistChat(dto) && dto.room_id@ == old(self).room_id_spec() && dto.content@ == trim_spec(content@)
                    &&& *final(reg) == *old(reg)
                }
            },
            event == ClientEvent::Ping ==> {
                &&& d == InboundDecision::PongPublished
                &&& old(self).topic_spec() matches Some(h) && {
                    let oldlog = old(reg).topic_at(h as int).log_seq();
                    let newlog = final(reg).topic_at(h as int).log_seq();
                    &&& newlog == oldlog.push(newlog.last())
                    &&& is_pong_event(newlog.last())
                    &&& forall|i: int|
                        0 <= i < old(reg).topic_count() && i != h as int ==> #[trigger] final(reg).topic_at(i) == old(reg).topic_at(i)
                    &&& forall|j: int|
                        0 <= j < old(reg).topic_at(h as int).sub_count() ==> #[trigger] final(reg).topic_at(h as int).sub_state_eq(old(reg).topic_at(h as int), j)
                }
            },
    {
        match event {
            ClientEvent::ChatSend { content } => {
                let dto = MessageDto { room_id: self.room_id.clone(), content };
                match MessageDto::validate(dto) {
                    Ok(valid) => InboundDecision::PersistChat(valid),
                    Err(_) => InboundDecision::DroppedInvalid,
                }
            },
            ClientEvent::Ping => {
                let pong = ChatMessage {
                    message_type: MessageType::System,
                    id: None,
                    user: "System".to_owned(),
                    message: "pong".to_owned(),
                    created_at: None,
                };
                let h = match self.topic {
                    Some(h) => h,
                    None => vstd::pervasive::unreached(),
                };
                reg.publish(h, pong);
                proof {
                    match self.subscription {
                        Option::Some(s) => {
                            assert(reg.topic_at(h as int).sub_state_eq(
                                old(reg).topic_at(h as int),
                                s as int,
                            ));
                        },
                        Option::None => {},
                    }
                }
                InboundDecision::PongPublished
            },
        }
    }

    /// Feeds in the store's acknowledgement of a persisted chat message:
    /// publishes the live chat event — id, author display name, trimmed
    /// content, timestamp — to this session's topic, exactly once.
    pub fn chat_persisted(&mut self, reg: &mut RoomRegistry, saved: MessageResponse)
        requires
            old(self).state_spec() == SessionState::Streaming,
            old(self).wf(*old(reg)),
            old(reg).wf(),
        ensures
            final(reg).wf(),
            *final(self) == *old(self),
            final(self).wf(*final(reg)),
            final(reg).registry_shape_eq(*old(reg)),
            old(self).topic_spec() matches Some(h) && {
                let oldlog = old(reg).topic_at(h as int).log_seq();
                let newlog = final(reg).topic_at(h as int).log_seq();
                &&& newlog == oldlog.push(newlog.last())
                &&& old(self).username_spec() matches Some(u) && is_chat_event_for(
                    newlog.last(),
                    saved,
                    u,
                )
                &&& forall|i: int|
                    0 <= i < old(reg).topic_count() && i != h as int ==> #[trigger] final(reg).topic_at(i) == old(reg).topic_at(i)
                &&& forall|j: int|
                    0 <= j < old(reg).topic_at(h as int).sub_count() ==> #[trigger] final(reg).topic_at(h as int).sub_state_eq(old(reg).topic_at(h as int), j)
            },
    {
        let username = match &self.username {
            Some(n) => n.clone(),
            None => vstd::pervasive::unreached(),
        };
        let event = ChatMessage {
            message_type: MessageType::User,
            id: Some(saved.id),
            user: username,
            message: saved.content,
            created_at: Some(saved.created_at),
        };
        let h = match self.topic {
            Some(h) => h,
            None => vstd::pervasive::unreached(),
        };
        reg.publish(h, event);
        proof {
            match self.subscription {
                Option::Some(s) => {
                    assert(reg.topic_at(h as int).sub_state_eq(
                        old(reg).topic_at(h as int),
                        s as int,
                    ));
                },
                Option::None => {},
            }
        }
    }

    /// Reports that one of the two tasks finished (transport closed, write
    /// failed, or cancellation acknowledged). The first report moves the
    /// session to `Closing` and orders the other task cancelled; the second
    /// report — the cancelled task's acknowledgement — completes the
    /// shutdown, after which the runtime calls [`Session::finish`].
    pub fn task_finished(&mut self, side: TaskSide) -> (a: SessionAction)
        requires
            old(self).state_spec() == SessionState::Streaming || old(self).state_spec()
                == SessionState::Closing,
            side == TaskSide::Inbound ==> !old(self).inbound_done_spec(),
            side == TaskSide::Outbound ==> !old(self).outbound_done_spec(),
            old(self).state_spec() == SessionState::Closing ==> old(self).inbound_done_spec()
                || old(self).outbound_done_spec(),
            old(self).state_spec() == SessionState::Streaming ==> !old(self).inbound_done_spec()
                && !old(self).outbound_done_spec(),
        ensures
            final(self).state_spec() == SessionState::Closing,
            final(self).room_id_spec() == old(self).room_id_spec(),
            final(self).user_id_spec() == old(self).user_id_spec(),
            final(self).username_spec() == old(self).username_spec(),
            final(self).topic_spec() == old(self).topic_spec(),
            final(self).subscription_spec() == old(self).subscription_spec(),
            side == TaskSide::Inbound ==> final(self).inbound_done_spec() && final(self).outbound_done_spec() == old(self).outbound_done_spec(),
            side == TaskSide::Outbound ==> final(self).outbound_done_spec() && final(self).inbound_done_spec() == old(self).inbound_done_spec(),
            old(self).state_spec() == SessionState::Streaming ==> a == (if side
                == TaskSide::Inbound {
                SessionAction::CancelOutbound
            } else {
                SessionAction::CancelInbound
            }),
            old(self).state_spec() == SessionState::Closing ==> a
                == SessionAction::ShutdownComplete,
            a == SessionAction::ShutdownComplete <==> final(self).inbound_done_spec() && final(self).outbound_done_spec(),
    {
        match side {
            TaskSide::Inbound => {
                self.inbound_done = true;
            },
            TaskSide::Outbound => {
                self.outbound_done = true;
            },
        }
        let was_streaming = match self.state {
            SessionState::Streaming => true,
            _ => false,
        };
        self.state = SessionState::Closing;
        if was_streaming {
            match side {
                TaskSide::Inbound => SessionAction::CancelOutbound,
                TaskSide::Outbound => SessionAction::CancelInbound,
            }
        } else {
            SessionAction::ShutdownComplete
        }
    }

    /// What this session's subscription receives is an in-order selection
    /// of its room topic's publish log, drawn entirely from after the
    /// moment the session attached: the session sees publishes in publish
    /// order, and a session attached after some events never sees them.
    pub proof fn lemma_receives_later_publishes_in_order(&self, reg: &RoomRegistry)
        requires
            self.wf(*reg),
            reg.wf(),
            self.state_spec() == SessionState::Streaming || self.state_spec()
                == SessionState::Closing,
        ensures
            self.topic_spec() matches Some(h) && (self.subscription_spec() matches Some(s) && {
                let t = reg.topic_at(h as int);
                &&& crate::topic::is_subsequence_of(t.sub_observed(s as int), t.log_seq())
                &&& crate::topic::is_subsequence_of(
                    t.sub_observed(s as int),
                    t.log_seq().subrange(t.sub_start(s as int), t.log_seq().len() as int),
                )
            }),
    {
        match (self.topic_spec(), self.subscription_spec()) {
            (Option::Some(h), Option::Some(s)) => {
                reg.lemma_indexed_topic_wf(h as int);
                let t = reg.topic_at(h as int);
                t.lemma_observed_in_publish_order(s as int);
                t.lemma_no_retroactive_replay(s as int);
            },
            _ => {},
        }
    }

    /// Tears the session down once both tasks have terminated: releases the
    /// topic subscription and reaches the terminal `Closed` state. The
    /// topic itself stays in the registry for the next session to the same
    /// room.
    pub fn finish(&mut self, reg: &mut RoomRegistry)
        requires
            old(self).state_spec() == SessionState::Closing,
            old(self).inbound_done_spec(),
            old(self).outbound_done_spec(),
            old(self).wf(*old(reg)),
            old(reg).wf(),
        ensures
            final(reg).wf(),
            final(self).wf(*final(reg)),
            final(self).state_spec() == SessionState::Closed,
            final(reg).registry_shape_eq(*old(reg)),
            old(self).topic_spec() matches Some(h) && old(self).subscription_spec() matches Some(
                s,
            ) && {
                &&& !final(reg).topic_at(h as int).sub_active(s as int)
                &&& final(reg).topic_at(h as int).log_seq() == old(reg).topic_at(
                    h as int,
                ).log_seq()
                &&& final(reg).topic_at(h as int).sub_count() == old(reg).topic_at(
                    h as int,
                ).sub_count()
                &&& forall|i: int|
                    0 <= i < old(reg).topic_count() && i != h as int ==> #[trigger] final(reg).topic_at(i) == old(reg).topic_at(i)
                &&& forall|j: int|
                    0 <= j < old(reg).topic_at(h as int).sub_count() && j != s as int
                        ==> #[trigger] final(reg).topic_at(h as int).sub_state_eq(
                        old(reg).topic_at(h as int),
                        j,
                    )
            },
    {
        let h = match self.topic {
            Some(h) => h,
            None => vstd::pervasive::unreached(),
        };
        let s = match self.subscription {
            Some(s) => s,
            None => vstd::pervasive::unreached(),
        };
        reg.unsubscribe(h, s);
        self.state = SessionState::Closed;
    }
}

} // verus!
