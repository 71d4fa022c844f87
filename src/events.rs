use vstd::prelude::*;

use crate::text::opt_view;

verus! {

/// What a logged chat event records.
#[derive(Debug, Clone, Copy, PartialEq, Eq, Structural)]
pub enum ChatEventType {
    Message,
    UserJoined,
    UserLeft,
}

/// One entry of the durable chat log. `user_id` is absent for anonymous
/// participants; `timestamp` is in milliseconds since the Unix epoch.
#[derive(Debug)]
pub struct ChatEvent {
    pub user_id: Option<String>,
    pub username: String,
    pub event_type: ChatEventType,
    pub message: Option<String>,
    pub timestamp: i64,
}

pub struct ChatEventView {
    pub user_id: Option<Seq<char>>,
    pub username: Seq<char>,
    pub event_type: ChatEventType,
    pub message: Option<Seq<char>>,
    pub timestamp: i64,
}

impl View for ChatEvent {
    type V = ChatEventView;

    open spec fn view(&self) -> ChatEventView {
        ChatEventView {
            user_id: opt_view(self.user_id),
            username: self.username@,
            event_type: self.event_type,
            message: opt_view(self.message),
            timestamp: self.timestamp,
        }
    }
}

/// A copy of an optional string.
pub fn copy_opt(o: &Option<String>) -> (r: Option<String>)
    ensures
        opt_view(r) == opt_view(*o),
{
    match o {
        Some(s) => Some(s.clone()),
        None => None,
    }
}

impl ChatEvent {
    /// A field-by-field copy.
    pub fn copy(&self) -> (r: ChatEvent)
        ensures
            r@ == self@,
    {
        ChatEvent {
            user_id: copy_opt(&self.user_id),
            username: self.username.clone(),
            event_type: self.event_type,
            message: copy_opt(&self.message),
            timestamp: self.timestamp,
        }
    }
}

/// The payload of a chat message on the wire. `user_id` is absent for
/// anonymous senders; `timestamp` is an RFC 3339 date and time.
#[derive(Debug)]
pub struct ChatMessage {
    pub user_id: Option<String>,
    pub username: String,
    pub message: String,
    pub timestamp: String,
}

/// The envelope of every frame sent to connected clients.
#[derive(Debug)]
pub enum WsMessage {
    UserJoined { username: String },
    UserLeft { username: String },
    Message(ChatMessage),
}

pub enum WsMessageView {
    UserJoined { username: Seq<char> },
    UserLeft { username: Seq<char> },
    Message {
        user_id: Option<Seq<char>>,
        username: Seq<char>,
        message: Seq<char>,
        timestamp: Seq<char>,
    },
}

impl View for WsMessage {
    type V = WsMessageView;

    open spec fn view(&self) -> WsMessageView {
        match self {
            WsMessage::UserJoined { username } => WsMessageView::UserJoined { username: username@ },
            WsMessage::UserLeft { username } => WsMessageView::UserLeft { username: username@ },
            WsMessage::Message(m) => WsMessageView::Message {
                user_id: opt_view(m.user_id),
                username: m.username@,
                message: m.message@,
                timestamp: m.timestamp@,
            },
        }
    }
}

/// The most recent `limit` entries of `log`, oldest first.
pub open spec fn recent_spec(log: Seq<ChatEventView>, limit: nat) -> Seq<ChatEventView> {
    let k = if limit < log.len() {
        limit as int
    } else {
        log.len() as int
    };
    log.subrange(log.len() - k, log.len() as int)
}

/// The element-wise views of a sequence of events.
pub open spec fn event_views(s: Seq<ChatEvent>) -> Seq<ChatEventView> {
    s.map_values(|e: ChatEvent| e@)
}

/// An append-only, in-memory chat log, kept in the order of appending.
pub struct EventLog {
    events: Vec<ChatEvent>,
}

impl View for EventLog {
    type V = Seq<ChatEventView>;

    closed spec fn view(&self) -> Seq<ChatEventView> {
        event_views(self.events@)
    }
}

impl EventLog {
    /// An empty log.
    pub fn new() -> (r: EventLog)
        ensures
            r@ == Seq::<ChatEventView>::empty(),
    {
        let r = EventLog { events: Vec::new() };
        proof {
            assert(r@ =~= Seq::<ChatEventView>::empty());
        }
        r
    }

    /// Number of events logged so far.
    pub fn len(&self) -> (r: usize)
        ensures
            r == self@.len(),
    {
        self.events.len()
    }

    /// Appends `event` at the end of the log and hands back a copy of it.
    pub fn append(&mut self, event: ChatEvent) -> (r: ChatEvent)
        ensures
            final(self)@ == old(self)@.push(event@),
            r@ == event@,
    {
        let r = event.copy();
        self.events.push(event);
        proof {
            assert(event_views(self.events@) =~= event_views(old(self).events@).push(event@));
        }
        r
    }

    /// The most recent `limit` events, in chronological order.
    pub fn recent(&self, limit: usize) -> (r: Vec<ChatEvent>)
        ensures
            event_views(r@) == recent_spec(self@, limit as nat),
    {
        let n = self.events.len();
        let k = if limit < n {
            limit
        } else {
            n
        };
        let start = n - k;
        let mut out: Vec<ChatEvent> = Vec::new();
        let mut i = start;
        while i < n
            invariant
                n == self.events@.len(),
                start <= i <= n,
                event_views(out@) == event_views(self.events@).subrange(start as int, i as int),
            decreases n - i,
        {
            let e = self.events[i].copy();
            let ghost before = out@;
            out.push(e);
            proof {
                assert(event_views(out@) =~= event_views(before).push(e@));
                assert(event_views(self.events@)[i as int] == self.events@[i as int]@);
                assert(event_views(out@) =~= event_views(self.events@).subrange(
                    start as int,
                    i + 1,
                ));
            }
            i = i + 1;
        }
        out
    }
}

/// Puts rows that storage returned newest first into chronological order.
pub fn chronological(newest_first: Vec<ChatEvent>) -> (r: Vec<ChatEvent>)
    ensures
        event_views(r@) == event_views(newest_first@).reverse(),
{
    let mut rows = newest_first;
    let ghost incoming = rows@;
    let mut out: Vec<ChatEvent> = Vec::new();
    while rows.len() > 0
        invariant
            incoming.len() == rows@.len() + out@.len(),
            rows@ == incoming.subrange(0, rows@.len() as int),
            event_views(out@) == event_views(incoming).reverse().subrange(0, out@.len() as int),
        decreases rows@.len(),
    {
        let e = rows.pop().unwrap();
        out.push(e);
        proof {
            assert(event_views(out@) =~= event_views(incoming).reverse().subrange(
                0,
                out@.len() as int,
            ));
        }
    }
    proof {
        assert(event_views(out@) =~= event_views(incoming).reverse());
    }
    out
}

/// Appending events one after another and then asking for at least that many
/// recent events returns them last, in the order in which they were appended;
/// on an empty log it returns exactly them.
pub proof fn lemma_recent_returns_appended(
    log: Seq<ChatEventView>,
    e1: ChatEventView,
    e2: ChatEventView,
    e3: ChatEventView,
    limit: nat,
)
    requires
        limit >= 3,
    ensures
        ({
            let r = recent_spec(log.push(e1).push(e2).push(e3), limit);
            &&& r.len() >= 3
            &&& r.subrange(r.len() - 3, r.len() as int) == seq![e1, e2, e3]
            &&& log.len() == 0 ==> r == seq![e1, e2, e3]
        }),
{
    let full = log.push(e1).push(e2).push(e3);
    let r = recent_spec(full, limit);
    assert(r.subrange(r.len() - 3, r.len() as int) =~= seq![e1, e2, e3]);
    if log.len() == 0 {
        assert(r =~= seq![e1, e2, e3]);
    }
}

} // verus!
