use vstd::prelude::*;

use crate::events::{copy_opt, ChatEvent, ChatEventType, ChatEventView, ChatMessage, WsMessage, WsMessageView};
use crate::identity::{ClientIdentity, IdentityView};

verus! {

/// Where a connection stands in its life.
#[derive(Debug, Clone, Copy, PartialEq, Eq, Structural)]
pub enum Phase {
    Connecting,
    Authenticating,
    Active,
    Closing,
    Closed,
}

/// What happens to a connection. Instants are milliseconds since the Unix
/// epoch; `at_text` is the same instant in RFC 3339.
#[derive(Debug)]
pub enum ConnEvent {
    /// The wire connection became a message channel.
    Upgraded,
    /// The handshake's credential was resolved to an identity.
    Admitted { identity: ClientIdentity, at: i64 },
    /// A text frame arrived from the client.
    Frame { text: String, at: i64, at_text: String },
    /// The inbound pump stopped (read failure or close).
    InboundEnded { at: i64 },
    /// The outbound pump stopped (write failure).
    OutboundEnded { at: i64 },
    /// The leave notice has been handed on.
    Finished,
}

pub enum ConnEventView {
    Upgraded,
    Admitted { identity: IdentityView, at: i64 },
    Frame { text: Seq<char>, at: i64, at_text: Seq<char> },
    InboundEnded { at: i64 },
    OutboundEnded { at: i64 },
    Finished,
}

impl View for ConnEvent {
    type V = ConnEventView;

    open spec fn view(&self) -> ConnEventView {
        match self {
            ConnEvent::Upgraded => ConnEventView::Upgraded,
            ConnEvent::Admitted { identity, at } => ConnEventView::Admitted {
                identity: identity@,
                at: *at,
            },
            ConnEvent::Frame { text, at, at_text } => ConnEventView::Frame {
                text: text@,
                at: *at,
                at_text: at_text@,
            },
            ConnEvent::InboundEnded { at } => ConnEventView::InboundEnded { at: *at },
            ConnEvent::OutboundEnded { at } => ConnEventView::OutboundEnded { at: *at },
            ConnEvent::Finished => ConnEventView::Finished,
        }
    }
}

/// Work that the connection's driver must carry out, in order.
#[derive(Debug)]
pub enum Action {
    /// Enter the participant in the registry.
    Register { client_id: String, display_name: String },
    /// Append the event to the durable log (failures are only logged).
    Persist(ChatEvent),
    /// Hand the message to the fanout channel.
    Publish(WsMessage),
    /// Cancel whichever pump is still running.
    CancelPumps,
    /// Remove the participant from the registry.
    Deregister { client_id: String },
}

pub enum ActionView {
    Register { client_id: Seq<char>, display_name: Seq<char> },
    Persist(ChatEventView),
    Publish(WsMessageView),
    CancelPumps,
    Deregister { client_id: Seq<char> },
}

impl View for Action {
    type V = ActionView;

    open spec fn view(&self) -> ActionView {
        match self {
            Action::Register { client_id, display_name } => ActionView::Register {
                client_id: client_id@,
                display_name: display_name@,
            },
            Action::Persist(e) => ActionView::Persist(e@),
            Action::Publish(m) => ActionView::Publish(m@),
            Action::CancelPumps => ActionView::CancelPumps,
            Action::Deregister { client_id } => ActionView::Deregister { client_id: client_id@ },
        }
    }
}

pub open spec fn action_views(s: Seq<Action>) -> Seq<ActionView> {
    s.map_values(|a: Action| a@)
}

pub struct ConnView {
    pub phase: Phase,
    pub identity: Option<IdentityView>,
}

/// The per-connection state machine.
pub struct Connection {
    phase: Phase,
    identity: Option<ClientIdentity>,
}

impl View for Connection {
    type V = ConnView;

    closed spec fn view(&self) -> ConnView {
        ConnView {
            phase: self.phase,
            identity: match self.identity {
                Some(i) => Some(i@),
                None => None,
            },
        }
    }
}

/// The logged event for a participant at an instant.
pub open spec fn presence_event(
    id: IdentityView,
    kind: ChatEventType,
    message: Option<Seq<char>>,
    at: i64,
) -> ChatEventView {
    ChatEventView {
        user_id: id.user_id,
        username: id.display_name,
        event_type: kind,
        message,
        timestamp: at,
    }
}

/// The actions of leaving: cancel the other pump, deregister, log and
/// announce the departure.
pub open spec fn leave_actions(id: IdentityView, at: i64) -> Seq<ActionView> {
    seq![
        ActionView::CancelPumps,
        ActionView::Deregister { client_id: id.client_id },
        ActionView::Persist(presence_event(id, ChatEventType::UserLeft, None, at)),
        ActionView::Publish(WsMessageView::UserLeft { username: id.display_name }),
    ]
}

/// One transition: the next state and the actions it asks for.
pub open spec fn step_spec(c: ConnView, e: ConnEventView) -> (ConnView, Seq<ActionView>) {
    match (c.phase, e) {
        (Phase::Connecting, ConnEventView::Upgraded) => (
            ConnView { phase: Phase::Authenticating, identity: None },
            Seq::empty(),
        ),
        (Phase::Authenticating, ConnEventView::Admitted { identity, at }) => (
            ConnView { phase: Phase::Active, identity: Some(identity) },
            seq![
                ActionView::Register {
                    client_id: identity.client_id,
                    display_name: identity.display_name,
                },
                ActionView::Persist(presence_event(identity, ChatEventType::UserJoined, None, at)),
                ActionView::Publish(WsMessageView::UserJoined { username: identity.display_name }),
            ],
        ),
        (Phase::Active, ConnEventView::Frame { text, at, at_text }) => match c.identity {
            Some(id) => (
                c,
                seq![
                    ActionView::Persist(presence_event(id, ChatEventType::Message, Some(text), at)),
                    ActionView::Publish(
                        WsMessageView::Message {
                            user_id: id.user_id,
                            username: id.display_name,
                            message: text,
                            timestamp: at_text,
                        },
                    ),
                ],
            ),
            None => (c, Seq::empty()),
        },
        (Phase::Active, ConnEventView::InboundEnded { at }) => match c.identity {
            Some(id) => (ConnView { phase: Phase::Closing, identity: c.identity }, leave_actions(id, at)),
            None => (c, Seq::empty()),
        },
        (Phase::Active, ConnEventView::OutboundEnded { at }) => match c.identity {
            Some(id) => (ConnView { phase: Phase::Closing, identity: c.identity }, leave_actions(id, at)),
            None => (c, Seq::empty()),
        },
        (Phase::Closing, ConnEventView::Finished) => (
            ConnView { phase: Phase::Closed, identity: c.identity },
            Seq::empty(),
        ),
        (Phase::Connecting, ConnEventView::InboundEnded { .. }) => (
            ConnView { phase: Phase::Closed, identity: None },
            Seq::empty(),
        ),
        (Phase::Connecting, ConnEventView::OutboundEnded { .. }) => (
            ConnView { phase: Phase::Closed, identity: None },
            Seq::empty(),
        ),
        (Phase::Authenticating, ConnEventView::InboundEnded { .. }) => (
            ConnView { phase: Phase::Closed, identity: None },
            Seq::empty(),
        ),
        (Phase::Authenticating, ConnEventView::OutboundEnded { .. }) => (
            ConnView { phase: Phase::Closed, identity: None },
            Seq::empty(),
        ),
        _ => (c, Seq::empty()),
    }
}

/// The state of a new connection.
pub open spec fn initial_conn() -> ConnView {
    ConnView { phase: Phase::Connecting, identity: None }
}

/// The state after a run of events and every action asked for on the way.
pub open spec fn run_spec(c: ConnView, events: Seq<ConnEventView>) -> (ConnView, Seq<ActionView>)
    decreases events.len(),
{
    if events.len() == 0 {
        (c, Seq::empty())
    } else {
        let (c1, a1) = run_spec(c, events.drop_last());
        let (c2, a2) = step_spec(c1, events.last());
        (c2, a1 + a2)
    }
}

pub open spec fn is_register(a: ActionView) -> bool {
    a is Register
}

pub open spec fn is_deregister(a: ActionView) -> bool {
    a is Deregister
}

/// How many registrations a sequence of actions holds.
pub open spec fn count_registers(s: Seq<ActionView>) -> nat
    decreases s.len(),
{
    if s.len() == 0 {
        0
    } else {
        count_registers(s.drop_last()) + if is_register(s.last()) {
            1nat
        } else {
            0nat
        }
    }
}

/// How many deregistrations a sequence of actions holds.
pub open spec fn count_deregisters(s: Seq<ActionView>) -> nat
    decreases s.len(),
{
    if s.len() == 0 {
        0
    } else {
        count_deregisters(s.drop_last()) + if is_deregister(s.last()) {
            1nat
        } else {
            0nat
        }
    }
}

proof fn lemma_counts_concat(s: Seq<ActionView>, t: Seq<ActionView>)
    ensures
        count_registers(s + t) == count_registers(s) + count_registers(t),
        count_deregisters(s + t) == count_deregisters(s) + count_deregisters(t),
    decreases t.len(),
{
    if t.len() > 0 {
        lemma_counts_concat(s, t.drop_last());
        assert((s + t).drop_last() =~= s + t.drop_last());
    }
}

proof fn lemma_counts_small(s: Seq<ActionView>)
    requires
        s.len() <= 4,
    ensures
        count_registers(s) == (if s.len() > 0 && is_register(s[0]) { 1nat } else { 0nat }) + (if s.len() > 1 && is_register(s[1]) { 1nat } else { 0nat }) + (if s.len() > 2 && is_register(s[2]) { 1nat } else { 0nat }) + (if s.len() > 3 && is_register(s[3]) { 1nat } else { 0nat }),
        count_deregisters(s) == (if s.len() > 0 && is_deregister(s[0]) { 1nat } else { 0nat }) + (if s.len() > 1 && is_deregister(s[1]) { 1nat } else { 0nat }) + (if s.len() > 2 && is_deregister(s[2]) { 1nat } else { 0nat }) + (if s.len() > 3 && is_deregister(s[3]) { 1nat } else { 0nat }),
    decreases s.len(),
{
    if s.len() > 0 {
        lemma_counts_small(s.drop_last());
    }
}

/// What holds of every reachable state and the actions that led to it.
pub open spec fn membership_consistent(c: ConnView, acts: Seq<ActionView>) -> bool {
    match c.phase {
        Phase::Connecting | Phase::Authenticating => count_registers(acts) == 0
            && count_deregisters(acts) == 0 && c.identity is None,
        Phase::Active => count_registers(acts) == 1 && count_deregisters(acts) == 0
            && c.identity is Some,
        Phase::Closing | Phase::Closed => count_registers(acts) == count_deregisters(acts)
            && count_deregisters(acts) <= 1,
    }
}

proof fn lemma_step_keeps_consistent(c: ConnView, acts: Seq<ActionView>, e: ConnEventView)
    requires
        membership_consistent(c, acts),
    ensures
        membership_consistent(step_spec(c, e).0, acts + step_spec(c, e).1),
{
    let (c2, a2) = step_spec(c, e);
    lemma_counts_concat(acts, a2);
    lemma_counts_small(a2);
}

/// Whatever happens to a connection, and in whatever order the pumps stop,
/// it is registered at most once and deregistered at most once; once it is
/// closing or closed, it has been deregistered exactly as often as it was
/// registered, and while it is active it is registered and not deregistered.
pub proof fn lemma_deregistered_exactly_once(events: Seq<ConnEventView>)
    ensures
        ({
            let (c, acts) = run_spec(initial_conn(), events);
            &&& count_registers(acts) <= 1
            &&& count_deregisters(acts) <= 1
            &&& (c.phase == Phase::Closing || c.phase == Phase::Closed) ==> count_deregisters(
                acts,
            ) == count_registers(acts)
            &&& c.phase == Phase::Active ==> count_registers(acts) == 1 && count_deregisters(acts)
                == 0
        }),
    decreases events.len(),
{
    lemma_run_consistent(events);
}

proof fn lemma_run_consistent(events: Seq<ConnEventView>)
    ensures
        membership_consistent(run_spec(initial_conn(), events).0, run_spec(initial_conn(), events).1),
    decreases events.len(),
{
    if events.len() > 0 {
        lemma_run_consistent(events.drop_last());
        let (c1, a1) = run_spec(initial_conn(), events.drop_last());
        lemma_step_keeps_consistent(c1, a1, events.last());
    }
}

impl Connection {
    /// A connection that has not been upgraded yet.
    pub fn new() -> (r: Connection)
        ensures
            r@ == initial_conn(),
    {
        Connection { phase: Phase::Connecting, identity: None }
    }

    /// The current phase.
    pub fn phase(&self) -> (r: Phase)
        ensures
            r == self@.phase,
    {
        self.phase
    }

    /// Takes one event and returns the actions it calls for.
    pub fn handle(&mut self, event: ConnEvent) -> (r: Vec<Action>)
        ensures
            final(self)@ == step_spec(old(self)@, event@).0,
            action_views(r@) == step_spec(old(self)@, event@).1,
    {
        let mut out: Vec<Action> = Vec::new();
        match event {
            ConnEvent::Upgraded => {
                if self.phase == Phase::Connecting {
                    self.phase = Phase::Authenticating;
                    self.identity = None;
                }
            },
            ConnEvent::Admitted { identity, at } => {
                if self.phase == Phase::Authenticating {
                    out.push(
                        Action::Register {
                            client_id: identity.client_id.clone(),
                            display_name: identity.display_name.clone(),
                        },
                    );
                    out.push(
                        Action::Persist(
                            ChatEvent {
                                user_id: copy_opt(&identity.user_id),
                                username: identity.display_name.clone(),
                                event_type: ChatEventType::UserJoined,
                                message: None,
                                timestamp: at,
                            },
                        ),
                    );
                    out.push(
                        Action::Publish(
                            WsMessage::UserJoined { username: identity.display_name.clone() },
                        ),
                    );
                    self.phase = Phase::Active;
                    self.identity = Some(identity);
                    proof {
                        assert(action_views(out@) =~= step_spec(old(self)@, event@).1);
                    }
                }
            },
            ConnEvent::Frame { text, at, at_text } => {
                if self.phase == Phase::Active {
                    match &self.identity {
                        Some(id) => {
                            out.push(
                                Action::Persist(
                                    ChatEvent {
                                        user_id: copy_opt(&id.user_id),
                                        username: id.display_name.clone(),
                                        event_type: ChatEventType::Message,
                                        message: Some(text.clone()),
                                        timestamp: at,
                                    },
                                ),
                            );
                            out.push(
                                Action::Publish(
                                    WsMessage::Message(
                                        ChatMessage {
                                            user_id: copy_opt(&id.user_id),
                                            username: id.display_name.clone(),
                                            message: text,
                                            timestamp: at_text,
                                        },
                                    ),
                                ),
                            );
                            proof {
                                assert(action_views(out@) =~= step_spec(old(self)@, event@).1);
                            }
                        },
                        None => {},
                    }
                }
            },
            ConnEvent::InboundEnded { at } => {
                self.pump_ended(at, &mut out);
            },
            ConnEvent::OutboundEnded { at } => {
                self.pump_ended(at, &mut out);
            },
            ConnEvent::Finished => {
                if self.phase == Phase::Closing {
                    self.phase = Phase::Closed;
                }
            },
        }
        proof {
            if out@.len() == 0 {
                assert(action_views(out@) =~= Seq::<ActionView>::empty());
            }
        }
        out
    }

    /// The first pump to stop ends an active connection; a stop before
    /// admission closes it without further work; any later stop is ignored.
    fn pump_ended(&mut self, at: i64, out: &mut Vec<Action>)
        requires
            old(out)@.len() == 0,
        ensures
            final(self)@ == step_spec(old(self)@, ConnEventView::InboundEnded { at }).0,
            action_views(final(out)@) == step_spec(old(self)@, ConnEventView::InboundEnded { at }).1,
            final(self)@ == step_spec(old(self)@, ConnEventView::OutboundEnded { at }).0,
            action_views(final(out)@) == step_spec(old(self)@, ConnEventView::OutboundEnded { at }).1,
    {
        if self.phase == Phase::Connecting || self.phase == Phase::Authenticating {
            self.phase = Phase::Closed;
            self.identity = None;
        } else if self.phase == Phase::Active {
            match &self.identity {
                Some(id) => {
                    out.push(Action::CancelPumps);
                    out.push(Action::Deregister { client_id: id.client_id.clone() });
                    out.push(
                        Action::Persist(
                            ChatEvent {
                                user_id: copy_opt(&id.user_id),
                                username: id.display_name.clone(),
                                event_type: ChatEventType::UserLeft,
                                message: None,
                                timestamp: at,
                            },
                        ),
                    );
                    out.push(
                        Action::Publish(WsMessage::UserLeft { username: id.display_name.clone() }),
                    );
                    self.phase = Phase::Closing;
                    proof {
                        assert(action_views(out@) =~= step_spec(
                            old(self)@,
                            ConnEventView::InboundEnded { at },
                        ).1);
                    }
                },
                None => {},
            }
        }
        proof {
            if out@.len() == 0 {
                assert(action_views(out@) =~= Seq::<ActionView>::empty());
            }
        }
    }
}

} // verus!
