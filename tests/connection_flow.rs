use netron_chat::auth::{AuthError, TokenStore};
use netron_chat::connection::{Action, ConnEvent, Connection, Phase};
use netron_chat::email::EmailAddress;
use netron_chat::events::{ChatEvent, ChatEventType, EventLog, WsMessage};
use netron_chat::identity::{identify, resolve_identity, session_cookie, ClientIdentity};
use netron_chat::registry::Registry;
use netron_chat::session::{SurrealAdapter, SessionStore, User};
use netron_chat::theme::Theme;

fn anon(id: &str, name: &str) -> ClientIdentity {
    ClientIdentity { client_id: id.to_string(), display_name: name.to_string(), user_id: None }
}

/// Carries out a connection's actions against the registry and the log, and
/// returns what it asked to publish.
fn drive(
    conn: &mut Connection,
    event: ConnEvent,
    registry: &mut Registry,
    log: &mut EventLog,
) -> Vec<WsMessage> {
    let mut published = Vec::new();
    for action in conn.handle(event) {
        registry.apply(&action);
        match action {
            Action::Persist(e) => {
                log.append(e);
            }
            Action::Publish(m) => published.push(m),
            _ => {}
        }
    }
    published
}

fn active(
    identity: ClientIdentity,
    registry: &mut Registry,
    log: &mut EventLog,
) -> (Connection, Vec<WsMessage>) {
    let mut c = Connection::new();
    assert!(drive(&mut c, ConnEvent::Upgraded, registry, log).is_empty());
    assert_eq!(c.phase(), Phase::Authenticating);
    let out = drive(&mut c, ConnEvent::Admitted { identity, at: 1 }, registry, log);
    assert_eq!(c.phase(), Phase::Active);
    (c, out)
}

#[test]
fn both_pumps_failing_deregister_once() {
    let mut registry = Registry::new();
    let mut log = EventLog::new();
    let (mut c, joined) = active(anon("anon_1", "Anonymous1"), &mut registry, &mut log);
    assert!(matches!(&joined[0], WsMessage::UserJoined { username } if username == "Anonymous1"));
    assert!(registry.contains("anon_1"));
    assert_eq!(registry.len(), 1);

    let actions = c.handle(ConnEvent::OutboundEnded { at: 5 });
    let deregistrations = actions.iter().filter(|a| matches!(a, Action::Deregister { .. })).count();
    assert_eq!(deregistrations, 1);
    assert!(matches!(actions[0], Action::CancelPumps));
    for a in &actions {
        registry.apply(a);
    }
    assert_eq!(c.phase(), Phase::Closing);
    assert!(!registry.contains("anon_1"));

    let again = c.handle(ConnEvent::InboundEnded { at: 5 });
    assert!(again.is_empty());
    assert!(c.handle(ConnEvent::Finished).is_empty());
    assert_eq!(c.phase(), Phase::Closed);
    assert!(c.handle(ConnEvent::OutboundEnded { at: 6 }).is_empty());
    assert_eq!(registry.len(), 0);
}

#[test]
fn failure_before_admission_registers_nothing() {
    let mut registry = Registry::new();
    let mut log = EventLog::new();
    let mut c = Connection::new();
    assert!(drive(&mut c, ConnEvent::Upgraded, &mut registry, &mut log).is_empty());
    assert!(drive(&mut c, ConnEvent::InboundEnded { at: 1 }, &mut registry, &mut log).is_empty());
    assert_eq!(c.phase(), Phase::Closed);
    let late = drive(&mut c, ConnEvent::Admitted { identity: anon("x", "y"), at: 2 }, &mut registry, &mut log);
    assert!(late.is_empty());
    assert_eq!(registry.len(), 0);
    assert_eq!(log.len(), 0);
}

#[test]
fn frames_are_logged_and_published() {
    let mut registry = Registry::new();
    let mut log = EventLog::new();
    let id = ClientIdentity {
        client_id: "user:7".to_string(),
        display_name: "Ada".to_string(),
        user_id: Some("user:7".to_string()),
    };
    let (mut c, _) = active(id, &mut registry, &mut log);
    let out = drive(
        &mut c,
        ConnEvent::Frame { text: "hi".to_string(), at: 9, at_text: "1970-01-01T00:00:00.009+00:00".to_string() },
        &mut registry,
        &mut log,
    );
    match &out[0] {
        WsMessage::Message(m) => {
            assert_eq!(m.user_id.as_deref(), Some("user:7"));
            assert_eq!(m.username, "Ada");
            assert_eq!(m.message, "hi");
            assert_eq!(m.timestamp, "1970-01-01T00:00:00.009+00:00");
        }
        other => panic!("unexpected {:?}", other),
    }
    let history = log.recent(10);
    assert_eq!(history.len(), 2);
    assert_eq!(history[1].event_type, ChatEventType::Message);
    assert_eq!(history[1].message.as_deref(), Some("hi"));
    assert_eq!(history[1].timestamp, 9);
}

#[test]
fn later_client_sees_only_live_traffic_but_history_has_all() {
    let (tx, _) = tokio::sync::broadcast::channel::<String>(16);
    let mut registry = Registry::new();
    let mut log = EventLog::new();

    let mut rx_a = tx.subscribe();
    let (mut a, joined) = active(anon("anon_1", "AnonymousA"), &mut registry, &mut log);
    for m in joined {
        tx.send(format!("{:?}", m)).unwrap();
    }
    let sent = drive(
        &mut a,
        ConnEvent::Frame { text: "hello".to_string(), at: 2, at_text: "t".to_string() },
        &mut registry,
        &mut log,
    );
    for m in sent {
        tx.send(format!("{:?}", m)).unwrap();
    }

    let mut rx_b = tx.subscribe();
    let (_b, joined_b) = active(anon("anon_2", "AnonymousB"), &mut registry, &mut log);
    for m in joined_b {
        tx.send(format!("{:?}", m)).unwrap();
    }
    let first_for_b = rx_b.try_recv().unwrap();
    assert!(first_for_b.contains("AnonymousB"));
    assert!(rx_b.try_recv().is_err());
    assert_eq!(rx_a.try_recv().unwrap().contains("AnonymousA"), true);
    assert!(rx_a.try_recv().unwrap().contains("hello"));

    let history = log.recent(50);
    assert_eq!(history.len(), 3);
    assert_eq!(history[0].event_type, ChatEventType::UserJoined);
    assert_eq!(history[0].username, "AnonymousA");
    assert_eq!(history[1].message.as_deref(), Some("hello"));
    assert_eq!(history[2].username, "AnonymousB");
}

#[test]
fn unknown_session_connects_anonymously() {
    let store = SurrealAdapter { users: vec![], tokens: TokenStore::new(), sessions: SessionStore::new() };
    let cookies = vec![("my_session_token".to_string(), "no-such-token".to_string())];
    let (id, status) = identify(&store, &cookies, 1_700_000_000_123);
    assert_eq!(status, Some(AuthError::Unauthenticated));
    assert_eq!(id.client_id, "anon_1700000000123");
    assert_eq!(id.display_name, "Anonymous1700");
    assert!(id.user_id.is_none());
}

#[test]
fn known_session_connects_as_user() {
    let mut sessions = SessionStore::new();
    let s = sessions.create("user:3".to_string(), 0);
    let store = SurrealAdapter {
        users: vec![User {
            id: "user:3".to_string(),
            name: "Cy".to_string(),
            email: EmailAddress("cy@example.com".to_string()),
            email_verified: None,
            image: None,
            superadmin: None,
            theme: Theme::Dark,
        }],
        tokens: TokenStore::new(),
        sessions,
    };
    let cookies = vec![
        ("theme".to_string(), "dark".to_string()),
        ("session_token".to_string(), s.session_token.clone()),
    ];
    let (id, status) = identify(&store, &cookies, 5);
    assert_eq!(status, None);
    assert_eq!(id.client_id, "user:3");
    assert_eq!(id.display_name, "Cy");
    assert_eq!(id.user_id.as_deref(), Some("user:3"));
}

#[test]
fn missing_cookie_connects_anonymously() {
    let store = SurrealAdapter { users: vec![], tokens: TokenStore::new(), sessions: SessionStore::new() };
    let (id, status) = identify(&store, &vec![], 42);
    assert_eq!(status, Some(AuthError::Unauthenticated));
    assert_eq!(id.client_id, "anon_42");
    assert_eq!(id.display_name, "Anonymous42");
}

#[test]
fn session_cookie_picks_first_matching_name() {
    let cookies = vec![
        ("a".to_string(), "1".to_string()),
        ("x_session_token_y".to_string(), "2".to_string()),
        ("session_token".to_string(), "3".to_string()),
    ];
    assert_eq!(session_cookie(&cookies).as_deref(), Some("2"));
    assert_eq!(session_cookie(&vec![("session".to_string(), "1".to_string())]), None);
}

#[test]
fn negative_instant_gives_signed_anonymous_id() {
    let id = resolve_identity(&Err(AuthError::Unauthenticated), -5);
    assert_eq!(id.client_id, "anon_-5");
    assert_eq!(id.display_name, "Anonymous-5");
}

#[test]
fn event_log_round_trip() {
    let mut log = EventLog::new();
    for (i, name) in ["e1", "e2", "e3"].iter().enumerate() {
        log.append(ChatEvent {
            user_id: None,
            username: name.to_string(),
            event_type: ChatEventType::Message,
            message: Some(name.to_string()),
            timestamp: i as i64,
        });
    }
    let got: Vec<String> = log.recent(3).into_iter().map(|e| e.username).collect();
    assert_eq!(got, vec!["e1", "e2", "e3"]);
    let got: Vec<String> = log.recent(100).into_iter().map(|e| e.username).collect();
    assert_eq!(got, vec!["e1", "e2", "e3"]);
    let got: Vec<String> = log.recent(2).into_iter().map(|e| e.username).collect();
    assert_eq!(got, vec!["e2", "e3"]);
    assert!(log.recent(0).is_empty());
}

#[test]
fn newest_first_rows_become_chronological() {
    let rows: Vec<ChatEvent> = [3, 2, 1]
        .iter()
        .map(|t| ChatEvent {
            user_id: None,
            username: "u".to_string(),
            event_type: ChatEventType::UserLeft,
            message: None,
            timestamp: *t,
        })
        .collect();
    let out = netron_chat::events::chronological(rows);
    let stamps: Vec<i64> = out.iter().map(|e| e.timestamp).collect();
    assert_eq!(stamps, vec![1, 2, 3]);
}

#[test]
fn registry_insert_replace_remove() {
    let mut r = Registry::new();
    assert_eq!(r.insert("a".to_string(), "A".to_string()), None);
    assert_eq!(r.insert("a".to_string(), "B".to_string()).as_deref(), Some("A"));
    assert_eq!(r.display_name("a").as_deref(), Some("B"));
    assert!(r.remove("a"));
    assert!(!r.remove("a"));
    assert_eq!(r.len(), 0);
}

#[test]
fn every_subscriber_gets_every_later_message_in_order() {
    let (tx, _) = tokio::sync::broadcast::channel::<String>(64);
    let mut registry = Registry::new();
    let mut log = EventLog::new();
    let mut receivers: Vec<_> = (0..3).map(|_| tx.subscribe()).collect();
    let (mut a, _) = active(anon("anon_a", "A"), &mut registry, &mut log);
    let (mut b, _) = active(anon("anon_b", "B"), &mut registry, &mut log);
    let texts = ["one", "two", "three", "four"];
    for (i, t) in texts.iter().enumerate() {
        let conn = if i % 2 == 0 { &mut a } else { &mut b };
        let out = drive(
            conn,
            ConnEvent::Frame { text: t.to_string(), at: i as i64, at_text: "t".to_string() },
            &mut registry,
            &mut log,
        );
        for m in out {
            if let WsMessage::Message(c) = m {
                tx.send(c.message).unwrap();
            }
        }
    }
    for rx in receivers.iter_mut() {
        let got: Vec<String> = (0..4).map(|_| rx.try_recv().unwrap()).collect();
        assert_eq!(got, texts);
        assert!(rx.try_recv().is_err());
    }
    assert_eq!(registry.len(), 2);
}
