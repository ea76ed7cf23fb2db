use chat_relay::connection::{Connection, Inbound, Outcome, Phase};
use chat_relay::error::RelayError;
use chat_relay::outbound::OutboundHandle;
use chat_relay::registry::{Broadcast, Registry};
use tokio::sync::mpsc::{unbounded_channel, UnboundedReceiver};
use warp::ws::Message;

struct Peer {
    conn: Connection,
    inbox: UnboundedReceiver<Message>,
}

fn join(registry: &mut Registry, id: &str, now: u64) -> Peer {
    let (tx, rx) = unbounded_channel();
    let mut conn = Connection::new(id.to_string());
    conn.activate(registry, OutboundHandle::new(tx), now).unwrap();
    Peer { conn, inbox: rx }
}

fn drain(inbox: &mut UnboundedReceiver<Message>) -> Vec<(String, String, u64)> {
    let mut seen = Vec::new();
    while let Ok(frame) = inbox.try_recv() {
        assert!(frame.is_text());
        let value: serde_json::Value = serde_json::from_str(frame.to_str().unwrap()).unwrap();
        seen.push((
            value["user"].as_str().unwrap().to_string(),
            value["message"].as_str().unwrap().to_string(),
            value["timestamp"].as_u64().unwrap(),
        ));
    }
    seen
}

fn names(sent: &Broadcast) -> Vec<String> {
    sent.deliveries.iter().map(|d| d.recipient.clone()).collect()
}

fn say(peer: &mut Peer, registry: &Registry, text: &str, now: u64) -> Broadcast {
    match peer.conn.receive(registry, Inbound::Text(text.to_string()), now).unwrap() {
        Outcome::Relayed(sent) => sent,
        other => panic!("a text frame was not relayed: {:?}", other),
    }
}

fn entry(user: &str, message: &str, timestamp: u64) -> (String, String, u64) {
    (user.to_string(), message.to_string(), timestamp)
}

#[test]
fn join_is_announced_once_to_every_earlier_member() {
    let mut registry = Registry::new();
    let mut bob = join(&mut registry, "bob", 1);
    let mut carol = join(&mut registry, "carol", 2);
    drain(&mut bob.inbox);
    drain(&mut carol.inbox);

    let mut alice = join(&mut registry, "alice", 10);
    say(&mut alice, &registry, "hello", 11);

    let expected = vec![entry("System", "alice joined the chat", 10), entry("alice", "hello", 11)];
    assert_eq!(drain(&mut bob.inbox), expected);
    assert_eq!(drain(&mut carol.inbox), expected);
    assert_eq!(alice.conn.phase(), Phase::Active);
}

#[test]
fn join_report_lists_every_member_in_order() {
    let mut registry = Registry::new();
    let _bob = join(&mut registry, "bob", 1);
    let (tx, _rx) = unbounded_channel();
    let mut alice = Connection::new("alice".to_string());
    let sent = alice.activate(&mut registry, OutboundHandle::new(tx), 7).unwrap();
    assert_eq!(names(&sent), vec!["bob".to_string(), "alice".to_string()]);
    assert!(sent.deliveries.iter().all(|d| d.accepted));
    assert_eq!(sent.payload, "{\"user\":\"System\",\"message\":\"alice joined the chat\",\"timestamp\":7}");
}

#[test]
fn leave_is_announced_once_and_later_broadcasts_skip_the_leaver() {
    let mut registry = Registry::new();
    let mut alice = join(&mut registry, "alice", 1);
    let mut bob = join(&mut registry, "bob", 2);
    let mut carol = join(&mut registry, "carol", 3);
    drain(&mut alice.inbox);
    drain(&mut bob.inbox);
    drain(&mut carol.inbox);

    let ended = alice.conn.receive(&registry, Inbound::Closed, 20).unwrap();
    assert!(matches!(ended, Outcome::Ended));
    assert_eq!(alice.conn.phase(), Phase::Disconnecting);
    let sent = alice.conn.finish(&mut registry, 21).unwrap();
    assert_eq!(alice.conn.phase(), Phase::Terminated);
    assert_eq!(names(&sent), vec!["bob".to_string(), "carol".to_string()]);
    assert!(!registry.contains("alice"));
    assert_eq!(registry.len(), 2);

    say(&mut bob, &registry, "still here", 22);

    assert_eq!(drain(&mut alice.inbox), vec![]);
    assert_eq!(drain(&mut bob.inbox), vec![entry("System", "alice left the chat", 21)]);
    assert_eq!(
        drain(&mut carol.inbox),
        vec![entry("System", "alice left the chat", 21), entry("bob", "still here", 22)]
    );
}

#[test]
fn transport_error_and_write_failure_end_the_connection() {
    let mut registry = Registry::new();
    let mut alice = join(&mut registry, "alice", 1);
    let mut bob = join(&mut registry, "bob", 2);
    assert!(matches!(alice.conn.receive(&registry, Inbound::Failed, 3), Ok(Outcome::Ended)));
    assert_eq!(alice.conn.phase(), Phase::Disconnecting);
    assert!(matches!(bob.conn.receive(&registry, Inbound::OutboundFailed, 3), Ok(Outcome::Ended)));
    assert_eq!(bob.conn.phase(), Phase::Disconnecting);
    assert!(registry.contains("alice"));
    assert!(registry.contains("bob"));
}

#[test]
fn text_reaches_every_other_member_and_never_the_sender() {
    let mut registry = Registry::new();
    let mut peers: Vec<Peer> = Vec::new();
    for id in ["a", "b", "c", "d", "e"] {
        peers.push(join(&mut registry, id, 0));
    }
    for peer in peers.iter_mut() {
        drain(&mut peer.inbox);
    }
    let sent = say(&mut peers[2], &registry, "ping", 5);
    assert_eq!(names(&sent), vec!["a".to_string(), "b".to_string(), "d".to_string(), "e".to_string()]);
    assert_eq!(sent.deliveries.len(), 4);
    for (i, peer) in peers.iter_mut().enumerate() {
        let seen = drain(&mut peer.inbox);
        if i == 2 {
            assert_eq!(seen, vec![]);
        } else {
            assert_eq!(seen, vec![entry("c", "ping", 5)]);
        }
    }
}

#[test]
fn stalled_consumer_does_not_hold_back_the_others() {
    let mut registry = Registry::new();
    let stalled = join(&mut registry, "stalled", 0);
    let mut alice = join(&mut registry, "alice", 0);
    let mut bob = join(&mut registry, "bob", 0);
    drain(&mut bob.inbox);
    for n in 0..500u64 {
        let sent = say(&mut alice, &registry, "tick", n);
        assert_eq!(names(&sent), vec!["stalled".to_string(), "bob".to_string()]);
        assert!(sent.deliveries.iter().all(|d| d.accepted));
    }
    let seen = drain(&mut bob.inbox);
    assert_eq!(seen.len(), 500);
    for (n, got) in seen.into_iter().enumerate() {
        assert_eq!(got, entry("alice", "tick", n as u64));
    }
    assert_eq!(stalled.inbox.len(), 503);
}

#[test]
fn closed_queue_is_passed_over() {
    let mut registry = Registry::new();
    let gone = join(&mut registry, "gone", 0);
    let mut alice = join(&mut registry, "alice", 0);
    let mut bob = join(&mut registry, "bob", 0);
    drain(&mut bob.inbox);
    drop(gone);

    let sent = say(&mut alice, &registry, "anyone?", 9);
    assert_eq!(names(&sent), vec!["gone".to_string(), "bob".to_string()]);
    assert!(!sent.deliveries[0].accepted);
    assert!(sent.deliveries[1].accepted);
    assert_eq!(drain(&mut bob.inbox), vec![entry("alice", "anyone?", 9)]);
    assert!(registry.contains("gone"));
}

#[test]
fn frames_without_text_are_ignored() {
    let mut registry = Registry::new();
    let mut alice = join(&mut registry, "alice", 0);
    let mut bob = join(&mut registry, "bob", 0);
    drain(&mut alice.inbox);
    drain(&mut bob.inbox);

    assert!(matches!(alice.conn.receive(&registry, Inbound::NonText, 1), Ok(Outcome::Ignored)));
    assert!(matches!(alice.conn.receive(&registry, Inbound::Undecodable, 2), Ok(Outcome::Ignored)));
    assert_eq!(alice.conn.phase(), Phase::Active);
    assert_eq!(alice.conn.id(), "alice");
    assert_eq!(registry.len(), 2);
    assert_eq!(drain(&mut alice.inbox), vec![]);
    assert_eq!(drain(&mut bob.inbox), vec![]);

    say(&mut alice, &registry, "after", 3);
    assert_eq!(drain(&mut bob.inbox), vec![entry("alice", "after", 3)]);
}

#[test]
fn second_registration_under_one_id_replaces_the_first() {
    let mut registry = Registry::new();
    let mut first = join(&mut registry, "twin", 1);
    let mut bob = join(&mut registry, "bob", 2);
    let mut second = join(&mut registry, "twin", 3);
    assert_eq!(registry.len(), 2);
    let order: Vec<String> = registry.snapshot().iter().map(|m| m.id().to_string()).collect();
    assert_eq!(order, vec!["bob".to_string(), "twin".to_string()]);
    drain(&mut first.inbox);
    drain(&mut second.inbox);
    drain(&mut bob.inbox);

    say(&mut bob, &registry, "to the twins", 4);
    assert_eq!(drain(&mut first.inbox), vec![]);
    assert_eq!(drain(&mut second.inbox), vec![entry("bob", "to the twins", 4)]);

    first.conn.receive(&registry, Inbound::Closed, 5).unwrap();
    let sent = first.conn.finish(&mut registry, 6).unwrap();
    assert_eq!(names(&sent), vec!["bob".to_string()]);
    assert!(!registry.contains("twin"));
    assert_eq!(second.conn.phase(), Phase::Active);

    say(&mut bob, &registry, "anyone left?", 7);
    assert_eq!(drain(&mut second.inbox), vec![]);

    let sent = say(&mut second, &registry, "I am", 8);
    assert_eq!(names(&sent), vec!["bob".to_string()]);
}

#[test]
fn one_sender_is_heard_in_the_order_sent() {
    let mut registry = Registry::new();
    let mut x = join(&mut registry, "x", 0);
    let mut y = join(&mut registry, "y", 0);
    let mut z = join(&mut registry, "z", 0);
    drain(&mut y.inbox);
    drain(&mut z.inbox);
    say(&mut x, &registry, "1", 100);
    say(&mut x, &registry, "2", 100);
    say(&mut x, &registry, "3", 101);
    let expected = vec![entry("x", "1", 100), entry("x", "2", 100), entry("x", "3", 101)];
    assert_eq!(drain(&mut y.inbox), expected);
    assert_eq!(drain(&mut z.inbox), expected);
}

#[test]
fn operations_out_of_phase_are_refused_and_change_nothing() {
    let mut registry = Registry::new();
    let mut bob = join(&mut registry, "bob", 0);
    drain(&mut bob.inbox);

    let mut alice = Connection::new("alice".to_string());
    assert_eq!(alice.phase(), Phase::Connecting);
    assert!(matches!(
        alice.receive(&registry, Inbound::Text("early".to_string()), 1),
        Err(RelayError::OutOfPhase)
    ));
    assert!(matches!(alice.finish(&mut registry, 1), Err(RelayError::OutOfPhase)));
    assert_eq!(alice.phase(), Phase::Connecting);
    assert_eq!(registry.len(), 1);

    let (tx, _rx) = unbounded_channel();
    assert!(matches!(bob.conn.activate(&mut registry, OutboundHandle::new(tx), 2), Err(RelayError::OutOfPhase)));
    assert_eq!(bob.conn.phase(), Phase::Active);
    assert!(matches!(bob.conn.finish(&mut registry, 2), Err(RelayError::OutOfPhase)));
    assert!(registry.contains("bob"));

    bob.conn.receive(&registry, Inbound::Closed, 3).unwrap();
    assert!(matches!(bob.conn.receive(&registry, Inbound::NonText, 3), Err(RelayError::OutOfPhase)));
    bob.conn.finish(&mut registry, 4).unwrap();
    assert!(matches!(bob.conn.finish(&mut registry, 5), Err(RelayError::OutOfPhase)));
    assert!(matches!(
        bob.conn.receive(&registry, Inbound::Text("late".to_string()), 5),
        Err(RelayError::OutOfPhase)
    ));
    assert_eq!(bob.conn.phase(), Phase::Terminated);
    assert_eq!(drain(&mut bob.inbox), vec![]);
}

#[test]
fn registry_registers_and_deregisters_by_id() {
    let mut registry = Registry::new();
    assert_eq!(registry.len(), 0);
    assert!(!registry.contains("a"));
    assert!(!registry.deregister("a"));

    let (tx_a, mut rx_a) = unbounded_channel();
    let (tx_b, mut rx_b) = unbounded_channel();
    registry.register("a".to_string(), OutboundHandle::new(tx_a));
    registry.register("".to_string(), OutboundHandle::new(tx_b));
    assert_eq!(registry.len(), 2);
    assert!(registry.contains("a"));
    assert!(registry.contains(""));
    assert!(!registry.contains("A"));

    let all = registry.broadcast_payload("one");
    assert_eq!(all.len(), 2);
    assert_eq!(all[0].recipient, "a");
    assert_eq!(all[1].recipient, "");
    let some = registry.relay_payload("a", "two");
    assert_eq!(some.len(), 1);
    assert_eq!(some[0].recipient, "");
    let none_skipped = registry.relay_payload("nobody", "three");
    assert_eq!(none_skipped.len(), 2);

    assert_eq!(rx_a.try_recv().unwrap().to_str().unwrap(), "one");
    assert_eq!(rx_a.try_recv().unwrap().to_str().unwrap(), "three");
    assert!(rx_a.try_recv().is_err());
    assert_eq!(rx_b.try_recv().unwrap().to_str().unwrap(), "one");
    assert_eq!(rx_b.try_recv().unwrap().to_str().unwrap(), "two");
    assert_eq!(rx_b.try_recv().unwrap().to_str().unwrap(), "three");

    assert!(registry.deregister("a"));
    assert!(!registry.deregister("a"));
    assert_eq!(registry.len(), 1);
    assert_eq!(registry.snapshot()[0].id(), "");
}
