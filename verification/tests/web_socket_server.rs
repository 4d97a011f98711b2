use questionnaire_rs::web_socket_server::{
    Delivery, JoinSession, Message, RemoveSession, SendMessage, WebSocketServer,
};
use std::cell::RefCell;
use std::collections::HashSet;

/// Records what each sink was handed; a sink named in `broken` refuses.
struct Wire {
    received: RefCell<Vec<(u32, String)>>,
    broken: Vec<u32>,
}

impl Wire {
    fn new(broken: Vec<u32>) -> Self {
        Wire { received: RefCell::new(Vec::new()), broken }
    }

    fn deliver(&self, sink: &u32, message: Message) -> bool {
        if self.broken.contains(sink) {
            false
        } else {
            self.received.borrow_mut().push((*sink, message.0));
            true
        }
    }

    fn sinks_reached(&self) -> Vec<u32> {
        let mut sinks: Vec<u32> = self.received.borrow().iter().map(|entry| entry.0).collect();
        sinks.sort();
        sinks
    }
}

fn ids_of(report: &[Delivery]) -> HashSet<usize> {
    report.iter().map(|delivery| delivery.session_id).collect()
}

#[test]
fn new_hub_is_empty() {
    let hub: WebSocketServer<u32> = WebSocketServer::new(rand::thread_rng());
    assert_eq!(hub.len(), 0);
    assert!(!hub.contains(0));
}

#[test]
fn drawn_identifier_is_given_when_free() {
    let mut hub: WebSocketServer<u32> = WebSocketServer::new(rand::thread_rng());
    assert_eq!(hub.add_session_with(1, 700), 700);
    assert_eq!(hub.add_session_with(2, 0), 0);
    assert_eq!(hub.add_session_with(3, usize::MAX), usize::MAX);
    assert_eq!(hub.len(), 3);
}

#[test]
fn taken_draw_falls_back_to_the_least_free_identifier() {
    let mut hub: WebSocketServer<u32> = WebSocketServer::new(rand::thread_rng());
    assert_eq!(hub.add_session_with(1, 700), 700);
    assert_eq!(hub.add_session_with(2, 700), 0);
    assert_eq!(hub.add_session_with(3, 700), 1);
    assert_eq!(hub.add_session_with(4, 0), 2);
    assert_eq!(hub.add_session_with(5, 3), 3);
    assert_eq!(hub.add_session_with(6, 3), 4);
    hub.remove_session(1);
    assert_eq!(hub.add_session_with(7, 700), 1);
    assert_eq!(hub.len(), 6);
    let wire = Wire::new(Vec::new());
    let report = hub.send_message(String::from("x"), None, |sink: &u32, message: Message| wire.deliver(sink, message));
    assert_eq!(report.len(), 6);
    assert_eq!(wire.sinks_reached(), vec![1, 2, 4, 5, 6, 7]);
}

#[test]
fn join_gives_distinct_identifiers() {
    let mut hub: WebSocketServer<u32> = WebSocketServer::new(rand::thread_rng());
    let mut seen = HashSet::new();
    for sink in 0..200u32 {
        let id = hub.add_session(sink);
        assert!(seen.insert(id));
        assert!(hub.contains(id));
    }
    assert_eq!(hub.len(), 200);
}

#[test]
fn broadcast_reaches_a_joined_session() {
    let mut hub: WebSocketServer<u32> = WebSocketServer::new(rand::thread_rng());
    let id = hub.add_session(77);
    let wire = Wire::new(Vec::new());
    let report = hub.send_message(String::from("hello"), None, |sink: &u32, message: Message| wire.deliver(sink, message));
    assert_eq!(report, vec![Delivery { session_id: id, delivered: true }]);
    assert_eq!(*wire.received.borrow(), vec![(77, String::from("hello"))]);
}

#[test]
fn broadcast_skips_a_session_that_left() {
    let mut hub: WebSocketServer<u32> = WebSocketServer::new(rand::thread_rng());
    let first = hub.add_session(1);
    let second = hub.add_session(2);
    hub.remove_session(first);
    assert!(!hub.contains(first));
    let wire = Wire::new(Vec::new());
    let report = hub.send_message(String::from("x"), None, |sink: &u32, message: Message| wire.deliver(sink, message));
    assert_eq!(report, vec![Delivery { session_id: second, delivered: true }]);
    assert_eq!(wire.sinks_reached(), vec![2]);
    let later = hub.send_message(String::from("y"), None, |sink: &u32, message: Message| wire.deliver(sink, message));
    assert_eq!(ids_of(&later), HashSet::from([second]));
    assert_eq!(wire.sinks_reached(), vec![2, 2]);
}

#[test]
fn leave_of_unknown_identifier_changes_nothing() {
    let mut hub: WebSocketServer<u32> = WebSocketServer::new(rand::thread_rng());
    let first = hub.add_session(1);
    let second = hub.add_session(2);
    let mut unknown = 0usize;
    while unknown == first || unknown == second {
        unknown += 1;
    }
    hub.remove_session(unknown);
    hub.remove_session(unknown);
    assert_eq!(hub.len(), 2);
    assert!(hub.contains(first));
    assert!(hub.contains(second));
    let wire = Wire::new(Vec::new());
    hub.send_message(String::from("x"), None, |sink: &u32, message: Message| wire.deliver(sink, message));
    assert_eq!(wire.sinks_reached(), vec![1, 2]);
}

#[test]
fn leave_twice_is_harmless() {
    let mut hub: WebSocketServer<u32> = WebSocketServer::new(rand::thread_rng());
    let first = hub.add_session(1);
    let second = hub.add_session(2);
    hub.remove_session(first);
    hub.remove_session(first);
    assert_eq!(hub.len(), 1);
    assert!(hub.contains(second));
}

#[test]
fn fan_out_makes_one_delivery_per_session() {
    let mut hub: WebSocketServer<u32> = WebSocketServer::new(rand::thread_rng());
    let mut ids = HashSet::new();
    for sink in 0..25u32 {
        ids.insert(hub.add_session(sink));
    }
    let wire = Wire::new(Vec::new());
    let report = hub.send_message(String::from("go"), None, |sink: &u32, message: Message| wire.deliver(sink, message));
    assert_eq!(report.len(), 25);
    assert_eq!(ids_of(&report), ids);
    assert!(report.iter().all(|delivery| delivery.delivered));
    assert_eq!(wire.sinks_reached(), (0..25u32).collect::<Vec<u32>>());
    assert!(wire.received.borrow().iter().all(|entry| entry.1 == "go"));
}

#[test]
fn fan_out_leaves_out_the_excluded_session() {
    let mut hub: WebSocketServer<u32> = WebSocketServer::new(rand::thread_rng());
    let mut ids = Vec::new();
    for sink in 0..10u32 {
        ids.push(hub.add_session(sink));
    }
    let wire = Wire::new(Vec::new());
    let report = hub.send_message(String::from("go"), Some(ids[4]), |sink: &u32, message: Message| wire.deliver(sink, message));
    assert_eq!(report.len(), 9);
    assert!(!ids_of(&report).contains(&ids[4]));
    assert_eq!(wire.sinks_reached(), vec![0, 1, 2, 3, 5, 6, 7, 8, 9]);
}

#[test]
fn excluding_an_unknown_session_leaves_out_nobody() {
    let mut hub: WebSocketServer<u32> = WebSocketServer::new(rand::thread_rng());
    let first = hub.add_session(1);
    let second = hub.add_session(2);
    let mut unknown = 0usize;
    while unknown == first || unknown == second {
        unknown += 1;
    }
    let wire = Wire::new(Vec::new());
    let report = hub.send_message(String::from("go"), Some(unknown), |sink: &u32, message: Message| wire.deliver(sink, message));
    assert_eq!(report.len(), 2);
    assert_eq!(wire.sinks_reached(), vec![1, 2]);
}

#[test]
fn broadcast_on_empty_hub_delivers_nothing() {
    let hub: WebSocketServer<u32> = WebSocketServer::new(rand::thread_rng());
    let wire = Wire::new(Vec::new());
    let report = hub.send_message(String::from("go"), None, |sink: &u32, message: Message| wire.deliver(sink, message));
    assert!(report.is_empty());
    assert!(wire.received.borrow().is_empty());
}

#[test]
fn broken_sink_does_not_stop_the_others() {
    let mut hub: WebSocketServer<u32> = WebSocketServer::new(rand::thread_rng());
    let mut ids = Vec::new();
    for sink in 0..6u32 {
        ids.push(hub.add_session(sink));
    }
    let wire = Wire::new(vec![3]);
    let report = hub.send_message(String::from("one"), None, |sink: &u32, message: Message| wire.deliver(sink, message));
    assert_eq!(report.len(), 6);
    for delivery in &report {
        assert_eq!(delivery.delivered, delivery.session_id != ids[3]);
    }
    assert_eq!(wire.sinks_reached(), vec![0, 1, 2, 4, 5]);
    assert_eq!(hub.len(), 6);
    assert!(hub.contains(ids[3]));

    let healthy = Wire::new(Vec::new());
    let again = hub.send_message(String::from("two"), None, |sink: &u32, message: Message| healthy.deliver(sink, message));
    assert_eq!(again.len(), 6);
    assert_eq!(healthy.sinks_reached(), vec![0, 1, 2, 3, 4, 5]);
    let joined = hub.add_session(6);
    assert!(hub.contains(joined));
    hub.remove_session(ids[3]);
    assert_eq!(hub.len(), 6);
}

#[test]
fn every_sink_broken_still_visits_all() {
    let mut hub: WebSocketServer<u32> = WebSocketServer::new(rand::thread_rng());
    for sink in 0..4u32 {
        hub.add_session(sink);
    }
    let wire = Wire::new(vec![0, 1, 2, 3]);
    let report = hub.send_message(String::from("x"), None, |sink: &u32, message: Message| wire.deliver(sink, message));
    assert_eq!(report.len(), 4);
    assert!(report.iter().all(|delivery| !delivery.delivered));
    assert_eq!(hub.len(), 4);
}

#[test]
fn requests_are_served_like_the_calls() {
    let mut hub: WebSocketServer<u32> = WebSocketServer::new(rand::thread_rng());
    let first = hub.join(JoinSession(10));
    let second = hub.join(JoinSession(20));
    assert_ne!(first, second);
    let wire = Wire::new(Vec::new());
    let message = SendMessage { name: String::from("Main"), id: first, content: String::from("{}") };
    let report = hub.broadcast(message, |sink: &u32, message: Message| wire.deliver(sink, message));
    assert_eq!(report.len(), 2);
    assert_eq!(wire.sinks_reached(), vec![10, 20]);
    assert!(wire.received.borrow().iter().all(|entry| entry.1 == "{}"));
    hub.leave(RemoveSession(first));
    assert!(!hub.contains(first));
    assert!(hub.contains(second));
}

#[test]
fn identifier_is_free_again_after_leave() {
    let mut hub: WebSocketServer<u32> = WebSocketServer::new(rand::thread_rng());
    let mut live = HashSet::new();
    for round in 0..50u32 {
        let id = hub.add_session(round);
        assert!(live.insert(id));
        if round % 2 == 0 {
            hub.remove_session(id);
            live.remove(&id);
        }
    }
    assert_eq!(hub.len(), live.len());
}
