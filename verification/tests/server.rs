use scratch_cloud::client::{Auth, ClientSignal};
use scratch_cloud::config::{Config, Policy};
use scratch_cloud::protocol::Value;
use scratch_cloud::server::{Served, ServerHandle, ServerMethod, ServerSignal};
use scratch_cloud::status::ErrorKind;

fn config() -> Config {
    Config {
        bind: "0.0.0.0:9001".to_string(),
        policy: Policy {
            variable_name_max_length: 8,
            variable_name_min_length: 1,
            value_max_length: 6,
            username_max_length: 10,
            username_min_length: 3,
        },
        mpsc_channel_buffer: 16,
    }
}

fn auth(project: &str, user: &str) -> Auth {
    Auth { project_id: project.to_string(), user: user.to_string() }
}

fn value(text: &str) -> Value {
    Value { text: text.to_string() }
}

fn set(id: u64, name: &str, text: &str) -> ServerSignal {
    ServerSignal::Method(id, ServerMethod::SetVar { name: name.to_string(), value: value(text) })
}

/// The variables a newcomer to `project` is told about, sorted by name.
fn read_room(h: &mut ServerHandle<u32>, project: &str, id: u64) -> Vec<(String, String)> {
    let (_, vars) = h.register(0, auth(project, "reader"), id).unwrap();
    h.unregister(id);
    let mut vars: Vec<(String, String)> = vars.into_iter().map(|(n, v)| (n, v.text)).collect();
    vars.sort();
    vars
}

fn deliveries(served: Served) -> Vec<(u64, ClientSignal)> {
    match served {
        Served::Continue(out) => out,
        Served::Stopped => panic!("the server stopped"),
    }
}

fn is_close_generic(out: &[(u64, ClientSignal)], id: u64) -> bool {
    out.len() == 1
        && out[0].0 == id
        && matches!(out[0].1, ClientSignal::Close { kind: ErrorKind::Generic })
}

#[test]
fn new_server_is_empty() {
    let h: ServerHandle<u32> = ServerHandle::new(config());
    assert!(h.registry.is_empty());
}

#[test]
fn bad_username_is_not_registered() {
    let mut h: ServerHandle<u32> = ServerHandle::new(config());
    assert!(h.register(1, auth("p", "al"), 1).is_none());
    assert!(h.register(1, auth("p", "a_very_long_name"), 1).is_none());
    assert!(h.registry.is_empty());
    assert!(h.register(1, auth("p", "alice"), 1).is_some());
    assert!(h.registry.contains_key(&1));
}

#[test]
fn first_client_finds_an_empty_room() {
    let mut h: ServerHandle<u32> = ServerHandle::new(config());
    let (id, vars) = h.register(10, auth("p", "alice"), 4).unwrap();
    assert_eq!(id, 4);
    assert!(vars.is_empty());
    assert_eq!(h.registry.get(&4).unwrap().0, 10);
}

#[test]
fn set_value_is_told_to_later_joiners() {
    let mut h: ServerHandle<u32> = ServerHandle::new(config());
    h.register(0, auth("p", "alice"), 1).unwrap();
    deliveries(h.serve_signal(set(1, "score", "12")));
    deliveries(h.serve_signal(set(1, "name", "\"bo\"")));
    assert_eq!(
        read_room(&mut h, "p", 2),
        vec![("name".to_string(), "\"bo\"".to_string()), ("score".to_string(), "12".to_string())]
    );
}

#[test]
fn set_is_told_to_every_peer_but_the_sender() {
    let mut h: ServerHandle<u32> = ServerHandle::new(config());
    h.register(0, auth("p", "alice"), 1).unwrap();
    h.register(0, auth("p", "bob"), 2).unwrap();
    h.register(0, auth("q", "carol"), 3).unwrap();
    let out = deliveries(h.serve_signal(set(1, "x", "5")));
    let mut ids: Vec<u64> = out.iter().map(|(id, _)| *id).collect();
    ids.sort();
    assert_eq!(ids, vec![2, 3]);
    for (_, signal) in &out {
        assert!(matches!(signal, ClientSignal::InformSet { name, value } if name == "x" && value.text == "5"));
    }
}

#[test]
fn refused_set_closes_the_sender_and_stores_nothing() {
    let mut h: ServerHandle<u32> = ServerHandle::new(config());
    h.register(0, auth("p", "alice"), 1).unwrap();
    h.register(0, auth("p", "bob"), 2).unwrap();
    // name too long
    let out = deliveries(h.serve_signal(set(1, "far_too_long", "1")));
    assert!(is_close_generic(&out, 1));
    // value too long
    let out = deliveries(h.serve_signal(set(1, "x", "1234567")));
    assert!(is_close_generic(&out, 1));
    // empty name
    let out = deliveries(h.serve_signal(set(1, "", "1")));
    assert!(is_close_generic(&out, 1));
    assert!(read_room(&mut h, "p", 9).is_empty());
}

#[test]
fn rooms_are_separate() {
    let mut h: ServerHandle<u32> = ServerHandle::new(config());
    h.register(0, auth("p", "alice"), 1).unwrap();
    h.register(0, auth("q", "bob"), 2).unwrap();
    deliveries(h.serve_signal(set(1, "x", "1")));
    deliveries(h.serve_signal(set(2, "x", "2")));
    assert_eq!(read_room(&mut h, "p", 9), vec![("x".to_string(), "1".to_string())]);
    assert_eq!(read_room(&mut h, "q", 9), vec![("x".to_string(), "2".to_string())]);
}

#[test]
fn set_twice_is_set_once() {
    let mut h: ServerHandle<u32> = ServerHandle::new(config());
    h.register(0, auth("p", "alice"), 1).unwrap();
    deliveries(h.serve_signal(set(1, "x", "1")));
    let once = read_room(&mut h, "p", 9);
    deliveries(h.serve_signal(set(1, "x", "1")));
    assert_eq!(read_room(&mut h, "p", 9), once);
    deliveries(h.serve_signal(set(1, "x", "2")));
    assert_eq!(read_room(&mut h, "p", 9), vec![("x".to_string(), "2".to_string())]);
}

#[test]
fn rename_moves_the_value() {
    let mut h: ServerHandle<u32> = ServerHandle::new(config());
    h.register(0, auth("p", "alice"), 1).unwrap();
    h.register(0, auth("p", "bob"), 2).unwrap();
    deliveries(h.serve_signal(set(1, "a", "7")));
    deliveries(h.serve_signal(set(1, "b", "8")));
    let out = deliveries(h.serve_signal(ServerSignal::Method(
        1,
        ServerMethod::Rename { name: "a".to_string(), new_name: "c".to_string() },
    )));
    assert!(out.is_empty());
    assert_eq!(
        read_room(&mut h, "p", 9),
        vec![("b".to_string(), "8".to_string()), ("c".to_string(), "7".to_string())]
    );
    // onto an existing name: the moved value wins
    deliveries(h.serve_signal(ServerSignal::Method(
        1,
        ServerMethod::Rename { name: "b".to_string(), new_name: "c".to_string() },
    )));
    assert_eq!(read_room(&mut h, "p", 9), vec![("c".to_string(), "8".to_string())]);
    // onto itself: nothing changes
    deliveries(h.serve_signal(ServerSignal::Method(
        1,
        ServerMethod::Rename { name: "c".to_string(), new_name: "c".to_string() },
    )));
    assert_eq!(read_room(&mut h, "p", 9), vec![("c".to_string(), "8".to_string())]);
}

#[test]
fn rename_of_a_missing_or_bad_name_closes_the_sender() {
    let mut h: ServerHandle<u32> = ServerHandle::new(config());
    h.register(0, auth("p", "alice"), 1).unwrap();
    deliveries(h.serve_signal(set(1, "a", "1")));
    let out = deliveries(h.serve_signal(ServerSignal::Method(
        1,
        ServerMethod::Rename { name: "zz".to_string(), new_name: "c".to_string() },
    )));
    assert!(is_close_generic(&out, 1));
    let out = deliveries(h.serve_signal(ServerSignal::Method(
        1,
        ServerMethod::Rename { name: "a".to_string(), new_name: "far_too_long".to_string() },
    )));
    assert!(is_close_generic(&out, 1));
    assert_eq!(read_room(&mut h, "p", 9), vec![("a".to_string(), "1".to_string())]);
}

#[test]
fn delete_removes_and_a_second_delete_is_refused() {
    let mut h: ServerHandle<u32> = ServerHandle::new(config());
    h.register(0, auth("p", "alice"), 1).unwrap();
    deliveries(h.serve_signal(set(1, "a", "1")));
    deliveries(h.serve_signal(set(1, "b", "2")));
    let delete_a = || ServerSignal::Method(1, ServerMethod::Delete { name: "a".to_string() });
    assert!(deliveries(h.serve_signal(delete_a())).is_empty());
    assert_eq!(read_room(&mut h, "p", 9), vec![("b".to_string(), "2".to_string())]);
    let out = deliveries(h.serve_signal(delete_a()));
    assert!(is_close_generic(&out, 1));
    let out = deliveries(h.serve_signal(ServerSignal::Method(1, ServerMethod::Delete { name: String::new() })));
    assert!(is_close_generic(&out, 1));
    assert_eq!(read_room(&mut h, "p", 9), vec![("b".to_string(), "2".to_string())]);
}

#[test]
fn closed_client_is_no_longer_heard() {
    let mut h: ServerHandle<u32> = ServerHandle::new(config());
    h.register(0, auth("p", "alice"), 1).unwrap();
    h.register(0, auth("p", "bob"), 2).unwrap();
    assert!(deliveries(h.serve_signal(ServerSignal::Close(1))).is_empty());
    assert!(!h.registry.contains_key(&1));
    assert!(h.registry.contains_key(&2));
    assert!(deliveries(h.serve_signal(set(1, "x", "1"))).is_empty());
    assert!(deliveries(h.serve_signal(set(1, "far_too_long", "1"))).is_empty());
    assert!(read_room(&mut h, "p", 9).is_empty());
    // the peer that stayed is still heard, and nobody is left to tell
    assert!(deliveries(h.serve_signal(set(2, "x", "1"))).is_empty());
    assert_eq!(read_room(&mut h, "p", 9), vec![("x".to_string(), "1".to_string())]);
}

#[test]
fn unknown_client_is_ignored() {
    let mut h: ServerHandle<u32> = ServerHandle::new(config());
    assert!(deliveries(h.serve_signal(set(77, "x", "1"))).is_empty());
    assert!(deliveries(h.serve_signal(ServerSignal::Close(77))).is_empty());
}

#[test]
fn stop_stops() {
    let mut h: ServerHandle<u32> = ServerHandle::new(config());
    assert!(matches!(h.serve_signal(ServerSignal::Stop), Served::Stopped));
}

#[test]
fn rooms_outlive_their_clients() {
    let mut h: ServerHandle<u32> = ServerHandle::new(config());
    h.register(0, auth("p", "alice"), 1).unwrap();
    deliveries(h.serve_signal(set(1, "x", "3")));
    h.unregister(1);
    assert!(h.registry.is_empty());
    assert_eq!(read_room(&mut h, "p", 2), vec![("x".to_string(), "3".to_string())]);
}
