use remote_relay::remote_server::{Connect, Disconnect, RemoteServer};
use remote_relay::remote_session::{account_of_path, Frame, Phase, Reply, Ws};
use remote_relay::wire::{frame_object, ClientMessage};

fn envelope(message_type: &str, receiver: &str, sender: &str, message: &str) -> ClientMessage {
    ClientMessage {
        message_type: message_type.to_string(),
        receiver: receiver.to_string(),
        sender: sender.to_string(),
        message: message.to_string(),
    }
}

fn join(server: &mut RemoteServer<u32>, uuid: &str, handle: u32) -> usize {
    server.connect(Connect { uuid: uuid.to_string(), addr: handle })
}

fn message_field(text: &str) -> String {
    let v: serde_json::Value = serde_json::from_str(text).unwrap();
    v.get("message").unwrap().as_str().unwrap().to_string()
}

#[test]
fn envelope_json_text() {
    let m = envelope("chat", "bob", "alice", "hi");
    assert_eq!(
        m.to_json(),
        "{\"message_type\":\"chat\",\"receiver\":\"bob\",\"sender\":\"alice\",\"message\":\"hi\"}"
    );
}

#[test]
fn envelope_json_escapes_values() {
    let m = envelope("chat", "bob", "alice", "say \"hi\"\n\\");
    let text = m.to_json();
    assert_eq!(
        text,
        "{\"message_type\":\"chat\",\"receiver\":\"bob\",\"sender\":\"alice\",\"message\":\"say \\\"hi\\\"\\n\\\\\"}"
    );
    assert_eq!(message_field(&text), "say \"hi\"\n\\");
}

#[test]
fn frame_object_joins_quoted_values() {
    let r = frame_object(
        &"\"a\"".to_string(),
        &"\"b\"".to_string(),
        &"\"c\"".to_string(),
        &"\"d\"".to_string(),
    );
    assert_eq!(r, "{\"message_type\":\"a\",\"receiver\":\"b\",\"sender\":\"c\",\"message\":\"d\"}");
}

#[test]
fn connect_acknowledges_with_zero() {
    let mut s = RemoteServer::new();
    assert_eq!(join(&mut s, "alice", 1), 0);
    assert_eq!(s.lookup(&"alice".to_string()), Some(&1));
    assert_eq!(s.lookup(&"bob".to_string()), None);
}

#[test]
fn route_delivers_to_bob_only() {
    let mut s = RemoteServer::new();
    join(&mut s, "alice", 1);
    join(&mut s, "bob", 2);
    let m = envelope("chat", "bob", "alice", "hi");
    let (h, payload) = s.route(&m).unwrap();
    assert_eq!(*h, 2);
    assert_eq!(payload.0, m.to_json());
    assert_eq!(message_field(&payload.0), "hi");
}

#[test]
fn route_to_absent_receiver_is_dropped() {
    let mut s: RemoteServer<u32> = RemoteServer::new();
    assert!(s.route(&envelope("chat", "carol", "alice", "hi")).is_none());
    join(&mut s, "alice", 1);
    assert!(s.route(&envelope("chat", "carol", "alice", "hi")).is_none());
}

#[test]
fn payload_round_trips_exactly() {
    let mut s = RemoteServer::new();
    let text = "caf\u{e9} \u{1f600} \t tab \u{1} ctl";
    join(&mut s, "dave", 7);
    let (h, payload) = s.route(&envelope("chat", "dave", "erin", text)).unwrap();
    assert_eq!(*h, 7);
    assert_eq!(message_field(&payload.0), text);
}

#[test]
fn disconnect_stops_delivery_and_is_idempotent() {
    let mut s = RemoteServer::new();
    join(&mut s, "alice", 1);
    join(&mut s, "bob", 2);
    s.disconnect(&Disconnect { uuid: "bob".to_string() });
    assert!(s.route(&envelope("chat", "bob", "alice", "hi")).is_none());
    s.disconnect(&Disconnect { uuid: "bob".to_string() });
    s.disconnect(&Disconnect { uuid: "zed".to_string() });
    assert!(s.route(&envelope("chat", "bob", "alice", "hi")).is_none());
    assert_eq!(*s.route(&envelope("chat", "alice", "bob", "yo")).unwrap().0, 1);
}

#[test]
fn later_connect_replaces_handle() {
    let mut s = RemoteServer::new();
    join(&mut s, "alice", 1);
    join(&mut s, "alice", 9);
    let (h, _) = s.route(&envelope("chat", "alice", "bob", "hi")).unwrap();
    assert_eq!(*h, 9);
    s.disconnect(&Disconnect { uuid: "alice".to_string() });
    assert!(s.lookup(&"alice".to_string()).is_none());
}

#[test]
fn heart_is_never_delivered() {
    let mut s = RemoteServer::new();
    join(&mut s, "alice", 1);
    assert!(s.route(&envelope("heart", "alice", "bob", "ping")).is_none());
    assert!(s.route(&envelope("heart", "nobody", "bob", "ping")).is_none());
    assert!(s
        .send_msg(&"heart".to_string(), &"alice".to_string(), "x".to_string())
        .is_none());
}

#[test]
fn send_msg_hands_payload_verbatim() {
    let mut s = RemoteServer::new();
    join(&mut s, "alice", 1);
    let (h, m) = s
        .send_msg(&"chat".to_string(), &"alice".to_string(), "raw text".to_string())
        .unwrap();
    assert_eq!(*h, 1);
    assert_eq!(m.0, "raw text");
    assert!(s
        .send_msg(&"chat".to_string(), &"bob".to_string(), "raw text".to_string())
        .is_none());
}

#[test]
fn many_connects_then_interleaved_routes() {
    let mut s = RemoteServer::new();
    for i in 0..64u32 {
        join(&mut s, &format!("user{}", i), i);
    }
    for round in 0..3u32 {
        for i in 0..64u32 {
            let to = (i * 7 + round) % 64;
            let m = envelope("chat", &format!("user{}", to), &format!("user{}", i), "m");
            let (h, _) = s.route(&m).unwrap();
            assert_eq!(*h, to);
        }
    }
}

#[test]
fn account_from_path() {
    assert_eq!(account_of_path("/remote/abc-123"), Some("abc-123".to_string()));
    assert_eq!(account_of_path("/remote/"), Some(String::new()));
    assert_eq!(account_of_path("/remote/\u{e9}t\u{e9}"), Some("\u{e9}t\u{e9}".to_string()));
    assert_eq!(account_of_path("/remote"), None);
    assert_eq!(account_of_path("/other/abc"), None);
}

#[test]
fn session_lifecycle() {
    let mut ws = Ws::new("alice".to_string());
    assert_eq!(ws.phase, Phase::Connecting);
    let c = ws.started(5u32);
    assert_eq!(c.uuid, "alice");
    assert_eq!(c.addr, 5);
    assert!(ws.connected(Some(0)));
    assert_eq!(ws.phase, Phase::Active);
    let d = ws.stopping();
    assert_eq!(d.uuid, "alice");
    assert_eq!(ws.phase, Phase::Closed);
}

#[test]
fn session_closes_without_ack() {
    let mut ws = Ws::new("alice".to_string());
    assert!(!ws.connected(None));
    assert_eq!(ws.phase, Phase::Closing);
    assert!(matches!(ws.handle(Frame::Ping(vec![1])), Reply::Nothing));
}

#[test]
fn session_frames() {
    let mut ws = Ws::new("alice".to_string());
    assert!(matches!(ws.handle(Frame::Ping(vec![1])), Reply::Nothing));
    ws.connected(Some(3));
    assert_eq!(ws.id, 3);
    assert!(matches!(ws.handle(Frame::Ping(vec![1, 2])), Reply::Pong(b) if b == vec![1, 2]));
    assert!(matches!(ws.handle(Frame::Binary(vec![9])), Reply::Echo(b) if b == vec![9]));
    assert!(matches!(ws.handle(Frame::Other), Reply::Nothing));
    match ws.handle(Frame::Text(envelope("chat", "bob", "alice", "hi"))) {
        Reply::Submit(m) => assert_eq!(m.message, "hi"),
        _ => panic!("envelope not submitted"),
    }
    assert_eq!(ws.phase, Phase::Active);
    assert!(matches!(ws.handle(Frame::Malformed), Reply::Stop));
    assert_eq!(ws.phase, Phase::Closing);
}
