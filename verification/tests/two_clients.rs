use livekit_tui_client::app_state::{AppScreen, AppState};
use livekit_tui_client::client::{Action, JoinPurpose, Key};
use livekit_tui_client::config::Config;
use livekit_tui_client::shared::SignalingMessage;

fn client(name: &str, online: &[&str]) -> AppState {
    let mut s = AppState::new(Config {
        livekit_url: "wss://x".to_string(),
        api_key: "k".to_string(),
        api_secret: "s".to_string(),
        last_username: String::new(),
        render_mode: None,
    });
    let _ = s.lobby_connected(name.to_string(), online.iter().map(|u| u.to_string()).collect());
    let _ = s.handle_key(Key::Char('c'));
    s
}

#[test]
fn call_request_rings_the_callee_and_both_join_one_room() {
    let mut alice = client("alice", &["bob"]);
    let mut bob = client("bob", &["alice"]);
    let req = match alice.handle_key(Key::Enter) {
        Action::Send(m) => m,
        _ => panic!("expected a call request"),
    };
    assert!(matches!(bob.handle_signal(req), Action::Nothing));
    assert_eq!(bob.screen, AppScreen::Ringing { caller: "alice".to_string() });
    let (room, purpose) = match bob.handle_key(Key::Char('y')) {
        Action::JoinRoom { room, purpose } => (room, purpose),
        _ => panic!("expected to join"),
    };
    assert_eq!(room, "call_alice_bob");
    let mut msgs = bob.join_succeeded(room.clone(), purpose);
    assert_eq!(msgs.len(), 1);
    match alice.handle_signal(msgs.remove(0)) {
        Action::JoinRoom { room: r, purpose: JoinPurpose::AcceptedCall { callee } } => {
            assert_eq!(r, room);
            assert_eq!(callee, "bob");
        },
        _ => panic!("the caller joins the same room"),
    }
}

#[test]
fn public_room_is_listed_and_withdrawn_elsewhere() {
    let mut host = client("host", &["guest"]);
    let mut guest = client("guest", &["host"]);
    let msgs = host.join_succeeded(
        "party".to_string(),
        JoinPurpose::OwnRoom { invited: vec!["guest".to_string()], is_public: true },
    );
    for m in msgs {
        let _ = guest.handle_signal(m);
    }
    assert_eq!(guest.announced_rooms.len(), 1);
    assert_eq!(guest.status_messages.len(), 1);
    let bye = host.shutdown_message().expect("a hosted public room is withdrawn");
    let _ = guest.handle_signal(bye);
    assert!(guest.announced_rooms.is_empty());
}

#[test]
fn mute_twice_restores() {
    let mut s = client("alice", &[]);
    let _ = s.join_succeeded("r".to_string(), JoinPurpose::PublicRoom);
    assert!(matches!(s.handle_key(Key::Char('m')), Action::SetMicMuted(true)));
    assert!(matches!(s.handle_key(Key::Char('m')), Action::SetMicMuted(false)));
    assert!(!s.is_muted);
}

#[test]
fn focus_index_stays_below_four() {
    let mut s = client("alice", &["bob"]);
    let _ = s.handle_key(Key::Char('s'));
    let keys = [Key::Tab, Key::Up, Key::BackTab, Key::Down, Key::Tab, Key::Tab, Key::Up, Key::Right, Key::Char('x')];
    for _ in 0..10 {
        for k in keys {
            let _ = s.handle_key(k);
            assert!(s.active_input_index < 4);
        }
    }
    let _ = s.handle_key(Key::Tab);
    let before = s.active_input_index;
    let _ = s.handle_key(Key::Tab);
    let _ = s.handle_key(Key::BackTab);
    assert_eq!(s.active_input_index, before);
}

#[test]
fn messages_for_someone_else_change_nothing() {
    let mut s = client("alice", &["bob"]);
    let before = (s.screen.clone(), s.status_messages.clone());
    for m in [
        SignalingMessage::CallRequest { from: "bob".to_string(), to: "carol".to_string() },
        SignalingMessage::CallAccepted { from: "bob".to_string(), to: "carol".to_string(), room: "r".to_string() },
        SignalingMessage::CallRejected { from: "bob".to_string(), to: "carol".to_string() },
        SignalingMessage::RoomInvite { from: "bob".to_string(), to: "carol".to_string(), room: "r".to_string() },
    ] {
        assert!(matches!(s.handle_signal(m), Action::Nothing));
    }
    assert_eq!((s.screen.clone(), s.status_messages.clone()), before);
}

#[test]
fn saved_settings_prefill_the_next_session() {
    let mut s = AppState::new(Config {
        livekit_url: "wss://a".to_string(),
        api_key: "k1".to_string(),
        api_secret: "s1".to_string(),
        last_username: String::new(),
        render_mode: Some("halfblock".to_string()),
    });
    let saved = s.lobby_connected("erin".to_string(), vec![]);
    let next = AppState::new(saved);
    assert_eq!(next.input_buffer, "erin");
    assert_eq!(next.livekit_url, "wss://a");
    assert_eq!((next.api_key.as_str(), next.api_secret.as_str()), ("k1", "s1"));
    assert_eq!(next.render_mode, s.render_mode);
}

#[test]
fn renderer_toggles_back() {
    let mut s = client("alice", &[]);
    let _ = s.join_succeeded("r".to_string(), JoinPurpose::PublicRoom);
    let start = s.render_mode;
    let _ = s.handle_key(Key::Char('r'));
    assert_ne!(s.render_mode, start);
    let _ = s.handle_key(Key::Char('r'));
    assert_eq!(s.render_mode, start);
}
