use livekit_tui_client::app_state::{AppScreen, AppState, RenderMode, StatusKind};
use livekit_tui_client::client::{Action, JoinFailure, JoinPurpose, Key};
use livekit_tui_client::config::Config;
use livekit_tui_client::shared::SignalingMessage;

fn cfg() -> Config {
    Config {
        livekit_url: "wss://example.test".to_string(),
        api_key: "key".to_string(),
        api_secret: "secret".to_string(),
        last_username: "alice".to_string(),
        render_mode: None,
    }
}

fn logged_in(users: &[&str]) -> AppState {
    let mut s = AppState::new(cfg());
    let online: Vec<String> = users.iter().map(|u| u.to_string()).collect();
    let _ = s.lobby_connected("alice".to_string(), online);
    s
}

fn screen_is_contacts(s: &AppState) -> bool {
    matches!(s.screen, AppScreen::ContactList)
}

#[test]
fn new_state_is_prefilled_login() {
    let s = AppState::new(cfg());
    assert_eq!(s.screen, AppScreen::Login);
    assert_eq!(s.input_buffer, "alice");
    assert_eq!(s.livekit_url, "wss://example.test");
    assert_eq!(s.render_mode, RenderMode::Braille);
    assert!(s.room_is_public);
    assert!(!s.is_muted);
    let mut c = cfg();
    c.render_mode = Some("halfblock".to_string());
    assert_eq!(AppState::new(c).render_mode, RenderMode::HalfBlock);
}

#[test]
fn login_focus_cycles_through_four_fields() {
    let mut s = AppState::new(cfg());
    for expected in [1usize, 2, 3, 0] {
        let _ = s.handle_key(Key::Tab);
        assert_eq!(s.active_input_index, expected);
    }
    let _ = s.handle_key(Key::BackTab);
    assert_eq!(s.active_input_index, 3);
    let _ = s.handle_key(Key::Down);
    assert_eq!(s.active_input_index, 0);
    let _ = s.handle_key(Key::Up);
    let _ = s.handle_key(Key::Tab);
    assert_eq!(s.active_input_index, 0);
}

#[test]
fn login_typing_and_paste_edit_the_focused_field() {
    let mut s = AppState::new(cfg());
    let _ = s.handle_key(Key::Char('!'));
    assert_eq!(s.input_buffer, "alice!");
    let _ = s.handle_key(Key::Backspace);
    let _ = s.handle_key(Key::Backspace);
    assert_eq!(s.input_buffer, "alic");
    let _ = s.handle_key(Key::Tab);
    s.handle_paste("/x\r\ny\n".to_string());
    assert_eq!(s.livekit_url, "wss://example.test/xy");
    s.api_secret = String::new();
    let _ = s.handle_key(Key::Tab);
    let _ = s.handle_key(Key::Tab);
    let _ = s.handle_key(Key::Backspace);
    assert_eq!(s.api_secret, "");
}

#[test]
fn login_enter_trims_the_name() {
    let mut s = AppState::new(cfg());
    s.input_buffer = "  bob \t".to_string();
    match s.handle_key(Key::Enter) {
        Action::ConnectLobby { username } => assert_eq!(username, "bob"),
        _ => panic!("expected a lobby connection"),
    }
    s.input_buffer = "   ".to_string();
    assert!(matches!(s.handle_key(Key::Enter), Action::Nothing));
    assert!(matches!(s.handle_key(Key::Esc), Action::Quit));
    assert_eq!(s.screen, AppScreen::Login);
}

#[test]
fn lobby_outcomes() {
    let mut s = AppState::new(cfg());
    let saved = s.lobby_connected("alice".to_string(), vec!["bob".to_string()]);
    assert_eq!(saved.last_username, "alice");
    assert_eq!(saved.render_mode, Some("braille".to_string()));
    assert_eq!(saved.api_key, "key");
    assert_eq!(s.screen, AppScreen::RoomBrowser);
    assert_eq!(s.username, "alice");
    assert_eq!(s.input_buffer, "");
    assert_eq!(s.users, vec!["bob".to_string()]);
    assert!(s.lobby_connected);

    let mut t = AppState::new(cfg());
    t.lobby_failed(JoinFailure::Connect("refused".to_string()));
    assert_eq!(t.screen, AppScreen::Error("LiveKit 接続失敗: refused".to_string()));
    t.lobby_failed(JoinFailure::Token("bad key".to_string()));
    assert_eq!(t.screen, AppScreen::Error("トークンエラー: bad key".to_string()));
}

#[test]
fn calling_a_contact() {
    let mut s = logged_in(&["bob", "alice", "carol"]);
    let _ = s.handle_key(Key::Char('c'));
    assert!(screen_is_contacts(&s));
    let _ = s.handle_key(Key::Down);
    let _ = s.handle_key(Key::Down);
    assert_eq!(s.selected_index, 1);
    let _ = s.handle_key(Key::Up);
    let _ = s.handle_key(Key::Up);
    assert_eq!(s.selected_index, 0);
    match s.handle_key(Key::Enter) {
        Action::Send(SignalingMessage::CallRequest { from, to }) => {
            assert_eq!(from, "alice");
            assert_eq!(to, "bob");
        },
        _ => panic!("expected a call request"),
    }
    assert_eq!(s.screen, AppScreen::Calling { target: "bob".to_string() });
    let _ = s.handle_key(Key::Esc);
    assert!(screen_is_contacts(&s));
}

#[test]
fn out_of_range_selection_is_reported() {
    let mut s = logged_in(&["bob"]);
    let _ = s.handle_key(Key::Char('c'));
    s.selected_index = 5;
    assert!(s.key_would_panic(Key::Enter));
    assert!(!s.key_would_panic(Key::Down));
    s.selected_index = 0;
    assert!(!s.key_would_panic(Key::Enter));
}

#[test]
fn contact_list_shortcuts() {
    let mut s = logged_in(&["bob"]);
    let _ = s.handle_key(Key::Char('c'));
    let _ = s.handle_key(Key::Char('b'));
    assert_eq!(s.screen, AppScreen::RoomBrowser);
    let _ = s.handle_key(Key::Char('q'));
    let _ = s.handle_key(Key::Char('s'));
    assert_eq!(s.screen, AppScreen::Settings);
    assert_eq!(s.active_input_index, 0);
    let _ = s.handle_key(Key::Esc);
    assert!(matches!(s.handle_key(Key::Char('q')), Action::Quit));
}

#[test]
fn incoming_call_rings_or_is_refused() {
    let mut s = logged_in(&["bob"]);
    let _ = s.handle_key(Key::Char('c'));
    let a = s.handle_signal(SignalingMessage::CallRequest { from: "bob".to_string(), to: "carol".to_string() });
    assert!(matches!(a, Action::Nothing));
    assert!(screen_is_contacts(&s));
    let _ = s.handle_signal(SignalingMessage::CallRequest { from: "bob".to_string(), to: "alice".to_string() });
    assert_eq!(s.screen, AppScreen::Ringing { caller: "bob".to_string() });
    match s.handle_signal(SignalingMessage::CallRequest { from: "dave".to_string(), to: "alice".to_string() }) {
        Action::Send(SignalingMessage::CallRejected { from, to }) => {
            assert_eq!(from, "alice");
            assert_eq!(to, "dave");
        },
        _ => panic!("a second caller is turned away"),
    }
}

#[test]
fn answering_a_call() {
    let mut s = logged_in(&["bob"]);
    let _ = s.handle_key(Key::Char('c'));
    let _ = s.handle_signal(SignalingMessage::CallRequest { from: "bob".to_string(), to: "alice".to_string() });
    let (room, purpose) = match s.handle_key(Key::Char('y')) {
        Action::JoinRoom { room, purpose } => (room, purpose),
        _ => panic!("expected a room to join"),
    };
    assert_eq!(room, "call_bob_alice");
    let msgs = s.join_succeeded(room, purpose);
    assert_eq!(
        msgs,
        vec![SignalingMessage::CallAccepted {
            from: "alice".to_string(),
            to: "bob".to_string(),
            room: "call_bob_alice".to_string(),
        }]
    );
    assert_eq!(s.screen, AppScreen::InCall);
    assert!(s.call_connected);
    assert_eq!(s.room_name, "");
}

#[test]
fn declining_a_call() {
    let mut s = logged_in(&["bob"]);
    let _ = s.handle_key(Key::Char('c'));
    let _ = s.handle_signal(SignalingMessage::CallRequest { from: "bob".to_string(), to: "alice".to_string() });
    match s.handle_key(Key::Char('n')) {
        Action::Send(SignalingMessage::CallRejected { from, to }) => {
            assert_eq!(from, "alice");
            assert_eq!(to, "bob");
        },
        _ => panic!("expected a refusal"),
    }
    assert!(screen_is_contacts(&s));
}

#[test]
fn our_call_accepted_refused_or_failing() {
    let mut s = logged_in(&["bob"]);
    let a = s.handle_signal(SignalingMessage::CallAccepted {
        from: "bob".to_string(),
        to: "alice".to_string(),
        room: "call_alice_bob".to_string(),
    });
    let (room, purpose) = match a {
        Action::JoinRoom { room, purpose } => (room, purpose),
        _ => panic!("expected a room to join"),
    };
    assert_eq!(room, "call_alice_bob");
    s.join_failed(&purpose, JoinFailure::Connect("timeout".to_string()));
    assert_eq!(s.screen, AppScreen::Error("bob との通話参加に失敗: timeout".to_string()));
    s.join_failed(&JoinPurpose::AnswerCall { caller: "bob".to_string() }, JoinFailure::Connect("x".to_string()));
    assert_eq!(s.screen, AppScreen::Error("通話ルーム参加失敗: x".to_string()));
    s.join_failed(&JoinPurpose::PublicRoom, JoinFailure::Connect("y".to_string()));
    assert_eq!(s.screen, AppScreen::Error("ルーム参加失敗: y".to_string()));

    let _ = s.handle_key(Key::Char('x'));
    assert!(screen_is_contacts(&s));
    let _ = s.handle_key(Key::Enter);
    let _ = s.handle_signal(SignalingMessage::CallRejected { from: "bob".to_string(), to: "alice".to_string() });
    assert_eq!(s.screen, AppScreen::Error("bob が通話を拒否しました".to_string()));
}

#[test]
fn hanging_up_and_remote_end() {
    let mut s = logged_in(&["bob"]);
    let _ = s.join_succeeded("r1".to_string(), JoinPurpose::PublicRoom);
    assert_eq!(s.room_name, "r1");
    match s.handle_key(Key::Char('m')) {
        Action::SetMicMuted(m) => assert!(m),
        _ => panic!("expected a mute"),
    }
    assert!(s.is_muted);
    let _ = s.handle_key(Key::Char('r'));
    assert_eq!(s.render_mode, RenderMode::HalfBlock);
    s.disconnected_peer = Some("bob".to_string());
    assert!(matches!(s.handle_key(Key::Char('q')), Action::Nothing));
    assert_eq!(s.disconnected_peer, None);
    assert_eq!(s.screen, AppScreen::InCall);
    assert!(matches!(s.handle_key(Key::Esc), Action::CloseCall));
    assert!(screen_is_contacts(&s));
    assert_eq!(s.room_name, "");
    assert!(!s.call_connected);

    let _ = s.join_succeeded("r2".to_string(), JoinPurpose::PublicRoom);
    let a = s.handle_signal(SignalingMessage::CallEnded { from: "bob".to_string(), to: "zed".to_string() });
    assert!(matches!(a, Action::CloseCall));
    assert!(screen_is_contacts(&s));
}

#[test]
fn room_listing_from_lobby_messages() {
    let mut s = logged_in(&["bob"]);
    let ann = || SignalingMessage::RoomAnnounce { from: "bob".to_string(), room: "jam".to_string() };
    let _ = s.handle_signal(ann());
    let _ = s.handle_signal(ann());
    assert_eq!(s.announced_rooms.len(), 1);
    let _ = s.handle_signal(SignalingMessage::RoomAnnounce { from: "alice".to_string(), room: "mine".to_string() });
    assert_eq!(s.announced_rooms.len(), 1);
    match s.handle_key(Key::Enter) {
        Action::JoinRoom { room, purpose } => {
            assert_eq!(room, "jam");
            assert!(matches!(purpose, JoinPurpose::PublicRoom));
        },
        _ => panic!("expected to join the listed room"),
    }
    let _ = s.handle_signal(SignalingMessage::RoomRemove { from: "bob".to_string(), room: "jam".to_string() });
    assert!(s.announced_rooms.is_empty());
    assert!(matches!(s.handle_key(Key::Enter), Action::Nothing));
}

#[test]
fn invitation_becomes_status_line() {
    let mut s = logged_in(&["bob"]);
    let _ = s.handle_signal(SignalingMessage::RoomInvite {
        from: "bob".to_string(),
        to: "alice".to_string(),
        room: "jam".to_string(),
    });
    assert_eq!(
        s.status_messages,
        vec![("bob から \"jam\" に招待されました。[j] で参加できます".to_string(), StatusKind::Info)]
    );
    let _ = s.handle_signal(SignalingMessage::RoomInvite {
        from: "bob".to_string(),
        to: "carol".to_string(),
        room: "jam".to_string(),
    });
    assert_eq!(s.status_messages.len(), 1);
}

#[test]
fn status_log_keeps_latest_twenty() {
    let mut s = AppState::new(cfg());
    for i in 0..25 {
        s.push_status(format!("m{}", i), StatusKind::Join);
    }
    assert_eq!(s.status_messages.len(), 20);
    assert_eq!(s.status_messages[0].0, "m5");
    assert_eq!(s.status_messages[19].0, "m24");
}

#[test]
fn hosting_a_room_with_invitations() {
    let mut s = logged_in(&["bob", "carol", "alice"]);
    let _ = s.handle_key(Key::Char('j'));
    assert_eq!(s.screen, AppScreen::JoinRoom);
    for c in " te am ".chars() {
        let _ = s.handle_key(Key::Char(c));
    }
    let _ = s.handle_key(Key::Backspace);
    let _ = s.handle_key(Key::Char('p'));
    assert!(!s.room_is_public);
    let _ = s.handle_key(Key::Char('p'));
    let _ = s.handle_key(Key::Enter);
    assert_eq!(s.screen, AppScreen::InviteRoom { room_name: "te am".to_string(), invited_users: vec![] });
    let _ = s.handle_key(Key::Down);
    let _ = s.handle_key(Key::Char(' '));
    let _ = s.handle_key(Key::Up);
    let _ = s.handle_key(Key::Char(' '));
    let _ = s.handle_key(Key::Char(' '));
    let _ = s.handle_key(Key::Char(' '));
    assert_eq!(
        s.screen,
        AppScreen::InviteRoom {
            room_name: "te am".to_string(),
            invited_users: vec!["carol".to_string(), "bob".to_string()],
        }
    );
    let (room, purpose) = match s.handle_key(Key::Enter) {
        Action::JoinRoom { room, purpose } => (room, purpose),
        _ => panic!("expected to join our room"),
    };
    let msgs = s.join_succeeded(room, purpose);
    assert_eq!(
        msgs,
        vec![
            SignalingMessage::RoomInvite { from: "alice".to_string(), to: "carol".to_string(), room: "te am".to_string() },
            SignalingMessage::RoomInvite { from: "alice".to_string(), to: "bob".to_string(), room: "te am".to_string() },
            SignalingMessage::RoomAnnounce { from: "alice".to_string(), room: "te am".to_string() },
        ]
    );
    assert_eq!(s.room_name, "te am");
    assert_eq!(
        s.shutdown_message(),
        Some(SignalingMessage::RoomRemove { from: "alice".to_string(), room: "te am".to_string() })
    );
    let _ = s.handle_key(Key::Esc);
    assert_eq!(s.shutdown_message(), None);
}

#[test]
fn invite_screen_back_and_empty_name() {
    let mut s = logged_in(&[]);
    let _ = s.handle_key(Key::Char('j'));
    let _ = s.handle_key(Key::Enter);
    assert_eq!(s.screen, AppScreen::JoinRoom);
    let _ = s.handle_key(Key::Char('x'));
    let _ = s.handle_key(Key::Enter);
    let _ = s.handle_key(Key::Char(' '));
    let _ = s.handle_key(Key::Esc);
    assert_eq!(s.screen, AppScreen::JoinRoom);
    let _ = s.handle_key(Key::Esc);
    assert!(screen_is_contacts(&s));
}

#[test]
fn settings_edit_and_save() {
    let mut s = logged_in(&[]);
    let _ = s.handle_key(Key::Char('c'));
    let _ = s.handle_key(Key::Char('s'));
    let _ = s.handle_key(Key::Char('/'));
    assert_eq!(s.livekit_url, "wss://example.test/");
    s.handle_paste("a\nb".to_string());
    assert_eq!(s.livekit_url, "wss://example.test/ab");
    let _ = s.handle_key(Key::Left);
    assert_eq!(s.render_mode, RenderMode::Braille);
    let _ = s.handle_key(Key::BackTab);
    assert_eq!(s.active_input_index, 3);
    let _ = s.handle_key(Key::Right);
    assert_eq!(s.render_mode, RenderMode::HalfBlock);
    match s.handle_key(Key::Enter) {
        Action::SaveConfig(c) => {
            assert_eq!(c.livekit_url, "wss://example.test/ab");
            assert_eq!(c.last_username, "alice");
            assert_eq!(c.render_mode, Some("halfblock".to_string()));
        },
        _ => panic!("expected the settings to be saved"),
    }
    assert!(screen_is_contacts(&s));
    assert_eq!(s.active_input_index, 0);
    s.handle_paste("ignored".to_string());
    assert_eq!(s.livekit_url, "wss://example.test/ab");
}

#[test]
fn on_login_screen_reports_the_screen() {
    let s = AppState::new(cfg());
    assert!(s.on_login_screen());
    assert!(!logged_in(&[]).on_login_screen());
}

#[test]
fn set_users_replaces_the_list() {
    let mut s = logged_in(&["bob"]);
    s.set_users(vec!["carol".to_string()]);
    assert_eq!(s.users, vec!["carol".to_string()]);
}
