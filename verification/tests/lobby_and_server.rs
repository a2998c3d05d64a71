use livekit_tui_client::app_state::AnnouncedRoom;
use livekit_tui_client::config::{render_mode_from_config, render_mode_name, Config};
use livekit_tui_client::app_state::RenderMode;
use livekit_tui_client::presence::{announce_room, other_users, participant_connected, participant_disconnected, withdraw_room};
use livekit_tui_client::server::{server_token_claims, ClientMessage, Delivery, ServerMessage, SignalingServer};
use livekit_tui_client::text::{decimal, is_white_space, strip_line_breaks, trim};
use livekit_tui_client::token::token_claims;

#[test]
fn presence_list_updates() {
    let mut list = vec!["bob".to_string()];
    participant_connected(&mut list, "carol".to_string());
    participant_connected(&mut list, "bob".to_string());
    assert_eq!(list, vec!["bob".to_string(), "carol".to_string()]);
    participant_disconnected(&mut list, &"bob".to_string());
    assert_eq!(list, vec!["carol".to_string()]);
    participant_disconnected(&mut list, &"zed".to_string());
    assert_eq!(list, vec!["carol".to_string()]);
    let all = vec!["a".to_string(), "me".to_string(), "b".to_string(), "me".to_string()];
    assert_eq!(other_users(&all, &"me".to_string()), vec!["a".to_string(), "b".to_string()]);
}

#[test]
fn room_list_updates() {
    let mut rooms: Vec<AnnouncedRoom> = Vec::new();
    announce_room(&mut rooms, "bob".to_string(), "jam".to_string());
    announce_room(&mut rooms, "bob".to_string(), "jam".to_string());
    announce_room(&mut rooms, "carol".to_string(), "jam".to_string());
    assert_eq!(rooms.len(), 2);
    withdraw_room(&mut rooms, &"bob".to_string(), &"jam".to_string());
    assert_eq!(rooms.len(), 1);
    assert_eq!(rooms[0].owner, "carol");
}

#[test]
fn config_fallback_and_renderer_names() {
    let c = Config::from_environment(None, Some("k".to_string()), None);
    assert_eq!(c.livekit_url, "wss://your-project.livekit.cloud");
    assert_eq!(c.api_key, "k");
    assert_eq!(c.api_secret, "");
    assert_eq!(c.last_username, "");
    assert_eq!(c.render_mode, None);
    let d = Config::from_environment(Some("wss://x".to_string()), None, Some("s".to_string()));
    assert_eq!((d.livekit_url.as_str(), d.api_secret.as_str()), ("wss://x", "s"));
    assert_eq!(render_mode_from_config(&Some("halfblock".to_string())), RenderMode::HalfBlock);
    assert_eq!(render_mode_from_config(&Some("HalfBlock".to_string())), RenderMode::Braille);
    assert_eq!(render_mode_from_config(&None), RenderMode::Braille);
    for m in [RenderMode::Braille, RenderMode::HalfBlock] {
        assert_eq!(render_mode_from_config(&Some(render_mode_name(m))), m);
    }
}

#[test]
fn token_claims_window() {
    let c = token_claims("key", "alice", "lobby", 1_000);
    assert_eq!((c.iss.as_str(), c.sub.as_str(), c.name.as_str()), ("key", "alice", "alice"));
    assert!(c.video.roomCreate && c.video.roomJoin);
    assert_eq!(c.video.room, "lobby");
    assert_eq!((c.nbf, c.exp), (1_000, 4_600));
    let s = server_token_claims("key", "bob", "room_a_b", 5);
    assert_eq!((s.exp, s.nbf), (3_605, 5));
    assert!(s.video.roomJoin);
    assert_eq!(s.video.room, "room_a_b");
}

#[test]
fn text_helpers() {
    assert_eq!(trim("\t a b \n"), "a b");
    assert_eq!(trim("   "), "");
    assert_eq!(trim("\u{3000}x\u{3000}"), "x");
    assert_eq!(strip_line_breaks("a\r\nb\n"), "ab");
    assert_eq!(decimal(0), "0");
    assert_eq!(decimal(907), "907");
}

fn names(d: &Delivery) -> Option<Vec<String>> {
    match d {
        Delivery::BroadcastUserList(l) => Some(l.clone()),
        _ => None,
    }
}

#[test]
fn server_login_and_calls() {
    let mut srv = SignalingServer::new();
    let mut a: Option<String> = None;
    let mut b: Option<String> = None;
    let out = srv.handle(&mut a, ClientMessage::Login { username: "alice".to_string() });
    assert_eq!(out.len(), 2);
    assert!(matches!(&out[0], Delivery::ToSender(ServerMessage::LoginSuccess { username }) if username == "alice"));
    assert_eq!(names(&out[1]), Some(vec!["alice".to_string()]));
    let out = srv.handle(&mut b, ClientMessage::Login { username: "alice".to_string() });
    assert!(matches!(&out[0], Delivery::ToSender(ServerMessage::Error { message }) if message == "Username already taken"));
    assert_eq!(b, None);
    let out = srv.handle(&mut b, ClientMessage::CallRequest { target_username: "alice".to_string() });
    assert!(out.is_empty());
    let _ = srv.handle(&mut b, ClientMessage::Login { username: "bob".to_string() });
    let out = srv.handle(&mut b, ClientMessage::CallRequest { target_username: "alice".to_string() });
    assert!(matches!(&out[0], Delivery::ToUser(to, ServerMessage::IncomingCall { from_username }) if to == "alice" && from_username == "bob"));
    let out = srv.handle(&mut b, ClientMessage::CallRequest { target_username: "zed".to_string() });
    assert!(matches!(&out[0], Delivery::ToSender(ServerMessage::Error { message }) if message == "Target user offline"));
    let out = srv.handle(&mut a, ClientMessage::CallAccept { caller_username: "bob".to_string() });
    assert!(matches!(&out[0], Delivery::CallTokens { caller, callee, room } if caller == "bob" && callee == "alice" && room == "room_bob_alice"));
    let out = srv.handle(&mut a, ClientMessage::CallReject { caller_username: "bob".to_string() });
    assert!(matches!(&out[0], Delivery::ToUser(to, ServerMessage::CallRejected { target_username }) if to == "bob" && target_username == "alice"));
    let out = srv.disconnect(a);
    assert_eq!(names(&out[0]), Some(vec!["bob".to_string()]));
    assert!(srv.disconnect(None).is_empty());
    assert_eq!(srv.users, vec!["bob".to_string()]);
}

#[test]
fn white_space_matches_std_for_every_char() {
    for u in 0u32..=0x10FFFF {
        if let Some(c) = char::from_u32(u) {
            assert_eq!(is_white_space(c), c.is_whitespace(), "U+{:04X}", u);
        }
    }
    assert_eq!(trim("alice"), "alice");
    assert_eq!(trim("\u{85}\u{A0}bob\u{2029}"), "bob");
}
