use livekit_tui_client::app_state::{AppScreen, AppState, RenderMode, StatusKind};
use livekit_tui_client::config::Config;
use livekit_tui_client::tui::{
    calling_text, contact_item, cursor_marker, disconnect_notice, error_text, field_line, footer_text,
    grid_dims, header_text, invite_checkbox, invite_heading, invite_title, invite_user_label, meter_width,
    owner_label, participant_quality_text, quality_icon, recent_status, renderer_label, renderer_line,
    ringing_text, room_label, room_name_entry, self_participant_text, signal_bars_detail, signal_label,
    signal_tone, size_clamp, visibility_label, vu_bar, Tone, status_tone, notice_title, row_look, RowLook,
};

fn state() -> AppState {
    let mut s = AppState::new(Config {
        livekit_url: String::new(),
        api_key: String::new(),
        api_secret: String::new(),
        last_username: String::new(),
        render_mode: None,
    });
    s.username = "alice".to_string();
    s
}

#[test]
fn grid_dims_table() {
    assert_eq!(grid_dims(0), (1, 1));
    assert_eq!(grid_dims(1), (1, 1));
    assert_eq!(grid_dims(2), (2, 1));
    assert_eq!(grid_dims(3), (2, 2));
    assert_eq!(grid_dims(4), (2, 2));
    assert_eq!(grid_dims(5), (3, 2));
    assert_eq!(grid_dims(6), (3, 2));
    assert_eq!(grid_dims(7), (3, 3));
    assert_eq!(grid_dims(9), (3, 3));
    assert_eq!(grid_dims(10), (4, 3));
    assert_eq!(grid_dims(16), (4, 4));
    assert_eq!(grid_dims(17), (5, 4));
    assert_eq!(grid_dims(100), (10, 10));
    assert_eq!(grid_dims(101), (11, 10));
    assert_eq!(grid_dims(1usize << 32), (65536, 65536));
    assert_eq!(grid_dims((1usize << 40) + 1), (1048577, 1048576));
    assert_eq!(grid_dims(0xFFFF_FFFE_0000_0001), (u32::MAX, u32::MAX));
}

#[test]
fn grid_dims_matches_float_formula() {
    for n in 10usize..2000 {
        let cols = (n as f64).sqrt().ceil() as u32;
        let rows = ((n as f64) / cols as f64).ceil() as u32;
        assert_eq!(grid_dims(n), (cols, rows));
    }
}

#[test]
fn size_clamp_takes_the_smaller() {
    assert_eq!(size_clamp(30, 40), 30);
    assert_eq!(size_clamp(50, 40), 40);
    assert_eq!(size_clamp(0, 0), 0);
}

#[test]
fn quality_glyphs() {
    assert_eq!(quality_icon(0), "⏳");
    assert_eq!(quality_icon(1), "🔴");
    assert_eq!(quality_icon(2), "🟡");
    assert_eq!(quality_icon(3), "🟢");
    assert_eq!(quality_icon(9), "❓");
    assert_eq!(signal_bars_detail(0), "▁▁▁");
    assert_eq!(signal_bars_detail(1), "▂▁▁");
    assert_eq!(signal_bars_detail(2), "▄▄▁");
    assert_eq!(signal_bars_detail(3), "█▆▄");
    assert_eq!(signal_bars_detail(4), "   ");
    assert_eq!(signal_label(0), "接続中");
    assert_eq!(signal_label(3), "強");
    assert_eq!(signal_label(200), "?");
    assert_eq!(signal_tone(0), Tone::DarkGray);
    assert_eq!(signal_tone(1), Tone::Red);
    assert_eq!(signal_tone(2), Tone::Yellow);
    assert_eq!(signal_tone(3), Tone::Green);
    assert_eq!(signal_tone(7), Tone::DarkGray);
}

#[test]
fn headers_per_screen() {
    let mut s = state();
    s.screen = AppScreen::Login;
    assert_eq!(header_text(&s), " Login ");
    s.screen = AppScreen::ContactList;
    assert_eq!(header_text(&s), " Welcome, alice! | Contacts ");
    s.screen = AppScreen::Settings;
    assert_eq!(header_text(&s), " Settings | alice ");
    s.screen = AppScreen::Ringing { caller: "bob".to_string() };
    assert_eq!(header_text(&s), " Calling... ");
    s.screen = AppScreen::InCall;
    assert_eq!(header_text(&s), " In Call | Mic: ON (Active) ");
    s.is_muted = true;
    s.room_name = "jam".to_string();
    assert_eq!(header_text(&s), " In Call | Mic: OFF (Muted) | Room: jam ");
    s.screen = AppScreen::InviteRoom { room_name: "jam".to_string(), invited_users: vec![] };
    assert_eq!(header_text(&s), " Invite to \"jam\" ");
    s.screen = AppScreen::Error("x".to_string());
    assert_eq!(header_text(&s), " Error ");
    s.screen = AppScreen::RoomBrowser;
    assert_eq!(header_text(&s), " Public Room Browser ");
    s.screen = AppScreen::JoinRoom;
    assert_eq!(header_text(&s), " Group Call — Create or Join a Room ");
}

#[test]
fn footers_per_screen() {
    assert_eq!(footer_text(&AppScreen::Login), " [Tab] 次のフィールド | [Enter] 接続 | [Esc] 終了 ");
    assert_eq!(footer_text(&AppScreen::Calling { target: "b".to_string() }), " [q/Esc] キャンセル ");
    assert_eq!(footer_text(&AppScreen::InCall), " [m] マイク | [r] レンダラ切替 | [q/Esc] 通話終了 ");
    assert_eq!(footer_text(&AppScreen::Error(String::new())), " [任意のキー] 閉じる ");
}

#[test]
fn form_lines_mask_secrets_by_byte() {
    assert_eq!(field_line("API Secret", &"abc".to_string(), true, true), "> API Secret: ***\u{2588}");
    assert_eq!(field_line("API Secret", &"é".to_string(), false, true), "  API Secret: **");
    assert_eq!(field_line("API Secret", &String::new(), false, true), "  API Secret: ");
    assert_eq!(field_line("API Key", &"k1".to_string(), false, false), "  API Key: k1");
    assert_eq!(renderer_label(RenderMode::HalfBlock), "Zig (HalfBlock)");
    assert_eq!(renderer_line(RenderMode::Braille, true), "> レンダラ: Odin (Braille) < >");
    assert_eq!(renderer_line(RenderMode::HalfBlock, false), "  レンダラ: Zig (HalfBlock)");
}

#[test]
fn list_entry_texts() {
    assert_eq!(contact_item(&"bob".to_string(), 3), "👤 bob  🟢 █▆▄");
    assert_eq!(contact_item(&"bob".to_string(), 8), "👤 bob  ❓    ");
    assert_eq!(participant_quality_text(1), "🔴 ▂▁▁ (弱)");
    assert_eq!(self_participant_text("alice", true), "🔇 alice (You)");
    assert_eq!(self_participant_text("alice", false), "🎙️ alice (You)");
    assert_eq!(cursor_marker(true), "▶ ");
    assert_eq!(cursor_marker(false), "  ");
    assert_eq!(room_label(&"jam".to_string()), "🏠 jam ");
    assert_eq!(owner_label(&"bob".to_string()), "(作成者: bob)");
    assert_eq!(invite_checkbox(true), "[✓]");
    assert_eq!(invite_checkbox(false), "[ ]");
    assert_eq!(invite_user_label(&"bob".to_string()), " 👤 bob");
    assert_eq!(invite_title(0), " ユーザーを招待 (0 人選択中) ");
    assert_eq!(invite_title(12), " ユーザーを招待 (12 人選択中) ");
    assert_eq!(invite_heading(&"jam".to_string()), "ルーム \"jam\" に招待するユーザーを選択");
    assert_eq!(visibility_label(true), "公開 (Public)");
    assert_eq!(visibility_label(false), "非公開 (Private)");
}

#[test]
fn screen_bodies() {
    assert_eq!(calling_text(&"bob".to_string()), "bobに発信中...\n\n応答を待っています...");
    assert_eq!(ringing_text(&"bob".to_string()), "bobから着信中\n\n[y] 応答  [n] 拒否");
    assert_eq!(error_text(&"oops".to_string()), "エラー:\n\noops\n\n任意のキーで戻る");
    assert_eq!(disconnect_notice(&"bob".to_string()), "⚠  bob が切断しました\n\n[任意のキー] で閉じる");
    assert_eq!(room_name_entry(&String::new()), "  例: team-meeting-2024\u{2588}");
    assert_eq!(room_name_entry(&"jam".to_string()), "  jam\u{2588}");
}

#[test]
fn recent_status_newest_first() {
    let log: Vec<(String, StatusKind)> = (0..6).map(|i| (format!("s{}", i), StatusKind::Leave)).collect();
    let r = recent_status(&log);
    let names: Vec<&str> = r.iter().map(|p| p.0.as_str()).collect();
    assert_eq!(names, vec!["s5", "s4", "s3", "s2"]);
    let short = vec![("a".to_string(), StatusKind::Join)];
    assert_eq!(recent_status(&short), short);
    assert!(recent_status(&Vec::new()).is_empty());
}

#[test]
fn level_meter_text() {
    assert_eq!(vu_bar(3, 5), "[███░░]");
    assert_eq!(vu_bar(10, 4), "[████]");
    assert_eq!(vu_bar(0, 2), "[░░]");
    assert_eq!(vu_bar(3, 0), "");
    assert_eq!(meter_width(5), 0);
    assert_eq!(meter_width(25), 15);
    assert_eq!(meter_width(100), 20);
}

#[test]
fn notice_and_row_looks() {
    assert_eq!(status_tone(StatusKind::Join), Tone::Green);
    assert_eq!(status_tone(StatusKind::Leave), Tone::Red);
    assert_eq!(status_tone(StatusKind::Info), Tone::Yellow);
    assert_eq!(notice_title(true), " ⚠ 通知 (切断あり) ");
    assert_eq!(notice_title(false), " 通知 ");
    assert_eq!(row_look(2, 2), RowLook::Highlighted);
    assert_eq!(row_look(1, 2), RowLook::Plain);
}
