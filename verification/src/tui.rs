use crate::app_state::{AppScreen, AppState, RenderMode, ScreenView, StatusKind, status_views};
use crate::text::{decimal, decimal_spec};
use vstd::prelude::*;

verus! {

/// Smallest `c` with `c * c >= n` (for `n >= 1`), i.e. the ceiling of the square root.
pub open spec fn is_ceil_sqrt(n: int, c: int) -> bool {
    &&& c >= 1
    &&& c * c >= n
    &&& (c - 1) * (c - 1) < n
}

/// Ceiling of `a / b` for positive `b`.
pub open spec fn ceil_div(a: int, b: int) -> int {
    (a + b - 1) / b
}

/// Grid shape (columns, rows) used to tile `n` video streams.
pub open spec fn grid_dims_spec(n: int, cols: int, rows: int) -> bool {
    if n <= 1 {
        cols == 1 && rows == 1
    } else if n <= 2 {
        cols == 2 && rows == 1
    } else if n <= 4 {
        cols == 2 && rows == 2
    } else if n <= 6 {
        cols == 3 && rows == 2
    } else if n <= 9 {
        cols == 3 && rows == 3
    } else {
        is_ceil_sqrt(n, cols) && rows == ceil_div(n, cols)
    }
}

/// The largest stream count whose grid dimensions fit in `u32`: `(2^32 - 1)^2`.
pub const MAX_GRID_STREAMS: u128 = 0xFFFF_FFFE_0000_0001;

/// Chooses how many columns and rows the video grid has for `n` streams.
pub fn grid_dims(n: usize) -> (res: (u32, u32))
    requires
        n as u128 <= MAX_GRID_STREAMS,
    ensures
        grid_dims_spec(n as int, res.0 as int, res.1 as int),
        1 <= res.0,
        1 <= res.1,
        res.0 as int * res.0 as int >= n,
{
    if n == 0 {
        return (1, 1);
    }
    if n <= 1 {
        return (1, 1);
    }
    if n <= 2 {
        return (2, 1);
    }
    if n <= 4 {
        return (2, 2);
    }
    if n <= 6 {
        return (3, 2);
    }
    if n <= 9 {
        return (3, 3);
    }
    let m: u128 = n as u128;
    let mut lo: u128 = 3;
    let mut hi: u128 = 0xFFFF_FFFF;
    assert(hi * hi >= m) by (nonlinear_arith)
        requires
            hi == 0xFFFF_FFFF,
            m <= MAX_GRID_STREAMS,
    ;
    while hi - lo > 1
        invariant
            3 <= lo < hi <= 0xFFFF_FFFF,
            lo * lo < m,
            hi * hi >= m,
        decreases hi - lo,
    {
        let mid = lo + (hi - lo) / 2;
        assert(mid * mid <= 0xFFFF_FFFF * 0xFFFF_FFFF) by (nonlinear_arith)
            requires
                mid <= 0xFFFF_FFFF,
        ;
        if mid * mid >= m {
            hi = mid;
        } else {
            lo = mid;
        }
    }
    let c = hi;
    let rows: u128 = (m + c - 1) / c;
    assert(1 <= rows <= c) by (nonlinear_arith)
        requires
            c >= 4,
            c * c >= m,
            m >= 10,
            rows as int == (m + c - 1) as int / (c as int),
    ;
    assert(is_ceil_sqrt(n as int, c as int));
    (c as u32, rows as u32)
}

/// The smaller of the wanted size and the available size.
pub fn size_clamp(total: u16, desired: u16) -> (res: u16)
    ensures
        res == if desired <= total { desired } else { total },
{
    if desired <= total { desired } else { total }
}

/// Icon shown for a connection quality level.
pub fn quality_icon(q: u8) -> (res: &'static str)
    ensures
        q == 0 ==> res@ == "⏳"@,
        q == 1 ==> res@ == "🔴"@,
        q == 2 ==> res@ == "🟡"@,
        q == 3 ==> res@ == "🟢"@,
        q > 3 ==> res@ == "❓"@,
{
    match q {
        0 => "⏳",
        1 => "🔴",
        2 => "🟡",
        3 => "🟢",
        _ => "❓",
    }
}


/// Bars drawn for a connection quality level.
pub fn signal_bars_detail(q: u8) -> (res: &'static str)
    ensures
        q == 0 ==> res@ == "▁▁▁"@,
        q == 1 ==> res@ == "▂▁▁"@,
        q == 2 ==> res@ == "▄▄▁"@,
        q == 3 ==> res@ == "█▆▄"@,
        q > 3 ==> res@ == "   "@,
{
    match q {
        0 => "▁▁▁",
        1 => "▂▁▁",
        2 => "▄▄▁",
        3 => "█▆▄",
        _ => "   ",
    }
}

/// Word for a connection quality level in the participant list.
pub fn signal_label(q: u8) -> (res: &'static str)
    ensures
        q == 0 ==> res@ == "接続中"@,
        q == 1 ==> res@ == "弱"@,
        q == 2 ==> res@ == "良好"@,
        q == 3 ==> res@ == "強"@,
        q > 3 ==> res@ == "?"@,
{
    match q {
        0 => "接続中",
        1 => "弱",
        2 => "良好",
        3 => "強",
        _ => "?",
    }
}

/// Color family of a connection quality level.
#[derive(Clone, Copy, Debug, PartialEq, Eq, Structural)]
pub enum Tone {
    DarkGray,
    Red,
    Yellow,
    Green,
}

/// The color family in which a connection quality level is drawn.
pub fn signal_tone(q: u8) -> (t: Tone)
    ensures
        t == (if q == 1 { Tone::Red } else if q == 2 { Tone::Yellow } else if q == 3 { Tone::Green } else { Tone::DarkGray }),
{
    match q {
        0 => Tone::DarkGray,
        1 => Tone::Red,
        2 => Tone::Yellow,
        3 => Tone::Green,
        _ => Tone::DarkGray,
    }
}

/// The color family of a status line: joins green, leaves red, the rest yellow.
pub fn status_tone(kind: StatusKind) -> (t: Tone)
    ensures
        t == (match kind {
            StatusKind::Join => Tone::Green,
            StatusKind::Leave => Tone::Red,
            StatusKind::Info => Tone::Yellow,
        }),
{
    match kind {
        StatusKind::Join => Tone::Green,
        StatusKind::Leave => Tone::Red,
        StatusKind::Info => Tone::Yellow,
    }
}

/// Title of the notice panel during a call, marked while a peer has left.
pub fn notice_title(peer_left: bool) -> (r: &'static str)
    ensures
        r@ == (if peer_left { " ⚠ 通知 (切断あり) "@ } else { " 通知 "@ }),
{
    if peer_left { " ⚠ 通知 (切断あり) " } else { " 通知 " }
}

/// How a list row is drawn.
#[derive(Clone, Copy, Debug, PartialEq, Eq, Structural)]
pub enum RowLook {
    /// The selected row: dark text on cyan.
    Highlighted,
    /// Any other row: white text.
    Plain,
}

/// The look of a list row: highlighted where it is the selected one.
pub fn row_look(index: usize, selected: usize) -> (r: RowLook)
    ensures
        r == (if index == selected { RowLook::Highlighted } else { RowLook::Plain }),
{
    if index == selected { RowLook::Highlighted } else { RowLook::Plain }
}

/// The header line of each screen.
pub open spec fn header_spec(screen: ScreenView, username: Seq<char>, is_muted: bool, room: Seq<char>) -> Seq<char> {
    match screen {
        ScreenView::Login => " Login "@,
        ScreenView::ContactList => " Welcome, "@ + username + "! | Contacts "@,
        ScreenView::Settings => " Settings | "@ + username + " "@,
        ScreenView::Ringing { .. } | ScreenView::Calling { .. } => " Calling... "@,
        ScreenView::JoinRoom => " Group Call — Create or Join a Room "@,
        ScreenView::InCall => " In Call | Mic: "@ + (if is_muted { "OFF (Muted)"@ } else { "ON (Active)"@ })
            + (if room.len() == 0 { Seq::empty() } else { " | Room: "@ + room }) + " "@,
        ScreenView::Error(_) => " Error "@,
        ScreenView::RoomBrowser => " Public Room Browser "@,
        ScreenView::InviteRoom { room_name, .. } => " Invite to \""@ + room_name + "\" "@,
    }
}

/// The header line for the current screen.
pub fn header_text(state: &AppState) -> (r: String)
    ensures
        r@ == header_spec(state@.screen, state@.username, state@.is_muted, state@.room_name),
{
    match &state.screen {
        AppScreen::Login => String::from_str(" Login "),
        AppScreen::ContactList => String::from_str(" Welcome, ").concat(state.username.as_str()).concat("! | Contacts "),
        AppScreen::Settings => String::from_str(" Settings | ").concat(state.username.as_str()).concat(" "),
        AppScreen::Ringing { .. } | AppScreen::Calling { .. } => String::from_str(" Calling... "),
        AppScreen::JoinRoom => String::from_str(" Group Call — Create or Join a Room "),
        AppScreen::InCall => {
            let mic = if state.is_muted { "OFF (Muted)" } else { "ON (Active)" };
            let mut r = String::from_str(" In Call | Mic: ").concat(mic);
            if !state.room_name.as_str().is_empty() {
                r.append(" | Room: ");
                r.append(state.room_name.as_str());
            } else {
                assert(r@ + Seq::<char>::empty() == r@);
            }
            r.append(" ");
            r
        },
        AppScreen::Error(_) => String::from_str(" Error "),
        AppScreen::RoomBrowser => String::from_str(" Public Room Browser "),
        AppScreen::InviteRoom { room_name, .. } => String::from_str(" Invite to \"").concat(room_name.as_str()).concat("\" "),
    }
}

/// The key help shown at the bottom of each screen.
pub open spec fn footer_spec(screen: ScreenView) -> Seq<char> {
    match screen {
        ScreenView::Login => " [Tab] 次のフィールド | [Enter] 接続 | [Esc] 終了 "@,
        ScreenView::ContactList => " [↑↓] 移動 | [Enter] 発信 | [j] ルーム作成 | [b] ルームブラウザ | [s] 設定 | [q] 終了 "@,
        ScreenView::Settings => " [Tab] 次のフィールド | [Enter] 保存して戻る | [Esc] キャンセル "@,
        ScreenView::JoinRoom => " [Enter] 招待画面へ | [p] 公開/非公開切替 | [Esc] 戻る "@,
        ScreenView::RoomBrowser => " [↑↓] 移動 | [Enter] 参加 | [c] コンタクトリスト | [j] ルーム作成 | [Esc] 戻る "@,
        ScreenView::InviteRoom { .. } => " [↑↓] 移動 | [Space] 選択/解除 | [Enter] 招待して参加 | [Esc] 戻る "@,
        ScreenView::Ringing { .. } => " [y] 応答 | [n] 拒否 | [q] 終了 "@,
        ScreenView::Calling { .. } => " [q/Esc] キャンセル "@,
        ScreenView::InCall => " [m] マイク | [r] レンダラ切替 | [q/Esc] 通話終了 "@,
        ScreenView::Error(_) => " [任意のキー] 閉じる "@,
    }
}

/// The key help for a screen.
pub fn footer_text(screen: &AppScreen) -> (r: &'static str)
    ensures
        r@ == footer_spec(screen@),
{
    match screen {
        AppScreen::Login => " [Tab] 次のフィールド | [Enter] 接続 | [Esc] 終了 ",
        AppScreen::ContactList => " [↑↓] 移動 | [Enter] 発信 | [j] ルーム作成 | [b] ルームブラウザ | [s] 設定 | [q] 終了 ",
        AppScreen::Settings => " [Tab] 次のフィールド | [Enter] 保存して戻る | [Esc] キャンセル ",
        AppScreen::JoinRoom => " [Enter] 招待画面へ | [p] 公開/非公開切替 | [Esc] 戻る ",
        AppScreen::RoomBrowser => " [↑↓] 移動 | [Enter] 参加 | [c] コンタクトリスト | [j] ルーム作成 | [Esc] 戻る ",
        AppScreen::InviteRoom { .. } => " [↑↓] 移動 | [Space] 選択/解除 | [Enter] 招待して参加 | [Esc] 戻る ",
        AppScreen::Ringing { .. } => " [y] 応答 | [n] 拒否 | [q] 終了 ",
        AppScreen::Calling { .. } => " [q/Esc] キャンセル ",
        AppScreen::InCall => " [m] マイク | [r] レンダラ切替 | [q/Esc] 通話終了 ",
        AppScreen::Error(_) => " [任意のキー] 閉じる ",
    }
}

/// `n` copies of `c`.
pub open spec fn repeat_spec(c: char, n: nat) -> Seq<char> {
    Seq::new(n, |i: int| c)
}

fn repeat_char(c: char, n: usize) -> (r: String)
    ensures
        r@ == repeat_spec(c, n as nat),
{
    let mut r = String::new();
    let mut i: usize = 0;
    while i < n
        invariant
            i <= n,
            r@ == repeat_spec(c, i as nat),
        decreases n - i,
    {
        crate::text::push_char(&mut r, c);
        i = i + 1;
    }
    r
}

/// The length in bytes of a text's UTF-8 encoding, as `str::len` reports it.
pub open spec fn byte_len(s: Seq<char>) -> usize {
    vstd::utf8::encode_utf8(s).len() as usize
}

/// How a form field's value is shown: a non-empty secret as one `*` per byte
/// of its UTF-8 encoding, anything else as it is.
pub open spec fn field_display_spec(value: Seq<char>, secret: bool) -> Seq<char> {
    if secret && value.len() > 0 {
        repeat_spec('*', byte_len(value) as nat)
    } else {
        value
    }
}

/// One line of the login or settings form: a `> ` marker and a block cursor
/// on the focused field.
pub open spec fn field_line_spec(label: Seq<char>, value: Seq<char>, focused: bool, secret: bool) -> Seq<char> {
    (if focused { "> "@ } else { "  "@ }) + label + ": "@ + field_display_spec(value, secret) + (if focused {
        "\u{2588}"@
    } else {
        Seq::empty()
    })
}

/// Renders one form field as text.
pub fn field_line(label: &str, value: &String, focused: bool, secret: bool) -> (r: String)
    ensures
        r@ == field_line_spec(label@, value@, focused, secret),
{
    let mut r = String::from_str(if focused { "> " } else { "  " });
    r.append(label);
    r.append(": ");
    if secret && !value.as_str().is_empty() {
        let stars = repeat_char('*', value.as_str().len());
        r.append(stars.as_str());
    } else {
        r.append(value.as_str());
    }
    if focused {
        r.append("\u{2588}");
    } else {
        assert(r@ + Seq::<char>::empty() == r@);
    }
    r
}

/// The name of a renderer on the settings screen.
pub fn renderer_label(m: RenderMode) -> (r: &'static str)
    ensures
        r@ == (match m {
            RenderMode::Braille => "Odin (Braille)"@,
            RenderMode::HalfBlock => "Zig (HalfBlock)"@,
        }),
{
    match m {
        RenderMode::Braille => "Odin (Braille)",
        RenderMode::HalfBlock => "Zig (HalfBlock)",
    }
}

/// The renderer line of the settings screen.
pub fn renderer_line(m: RenderMode, focused: bool) -> (r: String)
    ensures
        r@ == (if focused { "> "@ } else { "  "@ }) + "レンダラ: "@ + (match m {
            RenderMode::Braille => "Odin (Braille)"@,
            RenderMode::HalfBlock => "Zig (HalfBlock)"@,
        }) + (if focused { " < >"@ } else { Seq::empty() }),
{
    let mut r = String::from_str(if focused { "> " } else { "  " });
    r.append("レンダラ: ");
    r.append(renderer_label(m));
    if focused {
        r.append(" < >");
    } else {
        assert(r@ + Seq::<char>::empty() == r@);
    }
    r
}

/// An entry of the contact list.
pub fn contact_item(user: &String, q: u8) -> (r: String)
    ensures
        q <= 3 ==> r@ == "👤 "@ + user@ + "  "@ + (if q == 0 { "⏳"@ } else if q == 1 { "🔴"@ } else if q == 2 {
            "🟡"@
        } else {
            "🟢"@
        }) + " "@ + (if q == 0 { "▁▁▁"@ } else if q == 1 { "▂▁▁"@ } else if q == 2 { "▄▄▁"@ } else { "█▆▄"@ }),
        q > 3 ==> r@ == "👤 "@ + user@ + "  "@ + "❓"@ + " "@ + "   "@,
{
    String::from_str("👤 ").concat(user.as_str()).concat("  ").concat(quality_icon(q)).concat(" ").concat(
        signal_bars_detail(q),
    )
}

/// The quality part of a participant's line: icon, bars and word.
pub fn participant_quality_text(q: u8) -> (r: String)
    ensures
        r@ == (if q == 0 { "⏳"@ } else if q == 1 { "🔴"@ } else if q == 2 { "🟡"@ } else if q == 3 { "🟢"@ } else {
            "❓"@
        }) + " "@ + (if q == 0 { "▁▁▁"@ } else if q == 1 { "▂▁▁"@ } else if q == 2 { "▄▄▁"@ } else if q == 3 {
            "█▆▄"@
        } else {
            "   "@
        }) + " ("@ + (if q == 0 { "接続中"@ } else if q == 1 { "弱"@ } else if q == 2 { "良好"@ } else if q == 3 {
            "強"@
        } else {
            "?"@
        }) + ")"@,
{
    String::from_str(quality_icon(q)).concat(" ").concat(signal_bars_detail(q)).concat(" (").concat(
        signal_label(q),
    ).concat(")")
}

/// Our own line in the participant list.
pub fn self_participant_text(identity: &str, is_muted: bool) -> (r: String)
    ensures
        r@ == (if is_muted { "🔇"@ } else { "🎙️"@ }) + " "@ + identity@ + " (You)"@,
{
    String::from_str(if is_muted { "🔇" } else { "🎙️" }).concat(" ").concat(identity).concat(" (You)")
}

/// The main text while our call rings at `target`.
pub fn calling_text(target: &String) -> (r: String)
    ensures
        r@ == target@ + "に発信中...\n\n応答を待っています..."@,
{
    target.clone().concat("に発信中...\n\n応答を待っています...")
}

/// The main text while `caller` rings us.
pub fn ringing_text(caller: &String) -> (r: String)
    ensures
        r@ == caller@ + "から着信中\n\n[y] 応答  [n] 拒否"@,
{
    caller.clone().concat("から着信中\n\n[y] 応答  [n] 拒否")
}

/// The main text of the error screen.
pub fn error_text(msg: &String) -> (r: String)
    ensures
        r@ == "エラー:\n\n"@ + msg@ + "\n\n任意のキーで戻る"@,
{
    String::from_str("エラー:\n\n").concat(msg.as_str()).concat("\n\n任意のキーで戻る")
}

/// The notice shown when `peer` left the call.
pub fn disconnect_notice(peer: &String) -> (r: String)
    ensures
        r@ == "⚠  "@ + peer@ + " が切断しました\n\n[任意のキー] で閉じる"@,
{
    String::from_str("⚠  ").concat(peer.as_str()).concat(" が切断しました\n\n[任意のキー] で閉じる")
}

/// The room name entry on the room creation screen: a hint while empty, then
/// the typed name, followed by a block cursor.
pub fn room_name_entry(input: &String) -> (r: String)
    ensures
        r@ == "  "@ + (if input@.len() == 0 { "例: team-meeting-2024"@ } else { input@ }) + "\u{2588}"@,
{
    let mut r = String::from_str("  ");
    if input.as_str().is_empty() {
        r.append("例: team-meeting-2024");
    } else {
        r.append(input.as_str());
    }
    r.append("\u{2588}");
    r
}

/// The public/private setting as shown on the room creation screen.
pub fn visibility_label(is_public: bool) -> (r: &'static str)
    ensures
        r@ == (if is_public { "公開 (Public)"@ } else { "非公開 (Private)"@ }),
{
    if is_public { "公開 (Public)" } else { "非公開 (Private)" }
}

/// Marker in front of a list entry: an arrow for the selected one.
pub fn cursor_marker(selected: bool) -> (r: &'static str)
    ensures
        r@ == (if selected { "▶ "@ } else { "  "@ }),
{
    if selected { "▶ " } else { "  " }
}

/// The room part of a room browser entry.
pub fn room_label(name: &String) -> (r: String)
    ensures
        r@ == "🏠 "@ + name@ + " "@,
{
    String::from_str("🏠 ").concat(name.as_str()).concat(" ")
}

/// The owner part of a room browser entry.
pub fn owner_label(owner: &String) -> (r: String)
    ensures
        r@ == "(作成者: "@ + owner@ + ")"@,
{
    String::from_str("(作成者: ").concat(owner.as_str()).concat(")")
}

/// Check box of a user on the invitation screen.
pub fn invite_checkbox(ticked: bool) -> (r: &'static str)
    ensures
        r@ == (if ticked { "[✓]"@ } else { "[ ]"@ }),
{
    if ticked { "[✓]" } else { "[ ]" }
}

/// A user's name on the invitation screen.
pub fn invite_user_label(user: &String) -> (r: String)
    ensures
        r@ == " 👤 "@ + user@,
{
    String::from_str(" 👤 ").concat(user.as_str())
}

/// Title of the invitation list, with how many users are ticked.
pub fn invite_title(count: usize) -> (r: String)
    ensures
        r@ == " ユーザーを招待 ("@ + decimal_spec(count as nat) + " 人選択中) "@,
{
    let n = decimal(count);
    String::from_str(" ユーザーを招待 (").concat(n.as_str()).concat(" 人選択中) ")
}

/// Heading of the invitation screen.
pub fn invite_heading(room: &String) -> (r: String)
    ensures
        r@ == "ルーム \""@ + room@ + "\" に招待するユーザーを選択"@,
{
    String::from_str("ルーム \"").concat(room.as_str()).concat("\" に招待するユーザーを選択")
}

/// The status lines shown during a call: the latest four, newest first.
pub open spec fn recent_status_spec(log: Seq<(Seq<char>, StatusKind)>) -> Seq<(Seq<char>, StatusKind)> {
    let r = log.reverse();
    if r.len() > 4 { r.take(4) } else { r }
}

/// Picks the status lines to show during a call.
pub fn recent_status(log: &Vec<(String, StatusKind)>) -> (r: Vec<(String, StatusKind)>)
    ensures
        status_views(r@) == recent_status_spec(status_views(log@)),
{
    let mut r: Vec<(String, StatusKind)> = Vec::new();
    let n = log.len();
    let mut i: usize = 0;
    while i < n && i < 4
        invariant
            n == log.len(),
            i <= n,
            i <= 4,
            status_views(r@) == status_views(log@).reverse().take(i as int),
        decreases n - i,
    {
        let ghost before = r@;
        let (m, k) = &log[n - 1 - i];
        r.push((m.clone(), *k));
        assert(status_views(log@).reverse()[i as int] == status_views(log@)[n - 1 - i]);
        assert(status_views(r@) == status_views(before).push(status_views(log@).reverse()[i as int]));
        assert(status_views(log@).reverse().take(i + 1) == status_views(log@).reverse().take(i as int).push(
            status_views(log@).reverse()[i as int],
        ));
        i = i + 1;
    }
    assert(status_views(log@).reverse().len() == n);
    if n <= 4 {
        assert(status_views(log@).reverse().take(n as int) == status_views(log@).reverse());
    }
    r
}

/// The level meter as text: `[`, `filled` full blocks (at most `width`), light
/// shade for the rest of `width`, `]`; nothing for a zero width.
pub open spec fn vu_bar_spec(filled: nat, width: nat) -> Seq<char> {
    if width == 0 {
        Seq::empty()
    } else {
        let f = if filled < width { filled } else { width };
        "["@ + repeat_spec('█', f) + repeat_spec('░', (width - f) as nat) + "]"@
    }
}

/// Draws a level meter `width` cells wide with `filled` cells lit.
pub fn vu_bar(filled: usize, width: usize) -> (r: String)
    ensures
        r@ == vu_bar_spec(filled as nat, width as nat),
{
    if width == 0 {
        return String::new();
    }
    let f = if filled < width { filled } else { width };
    let full = repeat_char('█', f);
    let light = repeat_char('░', width - f);
    String::from_str("[").concat(full.as_str()).concat(light.as_str()).concat("]")
}

/// Width of a level meter in a panel `panel_width` cells wide: ten cells less,
/// at most twenty.
pub fn meter_width(panel_width: u16) -> (w: usize)
    ensures
        w == (if panel_width < 10 { 0 } else if panel_width - 10 > 20 { 20 } else { panel_width - 10 }),
{
    let w = (panel_width as usize).saturating_sub(10);
    if w > 20 { 20 } else { w }
}

} // verus!
