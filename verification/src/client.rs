//! The client's decisions: what each key press, pasted text, signaling message
//! and connection outcome does to the state, and what the program around it
//! must do next (connect, join a room, send a message, save settings, ...).
use crate::app_state::{views, AppScreen, AppState, AppStateView, RenderMode, ScreenView, StatusKind, push_status_spec};
use crate::config::{render_mode_name, render_mode_name_spec, Config, ConfigView};
use crate::presence::{differs_from, contains_text, participant_disconnected, others_spec, other_users, announce_room, withdraw_room, announce_spec, withdraw_spec};
use crate::shared::{MessageView, SignalingMessage};
use crate::text::{trim, trim_spec, push_char, pop_char, strip_line_breaks, strip_line_breaks_spec};
use vstd::prelude::*;

verus! {

broadcast use vstd::seq_lib::group_seq_properties;

/// A key press, as far as the client tells keys apart.
#[derive(Clone, Copy, Debug, PartialEq, Eq, Structural)]
pub enum Key {
    Char(char),
    Tab,
    BackTab,
    Up,
    Down,
    Left,
    Right,
    Enter,
    Esc,
    Backspace,
    Other,
}

/// Why a room is being joined; it decides what happens once the connection
/// succeeds or fails.
#[derive(Clone, Debug)]
pub enum JoinPurpose {
    /// The peer accepted our call and named the room.
    AcceptedCall { callee: String },
    /// A public room picked in the room browser.
    PublicRoom,
    /// We answer a ringing call from `caller`.
    AnswerCall { caller: String },
    /// A room we set up ourselves, with the users to invite.
    OwnRoom { invited: Vec<String>, is_public: bool },
}

/// A join purpose with its texts taken as characters.
pub enum PurposeView {
    AcceptedCall { callee: Seq<char> },
    PublicRoom,
    AnswerCall { caller: Seq<char> },
    OwnRoom { invited: Seq<Seq<char>>, is_public: bool },
}

impl View for JoinPurpose {
    type V = PurposeView;

    open spec fn view(&self) -> PurposeView {
        match self {
            JoinPurpose::AcceptedCall { callee } => PurposeView::AcceptedCall { callee: callee@ },
            JoinPurpose::PublicRoom => PurposeView::PublicRoom,
            JoinPurpose::AnswerCall { caller } => PurposeView::AnswerCall { caller: caller@ },
            JoinPurpose::OwnRoom { invited, is_public } => PurposeView::OwnRoom {
                invited: views(invited@),
                is_public: *is_public,
            },
        }
    }
}

/// What the program must do after a step.
pub enum Action {
    Nothing,
    /// Leave the main loop and shut down.
    Quit,
    /// Make a token for the lobby as `username`, connect, and report back.
    ConnectLobby { username: String },
    /// Make a token for `room`, connect to it, and report back with the purpose.
    JoinRoom { room: String, purpose: JoinPurpose },
    /// Publish a signaling message in the lobby.
    Send(SignalingMessage),
    /// Write the settings file.
    SaveConfig(Config),
    /// Close the call room.
    CloseCall,
    /// Mute (`true`) or unmute the microphone track.
    SetMicMuted(bool),
}

/// An action with its texts taken as characters.
pub enum ActionView {
    Nothing,
    Quit,
    ConnectLobby { username: Seq<char> },
    JoinRoom { room: Seq<char>, purpose: PurposeView },
    Send(MessageView),
    SaveConfig(ConfigView),
    CloseCall,
    SetMicMuted(bool),
}

impl View for Action {
    type V = ActionView;

    open spec fn view(&self) -> ActionView {
        match self {
            Action::Nothing => ActionView::Nothing,
            Action::Quit => ActionView::Quit,
            Action::ConnectLobby { username } => ActionView::ConnectLobby { username: username@ },
            Action::JoinRoom { room, purpose } => ActionView::JoinRoom { room: room@, purpose: purpose@ },
            Action::Send(m) => ActionView::Send(m@),
            Action::SaveConfig(c) => ActionView::SaveConfig(c@),
            Action::CloseCall => ActionView::CloseCall,
            Action::SetMicMuted(b) => ActionView::SetMicMuted(*b),
        }
    }
}

/// Why a connection attempt failed, with the error's text.
pub enum JoinFailure {
    /// The access token could not be made.
    Token(String),
    /// The server could not be reached or refused the token.
    Connect(String),
}

/// A failure with its text taken as characters.
pub enum FailureView {
    Token(Seq<char>),
    Connect(Seq<char>),
}

impl View for JoinFailure {
    type V = FailureView;

    open spec fn view(&self) -> FailureView {
        match self {
            JoinFailure::Token(e) => FailureView::Token(e@),
            JoinFailure::Connect(e) => FailureView::Connect(e@),
        }
    }
}

/// An edit of a text field.
pub enum Edit {
    Push(char),
    Pop,
    Append(String),
}

/// An edit with its text taken as characters.
pub enum EditView {
    Push(char),
    Pop,
    Append(Seq<char>),
}

impl View for Edit {
    type V = EditView;

    open spec fn view(&self) -> EditView {
        match self {
            Edit::Push(c) => EditView::Push(*c),
            Edit::Pop => EditView::Pop,
            Edit::Append(t) => EditView::Append(t@),
        }
    }
}

/// A field after an edit; removing from an empty field leaves it empty.
pub open spec fn apply_edit_spec(v: Seq<char>, e: EditView) -> Seq<char> {
    match e {
        EditView::Push(c) => v.push(c),
        EditView::Pop => if v.len() > 0 { v.drop_last() } else { v },
        EditView::Append(t) => v + t,
    }
}

fn apply_edit(field: &mut String, e: &Edit)
    ensures
        final(field)@ == apply_edit_spec(old(field)@, e@),
{
    match e {
        Edit::Push(c) => push_char(field, *c),
        Edit::Pop => {
            pop_char(field);
        },
        Edit::Append(t) => field.append(t.as_str()),
    }
}

/// The login form after an edit of the focused field (name, URL, key, secret).
pub open spec fn login_edit_spec(s: AppStateView, e: EditView) -> AppStateView {
    if s.active_input_index == 0 {
        AppStateView { input_buffer: apply_edit_spec(s.input_buffer, e), ..s }
    } else if s.active_input_index == 1 {
        AppStateView { livekit_url: apply_edit_spec(s.livekit_url, e), ..s }
    } else if s.active_input_index == 2 {
        AppStateView { api_key: apply_edit_spec(s.api_key, e), ..s }
    } else if s.active_input_index == 3 {
        AppStateView { api_secret: apply_edit_spec(s.api_secret, e), ..s }
    } else {
        s
    }
}

/// The settings form after an edit of the focused field (URL, key, secret).
pub open spec fn settings_edit_spec(s: AppStateView, e: EditView) -> AppStateView {
    if s.active_input_index == 0 {
        AppStateView { livekit_url: apply_edit_spec(s.livekit_url, e), ..s }
    } else if s.active_input_index == 1 {
        AppStateView { api_key: apply_edit_spec(s.api_key, e), ..s }
    } else if s.active_input_index == 2 {
        AppStateView { api_secret: apply_edit_spec(s.api_secret, e), ..s }
    } else {
        s
    }
}

/// The focus moved one field forward, cycling through four fields.
pub open spec fn focus_next(s: AppStateView) -> AppStateView {
    AppStateView { active_input_index: ((s.active_input_index + 1) % 4) as usize, ..s }
}

/// The focus moved one field back, cycling through four fields.
pub open spec fn focus_prev(s: AppStateView) -> AppStateView {
    AppStateView { active_input_index: ((s.active_input_index + 3) % 4) as usize, ..s }
}

/// The selection moved up, stopping at the first entry.
pub open spec fn select_up(s: AppStateView) -> AppStateView {
    if s.selected_index > 0 {
        AppStateView { selected_index: (s.selected_index - 1) as usize, ..s }
    } else {
        s
    }
}

/// The selection moved down in a list of `n` entries, stopping at the last.
pub open spec fn select_down(s: AppStateView, n: int) -> AppStateView {
    if n > 0 && s.selected_index < n - 1 {
        AppStateView { selected_index: (s.selected_index + 1) as usize, ..s }
    } else {
        s
    }
}

/// The other renderer.
pub open spec fn toggled_mode(m: RenderMode) -> RenderMode {
    match m {
        RenderMode::Braille => RenderMode::HalfBlock,
        RenderMode::HalfBlock => RenderMode::Braille,
    }
}

/// The users that can be called or invited from this state.
pub open spec fn callable(s: AppStateView) -> Seq<Seq<char>> {
    others_spec(s.users, s.username)
}

/// Inputs on which the client would stop with a panic: a focus index at the
/// top of `usize`, or choosing an entry while the selection lies past the
/// end of a non-empty list.
pub open spec fn key_panics(s: AppStateView, k: Key) -> bool {
    match s.screen {
        ScreenView::Login | ScreenView::Settings => match k {
            Key::Tab | Key::Down => s.active_input_index + 1 > usize::MAX,
            Key::BackTab | Key::Up => s.active_input_index + 3 > usize::MAX,
            _ => false,
        },
        ScreenView::RoomBrowser => k == Key::Enter && s.announced_rooms.len() > 0
            && s.selected_index >= s.announced_rooms.len(),
        ScreenView::ContactList => k == Key::Enter && callable(s).len() > 0
            && s.selected_index >= callable(s).len(),
        ScreenView::InviteRoom { .. } => k == Key::Char(' ') && callable(s).len() > 0 && s.selected_index >= callable(s).len(),
        _ => false,
    }
}

/// A key on the login screen.
pub open spec fn login_key(s: AppStateView, k: Key) -> (AppStateView, ActionView) {
    match k {
        Key::Tab | Key::Down => (focus_next(s), ActionView::Nothing),
        Key::BackTab | Key::Up => (focus_prev(s), ActionView::Nothing),
        Key::Enter => {
            let name = trim_spec(s.input_buffer);
            if name.len() > 0 {
                (s, ActionView::ConnectLobby { username: name })
            } else {
                (s, ActionView::Nothing)
            }
        },
        Key::Char(c) => (login_edit_spec(s, EditView::Push(c)), ActionView::Nothing),
        Key::Backspace => (login_edit_spec(s, EditView::Pop), ActionView::Nothing),
        Key::Esc => (s, ActionView::Quit),
        _ => (s, ActionView::Nothing),
    }
}

/// A key in the public room browser.
pub open spec fn room_browser_key(s: AppStateView, k: Key) -> (AppStateView, ActionView) {
    let rooms = s.announced_rooms;
    match k {
        Key::Up => (select_up(s), ActionView::Nothing),
        Key::Down => (select_down(s, rooms.len() as int), ActionView::Nothing),
        Key::Enter => if rooms.len() > 0 {
            (s, ActionView::JoinRoom { room: rooms[s.selected_index as int].name, purpose: PurposeView::PublicRoom })
        } else {
            (s, ActionView::Nothing)
        },
        Key::Char('c') | Key::Esc | Key::Char('q') => (
            AppStateView { selected_index: 0, screen: ScreenView::ContactList, ..s },
            ActionView::Nothing,
        ),
        Key::Char('j') => (
            AppStateView { input_buffer: Seq::empty(), screen: ScreenView::JoinRoom, ..s },
            ActionView::Nothing,
        ),
        _ => (s, ActionView::Nothing),
    }
}

/// A key in the contact list.
pub open spec fn contact_list_key(s: AppStateView, k: Key) -> (AppStateView, ActionView) {
    let others = callable(s);
    match k {
        Key::Up => (select_up(s), ActionView::Nothing),
        Key::Down => (select_down(s, others.len() as int), ActionView::Nothing),
        Key::Enter => if others.len() > 0 {
            let target = others[s.selected_index as int];
            (
                AppStateView { screen: ScreenView::Calling { target }, ..s },
                if s.lobby_connected {
                    ActionView::Send(MessageView::CallRequest { from: s.username, to: target })
                } else {
                    ActionView::Nothing
                },
            )
        } else {
            (s, ActionView::Nothing)
        },
        Key::Char('j') => (
            AppStateView { input_buffer: Seq::empty(), screen: ScreenView::JoinRoom, ..s },
            ActionView::Nothing,
        ),
        Key::Char('b') => (
            AppStateView { selected_index: 0, screen: ScreenView::RoomBrowser, ..s },
            ActionView::Nothing,
        ),
        Key::Char('s') => (
            AppStateView { active_input_index: 0, screen: ScreenView::Settings, ..s },
            ActionView::Nothing,
        ),
        Key::Char('q') | Key::Esc => (s, ActionView::Quit),
        _ => (s, ActionView::Nothing),
    }
}

/// The room in which `callee` answers a call from `caller`.
pub open spec fn call_room_name(caller: Seq<char>, callee: Seq<char>) -> Seq<char> {
    "call_"@ + caller + "_"@ + callee
}

/// A key while a call from `caller` rings.
pub open spec fn ringing_key(s: AppStateView, caller: Seq<char>, k: Key) -> (AppStateView, ActionView) {
    match k {
        Key::Char('y') => (
            s,
            ActionView::JoinRoom {
                room: call_room_name(caller, s.username),
                purpose: PurposeView::AnswerCall { caller },
            },
        ),
        Key::Char('n') => (
            AppStateView { screen: ScreenView::ContactList, ..s },
            if s.lobby_connected {
                ActionView::Send(MessageView::CallRejected { from: s.username, to: caller })
            } else {
                ActionView::Nothing
            },
        ),
        Key::Char('q') | Key::Esc => (s, ActionView::Quit),
        _ => (s, ActionView::Nothing),
    }
}

/// A key while our call is waiting for an answer.
pub open spec fn calling_key(s: AppStateView, k: Key) -> (AppStateView, ActionView) {
    match k {
        Key::Char('q') | Key::Esc => (AppStateView { screen: ScreenView::ContactList, ..s }, ActionView::Nothing),
        _ => (s, ActionView::Nothing),
    }
}

/// A key during a call (with no disconnection notice showing).
pub open spec fn in_call_key(s: AppStateView, k: Key) -> (AppStateView, ActionView) {
    match k {
        Key::Char('q') | Key::Esc => (
            AppStateView {
                call_connected: false,
                room_name: Seq::empty(),
                disconnected_peer: None,
                screen: ScreenView::ContactList,
                ..s
            },
            if s.call_connected { ActionView::CloseCall } else { ActionView::Nothing },
        ),
        Key::Char('m') => (
            AppStateView { is_muted: !s.is_muted, ..s },
            ActionView::SetMicMuted(!s.is_muted),
        ),
        Key::Char('r') => (AppStateView { render_mode: toggled_mode(s.render_mode), ..s }, ActionView::Nothing),
        _ => (s, ActionView::Nothing),
    }
}

/// A key on the room creation screen.
pub open spec fn join_room_key(s: AppStateView, k: Key) -> (AppStateView, ActionView) {
    match k {
        Key::Enter => {
            let name = trim_spec(s.input_buffer);
            if name.len() > 0 {
                (
                    AppStateView {
                        selected_index: 0,
                        screen: ScreenView::InviteRoom { room_name: name, invited_users: Seq::empty() },
                        ..s
                    },
                    ActionView::Nothing,
                )
            } else {
                (s, ActionView::Nothing)
            }
        },
        Key::Esc => (AppStateView { screen: ScreenView::ContactList, ..s }, ActionView::Nothing),
        Key::Char('p') => (AppStateView { room_is_public: !s.room_is_public, ..s }, ActionView::Nothing),
        Key::Char(c) => (AppStateView { input_buffer: s.input_buffer.push(c), ..s }, ActionView::Nothing),
        Key::Backspace => (
            AppStateView { input_buffer: apply_edit_spec(s.input_buffer, EditView::Pop), ..s },
            ActionView::Nothing,
        ),
        _ => (s, ActionView::Nothing),
    }
}

/// The invitation list after ticking or unticking `user`.
pub open spec fn toggle_invite_spec(invited: Seq<Seq<char>>, user: Seq<char>) -> Seq<Seq<char>> {
    if invited.contains(user) {
        invited.filter(differs_from(user))
    } else {
        invited.push(user)
    }
}

/// A key while choosing whom to invite into `room_name`.
pub open spec fn invite_key(
    s: AppStateView,
    room_name: Seq<char>,
    invited: Seq<Seq<char>>,
    k: Key,
) -> (AppStateView, ActionView) {
    let others = callable(s);
    match k {
        Key::Up => (select_up(s), ActionView::Nothing),
        Key::Down => (select_down(s, others.len() as int), ActionView::Nothing),
        Key::Char(' ') => if others.len() > 0 {
            (
                AppStateView {
                    screen: ScreenView::InviteRoom {
                        room_name,
                        invited_users: toggle_invite_spec(invited, others[s.selected_index as int]),
                    },
                    ..s
                },
                ActionView::Nothing,
            )
        } else {
            (s, ActionView::Nothing)
        },
        Key::Enter => (
            s,
            ActionView::JoinRoom {
                room: room_name,
                purpose: PurposeView::OwnRoom { invited, is_public: s.room_is_public },
            },
        ),
        Key::Esc => (AppStateView { screen: ScreenView::JoinRoom, ..s }, ActionView::Nothing),
        _ => (s, ActionView::Nothing),
    }
}

/// The settings that the settings screen saves.
pub open spec fn settings_config(s: AppStateView) -> ConfigView {
    ConfigView {
        livekit_url: s.livekit_url,
        api_key: s.api_key,
        api_secret: s.api_secret,
        last_username: s.username,
        render_mode: Some(render_mode_name_spec(s.render_mode)),
    }
}

/// A key on the settings screen.
pub open spec fn settings_key(s: AppStateView, k: Key) -> (AppStateView, ActionView) {
    match k {
        Key::Tab | Key::Down => (focus_next(s), ActionView::Nothing),
        Key::BackTab | Key::Up => (focus_prev(s), ActionView::Nothing),
        Key::Left | Key::Right => if s.active_input_index == 3 {
            (AppStateView { render_mode: toggled_mode(s.render_mode), ..s }, ActionView::Nothing)
        } else {
            (s, ActionView::Nothing)
        },
        Key::Enter => (
            AppStateView { active_input_index: 0, screen: ScreenView::ContactList, ..s },
            ActionView::SaveConfig(settings_config(s)),
        ),
        Key::Esc => (
            AppStateView { active_input_index: 0, screen: ScreenView::ContactList, ..s },
            ActionView::Nothing,
        ),
        Key::Char(c) => (settings_edit_spec(s, EditView::Push(c)), ActionView::Nothing),
        Key::Backspace => (settings_edit_spec(s, EditView::Pop), ActionView::Nothing),
        _ => (s, ActionView::Nothing),
    }
}

/// What a key press does in state `s`.
pub open spec fn key_step(s: AppStateView, k: Key) -> (AppStateView, ActionView) {
    match s.screen {
        ScreenView::Login => login_key(s, k),
        ScreenView::InCall => if s.disconnected_peer is Some {
            (AppStateView { disconnected_peer: None, ..s }, ActionView::Nothing)
        } else {
            in_call_key(s, k)
        },
        ScreenView::RoomBrowser => room_browser_key(s, k),
        ScreenView::ContactList => contact_list_key(s, k),
        ScreenView::Ringing { caller } => ringing_key(s, caller, k),
        ScreenView::Calling { .. } => calling_key(s, k),
        ScreenView::JoinRoom => join_room_key(s, k),
        ScreenView::InviteRoom { room_name, invited_users } => invite_key(s, room_name, invited_users, k),
        ScreenView::Settings => settings_key(s, k),
        ScreenView::Error(_) => (AppStateView { screen: ScreenView::ContactList, ..s }, ActionView::Nothing),
    }
}

/// What pasting `text` does: line breaks are dropped and the rest is appended
/// to the focused field of the login or settings form; elsewhere nothing.
pub open spec fn paste_step(s: AppStateView, text: Seq<char>) -> AppStateView {
    let t = strip_line_breaks_spec(text);
    match s.screen {
        ScreenView::Login => login_edit_spec(s, EditView::Append(t)),
        ScreenView::Settings => settings_edit_spec(s, EditView::Append(t)),
        _ => s,
    }
}


/// What a signaling message from the lobby does in state `s`. Calls,
/// answers, refusals and invitations only count when addressed to us.
pub open spec fn signal_step(s: AppStateView, m: MessageView) -> (AppStateView, ActionView) {
    match m {
        MessageView::CallRequest { from, to } => if to == s.username {
            if s.screen is ContactList {
                (AppStateView { screen: ScreenView::Ringing { caller: from }, ..s }, ActionView::Nothing)
            } else if s.lobby_connected {
                (s, ActionView::Send(MessageView::CallRejected { from: s.username, to: from }))
            } else {
                (s, ActionView::Nothing)
            }
        } else {
            (s, ActionView::Nothing)
        },
        MessageView::CallAccepted { from, to, room } => if to == s.username {
            (s, ActionView::JoinRoom { room, purpose: PurposeView::AcceptedCall { callee: from } })
        } else {
            (s, ActionView::Nothing)
        },
        MessageView::CallRejected { from, to } => if to == s.username && s.screen is Calling {
            (AppStateView { screen: ScreenView::Error(from + " が通話を拒否しました"@), ..s }, ActionView::Nothing)
        } else {
            (s, ActionView::Nothing)
        },
        MessageView::CallEnded { .. } => if s.screen is InCall {
            (
                AppStateView { call_connected: false, screen: ScreenView::ContactList, ..s },
                if s.call_connected { ActionView::CloseCall } else { ActionView::Nothing },
            )
        } else {
            (s, ActionView::Nothing)
        },
        MessageView::RoomAnnounce { from, room } => if from != s.username {
            (AppStateView { announced_rooms: announce_spec(s.announced_rooms, from, room), ..s }, ActionView::Nothing)
        } else {
            (s, ActionView::Nothing)
        },
        MessageView::RoomRemove { from, room } => (
            AppStateView { announced_rooms: withdraw_spec(s.announced_rooms, from, room), ..s },
            ActionView::Nothing,
        ),
        MessageView::RoomInvite { from, to, room } => if to == s.username {
            (
                AppStateView {
                    status_messages: push_status_spec(s.status_messages, (invite_notice(from, room), StatusKind::Info)),
                    ..s
                },
                ActionView::Nothing,
            )
        } else {
            (s, ActionView::Nothing)
        },
    }
}

/// The status line shown when `from` invites us into `room`.
pub open spec fn invite_notice(from: Seq<char>, room: Seq<char>) -> Seq<char> {
    from + " から \""@ + room + "\" に招待されました。[j] で参加できます"@
}

/// The text of the error screen after a token could not be made.
pub open spec fn token_error(e: Seq<char>) -> Seq<char> {
    "トークンエラー: "@ + e
}

/// The state after the lobby connection succeeded as `username`, with the
/// users already online, and the settings to save.
pub open spec fn lobby_connected_spec(
    s: AppStateView,
    username: Seq<char>,
    online: Seq<Seq<char>>,
) -> (AppStateView, ConfigView) {
    (
        AppStateView {
            username,
            input_buffer: Seq::empty(),
            users: online,
            lobby_connected: true,
            selected_index: 0,
            screen: ScreenView::RoomBrowser,
            ..s
        },
        ConfigView {
            livekit_url: s.livekit_url,
            api_key: s.api_key,
            api_secret: s.api_secret,
            last_username: username,
            render_mode: Some(render_mode_name_spec(s.render_mode)),
        },
    )
}

/// The state after the lobby connection failed.
pub open spec fn lobby_failed_spec(s: AppStateView, f: FailureView) -> AppStateView {
    AppStateView {
        screen: ScreenView::Error(
            match f {
                FailureView::Token(e) => token_error(e),
                FailureView::Connect(e) => "LiveKit 接続失敗: "@ + e,
            },
        ),
        ..s
    }
}

/// The invitations for `room` from `me` to each invited user, in order.
pub open spec fn invitations(me: Seq<char>, invited: Seq<Seq<char>>, room: Seq<char>) -> Seq<MessageView> {
    invited.map_values(|u: Seq<char>| MessageView::RoomInvite { from: me, to: u, room })
}

/// The state after joining `room` for `p`, and the messages to publish.
pub open spec fn join_succeeded_spec(s: AppStateView, room: Seq<char>, p: PurposeView) -> (AppStateView, Seq<MessageView>) {
    let base = AppStateView { screen: ScreenView::InCall, call_connected: true, ..s };
    match p {
        PurposeView::AcceptedCall { .. } => (base, Seq::empty()),
        PurposeView::PublicRoom => (AppStateView { room_name: room, ..base }, Seq::empty()),
        PurposeView::AnswerCall { caller } => (
            base,
            if s.lobby_connected {
                seq![MessageView::CallAccepted { from: s.username, to: caller, room }]
            } else {
                Seq::empty()
            },
        ),
        PurposeView::OwnRoom { invited, is_public } => (
            AppStateView { room_name: room, ..base },
            if s.lobby_connected {
                invitations(s.username, invited, room) + if is_public {
                    seq![MessageView::RoomAnnounce { from: s.username, room }]
                } else {
                    Seq::empty()
                }
            } else {
                Seq::empty()
            },
        ),
    }
}

/// The state after joining a room for `p` failed.
pub open spec fn join_failed_spec(s: AppStateView, p: PurposeView, f: FailureView) -> AppStateView {
    AppStateView {
        screen: ScreenView::Error(
            match f {
                FailureView::Token(e) => token_error(e),
                FailureView::Connect(e) => match p {
                    PurposeView::AcceptedCall { callee } => callee + " との通話参加に失敗: "@ + e,
                    PurposeView::AnswerCall { .. } => "通話ルーム参加失敗: "@ + e,
                    _ => "ルーム参加失敗: "@ + e,
                },
            },
        ),
        ..s
    }
}

/// The message published on shutdown: a public room we host is withdrawn.
pub open spec fn shutdown_message_spec(s: AppStateView) -> Option<MessageView> {
    if s.room_name.len() > 0 && s.room_is_public && s.lobby_connected {
        Some(MessageView::RoomRemove { from: s.username, room: s.room_name })
    } else {
        None
    }
}

/// Copies of the texts of a list.
pub(crate) fn clone_texts(v: &Vec<String>) -> (r: Vec<String>)
    ensures
        r@ == v@,
{
    let mut r: Vec<String> = Vec::new();
    let mut i: usize = 0;
    while i < v.len()
        invariant
            i <= v.len(),
            r@ == v@.take(i as int),
        decreases v.len() - i,
    {
        r.push(v[i].clone());
        assert(v@.take(i + 1) == v@.take(i as int).push(v@[i as int]));
        i = i + 1;
    }
    assert(v@.take(v.len() as int) == v@);
    r
}

/// Ticks `user` if unticked, else unticks every occurrence.
fn toggle_invite(invited: Vec<String>, user: String) -> (r: Vec<String>)
    ensures
        views(r@) == toggle_invite_spec(views(invited@), user@),
{
    let mut r = invited;
    if contains_text(&r, &user) {
        participant_disconnected(&mut r, &user);
    } else {
        let ghost before = r@;
        r.push(user);
        assert(views(r@) == views(before).push(user@));
    }
    r
}

impl AppState {
    fn login_field_edit(&mut self, e: &Edit)
        ensures
            final(self)@ == login_edit_spec(old(self)@, e@),
    {
        if self.active_input_index == 0 {
            apply_edit(&mut self.input_buffer, e);
        } else if self.active_input_index == 1 {
            apply_edit(&mut self.livekit_url, e);
        } else if self.active_input_index == 2 {
            apply_edit(&mut self.api_key, e);
        } else if self.active_input_index == 3 {
            apply_edit(&mut self.api_secret, e);
        }
    }

    fn settings_field_edit(&mut self, e: &Edit)
        ensures
            final(self)@ == settings_edit_spec(old(self)@, e@),
    {
        if self.active_input_index == 0 {
            apply_edit(&mut self.livekit_url, e);
        } else if self.active_input_index == 1 {
            apply_edit(&mut self.api_key, e);
        } else if self.active_input_index == 2 {
            apply_edit(&mut self.api_secret, e);
        }
    }

    fn login_key(&mut self, key: Key) -> (a: Action)
        requires
            old(self)@.screen is Login,
            !key_panics(old(self)@, key),
        ensures
            (final(self)@, a@) == login_key(old(self)@, key),
    {
        match key {
            Key::Tab | Key::Down => {
                self.active_input_index = (self.active_input_index + 1) % 4;
                Action::Nothing
            },
            Key::BackTab | Key::Up => {
                self.active_input_index = (self.active_input_index + 3) % 4;
                Action::Nothing
            },
            Key::Enter => {
                let name = trim(self.input_buffer.as_str());
                if !name.as_str().is_empty() {
                    Action::ConnectLobby { username: name }
                } else {
                    Action::Nothing
                }
            },
            Key::Char(c) => {
                self.login_field_edit(&Edit::Push(c));
                Action::Nothing
            },
            Key::Backspace => {
                self.login_field_edit(&Edit::Pop);
                Action::Nothing
            },
            Key::Esc => Action::Quit,
            _ => Action::Nothing,
        }
    }

    fn room_browser_key(&mut self, key: Key) -> (a: Action)
        requires
            old(self)@.screen is RoomBrowser,
            !key_panics(old(self)@, key),
        ensures
            (final(self)@, a@) == room_browser_key(old(self)@, key),
    {
        let n = self.announced_rooms.len();
        match key {
            Key::Up => {
                if self.selected_index > 0 {
                    self.selected_index = self.selected_index - 1;
                }
                Action::Nothing
            },
            Key::Down => {
                if n > 0 && self.selected_index < n - 1 {
                    self.selected_index = self.selected_index + 1;
                }
                Action::Nothing
            },
            Key::Enter => {
                if n > 0 {
                    let room = self.announced_rooms[self.selected_index].name.clone();
                    assert(old(self)@.announced_rooms[self.selected_index as int] == self.announced_rooms@[self.selected_index as int]@);
                    Action::JoinRoom { room, purpose: JoinPurpose::PublicRoom }
                } else {
                    Action::Nothing
                }
            },
            Key::Char('c') | Key::Esc | Key::Char('q') => {
                self.selected_index = 0;
                self.screen = AppScreen::ContactList;
                Action::Nothing
            },
            Key::Char('j') => {
                self.input_buffer = String::new();
                self.screen = AppScreen::JoinRoom;
                Action::Nothing
            },
            _ => Action::Nothing,
        }
    }

    fn contact_list_key(&mut self, key: Key) -> (a: Action)
        requires
            old(self)@.screen is ContactList,
            !key_panics(old(self)@, key),
        ensures
            (final(self)@, a@) == contact_list_key(old(self)@, key),
    {
        let others = other_users(&self.users, &self.username);
        let n = others.len();
        match key {
            Key::Up => {
                if self.selected_index > 0 {
                    self.selected_index = self.selected_index - 1;
                }
                Action::Nothing
            },
            Key::Down => {
                if n > 0 && self.selected_index < n - 1 {
                    self.selected_index = self.selected_index + 1;
                }
                Action::Nothing
            },
            Key::Enter => {
                if n > 0 {
                    let target = others[self.selected_index].clone();
                    assert(views(others@)[self.selected_index as int] == target@);
                    self.screen = AppScreen::Calling { target: target.clone() };
                    if self.lobby_connected {
                        Action::Send(SignalingMessage::CallRequest { from: self.username.clone(), to: target })
                    } else {
                        Action::Nothing
                    }
                } else {
                    Action::Nothing
                }
            },
            Key::Char('j') => {
                self.input_buffer = String::new();
                self.screen = AppScreen::JoinRoom;
                Action::Nothing
            },
            Key::Char('b') => {
                self.selected_index = 0;
                self.screen = AppScreen::RoomBrowser;
                Action::Nothing
            },
            Key::Char('s') => {
                self.active_input_index = 0;
                self.screen = AppScreen::Settings;
                Action::Nothing
            },
            Key::Char('q') | Key::Esc => Action::Quit,
            _ => Action::Nothing,
        }
    }

    fn ringing_key(&mut self, caller: String, key: Key) -> (a: Action)
        requires
            old(self)@.screen == (ScreenView::Ringing { caller: caller@ }),
        ensures
            (final(self)@, a@) == ringing_key(old(self)@, caller@, key),
    {
        match key {
            Key::Char('y') => {
                let mut room = String::from_str("call_");
                room.append(caller.as_str());
                room.append("_");
                room.append(self.username.as_str());
                Action::JoinRoom { room, purpose: JoinPurpose::AnswerCall { caller } }
            },
            Key::Char('n') => {
                self.screen = AppScreen::ContactList;
                if self.lobby_connected {
                    Action::Send(SignalingMessage::CallRejected { from: self.username.clone(), to: caller })
                } else {
                    Action::Nothing
                }
            },
            Key::Char('q') | Key::Esc => Action::Quit,
            _ => Action::Nothing,
        }
    }

    fn in_call_key(&mut self, key: Key) -> (a: Action)
        requires
            old(self)@.screen is InCall,
        ensures
            (final(self)@, a@) == in_call_key(old(self)@, key),
    {
        match key {
            Key::Char('q') | Key::Esc => {
                let a = if self.call_connected { Action::CloseCall } else { Action::Nothing };
                self.call_connected = false;
                self.room_name = String::new();
                self.disconnected_peer = None;
                self.screen = AppScreen::ContactList;
                a
            },
            Key::Char('m') => {
                self.is_muted = !self.is_muted;
                Action::SetMicMuted(self.is_muted)
            },
            Key::Char('r') => {
                self.render_mode = match self.render_mode {
                    RenderMode::Braille => RenderMode::HalfBlock,
                    RenderMode::HalfBlock => RenderMode::Braille,
                };
                Action::Nothing
            },
            _ => Action::Nothing,
        }
    }

    fn join_room_key(&mut self, key: Key) -> (a: Action)
        requires
            old(self)@.screen is JoinRoom,
        ensures
            (final(self)@, a@) == join_room_key(old(self)@, key),
    {
        match key {
            Key::Enter => {
                let name = trim(self.input_buffer.as_str());
                if !name.as_str().is_empty() {
                    self.selected_index = 0;
                    let inv: Vec<String> = Vec::new();
                    assert(views(inv@) == Seq::<Seq<char>>::empty());
                    self.screen = AppScreen::InviteRoom { room_name: name, invited_users: inv };
                }
                Action::Nothing
            },
            Key::Esc => {
                self.screen = AppScreen::ContactList;
                Action::Nothing
            },
            Key::Char('p') => {
                self.room_is_public = !self.room_is_public;
                Action::Nothing
            },
            Key::Char(c) => {
                push_char(&mut self.input_buffer, c);
                Action::Nothing
            },
            Key::Backspace => {
                pop_char(&mut self.input_buffer);
                Action::Nothing
            },
            _ => Action::Nothing,
        }
    }

    fn invite_key(&mut self, room_name: String, invited: Vec<String>, key: Key) -> (a: Action)
        requires
            old(self)@.screen == (ScreenView::InviteRoom { room_name: room_name@, invited_users: views(invited@) }),
            !key_panics(old(self)@, key),
        ensures
            (final(self)@, a@) == invite_key(old(self)@, room_name@, views(invited@), key),
    {
        let others = other_users(&self.users, &self.username);
        let n = others.len();
        match key {
            Key::Up => {
                if self.selected_index > 0 {
                    self.selected_index = self.selected_index - 1;
                }
                Action::Nothing
            },
            Key::Down => {
                if n > 0 && self.selected_index < n - 1 {
                    self.selected_index = self.selected_index + 1;
                }
                Action::Nothing
            },
            Key::Char(' ') => {
                if n > 0 {
                    let user = others[self.selected_index].clone();
                    assert(views(others@)[self.selected_index as int] == user@);
                    let inv = toggle_invite(invited, user);
                    self.screen = AppScreen::InviteRoom { room_name, invited_users: inv };
                }
                Action::Nothing
            },
            Key::Enter => {
                Action::JoinRoom {
                    room: room_name,
                    purpose: JoinPurpose::OwnRoom { invited, is_public: self.room_is_public },
                }
            },
            Key::Esc => {
                self.screen = AppScreen::JoinRoom;
                Action::Nothing
            },
            _ => Action::Nothing,
        }
    }

    fn settings_key(&mut self, key: Key) -> (a: Action)
        requires
            old(self)@.screen is Settings,
            !key_panics(old(self)@, key),
        ensures
            (final(self)@, a@) == settings_key(old(self)@, key),
    {
        match key {
            Key::Tab | Key::Down => {
                self.active_input_index = (self.active_input_index + 1) % 4;
                Action::Nothing
            },
            Key::BackTab | Key::Up => {
                self.active_input_index = (self.active_input_index + 3) % 4;
                Action::Nothing
            },
            Key::Left | Key::Right => {
                if self.active_input_index == 3 {
                    self.render_mode = match self.render_mode {
                        RenderMode::Braille => RenderMode::HalfBlock,
                        RenderMode::HalfBlock => RenderMode::Braille,
                    };
                }
                Action::Nothing
            },
            Key::Enter => {
                let cfg = Config {
                    livekit_url: self.livekit_url.clone(),
                    api_key: self.api_key.clone(),
                    api_secret: self.api_secret.clone(),
                    last_username: self.username.clone(),
                    render_mode: Some(render_mode_name(self.render_mode)),
                };
                self.active_input_index = 0;
                self.screen = AppScreen::ContactList;
                Action::SaveConfig(cfg)
            },
            Key::Esc => {
                self.active_input_index = 0;
                self.screen = AppScreen::ContactList;
                Action::Nothing
            },
            Key::Char(c) => {
                self.settings_field_edit(&Edit::Push(c));
                Action::Nothing
            },
            Key::Backspace => {
                self.settings_field_edit(&Edit::Pop);
                Action::Nothing
            },
            _ => Action::Nothing,
        }
    }

    /// Whether the key would stop the client with a panic in this state.
    pub fn key_would_panic(&self, key: Key) -> (b: bool)
        ensures
            b == key_panics(self@, key),
    {
        match &self.screen {
            AppScreen::Login | AppScreen::Settings => match key {
                Key::Tab | Key::Down => self.active_input_index == usize::MAX,
                Key::BackTab | Key::Up => self.active_input_index > usize::MAX - 3,
                _ => false,
            },
            AppScreen::RoomBrowser => key == Key::Enter && self.announced_rooms.len() > 0
                && self.selected_index >= self.announced_rooms.len(),
            AppScreen::ContactList => {
                let others = other_users(&self.users, &self.username);
                key == Key::Enter && others.len() > 0 && self.selected_index >= others.len()
            },
            AppScreen::InviteRoom { .. } => {
                let others = other_users(&self.users, &self.username);
                key == Key::Char(' ') && others.len() > 0 && self.selected_index >= others.len()
            },
            _ => false,
        }
    }

    /// Applies a key press and says what the program must do next.
    pub fn handle_key(&mut self, key: Key) -> (a: Action)
        requires
            !key_panics(old(self)@, key),
        ensures
            (final(self)@, a@) == key_step(old(self)@, key),
    {
        match &self.screen {
            AppScreen::Login => self.login_key(key),
            AppScreen::InCall => {
                if self.disconnected_peer.is_some() {
                    self.disconnected_peer = None;
                    Action::Nothing
                } else {
                    self.in_call_key(key)
                }
            },
            AppScreen::RoomBrowser => self.room_browser_key(key),
            AppScreen::ContactList => self.contact_list_key(key),
            AppScreen::Ringing { caller } => {
                let c = caller.clone();
                self.ringing_key(c, key)
            },
            AppScreen::Calling { .. } => {
                match key {
                    Key::Char('q') | Key::Esc => {
                        self.screen = AppScreen::ContactList;
                    },
                    _ => {},
                }
                Action::Nothing
            },
            AppScreen::JoinRoom => self.join_room_key(key),
            AppScreen::InviteRoom { room_name, invited_users } => {
                let r = room_name.clone();
                let inv = clone_texts(invited_users);
                self.invite_key(r, inv, key)
            },
            AppScreen::Settings => self.settings_key(key),
            AppScreen::Error(_) => {
                self.screen = AppScreen::ContactList;
                Action::Nothing
            },
        }
    }

    /// Applies pasted text.
    pub fn handle_paste(&mut self, text: String)
        ensures
            final(self)@ == paste_step(old(self)@, text@),
    {
        let t = strip_line_breaks(text.as_str());
        match &self.screen {
            AppScreen::Login => self.login_field_edit(&Edit::Append(t)),
            AppScreen::Settings => self.settings_field_edit(&Edit::Append(t)),
            _ => {},
        }
    }

    /// Applies a signaling message received in the lobby.
    pub fn handle_signal(&mut self, msg: SignalingMessage) -> (a: Action)
        ensures
            (final(self)@, a@) == signal_step(old(self)@, msg@),
    {
        match msg {
            SignalingMessage::CallRequest { from, to } => {
                if to == self.username {
                    if let AppScreen::ContactList = self.screen {
                        self.screen = AppScreen::Ringing { caller: from };
                        Action::Nothing
                    } else if self.lobby_connected {
                        Action::Send(SignalingMessage::CallRejected { from: self.username.clone(), to: from })
                    } else {
                        Action::Nothing
                    }
                } else {
                    Action::Nothing
                }
            },
            SignalingMessage::CallAccepted { from, to, room } => {
                if to == self.username {
                    Action::JoinRoom { room, purpose: JoinPurpose::AcceptedCall { callee: from } }
                } else {
                    Action::Nothing
                }
            },
            SignalingMessage::CallRejected { from, to } => {
                if to == self.username {
                    if let AppScreen::Calling { .. } = self.screen {
                        self.screen = AppScreen::Error(from.concat(" が通話を拒否しました"));
                    }
                }
                Action::Nothing
            },
            SignalingMessage::CallEnded { .. } => {
                if let AppScreen::InCall = self.screen {
                    let a = if self.call_connected { Action::CloseCall } else { Action::Nothing };
                    self.call_connected = false;
                    self.screen = AppScreen::ContactList;
                    a
                } else {
                    Action::Nothing
                }
            },
            SignalingMessage::RoomAnnounce { from, room } => {
                if !(from == self.username) {
                    announce_room(&mut self.announced_rooms, from, room);
                }
                Action::Nothing
            },
            SignalingMessage::RoomRemove { from, room } => {
                withdraw_room(&mut self.announced_rooms, &from, &room);
                Action::Nothing
            },
            SignalingMessage::RoomInvite { from, to, room } => {
                if to == self.username {
                    let text = from.concat(" から \"").concat(room.as_str()).concat("\" に招待されました。[j] で参加できます");
                    self.push_status(text, StatusKind::Info);
                }
                Action::Nothing
            },
        }
    }

    /// The lobby is connected as `username`; `online` are the users already
    /// there. Returns the settings to save.
    pub fn lobby_connected(&mut self, username: String, online: Vec<String>) -> (cfg: Config)
        ensures
            (final(self)@, cfg@) == lobby_connected_spec(old(self)@, username@, views(online@)),
    {
        let cfg = Config {
            livekit_url: self.livekit_url.clone(),
            api_key: self.api_key.clone(),
            api_secret: self.api_secret.clone(),
            last_username: username.clone(),
            render_mode: Some(render_mode_name(self.render_mode)),
        };
        self.username = username;
        self.input_buffer = String::new();
        self.users = online;
        self.lobby_connected = true;
        self.selected_index = 0;
        self.screen = AppScreen::RoomBrowser;
        cfg
    }

    /// The lobby connection failed.
    pub fn lobby_failed(&mut self, failure: JoinFailure)
        ensures
            final(self)@ == lobby_failed_spec(old(self)@, failure@),
    {
        let text = match failure {
            JoinFailure::Token(e) => String::from_str("トークンエラー: ").concat(e.as_str()),
            JoinFailure::Connect(e) => String::from_str("LiveKit 接続失敗: ").concat(e.as_str()),
        };
        self.screen = AppScreen::Error(text);
    }

    /// Joining `room` for `purpose` succeeded. Returns the messages to publish
    /// in the lobby, in order.
    pub fn join_succeeded(&mut self, room: String, purpose: JoinPurpose) -> (msgs: Vec<SignalingMessage>)
        ensures
            (final(self)@, msgs@.map_values(|m: SignalingMessage| m@))
                == join_succeeded_spec(old(self)@, room@, purpose@),
    {
        let mut msgs: Vec<SignalingMessage> = Vec::new();
        let ghost s0 = self@;
        match purpose {
            JoinPurpose::AcceptedCall { .. } => {},
            JoinPurpose::PublicRoom => {
                self.room_name = room;
            },
            JoinPurpose::AnswerCall { caller } => {
                if self.lobby_connected {
                    msgs.push(SignalingMessage::CallAccepted { from: self.username.clone(), to: caller, room });
                }
            },
            JoinPurpose::OwnRoom { invited, is_public } => {
                if self.lobby_connected {
                    let ghost me = self.username@;
                    let mut i: usize = 0;
                    while i < invited.len()
                        invariant
                            i <= invited.len(),
                            self@ == s0,
                            me == s0.username,
                            msgs@.map_values(|m: SignalingMessage| m@)
                                == invitations(me, views(invited@).take(i as int), room@),
                        decreases invited.len() - i,
                    {
                        let ghost before = msgs@;
                        msgs.push(SignalingMessage::RoomInvite {
                            from: self.username.clone(),
                            to: invited[i].clone(),
                            room: room.clone(),
                        });
                        assert(views(invited@).take(i + 1) == views(invited@).take(i as int).push(invited@[i as int]@));
                        assert(msgs@.map_values(|m: SignalingMessage| m@)
                            == before.map_values(|m: SignalingMessage| m@).push(msgs@[i as int]@));
                        assert(invitations(me, views(invited@).take(i + 1), room@)
                            == invitations(me, views(invited@).take(i as int), room@).push(msgs@[i as int]@));
                        i = i + 1;
                    }
                    assert(views(invited@).take(invited.len() as int) == views(invited@));
                    if is_public {
                        let ghost before = msgs@;
                        msgs.push(SignalingMessage::RoomAnnounce { from: self.username.clone(), room: room.clone() });
                        assert(msgs@.map_values(|m: SignalingMessage| m@)
                            == before.map_values(|m: SignalingMessage| m@).push(msgs@[before.len() as int]@));
                    }
                }
                self.room_name = room;
            },
        }
        self.screen = AppScreen::InCall;
        self.call_connected = true;
        msgs
    }

    /// Joining a room for `purpose` failed.
    pub fn join_failed(&mut self, purpose: &JoinPurpose, failure: JoinFailure)
        ensures
            final(self)@ == join_failed_spec(old(self)@, purpose@, failure@),
    {
        let text = match failure {
            JoinFailure::Token(e) => String::from_str("トークンエラー: ").concat(e.as_str()),
            JoinFailure::Connect(e) => match purpose {
                JoinPurpose::AcceptedCall { callee } => callee.clone().concat(" との通話参加に失敗: ").concat(e.as_str()),
                JoinPurpose::AnswerCall { .. } => String::from_str("通話ルーム参加失敗: ").concat(e.as_str()),
                _ => String::from_str("ルーム参加失敗: ").concat(e.as_str()),
            },
        };
        self.screen = AppScreen::Error(text);
    }

    /// Replaces the list of users online in the lobby.
    pub fn set_users(&mut self, users: Vec<String>)
        ensures
            final(self)@ == (AppStateView { users: views(users@), ..old(self)@ }),
    {
        self.users = users;
    }

    /// Whether the login form is showing (the lobby is then not yet joined).
    pub fn on_login_screen(&self) -> (b: bool)
        ensures
            b == (self@.screen is Login),
    {
        match self.screen {
            AppScreen::Login => true,
            _ => false,
        }
    }

    /// The message to publish when the client shuts down, if any.
    pub fn shutdown_message(&self) -> (m: Option<SignalingMessage>)
        ensures
            match m {
                Some(x) => shutdown_message_spec(self@) == Some(x@),
                None => shutdown_message_spec(self@) is None,
            },
    {
        if !self.room_name.as_str().is_empty() && self.room_is_public && self.lobby_connected {
            Some(SignalingMessage::RoomRemove { from: self.username.clone(), room: self.room_name.clone() })
        } else {
            None
        }
    }
}

} // verus!
