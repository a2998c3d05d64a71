//! The client's screens and the plain state that its decisions read and write.
use crate::config::{opt_view, render_mode_from_config, render_mode_from_spec, Config};
use vstd::prelude::*;

verus! {

/// Which renderer draws video in the terminal.
#[derive(Clone, Copy, Debug, PartialEq, Eq, Structural)]
pub enum RenderMode {
    /// Braille dots, eight pixels per cell.
    Braille,
    /// Upper-half blocks, two pixels per cell.
    HalfBlock,
}

/// The screen the client shows.
#[derive(Clone, Debug, PartialEq)]
pub enum AppScreen {
    Login,
    ContactList,
    Settings,
    Ringing { caller: String },
    Calling { target: String },
    JoinRoom,
    InCall,
    RoomBrowser,
    /// `room_name`: the room being set up; `invited_users`: who is ticked.
    InviteRoom { room_name: String, invited_users: Vec<String> },
    Error(String),
}

/// A screen with every text taken as its characters.
pub enum ScreenView {
    Login,
    ContactList,
    Settings,
    Ringing { caller: Seq<char> },
    Calling { target: Seq<char> },
    JoinRoom,
    InCall,
    RoomBrowser,
    InviteRoom { room_name: Seq<char>, invited_users: Seq<Seq<char>> },
    Error(Seq<char>),
}

/// The characters of each text in a list.
pub open spec fn views(v: Seq<String>) -> Seq<Seq<char>> {
    v.map_values(|s: String| s@)
}

impl View for AppScreen {
    type V = ScreenView;

    open spec fn view(&self) -> ScreenView {
        match self {
            AppScreen::Login => ScreenView::Login,
            AppScreen::ContactList => ScreenView::ContactList,
            AppScreen::Settings => ScreenView::Settings,
            AppScreen::Ringing { caller } => ScreenView::Ringing { caller: caller@ },
            AppScreen::Calling { target } => ScreenView::Calling { target: target@ },
            AppScreen::JoinRoom => ScreenView::JoinRoom,
            AppScreen::InCall => ScreenView::InCall,
            AppScreen::RoomBrowser => ScreenView::RoomBrowser,
            AppScreen::InviteRoom { room_name, invited_users } => ScreenView::InviteRoom {
                room_name: room_name@,
                invited_users: views(invited_users@),
            },
            AppScreen::Error(m) => ScreenView::Error(m@),
        }
    }
}

/// How a status line is colored: joins, leaves, and everything else.
#[derive(Clone, Copy, Debug, PartialEq, Eq, Structural)]
pub enum StatusKind {
    Join,
    Leave,
    Info,
}

/// A public room that another user listed in the lobby.
#[derive(Clone, Debug)]
pub struct AnnouncedRoom {
    pub owner: String,
    pub name: String,
}

/// A listed room with its texts taken as characters.
pub struct RoomView {
    pub owner: Seq<char>,
    pub name: Seq<char>,
}

impl View for AnnouncedRoom {
    type V = RoomView;

    open spec fn view(&self) -> RoomView {
        RoomView { owner: self.owner@, name: self.name@ }
    }
}

/// The characters of each listed room.
pub open spec fn room_views(v: Seq<AnnouncedRoom>) -> Seq<RoomView> {
    v.map_values(|r: AnnouncedRoom| r@)
}

/// The characters of each status line.
pub open spec fn status_views(v: Seq<(String, StatusKind)>) -> Seq<(Seq<char>, StatusKind)> {
    v.map_values(|p: (String, StatusKind)| (p.0@, p.1))
}

/// What the client knows and shows. Connections, media and audio levels are
/// held by the program around it; this state records only whether the lobby
/// and a call room are connected.
pub struct AppState {
    pub screen: AppScreen,
    pub username: String,
    pub input_buffer: String,
    pub livekit_url: String,
    pub api_key: String,
    pub api_secret: String,
    /// Login: 0 name, 1 URL, 2 API key, 3 secret. Settings: 0 URL, 1 key, 2 secret, 3 renderer.
    pub active_input_index: usize,
    pub selected_index: usize,
    pub users: Vec<String>,
    pub lobby_connected: bool,
    pub call_connected: bool,
    pub is_muted: bool,
    pub room_name: String,
    pub room_is_public: bool,
    pub status_messages: Vec<(String, StatusKind)>,
    pub announced_rooms: Vec<AnnouncedRoom>,
    pub render_mode: RenderMode,
    /// The peer that last left the call, shown until a key is pressed.
    pub disconnected_peer: Option<String>,
}

/// The state with every text taken as its characters.
pub struct AppStateView {
    pub screen: ScreenView,
    pub username: Seq<char>,
    pub input_buffer: Seq<char>,
    pub livekit_url: Seq<char>,
    pub api_key: Seq<char>,
    pub api_secret: Seq<char>,
    pub active_input_index: usize,
    pub selected_index: usize,
    pub users: Seq<Seq<char>>,
    pub lobby_connected: bool,
    pub call_connected: bool,
    pub is_muted: bool,
    pub room_name: Seq<char>,
    pub room_is_public: bool,
    pub status_messages: Seq<(Seq<char>, StatusKind)>,
    pub announced_rooms: Seq<RoomView>,
    pub render_mode: RenderMode,
    pub disconnected_peer: Option<Seq<char>>,
}

impl View for AppState {
    type V = AppStateView;

    open spec fn view(&self) -> AppStateView {
        AppStateView {
            screen: self.screen@,
            username: self.username@,
            input_buffer: self.input_buffer@,
            livekit_url: self.livekit_url@,
            api_key: self.api_key@,
            api_secret: self.api_secret@,
            active_input_index: self.active_input_index,
            selected_index: self.selected_index,
            users: views(self.users@),
            lobby_connected: self.lobby_connected,
            call_connected: self.call_connected,
            is_muted: self.is_muted,
            room_name: self.room_name@,
            room_is_public: self.room_is_public,
            status_messages: status_views(self.status_messages@),
            announced_rooms: room_views(self.announced_rooms@),
            render_mode: self.render_mode,
            disconnected_peer: opt_view(self.disconnected_peer),
        }
    }
}

/// How many status lines are kept.
pub const STATUS_CAPACITY: usize = 20;

/// The status log after one more line: the oldest line goes once there are
/// more than `STATUS_CAPACITY`.
pub open spec fn push_status_spec(
    log: Seq<(Seq<char>, StatusKind)>,
    entry: (Seq<char>, StatusKind),
) -> Seq<(Seq<char>, StatusKind)> {
    let l = log.push(entry);
    if l.len() > STATUS_CAPACITY { l.drop_first() } else { l }
}

/// The state a fresh client starts in, from its saved settings.
pub open spec fn initial_state_spec(cfg: crate::config::ConfigView) -> AppStateView {
    AppStateView {
        screen: ScreenView::Login,
        username: Seq::empty(),
        input_buffer: cfg.last_username,
        livekit_url: cfg.livekit_url,
        api_key: cfg.api_key,
        api_secret: cfg.api_secret,
        active_input_index: 0,
        selected_index: 0,
        users: Seq::empty(),
        lobby_connected: false,
        call_connected: false,
        is_muted: false,
        room_name: Seq::empty(),
        room_is_public: true,
        status_messages: Seq::empty(),
        announced_rooms: Seq::empty(),
        render_mode: render_mode_from_spec(cfg.render_mode),
        disconnected_peer: None,
    }
}

impl AppState {
    /// The login screen, prefilled from the saved settings.
    pub fn new(cfg: Config) -> (s: AppState)
        ensures
            s@ == initial_state_spec(cfg@),
    {
        let render_mode = render_mode_from_config(&cfg.render_mode);
        let s = AppState {
            screen: AppScreen::Login,
            username: String::new(),
            input_buffer: cfg.last_username,
            livekit_url: cfg.livekit_url,
            api_key: cfg.api_key,
            api_secret: cfg.api_secret,
            active_input_index: 0,
            selected_index: 0,
            users: Vec::new(),
            lobby_connected: false,
            call_connected: false,
            is_muted: false,
            room_name: String::new(),
            room_is_public: true,
            status_messages: Vec::new(),
            announced_rooms: Vec::new(),
            render_mode,
            disconnected_peer: None,
        };
        assert(views(s.users@) == Seq::<Seq<char>>::empty());
        assert(status_views(s.status_messages@) == Seq::<(Seq<char>, StatusKind)>::empty());
        assert(room_views(s.announced_rooms@) == Seq::<RoomView>::empty());
        s
    }

    /// Adds a line to the status log, dropping the oldest beyond `STATUS_CAPACITY`.
    pub fn push_status(&mut self, msg: String, kind: StatusKind)
        ensures
            final(self)@ == (AppStateView {
                status_messages: push_status_spec(old(self)@.status_messages, (msg@, kind)),
                ..old(self)@
            }),
    {
        let ghost entry = (msg@, kind);
        self.status_messages.push((msg, kind));
        assert(status_views(self.status_messages@) == status_views(old(self).status_messages@).push(entry));
        if self.status_messages.len() > STATUS_CAPACITY {
            let ghost before = self.status_messages@;
            self.status_messages.remove(0);
            assert(status_views(self.status_messages@) == status_views(before).drop_first());
        }
    }
}

} // verus!
