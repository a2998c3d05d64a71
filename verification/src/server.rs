//! The rules of the standalone signaling server: one registered name per user,
//! call requests routed to online users, and the room both ends of an
//! accepted call are sent to.
use crate::app_state::views;
use crate::presence::{contains_text, differs_from, participant_disconnected};
use crate::token::TOKEN_LIFETIME_SECS;
use vstd::prelude::*;

verus! {

broadcast use vstd::seq_lib::group_seq_properties;

/// A message from a client to the server.
#[derive(Clone, Debug)]
pub enum ClientMessage {
    Login { username: String },
    CallRequest { target_username: String },
    CallAccept { caller_username: String },
    CallReject { caller_username: String },
}

/// A client message with its texts taken as characters.
pub enum ClientMessageView {
    Login { username: Seq<char> },
    CallRequest { target_username: Seq<char> },
    CallAccept { caller_username: Seq<char> },
    CallReject { caller_username: Seq<char> },
}

impl View for ClientMessage {
    type V = ClientMessageView;

    open spec fn view(&self) -> ClientMessageView {
        match self {
            ClientMessage::Login { username } => ClientMessageView::Login { username: username@ },
            ClientMessage::CallRequest { target_username } => ClientMessageView::CallRequest {
                target_username: target_username@,
            },
            ClientMessage::CallAccept { caller_username } => ClientMessageView::CallAccept {
                caller_username: caller_username@,
            },
            ClientMessage::CallReject { caller_username } => ClientMessageView::CallReject {
                caller_username: caller_username@,
            },
        }
    }
}

/// A message from the server to a client.
#[derive(Clone, Debug)]
pub enum ServerMessage {
    LoginSuccess { username: String },
    Error { message: String },
    IncomingCall { from_username: String },
    CallAccepted { room_name: String, token: String },
    CallRejected { target_username: String },
    UserList { users: Vec<String> },
}

/// What the server sends, and to whom. Token-bearing answers are made by the
/// program around the server, which holds the API credentials.
pub enum Delivery {
    /// To the connection that sent the message.
    ToSender(ServerMessage),
    /// To the connection registered under a name.
    ToUser(String, ServerMessage),
    /// The list of registered names, to every registered connection.
    BroadcastUserList(Vec<String>),
    /// Tokens for `caller` and `callee` to join `room`; each gets
    /// `CallAccepted` with the room and its own token.
    CallTokens { caller: String, callee: String, room: String },
}

/// A server message with its texts taken as characters.
pub enum ServerMessageView {
    LoginSuccess { username: Seq<char> },
    Error { message: Seq<char> },
    IncomingCall { from_username: Seq<char> },
    CallAccepted { room_name: Seq<char>, token: Seq<char> },
    CallRejected { target_username: Seq<char> },
    UserList { users: Seq<Seq<char>> },
}

impl View for ServerMessage {
    type V = ServerMessageView;

    open spec fn view(&self) -> ServerMessageView {
        match self {
            ServerMessage::LoginSuccess { username } => ServerMessageView::LoginSuccess { username: username@ },
            ServerMessage::Error { message } => ServerMessageView::Error { message: message@ },
            ServerMessage::IncomingCall { from_username } => ServerMessageView::IncomingCall {
                from_username: from_username@,
            },
            ServerMessage::CallAccepted { room_name, token } => ServerMessageView::CallAccepted {
                room_name: room_name@,
                token: token@,
            },
            ServerMessage::CallRejected { target_username } => ServerMessageView::CallRejected {
                target_username: target_username@,
            },
            ServerMessage::UserList { users } => ServerMessageView::UserList { users: views(users@) },
        }
    }
}

/// A delivery with its texts taken as characters.
pub enum DeliveryView {
    ToSender(ServerMessageView),
    ToUser(Seq<char>, ServerMessageView),
    BroadcastUserList(Seq<Seq<char>>),
    CallTokens { caller: Seq<char>, callee: Seq<char>, room: Seq<char> },
}

impl View for Delivery {
    type V = DeliveryView;

    open spec fn view(&self) -> DeliveryView {
        match self {
            Delivery::ToSender(m) => DeliveryView::ToSender(m@),
            Delivery::ToUser(u, m) => DeliveryView::ToUser(u@, m@),
            Delivery::BroadcastUserList(l) => DeliveryView::BroadcastUserList(views(l@)),
            Delivery::CallTokens { caller, callee, room } => DeliveryView::CallTokens {
                caller: caller@,
                callee: callee@,
                room: room@,
            },
        }
    }
}

/// The characters of each delivery.
pub open spec fn delivery_views(d: Seq<Delivery>) -> Seq<DeliveryView> {
    d.map_values(|x: Delivery| x@)
}

/// The names registered with the server, in the order they logged in.
pub struct SignalingServer {
    pub users: Vec<String>,
}

/// The room in which `callee` and `caller` meet once `callee` accepts.
pub open spec fn server_room_name(caller: Seq<char>, callee: Seq<char>) -> Seq<char> {
    "room_"@ + caller + "_"@ + callee
}

/// What a client message does: the registered names, the name the sending
/// connection is logged in under, and what is sent.
pub open spec fn server_step(
    users: Seq<Seq<char>>,
    current: Option<Seq<char>>,
    m: ClientMessageView,
) -> (Seq<Seq<char>>, Option<Seq<char>>, Seq<DeliveryView>) {
    match m {
        ClientMessageView::Login { username } => if users.contains(username) {
            (users, current, seq![DeliveryView::ToSender(ServerMessageView::Error { message: "Username already taken"@ })])
        } else {
            let now = users.push(username);
            (
                now,
                Some(username),
                seq![
                    DeliveryView::ToSender(ServerMessageView::LoginSuccess { username }),
                    DeliveryView::BroadcastUserList(now),
                ],
            )
        },
        ClientMessageView::CallRequest { target_username } => match current {
            Some(me) => if users.contains(target_username) {
                (users, current, seq![DeliveryView::ToUser(target_username, ServerMessageView::IncomingCall { from_username: me })])
            } else {
                (users, current, seq![DeliveryView::ToSender(ServerMessageView::Error { message: "Target user offline"@ })])
            },
            None => (users, current, Seq::empty()),
        },
        ClientMessageView::CallAccept { caller_username } => match current {
            Some(me) => if users.contains(caller_username) {
                (
                    users,
                    current,
                    seq![DeliveryView::CallTokens {
                        caller: caller_username,
                        callee: me,
                        room: server_room_name(caller_username, me),
                    }],
                )
            } else {
                (users, current, Seq::empty())
            },
            None => (users, current, Seq::empty()),
        },
        ClientMessageView::CallReject { caller_username } => match current {
            Some(me) => if users.contains(caller_username) {
                (users, current, seq![DeliveryView::ToUser(caller_username, ServerMessageView::CallRejected { target_username: me })])
            } else {
                (users, current, Seq::empty())
            },
            None => (users, current, Seq::empty()),
        },
    }
}

/// What a closed connection does: its name is unregistered and the new list
/// is broadcast; a connection that never logged in changes nothing.
pub open spec fn server_disconnect_spec(users: Seq<Seq<char>>, current: Option<Seq<char>>) -> (Seq<Seq<char>>, Seq<DeliveryView>) {
    match current {
        Some(u) => {
            let now = users.filter(differs_from(u));
            (now, seq![DeliveryView::BroadcastUserList(now)])
        },
        None => (users, Seq::empty()),
    }
}

/// The characters of an optional text.
pub open spec fn current_view(c: Option<String>) -> Option<Seq<char>> {
    match c {
        Some(s) => Some(s@),
        None => None,
    }
}

impl SignalingServer {
    /// A server with nobody registered.
    pub fn new() -> (s: SignalingServer)
        ensures
            s.users@.len() == 0,
    {
        SignalingServer { users: Vec::new() }
    }

    /// Handles a message from the connection logged in as `current` (or not
    /// logged in).
    pub fn handle(&mut self, current: &mut Option<String>, msg: ClientMessage) -> (out: Vec<Delivery>)
        ensures
            (views(final(self).users@), current_view(*final(current)), delivery_views(out@)) == server_step(
                views(old(self).users@),
                current_view(*old(current)),
                msg@,
            ),
    {
        let mut out: Vec<Delivery> = Vec::new();
        match msg {
            ClientMessage::Login { username } => {
                if contains_text(&self.users, &username) {
                    let e = String::from_str("Username already taken");
                    out.push(Delivery::ToSender(ServerMessage::Error { message: e }));
                } else {
                    let ghost before = self.users@;
                    self.users.push(username.clone());
                    assert(views(self.users@) == views(before).push(username@));
                    *current = Some(username.clone());
                    out.push(Delivery::ToSender(ServerMessage::LoginSuccess { username }));
                    out.push(Delivery::BroadcastUserList(crate::client::clone_texts(&self.users)));
                }
            },
            ClientMessage::CallRequest { target_username } => {
                match current {
                    Some(me) => {
                        if contains_text(&self.users, &target_username) {
                            out.push(Delivery::ToUser(target_username, ServerMessage::IncomingCall { from_username: me.clone() }));
                        } else {
                            let e = String::from_str("Target user offline");
                            out.push(Delivery::ToSender(ServerMessage::Error { message: e }));
                        }
                    },
                    None => {},
                }
            },
            ClientMessage::CallAccept { caller_username } => {
                match current {
                    Some(me) => {
                        if contains_text(&self.users, &caller_username) {
                            let room = String::from_str("room_").concat(caller_username.as_str()).concat("_").concat(me.as_str());
                            out.push(Delivery::CallTokens { caller: caller_username, callee: me.clone(), room });
                        }
                    },
                    None => {},
                }
            },
            ClientMessage::CallReject { caller_username } => {
                match current {
                    Some(me) => {
                        if contains_text(&self.users, &caller_username) {
                            out.push(Delivery::ToUser(caller_username, ServerMessage::CallRejected { target_username: me.clone() }));
                        }
                    },
                    None => {},
                }
            },
        }
        out
    }

    /// Handles a closed connection that was logged in as `current` (if at all).
    pub fn disconnect(&mut self, current: Option<String>) -> (out: Vec<Delivery>)
        ensures
            (views(final(self).users@), delivery_views(out@)) == server_disconnect_spec(
                views(old(self).users@),
                current_view(current),
            ),
    {
        let mut out: Vec<Delivery> = Vec::new();
        match current {
            Some(u) => {
                participant_disconnected(&mut self.users, &u);
                out.push(Delivery::BroadcastUserList(crate::client::clone_texts(&self.users)));
            },
            None => {},
        }
        out
    }
}

/// The rights a server-issued token grants: joining one room.
#[allow(non_snake_case)]
pub struct VideoGrants {
    pub roomJoin: bool,
    pub room: String,
}

/// The claims of a server-issued token.
pub struct Claims {
    pub iss: String,
    pub sub: String,
    pub name: String,
    pub video: VideoGrants,
    pub exp: usize,
    pub nbf: usize,
}

/// The claims of the token the server issues for `identity` to join `room`
/// from `now` on, valid for an hour.
pub fn server_token_claims(api_key: &str, identity: &str, room: &str, now: usize) -> (c: Claims)
    requires
        now + TOKEN_LIFETIME_SECS <= usize::MAX,
    ensures
        c.iss@ == api_key@,
        c.sub@ == identity@,
        c.name@ == identity@,
        c.video.roomJoin,
        c.video.room@ == room@,
        c.nbf == now,
        c.exp == now + TOKEN_LIFETIME_SECS,
{
    Claims {
        iss: String::from_str(api_key),
        sub: String::from_str(identity),
        name: String::from_str(identity),
        video: VideoGrants { roomJoin: true, room: String::from_str(room) },
        exp: now + TOKEN_LIFETIME_SECS,
        nbf: now,
    }
}

} // verus!
