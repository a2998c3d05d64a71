//! Properties of the client that span several steps or several clients.
use crate::app_state::{
    initial_state_spec, push_status_spec, AppStateView, RoomView, ScreenView, StatusKind, STATUS_CAPACITY,
};
use crate::client::{
    call_room_name, callable, invitations, contact_list_key, in_call_key, invite_key, join_room_key, login_key,
    ringing_key, room_browser_key, settings_key, join_failed_spec, join_succeeded_spec, key_step, lobby_connected_spec,
    lobby_failed_spec, paste_step, settings_config, shutdown_message_spec, signal_step, toggle_invite_spec, ActionView,
    FailureView, Key, PurposeView,
};
use crate::config::{render_mode_round_trip, ConfigView};
use crate::presence::{
    announce_spec, connect_spec, differs_from, disconnect_spec, lists_room, withdraw_spec,
};
use crate::server::{server_disconnect_spec, server_step, ClientMessageView, DeliveryView, ServerMessageView};
use crate::shared::MessageView;
use crate::text::{is_line_break, strip_line_breaks_spec, trim_end_spec, trim_spec, trim_start_spec, unicode_white_space};
use vstd::prelude::*;

verus! {

broadcast use vstd::seq_lib::group_seq_properties;

/// What every reachable client state satisfies: the focused field is one of
/// four, the status log holds at most `STATUS_CAPACITY` lines, no public room
/// is listed twice, and nobody is ticked twice for an invitation.
pub open spec fn client_inv(s: AppStateView) -> bool {
    &&& s.active_input_index < 4
    &&& s.status_messages.len() <= STATUS_CAPACITY
    &&& s.announced_rooms.no_duplicates()
    &&& (s.screen matches ScreenView::InviteRoom { invited_users, .. } ==> invited_users.no_duplicates())
}

proof fn lemma_filter_keeps_distinct<A>(s: Seq<A>, p: spec_fn(A) -> bool)
    requires
        s.no_duplicates(),
    ensures
        s.filter(p).no_duplicates(),
    decreases s.len(),
{
    reveal(Seq::filter);
    if s.len() > 0 {
        let rest = s.drop_last();
        assert(rest.no_duplicates());
        lemma_filter_keeps_distinct(rest, p);
        if p(s.last()) {
            let f = rest.filter(p);
            assert forall|i: int| 0 <= i < f.len() implies f[i] != s.last() by {
                rest.lemma_filter_contains_rev(p, f[i]);
                if f[i] == s.last() {
                    let k = choose|k: int| 0 <= k < rest.len() && rest[k] == f[i];
                    assert(s[k] == s[s.len() - 1]);
                }
            }
        }
    }
}

proof fn lemma_push_absent_keeps_distinct<A>(s: Seq<A>, x: A)
    requires
        s.no_duplicates(),
        !s.contains(x),
    ensures
        s.push(x).no_duplicates(),
{
    assert forall|i: int, j: int| 0 <= i < s.push(x).len() && 0 <= j < s.push(x).len() && i != j
        implies s.push(x)[i] != s.push(x)[j] by {
        if i < s.len() && j < s.len() {
        } else if i < s.len() {
            assert(s.contains(s[i]));
        } else {
            assert(s.contains(s[j]));
        }
    }
}

proof fn lemma_lists_room_contains(s: Seq<RoomView>, owner: Seq<char>, name: Seq<char>)
    ensures
        lists_room(s, owner, name) <==> s.contains(RoomView { owner, name }),
{
    if s.contains(RoomView { owner, name }) {
        let k = choose|k: int| 0 <= k < s.len() && s[k] == RoomView { owner, name };
        assert(s[k].owner == owner && s[k].name == name);
    }
    if lists_room(s, owner, name) {
        let k = choose|k: int| 0 <= k < s.len() && s[k].owner == owner && s[k].name == name;
        assert(s[k] == RoomView { owner, name });
    }
}

proof fn lemma_announce_distinct(s: Seq<RoomView>, owner: Seq<char>, name: Seq<char>)
    requires
        s.no_duplicates(),
    ensures
        announce_spec(s, owner, name).no_duplicates(),
{
    lemma_lists_room_contains(s, owner, name);
    if !lists_room(s, owner, name) {
        lemma_push_absent_keeps_distinct(s, RoomView { owner, name });
    }
}

proof fn lemma_toggle_distinct(invited: Seq<Seq<char>>, user: Seq<char>)
    requires
        invited.no_duplicates(),
    ensures
        toggle_invite_spec(invited, user).no_duplicates(),
{
    if invited.contains(user) {
        lemma_filter_keeps_distinct(invited, differs_from(user));
    } else {
        lemma_push_absent_keeps_distinct(invited, user);
    }
}

/// A fresh client satisfies the state invariant.
pub proof fn law_initial_state_inv(cfg: ConfigView)
    ensures
        client_inv(initial_state_spec(cfg)),
{
}

/// Every key press keeps the state invariant.
pub proof fn law_key_keeps_inv(s: AppStateView, k: Key)
    requires
        client_inv(s),
    ensures
        client_inv(key_step(s, k).0),
{
    match s.screen {
        ScreenView::InviteRoom { room_name, invited_users } => {
            let others = callable(s);
            if k == Key::Char(' ') && others.len() > 0 {
                lemma_toggle_distinct(invited_users, others[s.selected_index as int]);
            }
            assert(client_inv(invite_key(s, room_name, invited_users, k).0));
        },
        ScreenView::JoinRoom => {
            assert(Seq::<Seq<char>>::empty().no_duplicates());
            assert(client_inv(join_room_key(s, k).0));
        },
        ScreenView::Login => {
            assert(client_inv(login_key(s, k).0));
        },
        ScreenView::Settings => {
            assert(client_inv(settings_key(s, k).0));
        },
        ScreenView::InCall => {
            assert(client_inv(in_call_key(s, k).0));
        },
        ScreenView::RoomBrowser => {
            assert(client_inv(room_browser_key(s, k).0));
        },
        ScreenView::ContactList => {
            assert(client_inv(contact_list_key(s, k).0));
        },
        ScreenView::Ringing { caller } => {
            assert(client_inv(ringing_key(s, caller, k).0));
        },
        _ => {},
    }
}

/// The settings saved on a successful login bring the next session back to
/// the same server, credentials and renderer, with the login name prefilled.
pub proof fn law_login_settings_restored(s: AppStateView, username: Seq<char>, online: Seq<Seq<char>>)
    ensures
        ({
            let next = initial_state_spec(lobby_connected_spec(s, username, online).1);
            &&& next.input_buffer == username
            &&& next.livekit_url == s.livekit_url
            &&& next.api_key == s.api_key
            &&& next.api_secret == s.api_secret
            &&& next.render_mode == s.render_mode
        }),
{
    render_mode_round_trip(s.render_mode);
}

/// The settings saved from the settings screen bring the next session back to
/// the same server, credentials and renderer, with our name prefilled.
pub proof fn law_settings_saved_restored(s: AppStateView)
    requires
        s.screen is Settings,
    ensures
        key_step(s, Key::Enter).1 == ActionView::SaveConfig(settings_config(s)),
        ({
            let next = initial_state_spec(settings_config(s));
            &&& next.input_buffer == s.username
            &&& next.livekit_url == s.livekit_url
            &&& next.api_key == s.api_key
            &&& next.api_secret == s.api_secret
            &&& next.render_mode == s.render_mode
        }),
{
    render_mode_round_trip(s.render_mode);
}

/// Pressing `r` twice during a call returns to the renderer it started with.
pub proof fn law_renderer_toggle_twice(s: AppStateView)
    requires
        s.screen is InCall,
        s.disconnected_peer is None,
    ensures
        key_step(s, Key::Char('r')).0.render_mode != s.render_mode,
        key_step(key_step(s, Key::Char('r')).0, Key::Char('r')).0 == s,
{
}

/// Pasted text never brings a line break into a field.
pub proof fn law_paste_has_no_line_breaks(text: Seq<char>)
    ensures
        forall|i: int| 0 <= i < strip_line_breaks_spec(text).len() ==> !is_line_break(
            #[trigger] strip_line_breaks_spec(text)[i],
        ),
{
    assert forall|i: int| 0 <= i < strip_line_breaks_spec(text).len() implies !is_line_break(
        #[trigger] strip_line_breaks_spec(text)[i],
    ) by {
        text.lemma_filter_pred(|c: char| !is_line_break(c), i);
    }
}

/// Trimming leaves a text alone when it neither starts nor ends with whitespace.
pub proof fn law_trim_keeps_bare_text(t: Seq<char>)
    requires
        t.len() > 0 ==> !unicode_white_space(t[0]) && !unicode_white_space(t.last()),
    ensures
        trim_spec(t) == t,
{
    assert(trim_start_spec(t) == t);
    assert(trim_end_spec(t) == t);
}

/// A login name without surrounding whitespace is the name the lobby is joined under.
pub proof fn law_login_name_passes_through(s: AppStateView)
    requires
        s.screen is Login,
        s.input_buffer.len() > 0,
        !unicode_white_space(s.input_buffer[0]),
        !unicode_white_space(s.input_buffer.last()),
    ensures
        key_step(s, Key::Enter) == (s, ActionView::ConnectLobby { username: s.input_buffer }),
{
    law_trim_keeps_bare_text(s.input_buffer);
}

/// A room name without surrounding whitespace is the room set up for invitations.
pub proof fn law_room_name_passes_through(s: AppStateView)
    requires
        s.screen is JoinRoom,
        s.input_buffer.len() > 0,
        !unicode_white_space(s.input_buffer[0]),
        !unicode_white_space(s.input_buffer.last()),
    ensures
        key_step(s, Key::Enter).0.screen == (ScreenView::InviteRoom {
            room_name: s.input_buffer,
            invited_users: Seq::empty(),
        }),
{
    law_trim_keeps_bare_text(s.input_buffer);
}

/// Moving the selection in the contact list never leaves the list.
pub proof fn law_selection_stays_in_list(s: AppStateView, k: Key)
    requires
        s.screen is ContactList,
        s.selected_index < callable(s).len(),
        k == Key::Up || k == Key::Down,
    ensures
        key_step(s, k).0.selected_index < callable(s).len(),
        callable(key_step(s, k).0) == callable(s),
{
}

/// Pasting text keeps the state invariant.
pub proof fn law_paste_keeps_inv(s: AppStateView, text: Seq<char>)
    requires
        client_inv(s),
    ensures
        client_inv(paste_step(s, text)),
{
}

/// Every signaling message keeps the state invariant.
pub proof fn law_signal_keeps_inv(s: AppStateView, m: MessageView)
    requires
        client_inv(s),
    ensures
        client_inv(signal_step(s, m).0),
{
    match m {
        MessageView::RoomAnnounce { from, room } => {
            lemma_announce_distinct(s.announced_rooms, from, room);
        },
        MessageView::RoomRemove { from, room } => {
            lemma_filter_keeps_distinct(
                s.announced_rooms,
                |r: RoomView| !(r.owner == from && r.name == room),
            );
        },
        _ => {},
    }
}

/// Every connection outcome keeps the state invariant.
pub proof fn law_outcomes_keep_inv(
    s: AppStateView,
    username: Seq<char>,
    online: Seq<Seq<char>>,
    room: Seq<char>,
    p: PurposeView,
    f: FailureView,
)
    requires
        client_inv(s),
    ensures
        client_inv(lobby_connected_spec(s, username, online).0),
        client_inv(lobby_failed_spec(s, f)),
        client_inv(join_succeeded_spec(s, room, p).0),
        client_inv(join_failed_spec(s, p, f)),
{
}

/// Moving the focus forward and then back returns to the same field, on the
/// login and on the settings form.
pub proof fn law_focus_round_trip(s: AppStateView)
    requires
        client_inv(s),
        s.screen is Login || s.screen is Settings,
    ensures
        key_step(key_step(s, Key::Tab).0, Key::BackTab).0 == s,
        key_step(key_step(s, Key::BackTab).0, Key::Tab).0 == s,
{
}

/// Pressing `m` twice during a call unmutes what it muted (and vice versa),
/// and tells the program each new setting.
pub proof fn law_mute_twice(s: AppStateView)
    requires
        s.screen is InCall,
        s.disconnected_peer is None,
    ensures
        key_step(s, Key::Char('m')).1 == ActionView::SetMicMuted(!s.is_muted),
        key_step(key_step(s, Key::Char('m')).0, Key::Char('m')).0 == s,
        key_step(key_step(s, Key::Char('m')).0, Key::Char('m')).1 == ActionView::SetMicMuted(s.is_muted),
{
}

/// Calls, answers, refusals and invitations addressed to someone else change
/// nothing and ask for nothing.
pub proof fn law_others_messages_ignored(s: AppStateView, m: MessageView)
    requires
        match m {
            MessageView::CallRequest { to, .. } => to != s.username,
            MessageView::CallAccepted { to, .. } => to != s.username,
            MessageView::CallRejected { to, .. } => to != s.username,
            MessageView::RoomInvite { to, .. } => to != s.username,
            _ => false,
        },
    ensures
        signal_step(s, m) == (s, ActionView::Nothing),
{
}

/// A public room announced under our own name is not listed.
pub proof fn law_own_announcement_ignored(s: AppStateView, room: Seq<char>)
    ensures
        signal_step(s, MessageView::RoomAnnounce { from: s.username, room }) == (s, ActionView::Nothing),
{
}

/// Choosing a contact publishes a call request that makes that contact's
/// client ring with our name, when it is showing its contact list.
pub proof fn law_call_request_rings(caller: AppStateView, callee: AppStateView)
    requires
        caller.screen is ContactList,
        caller.lobby_connected,
        callable(caller).len() > 0,
        caller.selected_index < callable(caller).len(),
        callee.username == callable(caller)[caller.selected_index as int],
        callee.screen is ContactList,
    ensures
        key_step(caller, Key::Enter).0.screen == (ScreenView::Calling { target: callee.username }),
        key_step(caller, Key::Enter).1 matches ActionView::Send(m)
            && signal_step(callee, m).0.screen == (ScreenView::Ringing { caller: caller.username })
            && signal_step(callee, m).1 == ActionView::Nothing,
{
}

/// A callee that answers joins the room `call_<caller>_<callee>` and, once in,
/// tells the caller, whose client then joins that same room.
pub proof fn law_answer_joins_same_room(callee: AppStateView, caller: AppStateView)
    requires
        callee.screen == (ScreenView::Ringing { caller: caller.username }),
        callee.lobby_connected,
    ensures
        ({
            let room = call_room_name(caller.username, callee.username);
            let purpose = PurposeView::AnswerCall { caller: caller.username };
            &&& key_step(callee, Key::Char('y')).1 == (ActionView::JoinRoom { room, purpose })
            &&& join_succeeded_spec(callee, room, purpose).1.len() == 1
            &&& signal_step(caller, join_succeeded_spec(callee, room, purpose).1[0]) == (
                caller,
                ActionView::JoinRoom { room, purpose: PurposeView::AcceptedCall { callee: callee.username } },
            )
        }),
{
}

/// A public room we open is listed by every other client that hears the
/// announcement, and withdrawn from their list by the message we publish on
/// shutdown.
pub proof fn law_public_room_listed_then_withdrawn(
    host: AppStateView,
    room: Seq<char>,
    invited: Seq<Seq<char>>,
    other: AppStateView,
)
    requires
        host.lobby_connected,
        host.room_is_public,
        room.len() > 0,
        other.username != host.username,
    ensures
        ({
            let (hosting, msgs) = join_succeeded_spec(
                host,
                room,
                PurposeView::OwnRoom { invited, is_public: true },
            );
            let announce = msgs.last();
            let listed = signal_step(other, announce).0;
            &&& msgs.len() == invited.len() + 1
            &&& lists_room(listed.announced_rooms, host.username, room)
            &&& shutdown_message_spec(hosting) matches Some(bye)
                && !lists_room(signal_step(listed, bye).0.announced_rooms, host.username, room)
        }),
{
    let (hosting, msgs) = join_succeeded_spec(host, room, PurposeView::OwnRoom { invited, is_public: true });
    let listed = signal_step(other, msgs.last()).0;
    lemma_lists_room_contains(other.announced_rooms, host.username, room);
    lemma_lists_room_contains(listed.announced_rooms, host.username, room);
    let p = |r: RoomView| !(r.owner == host.username && r.name == room);
    let w = listed.announced_rooms.filter(p);
    if lists_room(w, host.username, room) {
        let k = choose|k: int| 0 <= k < w.len() && w[k].owner == host.username && w[k].name == room;
        listed.announced_rooms.lemma_filter_pred(p, k);
    }
}

/// Ticking a user who was not ticked and then unticking them restores the
/// invitation list.
pub proof fn law_invite_toggle_undo(invited: Seq<Seq<char>>, user: Seq<char>)
    requires
        !invited.contains(user),
    ensures
        toggle_invite_spec(toggle_invite_spec(invited, user), user) == invited,
{
    let p = differs_from(user);
    invited.lemma_filter_push(user, p);
    assert forall|i: int| 0 <= i < invited.len() implies p(invited[i]) by {
        assert(invited.contains(invited[i]));
    }
    lemma_filter_all_true(invited, p);
    assert(invited.push(user).contains(user));
}

proof fn lemma_filter_all_true<A>(s: Seq<A>, p: spec_fn(A) -> bool)
    requires
        forall|i: int| 0 <= i < s.len() ==> p(s[i]),
    ensures
        s.filter(p) == s,
    decreases s.len(),
{
    reveal(Seq::filter);
    if s.len() > 0 {
        lemma_filter_all_true(s.drop_last(), p);
        assert(s.drop_last().push(s.last()) == s);
    }
}

/// The status log after adding each of `entries` in turn.
pub open spec fn push_all_status(
    log: Seq<(Seq<char>, StatusKind)>,
    entries: Seq<(Seq<char>, StatusKind)>,
) -> Seq<(Seq<char>, StatusKind)>
    decreases entries.len(),
{
    if entries.len() == 0 {
        log
    } else {
        push_status_spec(push_all_status(log, entries.drop_last()), entries.last())
    }
}

/// Starting from an empty log, the status log holds exactly the latest
/// `STATUS_CAPACITY` lines added (all of them while there are fewer), oldest first.
pub proof fn law_status_log_keeps_latest(entries: Seq<(Seq<char>, StatusKind)>)
    ensures
        push_all_status(Seq::empty(), entries) == entries.subrange(
            if entries.len() > STATUS_CAPACITY { entries.len() - STATUS_CAPACITY } else { 0 },
            entries.len() as int,
        ),
    decreases entries.len(),
{
    if entries.len() > 0 {
        let prev = entries.drop_last();
        law_status_log_keeps_latest(prev);
        let start = if prev.len() > STATUS_CAPACITY { prev.len() - STATUS_CAPACITY } else { 0 };
        let start2 = if entries.len() > STATUS_CAPACITY { entries.len() - STATUS_CAPACITY } else { 0 };
        let l = prev.subrange(start, prev.len() as int).push(entries.last());
        if l.len() > STATUS_CAPACITY {
            assert(l.drop_first() == entries.subrange(start2, entries.len() as int));
        } else {
            assert(l == entries.subrange(start2, entries.len() as int));
        }
    } else {
        assert(entries.subrange(0, 0) == Seq::<(Seq<char>, StatusKind)>::empty());
    }
}

/// Someone joining twice is listed once; after they leave they are not listed,
/// whether or not they were listed before; joining keeps the list free of repeats.
pub proof fn law_presence(list: Seq<Seq<char>>, id: Seq<char>)
    ensures
        connect_spec(connect_spec(list, id), id) == connect_spec(list, id),
        connect_spec(list, id).contains(id),
        !disconnect_spec(connect_spec(list, id), id).contains(id),
        disconnect_spec(connect_spec(list, id), id) == disconnect_spec(list, id),
        list.no_duplicates() ==> connect_spec(list, id).no_duplicates(),
{
    let p = differs_from(id);
    assert(connect_spec(list, id).contains(id)) by {
        if !list.contains(id) {
            assert(list.push(id)[list.len() as int] == id);
        }
    }
    if disconnect_spec(connect_spec(list, id), id).contains(id) {
        let k = choose|k: int| 0 <= k < disconnect_spec(connect_spec(list, id), id).len()
            && disconnect_spec(connect_spec(list, id), id)[k] == id;
        connect_spec(list, id).lemma_filter_pred(p, k);
    }
    if !list.contains(id) {
        list.lemma_filter_push(id, p);
        if list.no_duplicates() {
            lemma_push_absent_keeps_distinct(list, id);
        }
    }
}

/// Listing a room twice lists it once, and withdrawing it removes it.
pub proof fn law_room_listing(s: Seq<RoomView>, owner: Seq<char>, name: Seq<char>)
    ensures
        announce_spec(announce_spec(s, owner, name), owner, name) == announce_spec(s, owner, name),
        lists_room(announce_spec(s, owner, name), owner, name),
        !lists_room(withdraw_spec(announce_spec(s, owner, name), owner, name), owner, name),
{
    let a = announce_spec(s, owner, name);
    lemma_lists_room_contains(s, owner, name);
    lemma_lists_room_contains(a, owner, name);
    if !lists_room(s, owner, name) {
        assert(a[s.len() as int] == RoomView { owner, name });
    }
    let p = |r: RoomView| !(r.owner == owner && r.name == name);
    let w = a.filter(p);
    if lists_room(w, owner, name) {
        let k = choose|k: int| 0 <= k < w.len() && w[k].owner == owner && w[k].name == name;
        a.lemma_filter_pred(p, k);
    }
}


/// The signaling server never registers a name twice: every message and
/// every closed connection keeps the registry free of repeats.
pub proof fn law_server_names_unique(users: Seq<Seq<char>>, current: Option<Seq<char>>, m: ClientMessageView)
    requires
        users.no_duplicates(),
    ensures
        server_step(users, current, m).0.no_duplicates(),
        server_disconnect_spec(users, current).0.no_duplicates(),
{
    if let ClientMessageView::Login { username } = m {
        if !users.contains(username) {
            lemma_push_absent_keeps_distinct(users, username);
        }
    }
    if let Some(u) = current {
        lemma_filter_keeps_distinct(users, differs_from(u));
    }
}

/// Logging in under a taken name is refused with an error, and nothing else
/// changes.
pub proof fn law_server_refuses_taken_name(users: Seq<Seq<char>>, current: Option<Seq<char>>, name: Seq<char>)
    requires
        users.contains(name),
    ensures
        server_step(users, current, ClientMessageView::Login { username: name }) == (
            users,
            current,
            seq![DeliveryView::ToSender(ServerMessageView::Error { message: "Username already taken"@ })],
        ),
{
}

/// A connection that logs in under a free name and then closes leaves the
/// registry as it found it.
pub proof fn law_server_login_then_leave(users: Seq<Seq<char>>, name: Seq<char>)
    requires
        !users.contains(name),
    ensures
        ({
            let (after, current, _) = server_step(users, None, ClientMessageView::Login { username: name });
            &&& current == Some(name)
            &&& after.contains(name)
            &&& server_disconnect_spec(after, current).0 == users
        }),
{
    let p = differs_from(name);
    users.lemma_filter_push(name, p);
    assert forall|i: int| 0 <= i < users.len() implies p(users[i]) by {
        assert(users.contains(users[i]));
    }
    lemma_filter_all_true(users, p);
    assert(users.push(name)[users.len() as int] == name);
}

/// Accepting a call from an online caller sends both ends into the room
/// `room_<caller>_<callee>`.
pub proof fn law_server_accept_meets_in_room(users: Seq<Seq<char>>, me: Seq<char>, caller: Seq<char>)
    requires
        users.contains(caller),
    ensures
        server_step(users, Some(me), ClientMessageView::CallAccept { caller_username: caller }).2 == seq![
            DeliveryView::CallTokens { caller, callee: me, room: "room_"@ + caller + "_"@ + me },
        ],
{
}


/// Enter in the public room browser joins the room that is selected, and
/// changes nothing else yet.
pub proof fn law_room_browser_joins_selected(s: AppStateView)
    requires
        s.screen is RoomBrowser,
        s.selected_index < s.announced_rooms.len(),
    ensures
        key_step(s, Key::Enter) == (
            s,
            ActionView::JoinRoom {
                room: s.announced_rooms[s.selected_index as int].name,
                purpose: PurposeView::PublicRoom,
            },
        ),
{
}

/// A call request reaching us anywhere but on the contact list (on a call,
/// while ringing, calling out, on any other screen) is turned away: the
/// caller is sent a refusal from us, and our state stays as it was.
pub proof fn law_busy_callee_refuses(s: AppStateView, caller: Seq<char>)
    requires
        !(s.screen is ContactList),
        s.lobby_connected,
    ensures
        signal_step(s, MessageView::CallRequest { from: caller, to: s.username }) == (
            s,
            ActionView::Send(MessageView::CallRejected { from: s.username, to: caller }),
        ),
{
}

/// Once our own room is joined we are in the call, hosting that room, and
/// publish one invitation per ticked user, in order, whether the room is
/// public or private; a public room is then announced last.
pub proof fn law_own_room_messages(
    s: AppStateView,
    room: Seq<char>,
    invited: Seq<Seq<char>>,
    is_public: bool,
)
    requires
        s.lobby_connected,
    ensures
        ({
            let (t, msgs) = join_succeeded_spec(s, room, PurposeView::OwnRoom { invited, is_public });
            &&& t.screen is InCall
            &&& t.call_connected
            &&& t.room_name == room
            &&& msgs.len() == invited.len() + (if is_public { 1int } else { 0int })
            &&& forall|i: int| 0 <= i < invited.len() ==> #[trigger] msgs[i] == (MessageView::RoomInvite {
                from: s.username,
                to: invited[i],
                room,
            })
            &&& is_public ==> msgs[invited.len() as int] == (MessageView::RoomAnnounce { from: s.username, room })
        }),
{
    let (t, msgs) = join_succeeded_spec(s, room, PurposeView::OwnRoom { invited, is_public });
    let inv = invitations(s.username, invited, room);
    assert(inv.len() == invited.len());
    assert forall|i: int| 0 <= i < invited.len() implies #[trigger] msgs[i] == (MessageView::RoomInvite {
        from: s.username,
        to: invited[i],
        room,
    }) by {
        assert(msgs[i] == inv[i]);
    }
}

/// A successful login under a free name registers it after the names already
/// there, answers the sender, and sends everyone the whole new registry.
pub proof fn law_server_login_broadcasts_registry(users: Seq<Seq<char>>, current: Option<Seq<char>>, name: Seq<char>)
    requires
        !users.contains(name),
    ensures
        server_step(users, current, ClientMessageView::Login { username: name }) == (
            users.push(name),
            Some(name),
            seq![
                DeliveryView::ToSender(ServerMessageView::LoginSuccess { username: name }),
                DeliveryView::BroadcastUserList(users.push(name)),
            ],
        ),
{
}


/// Declining a ringing call goes back to the contact list and, with the lobby
/// connected, sends the caller a refusal from us.
pub proof fn law_decline_refuses_caller(s: AppStateView, caller: Seq<char>)
    requires
        s.screen == (ScreenView::Ringing { caller }),
        s.lobby_connected,
    ensures
        key_step(s, Key::Char('n')) == (
            AppStateView { screen: ScreenView::ContactList, ..s },
            ActionView::Send(MessageView::CallRejected { from: s.username, to: caller }),
        ),
{
}

/// A refusal of our outgoing call shows an error naming who refused.
pub proof fn law_refusal_shows_error(s: AppStateView, target: Seq<char>, from: Seq<char>)
    requires
        s.screen == (ScreenView::Calling { target }),
    ensures
        signal_step(s, MessageView::CallRejected { from, to: s.username }) == (
            AppStateView { screen: ScreenView::Error(from + " が通話を拒否しました"@), ..s },
            ActionView::Nothing,
        ),
{
}

/// The other end hanging up during a call closes the call room and returns to
/// the contact list, whoever the message names.
pub proof fn law_remote_hang_up(s: AppStateView, from: Seq<char>, to: Seq<char>)
    requires
        s.screen is InCall,
        s.call_connected,
    ensures
        signal_step(s, MessageView::CallEnded { from, to }) == (
            AppStateView { call_connected: false, screen: ScreenView::ContactList, ..s },
            ActionView::CloseCall,
        ),
{
}

/// Hanging up ourselves closes the call room, forgets the room and any
/// disconnection notice, and returns to the contact list.
pub proof fn law_local_hang_up(s: AppStateView)
    requires
        s.screen is InCall,
        s.disconnected_peer is None,
        s.call_connected,
    ensures
        key_step(s, Key::Esc) == key_step(s, Key::Char('q')),
        key_step(s, Key::Esc) == (
            AppStateView {
                call_connected: false,
                room_name: Seq::empty(),
                disconnected_peer: None,
                screen: ScreenView::ContactList,
                ..s
            },
            ActionView::CloseCall,
        ),
{
}

/// An invitation addressed to us adds one informational status line naming
/// the inviter and the room, after the lines already there (the oldest is
/// dropped once the log is full).
pub proof fn law_invitation_noted(s: AppStateView, from: Seq<char>, room: Seq<char>)
    requires
        s.status_messages.len() < STATUS_CAPACITY,
    ensures
        signal_step(s, MessageView::RoomInvite { from, to: s.username, room }) == (
            AppStateView {
                status_messages: s.status_messages.push(
                    (from + " から \""@ + room + "\" に招待されました。[j] で参加できます"@, StatusKind::Info),
                ),
                ..s
            },
            ActionView::Nothing,
        ),
{
}

/// A public room announced by someone else is listed at the end unless the
/// same owner already lists the same name; a withdrawal removes exactly that
/// owner's listings of that name.
pub proof fn law_room_messages_update_listing(s: AppStateView, owner: Seq<char>, name: Seq<char>)
    requires
        owner != s.username,
    ensures
        signal_step(s, MessageView::RoomAnnounce { from: owner, room: name }).0.announced_rooms == (if lists_room(
            s.announced_rooms,
            owner,
            name,
        ) {
            s.announced_rooms
        } else {
            s.announced_rooms.push(RoomView { owner, name })
        }),
        forall|r: RoomView| #[trigger] signal_step(s, MessageView::RoomRemove { from: owner, room: name }).0.announced_rooms.contains(r)
            <==> s.announced_rooms.contains(r) && !(r.owner == owner && r.name == name),
{
    let p = |r: RoomView| !(r.owner == owner && r.name == name);
    let w = s.announced_rooms.filter(p);
    assert forall|r: RoomView| #[trigger] w.contains(r) <==> s.announced_rooms.contains(r) && p(r) by {
        if w.contains(r) {
            s.announced_rooms.lemma_filter_contains_rev(p, r);
            let k = choose|k: int| 0 <= k < w.len() && w[k] == r;
            s.announced_rooms.lemma_filter_pred(p, k);
        }
        if s.announced_rooms.contains(r) && p(r) {
            let k = choose|k: int| 0 <= k < s.announced_rooms.len() && s.announced_rooms[k] == r;
            s.announced_rooms.lemma_filter_contains(p, k);
        }
    }
}

/// Joining the lobby shows the room browser at its first entry, logged in
/// under the name given, with the users already online, and saves the
/// connection settings under that name.
pub proof fn law_lobby_joined(s: AppStateView, username: Seq<char>, online: Seq<Seq<char>>)
    ensures
        ({
            let (t, cfg) = lobby_connected_spec(s, username, online);
            &&& t.screen is RoomBrowser
            &&& t.username == username
            &&& t.users == online
            &&& t.lobby_connected
            &&& t.selected_index == 0
            &&& t.input_buffer.len() == 0
            &&& cfg.last_username == username
            &&& cfg.livekit_url == s.livekit_url
            &&& cfg.api_key == s.api_key
            &&& cfg.api_secret == s.api_secret
        }),
{
}

/// A failed connection shows an error carrying the failure's text after a
/// prefix that says what failed.
pub proof fn law_failures_shown(s: AppStateView, room: Seq<char>, e: Seq<char>, callee: Seq<char>, caller: Seq<char>, invited: Seq<Seq<char>>, is_public: bool)
    ensures
        lobby_failed_spec(s, FailureView::Token(e)).screen == ScreenView::Error("トークンエラー: "@ + e),
        lobby_failed_spec(s, FailureView::Connect(e)).screen == ScreenView::Error("LiveKit 接続失敗: "@ + e),
        join_failed_spec(s, PurposeView::PublicRoom, FailureView::Token(e)).screen == ScreenView::Error("トークンエラー: "@ + e),
        join_failed_spec(s, PurposeView::AcceptedCall { callee }, FailureView::Connect(e)).screen
            == ScreenView::Error(callee + " との通話参加に失敗: "@ + e),
        join_failed_spec(s, PurposeView::AnswerCall { caller }, FailureView::Connect(e)).screen
            == ScreenView::Error("通話ルーム参加失敗: "@ + e),
        join_failed_spec(s, PurposeView::PublicRoom, FailureView::Connect(e)).screen
            == ScreenView::Error("ルーム参加失敗: "@ + e),
        join_failed_spec(s, PurposeView::OwnRoom { invited, is_public }, FailureView::Connect(e)).screen
            == ScreenView::Error("ルーム参加失敗: "@ + e),
        join_failed_spec(s, PurposeView::PublicRoom, FailureView::Connect(e)) == (AppStateView {
            screen: ScreenView::Error("ルーム参加失敗: "@ + e),
            ..s
        }),
{
}

/// Joining a listed public room or accepting/answering a call puts us in the
/// call; only a listed room is recorded as ours to withdraw; answering sends
/// the caller the room, accepting sends nothing.
pub proof fn law_call_joins(s: AppStateView, room: Seq<char>, callee: Seq<char>, caller: Seq<char>)
    requires
        s.lobby_connected,
    ensures
        join_succeeded_spec(s, room, PurposeView::PublicRoom) == (
            AppStateView { screen: ScreenView::InCall, call_connected: true, room_name: room, ..s },
            Seq::<MessageView>::empty(),
        ),
        join_succeeded_spec(s, room, PurposeView::AcceptedCall { callee }) == (
            AppStateView { screen: ScreenView::InCall, call_connected: true, ..s },
            Seq::<MessageView>::empty(),
        ),
        join_succeeded_spec(s, room, PurposeView::AnswerCall { caller }) == (
            AppStateView { screen: ScreenView::InCall, call_connected: true, ..s },
            seq![MessageView::CallAccepted { from: s.username, to: caller, room }],
        ),
{
}

/// In the login form a typed character goes to the end of the focused field,
/// Backspace removes its last character, and pasted text goes there without
/// its line breaks; no other field changes.
pub proof fn law_login_editing(s: AppStateView, c: char, text: Seq<char>)
    requires
        s.screen is Login,
        s.active_input_index == 1,
        s.livekit_url.len() > 0,
    ensures
        key_step(s, Key::Char(c)) == (AppStateView { livekit_url: s.livekit_url.push(c), ..s }, ActionView::Nothing),
        key_step(s, Key::Backspace) == (
            AppStateView { livekit_url: s.livekit_url.subrange(0, s.livekit_url.len() - 1), ..s },
            ActionView::Nothing,
        ),
        paste_step(s, text) == (AppStateView { livekit_url: s.livekit_url + strip_line_breaks_spec(text), ..s }),
{
    assert(s.livekit_url.drop_last() == s.livekit_url.subrange(0, s.livekit_url.len() - 1));
}

/// The first login field takes the name: typing adds to it, whichever key is typed.
pub proof fn law_login_name_typing(s: AppStateView, c: char)
    requires
        s.screen is Login,
        s.active_input_index == 0,
    ensures
        key_step(s, Key::Char(c)) == (AppStateView { input_buffer: s.input_buffer.push(c), ..s }, ActionView::Nothing),
{
}

/// Up and Down move the contact-list selection by exactly one while it stays
/// within the list, and leave it where it is at either end.
pub proof fn law_selection_moves_by_one(s: AppStateView)
    requires
        s.screen is ContactList,
        s.selected_index < callable(s).len() <= usize::MAX,
    ensures
        key_step(s, Key::Down).0.selected_index == (if s.selected_index + 1 < callable(s).len() {
            s.selected_index + 1
        } else {
            s.selected_index as int
        }),
        key_step(s, Key::Up).0.selected_index == (if s.selected_index > 0 {
            s.selected_index - 1
        } else {
            0
        }),
        key_step(s, Key::Down).1 == ActionView::Nothing,
        key_step(s, Key::Up).1 == ActionView::Nothing,
{
}

/// `p` on the room creation screen flips between public and private and
/// changes nothing else.
pub proof fn law_visibility_toggle(s: AppStateView)
    requires
        s.screen is JoinRoom,
    ensures
        key_step(s, Key::Char('p')) == (AppStateView { room_is_public: !s.room_is_public, ..s }, ActionView::Nothing),
{
}

/// The server sends an online user's call request to that user, naming the
/// caller; a request for someone offline is answered with an error; a
/// connection not logged in gets nothing. A refusal reaches the caller
/// naming who refused. None of these change the registry.
pub proof fn law_server_routes_calls(users: Seq<Seq<char>>, me: Seq<char>, other: Seq<char>)
    ensures
        users.contains(other) ==> server_step(users, Some(me), ClientMessageView::CallRequest { target_username: other })
            == (users, Some(me), seq![DeliveryView::ToUser(other, ServerMessageView::IncomingCall { from_username: me })]),
        !users.contains(other) ==> server_step(users, Some(me), ClientMessageView::CallRequest { target_username: other })
            == (
            users,
            Some(me),
            seq![DeliveryView::ToSender(ServerMessageView::Error { message: "Target user offline"@ })],
        ),
        server_step(users, None, ClientMessageView::CallRequest { target_username: other }) == (
            users,
            None::<Seq<char>>,
            Seq::<DeliveryView>::empty(),
        ),
        users.contains(other) ==> server_step(users, Some(me), ClientMessageView::CallReject { caller_username: other })
            == (users, Some(me), seq![DeliveryView::ToUser(other, ServerMessageView::CallRejected { target_username: me })]),
{
}

/// A closed connection's name leaves the registry, and everyone still
/// registered is sent the remaining names, in order.
pub proof fn law_server_leave_broadcasts_rest(users: Seq<Seq<char>>, name: Seq<char>)
    ensures
        ({
            let (after, out) = server_disconnect_spec(users, Some(name));
            &&& !after.contains(name)
            &&& forall|u: Seq<char>| u != name ==> (#[trigger] after.contains(u) <==> users.contains(u))
            &&& out == seq![DeliveryView::BroadcastUserList(after)]
        }),
{
    let p = differs_from(name);
    let after = users.filter(p);
    assert forall|u: Seq<char>| #[trigger] after.contains(u) <==> users.contains(u) && p(u) by {
        if after.contains(u) {
            users.lemma_filter_contains_rev(p, u);
            let k = choose|k: int| 0 <= k < after.len() && after[k] == u;
            users.lemma_filter_pred(p, k);
        }
        if users.contains(u) && p(u) {
            let k = choose|k: int| 0 <= k < users.len() && users[k] == u;
            users.lemma_filter_contains(p, k);
        }
    }
}

} // verus!
