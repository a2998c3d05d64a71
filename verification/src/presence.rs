//! Who is online in the lobby and which public rooms are listed.
use crate::app_state::{room_views, views, AnnouncedRoom, RoomView};
use vstd::prelude::*;

verus! {

broadcast use vstd::seq_lib::group_seq_properties;

/// The test "is not `x`" on texts.
pub open spec fn differs_from(x: Seq<char>) -> spec_fn(Seq<char>) -> bool {
    |u: Seq<char>| u != x
}

/// The online list after `id` connects: added at the end unless already there.
pub open spec fn connect_spec(list: Seq<Seq<char>>, id: Seq<char>) -> Seq<Seq<char>> {
    if list.contains(id) { list } else { list.push(id) }
}

/// The online list after `id` leaves: every entry equal to `id` is removed.
pub open spec fn disconnect_spec(list: Seq<Seq<char>>, id: Seq<char>) -> Seq<Seq<char>> {
    list.filter(differs_from(id))
}

/// The users other than `me`, in list order.
pub open spec fn others_spec(list: Seq<Seq<char>>, me: Seq<char>) -> Seq<Seq<char>> {
    list.filter(differs_from(me))
}

/// Whether `s` lists a room with this owner and name.
pub open spec fn lists_room(s: Seq<RoomView>, owner: Seq<char>, name: Seq<char>) -> bool {
    exists|i: int| 0 <= i < s.len() && s[i].owner == owner && s[i].name == name
}

/// The room list after `owner` announces `name`: added at the end unless listed.
pub open spec fn announce_spec(s: Seq<RoomView>, owner: Seq<char>, name: Seq<char>) -> Seq<RoomView> {
    if lists_room(s, owner, name) { s } else { s.push(RoomView { owner, name }) }
}

/// The room list after `owner` withdraws `name`: every such listing is removed.
pub open spec fn withdraw_spec(s: Seq<RoomView>, owner: Seq<char>, name: Seq<char>) -> Seq<RoomView> {
    s.filter(|r: RoomView| !(r.owner == owner && r.name == name))
}

/// Index of an entry equal to `id`, if any.
fn find_text(list: &Vec<String>, id: &String) -> (r: Option<usize>)
    ensures
        r is None <==> !views(list@).contains(id@),
        r matches Some(i) ==> i < list.len() && list@[i as int]@ == id@,
{
    let mut i: usize = 0;
    while i < list.len()
        invariant
            i <= list.len(),
            forall|k: int| 0 <= k < i ==> list@[k]@ != id@,
        decreases list.len() - i,
    {
        if list[i] == *id {
            assert(views(list@)[i as int] == id@);
            return Some(i);
        }
        i = i + 1;
    }
    assert(!views(list@).contains(id@)) by {
        if views(list@).contains(id@) {
            let k = choose|k: int| 0 <= k < views(list@).len() && views(list@)[k] == id@;
            assert(list@[k]@ == id@);
        }
    }
    None
}

/// Whether some entry of `list` has the text of `id`.
pub(crate) fn contains_text(list: &Vec<String>, id: &String) -> (b: bool)
    ensures
        b == views(list@).contains(id@),
{
    find_text(list, id).is_some()
}

/// Records that `id` joined the lobby.
pub fn participant_connected(list: &mut Vec<String>, id: String)
    ensures
        views(final(list)@) == connect_spec(views(old(list)@), id@),
{
    if find_text(list, &id).is_none() {
        let ghost before = list@;
        list.push(id);
        assert(views(list@) == views(before).push(id@));
    }
}

/// Copies of the entries of `list` whose text differs from `id`, in order.
fn without(list: &Vec<String>, id: &String) -> (r: Vec<String>)
    ensures
        views(r@) == views(list@).filter(differs_from(id@)),
{
    let ghost p = differs_from(id@);
    let mut r: Vec<String> = Vec::new();
    let mut i: usize = 0;
    while i < list.len()
        invariant
            i <= list.len(),
            p == differs_from(id@),
            views(r@) == views(list@).take(i as int).filter(p),
        decreases list.len() - i,
    {
        let ghost before = r@;
        proof {
            views(list@).take(i as int).lemma_filter_push(list@[i as int]@, p);
            assert(views(list@).take(i as int).push(list@[i as int]@) == views(list@).take(i + 1));
        }
        if !(list[i] == *id) {
            r.push(list[i].clone());
            assert(views(r@) == views(before).push(list@[i as int]@));
        }
        i = i + 1;
    }
    assert(views(list@).take(list.len() as int) == views(list@));
    r
}

/// Records that `id` left the lobby.
pub fn participant_disconnected(list: &mut Vec<String>, id: &String)
    ensures
        views(final(list)@) == disconnect_spec(views(old(list)@), id@),
{
    let r = without(list, id);
    *list = r;
}

/// The users that can be called or invited: everyone listed except `me`.
pub fn other_users(list: &Vec<String>, me: &String) -> (r: Vec<String>)
    ensures
        views(r@) == others_spec(views(list@), me@),
{
    without(list, me)
}

/// Whether `rooms` lists `name` by `owner`.
fn find_room(rooms: &Vec<AnnouncedRoom>, owner: &String, name: &String) -> (b: bool)
    ensures
        b == lists_room(room_views(rooms@), owner@, name@),
{
    let mut i: usize = 0;
    while i < rooms.len()
        invariant
            i <= rooms.len(),
            forall|k: int| 0 <= k < i ==> !(rooms@[k].owner@ == owner@ && rooms@[k].name@ == name@),
        decreases rooms.len() - i,
    {
        if rooms[i].owner == *owner && rooms[i].name == *name {
            assert(room_views(rooms@)[i as int] == rooms@[i as int]@);
            return true;
        }
        i = i + 1;
    }
    assert(!lists_room(room_views(rooms@), owner@, name@)) by {
        if lists_room(room_views(rooms@), owner@, name@) {
            let k = choose|k: int| 0 <= k < room_views(rooms@).len() && room_views(rooms@)[k].owner == owner@
                && room_views(rooms@)[k].name == name@;
            assert(room_views(rooms@)[k] == rooms@[k]@);
        }
    }
    false
}

/// Lists the public room `name` announced by `owner`.
pub fn announce_room(rooms: &mut Vec<AnnouncedRoom>, owner: String, name: String)
    ensures
        room_views(final(rooms)@) == announce_spec(room_views(old(rooms)@), owner@, name@),
{
    if !find_room(rooms, &owner, &name) {
        let ghost before = rooms@;
        let ghost entry = RoomView { owner: owner@, name: name@ };
        rooms.push(AnnouncedRoom { owner, name });
        assert(room_views(rooms@) == room_views(before).push(entry));
    }
}

/// Removes every listing of `name` by `owner`.
pub fn withdraw_room(rooms: &mut Vec<AnnouncedRoom>, owner: &String, name: &String)
    ensures
        room_views(final(rooms)@) == withdraw_spec(room_views(old(rooms)@), owner@, name@),
{
    let ghost p = |r: RoomView| !(r.owner == owner@ && r.name == name@);
    let mut r: Vec<AnnouncedRoom> = Vec::new();
    let mut i: usize = 0;
    while i < rooms.len()
        invariant
            i <= rooms.len(),
            p == (|r: RoomView| !(r.owner == owner@ && r.name == name@)),
            room_views(r@) == room_views(rooms@).take(i as int).filter(p),
        decreases rooms.len() - i,
    {
        let ghost before = r@;
        proof {
            room_views(rooms@).take(i as int).lemma_filter_push(rooms@[i as int]@, p);
            assert(room_views(rooms@).take(i as int).push(rooms@[i as int]@) == room_views(rooms@).take(i + 1));
        }
        if !(rooms[i].owner == *owner && rooms[i].name == *name) {
            let entry = AnnouncedRoom { owner: rooms[i].owner.clone(), name: rooms[i].name.clone() };
            r.push(entry);
            assert(room_views(r@) == room_views(before).push(rooms@[i as int]@));
        }
        i = i + 1;
    }
    assert(room_views(rooms@).take(rooms.len() as int) == room_views(rooms@));
    *rooms = r;
}

} // verus!
