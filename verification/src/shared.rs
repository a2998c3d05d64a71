//! Messages exchanged between clients over the lobby's data channel.
use vstd::prelude::*;

verus! {

/// A signaling message. On the wire it is a JSON object whose `"type"` field
/// names the variant.
#[derive(Clone, Debug, PartialEq, Eq)]
pub enum SignalingMessage {
    /// Caller to callee: "I want to call you".
    CallRequest { from: String, to: String },
    /// Callee to caller: "I accepted, here is the room to join".
    CallAccepted { from: String, to: String, room: String },
    /// Callee to caller: "I rejected your call".
    CallRejected { from: String, to: String },
    /// Either side: "hang up".
    CallEnded { from: String, to: String },
    /// A room owner lists a public room in the lobby.
    RoomAnnounce { from: String, room: String },
    /// A room owner withdraws a public room listing.
    RoomRemove { from: String, room: String },
    /// Invites a specific user into a room.
    RoomInvite { from: String, to: String, room: String },
}

/// A signaling message with every text taken as its characters.
pub enum MessageView {
    CallRequest { from: Seq<char>, to: Seq<char> },
    CallAccepted { from: Seq<char>, to: Seq<char>, room: Seq<char> },
    CallRejected { from: Seq<char>, to: Seq<char> },
    CallEnded { from: Seq<char>, to: Seq<char> },
    RoomAnnounce { from: Seq<char>, room: Seq<char> },
    RoomRemove { from: Seq<char>, room: Seq<char> },
    RoomInvite { from: Seq<char>, to: Seq<char>, room: Seq<char> },
}

impl View for SignalingMessage {
    type V = MessageView;

    open spec fn view(&self) -> MessageView {
        match self {
            SignalingMessage::CallRequest { from, to } => MessageView::CallRequest {
                from: from@,
                to: to@,
            },
            SignalingMessage::CallAccepted { from, to, room } => MessageView::CallAccepted {
                from: from@,
                to: to@,
                room: room@,
            },
            SignalingMessage::CallRejected { from, to } => MessageView::CallRejected {
                from: from@,
                to: to@,
            },
            SignalingMessage::CallEnded { from, to } => MessageView::CallEnded {
                from: from@,
                to: to@,
            },
            SignalingMessage::RoomAnnounce { from, room } => MessageView::RoomAnnounce {
                from: from@,
                room: room@,
            },
            SignalingMessage::RoomRemove { from, room } => MessageView::RoomRemove {
                from: from@,
                room: room@,
            },
            SignalingMessage::RoomInvite { from, to, room } => MessageView::RoomInvite {
                from: from@,
                to: to@,
                room: room@,
            },
        }
    }
}

} // verus!
