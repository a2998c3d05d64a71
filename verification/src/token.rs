//! The claims of the access tokens the client signs for itself.
use vstd::prelude::*;

verus! {

/// Validity of a token, in seconds.
pub const TOKEN_LIFETIME_SECS: usize = 3600;

/// The rights a token grants in the media service.
#[allow(non_snake_case)]
pub struct VideoGrants {
    pub roomCreate: bool,
    pub roomJoin: bool,
    pub room: String,
}

/// The claims of a token: issuer (the API key), subject and display name (the
/// user), the grants, and its validity window.
pub struct Claims {
    pub iss: String,
    pub sub: String,
    pub name: String,
    pub video: VideoGrants,
    pub exp: usize,
    pub nbf: usize,
}

/// The claims with their texts taken as characters.
pub struct ClaimsView {
    pub iss: Seq<char>,
    pub sub: Seq<char>,
    pub name: Seq<char>,
    pub room_create: bool,
    pub room_join: bool,
    pub room: Seq<char>,
    pub exp: int,
    pub nbf: int,
}

impl View for Claims {
    type V = ClaimsView;

    open spec fn view(&self) -> ClaimsView {
        ClaimsView {
            iss: self.iss@,
            sub: self.sub@,
            name: self.name@,
            room_create: self.video.roomCreate,
            room_join: self.video.roomJoin,
            room: self.video.room@,
            exp: self.exp as int,
            nbf: self.nbf as int,
        }
    }
}

/// The claims for `identity` to create and join `room`, issued under
/// `api_key` at time `now` (seconds since the epoch), valid for an hour.
pub open spec fn claims_spec(api_key: Seq<char>, identity: Seq<char>, room: Seq<char>, now: int) -> ClaimsView {
    ClaimsView {
        iss: api_key,
        sub: identity,
        name: identity,
        room_create: true,
        room_join: true,
        room,
        exp: now + TOKEN_LIFETIME_SECS,
        nbf: now,
    }
}

/// The claims of the token that lets `identity` into `room` from `now` on.
pub fn token_claims(api_key: &str, identity: &str, room: &str, now: usize) -> (c: Claims)
    requires
        now + TOKEN_LIFETIME_SECS <= usize::MAX,
    ensures
        c@ == claims_spec(api_key@, identity@, room@, now as int),
{
    Claims {
        iss: String::from_str(api_key),
        sub: String::from_str(identity),
        name: String::from_str(identity),
        video: VideoGrants { roomCreate: true, roomJoin: true, room: String::from_str(room) },
        exp: now + TOKEN_LIFETIME_SECS,
        nbf: now,
    }
}

/// A token is valid for exactly `TOKEN_LIFETIME_SECS` seconds from its issue
/// time, and names the same user as subject and display name.
pub proof fn law_token_window(api_key: Seq<char>, identity: Seq<char>, room: Seq<char>, now: int)
    ensures
        claims_spec(api_key, identity, room, now).exp - claims_spec(api_key, identity, room, now).nbf
            == TOKEN_LIFETIME_SECS,
        claims_spec(api_key, identity, room, now).sub == claims_spec(api_key, identity, room, now).name,
{
}

} // verus!
