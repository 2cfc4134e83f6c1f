//! Live group sessions over WebSocket: which connections are admitted, the
//! name a member is announced by, and what each client event leads to.
use vstd::prelude::*;
use crate::auth::Claims;
use crate::errors::AppError;
use crate::ids::{spec_uuid_text, uuid_parse_result, GroupId, UserId};
use crate::models::{spec_display_name, User};

verus! {

/// Why a connection to a group's live channel is refused before the upgrade.
#[derive(Debug, Clone, Copy, PartialEq, Eq, Structural)]
pub enum WsRefusal {
    /// The token did not verify as an access token.
    InvalidToken,
    /// The token's subject is not a user id.
    InvalidClaims,
    /// The path does not hold a group id.
    InvalidGroupId,
    /// The user is not a member of the group.
    NotMember,
}

/// The HTTP status a refusal is answered with.
pub open spec fn spec_refusal_status(r: WsRefusal) -> u16 {
    match r {
        WsRefusal::InvalidToken | WsRefusal::InvalidClaims => 401,
        WsRefusal::InvalidGroupId => 400,
        WsRefusal::NotMember => 403,
    }
}

/// The text a refusal is answered with.
pub open spec fn spec_refusal_text(r: WsRefusal) -> Seq<char> {
    match r {
        WsRefusal::InvalidToken => "Invalid token"@,
        WsRefusal::InvalidClaims => "Invalid token claims"@,
        WsRefusal::InvalidGroupId => "Invalid group id"@,
        WsRefusal::NotMember => "Not a member of this group"@,
    }
}

impl WsRefusal {
    pub fn status(&self) -> (s: u16)
        ensures
            s == spec_refusal_status(*self),
    {
        match self {
            WsRefusal::InvalidToken | WsRefusal::InvalidClaims => 401,
            WsRefusal::InvalidGroupId => 400,
            WsRefusal::NotMember => 403,
        }
    }

    pub fn text(&self) -> (s: &'static str)
        ensures
            s@ == spec_refusal_text(*self),
    {
        match self {
            WsRefusal::InvalidToken => "Invalid token",
            WsRefusal::InvalidClaims => "Invalid token claims",
            WsRefusal::InvalidGroupId => "Invalid group id",
            WsRefusal::NotMember => "Not a member of this group",
        }
    }
}

/// Who connects to which group, given the outcome of verifying the access
/// token and the group id text of the path; checked in that order.
pub open spec fn spec_ws_admission(verified: Result<Claims, AppError>, group_id: Seq<char>)
    -> Result<(UserId, GroupId), WsRefusal>
{
    match verified {
        Err(_) => Err(WsRefusal::InvalidToken),
        Ok(c) => match uuid_parse_result(c.sub@) {
            None => Err(WsRefusal::InvalidClaims),
            Some(u) => match uuid_parse_result(group_id) {
                None => Err(WsRefusal::InvalidGroupId),
                Some(g) => Ok((UserId(u), GroupId(g))),
            },
        },
    }
}

/// Admits a connection by its verified token and the group id of its path.
pub fn ws_admission(verified: Result<Claims, AppError>, group_id: &str) -> (r: Result<(UserId, GroupId), WsRefusal>)
    ensures
        r == spec_ws_admission(verified, group_id@),
{
    let claims = match verified {
        Ok(c) => c,
        Err(_) => { return Err(WsRefusal::InvalidToken); },
    };
    let user_id = match claims.user_id() {
        Ok(u) => u,
        Err(_) => { return Err(WsRefusal::InvalidClaims); },
    };
    match GroupId::parse_str(group_id) {
        Some(g) => Ok((user_id, g)),
        None => Err(WsRefusal::InvalidGroupId),
    }
}

/// Refuses a connection from a user who is not a member of the group.
pub fn ws_membership(is_member: bool) -> (r: Result<(), WsRefusal>)
    ensures
        r is Ok <==> is_member,
        r matches Err(e) ==> e == WsRefusal::NotMember,
{
    if is_member {
        Ok(())
    } else {
        Err(WsRefusal::NotMember)
    }
}

/// The name a connecting member is announced by: the stored user's display
/// name, or `Rider` when the user could not be read.
pub fn announced_name(user: Option<User>) -> (s: String)
    ensures
        s@ == match user {
            Some(u) => spec_display_name(u.name),
            None => "Rider"@,
        },
{
    match user {
        Some(u) => String::from_str(u.display_name()),
        None => String::from_str("Rider"),
    }
}

/// What a live session receives from its client.
#[derive(Debug, Clone, Copy, PartialEq, Eq, Structural)]
pub enum SocketEvent {
    /// A text frame holding a location update.
    LocationUpdate,
    /// A text frame holding a ping.
    Ping,
    /// A text frame that is not a client message.
    Malformed,
    /// A close frame.
    CloseFrame,
    /// Any other frame.
    OtherFrame,
    /// The client's stream ended or failed.
    StreamEnded,
}

/// What the session does about an event.
#[derive(Debug, Clone, Copy, PartialEq, Eq, Structural)]
pub enum SocketAction {
    /// Broadcast the member's location to the group.
    RelayLocation,
    /// Nothing.
    Ignore,
    /// Log the malformed message and go on.
    ReportMalformed,
    /// End the session: announce the departure and drop an unused channel.
    Finish,
}

pub open spec fn spec_socket_action(e: SocketEvent) -> SocketAction {
    match e {
        SocketEvent::LocationUpdate => SocketAction::RelayLocation,
        SocketEvent::Ping | SocketEvent::OtherFrame => SocketAction::Ignore,
        SocketEvent::Malformed => SocketAction::ReportMalformed,
        SocketEvent::CloseFrame | SocketEvent::StreamEnded => SocketAction::Finish,
    }
}

/// The session's answer to a client event.
pub fn socket_action(e: SocketEvent) -> (a: SocketAction)
    ensures
        a == spec_socket_action(e),
{
    match e {
        SocketEvent::LocationUpdate => SocketAction::RelayLocation,
        SocketEvent::Ping | SocketEvent::OtherFrame => SocketAction::Ignore,
        SocketEvent::Malformed => SocketAction::ReportMalformed,
        SocketEvent::CloseFrame | SocketEvent::StreamEnded => SocketAction::Finish,
    }
}

/// A location update as a client sends it. Floating point quantities are
/// carried as the bit patterns of their `f64` values; the instant is whole
/// seconds since the Unix epoch and nanoseconds within the second.
#[derive(Debug, Clone)]
pub struct LocationUpdate {
    pub latitude_bits: u64,
    pub longitude_bits: u64,
    pub speed_bits: u64,
    pub heading_bits: Option<u64>,
    pub timestamp_secs: i64,
    pub timestamp_nanos: u32,
}

/// A member's location as relayed to the rest of the group.
#[derive(Debug, Clone)]
pub struct MemberLocation {
    pub user_id: String,
    pub name: String,
    pub latitude_bits: u64,
    pub longitude_bits: u64,
    pub speed_bits: u64,
    pub heading_bits: Option<u64>,
    pub timestamp_secs: i64,
    pub timestamp_nanos: u32,
}

/// The message relaying a member's location update to the group: the
/// member's id text and announced name, and the update as it was sent.
pub fn relay_location(user_id: UserId, name: &str, update: LocationUpdate) -> (m: MemberLocation)
    ensures
        m.user_id@ == spec_uuid_text(user_id.0 as nat),
        m.name@ == name@,
        m.latitude_bits == update.latitude_bits,
        m.longitude_bits == update.longitude_bits,
        m.speed_bits == update.speed_bits,
        m.heading_bits == update.heading_bits,
        m.timestamp_secs == update.timestamp_secs,
        m.timestamp_nanos == update.timestamp_nanos,
{
    MemberLocation {
        user_id: user_id.to_string(),
        name: String::from_str(name),
        latitude_bits: update.latitude_bits,
        longitude_bits: update.longitude_bits,
        speed_bits: update.speed_bits,
        heading_bits: update.heading_bits,
        timestamp_secs: update.timestamp_secs,
        timestamp_nanos: update.timestamp_nanos,
    }
}

/// A session ends exactly when its client closes or its stream ends; a
/// malformed message does not end it.
pub proof fn lemma_only_close_finishes(e: SocketEvent)
    ensures
        (spec_socket_action(e) == SocketAction::Finish)
            <==> (e == SocketEvent::CloseFrame || e == SocketEvent::StreamEnded),
{
}

/// An admitted connection is that of the token's user to the path's group.
pub proof fn lemma_admitted_identity(c: Claims, group_id: Seq<char>, u: UserId, g: GroupId)
    requires
        spec_ws_admission(Ok(c), group_id) == Ok::<(UserId, GroupId), WsRefusal>((u, g)),
    ensures
        uuid_parse_result(c.sub@) == Some(u.0),
        uuid_parse_result(group_id) == Some(g.0),
{
}

} // verus!
