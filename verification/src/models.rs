//! The records of the domain. Instants are microseconds since the Unix epoch
//! (UTC). Quantities that are floating point numbers in storage (distances,
//! speeds, coordinates, scores) are carried as the bit patterns of their
//! IEEE-754 double values (`f64::to_bits`); no logic here reads them.
use vstd::prelude::*;
use crate::ids::{
    is_v4_uuid, EmergencyContactId, GroupId, MotorcycleId, NotificationId, RideId, SessionId,
    SosEventId, UserId,
};
use crate::text::{push_hex_fixed, push_int_decimal, spec_hex_fixed, spec_int_decimal};
use crate::types::{GroupRole, NotificationKind, RideStatus, SosStatus, SosTrigger};

verus! {

/// A bound on the distance from the Unix epoch, in seconds, of every instant
/// that `chrono::DateTime<Utc>` represents (years -262143 to 262142).
pub const MAX_ABS_SECONDS: i64 = 8_796_093_022_208;

/// The current instant (`chrono::Utc::now`), in microseconds since the Unix
/// epoch. It is read from the system clock: nothing is promised of its value
/// but its range. `chrono::Utc::now` does not return for a clock set before
/// the epoch, and every instant that `chrono::DateTime<Utc>` can represent
/// lies within `MAX_ABS_SECONDS` seconds of the epoch.
#[verifier::external_body]
pub(crate) fn now_micros() -> (t: i64)
    ensures
        0 <= t < MAX_ABS_SECONDS * 1_000_000,
{
    chrono::Utc::now().timestamp_micros()
}

/// The current instant (`chrono::Utc::now`), in whole seconds since the
/// Unix epoch. It is read from the system clock: nothing is promised of it
/// but its range, as for `now_micros`.
#[verifier::external_body]
pub(crate) fn now_seconds() -> (t: i64)
    ensures
        0 <= t < MAX_ABS_SECONDS,
{
    chrono::Utc::now().timestamp()
}

/// The sub-second part, in nanoseconds, of the time elapsed since the Unix
/// epoch by the system clock (zero when the clock is before the epoch).
#[verifier::external_body]
fn clock_subsec_nanos() -> (n: u32)
    ensures
        n < 1_000_000_000,
{
    std::time::SystemTime::now().duration_since(std::time::UNIX_EPOCH).unwrap_or_default().subsec_nanos()
}

/// A registered rider.
#[derive(Debug, Clone)]
pub struct User {
    pub id: UserId,
    pub phone: String,
    pub name: Option<String>,
    pub avatar_url: Option<String>,
    pub created_at: i64,
    pub updated_at: i64,
}

pub open spec fn spec_display_name(name: Option<String>) -> Seq<char> {
    match name {
        Some(n) => n@,
        None => "Rider"@,
    }
}

impl User {
    /// A new user with the given phone and no profile yet.
    pub fn new(phone: String) -> (u: Self)
        ensures
            is_v4_uuid(u.id.0),
            u.phone == phone,
            u.name is None,
            u.avatar_url is None,
            u.created_at == u.updated_at,
    {
        let now = now_micros();
        User { id: UserId::new(), phone, name: None, avatar_url: None, created_at: now, updated_at: now }
    }

    /// The name to show for the user: their name, or `Rider` when unset.
    pub fn display_name(&self) -> (s: &str)
        ensures
            s@ == spec_display_name(self.name),
    {
        match &self.name {
            Some(n) => n.as_str(),
            None => "Rider",
        }
    }
}

/// Quotient of integer division rounded toward zero, as Rust's `/` computes.
pub open spec fn trunc_div(a: int, b: int) -> int {
    if a >= 0 { a / b } else { -((-a) / b) }
}

/// Remainder matching `trunc_div`, as Rust's `%` computes.
pub open spec fn trunc_rem(a: int, b: int) -> int {
    a - b * trunc_div(a, b)
}

/// A ride's duration for display: `"{h}h {m}m"` when it spans at least an
/// hour, `"{m} min"` otherwise (hours and minutes as Rust's integer `/` and
/// `%` give them).
pub open spec fn spec_duration_display(total: int) -> Seq<char> {
    let hours = trunc_div(total, 3600);
    let minutes = trunc_div(trunc_rem(total, 3600), 60);
    if hours > 0 {
        spec_int_decimal(hours) + "h "@ + spec_int_decimal(minutes) + "m"@
    } else {
        spec_int_decimal(minutes) + " min"@
    }
}

/// A recorded ride.
#[derive(Debug, Clone)]
pub struct Ride {
    pub id: RideId,
    pub user_id: UserId,
    pub name: Option<String>,
    pub status: RideStatus,
    pub started_at: Option<i64>,
    pub ended_at: Option<i64>,
    /// Total distance in miles (bit pattern of an `f64`).
    pub distance_miles_bits: u64,
    /// Duration in seconds.
    pub duration_seconds: i64,
    /// Average speed in mph (bit pattern of an `f64`).
    pub average_speed_mph_bits: u64,
    /// Maximum speed in mph (bit pattern of an `f64`).
    pub max_speed_mph_bits: u64,
    /// Safety score 0–100 (bit pattern of an `f64`).
    pub safety_score_bits: Option<u64>,
    pub route_summary: Option<String>,
    pub created_at: i64,
    pub updated_at: i64,
}

impl Ride {
    /// A new pending ride for the user; distance and speeds are `0.0`.
    pub fn new(user_id: UserId, name: Option<String>) -> (r: Self)
        ensures
            is_v4_uuid(r.id.0),
            r.user_id == user_id,
            r.name == name,
            r.status == RideStatus::Pending,
            r.started_at is None,
            r.ended_at is None,
            r.distance_miles_bits == 0,
            r.duration_seconds == 0,
            r.average_speed_mph_bits == 0,
            r.max_speed_mph_bits == 0,
            r.safety_score_bits is None,
            r.route_summary is None,
            r.created_at == r.updated_at,
    {
        let now = now_micros();
        Ride {
            id: RideId::new(),
            user_id,
            name,
            status: RideStatus::Pending,
            started_at: None,
            ended_at: None,
            distance_miles_bits: 0,
            duration_seconds: 0,
            average_speed_mph_bits: 0,
            max_speed_mph_bits: 0,
            safety_score_bits: None,
            route_summary: None,
            created_at: now,
            updated_at: now,
        }
    }

    /// Duration formatted as human-readable text (e.g. "28 min" or "1h 45m").
    pub fn duration_display(&self) -> (s: String)
        ensures
            s@ == spec_duration_display(self.duration_seconds as int),
    {
        let total = self.duration_seconds as i128;
        let hours: i128 = if total >= 0 { total / 3600 } else { -((-total) / 3600) };
        let rem: i128 = total - 3600 * hours;
        let minutes: i128 = if rem >= 0 { rem / 60 } else { -((-rem) / 60) };
        let mut s = String::new();
        if hours > 0 {
            push_int_decimal(&mut s, hours as i64);
            s.append("h ");
            push_int_decimal(&mut s, minutes as i64);
            s.append("m");
        } else {
            push_int_decimal(&mut s, minutes as i64);
            s.append(" min");
        }
        s
    }
}

/// A group of riders sharing locations.
#[derive(Debug, Clone)]
pub struct Group {
    pub id: GroupId,
    pub name: String,
    pub description: Option<String>,
    pub owner_id: UserId,
    pub invite_code: String,
    pub is_active: bool,
    pub created_at: i64,
    pub updated_at: i64,
}

/// The invite code drawn from a clock seed: the seed reduced modulo
/// `0xFFFFFF`, written as six upper-case hexadecimal digits.
pub open spec fn spec_invite_code(seed: nat) -> Seq<char> {
    spec_hex_fixed(seed % 0xFF_FF_FF, 6, true)
}

/// An upper-case hexadecimal digit.
pub open spec fn is_upper_hex_digit(c: char) -> bool {
    ('0' <= c <= '9') || ('A' <= c <= 'F')
}

/// The invite code for a given seed.
pub fn invite_code_from_seed(seed: u32) -> (code: String)
    ensures
        code@ == spec_invite_code(seed as nat),
{
    let mut code = String::new();
    push_hex_fixed(&mut code, (seed % 0xFF_FF_FF) as u128, 6, true);
    code
}

/// Every upper-case fixed-width hexadecimal rendering has the width asked
/// for and only upper-case hexadecimal digits.
pub proof fn lemma_hex_upper_shape(n: nat, width: nat)
    ensures
        spec_hex_fixed(n, width, true).len() == width,
        forall|i: int| 0 <= i < width ==> is_upper_hex_digit(#[trigger] spec_hex_fixed(n, width, true)[i]),
    decreases width,
{
    if width > 0 {
        lemma_hex_upper_shape(n / 16, (width - 1) as nat);
    }
}

/// Generates a 6-character upper-case invite code from the clock.
pub fn generate_invite_code() -> (code: String)
    ensures
        exists|seed: nat| seed < 1_000_000_000 && code@ == #[trigger] spec_invite_code(seed),
        code@.len() == 6,
        forall|i: int| 0 <= i < 6 ==> is_upper_hex_digit(#[trigger] code@[i]),
{
    let seed = clock_subsec_nanos();
    let code = invite_code_from_seed(seed);
    proof {
        lemma_hex_upper_shape(seed as nat % 0xFF_FF_FF, 6);
    }
    code
}

impl Group {
    /// A new active group owned by `owner_id`, with a fresh invite code.
    pub fn new(name: String, description: Option<String>, owner_id: UserId) -> (g: Self)
        ensures
            is_v4_uuid(g.id.0),
            g.name == name,
            g.description == description,
            g.owner_id == owner_id,
            g.invite_code@.len() == 6,
            forall|i: int| 0 <= i < 6 ==> is_upper_hex_digit(#[trigger] g.invite_code@[i]),
            g.is_active,
            g.created_at == g.updated_at,
    {
        let now = now_micros();
        Group {
            id: GroupId::new(),
            name,
            description,
            owner_id,
            invite_code: generate_invite_code(),
            is_active: true,
            created_at: now,
            updated_at: now,
        }
    }
}

/// Membership record linking a user to a group.
#[derive(Debug, Clone)]
pub struct GroupMember {
    pub group_id: GroupId,
    pub user_id: UserId,
    pub role: GroupRole,
    pub joined_at: i64,
}

/// A person to alert when the rider triggers an SOS.
#[derive(Debug, Clone)]
pub struct EmergencyContact {
    pub id: EmergencyContactId,
    pub user_id: UserId,
    pub name: String,
    pub phone: String,
    pub relationship: Option<String>,
    pub created_at: i64,
}

impl EmergencyContact {
    pub fn new(user_id: UserId, name: String, phone: String, relationship: Option<String>) -> (c: Self)
        ensures
            is_v4_uuid(c.id.0),
            c.user_id == user_id,
            c.name == name,
            c.phone == phone,
            c.relationship == relationship,
    {
        EmergencyContact {
            id: EmergencyContactId::new(),
            user_id,
            name,
            phone,
            relationship,
            created_at: now_micros(),
        }
    }
}

/// A rider's motorcycle.
#[derive(Debug, Clone)]
pub struct Motorcycle {
    pub id: MotorcycleId,
    pub user_id: UserId,
    pub make: String,
    pub model: String,
    pub year: i32,
    pub plate: Option<String>,
    pub color: Option<String>,
    pub created_at: i64,
    pub updated_at: i64,
}

/// `"{year} {make} {model}"`.
pub open spec fn spec_motorcycle_name(year: int, make: Seq<char>, model: Seq<char>) -> Seq<char> {
    spec_int_decimal(year) + " "@ + make + " "@ + model
}

impl Motorcycle {
    pub fn new(user_id: UserId, make: String, model: String, year: i32) -> (m: Self)
        ensures
            is_v4_uuid(m.id.0),
            m.user_id == user_id,
            m.make == make,
            m.model == model,
            m.year == year,
            m.plate is None,
            m.color is None,
            m.created_at == m.updated_at,
    {
        let now = now_micros();
        Motorcycle {
            id: MotorcycleId::new(),
            user_id,
            make,
            model,
            year,
            plate: None,
            color: None,
            created_at: now,
            updated_at: now,
        }
    }

    /// The motorcycle's name: year, make and model separated by spaces.
    pub fn display_name(&self) -> (s: String)
        ensures
            s@ == spec_motorcycle_name(self.year as int, self.make@, self.model@),
    {
        let mut s = String::new();
        push_int_decimal(&mut s, self.year as i64);
        s.append(" ");
        s.append(self.make.as_str());
        s.append(" ");
        s.append(self.model.as_str());
        s
    }
}

/// A notification addressed to a user.
#[derive(Debug, Clone)]
pub struct Notification {
    pub id: NotificationId,
    pub user_id: UserId,
    pub kind: NotificationKind,
    pub title: String,
    pub body: String,
    pub is_read: bool,
    pub created_at: i64,
}

impl Notification {
    /// A new unread notification.
    pub fn new(user_id: UserId, kind: NotificationKind, title: String, body: String) -> (n: Self)
        ensures
            is_v4_uuid(n.id.0),
            n.user_id == user_id,
            n.kind == kind,
            n.title == title,
            n.body == body,
            !n.is_read,
    {
        Notification {
            id: NotificationId::new(),
            user_id,
            kind,
            title,
            body,
            is_read: false,
            created_at: now_micros(),
        }
    }
}

/// A login session; only a hash of the refresh token is kept.
#[derive(Debug, Clone)]
pub struct Session {
    pub id: SessionId,
    pub user_id: UserId,
    pub refresh_token_hash: String,
    pub expires_at: i64,
    pub created_at: i64,
}

/// An SOS alert raised by a rider.
#[derive(Debug, Clone)]
pub struct SosEvent {
    pub id: SosEventId,
    pub user_id: UserId,
    /// Latitude in degrees (bit pattern of an `f64`).
    pub latitude_bits: u64,
    /// Longitude in degrees (bit pattern of an `f64`).
    pub longitude_bits: u64,
    /// GPS accuracy radius in metres (bit pattern of an `f64`).
    pub accuracy_bits: u64,
    pub trigger: SosTrigger,
    pub status: SosStatus,
    pub contacts_notified: i32,
    pub created_at: i64,
    pub resolved_at: Option<i64>,
    pub resolve_reason: Option<String>,
}

impl SosEvent {
    /// A new active SOS event at the given position, with nobody notified yet.
    pub fn new(
        user_id: UserId,
        latitude_bits: u64,
        longitude_bits: u64,
        accuracy_bits: u64,
        trigger: SosTrigger,
    ) -> (e: Self)
        ensures
            is_v4_uuid(e.id.0),
            e.user_id == user_id,
            e.latitude_bits == latitude_bits,
            e.longitude_bits == longitude_bits,
            e.accuracy_bits == accuracy_bits,
            e.trigger == trigger,
            e.status == SosStatus::Active,
            e.contacts_notified == 0,
            e.resolved_at is None,
            e.resolve_reason is None,
    {
        SosEvent {
            id: SosEventId::new(),
            user_id,
            latitude_bits,
            longitude_bits,
            accuracy_bits,
            trigger,
            status: SosStatus::Active,
            contacts_notified: 0,
            created_at: now_micros(),
            resolved_at: None,
            resolve_reason: None,
        }
    }
}

} // verus!
