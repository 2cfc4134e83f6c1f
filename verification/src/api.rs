//! The shapes of request and response bodies, their field rules, and the
//! conversions of domain records into responses.
use vstd::prelude::*;
use crate::errors::{spec_error_code, spec_message, spec_status_code, AppError};
use crate::ids::spec_uuid_text;
use crate::models::{EmergencyContact, Group};
use crate::text::{push_decimal, spec_decimal};
use vstd::string::StrSliceExecFns;

verus! {

// ── Field rules ──────────────────────────────────────────────────────────────

/// The fields of a body that break its rules, by name, in declaration order.
#[derive(Debug, Clone)]
pub struct ValidationErrors {
    pub fields: Vec<String>,
}

/// A text whose character count lies in `min..=max`.
pub open spec fn len_within(s: Seq<char>, min: nat, max: nat) -> bool {
    min <= s.len() <= max
}

/// An optional text that is absent or whose character count lies in `min..=max`.
pub open spec fn opt_len_within(s: Option<String>, min: nat, max: nat) -> bool {
    match s {
        Some(v) => len_within(v@, min, max),
        None => true,
    }
}

fn check_len(s: &String, min: usize, max: usize) -> (b: bool)
    ensures
        b == len_within(s@, min as nat, max as nat),
{
    let n = s.as_str().unicode_len();
    min <= n && n <= max
}

fn check_opt_len(s: &Option<String>, min: usize, max: usize) -> (b: bool)
    ensures
        b == opt_len_within(*s, min as nat, max as nat),
{
    match s {
        Some(v) => check_len(v, min, max),
        None => true,
    }
}

/// Records a broken rule of field `name` when `ok` is false.
fn note(errs: &mut Vec<String>, ok: bool, name: &str)
    ensures
        final(errs)@.len() == old(errs)@.len() + if ok { 0int } else { 1int },
        forall|i: int| 0 <= i < old(errs)@.len() ==> #[trigger] final(errs)@[i] == old(errs)@[i],
        !ok ==> final(errs)@[old(errs)@.len() as int]@ == name@,
{
    if !ok {
        errs.push(String::from_str(name));
    }
}

/// The names of the failing fields, in order, from a list of (rule holds,
/// field name) pairs.
pub open spec fn failing(checks: Seq<(bool, Seq<char>)>) -> Seq<Seq<char>>
    decreases checks.len(),
{
    if checks.len() == 0 {
        Seq::empty()
    } else {
        let rest = failing(checks.drop_last());
        if checks.last().0 { rest } else { rest.push(checks.last().1) }
    }
}

pub open spec fn string_views(v: Seq<String>) -> Seq<Seq<char>> {
    v.map_values(|s: String| s@)
}

fn finish(errs: Vec<String>) -> (r: Result<(), ValidationErrors>)
    ensures
        r is Ok <==> errs@.len() == 0,
        r matches Err(e) ==> e.fields@ == errs@,
{
    if errs.len() == 0 {
        Ok(())
    } else {
        Err(ValidationErrors { fields: errs })
    }
}

proof fn lemma_note_step(before: Seq<String>, after: Seq<String>, checks: Seq<(bool, Seq<char>)>, ok: bool, name: Seq<char>)
    requires
        string_views(before) == failing(checks),
        after.len() == before.len() + if ok { 0int } else { 1int },
        forall|i: int| 0 <= i < before.len() ==> #[trigger] after[i] == before[i],
        !ok ==> after[before.len() as int]@ == name,
    ensures
        string_views(after) == failing(checks.push((ok, name))),
{
    assert(checks.push((ok, name)).drop_last() == checks);
    if ok {
        assert(string_views(after) =~= string_views(before));
    } else {
        assert(string_views(after) =~= string_views(before).push(name));
    }
}

// ── Requests ─────────────────────────────────────────────────────────────────

#[derive(Debug, Clone)]
pub struct RequestOtpBody {
    /// 8 to 16 characters (E.164 format).
    pub phone: String,
}

impl RequestOtpBody {
    pub open spec fn rules(&self) -> Seq<(bool, Seq<char>)> {
        seq![(len_within(self.phone@, 8, 16), "phone"@)]
    }

    /// Checks the field rules; on failure names the fields that break them.
    pub fn validate(&self) -> (r: Result<(), ValidationErrors>)
        ensures
            r is Ok <==> failing(self.rules()).len() == 0,
            r matches Err(e) ==> string_views(e.fields@) == failing(self.rules()),
    {
        let mut errs: Vec<String> = Vec::new();
        let ghost e0 = errs@;
        let ok = check_len(&self.phone, 8, 16);
        note(&mut errs, ok, "phone");
        proof {
            assert(string_views(e0) =~= failing(Seq::empty()));
            lemma_note_step(e0, errs@, Seq::empty(), ok, "phone"@);
            assert(Seq::<(bool, Seq<char>)>::empty().push((ok, "phone"@)) == self.rules());
        }
        finish(errs)
    }
}

#[derive(Debug, Clone)]
pub struct VerifyOtpBody {
    /// 8 to 16 characters.
    pub phone: String,
    /// Exactly 6 characters.
    pub code: String,
}

impl VerifyOtpBody {
    pub open spec fn rules(&self) -> Seq<(bool, Seq<char>)> {
        seq![(len_within(self.phone@, 8, 16), "phone"@), (len_within(self.code@, 6, 6), "code"@)]
    }

    /// Checks the field rules; on failure names the fields that break them.
    pub fn validate(&self) -> (r: Result<(), ValidationErrors>)
        ensures
            r is Ok <==> failing(self.rules()).len() == 0,
            r matches Err(e) ==> string_views(e.fields@) == failing(self.rules()),
    {
        let mut errs: Vec<String> = Vec::new();
        let ghost e0 = errs@;
        let ok1 = check_len(&self.phone, 8, 16);
        note(&mut errs, ok1, "phone");
        let ghost e1 = errs@;
        let ok2 = check_len(&self.code, 6, 6);
        note(&mut errs, ok2, "code");
        proof {
            let c0 = Seq::<(bool, Seq<char>)>::empty();
            assert(string_views(e0) =~= failing(c0));
            lemma_note_step(e0, e1, c0, ok1, "phone"@);
            let c1 = c0.push((ok1, "phone"@));
            lemma_note_step(e1, errs@, c1, ok2, "code"@);
            assert(c1.push((ok2, "code"@)) == self.rules());
        }
        finish(errs)
    }
}

#[derive(Debug, Clone)]
pub struct RefreshTokenBody {
    pub refresh_token: String,
}

#[derive(Debug, Clone)]
pub struct UpdateProfileBody {
    /// When present, 1 to 60 characters.
    pub name: Option<String>,
    pub avatar_url: Option<String>,
}

impl UpdateProfileBody {
    pub open spec fn rules(&self) -> Seq<(bool, Seq<char>)> {
        seq![(opt_len_within(self.name, 1, 60), "name"@)]
    }

    /// Checks the field rules; on failure names the fields that break them.
    pub fn validate(&self) -> (r: Result<(), ValidationErrors>)
        ensures
            r is Ok <==> failing(self.rules()).len() == 0,
            r matches Err(e) ==> string_views(e.fields@) == failing(self.rules()),
    {
        let mut errs: Vec<String> = Vec::new();
        let ghost e0 = errs@;
        let ok = check_opt_len(&self.name, 1, 60);
        note(&mut errs, ok, "name");
        proof {
            assert(string_views(e0) =~= failing(Seq::empty()));
            lemma_note_step(e0, errs@, Seq::empty(), ok, "name"@);
            assert(Seq::<(bool, Seq<char>)>::empty().push((ok, "name"@)) == self.rules());
        }
        finish(errs)
    }
}

#[derive(Debug, Clone)]
pub struct UpdateMotorcycleBody {
    /// 1 to 50 characters.
    pub make: String,
    /// 1 to 50 characters.
    pub model: String,
    /// 1900 to 2100.
    pub year: i32,
    pub plate: Option<String>,
    pub color: Option<String>,
}

impl UpdateMotorcycleBody {
    pub open spec fn rules(&self) -> Seq<(bool, Seq<char>)> {
        seq![
            (len_within(self.make@, 1, 50), "make"@),
            (len_within(self.model@, 1, 50), "model"@),
            (1900 <= self.year <= 2100, "year"@),
        ]
    }

    /// Checks the field rules; on failure names the fields that break them.
    pub fn validate(&self) -> (r: Result<(), ValidationErrors>)
        ensures
            r is Ok <==> failing(self.rules()).len() == 0,
            r matches Err(e) ==> string_views(e.fields@) == failing(self.rules()),
    {
        let mut errs: Vec<String> = Vec::new();
        let ghost e0 = errs@;
        let ok1 = check_len(&self.make, 1, 50);
        note(&mut errs, ok1, "make");
        let ghost e1 = errs@;
        let ok2 = check_len(&self.model, 1, 50);
        note(&mut errs, ok2, "model");
        let ghost e2 = errs@;
        let ok3 = 1900 <= self.year && self.year <= 2100;
        note(&mut errs, ok3, "year");
        proof {
            let c0 = Seq::<(bool, Seq<char>)>::empty();
            assert(string_views(e0) =~= failing(c0));
            lemma_note_step(e0, e1, c0, ok1, "make"@);
            let c1 = c0.push((ok1, "make"@));
            lemma_note_step(e1, e2, c1, ok2, "model"@);
            let c2 = c1.push((ok2, "model"@));
            lemma_note_step(e2, errs@, c2, ok3, "year"@);
            assert(c2.push((ok3, "year"@)) == self.rules());
        }
        finish(errs)
    }
}

#[derive(Debug, Clone)]
pub struct CreateRideBody {
    pub name: Option<String>,
}

#[derive(Debug, Clone)]
pub struct ListRidesQuery {
    /// Defaults to `default_page()`.
    pub page: i64,
    /// Defaults to `default_per_page()`.
    pub per_page: i64,
}

/// The page listed when none is asked for.
pub fn default_page() -> (p: i64)
    ensures
        p == 1,
{
    1
}

/// The page size used when none is asked for.
pub fn default_per_page() -> (n: i64)
    ensures
        n == 20,
{
    20
}

#[derive(Debug, Clone)]
pub struct CreateGroupBody {
    /// 1 to 80 characters.
    pub name: String,
    /// When present, at most 300 characters.
    pub description: Option<String>,
}

impl CreateGroupBody {
    pub open spec fn rules(&self) -> Seq<(bool, Seq<char>)> {
        seq![
            (len_within(self.name@, 1, 80), "name"@),
            (opt_len_within(self.description, 0, 300), "description"@),
        ]
    }

    /// Checks the field rules; on failure names the fields that break them.
    pub fn validate(&self) -> (r: Result<(), ValidationErrors>)
        ensures
            r is Ok <==> failing(self.rules()).len() == 0,
            r matches Err(e) ==> string_views(e.fields@) == failing(self.rules()),
    {
        let mut errs: Vec<String> = Vec::new();
        let ghost e0 = errs@;
        let ok1 = check_len(&self.name, 1, 80);
        note(&mut errs, ok1, "name");
        let ghost e1 = errs@;
        let ok2 = check_opt_len(&self.description, 0, 300);
        note(&mut errs, ok2, "description");
        proof {
            let c0 = Seq::<(bool, Seq<char>)>::empty();
            assert(string_views(e0) =~= failing(c0));
            lemma_note_step(e0, e1, c0, ok1, "name"@);
            let c1 = c0.push((ok1, "name"@));
            lemma_note_step(e1, errs@, c1, ok2, "description"@);
            assert(c1.push((ok2, "description"@)) == self.rules());
        }
        finish(errs)
    }
}

#[derive(Debug, Clone)]
pub struct JoinGroupBody {
    pub invite_code: Option<String>,
}

/// The trigger recorded when a request names none.
pub fn default_trigger() -> (s: String)
    ensures
        s@ == "manual"@,
{
    String::from_str("manual")
}

#[derive(Debug, Clone)]
pub struct ResolveSosBody {
    /// Defaults to `default_resolve_reason()`.
    pub reason: String,
}

/// The reason recorded when a resolution names none.
pub fn default_resolve_reason() -> (s: String)
    ensures
        s@ == "false_alarm"@,
{
    String::from_str("false_alarm")
}

#[derive(Debug, Clone)]
pub struct CreateContactBody {
    /// 1 to 80 characters.
    pub name: String,
    /// 8 to 16 characters.
    pub phone: String,
    pub relationship: Option<String>,
}

impl CreateContactBody {
    pub open spec fn rules(&self) -> Seq<(bool, Seq<char>)> {
        seq![(len_within(self.name@, 1, 80), "name"@), (len_within(self.phone@, 8, 16), "phone"@)]
    }

    /// Checks the field rules; on failure names the fields that break them.
    pub fn validate(&self) -> (r: Result<(), ValidationErrors>)
        ensures
            r is Ok <==> failing(self.rules()).len() == 0,
            r matches Err(e) ==> string_views(e.fields@) == failing(self.rules()),
    {
        let mut errs: Vec<String> = Vec::new();
        let ghost e0 = errs@;
        let ok1 = check_len(&self.name, 1, 80);
        note(&mut errs, ok1, "name");
        let ghost e1 = errs@;
        let ok2 = check_len(&self.phone, 8, 16);
        note(&mut errs, ok2, "phone");
        proof {
            let c0 = Seq::<(bool, Seq<char>)>::empty();
            assert(string_views(e0) =~= failing(c0));
            lemma_note_step(e0, e1, c0, ok1, "name"@);
            let c1 = c0.push((ok1, "name"@));
            lemma_note_step(e1, errs@, c1, ok2, "phone"@);
            assert(c1.push((ok2, "phone"@)) == self.rules());
        }
        finish(errs)
    }
}

/// Query of the group WebSocket route.
#[derive(Debug, Clone)]
pub struct WsQuery {
    pub token: String,
}

// ── Responses ────────────────────────────────────────────────────────────────

/// Standard success envelope — all 2xx responses use this.
#[derive(Debug, Clone)]
pub struct ApiResponse<T> {
    pub data: T,
}

impl<T> ApiResponse<T> {
    pub fn ok(data: T) -> (r: Self)
        ensures
            r.data == data,
    {
        ApiResponse { data }
    }
}

/// Standard error envelope — all 4xx/5xx responses use this.
#[derive(Debug, Clone)]
pub struct ErrorResponse {
    pub error: ErrorDetail,
}

#[derive(Debug, Clone)]
pub struct ErrorDetail {
    pub code: String,
    pub message: String,
}

impl ErrorResponse {
    pub fn new(code: String, message: String) -> (r: Self)
        ensures
            r.error.code == code,
            r.error.message == message,
    {
        ErrorResponse { error: ErrorDetail { code, message } }
    }
}

/// The answer to an error: its HTTP status and its JSON body, carrying the
/// error's code and message.
pub fn error_response(e: &AppError) -> (r: (u16, ErrorResponse))
    ensures
        r.0 == spec_status_code(*e),
        r.1.error.code@ == spec_error_code(*e),
        r.1.error.message@ == spec_message(*e),
{
    let status = e.status_code();
    let body = ErrorResponse::new(String::from_str(e.error_code()), e.message());
    (status, body)
}

#[derive(Debug, Clone)]
pub struct RequestOtpResponse {
    pub message: String,
    pub expires_in_seconds: i64,
}

#[derive(Debug, Clone)]
pub struct RefreshResponse {
    pub access_token: String,
    pub expires_in: i64,
}

#[derive(Debug, Clone)]
pub struct MotorcycleResponse {
    pub id: String,
    pub make: String,
    pub model: String,
    pub year: i32,
    pub plate: Option<String>,
    pub color: Option<String>,
    pub display_name: String,
}

#[derive(Debug, Clone)]
pub struct AddPointsResponse {
    pub points_added: usize,
}

#[derive(Debug, Clone)]
pub struct GroupResponse {
    pub id: String,
    pub name: String,
    pub description: Option<String>,
    pub invite_code: String,
    pub member_count: i64,
    pub is_member: bool,
    /// Microseconds since the Unix epoch.
    pub created_at: i64,
}

impl GroupResponse {
    /// The response describing a group to a user, given its member count and
    /// whether the user is a member.
    pub fn from_group(group: Group, member_count: i64, is_member: bool) -> (r: Self)
        ensures
            r.id@ == spec_uuid_text(group.id.0 as nat),
            r.name == group.name,
            r.description == group.description,
            r.invite_code == group.invite_code,
            r.member_count == member_count,
            r.is_member == is_member,
            r.created_at == group.created_at,
    {
        GroupResponse {
            id: group.id.to_string(),
            name: group.name,
            description: group.description,
            invite_code: group.invite_code,
            member_count,
            is_member,
            created_at: group.created_at,
        }
    }
}

#[derive(Debug, Clone)]
pub struct GroupListResponse {
    pub groups: Vec<GroupResponse>,
}

#[derive(Debug, Clone)]
pub struct JoinGroupResponse {
    pub message: String,
}

#[derive(Debug, Clone)]
pub struct ResolveSosResponse {
    pub message: String,
}

#[derive(Debug, Clone)]
pub struct ContactResponse {
    pub id: String,
    pub name: String,
    pub phone: String,
    pub relationship: Option<String>,
    /// Microseconds since the Unix epoch.
    pub created_at: i64,
}

/// The response describing an emergency contact.
pub fn contact_to_response(c: EmergencyContact) -> (r: ContactResponse)
    ensures
        r.id@ == spec_uuid_text(c.id.0 as nat),
        r.name == c.name,
        r.phone == c.phone,
        r.relationship == c.relationship,
        r.created_at == c.created_at,
{
    ContactResponse {
        id: c.id.to_string(),
        name: c.name,
        phone: c.phone,
        relationship: c.relationship,
        created_at: c.created_at,
    }
}

#[derive(Debug, Clone)]
pub struct ContactListResponse {
    pub contacts: Vec<ContactResponse>,
}

/// The message answering a dispatched SOS.
pub open spec fn spec_sos_message(n: nat) -> Seq<char> {
    "SOS dispatched. "@ + spec_decimal(n) + " contact(s) notified."@
}

/// The message answering a dispatched SOS that reached `n` contacts.
pub fn sos_dispatch_message(n: usize) -> (m: String)
    ensures
        m@ == spec_sos_message(n as nat),
{
    let mut m = String::from_str("SOS dispatched. ");
    push_decimal(&mut m, n as u64);
    m.append(" contact(s) notified.");
    m
}

} // verus!
