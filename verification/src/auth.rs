//! Authentication: phone number format, one-time passcodes, and signed
//! access and refresh tokens (HS256 JSON Web Tokens).
use vstd::prelude::*;
use crate::errors::AppError;
use crate::ids::{is_v4_uuid, lemma_uuid_text_injective, spec_uuid_text, uuid_parse_result, SessionId, UserId};
use crate::models::{now_micros, now_seconds, Session, User, MAX_ABS_SECONDS};
use crate::text::{chars_of, push_decimal, spec_decimal, spec_digit, str_equal};
use vstd::string::StringSliceAdditionalSpecFns;

verus! {

// ── Phone numbers ────────────────────────────────────────────────────────────

pub open spec fn is_ascii_digit(c: char) -> bool {
    '0' <= c <= '9'
}

/// An E.164 number: `+` followed by 1 to 15 decimal digits.
pub open spec fn spec_e164(s: Seq<char>) -> bool {
    &&& 2 <= s.len() <= 16
    &&& s[0] == '+'
    &&& forall|i: int| 1 <= i < s.len() ==> is_ascii_digit(#[trigger] s[i])
}

pub open spec fn all_ascii(s: Seq<char>) -> bool {
    forall|i: int| 0 <= i < s.len() ==> (#[trigger] s[i] as u32) < 128
}

/// Whether a text is an E.164 number (see `spec_e164`).
fn is_e164(phone: &str) -> (r: bool)
    ensures
        r == spec_e164(phone@),
{
    let d = chars_of(phone);
    if d.len() < 2 || d.len() > 16 || d[0] != '+' {
        return false;
    }
    let mut i: usize = 1;
    while i < d.len()
        invariant
            1 <= i <= d@.len(),
            d@ == phone@,
            forall|j: int| 1 <= j < i ==> is_ascii_digit(#[trigger] d@[j]),
        decreases d@.len() - i,
    {
        let c = d[i];
        if !('0' <= c && c <= '9') {
            return false;
        }
        i = i + 1;
    }
    true
}

/// Validates that a phone number is in E.164 format: `+` and 1–15 digits.
pub fn validate_phone(phone: &str) -> (r: Result<(), AppError>)
    ensures
        r is Ok <==> spec_e164(phone@),
        r matches Err(e) ==> e == AppError::InvalidPhone,
{
    if !is_e164(phone) {
        return Err(AppError::InvalidPhone);
    }
    Ok(())
}

// ── Tokens ───────────────────────────────────────────────────────────────────

/// The claims of a token, each taken as the JSON type it must have
/// (string, signed 64-bit integer), or absent.
pub type DecodedClaims = (Option<Seq<char>>, Option<i64>, Option<i64>, Option<Seq<char>>);

/// The HS256 token that `jsonwebtoken::encode` signs with `secret` for the
/// claims object `{"sub", "iat", "exp", "typ"}` (in that order) under the
/// default header.
pub uninterp spec fn jwt_hs256_encode(secret: Seq<u8>, sub: Seq<char>, iat: i64, exp: i64, typ: Seq<char>) -> Seq<char>;

/// What `jsonwebtoken::decode` gives for a token under `secret`, with the
/// default validation except the expiry check: `None` when it refuses the
/// token (bad shape, header, algorithm or signature, no non-negative
/// integer `exp`, an `aud` claim), otherwise the four claims.
pub uninterp spec fn jwt_hs256_decode(secret: Seq<u8>, token: Seq<char>) -> Option<DecodedClaims>;

/// JWT claims embedded in every token.
#[derive(Debug, Clone)]
pub struct Claims {
    /// Subject — the user id text.
    pub sub: String,
    /// Issued at (Unix timestamp).
    pub iat: i64,
    /// Expiry (Unix timestamp).
    pub exp: i64,
    /// Token type — "access" or "refresh".
    pub typ: String,
}

/// The claims of a decoded token, before they are checked.
#[derive(Debug, Clone)]
pub struct RawClaims {
    pub sub: Option<String>,
    pub iat: Option<i64>,
    pub exp: Option<i64>,
    pub typ: Option<String>,
}

pub open spec fn opt_string_view(s: Option<String>) -> Option<Seq<char>> {
    match s {
        Some(v) => Some(v@),
        None => None,
    }
}

pub open spec fn raw_claims_view(r: Option<RawClaims>) -> Option<DecodedClaims> {
    match r {
        Some(c) => Some((opt_string_view(c.sub), c.iat, c.exp, opt_string_view(c.typ))),
        None => None,
    }
}

/// Signs a claims object with HS256 (`jsonwebtoken::encode` with the
/// default header). A token that it signs is decoded back under the same
/// secret to the same claims when `exp` is not negative. Signing succeeds:
/// the secret's key and the default header are both of the HMAC family,
/// the header and the claims object serialise to JSON, and HMAC signing
/// cannot fail.
#[verifier::external_body]
fn sign_hs256(secret: &[u8], sub: &str, iat: i64, exp: i64, typ: &str) -> (r: Option<String>)
    ensures
        r is Some,
        r matches Some(t) ==> t@ == jwt_hs256_encode(secret@, sub@, iat, exp, typ@),
        r matches Some(t) ==> (exp >= 0 ==> jwt_hs256_decode(secret@, t@)
            == Some::<DecodedClaims>((Some(sub@), Some(iat), Some(exp), Some(typ@)))),
{
    let mut claims = serde_json::Map::new();
    claims.insert("sub".to_string(), serde_json::Value::from(sub));
    claims.insert("iat".to_string(), serde_json::Value::from(iat));
    claims.insert("exp".to_string(), serde_json::Value::from(exp));
    claims.insert("typ".to_string(), serde_json::Value::from(typ));
    let key = jsonwebtoken::EncodingKey::from_secret(secret);
    jsonwebtoken::encode(&jsonwebtoken::Header::default(), &claims, &key).ok()
}

/// Decodes and checks the signature of an HS256 token
/// (`jsonwebtoken::decode` with the default validation but no expiry check),
/// taking out the four claims.
#[verifier::external_body]
fn decode_hs256(secret: &[u8], token: &str) -> (r: Option<RawClaims>)
    ensures
        raw_claims_view(r) == jwt_hs256_decode(secret@, token@),
{
    let mut validation = jsonwebtoken::Validation::default();
    validation.validate_exp = false;
    let key = jsonwebtoken::DecodingKey::from_secret(secret);
    match jsonwebtoken::decode::<serde_json::Value>(token, &key, &validation) {
        Ok(data) => Some(RawClaims {
            sub: data.claims.get("sub").and_then(|v| v.as_str()).map(|s| s.to_string()),
            iat: data.claims.get("iat").and_then(|v| v.as_i64()),
            exp: data.claims.get("exp").and_then(|v| v.as_i64()),
            typ: data.claims.get("typ").and_then(|v| v.as_str()).map(|s| s.to_string()),
        }),
        Err(_) => None,
    }
}

/// The outcome of checking decoded claims at instant `now` (seconds):
/// `None` for a malformed token (not decoded, or a claim missing), `Some(Err)`
/// for an expired one (`exp <= now`), `Some(Ok)` with the claims otherwise.
pub open spec fn spec_check_claims(d: Option<DecodedClaims>, now: i64) -> Option<Result<DecodedClaims, ()>> {
    match d {
        Some((Some(sub), Some(iat), Some(exp), Some(typ))) => {
            if exp < 0 {
                None
            } else if exp <= now {
                Some(Err(()))
            } else {
                Some(Ok((Some(sub), Some(iat), Some(exp), Some(typ))))
            }
        },
        _ => None,
    }
}

pub open spec fn claims_view(c: Claims) -> DecodedClaims {
    (Some(c.sub@), Some(c.iat), Some(c.exp), Some(c.typ@))
}

/// Checks the claims of a decoded token at instant `now` (seconds): a token
/// that could not be decoded or lacks a claim is malformed; one whose expiry
/// is not after `now` has expired.
pub fn check_claims(raw: Option<RawClaims>, now: i64) -> (r: Result<Claims, AppError>)
    ensures
        match spec_check_claims(raw_claims_view(raw), now) {
            None => r == Err::<Claims, AppError>(AppError::TokenMalformed),
            Some(Err(())) => r == Err::<Claims, AppError>(AppError::SessionExpired),
            Some(Ok(c)) => r matches Ok(claims) && claims_view(claims) == c,
        },
{
    match raw {
        None => Err(AppError::TokenMalformed),
        Some(raw) => {
            match (raw.sub, raw.iat, raw.exp, raw.typ) {
                (Some(sub), Some(iat), Some(exp), Some(typ)) => {
                    if exp < 0 {
                        Err(AppError::TokenMalformed)
                    } else if exp <= now {
                        Err(AppError::SessionExpired)
                    } else {
                        Ok(Claims { sub, iat, exp, typ })
                    }
                },
                _ => Err(AppError::TokenMalformed),
            }
        },
    }
}

impl Claims {
    /// The user the token was issued to; a subject that is not a user id
    /// makes the token malformed.
    pub fn user_id(&self) -> (r: Result<UserId, AppError>)
        ensures
            match uuid_parse_result(self.sub@) {
                Some(v) => r == Ok::<UserId, AppError>(UserId(v)),
                None => r == Err::<UserId, AppError>(AppError::TokenMalformed),
            },
    {
        match UserId::parse_str(self.sub.as_str()) {
            Some(id) => Ok(id),
            None => Err(AppError::TokenMalformed),
        }
    }

    pub fn is_access_token(&self) -> (b: bool)
        ensures
            b == (self.typ@ == "access"@),
    {
        str_equal(self.typ.as_str(), "access")
    }
}

/// `t` is a token signed with `secret` for `user`, of type `typ`, at an
/// instant `iat` (seconds) the clock can give, expiring `lifetime` seconds later; when its
/// expiry is not negative, it decodes to exactly those claims.
pub open spec fn is_issued_token(secret: Seq<u8>, user: UserId, lifetime: int, typ: Seq<char>, t: Seq<char>) -> bool {
    exists|iat: i64, exp: i64| {
        &&& clock_instant(iat)
        &&& exp == iat + lifetime
        &&& #[trigger] jwt_hs256_encode(secret, spec_uuid_text(user.0 as nat), iat, exp, typ) == t
        &&& (exp >= 0 ==> jwt_hs256_decode(secret, t)
            == Some::<DecodedClaims>((Some(spec_uuid_text(user.0 as nat)), Some(iat), Some(exp), Some(typ))))
    }
}

/// The largest token lifetime, in seconds: the largest duration that
/// `chrono::TimeDelta` holds (`i64::MAX` milliseconds), beyond which the
/// lifetime cannot even be formed.
pub const MAX_TOKEN_LIFETIME_SECONDS: i64 = 9_223_372_036_854_775;

/// An instant (seconds) that the clock can give: not before the Unix epoch,
/// and within what `chrono::DateTime<Utc>` represents.
pub open spec fn clock_instant(now: i64) -> bool {
    0 <= now < MAX_ABS_SECONDS
}

/// `r` is what checking a token decoded as `d` at instant `now` answers.
pub open spec fn verify_outcome(d: Option<DecodedClaims>, now: i64, r: Result<Claims, AppError>) -> bool {
    match spec_check_claims(d, now) {
        None => r == Err::<Claims, AppError>(AppError::TokenMalformed),
        Some(Err(())) => r == Err::<Claims, AppError>(AppError::SessionExpired),
        Some(Ok(c)) => r matches Ok(claims) && claims_view(claims) == c,
    }
}

/// Signs and checks the application's tokens with a shared secret.
#[derive(Debug)]
pub struct JwtService {
    secret: Vec<u8>,
    access_expiry_hours: i64,
    refresh_expiry_days: i64,
}

impl JwtService {
    #[verifier::type_invariant]
    spec fn wf(&self) -> bool {
        &&& -MAX_TOKEN_LIFETIME_SECONDS <= self.access_expiry_hours * 3600 <= MAX_TOKEN_LIFETIME_SECONDS
        &&& -MAX_TOKEN_LIFETIME_SECONDS <= self.refresh_expiry_days * 86400 <= MAX_TOKEN_LIFETIME_SECONDS
    }

    /// The secret's bytes.
    pub closed spec fn secret(&self) -> Seq<u8> {
        self.secret@
    }

    /// Lifetime of access tokens, in seconds.
    pub closed spec fn access_lifetime(&self) -> int {
        self.access_expiry_hours * 3600
    }

    /// Lifetime of refresh tokens, in seconds.
    pub closed spec fn refresh_lifetime(&self) -> int {
        self.refresh_expiry_days * 86400
    }

    pub fn new(secret: &str, access_expiry_hours: i64, refresh_expiry_days: i64) -> (s: Self)
        requires
            -MAX_TOKEN_LIFETIME_SECONDS <= access_expiry_hours * 3600 <= MAX_TOKEN_LIFETIME_SECONDS,
            -MAX_TOKEN_LIFETIME_SECONDS <= refresh_expiry_days * 86400 <= MAX_TOKEN_LIFETIME_SECONDS,
        ensures
            s.secret() == secret.spec_bytes(),
            s.access_lifetime() == access_expiry_hours * 3600,
            s.refresh_lifetime() == refresh_expiry_days * 86400,
    {
        let bytes = secret.as_bytes();
        let mut v: Vec<u8> = Vec::new();
        let mut i: usize = 0;
        while i < bytes.len()
            invariant
                0 <= i <= bytes@.len(),
                v@ == bytes@.subrange(0, i as int),
            decreases bytes@.len() - i,
        {
            v.push(bytes[i]);
            i = i + 1;
        }
        assert(v@ =~= bytes@);
        JwtService { secret: v, access_expiry_hours, refresh_expiry_days }
    }

    fn create_token(&self, user_id: UserId, lifetime: i64, typ: &str) -> (r: Option<String>)
        requires
            -MAX_TOKEN_LIFETIME_SECONDS <= lifetime <= MAX_TOKEN_LIFETIME_SECONDS,
        ensures
            r is Some,
            r matches Some(t) ==> is_issued_token(self.secret(), user_id, lifetime as int, typ@, t@),
    {
        let now = now_seconds();
        let exp = now + lifetime;
        let sub = user_id.to_string();
        sign_hs256(self.secret.as_slice(), sub.as_str(), now, exp, typ)
    }

    /// Creates a signed access token for the given user, expiring
    /// `access_lifetime` seconds after it is issued.
    pub fn create_access_token(&self, user_id: UserId) -> (r: Result<String, AppError>)
        ensures
            r is Ok,
            r matches Ok(t) ==> is_issued_token(self.secret(), user_id, self.access_lifetime(), "access"@, t@),
            r matches Err(e) ==> e matches AppError::Internal(m) && m@ == "Failed to sign access token"@,
    {
        proof { use_type_invariant(self); }
        match self.create_token(user_id, self.access_expiry_hours * 3600, "access") {
            Some(t) => Ok(t),
            None => Err(AppError::Internal(String::from_str("Failed to sign access token"))),
        }
    }

    /// Creates a signed refresh token for the given user, expiring
    /// `refresh_lifetime` seconds after it is issued.
    pub fn create_refresh_token(&self, user_id: UserId) -> (r: Result<String, AppError>)
        ensures
            r is Ok,
            r matches Ok(t) ==> is_issued_token(self.secret(), user_id, self.refresh_lifetime(), "refresh"@, t@),
            r matches Err(e) ==> e matches AppError::Internal(m) && m@ == "Failed to sign refresh token"@,
    {
        proof { use_type_invariant(self); }
        match self.create_token(user_id, self.refresh_expiry_days * 86400, "refresh") {
            Some(t) => Ok(t),
            None => Err(AppError::Internal(String::from_str("Failed to sign refresh token"))),
        }
    }

    /// Validates and decodes any token, returning its claims. The instant of
    /// the check is the clock's: what holds is that the result is the
    /// outcome of `spec_check_claims` at some instant the clock can give.
    pub fn verify(&self, token: &str) -> (r: Result<Claims, AppError>)
        ensures
            exists|now: i64| clock_instant(now) && #[trigger] verify_outcome(jwt_hs256_decode(self.secret(), token@), now, r),
    {
        let raw = decode_hs256(self.secret.as_slice(), token);
        let now = now_seconds();
        let r = check_claims(raw, now);
        assert(verify_outcome(jwt_hs256_decode(self.secret(), token@), now, r));
        r
    }

    /// Verifies a token and requires it to be an access token.
    pub fn verify_access_token(&self, token: &str) -> (r: Result<Claims, AppError>)
        ensures
            exists|now: i64, v: Result<Claims, AppError>| clock_instant(now) && #[trigger] verify_outcome(jwt_hs256_decode(self.secret(), token@), now, v) && (
                match v {
                    Ok(c) => if c.typ@ == "access"@ { r == v } else { r == Err::<Claims, AppError>(AppError::TokenMalformed) },
                    Err(_) => r == v,
                }),
    {
        let v = self.verify(token);
        let ghost now = choose|now: i64| clock_instant(now) && #[trigger] verify_outcome(jwt_hs256_decode(self.secret(), token@), now, v);
        let claims = match v {
            Ok(c) => c,
            Err(e) => {
                assert(verify_outcome(jwt_hs256_decode(self.secret(), token@), now, v));
                return Err(e);
            },
        };
        if !claims.is_access_token() {
            assert(verify_outcome(jwt_hs256_decode(self.secret(), token@), now, v));
            return Err(AppError::TokenMalformed);
        }
        assert(verify_outcome(jwt_hs256_decode(self.secret(), token@), now, v));
        Ok(claims)
    }
}

impl Clone for JwtService {
    fn clone(&self) -> (c: Self)
        ensures
            c.secret() == self.secret(),
            c.access_lifetime() == self.access_lifetime(),
            c.refresh_lifetime() == self.refresh_lifetime(),
    {
        proof { use_type_invariant(self); }
        JwtService {
            secret: self.secret.clone(),
            access_expiry_hours: self.access_expiry_hours,
            refresh_expiry_days: self.refresh_expiry_days,
        }
    }
}

/// The issue and expiry instants (seconds) that a token issued as
/// `is_issued_token` describes was signed with.
pub open spec fn issued_instants(secret: Seq<u8>, user: UserId, lifetime: int, typ: Seq<char>, t: Seq<char>) -> (i64, i64) {
    choose|iat: i64, exp: i64| {
        &&& clock_instant(iat)
        &&& exp == iat + lifetime
        &&& #[trigger] jwt_hs256_encode(secret, spec_uuid_text(user.0 as nat), iat, exp, typ) == t
        &&& (exp >= 0 ==> jwt_hs256_decode(secret, t)
            == Some::<DecodedClaims>((Some(spec_uuid_text(user.0 as nat)), Some(iat), Some(exp), Some(typ))))
    }
}

/// A token issued to a user, checked at instant `now`: before its expiry it
/// is accepted with the claims it was issued with (that user, that type,
/// its issue and expiry instants); from its expiry on it is refused as
/// expired.
pub proof fn lemma_issued_token_verifies(
    secret: Seq<u8>,
    user: UserId,
    lifetime: int,
    typ: Seq<char>,
    t: Seq<char>,
    now: i64,
    v: Result<Claims, AppError>,
)
    requires
        is_issued_token(secret, user, lifetime, typ, t),
        lifetime >= 0 || issued_instants(secret, user, lifetime, typ, t).1 >= 0,
        verify_outcome(jwt_hs256_decode(secret, t), now, v),
    ensures
        now < issued_instants(secret, user, lifetime, typ, t).1 ==> (v matches Ok(c) && {
            &&& c.sub@ == spec_uuid_text(user.0 as nat)
            &&& c.typ@ == typ
            &&& c.iat == issued_instants(secret, user, lifetime, typ, t).0
            &&& c.exp == issued_instants(secret, user, lifetime, typ, t).1
            &&& c.exp - c.iat == lifetime
        }),
        now >= issued_instants(secret, user, lifetime, typ, t).1 ==> v == Err::<Claims, AppError>(AppError::SessionExpired),
{
    let (iat, exp) = issued_instants(secret, user, lifetime, typ, t);
    assert(jwt_hs256_decode(secret, t)
        == Some::<DecodedClaims>((Some(spec_uuid_text(user.0 as nat)), Some(iat), Some(exp), Some(typ))));
}

/// Tokens issued to two different users differ: a token names the one user
/// it was issued to.
pub proof fn lemma_tokens_name_their_user(
    secret: Seq<u8>,
    u1: UserId,
    u2: UserId,
    l1: int,
    l2: int,
    typ1: Seq<char>,
    typ2: Seq<char>,
    t1: Seq<char>,
    t2: Seq<char>,
)
    requires
        is_issued_token(secret, u1, l1, typ1, t1),
        is_issued_token(secret, u2, l2, typ2, t2),
        l1 >= 0,
        l2 >= 0,
        u1 != u2,
    ensures
        t1 != t2,
{
    if t1 == t2 {
        let (i1, e1) = issued_instants(secret, u1, l1, typ1, t1);
        let (i2, e2) = issued_instants(secret, u2, l2, typ2, t2);
        assert(jwt_hs256_decode(secret, t1)
            == Some::<DecodedClaims>((Some(spec_uuid_text(u1.0 as nat)), Some(i1), Some(e1), Some(typ1))));
        assert(jwt_hs256_decode(secret, t2)
            == Some::<DecodedClaims>((Some(spec_uuid_text(u2.0 as nat)), Some(i2), Some(e2), Some(typ2))));
        lemma_uuid_text_injective(u1.0, u2.0);
    }
}

/// What a refresh request is granted for, given the outcome of verifying
/// its token: the verification error itself, a malformed token when it is
/// not a refresh token or its subject is not a user id, otherwise the user.
pub open spec fn spec_refresh_subject(verified: Result<Claims, AppError>) -> Result<UserId, AppError> {
    match verified {
        Err(e) => Err(e),
        Ok(c) => {
            if c.typ@ != "refresh"@ {
                Err(AppError::TokenMalformed)
            } else {
                match uuid_parse_result(c.sub@) {
                    Some(v) => Ok(UserId(v)),
                    None => Err(AppError::TokenMalformed),
                }
            }
        },
    }
}

/// The user a verified refresh token speaks for (see `spec_refresh_subject`).
pub fn refresh_subject(verified: Result<Claims, AppError>) -> (r: Result<UserId, AppError>)
    ensures
        r == spec_refresh_subject(verified),
{
    let claims = match verified {
        Ok(c) => c,
        Err(e) => { return Err(e); },
    };
    if !str_equal(claims.typ.as_str(), "refresh") {
        return Err(AppError::TokenMalformed);
    }
    claims.user_id()
}

/// A refresh token that no instant the clock can give finds expired: under
/// `secret` it decodes to a refresh token whose subject is a user id and
/// whose expiry is beyond every such instant.
pub open spec fn refresh_always_valid(secret: Seq<u8>, rt: Seq<char>) -> bool {
    jwt_hs256_decode(secret, rt) matches Some((Some(sub), Some(_iat), Some(exp), Some(typ)))
        && exp >= MAX_ABS_SECONDS && typ == "refresh"@ && uuid_parse_result(sub) is Some
}

/// Exchanges a valid refresh token for a new access token; returns the
/// token and its announced lifetime in seconds (24 hours). The token is
/// checked at the clock's instant: the answer is, for the outcome `v` of the
/// check at some instant the clock can give, a new access token for the
/// user `spec_refresh_subject(v)` names, or the refusal it gives.
pub fn refresh_access_token(jwt: &JwtService, refresh_token: &str) -> (r: Result<(String, i64), AppError>)
    ensures
        exists|now: i64, v: Result<Claims, AppError>| clock_instant(now)
            && #[trigger] verify_outcome(jwt_hs256_decode(jwt.secret(), refresh_token@), now, v)
            && match spec_refresh_subject(v) {
                Ok(u) => r matches Ok((t, secs)) && secs == 24 * 3600
                    && is_issued_token(jwt.secret(), u, jwt.access_lifetime(), "access"@, t@),
                Err(e) => r == Err::<(String, i64), AppError>(e),
            },
        refresh_always_valid(jwt.secret(), refresh_token@) ==> r is Ok,
{
    let v = jwt.verify(refresh_token);
    let ghost now = choose|now: i64| clock_instant(now) && #[trigger] verify_outcome(jwt_hs256_decode(jwt.secret(), refresh_token@), now, v);
    proof { assert(verify_outcome(jwt_hs256_decode(jwt.secret(), refresh_token@), now, v)); }
    let user_id = match refresh_subject(v) {
        Ok(u) => u,
        Err(e) => { return Err(e); },
    };
    let access_token = match jwt.create_access_token(user_id) {
        Ok(t) => t,
        Err(e) => { return Err(e); },
    };
    let expires_in: i64 = 24 * 3600;
    Ok((access_token, expires_in))
}

} // verus!

verus! {

// ── One-time passcodes ───────────────────────────────────────────────────────

/// What `bcrypt::verify` answers for a password and a stored hash: `None`
/// when the hash cannot be read, otherwise whether the password matches.
pub uninterp spec fn bcrypt_verifies(password: Seq<char>, hash: Seq<char>) -> Option<bool>;

/// Hashes a password with a random salt (`bcrypt::hash`). The hash is
/// random; what holds is that the password matches it.
#[verifier::external_body]
fn bcrypt_hash(password: &str, cost: u32) -> (r: Option<String>)
    requires
        4 <= cost <= 31,
    ensures
        r matches Some(h) ==> bcrypt_verifies(password@, h@) == Some(true),
{
    bcrypt::hash(password, cost).ok()
}

/// Checks a password against a stored hash (`bcrypt::verify`).
#[verifier::external_body]
fn bcrypt_check(password: &str, hash: &str) -> (r: Option<bool>)
    ensures
        r == bcrypt_verifies(password@, hash@),
{
    bcrypt::verify(password, hash).ok()
}

/// A uniformly random number in `lo..=hi` from the thread's generator
/// (`rand::Rng::gen_range` on `rand::thread_rng`), which panics on an empty
/// range.
#[verifier::external_body]
fn random_in_range(lo: u32, hi: u32) -> (n: u32)
    requires
        lo <= hi,
    ensures
        lo <= n <= hi,
{
    rand::Rng::gen_range(&mut rand::thread_rng(), lo..=hi)
}

/// The work factor of passcode hashes (`bcrypt::DEFAULT_COST`).
pub const OTP_HASH_COST: u32 = 12;

/// The work factor of refresh token hashes.
pub const REFRESH_HASH_COST: u32 = 4;

/// A text of six ASCII digits.
pub open spec fn is_six_digits(s: Seq<char>) -> bool {
    s.len() == 6 && forall|i: int| 0 <= i < 6 ==> is_ascii_digit(#[trigger] s[i])
}

proof fn lemma_decimal_digits(n: nat)
    ensures
        forall|i: int| 0 <= i < spec_decimal(n).len() ==> is_ascii_digit(#[trigger] spec_decimal(n)[i]),
    decreases n,
{
    let d = spec_decimal(n);
    if n >= 10 {
        lemma_decimal_digits(n / 10);
        let p = spec_decimal(n / 10);
        assert(d == p.push(spec_digit((n % 10) as nat)));
        assert forall|i: int| 0 <= i < d.len() implies is_ascii_digit(#[trigger] d[i]) by {
            if i < p.len() {
                assert(d[i] == p[i]);
            } else {
                assert(d[i] == spec_digit((n % 10) as nat));
            }
        }
    } else {
        assert(d == seq![spec_digit(n)]);
        assert forall|i: int| 0 <= i < d.len() implies is_ascii_digit(#[trigger] d[i]) by {
            assert(d[i] == spec_digit(n));
        }
    }
}

proof fn lemma_decimal_six(n: nat)
    requires
        100_000 <= n <= 999_999,
    ensures
        is_six_digits(spec_decimal(n)),
{
    lemma_decimal_digits(n);
    assert(spec_decimal(n / 100_000).len() == 1);
    assert(n / 10_000 / 10 == n / 100_000);
    assert(spec_decimal(n / 10_000).len() == 2);
    assert(n / 1_000 / 10 == n / 10_000);
    assert(spec_decimal(n / 1_000).len() == 3);
    assert(n / 100 / 10 == n / 1_000);
    assert(spec_decimal(n / 100).len() == 4);
    assert(n / 10 / 10 == n / 100);
    assert(spec_decimal(n / 10).len() == 5);
    assert(spec_decimal(n).len() == 6);
}

/// A new passcode: `123456` in development, otherwise a random number of
/// six digits.
pub fn new_otp_code(dev_mode: bool) -> (code: String)
    ensures
        dev_mode ==> code@ == "123456"@,
        !dev_mode ==> exists|n: nat| 100_000 <= n <= 999_999 && code@ == #[trigger] spec_decimal(n),
        is_six_digits(code@),
{
    if dev_mode {
        let code = String::from_str("123456");
        proof { reveal_strlit("123456"); }
        code
    } else {
        let n = random_in_range(100_000, 999_999);
        let mut code = String::new();
        push_decimal(&mut code, n as u64);
        proof {
            lemma_decimal_six(n as nat);
            assert(code@ == spec_decimal(n as nat));
        }
        code
    }
}

/// An instant (microseconds) that `chrono::DateTime<Utc>` can hold.
pub open spec fn in_time_range(t: int) -> bool {
    -MAX_ABS_SECONDS * 1_000_000 < t < MAX_ABS_SECONDS * 1_000_000
}

/// The instant `offset` microseconds after `now`, when it is one a date-time
/// can hold.
fn shift_instant(now: i64, offset: i128) -> (r: Option<i64>)
    requires
        -0x1_0000_0000_0000_0000_0000_0000 < offset < 0x1_0000_0000_0000_0000_0000_0000,
    ensures
        r is Some <==> in_time_range(now + offset),
        r matches Some(t) ==> t == now + offset,
{
    let t: i128 = now as i128 + offset;
    if -(MAX_ABS_SECONDS as i128) * 1_000_000 < t && t < (MAX_ABS_SECONDS as i128) * 1_000_000 {
        Some(t as i64)
    } else {
        None
    }
}

/// A passcode ready to be sent and stored: the code, its hash and when it
/// expires (microseconds).
#[derive(Debug, Clone)]
pub struct OtpIssue {
    pub code: String,
    pub code_hash: String,
    pub expires_at: i64,
}

/// The largest passcode lifetime, in minutes: the largest duration that
/// `chrono::TimeDelta` holds, in whole minutes.
pub const MAX_OTP_EXPIRY_MINUTES: i64 = 153_722_867_280_912;

/// Generates a passcode for a phone: the code (see `new_otp_code`), its
/// bcrypt hash, and its expiry `expiry_minutes` after the current instant.
/// An expiry that no date-time can hold is refused as an internal error.
pub fn issue_otp(dev_mode: bool, expiry_minutes: i64) -> (r: Result<OtpIssue, AppError>)
    requires
        -MAX_OTP_EXPIRY_MINUTES <= expiry_minutes <= MAX_OTP_EXPIRY_MINUTES,
    ensures
        r matches Ok(o) ==> {
            &&& (dev_mode ==> o.code@ == "123456"@)
            &&& (!dev_mode ==> exists|n: nat| 100_000 <= n <= 999_999 && o.code@ == #[trigger] spec_decimal(n))
            &&& is_six_digits(o.code@)
            &&& bcrypt_verifies(o.code@, o.code_hash@) == Some(true)
            &&& 0 <= o.expires_at - expiry_minutes * 60_000_000 < MAX_ABS_SECONDS * 1_000_000
            &&& in_time_range(o.expires_at as int)
        },
        r matches Err(e) ==> e matches AppError::Internal(m)
            && (m@ == "bcrypt hash failed"@ || m@ == "passcode expiry out of range"@),
{
    let code = new_otp_code(dev_mode);
    let code_hash = match bcrypt_hash(code.as_str(), OTP_HASH_COST) {
        Some(h) => h,
        None => { return Err(AppError::Internal(String::from_str("bcrypt hash failed"))); },
    };
    let now = now_micros();
    let expires_at = match shift_instant(now, expiry_minutes as i128 * 60_000_000) {
        Some(t) => t,
        None => { return Err(AppError::Internal(String::from_str("passcode expiry out of range"))); },
    };
    Ok(OtpIssue { code, code_hash, expires_at })
}

/// The stored passcode of a phone: its hash, expiry (microseconds) and
/// whether it was used.
#[derive(Debug, Clone)]
pub struct OtpRecord {
    pub code_hash: String,
    pub expires_at: i64,
    pub used: bool,
}

/// The answer to a passcode submitted at instant `now` against the stored
/// record, as `check_otp` gives it. In development any code is accepted for
/// a record that is unused and not expired.
pub open spec fn spec_otp_check(record: Option<OtpRecord>, code: Seq<char>, now: i64, dev_mode: bool) -> Result<(), AppError> {
    match record {
        None => Err(AppError::OtpInvalid),
        Some(rec) => {
            if rec.used {
                Err(AppError::OtpExpired)
            } else if rec.expires_at < now {
                Err(AppError::OtpExpired)
            } else if dev_mode {
                Ok(())
            } else {
                match bcrypt_verifies(code, rec.code_hash@) {
                    None => Err(AppError::Internal(arbitrary())),
                    Some(false) => Err(AppError::OtpInvalid),
                    Some(true) => Ok(()),
                }
            }
        },
    }
}

/// Verifies a submitted passcode against the phone's latest stored record at
/// instant `now`: there must be one (else `OtpInvalid`), unused and not yet
/// expired (else `OtpExpired`), and, outside development, the code must
/// match its hash (else `OtpInvalid`). When the stored hash cannot be read,
/// the answer is `Internal("bcrypt verify failed")`.
pub fn check_otp(record: Option<OtpRecord>, code: &str, now: i64, dev_mode: bool) -> (r: Result<(), AppError>)
    ensures
        !(spec_otp_check(record, code@, now, dev_mode) matches Err(AppError::Internal(_)))
            ==> r == spec_otp_check(record, code@, now, dev_mode),
        spec_otp_check(record, code@, now, dev_mode) matches Err(AppError::Internal(_))
            ==> (r matches Err(AppError::Internal(m)) && m@ == "bcrypt verify failed"@),
{
    match record {
        None => Err(AppError::OtpInvalid),
        Some(rec) => {
            if rec.used {
                return Err(AppError::OtpExpired);
            }
            if rec.expires_at < now {
                return Err(AppError::OtpExpired);
            }
            if dev_mode {
                return Ok(());
            }
            match bcrypt_check(code, rec.code_hash.as_str()) {
                None => Err(AppError::Internal(String::from_str("bcrypt verify failed"))),
                Some(false) => Err(AppError::OtpInvalid),
                Some(true) => Ok(()),
            }
        },
    }
}

/// A freshly issued passcode is accepted until it expires.
pub proof fn lemma_issued_otp_accepted(o: OtpIssue, now: i64, dev_mode: bool)
    requires
        bcrypt_verifies(o.code@, o.code_hash@) == Some(true),
        now <= o.expires_at,
    ensures
        spec_otp_check(Some(OtpRecord { code_hash: o.code_hash, expires_at: o.expires_at, used: false }), o.code@, now, dev_mode)
            == Ok::<(), AppError>(()),
{
}

/// A used passcode is never accepted again.
pub proof fn lemma_used_otp_refused(rec: OtpRecord, code: Seq<char>, now: i64, dev_mode: bool)
    requires
        rec.used,
    ensures
        spec_otp_check(Some(rec), code, now, dev_mode) == Err::<(), AppError>(AppError::OtpExpired),
{
}

/// In development any code is accepted for an unused passcode that has not
/// expired.
pub proof fn lemma_dev_mode_accepts_any_code(rec: OtpRecord, code: Seq<char>, now: i64)
    requires
        !rec.used,
        now <= rec.expires_at,
    ensures
        spec_otp_check(Some(rec), code, now, true) == Ok::<(), AppError>(()),
{
}

/// Outside development a code that does not match the stored hash is
/// refused as invalid.
pub proof fn lemma_wrong_code_refused(rec: OtpRecord, code: Seq<char>, now: i64)
    requires
        !rec.used,
        now <= rec.expires_at,
        bcrypt_verifies(code, rec.code_hash@) == Some(false),
    ensures
        spec_otp_check(Some(rec), code, now, false) == Err::<(), AppError>(AppError::OtpInvalid),
{
}

// ── Sessions ─────────────────────────────────────────────────────────────────

/// Tokens returned after successful passcode verification.
#[derive(Debug, Clone)]
pub struct AuthTokens {
    pub access_token: String,
    pub refresh_token: String,
    pub expires_in: i64,
    pub user: User,
    pub is_new_user: bool,
}

/// Issues the tokens of a user who logged in, and the session to store:
/// an access and a refresh token, the refresh token's bcrypt hash, a session
/// expiring `refresh_expiry_days` days from now. A session expiry that no
/// date-time can hold is refused as an internal error.
pub fn issue_tokens(jwt: &JwtService, user: User, is_new_user: bool, refresh_expiry_days: i64)
    -> (r: Result<(AuthTokens, Session), AppError>)
    requires
        -MAX_TOKEN_LIFETIME_SECONDS <= refresh_expiry_days * 86400 <= MAX_TOKEN_LIFETIME_SECONDS,
    ensures
        r matches Ok((t, s)) ==> {
            &&& is_issued_token(jwt.secret(), user.id, jwt.access_lifetime(), "access"@, t.access_token@)
            &&& is_issued_token(jwt.secret(), user.id, jwt.refresh_lifetime(), "refresh"@, t.refresh_token@)
            &&& t.expires_in == 24 * 3600
            &&& t.user.id == user.id
            &&& t.user.phone == user.phone
            &&& t.is_new_user == is_new_user
            &&& s.user_id == user.id
            &&& is_v4_uuid(s.id.0)
            &&& bcrypt_verifies(t.refresh_token@, s.refresh_token_hash@) == Some(true)
            &&& s.expires_at == s.created_at + refresh_expiry_days * 86_400_000_000
            &&& 0 <= s.created_at < MAX_ABS_SECONDS * 1_000_000
            &&& in_time_range(s.expires_at as int)
        },
        r matches Err(e) ==> e matches AppError::Internal(m)
            && (m@ == "bcrypt hash failed"@ || m@ == "session expiry out of range"@),
{
    let access_token = match jwt.create_access_token(user.id) {
        Ok(t) => t,
        Err(e) => { return Err(e); },
    };
    let refresh_token = match jwt.create_refresh_token(user.id) {
        Ok(t) => t,
        Err(e) => { return Err(e); },
    };
    let token_hash = match bcrypt_hash(refresh_token.as_str(), REFRESH_HASH_COST) {
        Some(h) => h,
        None => { return Err(AppError::Internal(String::from_str("bcrypt hash failed"))); },
    };
    let now = now_micros();
    let expires_at = match shift_instant(now, refresh_expiry_days as i128 * 86_400_000_000) {
        Some(t) => t,
        None => { return Err(AppError::Internal(String::from_str("session expiry out of range"))); },
    };
    let session = Session {
        id: SessionId::new(),
        user_id: user.id,
        refresh_token_hash: token_hash,
        expires_at,
        created_at: now,
    };
    let tokens = AuthTokens {
        access_token,
        refresh_token,
        expires_in: 24 * 3600,
        user,
        is_new_user,
    };
    Ok((tokens, session))
}

} // verus!
