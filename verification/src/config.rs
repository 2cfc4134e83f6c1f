//! Runtime configuration: the values read from the environment, their
//! defaults, and how they are interpreted.
use vstd::prelude::*;
use crate::auth::is_ascii_digit;
use crate::text::{chars_of, push_char, str_equal};

verus! {

// ── Reading numbers ──────────────────────────────────────────────────────────

pub open spec fn all_digits(d: Seq<char>) -> bool {
    forall|i: int| 0 <= i < d.len() ==> is_ascii_digit(#[trigger] d[i])
}

pub open spec fn digit_value(c: char) -> int {
    c as int - '0' as int
}

/// The value of a run of decimal digits, most significant first.
pub open spec fn digits_value(d: Seq<char>) -> int
    decreases d.len(),
{
    if d.len() == 0 {
        0
    } else {
        digits_value(d.drop_last()) * 10 + digit_value(d.last())
    }
}

/// The digits after an optional leading `sign`, and whether the sign was
/// there.
pub open spec fn after_sign(s: Seq<char>, sign: char) -> (bool, Seq<char>) {
    if s.len() > 0 && s[0] == sign { (true, s.drop_first()) } else { (false, s) }
}

/// What `str::parse::<u16>` gives: an optional `+`, then one or more ASCII
/// digits whose value fits.
pub open spec fn spec_parse_u16(s: Seq<char>) -> Option<u16> {
    let d = after_sign(s, '+').1;
    if d.len() > 0 && all_digits(d) && digits_value(d) <= u16::MAX {
        Some(digits_value(d) as u16)
    } else {
        None
    }
}

/// What `str::parse::<i64>` gives: an optional `+` or `-`, then one or more
/// ASCII digits whose signed value fits.
pub open spec fn spec_parse_i64(s: Seq<char>) -> Option<i64> {
    let (neg, d) = if s.len() > 0 && s[0] == '-' {
        (true, s.drop_first())
    } else {
        (false, after_sign(s, '+').1)
    };
    if d.len() > 0 && all_digits(d) {
        let v = if neg { -digits_value(d) } else { digits_value(d) };
        if i64::MIN <= v <= i64::MAX { Some(v as i64) } else { None }
    } else {
        None
    }
}

proof fn lemma_digits_value_nonneg(d: Seq<char>)
    requires
        all_digits(d),
    ensures
        digits_value(d) >= 0,
    decreases d.len(),
{
    if d.len() > 0 {
        assert(all_digits(d.drop_last()));
        lemma_digits_value_nonneg(d.drop_last());
        assert(is_ascii_digit(d[d.len() - 1]));
    }
}

proof fn lemma_digits_value_grows(d: Seq<char>, i: int)
    requires
        all_digits(d),
        0 <= i <= d.len(),
    ensures
        digits_value(d.subrange(0, i)) <= digits_value(d),
    decreases d.len() - i,
{
    if i < d.len() {
        lemma_digits_value_grows(d, i + 1);
        let p = d.subrange(0, i + 1);
        assert(p.drop_last() =~= d.subrange(0, i));
        assert(is_ascii_digit(d[i]));
        assert(all_digits(d.subrange(0, i)));
        lemma_digits_value_nonneg(d.subrange(0, i));
    } else {
        assert(d.subrange(0, i) =~= d);
    }
}

/// The value of the digits `d[start..]` when they are all ASCII digits and
/// the value is at most `limit`.
fn digits_up_to(d: &Vec<char>, start: usize, limit: u64) -> (r: Option<u64>)
    requires
        start <= d@.len(),
        limit >= 9,
    ensures
        match r {
            Some(v) => all_digits(d@.skip(start as int)) && v == digits_value(d@.skip(start as int))
                && v <= limit,
            None => !all_digits(d@.skip(start as int)) || digits_value(d@.skip(start as int)) > limit,
        },
{
    let ghost s = d@.skip(start as int);
    let mut acc: u64 = 0;
    let mut i: usize = start;
    while i < d.len()
        invariant
            start <= i <= d@.len(),
            s == d@.skip(start as int),
            all_digits(s.subrange(0, i - start)),
            acc == digits_value(s.subrange(0, i - start)),
            acc <= limit,
            limit >= 9,
        decreases d@.len() - i,
    {
        let c = d[i];
        let ghost k = (i - start) as int;
        assert(s[k] == c);
        assert(s.subrange(0, k + 1).drop_last() =~= s.subrange(0, k));
        if !('0' <= c && c <= '9') {
            proof {
                assert(!is_ascii_digit(s[k]));
            }
            return None;
        }
        let dv: u64 = (c as u32 - '0' as u32) as u64;
        assert(dv <= 9 && dv == digit_value(c));
        assert(all_digits(s.subrange(0, k + 1)));
        if acc > (limit - dv) / 10 {
            proof {
                assert(digits_value(s.subrange(0, k + 1)) == acc * 10 + dv);
                assert(digits_value(s.subrange(0, k + 1)) > limit) by (nonlinear_arith)
                    requires acc > (limit - dv) / 10, dv <= 9, limit >= 9,
                        digits_value(s.subrange(0, k + 1)) == acc * 10 + dv;
                if all_digits(s) {
                    lemma_digits_value_grows(s, k + 1);
                }
            }
            return None;
        }
        assert(acc * 10 + dv <= limit) by (nonlinear_arith)
            requires acc <= (limit - dv) / 10, dv <= 9, limit >= 9;
        acc = acc * 10 + dv;
        i = i + 1;
    }
    assert(s.subrange(0, i - start) =~= s);
    Some(acc)
}

/// Reads a port number as `str::parse::<u16>` does.
pub fn parse_u16(s: &str) -> (r: Option<u16>)
    ensures
        r == spec_parse_u16(s@),
{
    let d = chars_of(s);
    let start: usize = if d.len() > 0 && d[0] == '+' { 1 } else { 0 };
    proof {
        if start == 1 {
            assert(d@.skip(1) =~= d@.drop_first());
        } else {
            assert(d@.skip(0) =~= d@);
        }
    }
    if start == d.len() {
        return None;
    }
    match digits_up_to(&d, start, 65535) {
        Some(v) => Some(v as u16),
        None => None,
    }
}

/// Reads a signed number as `str::parse::<i64>` does.
pub fn parse_i64(s: &str) -> (r: Option<i64>)
    ensures
        r == spec_parse_i64(s@),
{
    let d = chars_of(s);
    let neg = d.len() > 0 && d[0] == '-';
    let start: usize = if d.len() > 0 && (d[0] == '-' || d[0] == '+') { 1 } else { 0 };
    proof {
        if start == 1 {
            assert(d@.skip(1) =~= d@.drop_first());
        } else {
            assert(d@.skip(0) =~= d@);
        }
    }
    if start == d.len() {
        return None;
    }
    if neg {
        match digits_up_to(&d, start, 9_223_372_036_854_775_808) {
            Some(v) => {
                let r: i128 = -(v as i128);
                Some(r as i64)
            },
            None => None,
        }
    } else {
        match digits_up_to(&d, start, 9_223_372_036_854_775_807) {
            Some(v) => Some(v as i64),
            None => None,
        }
    }
}


// ── Text ─────────────────────────────────────────────────────────────────────

/// `str::to_lowercase`: the Unicode lower-case mapping of a text.
pub uninterp spec fn unicode_lowercase(s: Seq<char>) -> Seq<char>;

/// `str::trim`: a text without its leading and trailing Unicode white space.
pub uninterp spec fn unicode_trim(s: Seq<char>) -> Seq<char>;

pub open spec fn ascii_lower(c: char) -> char {
    if 'A' <= c <= 'Z' { ((c as u32) + 32) as char } else { c }
}

/// Lower-cases a text (`str::to_lowercase`); on ASCII text this maps
/// `A`–`Z` to `a`–`z` and keeps every other character.
#[verifier::external_body]
fn to_lowercase(s: &str) -> (r: String)
    ensures
        r@ == unicode_lowercase(s@),
        crate::auth::all_ascii(s@) ==> r@ == s@.map_values(|c: char| ascii_lower(c)),
{
    s.to_lowercase()
}

/// Trims white space from both ends (`str::trim`).
#[verifier::external_body]
fn trim(s: &str) -> (r: String)
    ensures
        r@ == unicode_trim(s@),
{
    s.trim().to_string()
}

/// The pieces of a text between the separators (`str::split` on a
/// character): one more piece than separators, possibly empty.
pub open spec fn spec_split(s: Seq<char>, sep: char) -> Seq<Seq<char>>
    decreases s.len(),
{
    if s.len() == 0 {
        seq![Seq::empty()]
    } else {
        let prev = spec_split(s.drop_last(), sep);
        if s.last() == sep {
            prev.push(Seq::empty())
        } else {
            prev.update(prev.len() - 1, prev.last().push(s.last()))
        }
    }
}

proof fn lemma_split_nonempty(s: Seq<char>, sep: char)
    ensures
        spec_split(s, sep).len() >= 1,
    decreases s.len(),
{
    if s.len() > 0 {
        lemma_split_nonempty(s.drop_last(), sep);
    }
}

/// Splits a text at every `sep`.
pub fn split_at_char(s: &str, sep: char) -> (parts: Vec<String>)
    ensures
        parts@.map_values(|p: String| p@) == spec_split(s@, sep),
{
    let d = chars_of(s);
    let mut parts: Vec<String> = Vec::new();
    let mut cur = String::new();
    let mut i: usize = 0;
    assert(d@.subrange(0, 0) =~= Seq::<char>::empty());
    assert(parts@.map_values(|p: String| p@).push(cur@) =~= spec_split(d@.subrange(0, 0), sep));
    while i < d.len()
        invariant
            0 <= i <= d@.len(),
            d@ == s@,
            parts@.map_values(|p: String| p@).push(cur@) == spec_split(d@.subrange(0, i as int), sep),
        decreases d@.len() - i,
    {
        let c = d[i];
        let ghost before = spec_split(d@.subrange(0, i as int), sep);
        assert(d@.subrange(0, i + 1).drop_last() =~= d@.subrange(0, i as int));
        assert(d@.subrange(0, i + 1).last() == c);
        if c == sep {
            let done = cur;
            parts.push(done);
            cur = String::new();
            assert(parts@.map_values(|p: String| p@).push(cur@) =~= before.push(Seq::empty()));
        } else {
            let ghost old_parts = parts@.map_values(|p: String| p@);
            push_char(&mut cur, c);
            assert(parts@.map_values(|p: String| p@) == old_parts);
            assert(parts@.map_values(|p: String| p@).push(cur@) =~= before.update(before.len() - 1, before.last().push(c)));
        }
        i = i + 1;
    }
    parts.push(cur);
    assert(d@.subrange(0, d@.len() as int) =~= d@);
    parts
}

// ── Configuration ────────────────────────────────────────────────────────────

/// The raw values of the environment variables the server reads; `None`
/// where a variable is unset or not valid Unicode.
#[derive(Debug, Clone)]
pub struct EnvValues {
    pub host: Option<String>,
    pub port: Option<String>,
    pub database_url: Option<String>,
    pub jwt_secret: Option<String>,
    pub jwt_expiry_hours: Option<String>,
    pub jwt_refresh_expiry_days: Option<String>,
    pub twilio_account_sid: Option<String>,
    pub twilio_auth_token: Option<String>,
    pub twilio_from_number: Option<String>,
    pub enable_real_sos: Option<String>,
    pub app_env: Option<String>,
    pub allowed_origins: Option<String>,
    pub otp_expiry_minutes: Option<String>,
    pub static_dir: Option<String>,
}

/// All runtime configuration.
#[derive(Debug, Clone)]
pub struct Config {
    pub host: String,
    pub port: u16,
    pub database_url: String,
    pub jwt_secret: String,
    pub jwt_expiry_hours: i64,
    pub jwt_refresh_expiry_days: i64,
    pub twilio_sid: Option<String>,
    pub twilio_token: Option<String>,
    pub twilio_from: Option<String>,
    pub enable_real_sos: bool,
    pub dev_mode: bool,
    pub allowed_origins: Vec<String>,
    pub otp_expiry_minutes: i64,
    pub static_dir: String,
}

/// A variable's value, or `default` when it is unset.
pub open spec fn value_or(v: Option<String>, default: Seq<char>) -> Seq<char> {
    match v {
        Some(s) => s@,
        None => default,
    }
}

fn env_or(v: &Option<String>, default: &str) -> (r: String)
    ensures
        r@ == value_or(*v, default@),
{
    match v {
        Some(s) => s.clone(),
        None => String::from_str(default),
    }
}

fn require_env(v: &Option<String>, key: &str) -> (r: Result<String, String>)
    ensures
        match *v {
            Some(s) => r == Ok::<String, String>(s),
            None => r matches Err(m) && m@ == "Required env var '"@ + key@ + "' is not set"@,
        },
{
    match v {
        Some(s) => Ok(s.clone()),
        None => {
            let mut m = String::from_str("Required env var '");
            m.append(key);
            m.append("' is not set");
            Err(m)
        },
    }
}

fn number_or(v: &Option<String>, default: &str, message: &str) -> (r: Result<i64, String>)
    ensures
        match spec_parse_i64(value_or(*v, default@)) {
            Some(n) => r == Ok::<i64, String>(n),
            None => r matches Err(m) && m@ == message@,
        },
{
    let text = env_or(v, default);
    match parse_i64(text.as_str()) {
        Some(n) => Ok(n),
        None => Err(String::from_str(message)),
    }
}

impl Config {
    /// The configuration the environment describes, each variable read in
    /// turn with its default: `HOST` (`0.0.0.0`), `PORT` (`8080`, a number),
    /// `DATABASE_URL` and `JWT_SECRET` (required), `JWT_EXPIRY_HOURS` (`24`),
    /// `JWT_REFRESH_EXPIRY_DAYS` (`30`), the three Twilio settings
    /// (optional), `ENABLE_REAL_SOS` (real alerts when it lower-cases to
    /// `true`; default `false`), `APP_ENV` (development unless it lower-cases
    /// to `production`; default `development`), `ALLOWED_ORIGINS` (comma
    /// separated, trimmed; default `http://localhost:8080`),
    /// `OTP_EXPIRY_MINUTES` (`10`) and `STATIC_DIR` (`apps/mobile`). The
    /// first variable that is missing or not a number gives the error
    /// message.
    pub fn from_values(env: &EnvValues) -> (r: Result<Config, String>)
        ensures
            r matches Ok(c) ==> {
                &&& c.host@ == value_or(env.host, "0.0.0.0"@)
                &&& spec_parse_u16(value_or(env.port, "8080"@)) == Some(c.port)
                &&& env.database_url matches Some(u) && c.database_url@ == u@
                &&& env.jwt_secret matches Some(k) && c.jwt_secret@ == k@
                &&& spec_parse_i64(value_or(env.jwt_expiry_hours, "24"@)) == Some(c.jwt_expiry_hours)
                &&& spec_parse_i64(value_or(env.jwt_refresh_expiry_days, "30"@)) == Some(c.jwt_refresh_expiry_days)
                &&& c.twilio_sid == env.twilio_account_sid
                &&& c.twilio_token == env.twilio_auth_token
                &&& c.twilio_from == env.twilio_from_number
                &&& c.enable_real_sos == (unicode_lowercase(value_or(env.enable_real_sos, "false"@)) == "true"@)
                &&& c.dev_mode == (unicode_lowercase(value_or(env.app_env, "development"@)) != "production"@)
                &&& c.allowed_origins@.map_values(|p: String| p@)
                    == spec_split(value_or(env.allowed_origins, "http://localhost:8080"@), ',').map_values(|p: Seq<char>| unicode_trim(p))
                &&& spec_parse_i64(value_or(env.otp_expiry_minutes, "10"@)) == Some(c.otp_expiry_minutes)
                &&& c.static_dir@ == value_or(env.static_dir, "apps/mobile"@)
                &&& (env.enable_real_sos is None ==> !c.enable_real_sos)
                &&& (env.app_env is None ==> c.dev_mode)
            },
            r is Ok <==> {
                &&& spec_parse_u16(value_or(env.port, "8080"@)) is Some
                &&& env.database_url is Some
                &&& env.jwt_secret is Some
                &&& spec_parse_i64(value_or(env.jwt_expiry_hours, "24"@)) is Some
                &&& spec_parse_i64(value_or(env.jwt_refresh_expiry_days, "30"@)) is Some
                &&& spec_parse_i64(value_or(env.otp_expiry_minutes, "10"@)) is Some
            },
            r matches Err(m) ==> {
                if spec_parse_u16(value_or(env.port, "8080"@)) is None {
                    m@ == "PORT must be a number"@
                } else if env.database_url is None {
                    m@ == "Required env var 'DATABASE_URL' is not set"@
                } else if env.jwt_secret is None {
                    m@ == "Required env var 'JWT_SECRET' is not set"@
                } else if spec_parse_i64(value_or(env.jwt_expiry_hours, "24"@)) is None {
                    m@ == "JWT_EXPIRY_HOURS must be a number"@
                } else if spec_parse_i64(value_or(env.jwt_refresh_expiry_days, "30"@)) is None {
                    m@ == "JWT_REFRESH_EXPIRY_DAYS must be a number"@
                } else {
                    m@ == "OTP_EXPIRY_MINUTES must be a number"@
                }
            },
    {
        let host = env_or(&env.host, "0.0.0.0");
        let port_text = env_or(&env.port, "8080");
        let port = match parse_u16(port_text.as_str()) {
            Some(p) => p,
            None => { return Err(String::from_str("PORT must be a number")); },
        };
        let database_url = match require_env(&env.database_url, "DATABASE_URL") {
            Ok(v) => v,
            Err(m) => {
                proof {
                    reveal_strlit("Required env var '");
                    reveal_strlit("DATABASE_URL");
                    reveal_strlit("' is not set");
                    reveal_strlit("Required env var 'DATABASE_URL' is not set");
                    assert(m@ =~= "Required env var 'DATABASE_URL' is not set"@);
                }
                return Err(m);
            },
        };
        let jwt_secret = match require_env(&env.jwt_secret, "JWT_SECRET") {
            Ok(v) => v,
            Err(m) => {
                proof {
                    reveal_strlit("Required env var '");
                    reveal_strlit("JWT_SECRET");
                    reveal_strlit("' is not set");
                    reveal_strlit("Required env var 'JWT_SECRET' is not set");
                    assert(m@ =~= "Required env var 'JWT_SECRET' is not set"@);
                }
                return Err(m);
            },
        };
        let jwt_expiry_hours = match number_or(&env.jwt_expiry_hours, "24", "JWT_EXPIRY_HOURS must be a number") {
            Ok(n) => n,
            Err(m) => { return Err(m); },
        };
        let jwt_refresh_expiry_days = match number_or(&env.jwt_refresh_expiry_days, "30", "JWT_REFRESH_EXPIRY_DAYS must be a number") {
            Ok(n) => n,
            Err(m) => { return Err(m); },
        };
        let sos_text = env_or(&env.enable_real_sos, "false");
        let sos_flag = to_lowercase(sos_text.as_str());
        let enable_real_sos = str_equal(sos_flag.as_str(), "true");
        proof {
            if env.enable_real_sos is None {
                reveal_strlit("false");
                reveal_strlit("true");
                assert(crate::auth::all_ascii(sos_text@));
                assert(sos_flag@ =~= "false"@);
            }
        }
        let app_text = env_or(&env.app_env, "development");
        let app_env = to_lowercase(app_text.as_str());
        let dev_mode = !str_equal(app_env.as_str(), "production");
        proof {
            if env.app_env is None {
                reveal_strlit("development");
                reveal_strlit("production");
                assert(crate::auth::all_ascii(app_text@));
                assert(app_env@ =~= "development"@);
            }
        }
        let origins_text = env_or(&env.allowed_origins, "http://localhost:8080");
        let pieces = split_at_char(origins_text.as_str(), ',');
        let mut allowed_origins: Vec<String> = Vec::new();
        let mut i: usize = 0;
        while i < pieces.len()
            invariant
                0 <= i <= pieces@.len(),
                allowed_origins@.map_values(|p: String| p@)
                    == pieces@.subrange(0, i as int).map_values(|p: String| unicode_trim(p@)),
            decreases pieces@.len() - i,
        {
            let t = trim(pieces[i].as_str());
            allowed_origins.push(t);
            assert(pieces@.subrange(0, i + 1).map_values(|p: String| unicode_trim(p@))
                =~= pieces@.subrange(0, i as int).map_values(|p: String| unicode_trim(p@)).push(unicode_trim(pieces@[i as int]@)));
            assert(allowed_origins@.map_values(|p: String| p@)
                =~= pieces@.subrange(0, i as int).map_values(|p: String| unicode_trim(p@)).push(unicode_trim(pieces@[i as int]@)));
            i = i + 1;
        }
        proof {
            assert(pieces@.subrange(0, pieces@.len() as int) =~= pieces@);
            assert(allowed_origins@.map_values(|p: String| p@)
                =~= spec_split(value_or(env.allowed_origins, "http://localhost:8080"@), ',').map_values(|p: Seq<char>| unicode_trim(p)));
        }
        let otp_expiry_minutes = match number_or(&env.otp_expiry_minutes, "10", "OTP_EXPIRY_MINUTES must be a number") {
            Ok(n) => n,
            Err(m) => { return Err(m); },
        };
        let static_dir = env_or(&env.static_dir, "apps/mobile");
        Ok(Config {
            host,
            port,
            database_url,
            jwt_secret,
            jwt_expiry_hours,
            jwt_refresh_expiry_days,
            twilio_sid: env.twilio_account_sid.clone(),
            twilio_token: env.twilio_auth_token.clone(),
            twilio_from: env.twilio_from_number.clone(),
            enable_real_sos,
            dev_mode,
            allowed_origins,
            otp_expiry_minutes,
            static_dir,
        })
    }
}

} // verus!
