use vstd::prelude::*;

verus! {

/// The canonical application error type.
///
/// Every operation maps its internal failures into `AppError` so that the
/// HTTP layer deals with a single typed error. Variants that carried an
/// outside value hold its text: `Internal` holds the source error's message,
/// and `LocationAccuracyPoor` holds the decimal renderings of the two
/// distances in metres.
#[derive(Debug, Clone)]
pub enum AppError {
    Unauthorized,
    Forbidden,
    OtpInvalid,
    OtpExpired,
    SessionExpired,
    TokenMalformed,
    Validation(String),
    InvalidPhone,
    InvalidCoordinates,
    NotFound(String),
    AlreadyMember,
    PhoneAlreadyExists,
    RideNotActive,
    RideAlreadyActive,
    RideAlreadyCompleted,
    LocationPermissionDenied,
    LocationAccuracyPoor { accuracy: String, threshold: String },
    SosNotFound,
    SosAlreadyResolved,
    RateLimited,
    Database(String),
    Migration(String),
    Network(String),
    ServiceUnavailable(String),
    Internal(String),
    NotImplemented(String),
}

/// The HTTP status that answers an error.
pub open spec fn spec_status_code(e: AppError) -> u16 {
    match e {
        AppError::Unauthorized | AppError::SessionExpired | AppError::TokenMalformed => 401,
        AppError::Forbidden => 403,
        AppError::NotFound(_) | AppError::SosNotFound => 404,
        AppError::AlreadyMember | AppError::PhoneAlreadyExists | AppError::RideAlreadyActive => 409,
        AppError::OtpInvalid
        | AppError::OtpExpired
        | AppError::Validation(_)
        | AppError::InvalidPhone
        | AppError::InvalidCoordinates
        | AppError::RideNotActive
        | AppError::RideAlreadyCompleted
        | AppError::SosAlreadyResolved
        | AppError::LocationPermissionDenied
        | AppError::LocationAccuracyPoor { .. } => 422,
        AppError::RateLimited => 429,
        AppError::Database(_)
        | AppError::Migration(_)
        | AppError::Network(_)
        | AppError::ServiceUnavailable(_)
        | AppError::Internal(_)
        | AppError::NotImplemented(_) => 500,
    }
}

/// A failure of the server or of a service it depends on, as opposed to a
/// refusal of the client's request.
pub open spec fn is_server_failure(e: AppError) -> bool {
    e is Database || e is Migration || e is Network || e is ServiceUnavailable || e is Internal
        || e is NotImplemented
}

/// Refusals of a client's request are answered with a 4xx status, server
/// failures with 500: authentication failures with 401, a forbidden request
/// with 403, a missing record with 404, a conflict with 409, a rate limit
/// with 429, and every invalid input (passcode, validation, phone,
/// coordinates, ride or SOS state, location permission or accuracy) with
/// 422.
pub proof fn lemma_status_classes(e: AppError)
    ensures
        is_server_failure(e) <==> spec_status_code(e) == 500,
        !is_server_failure(e) <==> (400 <= spec_status_code(e) < 500),
        (e is Unauthorized || e is SessionExpired || e is TokenMalformed) <==> spec_status_code(e) == 401,
        e is Forbidden <==> spec_status_code(e) == 403,
        (e is NotFound || e is SosNotFound) <==> spec_status_code(e) == 404,
        (e is AlreadyMember || e is PhoneAlreadyExists || e is RideAlreadyActive) <==> spec_status_code(e) == 409,
        e is RateLimited <==> spec_status_code(e) == 429,
        (e is OtpInvalid || e is OtpExpired || e is Validation || e is InvalidPhone || e is InvalidCoordinates
            || e is RideNotActive || e is RideAlreadyCompleted || e is SosAlreadyResolved
            || e is LocationPermissionDenied || e is LocationAccuracyPoor) <==> spec_status_code(e) == 422,
{
}

/// The machine-readable code of an error, as sent in JSON error bodies.
pub open spec fn spec_error_code(e: AppError) -> Seq<char> {
    match e {
        AppError::Unauthorized => "UNAUTHORIZED"@,
        AppError::Forbidden => "FORBIDDEN"@,
        AppError::OtpInvalid => "OTP_INVALID"@,
        AppError::OtpExpired => "OTP_EXPIRED"@,
        AppError::SessionExpired => "SESSION_EXPIRED"@,
        AppError::TokenMalformed => "TOKEN_MALFORMED"@,
        AppError::Validation(_) => "VALIDATION_ERROR"@,
        AppError::InvalidPhone => "INVALID_PHONE"@,
        AppError::InvalidCoordinates => "INVALID_COORDINATES"@,
        AppError::NotFound(_) => "NOT_FOUND"@,
        AppError::AlreadyMember => "ALREADY_MEMBER"@,
        AppError::PhoneAlreadyExists => "PHONE_EXISTS"@,
        AppError::RideNotActive => "RIDE_NOT_ACTIVE"@,
        AppError::RideAlreadyActive => "RIDE_ALREADY_ACTIVE"@,
        AppError::RideAlreadyCompleted => "RIDE_COMPLETED"@,
        AppError::LocationPermissionDenied => "LOCATION_PERMISSION_DENIED"@,
        AppError::LocationAccuracyPoor { .. } => "LOCATION_ACCURACY_POOR"@,
        AppError::SosNotFound => "SOS_NOT_FOUND"@,
        AppError::SosAlreadyResolved => "SOS_ALREADY_RESOLVED"@,
        AppError::RateLimited => "RATE_LIMITED"@,
        AppError::Database(_) => "DATABASE_ERROR"@,
        AppError::Migration(_) => "MIGRATION_ERROR"@,
        AppError::Network(_) => "NETWORK_ERROR"@,
        AppError::ServiceUnavailable(_) => "SERVICE_UNAVAILABLE"@,
        AppError::Internal(_) => "INTERNAL_ERROR"@,
        AppError::NotImplemented(_) => "NOT_IMPLEMENTED"@,
    }
}

/// The position of an error's variant in the declaration, whatever its
/// payload.
pub open spec fn variant_index(e: AppError) -> int {
    match e {
        AppError::Unauthorized => 0,
        AppError::Forbidden => 1,
        AppError::OtpInvalid => 2,
        AppError::OtpExpired => 3,
        AppError::SessionExpired => 4,
        AppError::TokenMalformed => 5,
        AppError::Validation(_) => 6,
        AppError::InvalidPhone => 7,
        AppError::InvalidCoordinates => 8,
        AppError::NotFound(_) => 9,
        AppError::AlreadyMember => 10,
        AppError::PhoneAlreadyExists => 11,
        AppError::RideNotActive => 12,
        AppError::RideAlreadyActive => 13,
        AppError::RideAlreadyCompleted => 14,
        AppError::LocationPermissionDenied => 15,
        AppError::LocationAccuracyPoor { .. } => 16,
        AppError::SosNotFound => 17,
        AppError::SosAlreadyResolved => 18,
        AppError::RateLimited => 19,
        AppError::Database(_) => 20,
        AppError::Migration(_) => 21,
        AppError::Network(_) => 22,
        AppError::ServiceUnavailable(_) => 23,
        AppError::Internal(_) => 24,
        AppError::NotImplemented(_) => 25,
    }
}

/// The length, first and fifth characters of each error code.
spec fn code_key(e: AppError) -> (nat, char, char) {
    match e {
        AppError::Unauthorized => (12, 'U', 'T'),
        AppError::Forbidden => (9, 'F', 'I'),
        AppError::OtpInvalid => (11, 'O', 'I'),
        AppError::OtpExpired => (11, 'O', 'E'),
        AppError::SessionExpired => (15, 'S', 'I'),
        AppError::TokenMalformed => (15, 'T', 'N'),
        AppError::Validation(_) => (16, 'V', 'D'),
        AppError::InvalidPhone => (13, 'I', 'L'),
        AppError::InvalidCoordinates => (19, 'I', 'L'),
        AppError::NotFound(_) => (9, 'N', 'F'),
        AppError::AlreadyMember => (14, 'A', 'A'),
        AppError::PhoneAlreadyExists => (12, 'P', 'E'),
        AppError::RideNotActive => (15, 'R', '_'),
        AppError::RideAlreadyActive => (19, 'R', '_'),
        AppError::RideAlreadyCompleted => (14, 'R', '_'),
        AppError::LocationPermissionDenied => (26, 'L', 'T'),
        AppError::LocationAccuracyPoor { .. } => (22, 'L', 'T'),
        AppError::SosNotFound => (13, 'S', 'N'),
        AppError::SosAlreadyResolved => (20, 'S', 'A'),
        AppError::RateLimited => (12, 'R', '_'),
        AppError::Database(_) => (14, 'D', 'B'),
        AppError::Migration(_) => (15, 'M', 'A'),
        AppError::Network(_) => (13, 'N', 'O'),
        AppError::ServiceUnavailable(_) => (19, 'S', 'I'),
        AppError::Internal(_) => (14, 'I', 'R'),
        AppError::NotImplemented(_) => (15, 'N', 'I'),
    }
}

proof fn lemma_code_key(e: AppError)
    ensures
        spec_error_code(e).len() == code_key(e).0,
        spec_error_code(e)[0] == code_key(e).1,
        spec_error_code(e)[4] == code_key(e).2,
{
    match e {
        AppError::Unauthorized => { reveal_strlit("UNAUTHORIZED"); },
        AppError::Forbidden => { reveal_strlit("FORBIDDEN"); },
        AppError::OtpInvalid => { reveal_strlit("OTP_INVALID"); },
        AppError::OtpExpired => { reveal_strlit("OTP_EXPIRED"); },
        AppError::SessionExpired => { reveal_strlit("SESSION_EXPIRED"); },
        AppError::TokenMalformed => { reveal_strlit("TOKEN_MALFORMED"); },
        AppError::Validation(_) => { reveal_strlit("VALIDATION_ERROR"); },
        AppError::InvalidPhone => { reveal_strlit("INVALID_PHONE"); },
        AppError::InvalidCoordinates => { reveal_strlit("INVALID_COORDINATES"); },
        AppError::NotFound(_) => { reveal_strlit("NOT_FOUND"); },
        AppError::AlreadyMember => { reveal_strlit("ALREADY_MEMBER"); },
        AppError::PhoneAlreadyExists => { reveal_strlit("PHONE_EXISTS"); },
        AppError::RideNotActive => { reveal_strlit("RIDE_NOT_ACTIVE"); },
        AppError::RideAlreadyActive => { reveal_strlit("RIDE_ALREADY_ACTIVE"); },
        AppError::RideAlreadyCompleted => { reveal_strlit("RIDE_COMPLETED"); },
        AppError::LocationPermissionDenied => { reveal_strlit("LOCATION_PERMISSION_DENIED"); },
        AppError::LocationAccuracyPoor { .. } => { reveal_strlit("LOCATION_ACCURACY_POOR"); },
        AppError::SosNotFound => { reveal_strlit("SOS_NOT_FOUND"); },
        AppError::SosAlreadyResolved => { reveal_strlit("SOS_ALREADY_RESOLVED"); },
        AppError::RateLimited => { reveal_strlit("RATE_LIMITED"); },
        AppError::Database(_) => { reveal_strlit("DATABASE_ERROR"); },
        AppError::Migration(_) => { reveal_strlit("MIGRATION_ERROR"); },
        AppError::Network(_) => { reveal_strlit("NETWORK_ERROR"); },
        AppError::ServiceUnavailable(_) => { reveal_strlit("SERVICE_UNAVAILABLE"); },
        AppError::Internal(_) => { reveal_strlit("INTERNAL_ERROR"); },
        AppError::NotImplemented(_) => { reveal_strlit("NOT_IMPLEMENTED"); },
    }
}

/// Error codes tell variants apart: two errors have the same code exactly
/// when they are of the same variant, whatever their payloads; no code is
/// empty.
pub proof fn lemma_error_codes_distinct(e1: AppError, e2: AppError)
    ensures
        (spec_error_code(e1) == spec_error_code(e2)) <==> (variant_index(e1) == variant_index(e2)),
        spec_error_code(e1).len() > 0,
{
    lemma_code_key(e1);
    lemma_code_key(e2);
    if spec_error_code(e1) == spec_error_code(e2) {
        assert(code_key(e1) == code_key(e2));
    }
}

/// The human-readable message of an error.
pub open spec fn spec_message(e: AppError) -> Seq<char> {
    match e {
        AppError::Unauthorized => "Authentication required"@,
        AppError::Forbidden => "Access denied"@,
        AppError::OtpInvalid => "OTP code is invalid"@,
        AppError::OtpExpired => "OTP code has expired"@,
        AppError::SessionExpired => "Session has expired, please log in again"@,
        AppError::TokenMalformed => "Token is malformed"@,
        AppError::Validation(s) => "Validation error: "@ + s@,
        AppError::InvalidPhone => "Phone number format is invalid (must be E.164)"@,
        AppError::InvalidCoordinates => "Coordinates are out of valid range"@,
        AppError::NotFound(s) => s@ + " not found"@,
        AppError::AlreadyMember => "Already a member of this group"@,
        AppError::PhoneAlreadyExists => "Phone number already registered"@,
        AppError::RideNotActive => "Ride is not in active state"@,
        AppError::RideAlreadyActive => "Ride is already active"@,
        AppError::RideAlreadyCompleted => "Cannot perform this action on a completed ride"@,
        AppError::LocationPermissionDenied => "Location permission denied"@,
        AppError::LocationAccuracyPoor { accuracy, threshold } =>
            "GPS accuracy too poor: "@ + accuracy@ + "m (threshold: "@ + threshold@ + "m)"@,
        AppError::SosNotFound => "SOS event not found"@,
        AppError::SosAlreadyResolved => "SOS event is already resolved"@,
        AppError::RateLimited => "Too many requests, please try again later"@,
        AppError::Database(s) => "Database error: "@ + s@,
        AppError::Migration(s) => "Migration failed: "@ + s@,
        AppError::Network(s) => "Network request failed: "@ + s@,
        AppError::ServiceUnavailable(s) => "External service unavailable: "@ + s@,
        AppError::Internal(_) => "Internal server error"@,
        AppError::NotImplemented(s) => "Feature not implemented: "@ + s@,
    }
}

fn prefixed(prefix: &str, s: &String) -> (r: String)
    ensures
        r@ == prefix@ + s@,
{
    let mut r = String::from_str(prefix);
    r.append(s.as_str());
    r
}

impl AppError {
    /// HTTP status code that should be returned for this error.
    pub fn status_code(&self) -> (code: u16)
        ensures
            code == spec_status_code(*self),
    {
        match self {
            AppError::Unauthorized | AppError::SessionExpired | AppError::TokenMalformed => 401,
            AppError::Forbidden => 403,
            AppError::NotFound(_) | AppError::SosNotFound => 404,
            AppError::AlreadyMember | AppError::PhoneAlreadyExists | AppError::RideAlreadyActive => 409,
            AppError::OtpInvalid
            | AppError::OtpExpired
            | AppError::Validation(_)
            | AppError::InvalidPhone
            | AppError::InvalidCoordinates
            | AppError::RideNotActive
            | AppError::RideAlreadyCompleted
            | AppError::SosAlreadyResolved
            | AppError::LocationPermissionDenied
            | AppError::LocationAccuracyPoor { .. } => 422,
            AppError::RateLimited => 429,
            AppError::Database(_)
            | AppError::Migration(_)
            | AppError::Network(_)
            | AppError::ServiceUnavailable(_)
            | AppError::Internal(_)
            | AppError::NotImplemented(_) => 500,
        }
    }

    /// Machine-readable error code for JSON responses.
    pub fn error_code(&self) -> (code: &'static str)
        ensures
            code@ == spec_error_code(*self),
    {
        match self {
            AppError::Unauthorized => "UNAUTHORIZED",
            AppError::Forbidden => "FORBIDDEN",
            AppError::OtpInvalid => "OTP_INVALID",
            AppError::OtpExpired => "OTP_EXPIRED",
            AppError::SessionExpired => "SESSION_EXPIRED",
            AppError::TokenMalformed => "TOKEN_MALFORMED",
            AppError::Validation(_) => "VALIDATION_ERROR",
            AppError::InvalidPhone => "INVALID_PHONE",
            AppError::InvalidCoordinates => "INVALID_COORDINATES",
            AppError::NotFound(_) => "NOT_FOUND",
            AppError::AlreadyMember => "ALREADY_MEMBER",
            AppError::PhoneAlreadyExists => "PHONE_EXISTS",
            AppError::RideNotActive => "RIDE_NOT_ACTIVE",
            AppError::RideAlreadyActive => "RIDE_ALREADY_ACTIVE",
            AppError::RideAlreadyCompleted => "RIDE_COMPLETED",
            AppError::LocationPermissionDenied => "LOCATION_PERMISSION_DENIED",
            AppError::LocationAccuracyPoor { .. } => "LOCATION_ACCURACY_POOR",
            AppError::SosNotFound => "SOS_NOT_FOUND",
            AppError::SosAlreadyResolved => "SOS_ALREADY_RESOLVED",
            AppError::RateLimited => "RATE_LIMITED",
            AppError::Database(_) => "DATABASE_ERROR",
            AppError::Migration(_) => "MIGRATION_ERROR",
            AppError::Network(_) => "NETWORK_ERROR",
            AppError::ServiceUnavailable(_) => "SERVICE_UNAVAILABLE",
            AppError::Internal(_) => "INTERNAL_ERROR",
            AppError::NotImplemented(_) => "NOT_IMPLEMENTED",
        }
    }

    /// The human-readable message of this error (its display text).
    pub fn message(&self) -> (m: String)
        ensures
            m@ == spec_message(*self),
    {
        match self {
            AppError::Unauthorized => String::from_str("Authentication required"),
            AppError::Forbidden => String::from_str("Access denied"),
            AppError::OtpInvalid => String::from_str("OTP code is invalid"),
            AppError::OtpExpired => String::from_str("OTP code has expired"),
            AppError::SessionExpired => String::from_str("Session has expired, please log in again"),
            AppError::TokenMalformed => String::from_str("Token is malformed"),
            AppError::Validation(s) => prefixed("Validation error: ", s),
            AppError::InvalidPhone => String::from_str("Phone number format is invalid (must be E.164)"),
            AppError::InvalidCoordinates => String::from_str("Coordinates are out of valid range"),
            AppError::NotFound(s) => {
                let mut r = s.clone();
                r.append(" not found");
                r
            },
            AppError::AlreadyMember => String::from_str("Already a member of this group"),
            AppError::PhoneAlreadyExists => String::from_str("Phone number already registered"),
            AppError::RideNotActive => String::from_str("Ride is not in active state"),
            AppError::RideAlreadyActive => String::from_str("Ride is already active"),
            AppError::RideAlreadyCompleted => String::from_str("Cannot perform this action on a completed ride"),
            AppError::LocationPermissionDenied => String::from_str("Location permission denied"),
            AppError::LocationAccuracyPoor { accuracy, threshold } => {
                let mut r = prefixed("GPS accuracy too poor: ", accuracy);
                r.append("m (threshold: ");
                r.append(threshold.as_str());
                r.append("m)");
                r
            },
            AppError::SosNotFound => String::from_str("SOS event not found"),
            AppError::SosAlreadyResolved => String::from_str("SOS event is already resolved"),
            AppError::RateLimited => String::from_str("Too many requests, please try again later"),
            AppError::Database(s) => prefixed("Database error: ", s),
            AppError::Migration(s) => prefixed("Migration failed: ", s),
            AppError::Network(s) => prefixed("Network request failed: ", s),
            AppError::ServiceUnavailable(s) => prefixed("External service unavailable: ", s),
            AppError::Internal(_) => String::from_str("Internal server error"),
            AppError::NotImplemented(s) => prefixed("Feature not implemented: ", s),
        }
    }
}

} // verus!
