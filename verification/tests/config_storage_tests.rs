use motorguard::config::{parse_i64, parse_u16, split_at_char, Config, EnvValues};
use motorguard::errors::AppError;
use motorguard::storage::{contact_delete_outcome, group_locations_query, lookup_failure, sos_lookup_failure, DbFailure};

fn env() -> EnvValues {
    EnvValues {
        host: None,
        port: None,
        database_url: Some("sqlite://motorguard.db".to_string()),
        jwt_secret: Some("s3cret".to_string()),
        jwt_expiry_hours: None,
        jwt_refresh_expiry_days: None,
        twilio_account_sid: None,
        twilio_auth_token: None,
        twilio_from_number: None,
        enable_real_sos: None,
        app_env: None,
        allowed_origins: None,
        otp_expiry_minutes: None,
        static_dir: None,
    }
}

#[test]
fn port_numbers_read_like_std() {
    assert_eq!(parse_u16("8080"), Some(8080));
    assert_eq!(parse_u16("+80"), Some(80));
    assert_eq!(parse_u16("0"), Some(0));
    assert_eq!(parse_u16("65535"), Some(65535));
    assert_eq!(parse_u16("65536"), None);
    assert_eq!(parse_u16(""), None);
    assert_eq!(parse_u16("+"), None);
    assert_eq!(parse_u16("-1"), None);
    assert_eq!(parse_u16(" 80"), None);
    assert_eq!(parse_u16("8o"), None);
    for s in ["1", "443", "00080", "65535", "70000", "x"] {
        assert_eq!(parse_u16(s), s.parse::<u16>().ok());
    }
}

#[test]
fn signed_numbers_read_like_std() {
    assert_eq!(parse_i64("24"), Some(24));
    assert_eq!(parse_i64("-7"), Some(-7));
    assert_eq!(parse_i64("+7"), Some(7));
    assert_eq!(parse_i64("9223372036854775807"), Some(i64::MAX));
    assert_eq!(parse_i64("-9223372036854775808"), Some(i64::MIN));
    assert_eq!(parse_i64("9223372036854775808"), None);
    assert_eq!(parse_i64("-"), None);
    assert_eq!(parse_i64("1.5"), None);
    for s in ["0", "-0", "123456789", "-9223372036854775809", "abc", ""] {
        assert_eq!(parse_i64(s), s.parse::<i64>().ok());
    }
}

#[test]
fn splitting_keeps_empty_pieces() {
    assert_eq!(split_at_char("a,b", ','), vec!["a".to_string(), "b".to_string()]);
    assert_eq!(split_at_char("", ','), vec!["".to_string()]);
    assert_eq!(split_at_char(",x,", ','), vec!["".to_string(), "x".to_string(), "".to_string()]);
}

#[test]
fn config_defaults() {
    let c = Config::from_values(&env()).unwrap();
    assert_eq!(c.host, "0.0.0.0");
    assert_eq!(c.port, 8080);
    assert_eq!(c.database_url, "sqlite://motorguard.db");
    assert_eq!(c.jwt_secret, "s3cret");
    assert_eq!(c.jwt_expiry_hours, 24);
    assert_eq!(c.jwt_refresh_expiry_days, 30);
    assert!(!c.enable_real_sos);
    assert!(c.dev_mode);
    assert_eq!(c.allowed_origins, vec!["http://localhost:8080".to_string()]);
    assert_eq!(c.otp_expiry_minutes, 10);
    assert_eq!(c.static_dir, "apps/mobile");
    assert_eq!(c.twilio_sid, None);
}

#[test]
fn config_reads_values() {
    let mut e = env();
    e.port = Some("3000".to_string());
    e.enable_real_sos = Some("TRUE".to_string());
    e.app_env = Some("Production".to_string());
    e.allowed_origins = Some(" https://a.example , https://b.example".to_string());
    e.twilio_account_sid = Some("AC1".to_string());
    e.otp_expiry_minutes = Some("5".to_string());
    let c = Config::from_values(&e).unwrap();
    assert_eq!(c.port, 3000);
    assert!(c.enable_real_sos);
    assert!(!c.dev_mode);
    assert_eq!(c.allowed_origins, vec!["https://a.example".to_string(), "https://b.example".to_string()]);
    assert_eq!(c.twilio_sid, Some("AC1".to_string()));
    assert_eq!(c.otp_expiry_minutes, 5);
}

#[test]
fn config_errors_in_order() {
    let mut e = env();
    e.port = Some("eighty".to_string());
    e.database_url = None;
    assert_eq!(Config::from_values(&e).unwrap_err(), "PORT must be a number");
    let mut e = env();
    e.database_url = None;
    e.jwt_secret = None;
    assert_eq!(Config::from_values(&e).unwrap_err(), "Required env var 'DATABASE_URL' is not set");
    let mut e = env();
    e.jwt_secret = None;
    assert_eq!(Config::from_values(&e).unwrap_err(), "Required env var 'JWT_SECRET' is not set");
    let mut e = env();
    e.jwt_expiry_hours = Some("a day".to_string());
    assert_eq!(Config::from_values(&e).unwrap_err(), "JWT_EXPIRY_HOURS must be a number");
    let mut e = env();
    e.jwt_refresh_expiry_days = Some("".to_string());
    assert_eq!(Config::from_values(&e).unwrap_err(), "JWT_REFRESH_EXPIRY_DAYS must be a number");
    let mut e = env();
    e.otp_expiry_minutes = Some("ten".to_string());
    assert_eq!(Config::from_values(&e).unwrap_err(), "OTP_EXPIRY_MINUTES must be a number");
}

#[test]
fn storage_failures_become_errors() {
    match AppError::from_db_failure(DbFailure::RowNotFound) {
        AppError::NotFound(w) => assert_eq!(w, "record"),
        other => panic!("unexpected {:?}", other),
    }
    match AppError::from_db_failure(DbFailure::Other("disk full".to_string())) {
        AppError::Database(m) => assert_eq!(m, "disk full"),
        other => panic!("unexpected {:?}", other),
    }
    match lookup_failure(DbFailure::RowNotFound, "Ride") {
        AppError::NotFound(w) => assert_eq!(w, "Ride"),
        other => panic!("unexpected {:?}", other),
    }
    match lookup_failure(DbFailure::Other("locked".to_string()), "Ride") {
        AppError::Database(m) => assert_eq!(m, "locked"),
        other => panic!("unexpected {:?}", other),
    }
    assert!(matches!(sos_lookup_failure(DbFailure::RowNotFound), AppError::SosNotFound));
    assert!(matches!(sos_lookup_failure(DbFailure::Other("x".to_string())), AppError::Database(_)));
}

#[test]
fn contact_deletion_outcome() {
    assert!(contact_delete_outcome(1).is_ok());
    assert!(contact_delete_outcome(3).is_ok());
    match contact_delete_outcome(0) {
        Err(AppError::NotFound(w)) => assert_eq!(w, "Emergency contact"),
        other => panic!("unexpected {:?}", other),
    }
}

#[test]
fn group_location_queries() {
    let base = "SELECT user_id, latitude, longitude, speed, accuracy, recorded_at FROM locations WHERE user_id IN (";
    assert_eq!(group_locations_query(0), format!("{base})"));
    assert_eq!(group_locations_query(1), format!("{base}?)"));
    assert_eq!(group_locations_query(3), format!("{base}?, ?, ?)"));
}
