//! Behaviour of the library on concrete values: error mapping, textual
//! forms, ride lifecycle, groups, SOS decisions, authentication and bodies.

use motorguard::api::{
    contact_to_response, default_page, default_per_page, default_resolve_reason, default_trigger,
    error_response, sos_dispatch_message, ApiResponse, CreateContactBody, CreateGroupBody,
    ErrorResponse, GroupResponse, RequestOtpBody, UpdateMotorcycleBody, UpdateProfileBody,
    VerifyOtpBody,
};
use motorguard::auth::{
    check_claims, check_otp, issue_otp, issue_tokens, new_otp_code, refresh_access_token, refresh_subject,
    validate_phone, Claims, JwtService, OtpRecord, RawClaims,
};
use motorguard::errors::AppError;
use motorguard::groups::{
    check_can_leave, check_invite_code, check_member, check_not_member, GroupChannelRegistry,
};
use motorguard::ids::{GroupId, RideId, SessionId, UserId};
use motorguard::location::LocationService;
use motorguard::models::{generate_invite_code, invite_code_from_seed, EmergencyContact, Group, Notification, Ride, SosEvent, User};
use motorguard::notifications::NotificationService;
use motorguard::rides::{assert_active, assert_owner, check_ride_action, finish_duration_seconds, ride_list_offset, RideAction};
use motorguard::safety::{alert_mode, check_resolvable, notified_count, AlertMode};
use motorguard::types::{
    parse_kind, parse_ride_status, parse_sos_status, parse_trigger, GroupRole, NotificationKind,
    RideStatus, SosStatus, SosTrigger,
};

// ── Errors ────────────────────────────────────────────────────────────────────

#[test]
fn error_status_codes() {
    assert_eq!(AppError::Unauthorized.status_code(), 401);
    assert_eq!(AppError::SessionExpired.status_code(), 401);
    assert_eq!(AppError::TokenMalformed.status_code(), 401);
    assert_eq!(AppError::Forbidden.status_code(), 403);
    assert_eq!(AppError::NotFound("Ride".to_string()).status_code(), 404);
    assert_eq!(AppError::SosNotFound.status_code(), 404);
    assert_eq!(AppError::AlreadyMember.status_code(), 409);
    assert_eq!(AppError::RideAlreadyActive.status_code(), 409);
    assert_eq!(AppError::OtpInvalid.status_code(), 422);
    assert_eq!(AppError::RideAlreadyCompleted.status_code(), 422);
    assert_eq!(
        AppError::LocationAccuracyPoor { accuracy: "150".to_string(), threshold: "100".to_string() }.status_code(),
        422
    );
    assert_eq!(AppError::RateLimited.status_code(), 429);
    assert_eq!(AppError::Database("x".to_string()).status_code(), 500);
    assert_eq!(AppError::Internal("boom".to_string()).status_code(), 500);
}

#[test]
fn error_codes_tell_variants_apart() {
    let s = || "x".to_string();
    let all = vec![
        AppError::Unauthorized, AppError::Forbidden, AppError::OtpInvalid, AppError::OtpExpired,
        AppError::SessionExpired, AppError::TokenMalformed, AppError::Validation(s()), AppError::InvalidPhone,
        AppError::InvalidCoordinates, AppError::NotFound(s()), AppError::AlreadyMember, AppError::PhoneAlreadyExists,
        AppError::RideNotActive, AppError::RideAlreadyActive, AppError::RideAlreadyCompleted,
        AppError::LocationPermissionDenied, AppError::LocationAccuracyPoor { accuracy: s(), threshold: s() },
        AppError::SosNotFound, AppError::SosAlreadyResolved, AppError::RateLimited, AppError::Database(s()),
        AppError::Migration(s()), AppError::Network(s()), AppError::ServiceUnavailable(s()), AppError::Internal(s()),
        AppError::NotImplemented(s()),
    ];
    let codes: Vec<&str> = all.iter().map(|e| e.error_code()).collect();
    for i in 0..codes.len() {
        assert!(!codes[i].is_empty());
        for j in 0..i {
            assert_ne!(codes[i], codes[j]);
        }
    }
    assert_eq!(AppError::NotFound("a".to_string()).error_code(), AppError::NotFound("b".to_string()).error_code());
}

#[test]
fn error_codes() {
    assert_eq!(AppError::PhoneAlreadyExists.error_code(), "PHONE_EXISTS");
    assert_eq!(AppError::RideAlreadyCompleted.error_code(), "RIDE_COMPLETED");
    assert_eq!(AppError::Validation("v".to_string()).error_code(), "VALIDATION_ERROR");
    assert_eq!(AppError::Internal("boom".to_string()).error_code(), "INTERNAL_ERROR");
    assert_eq!(AppError::NotImplemented("f".to_string()).error_code(), "NOT_IMPLEMENTED");
}

#[test]
fn error_messages() {
    assert_eq!(AppError::NotFound("Ride".to_string()).message(), "Ride not found");
    assert_eq!(AppError::Validation("bad".to_string()).message(), "Validation error: bad");
    assert_eq!(AppError::Internal("secret detail".to_string()).message(), "Internal server error");
    assert_eq!(
        AppError::LocationAccuracyPoor { accuracy: "150.5".to_string(), threshold: "100".to_string() }.message(),
        "GPS accuracy too poor: 150.5m (threshold: 100m)"
    );
    assert_eq!(AppError::Database("locked".to_string()).message(), "Database error: locked");
}

#[test]
fn error_response_carries_code_and_message() {
    let (status, body) = error_response(&AppError::SosAlreadyResolved);
    assert_eq!(status, 422);
    assert_eq!(body.error.code, "SOS_ALREADY_RESOLVED");
    assert_eq!(body.error.message, "SOS event is already resolved");
}

// ── Text forms ────────────────────────────────────────────────────────────────

#[test]
fn id_text_is_hyphenated_lowercase() {
    let id = UserId::from_u128(0x0123_4567_89AB_CDEF_0123_4567_89AB_CDEF);
    assert_eq!(id.to_string(), "01234567-89ab-cdef-0123-456789abcdef");
    assert_eq!(id.as_u128(), 0x0123_4567_89AB_CDEF_0123_4567_89AB_CDEF);
}

#[test]
fn id_parse_accepts_uuid_text_only() {
    let parsed = RideId::parse_str("01234567-89AB-cdef-0123-456789abcdef").unwrap();
    assert_eq!(parsed.as_u128(), 0x0123_4567_89AB_CDEF_0123_4567_89AB_CDEF);
    assert!(GroupId::parse_str("not-a-uuid").is_none());
    assert!("".parse::<SessionId>().is_err());
    assert_eq!("01234567-89ab-cdef-0123-456789abcdef".parse::<GroupId>(), Ok(GroupId::from_u128(0x0123_4567_89AB_CDEF_0123_4567_89AB_CDEF)));
    assert_eq!("x".parse::<UserId>(), Err(()));
}

#[test]
fn new_ids_are_version_4() {
    let v = UserId::new().as_u128();
    assert_eq!((v >> 76) & 0xF, 4);
    assert_eq!((v >> 62) & 0x3, 2);
}

#[test]
fn stored_labels_and_readers() {
    assert_eq!(parse_ride_status("paused"), RideStatus::Paused);
    assert_eq!(parse_ride_status("unknown"), RideStatus::Pending);
    assert_eq!(parse_ride_status(RideStatus::Cancelled.as_str()), RideStatus::Cancelled);
    assert_eq!(SosStatus::Resolved.storage_label(), "resolved");
    assert_eq!(parse_sos_status(SosStatus::Resolved.storage_label()), SosStatus::Resolved);
    assert_eq!(parse_sos_status("false_alarm"), SosStatus::FalseAlarm);
    // The stored text of a false alarm reads back as active.
    assert_eq!(SosStatus::FalseAlarm.storage_label(), "falsealarm");
    assert_eq!(parse_sos_status(SosStatus::FalseAlarm.storage_label()), SosStatus::Active);
    assert_eq!(SosTrigger::CrashDetection.storage_label(), "crashdetection");
    assert_eq!(parse_trigger("crash_detection"), SosTrigger::CrashDetection);
    assert_eq!(parse_trigger(SosTrigger::CrashDetection.storage_label()), SosTrigger::Manual);
    assert_eq!(GroupRole::Owner.storage_label(), "owner");
    assert_eq!(NotificationKind::GroupInvite.storage_label(), "groupinvite");
    assert_eq!(parse_kind("group_invite"), NotificationKind::GroupInvite);
    assert_eq!(parse_kind(NotificationKind::Sos.storage_label()), NotificationKind::Sos);
    assert_eq!(parse_kind(NotificationKind::RideComplete.storage_label()), NotificationKind::SystemAlert);
}

#[test]
fn invite_codes() {
    assert_eq!(invite_code_from_seed(0), "000000");
    assert_eq!(invite_code_from_seed(0xABCDE), "0ABCDE");
    assert_eq!(invite_code_from_seed(0xFF_FF_FF), "000000");
    assert_eq!(invite_code_from_seed(999_999_999), "9ACA3A");
    let code = generate_invite_code();
    assert_eq!(code.len(), 6);
    assert!(code.chars().all(|c| c.is_ascii_digit() || ('A'..='F').contains(&c)));
}

#[test]
fn duration_display_edges() {
    let mut r = Ride::new(UserId::new(), None);
    r.duration_seconds = 3599;
    assert_eq!(r.duration_display(), "59 min");
    r.duration_seconds = 3600;
    assert_eq!(r.duration_display(), "1h 0m");
    r.duration_seconds = 90061;
    assert_eq!(r.duration_display(), "25h 1m");
    r.duration_seconds = -4000;
    assert_eq!(r.duration_display(), "-6 min");
}

#[test]
fn other_model_constructors() {
    let uid = UserId::new();
    let n = Notification::new(uid, NotificationKind::Sos, "t".to_string(), "b".to_string());
    assert!(!n.is_read);
    let e = SosEvent::new(uid, 1.5f64.to_bits(), (-2.25f64).to_bits(), 8.0f64.to_bits(), SosTrigger::CrashDetection);
    assert_eq!(e.status, SosStatus::Active);
    assert_eq!(e.contacts_notified, 0);
    assert_eq!(f64::from_bits(e.longitude_bits), -2.25);
    let _ = LocationService::new();
}

// ── Rides ─────────────────────────────────────────────────────────────────────

fn ride_with(owner: UserId, status: RideStatus) -> Ride {
    let mut r = Ride::new(owner, None);
    r.status = status;
    r
}

#[test]
fn ride_lifecycle_decisions() {
    let owner = UserId::new();
    let other = UserId::new();
    let pending = ride_with(owner, RideStatus::Pending);
    assert!(matches!(check_ride_action(&pending, other, RideAction::View), Err(AppError::Forbidden)));
    assert_eq!(check_ride_action(&pending, owner, RideAction::Start).unwrap(), RideStatus::Active);
    assert!(matches!(check_ride_action(&pending, owner, RideAction::Pause), Err(AppError::RideNotActive)));
    assert!(matches!(check_ride_action(&pending, owner, RideAction::Finish), Err(AppError::RideNotActive)));
    let active = ride_with(owner, RideStatus::Active);
    assert!(matches!(check_ride_action(&active, owner, RideAction::Start), Err(AppError::RideAlreadyActive)));
    assert_eq!(check_ride_action(&active, owner, RideAction::Pause).unwrap(), RideStatus::Paused);
    assert_eq!(check_ride_action(&active, owner, RideAction::AddPoints).unwrap(), RideStatus::Active);
    let paused = ride_with(owner, RideStatus::Paused);
    assert_eq!(check_ride_action(&paused, owner, RideAction::Resume).unwrap(), RideStatus::Active);
    assert_eq!(check_ride_action(&paused, owner, RideAction::Finish).unwrap(), RideStatus::Completed);
    assert_eq!(check_ride_action(&paused, owner, RideAction::Start).unwrap(), RideStatus::Active);
    assert!(matches!(check_ride_action(&paused, owner, RideAction::AddPoints), Err(AppError::RideNotActive)));
    let done = ride_with(owner, RideStatus::Completed);
    assert!(matches!(check_ride_action(&done, owner, RideAction::Start), Err(AppError::RideAlreadyCompleted)));
    assert!(matches!(check_ride_action(&done, owner, RideAction::Resume), Err(AppError::RideNotActive)));
    assert_eq!(check_ride_action(&done, owner, RideAction::View).unwrap(), RideStatus::Completed);
    assert!(assert_owner(&done, other).is_err());
    assert!(assert_active(&active).is_ok());
    assert!(assert_active(&paused).is_err());
}

#[test]
fn ride_durations_and_pages() {
    assert_eq!(finish_duration_seconds(Some(1_000_000), 91_500_000), 90);
    assert_eq!(finish_duration_seconds(Some(5_000_000), 1_000_000), 0);
    assert_eq!(finish_duration_seconds(None, 123_456_789), 0);
    assert_eq!(finish_duration_seconds(Some(-1_999_999), 0), 1);
    assert_eq!(ride_list_offset(1, 20), 0);
    assert_eq!(ride_list_offset(3, 20), 40);
    assert_eq!(ride_list_offset(0, 20), -20);
}

// ── Groups ────────────────────────────────────────────────────────────────────

#[test]
fn group_membership_rules() {
    let owner = UserId::new();
    let g = Group::new("Riders".to_string(), None, owner);
    assert!(check_invite_code(&g, &None).is_ok());
    assert!(check_invite_code(&g, &Some(g.invite_code.clone())).is_ok());
    assert!(matches!(check_invite_code(&g, &Some("ZZZZZZ".to_string())), Err(AppError::Forbidden)));
    assert!(matches!(check_not_member(true), Err(AppError::AlreadyMember)));
    assert!(check_not_member(false).is_ok());
    assert!(matches!(check_member(false), Err(AppError::Forbidden)));
    match check_can_leave(&g, owner) {
        Err(AppError::Validation(m)) => assert_eq!(m, "Group owner cannot leave. Delete the group instead."),
        _ => panic!("owner must not leave"),
    }
    assert!(check_can_leave(&g, UserId::new()).is_ok());
}

#[test]
fn group_channel_registry() {
    let mut reg = GroupChannelRegistry::new();
    assert_eq!(reg.broadcast("g1", "{}".to_string()), 0);
    let mut rx = reg.subscribe("g1");
    assert!(reg.contains("g1"));
    assert!(!reg.contains("g2"));
    assert_eq!(reg.broadcast("g1", "hello".to_string()), 1);
    assert_eq!(rx.try_recv().unwrap(), "hello");
    let mut rx2 = reg.subscribe("g1");
    assert_eq!(reg.broadcast("g1", "two".to_string()), 2);
    assert_eq!(rx2.try_recv().unwrap(), "two");
    reg.remove_if_empty("g1");
    assert!(reg.contains("g1"), "channel with receivers stays");
    drop(rx);
    drop(rx2);
    reg.remove_if_empty("g1");
    assert!(!reg.contains("g1"), "channel without receivers goes");
    let tx = reg.sender("g2");
    assert!(reg.contains("g2"));
    let mut rx3 = reg.subscribe("g2");
    tx.send("via sender".to_string()).unwrap();
    assert_eq!(rx3.try_recv().unwrap(), "via sender");
}

#[test]
fn registry_counts_and_drops() {
    let mut reg = GroupChannelRegistry::new();
    assert_eq!(reg.receiver_count("a"), None);
    let rx_a = reg.subscribe("a");
    let _rx_b = reg.subscribe("b");
    let _rx_c = reg.subscribe("c");
    assert_eq!(reg.receiver_count("a"), Some(1));
    reg.drop_if_unused("b", 1);
    assert!(reg.contains("b"));
    reg.drop_if_unused("b", 0);
    assert!(!reg.contains("b"));
    assert!(reg.contains("a") && reg.contains("c"));
    reg.drop_if_unused("zzz", 0);
    assert!(reg.contains("a") && reg.contains("c"));
    drop(rx_a);
    assert_eq!(reg.receiver_count("a"), Some(0));
}

// ── SOS ───────────────────────────────────────────────────────────────────────

#[test]
fn sos_decisions() {
    assert_eq!(notified_count(false, 3, &vec![]), 3);
    assert_eq!(notified_count(true, 3, &vec![true, false, true]), 2);
    assert_eq!(notified_count(true, 0, &vec![]), 0);
    assert!(matches!(check_resolvable(SosStatus::Resolved), Err(AppError::SosAlreadyResolved)));
    assert!(check_resolvable(SosStatus::Active).is_ok());
    assert!(check_resolvable(SosStatus::FalseAlarm).is_ok());
    assert_eq!(sos_dispatch_message(2), "SOS dispatched. 2 contact(s) notified.");
    assert_eq!(sos_dispatch_message(0), "SOS dispatched. 0 contact(s) notified.");
}

#[test]
fn sms_dispatch_rules() {
    let dev = NotificationService::new(Some("AC1".to_string()), Some("tok".to_string()), Some("+1555".to_string()), true);
    assert!(dev.sms_dispatch().is_none());
    let no_sid = NotificationService::new(None, Some("t".to_string()), Some("+1555".to_string()), false);
    assert!(no_sid.sms_dispatch().is_none());
    let no_token = NotificationService::new(Some("AC1".to_string()), None, Some("+1555".to_string()), false);
    assert!(no_token.sms_dispatch().is_none());
    let no_from = NotificationService::new(Some("AC1".to_string()), Some("tok".to_string()), None, false);
    assert!(no_from.sms_dispatch().is_none());
    let live = NotificationService::new(Some("AC1".to_string()), Some("tok".to_string()), Some("+1555".to_string()), false);
    let d = live.sms_dispatch().unwrap();
    assert_eq!(d.url, "https://api.twilio.com/2010-04-01/Accounts/AC1/Messages.json");
    assert_eq!(d.account_sid, "AC1");
    assert_eq!(d.auth_token, "tok");
    assert_eq!(d.from, "+1555");
}

#[test]
fn alert_modes() {
    let dev = NotificationService::new(Some("AC1".to_string()), None, None, true);
    let partial = NotificationService::new(Some("AC1".to_string()), None, Some("+1555".to_string()), false);
    assert!(matches!(alert_mode(true, &partial), AlertMode::SimulatedSms));
    let live = NotificationService::new(Some("AC1".to_string()), Some("tok".to_string()), Some("+1555".to_string()), false);
    assert!(matches!(alert_mode(false, &live), AlertMode::LogOnly));
    assert!(matches!(alert_mode(false, &dev), AlertMode::LogOnly));
    assert!(matches!(alert_mode(true, &dev), AlertMode::SimulatedSms));
    match alert_mode(true, &live) {
        AlertMode::RealSms(d) => {
            assert_eq!(d.url, "https://api.twilio.com/2010-04-01/Accounts/AC1/Messages.json");
            assert_eq!(d.auth_token, "tok");
            assert_eq!(d.from, "+1555");
        }
        other => panic!("unexpected {:?}", other),
    }
}

// ── Authentication ────────────────────────────────────────────────────────────

#[test]
fn phone_format() {
    assert!(validate_phone("+15551234567").is_ok());
    assert!(validate_phone("+12345").is_ok());
    assert!(validate_phone("+1").is_ok());
    assert!(validate_phone("+0555123456").is_ok());
    assert!(validate_phone("+123456789012345").is_ok());
    assert!(matches!(validate_phone("+1234567890123456"), Err(AppError::InvalidPhone)));
    assert!(matches!(validate_phone("15551234567"), Err(AppError::InvalidPhone)));
    assert!(matches!(validate_phone("+"), Err(AppError::InvalidPhone)));
    assert!(matches!(validate_phone(""), Err(AppError::InvalidPhone)));
    assert!(matches!(validate_phone("+1555123456a"), Err(AppError::InvalidPhone)));
    assert!(matches!(validate_phone("+1 555"), Err(AppError::InvalidPhone)));
    assert!(matches!(validate_phone("+١٢٣"), Err(AppError::InvalidPhone)));
}

#[test]
fn claims_checks() {
    let raw = |exp: Option<i64>| Some(RawClaims {
        sub: Some("s".to_string()),
        iat: Some(1),
        exp,
        typ: Some("access".to_string()),
    });
    assert!(matches!(check_claims(None, 10), Err(AppError::TokenMalformed)));
    assert!(matches!(check_claims(raw(None), 10), Err(AppError::TokenMalformed)));
    assert!(matches!(check_claims(raw(Some(-1)), -5), Err(AppError::TokenMalformed)));
    assert!(matches!(check_claims(raw(Some(10)), 10), Err(AppError::SessionExpired)));
    let c = check_claims(raw(Some(11)), 10).unwrap();
    assert_eq!(c.exp, 11);
    assert!(c.is_access_token());
    let bad = Claims { sub: "nope".to_string(), iat: 0, exp: 1, typ: "refresh".to_string() };
    assert!(!bad.is_access_token());
    assert!(matches!(bad.user_id(), Err(AppError::TokenMalformed)));
}

#[test]
fn refresh_gives_access_token() {
    let jwt = JwtService::new("k", 24, 30);
    let user = UserId::new();
    let refresh = jwt.create_refresh_token(user).unwrap();
    let (access, secs) = refresh_access_token(&jwt, &refresh).unwrap();
    assert_eq!(secs, 86400);
    let claims = jwt.verify_access_token(&access).unwrap();
    assert_eq!(claims.user_id().unwrap(), user);
    assert_eq!(claims.exp - claims.iat, 24 * 3600);
    let access_again = jwt.create_access_token(user).unwrap();
    assert!(matches!(refresh_access_token(&jwt, &access_again), Err(AppError::TokenMalformed)));
    let expired = JwtService::new("k", 24, 0).create_refresh_token(user).unwrap();
    assert!(matches!(refresh_access_token(&jwt, &expired), Err(AppError::SessionExpired)));
}

#[test]
fn refresh_subject_rules() {
    let claims = |sub: &str, typ: &str| Claims { sub: sub.to_string(), iat: 0, exp: 10, typ: typ.to_string() };
    let id = "67e55044-10b1-426f-9247-bb680e5fe0c8";
    assert_eq!(refresh_subject(Ok(claims(id, "refresh"))).unwrap(), UserId::from_u128(0x67e55044_10b1_426f_9247_bb680e5fe0c8));
    assert!(matches!(refresh_subject(Ok(claims(id, "access"))), Err(AppError::TokenMalformed)));
    assert!(matches!(refresh_subject(Ok(claims("nobody", "refresh"))), Err(AppError::TokenMalformed)));
    assert!(matches!(refresh_subject(Err(AppError::SessionExpired)), Err(AppError::SessionExpired)));
}

#[test]
fn otp_codes() {
    assert_eq!(new_otp_code(true), "123456");
    let c = new_otp_code(false);
    assert_eq!(c.len(), 6);
    let n: u32 = c.parse().unwrap();
    assert!((100_000..=999_999).contains(&n));
}

#[test]
fn otp_issue_and_check() {
    let issued = issue_otp(true, 10).unwrap();
    assert_eq!(issued.code, "123456");
    assert_ne!(issued.code_hash, issued.code);
    let rec = OtpRecord { code_hash: issued.code_hash.clone(), expires_at: issued.expires_at, used: false };
    assert!(check_otp(Some(rec.clone()), "123456", issued.expires_at - 1, false).is_ok());
    assert!(matches!(check_otp(Some(rec.clone()), "654321", issued.expires_at - 1, false), Err(AppError::OtpInvalid)));
    assert!(check_otp(Some(rec.clone()), "000000", issued.expires_at - 1, true).is_ok());
    assert!(matches!(check_otp(Some(rec.clone()), "123456", issued.expires_at + 1, false), Err(AppError::OtpExpired)));
    assert!(matches!(check_otp(Some(rec.clone()), "000000", issued.expires_at + 1, true), Err(AppError::OtpExpired)));
    let used = OtpRecord { used: true, ..rec.clone() };
    assert!(matches!(check_otp(Some(used.clone()), "123456", 0, false), Err(AppError::OtpExpired)));
    assert!(matches!(check_otp(Some(used), "123456", 0, true), Err(AppError::OtpExpired)));
    assert!(matches!(check_otp(None, "123456", 0, false), Err(AppError::OtpInvalid)));
    assert!(matches!(check_otp(None, "123456", 0, true), Err(AppError::OtpInvalid)));
    let broken = OtpRecord { code_hash: "not a hash".to_string(), ..rec };
    match check_otp(Some(broken.clone()), "123456", 0, false) {
        Err(AppError::Internal(m)) => assert_eq!(m, "bcrypt verify failed"),
        other => panic!("unexpected {:?}", other),
    }
    assert!(check_otp(Some(broken), "123456", 0, true).is_ok());
    let real = issue_otp(false, 10).unwrap();
    let n: u32 = real.code.parse().unwrap();
    assert!((100_000..=999_999).contains(&n));
}

#[test]
fn tokens_for_login() {
    let jwt = JwtService::new("k", 24, 30);
    let user = User::new("+15551234567".to_string());
    let (tokens, session) = issue_tokens(&jwt, user.clone(), true, 30).unwrap();
    assert_eq!(tokens.expires_in, 86400);
    assert!(tokens.is_new_user);
    assert_eq!(tokens.user.id, user.id);
    assert_eq!(session.user_id, user.id);
    assert_eq!(session.expires_at - session.created_at, 30 * 86_400_000_000);
    assert!(bcrypt::verify(&tokens.refresh_token, &session.refresh_token_hash).unwrap());
    let claims = jwt.verify(&tokens.refresh_token).unwrap();
    assert_eq!(claims.typ, "refresh");
    assert_eq!(claims.exp - claims.iat, 30 * 86400);
}

#[test]
fn long_lifetimes() {
    let days = 100_000_000_000i64;
    let jwt = JwtService::new("k", 1_000_000_000, days);
    let user = User::new("+15551234567".to_string());
    let access = jwt.create_access_token(user.id).unwrap();
    let claims = jwt.verify_access_token(&access).unwrap();
    assert_eq!(claims.exp - claims.iat, 1_000_000_000 * 3600);
    let refresh = jwt.create_refresh_token(user.id).unwrap();
    assert_eq!(refresh_access_token(&jwt, &refresh).unwrap().1, 86400);
    match issue_tokens(&jwt, user, false, days) {
        Err(AppError::Internal(m)) => assert_eq!(m, "session expiry out of range"),
        other => panic!("unexpected {:?}", other.map(|_| ())),
    }
    match issue_otp(true, 100_000_000_000_000) {
        Err(AppError::Internal(m)) => assert_eq!(m, "passcode expiry out of range"),
        other => panic!("unexpected {:?}", other.map(|_| ())),
    }
}

// ── Bodies ────────────────────────────────────────────────────────────────────

#[test]
fn body_rules() {
    assert!(RequestOtpBody { phone: "+15551234".to_string() }.validate().is_ok());
    assert_eq!(RequestOtpBody { phone: "+1555".to_string() }.validate().unwrap_err().fields, vec!["phone"]);
    let v = VerifyOtpBody { phone: "+1".to_string(), code: "12345".to_string() };
    assert_eq!(v.validate().unwrap_err().fields, vec!["phone", "code"]);
    assert!(VerifyOtpBody { phone: "+15551234".to_string(), code: "123456".to_string() }.validate().is_ok());
    assert!(UpdateProfileBody { name: None, avatar_url: None }.validate().is_ok());
    assert_eq!(UpdateProfileBody { name: Some(String::new()), avatar_url: None }.validate().unwrap_err().fields, vec!["name"]);
    assert!(UpdateProfileBody { name: Some("é".repeat(60)), avatar_url: None }.validate().is_ok());
    let m = UpdateMotorcycleBody { make: "".to_string(), model: "Ninja".to_string(), year: 1899, plate: None, color: None };
    assert_eq!(m.validate().unwrap_err().fields, vec!["make", "year"]);
    assert!(CreateGroupBody { name: "x".to_string(), description: Some("d".repeat(300)) }.validate().is_ok());
    assert_eq!(CreateGroupBody { name: "x".repeat(81), description: Some("d".repeat(301)) }.validate().unwrap_err().fields, vec!["name", "description"]);
    assert!(CreateContactBody { name: "Jane".to_string(), phone: "+15559876543".to_string(), relationship: None }.validate().is_ok());
    assert_eq!(default_page(), 1);
    assert_eq!(default_per_page(), 20);
    assert_eq!(default_trigger(), "manual");
    assert_eq!(default_resolve_reason(), "false_alarm");
}

#[test]
fn responses() {
    let owner = UserId::new();
    let g = Group::new("Riders".to_string(), Some("fast".to_string()), owner);
    let r = GroupResponse::from_group(g.clone(), 3, true);
    assert_eq!(r.id, g.id.to_string());
    assert_eq!(r.member_count, 3);
    let c = EmergencyContact::new(owner, "Jane".to_string(), "+1555".to_string(), None);
    let cr = contact_to_response(c.clone());
    assert_eq!(cr.id, c.id.to_string());
    assert_eq!(cr.name, "Jane");
    assert_eq!(ApiResponse::ok(5).data, 5);
    let e = ErrorResponse::new("C".to_string(), "m".to_string());
    assert_eq!(e.error.code, "C");
}
