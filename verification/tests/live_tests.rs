use motorguard::auth::Claims;
use motorguard::errors::AppError;
use motorguard::ids::{GroupId, UserId};
use motorguard::live::{
    announced_name, relay_location, socket_action, ws_admission, ws_membership, LocationUpdate, SocketAction, SocketEvent,
    WsRefusal,
};
use motorguard::models::User;

fn claims(sub: &str) -> Claims {
    Claims { sub: sub.to_string(), iat: 0, exp: 10, typ: "access".to_string() }
}

const USER: &str = "67e55044-10b1-426f-9247-bb680e5fe0c8";
const GROUP: &str = "a1a2a3a4-b1b2-4c1c-8d1d-e1e2e3e4e5e6";

#[test]
fn admission_checks_token_claims_then_group() {
    let ok = ws_admission(Ok(claims(USER)), GROUP).unwrap();
    assert_eq!(ok.0, UserId::from_u128(0x67e55044_10b1_426f_9247_bb680e5fe0c8));
    assert_eq!(ok.1, GroupId::from_u128(0xa1a2a3a4_b1b2_4c1c_8d1d_e1e2e3e4e5e6));
    assert_eq!(ws_admission(Err(AppError::SessionExpired), "not-a-group"), Err(WsRefusal::InvalidToken));
    assert_eq!(ws_admission(Ok(claims("someone")), "not-a-group"), Err(WsRefusal::InvalidClaims));
    assert_eq!(ws_admission(Ok(claims(USER)), "not-a-group"), Err(WsRefusal::InvalidGroupId));
}

#[test]
fn refusals_answer_with_status_and_text() {
    assert_eq!(WsRefusal::InvalidToken.status(), 401);
    assert_eq!(WsRefusal::InvalidToken.text(), "Invalid token");
    assert_eq!(WsRefusal::InvalidClaims.status(), 401);
    assert_eq!(WsRefusal::InvalidClaims.text(), "Invalid token claims");
    assert_eq!(WsRefusal::InvalidGroupId.status(), 400);
    assert_eq!(WsRefusal::InvalidGroupId.text(), "Invalid group id");
    assert_eq!(WsRefusal::NotMember.status(), 403);
    assert_eq!(WsRefusal::NotMember.text(), "Not a member of this group");
}

#[test]
fn membership_gate() {
    assert_eq!(ws_membership(true), Ok(()));
    assert_eq!(ws_membership(false), Err(WsRefusal::NotMember));
}

#[test]
fn announced_names() {
    let mut u = User::new("+15551234567".to_string());
    assert_eq!(announced_name(Some(u.clone())), "Rider");
    u.name = Some("Ana".to_string());
    assert_eq!(announced_name(Some(u)), "Ana");
    assert_eq!(announced_name(None), "Rider");
}

#[test]
fn session_actions() {
    assert_eq!(socket_action(SocketEvent::LocationUpdate), SocketAction::RelayLocation);
    assert_eq!(socket_action(SocketEvent::Ping), SocketAction::Ignore);
    assert_eq!(socket_action(SocketEvent::OtherFrame), SocketAction::Ignore);
    assert_eq!(socket_action(SocketEvent::Malformed), SocketAction::ReportMalformed);
    assert_eq!(socket_action(SocketEvent::CloseFrame), SocketAction::Finish);
    assert_eq!(socket_action(SocketEvent::StreamEnded), SocketAction::Finish);
}

#[test]
fn relayed_location_keeps_the_update() {
    let update = LocationUpdate {
        latitude_bits: 40.7128f64.to_bits(),
        longitude_bits: (-74.006f64).to_bits(),
        speed_bits: 55.5f64.to_bits(),
        heading_bits: Some(90.0f64.to_bits()),
        timestamp_secs: 1_700_000_000,
        timestamp_nanos: 123,
    };
    let m = relay_location(UserId::from_u128(0x67e55044_10b1_426f_9247_bb680e5fe0c8), "Ana", update);
    assert_eq!(m.user_id, USER);
    assert_eq!(m.name, "Ana");
    assert_eq!(f64::from_bits(m.latitude_bits), 40.7128);
    assert_eq!(f64::from_bits(m.longitude_bits), -74.006);
    assert_eq!(f64::from_bits(m.speed_bits), 55.5);
    assert_eq!(m.heading_bits.map(f64::from_bits), Some(90.0));
    assert_eq!((m.timestamp_secs, m.timestamp_nanos), (1_700_000_000, 123));
}
