//! Login flow, session guard and session-info parsing.

use pomfritz::auth::{compute_response, parse_session_info};
use pomfritz::session::{
    ensure_session, on_challenge_response, on_check_response, on_login_response, AuthError,
    CheckOutcome, FritzboxConfig, FritzboxSession, SessionStep, SESSION_TIMEOUT_MS,
};

fn config(user: &str, password: &str) -> FritzboxConfig {
    FritzboxConfig { user: user.to_string(), password: password.to_string() }
}

fn session_info(sid: &str, challenge: &str) -> String {
    format!(
        "<?xml version=\"1.0\" encoding=\"utf-8\"?><SessionInfo><SID>{}</SID><Challenge>{}</Challenge><BlockTime>0</BlockTime></SessionInfo>",
        sid, challenge
    )
}

#[test]
fn response_hash_golden_value() {
    // The fixed regression example: challenge "1234567z", password "testpw".
    let r = compute_response("1234567z", "testpw");
    assert_eq!(r, "1234567z-69ce27a1f1d7e9e19dcdf66ca260cb85");
}

#[test]
fn response_hash_unicode_password() {
    // UTF-16LE encoding covers non-ASCII and astral characters.
    assert_eq!(compute_response("abc", "tëst"), "abc-5741265d5406494304e7010d7fb83597");
    assert_eq!(compute_response("xy", "päss😀"), "xy-f1e130adb5324e98ee34b1c8f1d6d0d2");
}

#[test]
fn response_hash_deterministic() {
    let a = compute_response("1234567z", "testpw");
    let b = compute_response("1234567z", "testpw");
    assert_eq!(a, b);
}

#[test]
fn session_info_parsed() {
    let body = session_info("deadbeef00112233", "1234567z");
    let info = parse_session_info(&body).expect("well-formed session info");
    assert_eq!(info.sid, "deadbeef00112233");
    assert_eq!(info.challenge, "1234567z");
}

#[test]
fn session_info_missing_fields_rejected() {
    assert!(parse_session_info("<SessionInfo><SID>x</SID></SessionInfo>").is_none());
    assert!(parse_session_info("not xml at all").is_none());
    assert!(parse_session_info("").is_none());
}

#[test]
fn still_valid_is_strict() {
    let s = FritzboxSession { sid: "deadbeef00112233".to_string(), valid_until: 1000 };
    assert!(s.still_valid(999));
    assert!(!s.still_valid(1000));
    assert!(!s.still_valid(2000));
}

#[test]
fn guard_reuses_valid_session_unchanged() {
    let s = FritzboxSession { sid: "deadbeef00112233".to_string(), valid_until: 5000 };
    // Two calls inside the validity window both hand the session back as it is.
    for now in [100u64, 4999] {
        match ensure_session(Some(&s), now) {
            SessionStep::UseCurrent(c) => {
                assert_eq!(c.sid, "deadbeef00112233");
                assert_eq!(c.valid_until, 5000);
            }
            _ => panic!("expected the session to be reused"),
        }
    }
}

#[test]
fn guard_checks_stale_session() {
    let s = FritzboxSession { sid: "deadbeef00112233".to_string(), valid_until: 5000 };
    match ensure_session(Some(&s), 5000) {
        SessionStep::CheckSession(sid) => assert_eq!(sid, "deadbeef00112233"),
        _ => panic!("expected a session check"),
    }
}

#[test]
fn guard_logs_in_without_session() {
    match ensure_session(None, 0) {
        SessionStep::RequestChallenge => {}
        _ => panic!("expected the full login path"),
    }
}

#[test]
fn check_echo_refreshes_session() {
    let s = FritzboxSession { sid: "deadbeef00112233".to_string(), valid_until: 5000 };
    let body = session_info("deadbeef00112233", "unused12");
    match on_check_response(&s, 200, &body, 7000) {
        CheckOutcome::Refreshed(n) => {
            assert_eq!(n.sid, "deadbeef00112233");
            assert_eq!(n.valid_until, 7000 + SESSION_TIMEOUT_MS);
        }
        CheckOutcome::FullLogin => panic!("expected a refresh"),
    }
}

#[test]
fn check_mismatch_falls_back_to_login() {
    let s = FritzboxSession { sid: "deadbeef00112233".to_string(), valid_until: 5000 };
    let other = session_info("aaaaaaaaaaaaaaaa", "unused12");
    assert!(matches!(on_check_response(&s, 200, &other, 7000), CheckOutcome::FullLogin));
    let empty = session_info("", "unused12");
    assert!(matches!(on_check_response(&s, 200, &empty, 7000), CheckOutcome::FullLogin));
    assert!(matches!(on_check_response(&s, 500, &session_info("deadbeef00112233", "x"), 7000), CheckOutcome::FullLogin));
    assert!(matches!(on_check_response(&s, 200, "garbage", 7000), CheckOutcome::FullLogin));
}

#[test]
fn check_never_refreshes_sentinel() {
    // Even if a sentinel id were echoed back, it never becomes a session.
    let s = FritzboxSession { sid: "0000000000000000".to_string(), valid_until: 5000 };
    let body = session_info("0000000000000000", "unused12");
    assert!(matches!(on_check_response(&s, 200, &body, 7000), CheckOutcome::FullLogin));
}

#[test]
fn challenge_step_computes_response() {
    let cfg = config("admin", "testpw");
    let body = session_info("0000000000000000", "1234567z");
    let resp = on_challenge_response(&cfg, 200, &body).expect("challenge accepted");
    assert_eq!(resp, "1234567z-69ce27a1f1d7e9e19dcdf66ca260cb85");
}

#[test]
fn challenge_step_errors_by_kind() {
    let cfg = config("admin", "testpw");
    assert_eq!(on_challenge_response(&cfg, 500, "whatever"), Err(AuthError::Transport));
    assert_eq!(on_challenge_response(&cfg, 200, "no tags here"), Err(AuthError::Decode));
}

#[test]
fn login_step_issues_session() {
    let body = session_info("deadbeef00112233", "ignored1");
    let s = on_login_response(200, &body, 10_000).expect("login accepted");
    assert_eq!(s.sid, "deadbeef00112233");
    assert_eq!(s.valid_until, 10_000 + SESSION_TIMEOUT_MS);
}

#[test]
fn login_step_rejects_sentinel() {
    let body = session_info("0000000000000000", "ignored1");
    assert_eq!(
        on_login_response(200, &body, 10_000).map(|s| s.sid),
        Err(AuthError::Rejected)
    );
}

#[test]
fn login_step_errors_by_kind() {
    assert_eq!(on_login_response(403, "x", 0).map(|s| s.sid), Err(AuthError::Transport));
    assert_eq!(on_login_response(200, "broken", 0).map(|s| s.sid), Err(AuthError::Decode));
}
