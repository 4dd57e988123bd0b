//! The session guard: credentials, sessions, and the decision logic of the
//! challenge-response login flow.
//!
//! The guard itself performs no network traffic. It decides which request to
//! make next (`ensure_session`), and digests each answer
//! (`on_check_response`, `on_challenge_response`, `on_login_response`) into
//! either a usable session, the next request, or a structured error. The
//! surrounding application drives the loop and performs the transfers.

use vstd::prelude::*;
use crate::auth::{compute_response, sp_response, sp_session_info, parse_session_info};
use crate::text::str_eq;

verus! {

/// Milliseconds a freshly issued or reconfirmed session stays valid.
/// The device itself keeps sessions for about twenty minutes; the client
/// refreshes conservatively after fifteen.
pub const SESSION_TIMEOUT_MS: u64 = 900_000;

/// The session id the device answers with when it refuses a login:
/// all zeros. It never denotes a usable session.
pub open spec fn sp_sentinel() -> Seq<char> {
    "0000000000000000"@
}

/// Login errors, by kind.
#[derive(Clone, Copy, PartialEq, Eq, Structural, Debug)]
pub enum AuthError {
    /// The endpoint could not be reached or answered with a non-200 status.
    Transport,
    /// The endpoint's answer could not be read as a session-info document.
    Decode,
    /// The device refused the credentials (or rate-limited the client) and
    /// answered with the all-zero sentinel id.
    Rejected,
}

/// Device address credentials: the account the client logs in as.
pub struct FritzboxConfig {
    pub user: String,
    pub password: String,
}

/// A device session: the opaque id issued by the login endpoint and the
/// instant (milliseconds on the caller's clock) until which it is trusted.
pub struct FritzboxSession {
    pub sid: String,
    pub valid_until: u64,
}

impl FritzboxSession {
    /// A well-formed session never carries the sentinel id.
    pub open spec fn wf(&self) -> bool {
        self.sid@ != sp_sentinel()
    }

    /// True while the session has not reached its expiry instant.
    pub fn still_valid(&self, now: u64) -> (r: bool)
        ensures
            r == (now < self.valid_until),
    {
        now < self.valid_until
    }
}

/// What the guard decides to do for the current session state.
#[derive(Clone, Copy, PartialEq, Eq, Structural, Debug)]
pub enum GuardChoice {
    /// The session is still within its window: reuse it, no network step.
    Reuse,
    /// The session may be stale: make the lightweight check request.
    Check,
    /// No session exists: perform the full two-step login.
    FullLogin,
}

/// The guard's decision for a current session (id and expiry) and the time.
pub open spec fn sp_guard_choice(current: Option<(Seq<char>, u64)>, now: u64) -> GuardChoice {
    match current {
        Some(s) => if now < s.1 {
            GuardChoice::Reuse
        } else {
            GuardChoice::Check
        },
        None => GuardChoice::FullLogin,
    }
}

/// The next step the caller must take to obtain a session.
pub enum SessionStep {
    /// The current session is still valid: use it unchanged.
    UseCurrent(FritzboxSession),
    /// Present this session id to the login endpoint for a validity check.
    CheckSession(String),
    /// Request a challenge from the login endpoint for the full login.
    RequestChallenge,
}

/// Spec-level shape of an optional current session.
pub open spec fn sp_of_current(current: Option<&FritzboxSession>) -> Option<(Seq<char>, u64)> {
    match current {
        Some(s) => Some((s.sid@, s.valid_until)),
        None => None,
    }
}

/// Decides how to obtain a session: reuse the current one while it is
/// valid, check a possibly stale one, or start a full login.
pub fn ensure_session(current: Option<&FritzboxSession>, now: u64) -> (r: SessionStep)
    ensures
        sp_guard_choice(sp_of_current(current), now) == GuardChoice::Reuse ==> (r matches
            SessionStep::UseCurrent(c) && current matches Some(s) && c.sid@ == s.sid@
            && c.valid_until == s.valid_until),
        sp_guard_choice(sp_of_current(current), now) == GuardChoice::Check ==> (r matches
            SessionStep::CheckSession(sid) && current matches Some(s) && sid@ == s.sid@),
        sp_guard_choice(sp_of_current(current), now) == GuardChoice::FullLogin ==> r matches
            SessionStep::RequestChallenge,
{
    match current {
        Some(s) => {
            if s.still_valid(now) {
                SessionStep::UseCurrent(
                    FritzboxSession { sid: s.sid.clone(), valid_until: s.valid_until },
                )
            } else {
                SessionStep::CheckSession(s.sid.clone())
            }
        },
        None => SessionStep::RequestChallenge,
    }
}

/// What the lightweight session check concludes: a reconfirmed session with
/// its new expiry, or the need to fall back to the full login.
pub open spec fn sp_check_outcome(
    cur_sid: Seq<char>,
    status: u16,
    body: Seq<char>,
    now: u64,
) -> Option<(Seq<char>, u64)> {
    if status != 200 {
        None
    } else {
        match sp_session_info(body) {
            None => None,
            Some(p) => if p.0 == cur_sid && p.0 != sp_sentinel() {
                Some((p.0, (now + SESSION_TIMEOUT_MS) as u64))
            } else {
                None
            },
        }
    }
}

/// The result of the lightweight session check.
pub enum CheckOutcome {
    /// The device echoed the id back: the session is reconfirmed, with its
    /// expiry extended by the timeout window.
    Refreshed(FritzboxSession),
    /// Any other answer: fall back to the full login.
    FullLogin,
}

/// Digests the answer to the session-check request.
pub fn on_check_response(current: &FritzboxSession, status: u16, body: &str, now: u64) -> (r:
    CheckOutcome)
    requires
        now <= u64::MAX - SESSION_TIMEOUT_MS,
    ensures
        match sp_check_outcome(current.sid@, status, body@, now) {
            Some(sv) => r matches CheckOutcome::Refreshed(s) && s.sid@ == sv.0
                && s.valid_until == sv.1 && s.wf(),
            None => r matches CheckOutcome::FullLogin,
        },
{
    if status != 200 {
        return CheckOutcome::FullLogin;
    }
    match parse_session_info(body) {
        None => CheckOutcome::FullLogin,
        Some(info) => {
            if str_eq(info.sid.as_str(), current.sid.as_str()) && !str_eq(
                info.sid.as_str(),
                "0000000000000000",
            ) {
                CheckOutcome::Refreshed(
                    FritzboxSession { sid: info.sid, valid_until: now + SESSION_TIMEOUT_MS },
                )
            } else {
                CheckOutcome::FullLogin
            }
        },
    }
}

/// What the challenge request concludes: the response string to submit, or
/// the error of the failed step.
pub open spec fn sp_challenge_outcome(
    password: Seq<char>,
    status: u16,
    body: Seq<char>,
) -> Result<Seq<char>, AuthError> {
    if status != 200 {
        Err(AuthError::Transport)
    } else {
        match sp_session_info(body) {
            None => Err(AuthError::Decode),
            Some(p) => Ok(sp_response(p.1, password)),
        }
    }
}

/// Digests the answer to the challenge request: computes the response hash
/// to submit together with the username.
pub fn on_challenge_response(config: &FritzboxConfig, status: u16, body: &str) -> (r: Result<
    String,
    AuthError,
>)
    ensures
        match r {
            Ok(resp) => sp_challenge_outcome(config.password@, status, body@) == Ok::<
                Seq<char>,
                AuthError,
            >(resp@),
            Err(e) => sp_challenge_outcome(config.password@, status, body@) == Err::<
                Seq<char>,
                AuthError,
            >(e),
        },
{
    if status != 200 {
        return Err(AuthError::Transport);
    }
    match parse_session_info(body) {
        None => Err(AuthError::Decode),
        Some(info) => Ok(compute_response(info.challenge.as_str(), config.password.as_str())),
    }
}

/// What the final login step concludes: the issued session (id and expiry),
/// or the error of the failed step. The sentinel id is rejected, never
/// returned as a session.
pub open spec fn sp_login_outcome(status: u16, body: Seq<char>, now: u64) -> Result<
    (Seq<char>, u64),
    AuthError,
> {
    if status != 200 {
        Err(AuthError::Transport)
    } else {
        match sp_session_info(body) {
            None => Err(AuthError::Decode),
            Some(p) => if p.0 == sp_sentinel() {
                Err(AuthError::Rejected)
            } else {
                Ok((p.0, (now + SESSION_TIMEOUT_MS) as u64))
            },
        }
    }
}

/// Digests the answer to the login (response-submission) request.
pub fn on_login_response(status: u16, body: &str, now: u64) -> (r: Result<
    FritzboxSession,
    AuthError,
>)
    requires
        now <= u64::MAX - SESSION_TIMEOUT_MS,
    ensures
        match r {
            Ok(s) => sp_login_outcome(status, body@, now) == Ok::<(Seq<char>, u64), AuthError>(
                (s.sid@, s.valid_until),
            ) && s.wf(),
            Err(e) => sp_login_outcome(status, body@, now) == Err::<(Seq<char>, u64), AuthError>(
                e,
            ),
        },
{
    if status != 200 {
        return Err(AuthError::Transport);
    }
    match parse_session_info(body) {
        None => Err(AuthError::Decode),
        Some(info) => {
            if str_eq(info.sid.as_str(), "0000000000000000") {
                Err(AuthError::Rejected)
            } else {
                Ok(FritzboxSession { sid: info.sid, valid_until: now + SESSION_TIMEOUT_MS })
            }
        },
    }
}

/// Law: within its validity window the guard reuses the session unchanged —
/// at any instant before the expiry it decides `Reuse`, so two calls inside
/// the window both return the session as it is, with no network step.
pub proof fn lemma_session_reused_within_window(
    sid: Seq<char>,
    valid_until: u64,
    now1: u64,
    now2: u64,
)
    requires
        now1 < valid_until,
        now2 < valid_until,
    ensures
        sp_guard_choice(Some((sid, valid_until)), now1) == GuardChoice::Reuse,
        sp_guard_choice(Some((sid, valid_until)), now2) == GuardChoice::Reuse,
{
}

/// Law: the full login path is taken exactly when no session exists, and the
/// lightweight check falls back to it whenever the device answers with a
/// mismatched id or an unreadable document.
pub proof fn lemma_full_login_fallback(cur_sid: Seq<char>, status: u16, body: Seq<char>, now: u64)
    ensures
        sp_guard_choice(None, now) == GuardChoice::FullLogin,
        forall|cur: (Seq<char>, u64)| sp_guard_choice(Some(cur), now) != GuardChoice::FullLogin,
        (sp_session_info(body) matches Some(p) && p.0 != cur_sid) ==> sp_check_outcome(
            cur_sid,
            status,
            body,
            now,
        ) is None,
        sp_session_info(body) is None ==> sp_check_outcome(cur_sid, status, body, now) is None,
{
}

/// Law: the all-zero sentinel id never becomes a usable session. When the
/// final login step answers with it the outcome is `Rejected`; any session
/// either step does produce carries a different id.
pub proof fn lemma_sentinel_never_usable(
    cur_sid: Seq<char>,
    status: u16,
    body: Seq<char>,
    now: u64,
)
    ensures
        (status == 200 && (sp_session_info(body) matches Some(p) && p.0 == sp_sentinel()))
            ==> sp_login_outcome(status, body, now) == Err::<(Seq<char>, u64), AuthError>(
            AuthError::Rejected,
        ),
        sp_login_outcome(status, body, now) matches Ok(sv) ==> sv.0 != sp_sentinel(),
        sp_check_outcome(cur_sid, status, body, now) matches Some(sv) ==> sv.0 != sp_sentinel(),
{
}

} // verus!
