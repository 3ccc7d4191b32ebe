//! The identity gateway: the signed authentication request to the billing
//! service, its single retry on a gateway timeout, and the restrictive
//! fallback when no credentials can be had.
use vstd::prelude::*;
use base64::Engine;
use crate::text::{has_infix, contains};
use crate::eligibility::{HostCredentials, KycLevel};

verus! {

/// What the billing service's gateway answers when it timed out.
pub const GATEWAY_TIMEOUT_MARKER: &'static str = "error code: 504";

/// Name of the header that carries the signature of the request body.
pub const SIGNATURE_HEADER: &'static str = "X-Signature";

/// The standard, padded base64 text of `bytes`.
pub uninterp spec fn base64_standard(bytes: Seq<u8>) -> Seq<char>;

/// Relies on base64's `Engine::encode` with the `STANDARD` engine: padded
/// base64, four characters for each started group of three bytes. It panics
/// when that length overflows `usize`, which the bound rules out.
#[verifier::external_body]
fn base64_encode(bytes: &Vec<u8>) -> (r: String)
    requires
        bytes@.len() <= usize::MAX / 2,
    ensures
        r@ == base64_standard(bytes@),
        r@.len() == 4 * ((bytes@.len() + 2) / 3),
{
    base64::engine::general_purpose::STANDARD.encode(bytes)
}

/// The value of the signature header: the signature in standard base64.
pub fn signature_header_value(signature: &Vec<u8>) -> (r: String)
    requires
        signature@.len() <= usize::MAX / 2,
    ensures
        r@ == base64_standard(signature@),
        r@.len() == 4 * ((signature@.len() + 2) / 3),
{
    base64_encode(signature)
}

/// The body that the host signs to authenticate: the operator's email, the
/// time in milliseconds and the host's public key.
#[derive(Clone, Debug)]
pub struct AuthenticationBody {
    pub email: String,
    pub timestamp: i64,
    pub pub_key: String,
}

/// Where the authentication exchange stands.
#[derive(Clone, Copy, Debug, PartialEq, Eq, Structural)]
pub enum AuthState {
    /// The first request is out.
    FirstAttempt,
    /// The first request met a gateway timeout; the second is out.
    Retried,
}

/// What came back from a request.
#[derive(Clone, Debug)]
pub enum AuthEvent {
    /// A response, with its body text.
    Body(String),
    /// The request could not be built, signed or sent.
    Failed,
}

/// What to do next.
#[derive(Clone, Debug)]
pub enum AuthAction {
    /// Send the request again.
    Retry,
    /// Decode this body into the host's credentials.
    Decode(String),
    /// Give up and use the restrictive default credentials.
    UseDefault,
}

pub open spec fn is_gateway_timeout(body: Seq<char>) -> bool {
    has_infix(body, GATEWAY_TIMEOUT_MARKER@)
}

/// One step of the exchange: a body that reports a gateway timeout is
/// retried once, then given up on; any other body is decoded; a failed
/// request is given up on.
pub fn next_auth_step(state: AuthState, event: AuthEvent) -> (r: (AuthState, AuthAction))
    ensures
        match event {
            AuthEvent::Failed => r.0 == state && (r.1 matches AuthAction::UseDefault),
            AuthEvent::Body(b) => if is_gateway_timeout(b@) {
                match state {
                    AuthState::FirstAttempt => r.0 == AuthState::Retried && (r.1 matches AuthAction::Retry),
                    AuthState::Retried => r.0 == AuthState::Retried && (r.1 matches AuthAction::UseDefault),
                }
            } else {
                r.0 == state && (r.1 matches AuthAction::Decode(d) && d@ == b@)
            },
        },
{
    match event {
        AuthEvent::Failed => (state, AuthAction::UseDefault),
        AuthEvent::Body(b) => {
            if contains(b.as_str(), GATEWAY_TIMEOUT_MARKER) {
                match state {
                    AuthState::FirstAttempt => (AuthState::Retried, AuthAction::Retry),
                    AuthState::Retried => (AuthState::Retried, AuthAction::UseDefault),
                }
            } else {
                (state, AuthAction::Decode(b))
            }
        },
    }
}

/// The host's credentials: those decoded, or the restrictive default
/// (unverified, no jurisdiction) when none could be had.
pub fn credentials_or_default(decoded: Option<HostCredentials>) -> (r: HostCredentials)
    ensures
        match decoded {
            Some(c) => r == c,
            None => r.kyc == KycLevel::Level1 && r.jurisdiction.is_none() && r.access_token.is_none()
                && r.id.is_none(),
        },
{
    match decoded {
        Some(c) => c,
        None => HostCredentials::default(),
    }
}

} // verus!
