//! Building signed remote procedure calls ("zome calls"): a fresh nonce, an
//! expiration five minutes ahead, and the unsigned call body.
use vstd::prelude::*;
use crate::clock::{now_micros, spec_micros_of};

verus! {

/// Length of a call nonce in bytes.
pub const NONCE_LEN: usize = 32;

/// How long a signed call stays valid, in microseconds (five minutes).
pub const CALL_LIFETIME_MICROS: i64 = 300_000_000;

/// getrandom's error type, carried without looking inside.
#[verifier::external_type_specification]
#[verifier::external_body]
pub struct ExRandomError(getrandom::Error);

/// Relies on getrandom::getrandom: fills the buffer from the system's
/// random source, or reports an error.
#[verifier::external_body]
fn random_nonce_bytes() -> (r: Result<[u8; 32], getrandom::Error>) {
    let mut bytes = [0u8; 32];
    getrandom::getrandom(&mut bytes).map(|_| bytes)
}

/// Why a call could not be built, signed, sent or read back.
#[derive(Clone, Debug, PartialEq, Eq, Structural)]
pub enum CallError {
    /// The random source failed.
    Randomness,
    /// The expiration does not fit in a timestamp.
    ClockOverflow,
    /// The system clock reads before the Unix epoch.
    ClockUnavailable,
    /// The keystore was unreachable or refused to sign.
    SigningError,
    /// The channel to the conductor failed.
    TransportError,
    /// The peer answered with an error frame.
    RemoteError,
    /// The peer answered with something other than a call result.
    UnexpectedResponse,
    /// The response payload did not decode to the expected type.
    DeserializationError,
}

/// The expiration of a call made at `now_micros`, if it fits.
pub open spec fn spec_expiry(now_micros: i64) -> Option<i64> {
    if now_micros + CALL_LIFETIME_MICROS <= i64::MAX {
        Some((now_micros + CALL_LIFETIME_MICROS) as i64)
    } else {
        None
    }
}

/// The expiration of a call made at `now_micros`: five minutes later.
pub fn call_expiry(now_micros: i64) -> (r: Result<i64, CallError>)
    ensures
        r == (match spec_expiry(now_micros) {
            Some(e) => Ok(e),
            None => Err(CallError::ClockOverflow),
        }),
{
    if now_micros > i64::MAX - CALL_LIFETIME_MICROS {
        Err(CallError::ClockOverflow)
    } else {
        Ok(now_micros + CALL_LIFETIME_MICROS)
    }
}

/// Pairs random bytes drawn for a call at `now_micros` with the call's
/// expiration.
pub fn nonce_at(bytes: [u8; 32], now_micros: i64) -> (r: Result<([u8; 32], i64), CallError>)
    ensures
        r == (match spec_expiry(now_micros) {
            Some(e) => Ok((bytes, e)),
            None => Err(CallError::ClockOverflow),
        }),
{
    match call_expiry(now_micros) {
        Ok(e) => Ok((bytes, e)),
        Err(err) => Err(err),
    }
}

/// A fresh nonce from the system's random source and an expiration five
/// minutes after the current time.
pub fn fresh_nonce() -> (r: Result<([u8; 32], i64), CallError>)
    ensures
        r matches Ok((_, e)) ==> exists|s: u64, n: u32, t: i64|
            n < 1_000_000_000 && spec_micros_of(Some((s, n))) == Some(t) && spec_expiry(t) == Some(
                e,
            ),
        r matches Err(e) ==> (e == CallError::Randomness || e == CallError::ClockOverflow || e
            == CallError::ClockUnavailable),
{
    match random_nonce_bytes() {
        Ok(bytes) => match now_micros() {
            Some(now) => nonce_at(bytes, now),
            None => Err(CallError::ClockUnavailable),
        },
        Err(_) => Err(CallError::Randomness),
    }
}

/// A cell of the conductor: the hash of its DNA and the agent's key.
#[derive(Clone, Debug)]
pub struct CellId {
    pub dna_hash: Vec<u8>,
    pub agent_pubkey: Vec<u8>,
}

/// What the conductor reports of one cell of a role.
#[derive(Clone, Debug)]
pub enum CellInfo {
    Provisioned(CellId),
    Cloned(CellId),
    Stem,
}

/// Why the cell of a role could not be taken.
#[derive(Clone, Copy, Debug, PartialEq, Eq, Structural)]
pub enum CellError {
    /// The application has no cell for the role.
    RoleMissing,
    /// The role's first cell is not a provisioned one.
    NotProvisioned,
}

/// The cell to call for a role, from the role's cells as the application
/// info lists them: the first one, which must be provisioned.
pub fn provisioned_cell(role_cells: Option<&Vec<CellInfo>>) -> (r: Result<CellId, CellError>)
    ensures
        match role_cells {
            None => r == Err::<CellId, CellError>(CellError::RoleMissing),
            Some(cells) => if cells@.len() == 0 {
                r == Err::<CellId, CellError>(CellError::RoleMissing)
            } else {
                match cells@[0] {
                    CellInfo::Provisioned(c) => r matches Ok(id) && id.dna_hash@ == c.dna_hash@
                        && id.agent_pubkey@ == c.agent_pubkey@,
                    _ => r == Err::<CellId, CellError>(CellError::NotProvisioned),
                }
            },
        },
{
    match role_cells {
        None => Err(CellError::RoleMissing),
        Some(cells) => {
            if cells.len() == 0 {
                Err(CellError::RoleMissing)
            } else {
                match &cells[0] {
                    CellInfo::Provisioned(c) => Ok(
                        CellId { dna_hash: c.dna_hash.clone(), agent_pubkey: c.agent_pubkey.clone() },
                    ),
                    _ => Err(CellError::NotProvisioned),
                }
            }
        },
    }
}

/// The body of a call, before it is signed.
#[derive(Clone, Debug)]
pub struct ZomeCallUnsigned {
    pub cell_id: CellId,
    pub zome_name: String,
    pub fn_name: String,
    pub payload: Vec<u8>,
    pub cap_secret: Option<Vec<u8>>,
    pub provenance: Vec<u8>,
    pub nonce: [u8; 32],
    pub expires_at: i64,
}

/// The unsigned body of a call to `fn_name` in `zome_name` of `cell`, with
/// an already encoded payload: the caller is the cell's agent, and no
/// capability secret is attached.
pub fn unsigned_call(
    cell: &CellId,
    zome_name: String,
    fn_name: String,
    payload: Vec<u8>,
    nonce: [u8; 32],
    expires_at: i64,
) -> (r: ZomeCallUnsigned)
    ensures
        r.cell_id.dna_hash@ == cell.dna_hash@,
        r.cell_id.agent_pubkey@ == cell.agent_pubkey@,
        r.zome_name@ == zome_name@,
        r.fn_name@ == fn_name@,
        r.payload@ == payload@,
        r.cap_secret.is_none(),
        r.provenance@ == cell.agent_pubkey@,
        r.nonce == nonce,
        r.expires_at == expires_at,
{
    ZomeCallUnsigned {
        cell_id: CellId { dna_hash: cell.dna_hash.clone(), agent_pubkey: cell.agent_pubkey.clone() },
        zome_name,
        fn_name,
        payload,
        cap_secret: None,
        provenance: cell.agent_pubkey.clone(),
        nonce,
        expires_at,
    }
}

/// An unsigned call with a fresh nonce that expires five minutes from now.
pub fn build_zome_call(cell: &CellId, zome_name: String, fn_name: String, payload: Vec<u8>) -> (r:
    Result<ZomeCallUnsigned, CallError>)
    ensures
        r matches Ok(c) ==> {
            &&& c.cell_id.dna_hash@ == cell.dna_hash@
            &&& c.provenance@ == cell.agent_pubkey@
            &&& c.zome_name@ == zome_name@
            &&& c.fn_name@ == fn_name@
            &&& c.payload@ == payload@
            &&& c.cap_secret.is_none()
            &&& exists|s: u64, n: u32, t: i64|
                n < 1_000_000_000 && spec_micros_of(Some((s, n))) == Some(t) && spec_expiry(t)
                    == Some(c.expires_at)
        },
        r matches Err(e) ==> (e == CallError::Randomness || e == CallError::ClockOverflow || e
            == CallError::ClockUnavailable),
{
    match fresh_nonce() {
        Ok((nonce, expires_at)) => Ok(unsigned_call(cell, zome_name, fn_name, payload, nonce, expires_at)),
        Err(e) => Err(e),
    }
}

/// What the conductor's application interface answered to a call.
#[derive(Clone, Debug)]
pub enum AppResponse {
    /// The call ran; its result, still encoded.
    ZomeCalled(Vec<u8>),
    /// The peer reported an error.
    Error(String),
    /// Any other answer, described.
    Other(String),
}

/// The encoded result of a call, or the error that the answer stands for.
pub fn zome_call_result(response: AppResponse) -> (r: Result<Vec<u8>, CallError>)
    ensures
        match response {
            AppResponse::ZomeCalled(bytes) => r matches Ok(b) && b@ == bytes@,
            AppResponse::Error(_) => r == Err::<Vec<u8>, CallError>(CallError::RemoteError),
            AppResponse::Other(_) => r == Err::<Vec<u8>, CallError>(CallError::UnexpectedResponse),
        },
{
    match response {
        AppResponse::ZomeCalled(bytes) => Ok(bytes),
        AppResponse::Error(_) => Err(CallError::RemoteError),
        AppResponse::Other(_) => Err(CallError::UnexpectedResponse),
    }
}

} // verus!
