//! Authentication on protected routes: the bearer token from the
//! `X-API-Key` header must resolve to a record that is active and not
//! expired. Failures expose only a coarse category and a short message —
//! never enough detail to act as an oracle — and a successful check has no
//! side effects.

use vstd::prelude::*;

use crate::keys::ApiKey;
use crate::keys::KeyStore;
use crate::keys::deactivated;
use crate::keys::find_token;
use crate::keys::lemma_find_token_deactivate;
use crate::keys::lemma_find_token_push;
use crate::keys::register_step;

verus! {

#[derive(PartialEq, Eq, Structural, Clone, Copy, Debug)]
pub enum AuthError {
    MissingApiKey,
    InvalidApiKey,
    ExpiredApiKey,
    InternalError,
}

impl AuthError {
    pub open spec fn spec_error_code(self) -> int {
        match self {
            AuthError::MissingApiKey => -32003,
            AuthError::InvalidApiKey => -32003,
            AuthError::ExpiredApiKey => -32003,
            AuthError::InternalError => -32603,
        }
    }

    pub fn error_code(&self) -> (r: i64)
        ensures
            r == self.spec_error_code(),
    {
        match self {
            AuthError::MissingApiKey => -32003,
            AuthError::InvalidApiKey => -32003,
            AuthError::ExpiredApiKey => -32003,
            AuthError::InternalError => -32603,
        }
    }

    pub open spec fn spec_status_code(self) -> u16 {
        match self {
            AuthError::InternalError => 500,
            _ => 401,
        }
    }

    pub fn status_code(&self) -> (r: u16)
        ensures
            r == self.spec_status_code(),
    {
        match self {
            AuthError::MissingApiKey => 401,
            AuthError::InvalidApiKey => 401,
            AuthError::ExpiredApiKey => 401,
            AuthError::InternalError => 500,
        }
    }

    pub open spec fn spec_message(self) -> Seq<char> {
        match self {
            AuthError::MissingApiKey => "Missing API Key. Include 'X-API-Key' header."@,
            AuthError::InvalidApiKey => "Invalid API Key"@,
            AuthError::ExpiredApiKey => "API Key has expired"@,
            AuthError::InternalError => "Internal server error"@,
        }
    }

    pub fn message(&self) -> (r: &'static str)
        ensures
            r@ == self.spec_message(),
    {
        match self {
            AuthError::MissingApiKey => "Missing API Key. Include 'X-API-Key' header.",
            AuthError::InvalidApiKey => "Invalid API Key",
            AuthError::ExpiredApiKey => "API Key has expired",
            AuthError::InternalError => "Internal server error",
        }
    }
}

/// The judgement on a looked-up record: an unknown token is invalid, a
/// known one must be active and unexpired.
pub open spec fn spec_check_record(rec: Option<ApiKey>, now: int) -> Result<(), AuthError> {
    match rec {
        None => Err(AuthError::InvalidApiKey),
        Some(k) => if k.spec_valid(now) {
            Ok(())
        } else {
            Err(AuthError::ExpiredApiKey)
        },
    }
}

/// Judges the outcome of a token lookup at `now`.
pub fn check_record(rec: Option<&ApiKey>, now: i64) -> (r: Result<(), AuthError>)
    ensures
        r == spec_check_record(
            match rec {
                Some(k) => Some(*k),
                None => None,
            },
            now as int,
        ),
{
    match rec {
        None => Err(AuthError::InvalidApiKey),
        Some(k) => if k.is_valid(now) {
            Ok(())
        } else {
            Err(AuthError::ExpiredApiKey)
        },
    }
}

/// The whole gate: a request without a token is missing, one whose token
/// resolves to no record invalid, one whose record fails validity expired.
pub open spec fn spec_authenticate(s: Seq<ApiKey>, token: Option<Seq<char>>, now: int) -> Result<
    (),
    AuthError,
> {
    match token {
        None => Err(AuthError::MissingApiKey),
        Some(t) => spec_check_record(find_token(s, t), now),
    }
}

/// Authenticates a request token against the store at `now`.
pub fn authenticate(store: &KeyStore, token: Option<&String>, now: i64) -> (r: Result<
    (),
    AuthError,
>)
    ensures
        r == spec_authenticate(
            store@,
            match token {
                Some(t) => Some(t@),
                None => None,
            },
            now as int,
        ),
{
    match token {
        None => Err(AuthError::MissingApiKey),
        Some(t) => check_record(store.find_by_api_key(t), now),
    }
}

/// Issuing a second key for a device revokes the first: after the two
/// issuances, authentication with the first token is rejected (its record
/// is still found, but no longer active) and the second token — valid at
/// `now` — is accepted. Both tokens are assumed fresh to the store and
/// distinct, as randomly drawn tokens are.
pub proof fn lemma_reregistration_revokes(s: Seq<ApiKey>, k1: ApiKey, k2: ApiKey, now: int)
    requires
        k1.device_id@ == k2.device_id@,
        k1.api_key@ != k2.api_key@,
        find_token(s, k1.api_key@) is None,
        find_token(s, k2.api_key@) is None,
        k2.spec_valid(now),
    ensures
        spec_authenticate(register_step(register_step(s, k1), k2), Some(k1.api_key@), now) == Err::<
            (),
            AuthError,
        >(AuthError::ExpiredApiKey),
        spec_authenticate(register_step(register_step(s, k1), k2), Some(k2.api_key@), now) == Ok::<
            (),
            AuthError,
        >(()),
{
    let dev = k2.device_id@;
    let s1 = register_step(s, k1);
    lemma_find_token_deactivate(s, dev, k1.api_key@);
    lemma_find_token_push(crate::keys::deactivate_device(s, dev), k1, k1.api_key@);
    lemma_find_token_deactivate(s1, dev, k1.api_key@);
    lemma_find_token_push(crate::keys::deactivate_device(s1, dev), k2, k1.api_key@);
    assert(!deactivated(k1).spec_valid(now));
    lemma_find_token_deactivate(s, dev, k2.api_key@);
    lemma_find_token_push(crate::keys::deactivate_device(s, dev), k1, k2.api_key@);
    lemma_find_token_deactivate(s1, dev, k2.api_key@);
    lemma_find_token_push(crate::keys::deactivate_device(s1, dev), k2, k2.api_key@);
}

} // verus!
