//! How the answer of a provider is classed before the login attempt sees it.

use vstd::prelude::*;
use crate::errors::{MsaAuthorizationError, XboxAuthenticateError};
use crate::models::{text_of, MsaTokens};

verus! {

/// The HTTP status of an answer that can be read for its tokens.
pub const HTTP_OK: u16 = 200;

/// Classes the HTTP status of an answer of Xbox Live or the game service:
/// every status but OK is a failure that carries the status.
pub fn check_status(status: u16) -> (checked: Result<(), XboxAuthenticateError>)
    ensures
        checked == if status == HTTP_OK {
            Ok::<(), XboxAuthenticateError>(())
        } else {
            Err::<(), XboxAuthenticateError>(XboxAuthenticateError::NonOkHttpStatus(status))
        },
{
    if status == HTTP_OK {
        Ok(())
    } else {
        Err(XboxAuthenticateError::NonOkHttpStatus(status))
    }
}

/// Classes the answer to the redeeming of a refresh token: an invalid grant
/// is no failure of the call, it means that there are no tokens to be had for
/// this refresh token. Every other failure stays one.
pub fn refresh_outcome(answer: Result<MsaTokens, MsaAuthorizationError>) -> (classed: Result<
    Option<MsaTokens>,
    MsaAuthorizationError,
>)
    ensures
        classed == match answer {
            Ok(tokens) => Ok::<Option<MsaTokens>, MsaAuthorizationError>(Some(tokens)),
            Err(MsaAuthorizationError::InvalidGrant) => Ok::<
                Option<MsaTokens>,
                MsaAuthorizationError,
            >(None),
            Err(error) => Err::<Option<MsaTokens>, MsaAuthorizationError>(error),
        },
{
    match answer {
        Ok(tokens) => Ok(Some(tokens)),
        Err(MsaAuthorizationError::InvalidGrant) => Ok(None),
        Err(error) => Err(error),
    }
}

/// The refusal that the token endpoint gave with `error_code` in its
/// answer, or with no code that could be read and the HTTP status `status`.
pub open spec fn refusal_of(status: u16, error_code: Option<Seq<char>>) -> MsaAuthorizationError {
    match error_code {
        Some(code) => if code == "invalid_grant"@ {
            MsaAuthorizationError::InvalidGrant
        } else {
            MsaAuthorizationError::Rejected
        },
        None => MsaAuthorizationError::NonOkHttpStatus(status),
    }
}

/// Classes an answer of the token endpoint that granted nothing: by the
/// error code that the answer names, else by its HTTP status.
pub fn token_refusal(status: u16, error_code: &Option<String>) -> (refusal: MsaAuthorizationError)
    ensures
        refusal == refusal_of(status, text_of(*error_code)),
{
    match error_code {
        Some(code) => {
            let invalid_grant = String::from_str("invalid_grant");
            if *code == invalid_grant {
                MsaAuthorizationError::InvalidGrant
            } else {
                MsaAuthorizationError::Rejected
            }
        },
        None => MsaAuthorizationError::NonOkHttpStatus(status),
    }
}

/// `at` is the place of the first claim that carries a userhash.
pub open spec fn is_first_userhash(claims: Seq<Option<String>>, at: int) -> bool {
    &&& 0 <= at < claims.len()
    &&& claims[at] is Some
    &&& forall|j: int| 0 <= j < at ==> claims[j] is None
}

/// Takes the userhash out of the claims of an answer of Xbox Live, each
/// given by the userhash that it carries, if it carries one: the first
/// userhash counts. An answer without one cannot be used.
pub fn userhash_of(claims: &Vec<Option<String>>) -> (found: Result<String, XboxAuthenticateError>)
    ensures
        match found {
            Ok(userhash) => exists|at: int|
                #[trigger] is_first_userhash(claims@, at) && claims@[at] == Some(userhash),
            Err(error) => error == XboxAuthenticateError::MissingUserhash && forall|j: int|
                0 <= j < claims@.len() ==> claims@[j] is None,
        },
{
    let mut at: usize = 0;
    while at < claims.len()
        invariant
            at <= claims@.len(),
            forall|j: int| 0 <= j < at ==> claims@[j] is None,
        decreases claims@.len() - at,
    {
        if let Some(userhash) = &claims[at] {
            assert(is_first_userhash(claims@, at as int));
            return Ok(userhash.clone());
        }
        at += 1;
    }
    Err(XboxAuthenticateError::MissingUserhash)
}

} // verus!
