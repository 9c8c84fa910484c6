//! Identity extraction: verify the bearer token from the `x-tapis-token`
//! header against the configured RSA public key and extract the caller's
//! subject.

use vstd::prelude::*;

verus! {

use crate::representations::{ApiError, ErrorKind};
use jwt_simple::algorithms::RSAPublicKeyLike;

/// `jwt_simple::algorithms::RS256PublicKey`, the configured verification
/// key; opaque to the library and carried through unchanged.
#[verifier::external_type_specification]
#[verifier::external_body]
pub struct ExRS256PublicKey(jwt_simple::algorithms::RS256PublicKey);

/// Verify a compact RS256 JWS against the key and hand back the `sub`
/// claim.
///
/// Relies on `jwt_simple`'s `RSAPublicKeyLike::verify_token` (as implemented
/// for `RS256PublicKey`) and on `JWTClaims::subject` holding the `sub`
/// claim. Verification enforces expiry against the clock, so nothing is
/// promised of the outcome.
#[verifier::external_body]
fn verify_token_subject(pub_key: &jwt_simple::algorithms::RS256PublicKey, token: &str) -> Result<
    Option<String>,
    String,
> {
    match pub_key.verify_token::<jwt_simple::claims::NoCustomClaims>(token, None) {
        Ok(claims) => Ok(claims.subject),
        Err(error) => Err(format!("Error parsing token for claims; err: {}", error)),
    }
}

/// Classify what verification handed back: a verified subject passes
/// through, a missing subject claim and a failed verification are both
/// invalid-token failures.
pub fn subject_of_verification(outcome: Result<Option<String>, String>) -> (r: Result<
    String,
    ApiError,
>)
    ensures
        outcome matches Ok(Some(s)) ==> r == Ok::<String, ApiError>(s),
        outcome matches Ok(None) ==> {
            &&& r is Err
            &&& r->Err_0.kind == ErrorKind::AuthInvalid
            &&& r->Err_0.message@ == "token claims did not have a subject!"@
        },
        outcome matches Err(m) ==> {
            &&& r is Err
            &&& r->Err_0.kind == ErrorKind::AuthInvalid
            &&& r->Err_0.message@ == m@
        },
{
    match outcome {
        Ok(Some(sub)) => Ok(sub),
        Ok(None) => Err(
            ApiError::new(
                ErrorKind::AuthInvalid,
                String::from_str("token claims did not have a subject!"),
            ),
        ),
        Err(message) => Err(ApiError::new(ErrorKind::AuthInvalid, message)),
    }
}

/// Resolve the caller's subject from the token header value, if one came
/// with the request: an absent header is `AuthMissing`, and every
/// verification failure is `AuthInvalid`.
pub fn get_subject_of_request(
    token: Option<&str>,
    pub_key: &jwt_simple::algorithms::RS256PublicKey,
) -> (r: Result<String, ApiError>)
    ensures
        token is None <==> (r is Err && r->Err_0.kind == ErrorKind::AuthMissing),
        token is None ==> r->Err_0.message@ == "no tapis token header found"@,
        r matches Err(e) ==> (e.kind == ErrorKind::AuthMissing || e.kind
            == ErrorKind::AuthInvalid),
{
    match token {
        None => Err(
            ApiError::new(
                ErrorKind::AuthMissing,
                String::from_str("no tapis token header found"),
            ),
        ),
        Some(tok) => subject_of_verification(verify_token_subject(pub_key, tok)),
    }
}

} // verus!
