//! The authorization check on the write path: uploads are accepted only
//! when the `Authorization` header is present and equals the configured
//! secret exactly, byte for byte. Reads are public and never pass here.
use vstd::prelude::*;
use vstd::string::StringExecFns;

verus! {

/// Why authorization refused a request: the header was absent, or present with
/// a value other than the secret. Both answer 401 outside; they are kept
/// apart for logging.
#[derive(Clone, Copy, Debug, PartialEq, Eq, Structural)]
pub enum AuthorizationError {
    Missing,
    Invalid,
}

/// Evidence of a passed authorization check, carrying the presented key.
pub struct Authorization(pub String);

/// Whether a presented header value authorizes a write for the given secret.
pub open spec fn authorized(header: Option<Seq<char>>, secret: Seq<char>) -> bool {
    header matches Some(h) && h == secret
}

/// The check itself: succeed if and only if the header is present and equals
/// the secret exactly; a missing header and a wrong value are told apart.
pub fn check_authorization(header: Option<&str>, secret: &str) -> (r: Result<
    Authorization,
    AuthorizationError,
>)
    ensures
        r is Ok <==> authorized(
            match header {
                Some(h) => Some(h@),
                None => None,
            },
            secret@,
        ),
        r matches Ok(a) ==> a.0@ == secret@,
        header is None ==> r == Result::<Authorization, AuthorizationError>::Err(
            AuthorizationError::Missing,
        ),
        (header matches Some(h) && h@ != secret@) ==> r == Result::<
            Authorization,
            AuthorizationError,
        >::Err(AuthorizationError::Invalid),
{
    match header {
        Some(h) => {
            let presented = String::from_str(h);
            let expected = String::from_str(secret);
            if presented == expected {
                Ok(Authorization(presented))
            } else {
                Err(AuthorizationError::Invalid)
            }
        },
        None => Err(AuthorizationError::Missing),
    }
}

} // verus!
