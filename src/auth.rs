//! The key check in front of the generation route: the credential that a caller
//! presents in the `X-API-Key` header, held against the server's secret.

use vstd::prelude::*;
use crate::http::Status;

verus! {

/// The name of the header that carries the caller's credential.
pub open spec fn api_key_header() -> Seq<char> {
    "X-API-Key"@
}

/// Why a request was refused by the key check.
#[derive(Clone, Copy, Debug, PartialEq, Eq, Structural)]
pub enum ApiKeyError {
    /// No credential was presented.
    Missing,
    /// A credential was presented and it is not the secret.
    Invalid,
}

/// A credential that matched the secret; holding one is what lets the
/// generation handler run.
#[derive(Clone, Debug)]
pub struct ApiKey {
    pub key: String,
}

/// Whether two texts are equal, character for character.
pub fn same_text(a: &str, b: &str) -> (r: bool)
    ensures
        r == (a@ == b@),
{
    let n = a.unicode_len();
    if n != b.unicode_len() {
        return false;
    }
    // Every position is examined, so the time taken does not reveal where
    // the first difference lies.
    let mut equal = true;
    let mut i: usize = 0;
    while i < n
        invariant
            n == a@.len(),
            n == b@.len(),
            i <= n,
            equal == (forall|j: int| 0 <= j < i ==> a@[j] == b@[j]),
        decreases n - i,
    {
        let same = a.get_char(i) == b.get_char(i);
        equal = equal && same;
        i = i + 1;
    }
    if equal {
        assert(a@ =~= b@);
    }
    equal
}

/// The decision on a presented credential: `Ok` with the credential
/// when it equals the secret, else the status and the reason to refuse.
pub open spec fn key_verdict(presented: Option<Seq<char>>, secret: Seq<char>) -> Result<
    Seq<char>,
    (Status, ApiKeyError),
> {
    match presented {
        None => Err((Status::BadRequest, ApiKeyError::Missing)),
        Some(k) => if k == secret {
            Ok(k)
        } else {
            Err((Status::Unauthorized, ApiKeyError::Invalid))
        },
    }
}

impl ApiKey {
    /// Decides on the credential `presented` in the request (`None` when the
    /// header is absent) against `secret`: a missing credential is refused
    /// with 400, a wrong one with 401.
    pub fn from_request(presented: Option<&str>, secret: &str) -> (r: Result<
        ApiKey,
        (Status, ApiKeyError),
    >)
        ensures
            match (r, presented) {
                (Ok(k), Some(p)) => key_verdict(Some(p@), secret@) == Ok::<Seq<char>, (Status, ApiKeyError)>(k.key@),
                (Err(e), Some(p)) => key_verdict(Some(p@), secret@) == Err::<Seq<char>, (Status, ApiKeyError)>(e),
                (Ok(_), None) => false,
                (Err(e), None) => key_verdict(None, secret@) == Err::<Seq<char>, (Status, ApiKeyError)>(e),
            },
    {
        match presented {
            None => Err((Status::BadRequest, ApiKeyError::Missing)),
            Some(key) => {
                if same_text(key, secret) {
                    Ok(ApiKey { key: key.to_string() })
                } else {
                    Err((Status::Unauthorized, ApiKeyError::Invalid))
                }
            },
        }
    }
}

} // verus!
