//! What goes on the wire: the address of a star request, the value of the
//! authorization header, and the reading of a status code.

use vstd::prelude::*;
use vstd::string::*;
use crate::error::StarError;

verus! {

/// The endpoint that lists the user's starred repositories and, with an
/// identifier behind it, stars one.
pub const STARRED_ENDPOINT: &'static str = "https://api.github.com/user/starred";

/// The address at which `repo` is starred: the endpoint, a slash, and the
/// identifier as it was given.
pub open spec fn star_url_of(base: Seq<char>, repo: Seq<char>) -> Seq<char> {
    base.push('/') + repo
}

/// Builds the address of the star request for one repository.
///
/// The identifier is not checked: a malformed one gives an address that the
/// service will turn down.
pub fn star_url(base: &str, repo: &str) -> (url: String)
    ensures
        url@ == star_url_of(base@, repo@),
{
    let mut url = base.to_owned();
    url.push('/');
    url.append(repo);
    url
}

/// Whether a status code reports success: the codes from 200 to 299 do.
pub open spec fn is_success_code(status: u16) -> bool {
    200 <= status < 300
}

/// Tells whether a status code reports success.
pub fn is_success(status: u16) -> (ok: bool)
    ensures
        ok == is_success_code(status),
{
    200 <= status && status < 300
}

/// Whether a byte may stand in the value of an HTTP header: the horizontal
/// tab, and every byte from the space upwards but the delete character.
pub open spec fn header_byte_ok(b: u8) -> bool {
    b >= 32 && b != 127 || b == 9
}

/// Whether every byte of a text may stand in the value of an HTTP header.
pub open spec fn header_text_ok(bytes: Seq<u8>) -> bool {
    forall|i: int| 0 <= i < bytes.len() ==> header_byte_ok(#[trigger] bytes[i])
}

/// The value of the authorization header for a token.
pub open spec fn authorization_of(token: Seq<char>) -> Seq<char> {
    "token "@ + token
}

/// Builds the value of the authorization header: the word `token`, a space,
/// and the token.
///
/// A token with a byte that no header value may carry is refused.
pub fn authorization_value(token: &str) -> (r: Result<String, StarError>)
    ensures
        match r {
            Ok(value) => header_text_ok(token.spec_bytes()) && value@ == authorization_of(token@),
            Err(e) => !header_text_ok(token.spec_bytes()) && e == StarError::AuthenticationFormat,
        },
{
    let bytes = token.as_bytes();
    let mut i: usize = 0;
    while i < bytes.len()
        invariant
            i <= bytes.len(),
            bytes@ == token.spec_bytes(),
            forall|k: int| 0 <= k < i ==> header_byte_ok(#[trigger] bytes[k]),
        decreases bytes.len() - i,
    {
        let b: u8 = bytes[i];
        if !(b >= 32 && b != 127 || b == 9) {
            return Err(StarError::AuthenticationFormat);
        }
        i += 1;
    }
    let mut value = "token ".to_owned();
    value.append(token);
    Ok(value)
}

} // verus!
