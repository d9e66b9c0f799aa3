//! Who may have the answer to a request.
//!
//! A few paths are open to everyone. Every other path asks for an identity
//! token in the `authorization` header, which the issuer of the token has to
//! confirm.

use vstd::prelude::*;
use vstd::string::StringExecFns;
use crate::text::same_text;

verus! {

/// The paths that are served without a token.
pub open spec fn open_path(path: Seq<char>) -> bool {
    ||| path == "/"@
    ||| path == "/currencies"@
    ||| path == "/script.js"@
    ||| path == "/main.js"@
    ||| path == "/diesel.png"@
    ||| path == "/paypal.webp"@
}

/// Where the issuer confirms the token `id_token`.
pub open spec fn token_info(id_token: Seq<char>) -> Seq<char> {
    "https://oauth2.googleapis.com/tokeninfo?id_token="@ + id_token
}

/// What is decided when a request comes in.
#[derive(Debug)]
pub enum Admission {
    /// The path is open: the answer goes out.
    Open,
    /// The token has to be confirmed at `url` first.
    Verify { url: String },
    /// The request has no `authorization` header and is refused as a bad
    /// request.
    NoHeader,
}

/// What the requester gets.
#[derive(Clone, Copy, Debug, PartialEq, Eq, Structural)]
pub enum Verdict {
    /// The answer.
    Pass,
    /// A refusal: the token was not confirmed.
    Unauthorized,
}

/// Whether `path` is served without a token.
pub fn is_open_path(path: &str) -> (open: bool)
    ensures
        open == open_path(path@),
{
    same_text(path, "/") || same_text(path, "/currencies") || same_text(path, "/script.js")
        || same_text(path, "/main.js") || same_text(path, "/diesel.png") || same_text(
        path,
        "/paypal.webp",
    )
}

/// The address at which the issuer confirms `id_token`.
pub fn token_info_url(id_token: &str) -> (url: String)
    ensures
        url@ == token_info(id_token@),
{
    String::from_str("https://oauth2.googleapis.com/tokeninfo?id_token=").concat(id_token)
}

/// Decides on a request by its path and its `authorization` header.
pub fn decide(path: &str, authorization: Option<&str>) -> (admission: Admission)
    ensures
        open_path(path@) ==> admission is Open,
        !open_path(path@) ==> match authorization {
            Some(token) => admission matches Admission::Verify { url } && url@ == token_info(
                token@,
            ),
            None => admission is NoHeader,
        },
{
    if is_open_path(path) {
        Admission::Open
    } else {
        match authorization {
            Some(token) => Admission::Verify { url: token_info_url(token) },
            None => Admission::NoHeader,
        }
    }
}

/// The text of an optional address, empty where there is none.
pub open spec fn address_or_empty(email: Option<&str>) -> Seq<char> {
    match email {
        Some(address) => address@,
        None => Seq::empty(),
    }
}

/// The greeting for `name`, with the address the request names, if any.
pub fn greeting(name: &str, email: Option<&str>) -> (text: String)
    ensures
        text@ == "OK, "@ + name@ + ", "@ + address_or_empty(email) + "!"@,
{
    let start = String::from_str("OK, ").concat(name).concat(", ");
    let with_address = match email {
        Some(address) => start.concat(address),
        None => {
            assert(start@ + Seq::<char>::empty() =~= start@);
            start
        },
    };
    with_address.concat("!")
}

/// Decides on a request whose token was sent to the issuer. `status` is the
/// status code of the issuer's answer, or `None` where the issuer could not
/// be reached. Only status 200 confirms the token.
pub fn judge(status: Option<u16>) -> (verdict: Verdict)
    ensures
        verdict == if status == Some(200u16) {
            Verdict::Pass
        } else {
            Verdict::Unauthorized
        },
{
    match status {
        Some(code) => if code == 200 {
            Verdict::Pass
        } else {
            Verdict::Unauthorized
        },
        None => Verdict::Unauthorized,
    }
}

} // verus!
