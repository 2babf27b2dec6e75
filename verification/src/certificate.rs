//! Talking to the certificate authority: what is sent, and what its answer means.
//!
//! The caller performs the HTTP exchange. The library builds the request
//! from the key and reads the outcome from the status code and the body.

use crate::error::{Error, ErrorView};
use crate::text::{decimal, decimal_text, join};
use crate::trust::Role;
use base64::Engine;
use vstd::prelude::*;
use vstd::utf8::encode_utf8;

verus! {

/// The standard base64 text, with padding, of a sequence of bytes.
pub uninterp spec fn base64_text(bytes: Seq<u8>) -> Seq<char>;

/// Encodes `bytes` with `Engine::encode` of base64's `STANDARD` engine.
/// The contract only names the text; the bound keeps its length, four
/// characters for every three bytes begun, within `usize`, beyond which the
/// engine panics.
#[verifier::external_body]
fn encode_base64(bytes: &[u8]) -> (r: String)
    requires
        bytes@.len() / 3 * 4 + 4 <= usize::MAX,
    ensures
        r@ == base64_text(bytes@),
{
    base64::engine::general_purpose::STANDARD.encode(bytes)
}

/// What is sent to the authority to have a public key signed.
#[derive(Debug, PartialEq, Eq)]
pub struct CertificateRequest {
    /// The public key, in base64.
    pub public_key: String,
    /// For whom the certificate is.
    pub identity: String,
    /// Whether it is a host certificate rather than a user certificate.
    pub is_host: bool,
    /// The identity provider that vouches for `identity`.
    pub provider: String,
}

/// Whether an HTTP status code is in the 2xx class.
pub open spec fn is_success(status: u16) -> bool {
    200 <= status < 300
}

/// Whether an HTTP status code is in the 2xx class.
pub fn status_is_success(status: u16) -> (r: bool)
    ensures
        r == is_success(status),
{
    200 <= status && status < 300
}

/// Whether `public_key` is short enough for its base64 text to have a
/// length: [`request_certificate`] asks for this.
pub fn fits_base64(public_key: &str) -> (r: bool)
    ensures
        r == (encode_utf8(public_key@).len() / 3 * 4 + 4 <= usize::MAX),
{
    let bytes = public_key.as_bytes();
    bytes.len() / 3 <= (usize::MAX - 4) / 4
}

/// The request that asks for a certificate over `public_key`. The key
/// travels as the base64 text of its bytes in UTF-8; the rest is passed on
/// as given.
pub fn request_certificate(
    public_key: String,
    is_host: bool,
    identity: String,
    provider: String,
) -> (r: CertificateRequest)
    requires
        encode_utf8(public_key@).len() / 3 * 4 + 4 <= usize::MAX,
    ensures
        r.public_key@ == base64_text(encode_utf8(public_key@)),
        r.identity@ == identity@,
        r.is_host == is_host,
        r.provider@ == provider@,
{
    let encoded = encode_base64(public_key.as_str().as_bytes());
    CertificateRequest { public_key: encoded, identity, is_host, provider }
}

/// The address at which the authority `base` signs keys.
pub fn enrollment_url(base: &str) -> (r: String)
    ensures
        r@ == base@ + "/handle-post"@,
{
    join(base, "/handle-post")
}

/// The value of the `Authorization` header for the bearer credential `token`.
pub fn authorization_header(token: &str) -> (r: String)
    ensures
        r@ == "Bearer "@ + token@,
{
    join("Bearer ", token)
}

/// The name under which the authority publishes its signing key for `role`.
pub open spec fn signing_key_file(role: Role) -> Seq<char> {
    match role {
        Role::User => "user-sign-key.pub"@,
        Role::Host => "host-sign-key.pub"@,
    }
}

/// The name under which the authority publishes its signing key for `role`.
pub fn signing_key_name(role: Role) -> (r: String)
    ensures
        r@ == signing_key_file(role),
{
    match role {
        Role::User => String::from_str("user-sign-key.pub"),
        Role::Host => String::from_str("host-sign-key.pub"),
    }
}

/// The address at which the authority `base` publishes its signing key for `role`.
pub fn signing_key_url(base: &str, role: Role) -> (r: String)
    ensures
        r@ == base@ + "/public/"@ + signing_key_file(role),
{
    let name = signing_key_name(role);
    join(base, "/public/").concat(name.as_str())
}

/// What the authority's answer to a certificate request means: with a 2xx
/// status the body is the certificate, as it came; with any other status
/// the request was rejected, and the body says why.
pub open spec fn certificate_result(status: u16, body: Seq<char>) -> Result<Seq<char>, ErrorView> {
    if is_success(status) {
        Ok(body)
    } else {
        Err(ErrorView::RemoteRejected("Failed to fetch certificate: "@ + body))
    }
}

/// What the authority's answer to a request for its signing key means: with
/// a 2xx status the body is the key, as it came; with any other status the
/// failure names the status, by its number and then by `reason`, the phrase
/// that goes with it.
pub open spec fn signing_key_result(status: u16, reason: Seq<char>, body: Seq<char>) -> Result<
    Seq<char>,
    ErrorView,
> {
    if is_success(status) {
        Ok(body)
    } else {
        Err(
            ErrorView::RemoteRejected(
                "Failed to fetch key: HTTP "@ + decimal(status as nat) + " "@ + reason,
            ),
        )
    }
}

/// A text or a failure as the contracts speak of it.
pub open spec fn text_view(r: Result<String, Error>) -> Result<Seq<char>, ErrorView> {
    match r {
        Ok(text) => Ok(text@),
        Err(e) => Err(e@),
    }
}

/// Reads the authority's answer to a certificate request.
pub fn certificate_from_response(status: u16, body: String) -> (r: Result<String, Error>)
    ensures
        text_view(r) == certificate_result(status, body@),
{
    if status_is_success(status) {
        Ok(body)
    } else {
        Err(Error::RemoteRejected(join("Failed to fetch certificate: ", body.as_str())))
    }
}

/// Reads the authority's answer to a request for its signing key.
pub fn signing_key_from_response(status: u16, reason: &str, body: String) -> (r: Result<
    String,
    Error,
>)
    ensures
        text_view(r) == signing_key_result(status, reason@, body@),
{
    if status_is_success(status) {
        Ok(body)
    } else {
        let number = decimal_text(status);
        let mut message = join("Failed to fetch key: HTTP ", number.as_str());
        message.append(" ");
        message.append(reason);
        Err(Error::RemoteRejected(message))
    }
}

/// The failure reported where the exchange with the authority broke off;
/// `text` is what the transport said.
pub fn request_failure(text: &str) -> (r: Error)
    ensures
        r@ == ErrorView::Transport(text@),
{
    Error::Transport(String::from_str(text))
}

/// The failure reported where the authority could not be reached.
pub fn transport_failure(text: &str) -> (r: Error)
    ensures
        r@ == ErrorView::Transport("Error sending request: "@ + text@),
{
    Error::Transport(join("Error sending request: ", text))
}

} // verus!
