//! The HTTP client type of `reqwest` and the checks made on header values.
use vstd::prelude::*;

verus! {

/// `reqwest`'s asynchronous HTTP client, carried through opaquely.
#[verifier::external_type_specification]
#[verifier::external_body]
pub struct ExReqwestClient(reqwest::Client);

/// `reqwest`'s error, carried through opaquely.
#[verifier::external_type_specification]
#[verifier::external_body]
pub struct ExReqwestError(reqwest::Error);

/// Builds a client with reqwest's default settings:
/// `reqwest::Client::builder().build()`. Nothing is claimed of the result:
/// the build fails when no TLS backend or resolver configuration can be set up,
/// which depends on the machine.
#[verifier::external_body]
pub(crate) fn build_default_client() -> (r: Result<reqwest::Client, reqwest::Error>) {
    reqwest::Client::builder().build()
}

/// An HTTP client together with the request timeout it was built with.
pub struct TimedClient {
    pub client: reqwest::Client,
    /// Seconds after which each request of `client` gives up.
    pub timeout_secs: u64,
}

/// Builds a client whose requests time out after `timeout_secs` seconds:
/// `reqwest::Client::builder().timeout(Duration::from_secs(timeout_secs)).build()`,
/// returned beside that timeout. Claimed: a built client carries the timeout
/// it was given. Whether the build succeeds is not claimed, for the same
/// reason as above.
#[verifier::external_body]
pub(crate) fn build_client_with_timeout(timeout_secs: u64) -> (r: Result<TimedClient, reqwest::Error>)
    ensures
        r matches Ok(c) ==> c.timeout_secs == timeout_secs,
{
    match reqwest::Client::builder().timeout(std::time::Duration::from_secs(timeout_secs)).build() {
        Ok(client) => Ok(TimedClient { client, timeout_secs }),
        Err(e) => Err(e),
    }
}

/// Whether one character may stand in an HTTP header value: every UTF-8 byte
/// of it is visible (32 and above, but not DEL) or a tab.
pub open spec fn header_char_ok(c: char) -> bool {
    (c as u32 >= 32 && c as u32 != 127) || c == '\t'
}

/// Whether all of `s` may stand in an HTTP header value.
pub open spec fn header_value_ok(s: Seq<char>) -> bool {
    forall|i: int| 0 <= i < s.len() ==> header_char_ok(#[trigger] s[i])
}

/// Whether `http::HeaderValue::from_str` (re-exported by reqwest) accepts `s`.
/// Claimed: it accepts exactly the strings whose every byte is at least 32
/// and not 127, or a tab; the bytes of a non-ASCII character are all 128 or
/// more, so this is `header_value_ok` over the characters.
#[verifier::external_body]
pub(crate) fn header_value_accepted(s: &str) -> (r: bool)
    ensures
        r == header_value_ok(s@),
{
    reqwest::header::HeaderValue::from_str(s).is_ok()
}

} // verus!
