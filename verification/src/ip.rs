//! Looking up the public address: which service answers for which record
//! type, and how its answer is read.
use vstd::prelude::*;
use crate::http::{build_client_with_timeout, TimedClient};
use crate::text::{ascii_lower, lemma_ascii_lower_idempotent, owned, str_eq, to_ascii_lowercase, trim, trimmed};

verus! {

broadcast use vstd::string::group_string_axioms;

/// How the lookup service writes the address.
#[derive(Debug, Clone, Copy, PartialEq, Eq, Structural)]
pub enum ResponseFormat {
    /// A JSON object `{"ip": "..."}`.
    IpifyJson,
    /// The address as text, possibly surrounded by white space.
    PlainText,
}

/// One address lookup to make.
#[derive(Debug)]
pub struct LookupRequest {
    pub url: String,
    /// Whether to send `Accept: text/plain`.
    pub accept_text_plain: bool,
    pub format: ResponseFormat,
}

/// Why the address could not be looked up.
#[derive(Debug)]
pub enum IpError {
    /// The HTTP client could not be set up.
    ClientBuild,
    /// No service is known for this name and record type.
    Unsupported { query_api: String, record_type: String },
}

impl IpError {
    /// The message that explains the failure.
    pub fn message(&self) -> (r: String)
        ensures
            r@ == ip_error_text(*self),
    {
        match self {
            IpError::ClientBuild => owned("failed to build ip resolver client"),
            IpError::Unsupported { query_api, record_type } => {
                let mut r = owned("unsupported query_api or record_type: ");
                r.append(query_api.as_str());
                r.append("/");
                r.append(record_type.as_str());
                r
            },
        }
    }
}

/// The text of each failure.
pub open spec fn ip_error_text(e: IpError) -> Seq<char> {
    match e {
        IpError::ClientBuild => "failed to build ip resolver client"@,
        IpError::Unsupported { query_api, record_type } => "unsupported query_api or record_type: "@
            + query_api@ + "/"@ + record_type@,
    }
}

/// The lookup made for a service name (compared without regard to ASCII
/// case) and a record type (compared exactly): URL, `Accept: text/plain`,
/// answer format.
pub open spec fn lookup_for(api: Seq<char>, record_type: Seq<char>) -> Option<
    (Seq<char>, bool, ResponseFormat),
> {
    let name = ascii_lower(api);
    if name == "ipify"@ && record_type == "A"@ {
        Some(("https://api4.ipify.org?format=json"@, false, ResponseFormat::IpifyJson))
    } else if name == "ipify"@ && record_type == "AAAA"@ {
        Some(("https://api6.ipify.org?format=json"@, false, ResponseFormat::IpifyJson))
    } else if name == "icanhazip"@ && record_type == "A"@ {
        Some(("https://ipv4.icanhazip.com"@, false, ResponseFormat::PlainText))
    } else if name == "icanhazip"@ && record_type == "AAAA"@ {
        Some(("https://ipv6.icanhazip.com"@, false, ResponseFormat::PlainText))
    } else if name == "ifconfig"@ && record_type == "A"@ {
        Some(("https://ifconfig.me/ip"@, false, ResponseFormat::PlainText))
    } else if name == "ifconfig"@ && record_type == "AAAA"@ {
        Some(("https://ifconfig.me/ip"@, true, ResponseFormat::PlainText))
    } else {
        None
    }
}

/// Chooses the lookup for a service and a record type.
pub fn lookup_request(query_api: &str, record_type: &str) -> (r: Result<LookupRequest, IpError>)
    ensures
        match lookup_for(query_api@, record_type@) {
            Some((url, accept, format)) => r matches Ok(req) && req.url@ == url
                && req.accept_text_plain == accept && req.format == format,
            None => r matches Err(IpError::Unsupported { query_api: q, record_type: t })
                && q@ == query_api@ && t@ == record_type@,
        },
{
    let api = to_ascii_lowercase(query_api);
    let a = api.as_str();
    let is_a = str_eq(record_type, "A");
    let is_aaaa = str_eq(record_type, "AAAA");
    if str_eq(a, "ipify") && is_a {
        Ok(
            LookupRequest {
                url: owned("https://api4.ipify.org?format=json"),
                accept_text_plain: false,
                format: ResponseFormat::IpifyJson,
            },
        )
    } else if str_eq(a, "ipify") && is_aaaa {
        Ok(
            LookupRequest {
                url: owned("https://api6.ipify.org?format=json"),
                accept_text_plain: false,
                format: ResponseFormat::IpifyJson,
            },
        )
    } else if str_eq(a, "icanhazip") && is_a {
        Ok(
            LookupRequest {
                url: owned("https://ipv4.icanhazip.com"),
                accept_text_plain: false,
                format: ResponseFormat::PlainText,
            },
        )
    } else if str_eq(a, "icanhazip") && is_aaaa {
        Ok(
            LookupRequest {
                url: owned("https://ipv6.icanhazip.com"),
                accept_text_plain: false,
                format: ResponseFormat::PlainText,
            },
        )
    } else if str_eq(a, "ifconfig") && is_a {
        Ok(
            LookupRequest {
                url: owned("https://ifconfig.me/ip"),
                accept_text_plain: false,
                format: ResponseFormat::PlainText,
            },
        )
    } else if str_eq(a, "ifconfig") && is_aaaa {
        Ok(
            LookupRequest {
                url: owned("https://ifconfig.me/ip"),
                accept_text_plain: true,
                format: ResponseFormat::PlainText,
            },
        )
    } else {
        Err(IpError::Unsupported { query_api: owned(query_api), record_type: owned(record_type) })
    }
}

/// The address in a plain-text answer: the text without surrounding white space.
pub fn plain_text_address(body: &str) -> (r: String)
    ensures
        r@ == trim(body@),
{
    trimmed(body)
}

/// The HTTP client used for one lookup, with the configured timeout.
pub fn lookup_client(timeout_secs: u64) -> (r: Result<TimedClient, IpError>)
    ensures
        r matches Ok(c) ==> c.timeout_secs == timeout_secs,
        r is Err ==> r matches Err(IpError::ClientBuild),
{
    match build_client_with_timeout(timeout_secs) {
        Ok(c) => Ok(c),
        Err(_) => Err(IpError::ClientBuild),
    }
}

/// The service name is matched without regard to ASCII case: a name and its
/// lower-cased form choose the same lookup.
pub proof fn lemma_lookup_ignores_case(api: Seq<char>, record_type: Seq<char>)
    ensures
        lookup_for(api, record_type) == lookup_for(ascii_lower(api), record_type),
{
    lemma_ascii_lower_idempotent(api);
}

} // verus!
