//! The decisions behind the HTTP API: who is let in, which inputs are
//! accepted, and what each outcome is answered with.
use vstd::prelude::*;
use crate::config::{record_type_text, AuthConfig, DnsRecordType};
use crate::models::LoginRequest;
use crate::text::{ascii_upper, chars_of, owned, str_eq, string_from_chars, to_ascii_uppercase};

verus! {

broadcast use vstd::string::group_string_axioms;

/// How a request failed.
#[derive(Debug)]
pub enum AppError {
    /// Missing or wrong credentials or token (401).
    Unauthorized,
    /// No record with that id (404).
    NotFound,
    /// The request's content was refused (400).
    BadRequest(String),
    /// Something failed inside the service (500).
    Internal(String),
    /// More requests in the last minute than the rate limit allows (429).
    TooManyRequests,
}

/// The HTTP status code that answers each failure.
pub open spec fn status_code_of(e: AppError) -> u16 {
    match e {
        AppError::Unauthorized => 401,
        AppError::NotFound => 404,
        AppError::BadRequest(_) => 400,
        AppError::Internal(_) => 500,
        AppError::TooManyRequests => 429,
    }
}

impl AppError {
    /// The HTTP status code of the failure.
    pub fn status_code(&self) -> (r: u16)
        ensures
            r == status_code_of(*self),
    {
        match self {
            AppError::Unauthorized => 401,
            AppError::NotFound => 404,
            AppError::BadRequest(_) => 400,
            AppError::Internal(_) => 500,
            AppError::TooManyRequests => 429,
        }
    }

    /// The text that the failure is answered with.
    pub fn message(&self) -> (r: String)
        ensures
            match *self {
                AppError::Unauthorized => r@ == "unauthorized"@,
                AppError::NotFound => r@ == "not found"@,
                AppError::BadRequest(m) => r@ == m@,
                AppError::Internal(m) => r@ == m@,
                AppError::TooManyRequests => r@ == "rate limit exceeded"@,
            },
    {
        match self {
            AppError::Unauthorized => owned("unauthorized"),
            AppError::NotFound => owned("not found"),
            AppError::BadRequest(m) => owned(m.as_str()),
            AppError::Internal(m) => owned(m.as_str()),
            AppError::TooManyRequests => owned("rate limit exceeded"),
        }
    }
}

/// The refusal of a record type other than A and AAAA.
pub open spec fn bad_record_type_text() -> Seq<char> {
    "record_type must be A or AAAA"@
}

/// The record type that a request names, compared without regard to ASCII
/// case: `"A"` or `"AAAA"`; anything else is refused.
pub fn normalize_record_type(input: &str) -> (r: Result<&'static str, AppError>)
    ensures
        ascii_upper(input@) == "A"@ ==> (r matches Ok(t) && t@ == "A"@),
        ascii_upper(input@) == "AAAA"@ ==> (r matches Ok(t) && t@ == "AAAA"@),
        ascii_upper(input@) != "A"@ && ascii_upper(input@) != "AAAA"@ ==> (r matches Err(
            AppError::BadRequest(m),
        ) && m@ == bad_record_type_text()),
{
    let upper = to_ascii_uppercase(input);
    if str_eq(upper.as_str(), "A") {
        Ok("A")
    } else if str_eq(upper.as_str(), "AAAA") {
        Ok("AAAA")
    } else {
        Err(AppError::BadRequest(owned("record_type must be A or AAAA")))
    }
}

/// The record type of an update, when it names one.
pub fn normalize_optional_record_type(input: Option<&str>) -> (r: Result<Option<String>, AppError>)
    ensures
        input is None ==> r matches Ok(None),
        input matches Some(s) ==> (ascii_upper(s@) == "A"@ ==> (r matches Ok(Some(t)) && t@
            == "A"@)),
        input matches Some(s) ==> (ascii_upper(s@) == "AAAA"@ ==> (r matches Ok(Some(t)) && t@
            == "AAAA"@)),
        input matches Some(s) ==> (ascii_upper(s@) != "A"@ && ascii_upper(s@) != "AAAA"@ ==> (r matches Err(
            AppError::BadRequest(m),
        ) && m@ == bad_record_type_text())),
{
    match input {
        None => Ok(None),
        Some(s) => match normalize_record_type(s) {
            Ok(t) => Ok(Some(owned(t))),
            Err(e) => Err(e),
        },
    }
}

/// The scheme that precedes a token in the `Authorization` header.
pub open spec fn bearer_prefix() -> Seq<char> {
    "Bearer "@
}

/// The token that an `Authorization` header carries: the text after
/// `Bearer ` (case as written). A missing header, or one without that
/// prefix, is refused.
pub fn bearer_token(header: Option<&str>) -> (r: Result<String, AppError>)
    ensures
        match header {
            None => r matches Err(AppError::Unauthorized),
            Some(h) => if h@.len() >= 7 && h@.subrange(0, 7) == bearer_prefix() {
                r matches Ok(t) && t@ == h@.subrange(7, h@.len() as int)
            } else {
                r matches Err(AppError::Unauthorized)
            },
        },
{
    proof {
        reveal_strlit("Bearer ");
    }
    match header {
        None => Err(AppError::Unauthorized),
        Some(h) => {
            let v = chars_of(h);
            let p = chars_of("Bearer ");
            if v.len() < 7 {
                return Err(AppError::Unauthorized);
            }
            assert(p@.len() == 7);
            let mut i: usize = 0;
            while i < 7
                invariant
                    header == Some(h),
                    v@ == h@,
                    p@ == bearer_prefix(),
                    p@.len() == 7,
                    v@.len() >= 7,
                    i <= 7,
                    forall|k: int| 0 <= k < i ==> v@[k] == p@[k],
                decreases 7 - i,
            {
                if v[i] != p[i] {
                    assert(h@.subrange(0, 7)[i as int] != bearer_prefix()[i as int]);
                    assert(h@.subrange(0, 7) != bearer_prefix());
                    return Err(AppError::Unauthorized);
                }
                i = i + 1;
            }
            assert(h@.subrange(0, 7) =~= bearer_prefix());
            Ok(string_from_chars(&v, 7, v.len()))
        },
    }
}

/// Whether the login request carries the administrator's credentials.
pub fn check_credentials(auth: &AuthConfig, payload: &LoginRequest) -> (r: Result<(), AppError>)
    ensures
        payload.username@ == auth.admin_username@ && payload.password@ == auth.admin_password@
            ==> r is Ok,
        !(payload.username@ == auth.admin_username@ && payload.password@ == auth.admin_password@)
            ==> (r matches Err(AppError::Unauthorized)),
{
    if !str_eq(payload.username.as_str(), auth.admin_username.as_str()) || !str_eq(
        payload.password.as_str(),
        auth.admin_password.as_str(),
    ) {
        return Err(AppError::Unauthorized);
    }
    Ok(())
}

/// The outcome of the rate limit for one request: let through, or refused
/// with 429.
pub fn rate_outcome(let_in: bool) -> (r: Result<(), AppError>)
    ensures
        let_in ==> r is Ok,
        !let_in ==> (r matches Err(AppError::TooManyRequests)),
{
    if let_in {
        Ok(())
    } else {
        Err(AppError::TooManyRequests)
    }
}

/// The outcome of checking a presented token: let in when it is valid.
pub fn token_outcome(valid: bool) -> (r: Result<(), AppError>)
    ensures
        valid ==> r is Ok,
        !valid ==> (r matches Err(AppError::Unauthorized)),
{
    if valid {
        Ok(())
    } else {
        Err(AppError::Unauthorized)
    }
}

/// The readiness report: ready once some record is stored, degraded before.
pub fn ready_status(has_records: bool) -> (r: &'static str)
    ensures
        has_records ==> r@ == "ready"@,
        !has_records ==> r@ == "degraded"@,
{
    if has_records {
        "ready"
    } else {
        "degraded"
    }
}

/// The outcome of an update or delete of a record by id: done when the
/// record existed, not found otherwise.
pub fn found_outcome(found: bool) -> (r: Result<(), AppError>)
    ensures
        found ==> r is Ok,
        !found ==> (r matches Err(AppError::NotFound)),
{
    if found {
        Ok(())
    } else {
        Err(AppError::NotFound)
    }
}

/// An `Authorization` header written as `Bearer ` and a token carries that
/// token: `bearer_token` gives back exactly what was put after the prefix.
pub proof fn lemma_bearer_header_round_trip(token: Seq<char>)
    ensures
        ({
            let h = bearer_prefix() + token;
            &&& h.len() >= 7
            &&& h.subrange(0, 7) == bearer_prefix()
            &&& h.subrange(7, h.len() as int) == token
        }),
{
    reveal_strlit("Bearer ");
    let h = bearer_prefix() + token;
    assert(h.subrange(0, 7) =~= bearer_prefix());
    assert(h.subrange(7, h.len() as int) =~= token);
}

/// The name of each record type is accepted as it stands and normalises to itself.
pub proof fn lemma_record_type_names_normalize(t: DnsRecordType)
    ensures
        ascii_upper(record_type_text(t)) == record_type_text(t),
        record_type_text(t) == "A"@ || record_type_text(t) == "AAAA"@,
{
    reveal_strlit("A");
    reveal_strlit("AAAA");
    assert(ascii_upper(record_type_text(t)) =~= record_type_text(t));
    assert(record_type_text(DnsRecordType::A) =~= "A"@);
    assert(record_type_text(DnsRecordType::Aaaa) =~= "AAAA"@);
}

} // verus!
