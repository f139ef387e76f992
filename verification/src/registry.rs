//! The status registry: the closed table of HTTP status codes that a
//! configuration may name.
//!
//! Every entry relates a numeric code to its canonical identifier
//! (`NotFound`), to the upper-case spelling of that identifier (`NOT_FOUND`),
//! which is accepted wherever a name is read, and to its canonical reason
//! phrase (`Not Found`). Codes and identifiers are tabulated here; the reason
//! phrases are those of the `http` crate.

use crate::text::str_eq;
use vstd::prelude::*;

verus! {

/// The code of the status that a value has when nothing else is configured.
pub const INTERNAL_SERVER_ERROR: u16 = 500;

/// The smallest registered code.
pub const FIRST_CODE: u16 = 100;

/// The greatest registered code.
pub const LAST_CODE: u16 = 511;

/// Why a lookup in the registry found nothing.
#[derive(Clone, Copy, Debug, PartialEq, Eq, Structural)]
pub enum LookupError {
    /// The registry has no entry for the numeric code.
    UnknownStatusCode,
    /// The registry has no entry with that identifier.
    UnknownStatusName,
}

/// The canonical identifier of a registered status code, such as `NotFound`
/// for 404.
pub open spec fn canonical_name(code: u16) -> Option<Seq<char>> {
    if code == 100 {
        Some("Continue"@)
    } else if code == 101 {
        Some("SwitchingProtocols"@)
    } else if code == 102 {
        Some("Processing"@)
    } else if code == 103 {
        Some("EarlyHints"@)
    } else if code == 200 {
        Some("Ok"@)
    } else if code == 201 {
        Some("Created"@)
    } else if code == 202 {
        Some("Accepted"@)
    } else if code == 203 {
        Some("NonAuthoritativeInformation"@)
    } else if code == 204 {
        Some("NoContent"@)
    } else if code == 205 {
        Some("ResetContent"@)
    } else if code == 206 {
        Some("PartialContent"@)
    } else if code == 207 {
        Some("MultiStatus"@)
    } else if code == 208 {
        Some("AlreadyReported"@)
    } else if code == 226 {
        Some("ImUsed"@)
    } else if code == 300 {
        Some("MultipleChoices"@)
    } else if code == 301 {
        Some("MovedPermanently"@)
    } else if code == 302 {
        Some("Found"@)
    } else if code == 303 {
        Some("SeeOther"@)
    } else if code == 304 {
        Some("NotModified"@)
    } else if code == 305 {
        Some("UseProxy"@)
    } else if code == 307 {
        Some("TemporaryRedirect"@)
    } else if code == 308 {
        Some("PermanentRedirect"@)
    } else if code == 400 {
        Some("BadRequest"@)
    } else if code == 401 {
        Some("Unauthorized"@)
    } else if code == 402 {
        Some("PaymentRequired"@)
    } else if code == 403 {
        Some("Forbidden"@)
    } else if code == 404 {
        Some("NotFound"@)
    } else if code == 405 {
        Some("MethodNotAllowed"@)
    } else if code == 406 {
        Some("NotAcceptable"@)
    } else if code == 407 {
        Some("ProxyAuthenticationRequired"@)
    } else if code == 408 {
        Some("RequestTimeout"@)
    } else if code == 409 {
        Some("Conflict"@)
    } else if code == 410 {
        Some("Gone"@)
    } else if code == 411 {
        Some("LengthRequired"@)
    } else if code == 412 {
        Some("PreconditionFailed"@)
    } else if code == 413 {
        Some("PayloadTooLarge"@)
    } else if code == 414 {
        Some("UriTooLong"@)
    } else if code == 415 {
        Some("UnsupportedMediaType"@)
    } else if code == 416 {
        Some("RangeNotSatisfiable"@)
    } else if code == 417 {
        Some("ExpectationFailed"@)
    } else if code == 418 {
        Some("ImATeapot"@)
    } else if code == 421 {
        Some("MisdirectedRequest"@)
    } else if code == 422 {
        Some("UnprocessableEntity"@)
    } else if code == 423 {
        Some("Locked"@)
    } else if code == 424 {
        Some("FailedDependency"@)
    } else if code == 425 {
        Some("TooEarly"@)
    } else if code == 426 {
        Some("UpgradeRequired"@)
    } else if code == 428 {
        Some("PreconditionRequired"@)
    } else if code == 429 {
        Some("TooManyRequests"@)
    } else if code == 431 {
        Some("RequestHeaderFieldsTooLarge"@)
    } else if code == 451 {
        Some("UnavailableForLegalReasons"@)
    } else if code == 500 {
        Some("InternalServerError"@)
    } else if code == 501 {
        Some("NotImplemented"@)
    } else if code == 502 {
        Some("BadGateway"@)
    } else if code == 503 {
        Some("ServiceUnavailable"@)
    } else if code == 504 {
        Some("GatewayTimeout"@)
    } else if code == 505 {
        Some("HttpVersionNotSupported"@)
    } else if code == 506 {
        Some("VariantAlsoNegotiates"@)
    } else if code == 507 {
        Some("InsufficientStorage"@)
    } else if code == 508 {
        Some("LoopDetected"@)
    } else if code == 510 {
        Some("NotExtended"@)
    } else if code == 511 {
        Some("NetworkAuthenticationRequired"@)
    } else {
        None
    }
}

/// The upper-case spelling of a registered status code's identifier, such as
/// `NOT_FOUND` for 404.
pub open spec fn constant_name(code: u16) -> Option<Seq<char>> {
    if code == 100 {
        Some("CONTINUE"@)
    } else if code == 101 {
        Some("SWITCHING_PROTOCOLS"@)
    } else if code == 102 {
        Some("PROCESSING"@)
    } else if code == 103 {
        Some("EARLY_HINTS"@)
    } else if code == 200 {
        Some("OK"@)
    } else if code == 201 {
        Some("CREATED"@)
    } else if code == 202 {
        Some("ACCEPTED"@)
    } else if code == 203 {
        Some("NON_AUTHORITATIVE_INFORMATION"@)
    } else if code == 204 {
        Some("NO_CONTENT"@)
    } else if code == 205 {
        Some("RESET_CONTENT"@)
    } else if code == 206 {
        Some("PARTIAL_CONTENT"@)
    } else if code == 207 {
        Some("MULTI_STATUS"@)
    } else if code == 208 {
        Some("ALREADY_REPORTED"@)
    } else if code == 226 {
        Some("IM_USED"@)
    } else if code == 300 {
        Some("MULTIPLE_CHOICES"@)
    } else if code == 301 {
        Some("MOVED_PERMANENTLY"@)
    } else if code == 302 {
        Some("FOUND"@)
    } else if code == 303 {
        Some("SEE_OTHER"@)
    } else if code == 304 {
        Some("NOT_MODIFIED"@)
    } else if code == 305 {
        Some("USE_PROXY"@)
    } else if code == 307 {
        Some("TEMPORARY_REDIRECT"@)
    } else if code == 308 {
        Some("PERMANENT_REDIRECT"@)
    } else if code == 400 {
        Some("BAD_REQUEST"@)
    } else if code == 401 {
        Some("UNAUTHORIZED"@)
    } else if code == 402 {
        Some("PAYMENT_REQUIRED"@)
    } else if code == 403 {
        Some("FORBIDDEN"@)
    } else if code == 404 {
        Some("NOT_FOUND"@)
    } else if code == 405 {
        Some("METHOD_NOT_ALLOWED"@)
    } else if code == 406 {
        Some("NOT_ACCEPTABLE"@)
    } else if code == 407 {
        Some("PROXY_AUTHENTICATION_REQUIRED"@)
    } else if code == 408 {
        Some("REQUEST_TIMEOUT"@)
    } else if code == 409 {
        Some("CONFLICT"@)
    } else if code == 410 {
        Some("GONE"@)
    } else if code == 411 {
        Some("LENGTH_REQUIRED"@)
    } else if code == 412 {
        Some("PRECONDITION_FAILED"@)
    } else if code == 413 {
        Some("PAYLOAD_TOO_LARGE"@)
    } else if code == 414 {
        Some("URI_TOO_LONG"@)
    } else if code == 415 {
        Some("UNSUPPORTED_MEDIA_TYPE"@)
    } else if code == 416 {
        Some("RANGE_NOT_SATISFIABLE"@)
    } else if code == 417 {
        Some("EXPECTATION_FAILED"@)
    } else if code == 418 {
        Some("IM_A_TEAPOT"@)
    } else if code == 421 {
        Some("MISDIRECTED_REQUEST"@)
    } else if code == 422 {
        Some("UNPROCESSABLE_ENTITY"@)
    } else if code == 423 {
        Some("LOCKED"@)
    } else if code == 424 {
        Some("FAILED_DEPENDENCY"@)
    } else if code == 425 {
        Some("TOO_EARLY"@)
    } else if code == 426 {
        Some("UPGRADE_REQUIRED"@)
    } else if code == 428 {
        Some("PRECONDITION_REQUIRED"@)
    } else if code == 429 {
        Some("TOO_MANY_REQUESTS"@)
    } else if code == 431 {
        Some("REQUEST_HEADER_FIELDS_TOO_LARGE"@)
    } else if code == 451 {
        Some("UNAVAILABLE_FOR_LEGAL_REASONS"@)
    } else if code == 500 {
        Some("INTERNAL_SERVER_ERROR"@)
    } else if code == 501 {
        Some("NOT_IMPLEMENTED"@)
    } else if code == 502 {
        Some("BAD_GATEWAY"@)
    } else if code == 503 {
        Some("SERVICE_UNAVAILABLE"@)
    } else if code == 504 {
        Some("GATEWAY_TIMEOUT"@)
    } else if code == 505 {
        Some("HTTP_VERSION_NOT_SUPPORTED"@)
    } else if code == 506 {
        Some("VARIANT_ALSO_NEGOTIATES"@)
    } else if code == 507 {
        Some("INSUFFICIENT_STORAGE"@)
    } else if code == 508 {
        Some("LOOP_DETECTED"@)
    } else if code == 510 {
        Some("NOT_EXTENDED"@)
    } else if code == 511 {
        Some("NETWORK_AUTHENTICATION_REQUIRED"@)
    } else {
        None
    }
}

/// Whether the registry has an entry for `code`.
pub open spec fn is_registered(code: u16) -> bool {
    canonical_name(code) is Some
}

/// Whether `name` is the identifier of `code`, in either spelling.
pub open spec fn names(name: Seq<char>, code: u16) -> bool {
    canonical_name(code) == Some(name) || constant_name(code) == Some(name)
}

/// The code that `name` identifies, if any.
pub open spec fn code_of_name(name: Seq<char>) -> Option<u16> {
    if exists|c: u16| names(name, c) {
        Some(choose|c: u16| names(name, c))
    } else {
        None
    }
}

/// The reason phrase that `http::StatusCode::canonical_reason` gives for the
/// status with number `code`; `None` where `code` is no status code or has no
/// phrase.
pub uninterp spec fn canonical_reason_text(code: u16) -> Option<Seq<char>>;

/// The canonical reason phrase of `name`'s status: the phrase of the code that
/// `name` identifies.
pub open spec fn reason_of_name(name: Seq<char>) -> Option<Seq<char>> {
    match code_of_name(name) {
        Some(code) => canonical_reason_text(code),
        None => None,
    }
}

/// The characters of an optional string slice.
pub open spec fn text_of(s: Option<&str>) -> Option<Seq<char>> {
    match s {
        Some(t) => Some(t@),
        None => None,
    }
}

/// The canonical reason phrase of the status with number `code`.
///
/// Calls `http::StatusCode::from_u16` and, where that accepts `code`,
/// `http::StatusCode::canonical_reason` on the status it made. The contract
/// names the outcome `canonical_reason_text(code)` and claims one thing of it:
/// that `http` has a phrase for every code in this registry, which holds
/// because the registry lists exactly the codes for which `http` declares a
/// constant and a phrase.
#[verifier::external_body]
pub(crate) fn canonical_reason(code: u16) -> (phrase: Option<&'static str>)
    ensures
        text_of(phrase) == canonical_reason_text(code),
        is_registered(code) ==> phrase is Some,
{
    match http::StatusCode::from_u16(code) {
        Ok(status) => status.canonical_reason(),
        Err(_) => None,
    }
}

/// The canonical identifier of `code`, if the registry has an entry for it.
pub fn canonical_name_of(code: u16) -> (name: Option<&'static str>)
    ensures
        name matches Some(n) ==> canonical_name(code) == Some(n@),
        name is None ==> canonical_name(code) is None,
{
    match code {
        100 => Some("Continue"),
        101 => Some("SwitchingProtocols"),
        102 => Some("Processing"),
        103 => Some("EarlyHints"),
        200 => Some("Ok"),
        201 => Some("Created"),
        202 => Some("Accepted"),
        203 => Some("NonAuthoritativeInformation"),
        204 => Some("NoContent"),
        205 => Some("ResetContent"),
        206 => Some("PartialContent"),
        207 => Some("MultiStatus"),
        208 => Some("AlreadyReported"),
        226 => Some("ImUsed"),
        300 => Some("MultipleChoices"),
        301 => Some("MovedPermanently"),
        302 => Some("Found"),
        303 => Some("SeeOther"),
        304 => Some("NotModified"),
        305 => Some("UseProxy"),
        307 => Some("TemporaryRedirect"),
        308 => Some("PermanentRedirect"),
        400 => Some("BadRequest"),
        401 => Some("Unauthorized"),
        402 => Some("PaymentRequired"),
        403 => Some("Forbidden"),
        404 => Some("NotFound"),
        405 => Some("MethodNotAllowed"),
        406 => Some("NotAcceptable"),
        407 => Some("ProxyAuthenticationRequired"),
        408 => Some("RequestTimeout"),
        409 => Some("Conflict"),
        410 => Some("Gone"),
        411 => Some("LengthRequired"),
        412 => Some("PreconditionFailed"),
        413 => Some("PayloadTooLarge"),
        414 => Some("UriTooLong"),
        415 => Some("UnsupportedMediaType"),
        416 => Some("RangeNotSatisfiable"),
        417 => Some("ExpectationFailed"),
        418 => Some("ImATeapot"),
        421 => Some("MisdirectedRequest"),
        422 => Some("UnprocessableEntity"),
        423 => Some("Locked"),
        424 => Some("FailedDependency"),
        425 => Some("TooEarly"),
        426 => Some("UpgradeRequired"),
        428 => Some("PreconditionRequired"),
        429 => Some("TooManyRequests"),
        431 => Some("RequestHeaderFieldsTooLarge"),
        451 => Some("UnavailableForLegalReasons"),
        500 => Some("InternalServerError"),
        501 => Some("NotImplemented"),
        502 => Some("BadGateway"),
        503 => Some("ServiceUnavailable"),
        504 => Some("GatewayTimeout"),
        505 => Some("HttpVersionNotSupported"),
        506 => Some("VariantAlsoNegotiates"),
        507 => Some("InsufficientStorage"),
        508 => Some("LoopDetected"),
        510 => Some("NotExtended"),
        511 => Some("NetworkAuthenticationRequired"),
        _ => None,
    }
}

/// The upper-case spelling of the identifier of `code`, if the registry has
/// an entry for it.
pub fn constant_name_of(code: u16) -> (name: Option<&'static str>)
    ensures
        name matches Some(n) ==> constant_name(code) == Some(n@),
        name is None ==> constant_name(code) is None,
{
    match code {
        100 => Some("CONTINUE"),
        101 => Some("SWITCHING_PROTOCOLS"),
        102 => Some("PROCESSING"),
        103 => Some("EARLY_HINTS"),
        200 => Some("OK"),
        201 => Some("CREATED"),
        202 => Some("ACCEPTED"),
        203 => Some("NON_AUTHORITATIVE_INFORMATION"),
        204 => Some("NO_CONTENT"),
        205 => Some("RESET_CONTENT"),
        206 => Some("PARTIAL_CONTENT"),
        207 => Some("MULTI_STATUS"),
        208 => Some("ALREADY_REPORTED"),
        226 => Some("IM_USED"),
        300 => Some("MULTIPLE_CHOICES"),
        301 => Some("MOVED_PERMANENTLY"),
        302 => Some("FOUND"),
        303 => Some("SEE_OTHER"),
        304 => Some("NOT_MODIFIED"),
        305 => Some("USE_PROXY"),
        307 => Some("TEMPORARY_REDIRECT"),
        308 => Some("PERMANENT_REDIRECT"),
        400 => Some("BAD_REQUEST"),
        401 => Some("UNAUTHORIZED"),
        402 => Some("PAYMENT_REQUIRED"),
        403 => Some("FORBIDDEN"),
        404 => Some("NOT_FOUND"),
        405 => Some("METHOD_NOT_ALLOWED"),
        406 => Some("NOT_ACCEPTABLE"),
        407 => Some("PROXY_AUTHENTICATION_REQUIRED"),
        408 => Some("REQUEST_TIMEOUT"),
        409 => Some("CONFLICT"),
        410 => Some("GONE"),
        411 => Some("LENGTH_REQUIRED"),
        412 => Some("PRECONDITION_FAILED"),
        413 => Some("PAYLOAD_TOO_LARGE"),
        414 => Some("URI_TOO_LONG"),
        415 => Some("UNSUPPORTED_MEDIA_TYPE"),
        416 => Some("RANGE_NOT_SATISFIABLE"),
        417 => Some("EXPECTATION_FAILED"),
        418 => Some("IM_A_TEAPOT"),
        421 => Some("MISDIRECTED_REQUEST"),
        422 => Some("UNPROCESSABLE_ENTITY"),
        423 => Some("LOCKED"),
        424 => Some("FAILED_DEPENDENCY"),
        425 => Some("TOO_EARLY"),
        426 => Some("UPGRADE_REQUIRED"),
        428 => Some("PRECONDITION_REQUIRED"),
        429 => Some("TOO_MANY_REQUESTS"),
        431 => Some("REQUEST_HEADER_FIELDS_TOO_LARGE"),
        451 => Some("UNAVAILABLE_FOR_LEGAL_REASONS"),
        500 => Some("INTERNAL_SERVER_ERROR"),
        501 => Some("NOT_IMPLEMENTED"),
        502 => Some("BAD_GATEWAY"),
        503 => Some("SERVICE_UNAVAILABLE"),
        504 => Some("GATEWAY_TIMEOUT"),
        505 => Some("HTTP_VERSION_NOT_SUPPORTED"),
        506 => Some("VARIANT_ALSO_NEGOTIATES"),
        507 => Some("INSUFFICIENT_STORAGE"),
        508 => Some("LOOP_DETECTED"),
        510 => Some("NOT_EXTENDED"),
        511 => Some("NETWORK_AUTHENTICATION_REQUIRED"),
        _ => None,
    }
}

/// Every registered code lies between `FIRST_CODE` and `LAST_CODE`, and has
/// both spellings of its identifier.
pub proof fn lemma_registered_range(code: u16)
    ensures
        is_registered(code) ==> FIRST_CODE <= code <= LAST_CODE,
        is_registered(code) <==> constant_name(code) is Some,
{
}

/// No identifier belongs to two codes.
pub proof fn lemma_names_unique(name: Seq<char>, c: u16, d: u16)
    requires
        names(name, c),
        names(name, d),
    ensures
        c == d,
{
    // Spell out the length of `name` and its first characters: the identifiers
    // differ from one another in these, and none is longer.
    let spelled = seq![
        name[0], name[1], name[2], name[3], name[4], name[5], name[6], name[7], name[8],
        name[9], name[10], name[11], name[12], name[13], name[14], name[15], name[16],
        name[17], name[18], name[19], name[20], name[21], name[22], name[23], name[24],
        name[25], name[26], name[27], name[28], name[29], name[30],
    ];
    assert(spelled.len() + name.len() >= 31);
    reveal_strlit("Continue");
    reveal_strlit("CONTINUE");
    reveal_strlit("SwitchingProtocols");
    reveal_strlit("SWITCHING_PROTOCOLS");
    reveal_strlit("Processing");
    reveal_strlit("PROCESSING");
    reveal_strlit("EarlyHints");
    reveal_strlit("EARLY_HINTS");
    reveal_strlit("Ok");
    reveal_strlit("OK");
    reveal_strlit("Created");
    reveal_strlit("CREATED");
    reveal_strlit("Accepted");
    reveal_strlit("ACCEPTED");
    reveal_strlit("NonAuthoritativeInformation");
    reveal_strlit("NON_AUTHORITATIVE_INFORMATION");
    reveal_strlit("NoContent");
    reveal_strlit("NO_CONTENT");
    reveal_strlit("ResetContent");
    reveal_strlit("RESET_CONTENT");
    reveal_strlit("PartialContent");
    reveal_strlit("PARTIAL_CONTENT");
    reveal_strlit("MultiStatus");
    reveal_strlit("MULTI_STATUS");
    reveal_strlit("AlreadyReported");
    reveal_strlit("ALREADY_REPORTED");
    reveal_strlit("ImUsed");
    reveal_strlit("IM_USED");
    reveal_strlit("MultipleChoices");
    reveal_strlit("MULTIPLE_CHOICES");
    reveal_strlit("MovedPermanently");
    reveal_strlit("MOVED_PERMANENTLY");
    reveal_strlit("Found");
    reveal_strlit("FOUND");
    reveal_strlit("SeeOther");
    reveal_strlit("SEE_OTHER");
    reveal_strlit("NotModified");
    reveal_strlit("NOT_MODIFIED");
    reveal_strlit("UseProxy");
    reveal_strlit("USE_PROXY");
    reveal_strlit("TemporaryRedirect");
    reveal_strlit("TEMPORARY_REDIRECT");
    reveal_strlit("PermanentRedirect");
    reveal_strlit("PERMANENT_REDIRECT");
    reveal_strlit("BadRequest");
    reveal_strlit("BAD_REQUEST");
    reveal_strlit("Unauthorized");
    reveal_strlit("UNAUTHORIZED");
    reveal_strlit("PaymentRequired");
    reveal_strlit("PAYMENT_REQUIRED");
    reveal_strlit("Forbidden");
    reveal_strlit("FORBIDDEN");
    reveal_strlit("NotFound");
    reveal_strlit("NOT_FOUND");
    reveal_strlit("MethodNotAllowed");
    reveal_strlit("METHOD_NOT_ALLOWED");
    reveal_strlit("NotAcceptable");
    reveal_strlit("NOT_ACCEPTABLE");
    reveal_strlit("ProxyAuthenticationRequired");
    reveal_strlit("PROXY_AUTHENTICATION_REQUIRED");
    reveal_strlit("RequestTimeout");
    reveal_strlit("REQUEST_TIMEOUT");
    reveal_strlit("Conflict");
    reveal_strlit("CONFLICT");
    reveal_strlit("Gone");
    reveal_strlit("GONE");
    reveal_strlit("LengthRequired");
    reveal_strlit("LENGTH_REQUIRED");
    reveal_strlit("PreconditionFailed");
    reveal_strlit("PRECONDITION_FAILED");
    reveal_strlit("PayloadTooLarge");
    reveal_strlit("PAYLOAD_TOO_LARGE");
    reveal_strlit("UriTooLong");
    reveal_strlit("URI_TOO_LONG");
    reveal_strlit("UnsupportedMediaType");
    reveal_strlit("UNSUPPORTED_MEDIA_TYPE");
    reveal_strlit("RangeNotSatisfiable");
    reveal_strlit("RANGE_NOT_SATISFIABLE");
    reveal_strlit("ExpectationFailed");
    reveal_strlit("EXPECTATION_FAILED");
    reveal_strlit("ImATeapot");
    reveal_strlit("IM_A_TEAPOT");
    reveal_strlit("MisdirectedRequest");
    reveal_strlit("MISDIRECTED_REQUEST");
    reveal_strlit("UnprocessableEntity");
    reveal_strlit("UNPROCESSABLE_ENTITY");
    reveal_strlit("Locked");
    reveal_strlit("LOCKED");
    reveal_strlit("FailedDependency");
    reveal_strlit("FAILED_DEPENDENCY");
    reveal_strlit("TooEarly");
    reveal_strlit("TOO_EARLY");
    reveal_strlit("UpgradeRequired");
    reveal_strlit("UPGRADE_REQUIRED");
    reveal_strlit("PreconditionRequired");
    reveal_strlit("PRECONDITION_REQUIRED");
    reveal_strlit("TooManyRequests");
    reveal_strlit("TOO_MANY_REQUESTS");
    reveal_strlit("RequestHeaderFieldsTooLarge");
    reveal_strlit("REQUEST_HEADER_FIELDS_TOO_LARGE");
    reveal_strlit("UnavailableForLegalReasons");
    reveal_strlit("UNAVAILABLE_FOR_LEGAL_REASONS");
    reveal_strlit("InternalServerError");
    reveal_strlit("INTERNAL_SERVER_ERROR");
    reveal_strlit("NotImplemented");
    reveal_strlit("NOT_IMPLEMENTED");
    reveal_strlit("BadGateway");
    reveal_strlit("BAD_GATEWAY");
    reveal_strlit("ServiceUnavailable");
    reveal_strlit("SERVICE_UNAVAILABLE");
    reveal_strlit("GatewayTimeout");
    reveal_strlit("GATEWAY_TIMEOUT");
    reveal_strlit("HttpVersionNotSupported");
    reveal_strlit("HTTP_VERSION_NOT_SUPPORTED");
    reveal_strlit("VariantAlsoNegotiates");
    reveal_strlit("VARIANT_ALSO_NEGOTIATES");
    reveal_strlit("InsufficientStorage");
    reveal_strlit("INSUFFICIENT_STORAGE");
    reveal_strlit("LoopDetected");
    reveal_strlit("LOOP_DETECTED");
    reveal_strlit("NotExtended");
    reveal_strlit("NOT_EXTENDED");
    reveal_strlit("NetworkAuthenticationRequired");
    reveal_strlit("NETWORK_AUTHENTICATION_REQUIRED");
}

/// Looking up either spelling of a registered code's identifier leads back to
/// the code.
pub proof fn lemma_name_round_trip(code: u16)
    requires
        is_registered(code),
    ensures
        code_of_name(canonical_name(code)->0) == Some(code),
        code_of_name(constant_name(code)->0) == Some(code),
{
    let canonical = canonical_name(code)->0;
    let constant = constant_name(code)->0;
    assert(names(canonical, code));
    assert(names(constant, code));
    lemma_names_unique(canonical, code, code_of_name(canonical)->0);
    lemma_names_unique(constant, code, code_of_name(constant)->0);
}

/// A name identifies a code exactly if the lookup of the name yields it.
pub proof fn lemma_code_of_name(name: Seq<char>, code: u16)
    ensures
        names(name, code) <==> code_of_name(name) == Some(code),
{
    if names(name, code) {
        lemma_names_unique(name, code, code_of_name(name)->0);
    }
}

/// The canonical identifier of a registered code.
pub fn status_from_u16(status: u16) -> (name: String)
    requires
        is_registered(status),
    ensures
        canonical_name(status) == Some(name@),
{
    match canonical_name_of(status) {
        Some(n) => n.to_owned(),
        None => String::new(),
    }
}

/// The canonical identifier of `code`, or `UnknownStatusCode` where the
/// registry has no entry for it.
pub fn by_numeric_code(code: u16) -> (found: Result<String, LookupError>)
    ensures
        found matches Ok(name) ==> canonical_name(code) == Some(name@),
        found matches Err(e) ==> e == LookupError::UnknownStatusCode && !is_registered(code),
{
    match canonical_name_of(code) {
        Some(_) => Ok(status_from_u16(code)),
        None => Err(LookupError::UnknownStatusCode),
    }
}

/// The code that `name` identifies, or `UnknownStatusName` where no entry of
/// the registry has that identifier.
pub fn code_by_name(name: &str) -> (found: Result<u16, LookupError>)
    ensures
        found matches Ok(code) ==> code_of_name(name@) == Some(code),
        found matches Err(e) ==> e == LookupError::UnknownStatusName && code_of_name(name@) is None,
{
    let mut code: u16 = FIRST_CODE;
    while code <= LAST_CODE
        invariant
            FIRST_CODE <= code <= LAST_CODE + 1,
            forall|c: u16| FIRST_CODE <= c < code ==> !names(name@, c),
        decreases LAST_CODE + 1 - code,
    {
        let hit = match canonical_name_of(code) {
            Some(canonical) => str_eq(name, canonical),
            None => false,
        } || match constant_name_of(code) {
            Some(constant) => str_eq(name, constant),
            None => false,
        };
        if hit {
            proof {
                lemma_code_of_name(name@, code);
            }
            return Ok(code);
        }
        code += 1;
    }
    proof {
        assert forall|c: u16| !names(name@, c) by {
            lemma_registered_range(c);
        }
    }
    Err(LookupError::UnknownStatusName)
}

/// The canonical reason phrase of the status that `name` identifies, or
/// `UnknownStatusName` where no entry of the registry has that identifier.
pub fn canonical_reason_of(name: &str) -> (found: Result<&'static str, LookupError>)
    ensures
        found matches Ok(phrase) ==> reason_of_name(name@) == Some(phrase@),
        found matches Err(e) ==> e == LookupError::UnknownStatusName && code_of_name(name@) is None,
{
    match code_by_name(name) {
        Ok(code) => {
            proof {
                lemma_code_of_name(name@, code);
            }
            match canonical_reason(code) {
                Some(phrase) => Ok(phrase),
                None => Err(LookupError::UnknownStatusName),
            }
        },
        Err(e) => Err(e),
    }
}

} // verus!
