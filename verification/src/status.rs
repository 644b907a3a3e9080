//! The names of the status codes that have one.
use vstd::prelude::*;

verus! {

/// The name under which a response with a well-known status code is declared.
/// 401 is named for what it means, not for what the standard calls it.
pub open spec fn status_name(code: u16) -> Option<Seq<char>> {
    if code == 100 {
        Some("Continue"@)
    } else if code == 101 {
        Some("SwitchingProtocols"@)
    } else if code == 102 {
        Some("Processing"@)
    } else if code == 200 {
        Some("Ok"@)
    } else if code == 201 {
        Some("Created"@)
    } else if code == 202 {
        Some("Accepted"@)
    } else if code == 203 {
        Some("NonAuthoritativeInformation"@)
    } else if code == 204 {
        Some("NoContent"@)
    } else if code == 205 {
        Some("ResetContent"@)
    } else if code == 206 {
        Some("PartialContent"@)
    } else if code == 207 {
        Some("MultiStatus"@)
    } else if code == 208 {
        Some("AlreadyReported"@)
    } else if code == 226 {
        Some("ImUsed"@)
    } else if code == 300 {
        Some("MultipleChoices"@)
    } else if code == 301 {
        Some("MovedPermanently"@)
    } else if code == 302 {
        Some("Found"@)
    } else if code == 303 {
        Some("SeeOther"@)
    } else if code == 304 {
        Some("NotModified"@)
    } else if code == 305 {
        Some("UseProxy"@)
    } else if code == 307 {
        Some("TemporaryRedirect"@)
    } else if code == 308 {
        Some("PermanentRedirect"@)
    } else if code == 400 {
        Some("BadRequest"@)
    } else if code == 401 {
        Some("Unauthenticated"@)
    } else if code == 402 {
        Some("PaymentRequired"@)
    } else if code == 403 {
        Some("Forbidden"@)
    } else if code == 404 {
        Some("NotFound"@)
    } else if code == 405 {
        Some("MethodNotAllowed"@)
    } else if code == 406 {
        Some("NotAcceptable"@)
    } else if code == 407 {
        Some("ProxyAuthenticationRequired"@)
    } else if code == 408 {
        Some("RequestTimeout"@)
    } else if code == 409 {
        Some("Conflict"@)
    } else if code == 410 {
        Some("Gone"@)
    } else if code == 411 {
        Some("LengthRequired"@)
    } else if code == 412 {
        Some("PreconditionFailed"@)
    } else if code == 413 {
        Some("PayloadTooLarge"@)
    } else if code == 414 {
        Some("UriTooLong"@)
    } else if code == 415 {
        Some("UnsupportedMediaType"@)
    } else if code == 416 {
        Some("RangeNotSatisfiable"@)
    } else if code == 417 {
        Some("ExpectationFailed"@)
    } else if code == 418 {
        Some("ImATeapot"@)
    } else if code == 421 {
        Some("MisdirectedRequest"@)
    } else if code == 422 {
        Some("UnprocessableEntity"@)
    } else if code == 423 {
        Some("Locked"@)
    } else if code == 424 {
        Some("FailedDependency"@)
    } else if code == 426 {
        Some("UpgradeRequired"@)
    } else if code == 428 {
        Some("PreconditionRequired"@)
    } else if code == 429 {
        Some("TooManyRequests"@)
    } else if code == 431 {
        Some("RequestHeaderFieldsTooLarge"@)
    } else if code == 451 {
        Some("UnavailableForLegalReasons"@)
    } else if code == 500 {
        Some("InternalServerError"@)
    } else if code == 501 {
        Some("NotImplemented"@)
    } else if code == 502 {
        Some("BadGateway"@)
    } else if code == 503 {
        Some("ServiceUnavailable"@)
    } else if code == 504 {
        Some("GatewayTimeout"@)
    } else if code == 505 {
        Some("HttpVersionNotSupported"@)
    } else if code == 506 {
        Some("VariantAlsoNegotiates"@)
    } else if code == 507 {
        Some("InsufficientStorage"@)
    } else if code == 508 {
        Some("LoopDetected"@)
    } else if code == 510 {
        Some("NotExtended"@)
    } else if code == 511 {
        Some("NetworkAuthenticationRequired"@)
    } else {
        None
    }
}

/// The name of a well-known status code.
pub fn known_status_name(code: u16) -> (r: Option<&'static str>)
    ensures
        r.deep_view() == status_name(code),
{
    if code == 100 {
        Some("Continue")
    } else if code == 101 {
        Some("SwitchingProtocols")
    } else if code == 102 {
        Some("Processing")
    } else if code == 200 {
        Some("Ok")
    } else if code == 201 {
        Some("Created")
    } else if code == 202 {
        Some("Accepted")
    } else if code == 203 {
        Some("NonAuthoritativeInformation")
    } else if code == 204 {
        Some("NoContent")
    } else if code == 205 {
        Some("ResetContent")
    } else if code == 206 {
        Some("PartialContent")
    } else if code == 207 {
        Some("MultiStatus")
    } else if code == 208 {
        Some("AlreadyReported")
    } else if code == 226 {
        Some("ImUsed")
    } else if code == 300 {
        Some("MultipleChoices")
    } else if code == 301 {
        Some("MovedPermanently")
    } else if code == 302 {
        Some("Found")
    } else if code == 303 {
        Some("SeeOther")
    } else if code == 304 {
        Some("NotModified")
    } else if code == 305 {
        Some("UseProxy")
    } else if code == 307 {
        Some("TemporaryRedirect")
    } else if code == 308 {
        Some("PermanentRedirect")
    } else if code == 400 {
        Some("BadRequest")
    } else if code == 401 {
        Some("Unauthenticated")
    } else if code == 402 {
        Some("PaymentRequired")
    } else if code == 403 {
        Some("Forbidden")
    } else if code == 404 {
        Some("NotFound")
    } else if code == 405 {
        Some("MethodNotAllowed")
    } else if code == 406 {
        Some("NotAcceptable")
    } else if code == 407 {
        Some("ProxyAuthenticationRequired")
    } else if code == 408 {
        Some("RequestTimeout")
    } else if code == 409 {
        Some("Conflict")
    } else if code == 410 {
        Some("Gone")
    } else if code == 411 {
        Some("LengthRequired")
    } else if code == 412 {
        Some("PreconditionFailed")
    } else if code == 413 {
        Some("PayloadTooLarge")
    } else if code == 414 {
        Some("UriTooLong")
    } else if code == 415 {
        Some("UnsupportedMediaType")
    } else if code == 416 {
        Some("RangeNotSatisfiable")
    } else if code == 417 {
        Some("ExpectationFailed")
    } else if code == 418 {
        Some("ImATeapot")
    } else if code == 421 {
        Some("MisdirectedRequest")
    } else if code == 422 {
        Some("UnprocessableEntity")
    } else if code == 423 {
        Some("Locked")
    } else if code == 424 {
        Some("FailedDependency")
    } else if code == 426 {
        Some("UpgradeRequired")
    } else if code == 428 {
        Some("PreconditionRequired")
    } else if code == 429 {
        Some("TooManyRequests")
    } else if code == 431 {
        Some("RequestHeaderFieldsTooLarge")
    } else if code == 451 {
        Some("UnavailableForLegalReasons")
    } else if code == 500 {
        Some("InternalServerError")
    } else if code == 501 {
        Some("NotImplemented")
    } else if code == 502 {
        Some("BadGateway")
    } else if code == 503 {
        Some("ServiceUnavailable")
    } else if code == 504 {
        Some("GatewayTimeout")
    } else if code == 505 {
        Some("HttpVersionNotSupported")
    } else if code == 506 {
        Some("VariantAlsoNegotiates")
    } else if code == 507 {
        Some("InsufficientStorage")
    } else if code == 508 {
        Some("LoopDetected")
    } else if code == 510 {
        Some("NotExtended")
    } else if code == 511 {
        Some("NetworkAuthenticationRequired")
    } else {
        None
    }
}

} // verus!
