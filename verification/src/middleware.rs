//! The middleware that the wrapper of an authenticated operation asks before
//! the handler runs, and the hooks through which it can wrap every request.
use vstd::prelude::*;
use crate::error::HttpResponse;

verus! {

/// Authenticates requests and, if it wants to, wraps the handling of each
/// (to log, to measure, to add headers to responses).
pub trait Middleware {
    /// What a successful authentication gives: a user, a session, or the unit
    /// type where no operation is authenticated.
    type AuthOk;

    /// Authenticates the request for the operation `operation_id` from its
    /// headers. On failure the response is what the client gets.
    fn authenticate(&self, operation_id: &str, headers: &Vec<(String, String)>) -> Result<
        Self::AuthOk,
        HttpResponse,
    >;

    /// Wraps the handling of an authenticated request. It must call
    /// `api_handler`, and does so at once unless it is overridden.
    fn wrap_handler_authed<F: FnOnce(Vec<(String, String)>, Self::AuthOk) -> HttpResponse>(
        &self,
        api_handler: F,
        operation_id: &str,
        headers: Vec<(String, String)>,
        auth_ok: Self::AuthOk,
    ) -> (r: HttpResponse)
        requires
            call_requires(api_handler, (headers, auth_ok)),
        ensures
            call_ensures(api_handler, (headers, auth_ok), r),
    {
        api_handler(headers, auth_ok)
    }

    /// Wraps the handling of a request that needs no authentication. It must
    /// call `api_handler`, and does so at once unless it is overridden.
    fn wrap_handler_unauthed<F: FnOnce(Vec<(String, String)>) -> HttpResponse>(
        &self,
        api_handler: F,
        operation_id: &str,
        headers: Vec<(String, String)>,
    ) -> (r: HttpResponse)
        requires
            call_requires(api_handler, (headers,)),
        ensures
            call_ensures(api_handler, (headers,), r),
    {
        api_handler(headers)
    }
}

/// A middleware that authenticates nothing: for APIs without authenticated
/// operations, and for handlers that authenticate by themselves.
#[derive(Clone, Copy, Debug)]
pub struct UnauthenticatedMiddleware;

impl Middleware for UnauthenticatedMiddleware {
    type AuthOk = ();

    fn authenticate(&self, operation_id: &str, headers: &Vec<(String, String)>) -> (r: Result<
        (),
        HttpResponse,
    >)
        ensures
            r is Ok,
    {
        Ok(())
    }
}

} // verus!
