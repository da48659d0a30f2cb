//! Deferred context resolution.
//!
//! Every request is resolved once, before it is routed: the outcome, a
//! context or the reason why there is none, is recorded and the request goes
//! on. Only a route that asks for the context turns a recorded failure into
//! the request's error.

use vstd::prelude::*;
use crate::ctx::Ctx;
use crate::error::Error;
use crate::token::{parse_token, token_of_text};

verus! {

/// The outcome of resolving one request: the caller's context, or why there
/// is none.
pub type ContextResolution = Result<Ctx, Error>;

/// What a request carries along for the steps that follow: at most one
/// context resolution.
#[derive(Debug, Clone, Copy)]
pub struct RequestExtensions {
    resolution: Option<ContextResolution>,
}

/// The resolution that a cookie value leads to: no cookie, no context; a
/// cookie that is no token, no context either; a token, the context of its
/// subject, whatever expiry and signature say.
pub open spec fn resolution_of(cookie: Option<Seq<char>>) -> ContextResolution {
    match cookie {
        None => Err(Error::AuthFailNoAuthTokenCookie),
        Some(value) => match token_of_text(value) {
            None => Err(Error::AuthFailTokenWrongFormat),
            Some(token) => Ok(Ctx::of(token.subject_id)),
        },
    }
}

/// What the extractor makes of the recorded resolution: the context, the
/// recorded failure, or, where nothing was recorded, the failure that says
/// so.
pub open spec fn extraction_of(recorded: Option<ContextResolution>) -> Result<Ctx, Error> {
    match recorded {
        None => Err(Error::AuthFailContextNotInRequestExtension),
        Some(resolution) => resolution,
    }
}

/// The text of an optional cookie value.
pub open spec fn cookie_text(cookie: Option<&str>) -> Option<Seq<char>> {
    match cookie {
        None => None,
        Some(value) => Some(value@),
    }
}

impl RequestExtensions {
    /// The resolution recorded so far, if any.
    pub closed spec fn recorded(&self) -> Option<ContextResolution> {
        self.resolution
    }

    /// The extensions of a request that no step has touched yet.
    pub fn new() -> (extensions: RequestExtensions)
        ensures
            extensions.recorded() is None,
    {
        RequestExtensions { resolution: None }
    }

    /// Records `resolution`, in place of an earlier one if there was any.
    pub fn insert(&mut self, resolution: ContextResolution)
        ensures
            final(self).recorded() == Some(resolution),
    {
        self.resolution = Some(resolution);
    }

    /// The recorded resolution, if any.
    pub fn get(&self) -> (recorded: Option<ContextResolution>)
        ensures
            recorded == self.recorded(),
    {
        self.resolution
    }
}

/// Resolves the caller from the value of the session cookie, if the request
/// has one. A structurally valid token is accepted as it is.
pub fn resolve_context(cookie: Option<&str>) -> (resolution: ContextResolution)
    ensures
        resolution == resolution_of(cookie_text(cookie)),
{
    match cookie {
        None => Err(Error::AuthFailNoAuthTokenCookie),
        Some(value) => match parse_token(value) {
            Err(_) => Err(Error::AuthFailTokenWrongFormat),
            Ok(token) => Ok(Ctx::new(token.subject_id())),
        },
    }
}

/// The context resolver: resolves the request's caller and records the
/// outcome, success or failure, for later use. It never ends the request.
pub fn middleware_context_resolver(extensions: &mut RequestExtensions, cookie: Option<&str>)
    ensures
        final(extensions).recorded() == Some(resolution_of(cookie_text(cookie))),
{
    let resolution = resolve_context(cookie);
    extensions.insert(resolution);
}

/// The context extractor: hands out the recorded context. A recorded
/// failure becomes the request's error here, and so does the absence of any
/// record.
pub fn extract_ctx(extensions: &RequestExtensions) -> (r: Result<Ctx, Error>)
    ensures
        r == extraction_of(extensions.recorded()),
{
    match extensions.get() {
        None => Err(Error::AuthFailContextNotInRequestExtension),
        Some(resolution) => resolution,
    }
}

/// The guard in front of the protected routes. `Ok` lets the request pass
/// unchanged to the route; `Err` ends it with the extractor's error, and the
/// route is not run.
pub fn middleware_require_auth(extensions: &RequestExtensions) -> (r: Result<(), Error>)
    ensures
        r is Ok <==> extraction_of(extensions.recorded()) is Ok,
        r is Err ==> extraction_of(extensions.recorded()) == Err::<Ctx, Error>(r->Err_0),
{
    match extract_ctx(extensions) {
        Ok(_) => Ok(()),
        Err(e) => Err(e),
    }
}

/// A request without the session cookie is turned away from a protected
/// route, and its client is told 403 and `NO_AUTH`.
pub proof fn lemma_missing_cookie_is_rejected()
    ensures
        extraction_of(Some(resolution_of(None))) == Err::<Ctx, Error>(
            Error::AuthFailNoAuthTokenCookie,
        ),
        Error::AuthFailNoAuthTokenCookie.status_and_client_error() == (
            crate::error::HttpStatus::Forbidden,
            crate::error::ClientError::NO_AUTH,
        ),
        Error::AuthFailNoAuthTokenCookie.status_and_client_error().0.code() == 403,
{
}

/// A request whose cookie does not have the shape of a token is turned away
/// from a protected route, and its client is told 403 and `NO_AUTH`.
pub proof fn lemma_malformed_cookie_is_rejected(value: Seq<char>)
    requires
        token_of_text(value) is None,
    ensures
        extraction_of(Some(resolution_of(Some(value)))) == Err::<Ctx, Error>(
            Error::AuthFailTokenWrongFormat,
        ),
        Error::AuthFailTokenWrongFormat.status_and_client_error() == (
            crate::error::HttpStatus::Forbidden,
            crate::error::ClientError::NO_AUTH,
        ),
        Error::AuthFailTokenWrongFormat.status_and_client_error().0.code() == 403,
{
}

/// A request whose cookie has the shape of a token passes the guard, and the
/// route sees a caller whose id is the number in the token's first segment.
pub proof fn lemma_valid_cookie_is_authenticated(value: Seq<char>)
    requires
        token_of_text(value) is Some,
    ensures
        extraction_of(Some(resolution_of(Some(value)))) is Ok,
        extraction_of(Some(resolution_of(Some(value))))->Ok_0.id() == token_of_text(
            value,
        )->0.subject_id,
        extraction_of(Some(resolution_of(Some(value))))->Ok_0.id()
            == crate::decimal::decimal_value(value.subrange(0, crate::token::next_dot(value, 0))),
{
    Ctx::lemma_of(token_of_text(value)->0.subject_id);
}

/// Whatever the cookie, a route that is reached without any recorded
/// resolution is refused with the failure that says so, not with a crash.
pub proof fn lemma_unresolved_request_is_rejected()
    ensures
        extraction_of(None) == Err::<Ctx, Error>(Error::AuthFailContextNotInRequestExtension),
        Error::AuthFailContextNotInRequestExtension.status_and_client_error().0.code() == 403,
{
}

} // verus!
