//! The callback that may change the headers of each outbound request.

use vstd::prelude::*;
use http::HeaderMap;
use http::header::HeaderValue;

verus! {

#[verifier::external_type_specification]
#[verifier::external_body]
pub struct ExHeaderValue(HeaderValue);

#[verifier::external_type_specification]
#[verifier::external_body]
#[verifier::reject_recursive_types(T)]
pub struct ExHeaderMap<T>(HeaderMap<T>);

/// Something that can change the headers of an outbound request.
///
/// The channel calls `intercept` once for each request, on that request's path and possibly
/// from several requests at once; an endpoint only keeps the interceptor and never calls it.
pub trait InterceptHeaders: Send + Sync {
    fn intercept(&self, headers: &mut HeaderMap);
}

/// An interceptor as an endpoint keeps it.
pub struct HeaderInterceptor {
    pub callback: Box<dyn InterceptHeaders>,
}

} // verus!
