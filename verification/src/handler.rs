//! The request handler: one request in, one plain-text response out.

use vstd::prelude::*;

use crate::tracker::ColdStartFlag;
use crate::tracker::cold_after;
use crate::tracker::next_cold;

verus! {

/// The HTTP method of an incoming request. The handler accepts every method
/// and reads nothing from it; it is carried only so that method independence
/// can be stated and proved.
#[derive(Clone, Copy, Debug)]
pub enum Method {
    Get,
    Post,
    Put,
    Delete,
    Head,
    Options,
    Patch,
    Trace,
    Connect,
    Other,
}

/// The handler's reply: a status code and a plain-text body.
pub struct Response {
    pub status: u16,
    pub body: String,
}

/// The body text that reports an observed flag value: the literal `"true"`
/// for a cold process, the literal `"false"` for a warm one.
pub open spec fn body_of(cold: bool) -> Seq<char> {
    if cold {
        "true"@
    } else {
        "false"@
    }
}

/// The status and body of the response to one request, as a function of the
/// request's method and of the flag value its critical section observes.
pub open spec fn response_of(method: Method, cold: bool) -> (u16, Seq<char>) {
    (200u16, body_of(cold))
}

/// Serve one request: observe the flag under exclusive access, leave the
/// process warm, and report the observed value as the body of a 200 response.
/// The operation cannot fail, and no part of the request but its arrival
/// order affects the reply.
#[allow(unused_variables)]
pub fn handle(flag: &mut ColdStartFlag, method: Method) -> (resp: Response)
    ensures
        resp.status == response_of(method, old(flag).cold()).0,
        resp.body@ == response_of(method, old(flag).cold()).1,
        resp.status == 200,
        final(flag).cold() == next_cold(old(flag).cold()),
        !final(flag).cold(),
{
    let was_cold = flag.observe_and_warm();
    let body: String = if was_cold {
        String::from_str("true")
    } else {
        String::from_str("false")
    };
    Response { status: 200, body }
}

/// A fresh process answers its first request with status 200 and body
/// `"true"`, whatever the request's method.
pub proof fn lemma_first_request_reports_cold(method: Method)
    ensures
        response_of(method, cold_after(0)).0 == 200,
        response_of(method, cold_after(0)).1 == "true"@,
{
}

/// Every later request is answered with status 200 and body `"false"`,
/// however many requests went before it and whatever its method.
pub proof fn lemma_later_requests_report_warm(method: Method, i: nat)
    requires
        i >= 1,
    ensures
        response_of(method, cold_after(i)).0 == 200,
        response_of(method, cold_after(i)).1 == "false"@,
{
}

/// Method independence: two requests that observe the same flag value get the
/// same response, whatever their methods.
pub proof fn lemma_method_independent(m1: Method, m2: Method, cold: bool)
    ensures
        response_of(m1, cold) == response_of(m2, cold),
{
}

} // verus!
