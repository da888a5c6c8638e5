//! What holds of the service as a whole, whatever is asked of it.

use vstd::prelude::*;

use crate::http::models::{accepted, rejection};
use crate::http::response::{ok_response, BodyView, ResponseView, StatusCode};
use crate::http::routes::{find_route, serves, Handler, Method, RouteView};
use crate::http::views::validation_response;
use crate::http::decimal::{decimal, lemma_decimal_value};
use crate::http::{
    dispatch_of, fault_response_of, not_found_response, served_routes, timeout_message,
    DispatchView, PipelineFault,
};

verus! {

/// Whether the service has a route for `method` and `path`.
pub open spec fn is_served(method: Method, path: Seq<char>) -> bool {
    ||| method == Method::Get && path == "/"@
    ||| method == Method::Get && path == "/api/v1/"@
    ||| method == Method::Post && path == "/api/v1/validation"@
    ||| method == Method::Get && path == "/metrics"@
}

/// The handler the service has for `method` and `path`, read off its table
/// line by line.
proof fn lemma_served_routes(method: Method, path: Seq<char>)
    ensures
        find_route(served_routes(), method, path) == if method == Method::Get && path
            == "/api/v1/"@ {
            Some(Handler::Home)
        } else if method == Method::Post && path == "/api/v1/validation"@ {
            Some(Handler::Validation)
        } else if method == Method::Get && path == "/"@ {
            Some(Handler::Health)
        } else if method == Method::Get && path == "/metrics"@ {
            Some(Handler::Metrics)
        } else {
            None
        },
{
    let all = served_routes();
    let from_1 = all.drop_first();
    let from_2 = from_1.drop_first();
    let from_3 = from_2.drop_first();
    let from_4 = from_3.drop_first();
    assert(from_1[0] == all[1] && from_2[0] == all[2] && from_3[0] == all[3]);
    assert(from_4.len() == 0);
    assert(find_route(from_4, method, path) is None);
    assert(find_route(from_3, method, path) == if serves(all[3], method, path) {
        Some(all[3].handler)
    } else {
        None
    });
    assert(find_route(from_2, method, path) == if serves(all[2], method, path) {
        Some(all[2].handler)
    } else {
        find_route(from_3, method, path)
    });
    assert(find_route(from_1, method, path) == if serves(all[1], method, path) {
        Some(all[1].handler)
    } else {
        find_route(from_2, method, path)
    });
}

/// The four paths of the service are four different texts.
proof fn lemma_paths_differ()
    ensures
        "/"@ != "/api/v1/"@,
        "/"@ != "/api/v1/validation"@,
        "/"@ != "/metrics"@,
        "/api/v1/"@ != "/api/v1/validation"@,
        "/api/v1/"@ != "/metrics"@,
        "/api/v1/validation"@ != "/metrics"@,
{
    reveal_strlit("/");
    reveal_strlit("/api/v1/");
    reveal_strlit("/api/v1/validation");
    reveal_strlit("/metrics");
    assert("/"@.len() == 1);
    assert("/api/v1/"@.len() == 8);
    assert("/api/v1/validation"@.len() == 18);
    assert("/metrics"@.len() == 8);
    assert("/api/v1/"@[1] == 'a');
    assert("/metrics"@[1] == 'm');
}

/// A body whose message holds at least one character is answered, on the
/// validation route, with 200 and `Ok`.
pub proof fn law_valid_body_is_answered_ok(message: Seq<char>)
    requires
        message.len() >= 1,
    ensures
        dispatch_of(served_routes(), Method::Post, "/api/v1/validation"@, Some(message))
            == DispatchView::Reply(ok_response()),
{
    lemma_served_routes(Method::Post, "/api/v1/validation"@);
}

/// A body without a message, or with an empty one, is turned away on the
/// validation route with 400 and the reasons. The answer is a function of the
/// body alone, so the same body is turned away in the same way every time;
/// and it is no answer of the handler, which only ever says `Ok`.
pub proof fn law_invalid_body_is_rejected(message: Option<Seq<char>>)
    requires
        message is None || message == Some(Seq::<char>::empty()),
    ensures
        dispatch_of(served_routes(), Method::Post, "/api/v1/validation"@, message)
            == DispatchView::Reply(
            ResponseView { status: StatusCode::BadRequest, body: BodyView::Errors(rejection(message)) },
        ),
        StatusCode::BadRequest.is_client_error(),
        validation_response(message) != ok_response(),
{
    lemma_served_routes(Method::Post, "/api/v1/validation"@);
}

/// The validation route tells every body either `Ok` or why not: a body is
/// turned away exactly when its message is missing or empty.
pub proof fn law_rejected_iff_missing_or_empty(message: Option<Seq<char>>)
    ensures
        accepted(message) <==> !(message is None || message == Some(Seq::<char>::empty())),
        accepted(message) <==> validation_response(message) == ok_response(),
{
    if let Some(text) = message {
        if text.len() == 0 {
            assert(text =~= Seq::<char>::empty());
        }
    }
}

/// The two liveness routes answer 200 and `Ok` to every request: nothing
/// that comes with the request has a part in the answer.
pub proof fn law_liveness_is_answered_ok(message: Option<Seq<char>>)
    ensures
        dispatch_of(served_routes(), Method::Get, "/"@, message) == DispatchView::Reply(
            ok_response(),
        ),
        dispatch_of(served_routes(), Method::Get, "/api/v1/"@, message) == DispatchView::Reply(
            ok_response(),
        ),
{
    lemma_paths_differ();
    lemma_served_routes(Method::Get, "/"@);
    lemma_served_routes(Method::Get, "/api/v1/"@);
}

/// A request for a path or a method that the service has no route for is
/// answered with 404 and the one fixed body.
pub proof fn law_unserved_is_not_found(method: Method, path: Seq<char>, message: Option<Seq<char>>)
    requires
        !is_served(method, path),
    ensures
        dispatch_of(served_routes(), method, path, message) == DispatchView::Reply(
            not_found_response(),
        ),
{
    lemma_served_routes(method, path);
}

/// Only a request that the service has no route for is answered by the
/// fallback.
pub proof fn law_served_is_not_answered_by_fallback(
    method: Method,
    path: Seq<char>,
    message: Option<Seq<char>>,
)
    requires
        is_served(method, path),
    ensures
        dispatch_of(served_routes(), method, path, message) != DispatchView::Reply(
            not_found_response(),
        ),
{
    lemma_paths_differ();
    lemma_served_routes(method, path);
}

/// The scrape endpoint is reached by every `GET /metrics`, whatever else the
/// request holds.
pub proof fn law_metrics_is_reached(message: Option<Seq<char>>)
    ensures
        dispatch_of(served_routes(), Method::Get, "/metrics"@, message) == DispatchView::Scrape,
{
    lemma_paths_differ();
    lemma_served_routes(Method::Get, "/metrics"@);
}

/// A request that outlives its deadline is answered with 408 and the one
/// sentence that names the deadline, whatever the deadline is; any other
/// fault is answered with 500. No fault is answered as a success.
pub proof fn law_fault_is_answered(fault: PipelineFault, seconds: nat)
    ensures
        fault is Elapsed <==> fault_response_of(fault, seconds).status == StatusCode::RequestTimeout,
        !(fault is Elapsed) <==> fault_response_of(fault, seconds).status
            == StatusCode::InternalServerError,
        fault is Elapsed ==> fault_response_of(fault, seconds).body == BodyView::Error(
            timeout_message(seconds),
        ),
        !fault_response_of(fault, seconds).status.is_success(),
{
}

/// The sentence that answers an elapsed deadline tells the deadline: two
/// different deadlines are never answered alike.
pub proof fn law_timeout_message_tells_deadline(a: nat, b: nat)
    requires
        timeout_message(a) == timeout_message(b),
    ensures
        a == b,
{
    let head = "request took longer than the configured "@;
    let tail = " second timeout"@;
    let of_a = timeout_message(a);
    let of_b = timeout_message(b);
    assert(of_a.len() == head.len() + decimal(a).len() + tail.len());
    assert(of_b.len() == head.len() + decimal(b).len() + tail.len());
    let from = head.len() as int;
    assert(of_a.subrange(from, from + decimal(a).len()) =~= decimal(a));
    assert(of_b.subrange(from, from + decimal(b).len()) =~= decimal(b));
    lemma_decimal_value(a);
    lemma_decimal_value(b);
}

} // verus!
