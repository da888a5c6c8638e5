//! The handlers, and the routes of the API group.

use vstd::prelude::*;
use vstd::string::StringExecFns;

use crate::http::models::{
    accepted, rejection, HealthCheckResponse, ValidationRequest, ValidationResponse,
};
use crate::http::response::{ok_response, Body, BodyView, Response, ResponseView, StatusCode};
use crate::http::routes::{table, Handler, Method, Route, RouteView};
use crate::http::services::Services;

verus! {

/// The routes of the API group, relative to where the group is mounted.
pub open spec fn api_routes() -> Seq<RouteView> {
    seq![
        RouteView { method: Method::Get, path: "/"@, handler: Handler::Home },
        RouteView { method: Method::Post, path: "/validation"@, handler: Handler::Validation },
    ]
}

/// What the validation route answers to a body with this `message` field:
/// 200 and `Ok` where the body passes, 400 and the reasons where it does not.
pub open spec fn validation_response(message: Option<Seq<char>>) -> ResponseView {
    if accepted(message) {
        ok_response()
    } else {
        ResponseView { status: StatusCode::BadRequest, body: BodyView::Errors(rejection(message)) }
    }
}

/// The routes of the API group.
pub fn app() -> (routes: Vec<Route>)
    ensures
        table(routes@) == api_routes(),
{
    let mut routes: Vec<Route> = Vec::new();
    routes.push(Route { method: Method::Get, path: String::from_str("/"), handler: Handler::Home });
    routes.push(
        Route {
            method: Method::Post,
            path: String::from_str("/validation"),
            handler: Handler::Validation,
        },
    );
    assert(table(routes@) =~= api_routes());
    routes
}

/// Liveness at the root: answers `Ok`, whatever was asked.
pub fn health() -> (response: HealthCheckResponse)
    ensures
        response.message@ == "Ok"@,
{
    HealthCheckResponse::default()
}

/// Liveness at the root of the API: answers `Ok`, whatever was asked.
pub fn home() -> (response: HealthCheckResponse)
    ensures
        response.message@ == "Ok"@,
{
    HealthCheckResponse::default()
}

/// The validation handler. It is only ever handed a body that has passed the
/// check, and answers `Ok`; it reads nothing of the settings.
pub fn validation(services: &Services, request: &ValidationRequest) -> (response:
    ValidationResponse)
    requires
        request.is_valid(),
    ensures
        response.message@ == "Ok"@,
{
    let _ = &services.config;
    ValidationResponse { message: String::from_str("Ok") }
}

/// The validation route as a whole: checks the body, and runs the handler
/// only where the body passes.
pub fn checked_validation(services: &Services, request: &ValidationRequest) -> (response: Response)
    ensures
        response@ == validation_response(request@),
{
    match request.validate() {
        Ok(()) => {
            let answer = validation(services, request);
            Response { status: StatusCode::Success, body: Body::Message(answer.message) }
        },
        Err(errors) => Response {
            status: StatusCode::BadRequest,
            body: Body::Errors(errors.message),
        },
    }
}

/// The scrape endpoint: answers 200 with the exposition text it is handed,
/// unchanged.
pub fn metrics(exposition: String) -> (response: Response)
    ensures
        response@ == (ResponseView {
            status: StatusCode::Success,
            body: BodyView::Text(exposition@),
        }),
{
    Response { status: StatusCode::Success, body: Body::Text(exposition) }
}

} // verus!
