//! The application as a whole: its routes, the middleware chain around them,
//! and the answers that come from no handler.

pub mod decimal;
pub mod laws;
pub mod models;
pub mod response;
pub mod routes;
pub mod services;
pub mod startup;
pub mod views;

use std::sync::Arc;
use vstd::prelude::*;
use vstd::string::StringExecFns;

use crate::config::AppConfig;
use crate::http::decimal::{decimal, decimal_text};
use crate::http::models::ValidationRequest;
use crate::http::response::{ok_response, Body, BodyView, Response, ResponseView, StatusCode};
use crate::http::routes::{find_route, nest, resolve, table, Handler, Method, Route, RouteView};
use crate::http::services::Services;
use crate::http::views::{api_routes, checked_validation, health, home, validation_response};

verus! {

/// Seconds a request may take before it is given up.
pub const HTTP_TIMEOUT: u64 = 30;

/// Requests that may wait for admission at one time.
pub const BUFFER_CAPACITY: usize = 1024;

/// Requests admitted per window.
pub const RATE_LIMIT: u64 = 5;

/// Length of a window of the rate limiter, in seconds.
pub const RATE_WINDOW_SECONDS: u64 = 1;

/// One layer of the middleware chain.
#[derive(Clone, Copy, Debug, PartialEq, Eq, Structural)]
pub enum Layer {
    /// Records method, path, status and latency; changes nothing.
    Trace,
    /// Turns every fault of the layers below into a response.
    HandleError,
    /// Gives a request up after so many seconds.
    Timeout { seconds: u64 },
    /// Lets so many requests wait for admission, and no more.
    Buffer { capacity: usize },
    /// Admits so many requests per window of so many seconds.
    RateLimit { requests: u64, per_seconds: u64 },
    /// Counts requests and measures their latency.
    Metrics,
}

/// The upper bounds of the latency histogram, in milliseconds.
pub open spec fn latency_buckets() -> Seq<u64> {
    seq![5, 10, 25, 50, 100, 250, 500, 1000, 2500, 5000, 10000]
}

/// The settings of the middleware chain.
#[derive(Clone, Debug, PartialEq, Eq)]
pub struct Pipeline {
    pub timeout_seconds: u64,
    pub buffer_capacity: usize,
    pub rate_limit: u64,
    pub rate_window_seconds: u64,
    pub latency_buckets_ms: Vec<u64>,
}

impl Pipeline {
    /// Whether a chain can be built from the settings: a deadline, a buffer
    /// and a rate that are not zero, and histogram bounds that grow.
    pub open spec fn wf(&self) -> bool {
        &&& self.timeout_seconds > 0
        &&& self.buffer_capacity > 0
        &&& self.rate_limit > 0
        &&& self.rate_window_seconds > 0
        &&& forall|i: int, j: int|
            0 <= i < j < self.latency_buckets_ms.len() ==> self.latency_buckets_ms[i]
                < self.latency_buckets_ms[j]
    }

    /// Whether these are the settings the service runs with.
    pub open spec fn is_standard(&self) -> bool {
        &&& self.timeout_seconds == HTTP_TIMEOUT
        &&& self.buffer_capacity == BUFFER_CAPACITY
        &&& self.rate_limit == RATE_LIMIT
        &&& self.rate_window_seconds == RATE_WINDOW_SECONDS
        &&& self.latency_buckets_ms@ == latency_buckets()
    }

    /// The chain from the outermost layer to the innermost. A request passes
    /// the layers in this order and its response passes them in reverse; the
    /// routes lie behind the last.
    pub open spec fn chain(&self) -> Seq<Layer> {
        seq![
            Layer::Trace,
            Layer::HandleError,
            Layer::Timeout { seconds: self.timeout_seconds },
            Layer::Buffer { capacity: self.buffer_capacity },
            Layer::RateLimit { requests: self.rate_limit, per_seconds: self.rate_window_seconds },
            Layer::Metrics,
        ]
    }

    /// The settings the service runs with.
    pub fn standard() -> (pipeline: Self)
        ensures
            pipeline.is_standard(),
            pipeline.wf(),
    {
        let mut buckets: Vec<u64> = Vec::new();
        buckets.push(5);
        buckets.push(10);
        buckets.push(25);
        buckets.push(50);
        buckets.push(100);
        buckets.push(250);
        buckets.push(500);
        buckets.push(1000);
        buckets.push(2500);
        buckets.push(5000);
        buckets.push(10000);
        assert(buckets@ =~= latency_buckets());
        Pipeline {
            timeout_seconds: HTTP_TIMEOUT,
            buffer_capacity: BUFFER_CAPACITY,
            rate_limit: RATE_LIMIT,
            rate_window_seconds: RATE_WINDOW_SECONDS,
            latency_buckets_ms: buckets,
        }
    }

    /// Checks the settings before a chain is built from them.
    pub fn is_well_formed(&self) -> (ok: bool)
        ensures
            ok == self.wf(),
    {
        if self.timeout_seconds == 0 || self.buffer_capacity == 0 || self.rate_limit == 0
            || self.rate_window_seconds == 0 {
            return false;
        }
        let mut i: usize = 1;
        while i < self.latency_buckets_ms.len()
            invariant
                1 <= i,
                forall|a: int, b: int|
                    0 <= a < b < i && b < self.latency_buckets_ms.len()
                        ==> self.latency_buckets_ms[a] < self.latency_buckets_ms[b],
            decreases self.latency_buckets_ms.len() - i,
        {
            if self.latency_buckets_ms[i - 1] >= self.latency_buckets_ms[i] {
                return false;
            }
            i += 1;
        }
        true
    }

    /// The layers of the chain, outermost first.
    pub fn layers(&self) -> (layers: Vec<Layer>)
        ensures
            layers@ == self.chain(),
    {
        let mut layers: Vec<Layer> = Vec::new();
        layers.push(Layer::Trace);
        layers.push(Layer::HandleError);
        layers.push(Layer::Timeout { seconds: self.timeout_seconds });
        layers.push(Layer::Buffer { capacity: self.buffer_capacity });
        layers.push(
            Layer::RateLimit { requests: self.rate_limit, per_seconds: self.rate_window_seconds },
        );
        layers.push(Layer::Metrics);
        assert(layers@ =~= self.chain());
        layers
    }
}

/// What went wrong below the error boundary, as far as the answer depends on
/// it.
#[derive(Clone, Debug, PartialEq, Eq)]
pub enum PipelineFault {
    /// The deadline passed before the request was served.
    Elapsed,
    /// Anything else, with the fault's own description.
    Unhandled(String),
}

/// The text of the answer to a request that took longer than `seconds`.
pub open spec fn timeout_message(seconds: nat) -> Seq<char> {
    "request took longer than the configured "@ + decimal(seconds) + " second timeout"@
}

/// The text of the answer to a fault that describes itself as `detail`.
pub open spec fn unhandled_message(detail: Seq<char>) -> Seq<char> {
    "unhandled internal error: "@ + detail
}

/// The answer to a fault under a deadline of `seconds`: 408 where the
/// deadline passed, 500 for anything else, and in both a body that holds the
/// one text and nothing of a response that was under way.
pub open spec fn fault_response_of(fault: PipelineFault, seconds: nat) -> ResponseView {
    match fault {
        PipelineFault::Elapsed => ResponseView {
            status: StatusCode::RequestTimeout,
            body: BodyView::Error(timeout_message(seconds)),
        },
        PipelineFault::Unhandled(detail) => ResponseView {
            status: StatusCode::InternalServerError,
            body: BodyView::Error(unhandled_message(detail@)),
        },
    }
}

/// The one reason the fallback gives.
pub open spec fn not_found_text() -> Seq<char> {
    "The requested resource does not exist on this server!"@
}

/// The answer to a request that no route serves.
pub open spec fn not_found_response() -> ResponseView {
    ResponseView { status: StatusCode::NotFound, body: BodyView::Errors(seq![not_found_text()]) }
}

/// The routes of the service.
pub open spec fn served_routes() -> Seq<RouteView> {
    seq![
        RouteView { method: Method::Get, path: "/api/v1/"@, handler: Handler::Home },
        RouteView { method: Method::Post, path: "/api/v1/validation"@, handler: Handler::Validation },
        RouteView { method: Method::Get, path: "/"@, handler: Handler::Health },
        RouteView { method: Method::Get, path: "/metrics"@, handler: Handler::Metrics },
    ]
}

/// What becomes of a request once the table has been consulted.
#[derive(Clone, Debug, PartialEq, Eq)]
pub enum Dispatch {
    /// Send this response.
    Reply(Response),
    /// Render the collected metrics and answer with them.
    Scrape,
}

/// A [`Dispatch`] as mathematical text.
pub enum DispatchView {
    Reply(ResponseView),
    Scrape,
}

impl View for Dispatch {
    type V = DispatchView;

    open spec fn view(&self) -> DispatchView {
        match self {
            Dispatch::Reply(response) => DispatchView::Reply(response@),
            Dispatch::Scrape => DispatchView::Scrape,
        }
    }
}

/// What a table of `routes` makes of a request for `method` and `path` whose
/// body holds `message`.
pub open spec fn dispatch_of(
    routes: Seq<RouteView>,
    method: Method,
    path: Seq<char>,
    message: Option<Seq<char>>,
) -> DispatchView {
    match find_route(routes, method, path) {
        Some(Handler::Health) => DispatchView::Reply(ok_response()),
        Some(Handler::Home) => DispatchView::Reply(ok_response()),
        Some(Handler::Validation) => DispatchView::Reply(validation_response(message)),
        Some(Handler::Metrics) => DispatchView::Scrape,
        None => DispatchView::Reply(not_found_response()),
    }
}

/// Turns a fault of the middleware chain into a response.
pub fn fault_response(fault: PipelineFault, timeout_seconds: u64) -> (response: Response)
    ensures
        response@ == fault_response_of(fault, timeout_seconds as nat),
{
    match fault {
        PipelineFault::Elapsed => {
            let text = String::from_str("request took longer than the configured ").concat(
                decimal_text(timeout_seconds).as_str(),
            ).concat(" second timeout");
            Response { status: StatusCode::RequestTimeout, body: Body::Error(text) }
        },
        PipelineFault::Unhandled(detail) => {
            let text = String::from_str("unhandled internal error: ").concat(detail.as_str());
            Response { status: StatusCode::InternalServerError, body: Body::Error(text) }
        },
    }
}

/// The service, described: its routes, the settings of its middleware chain,
/// and the state its handlers share.
pub struct Application {
    pub routes: Vec<Route>,
    pub pipeline: Pipeline,
    pub state: Services,
}

impl Application {
    /// Decides what becomes of a request. `path` is the path of the request
    /// target, without a query; of the body only the parsed record is looked
    /// at, and only on the validation route. A request that no route serves,
    /// be it for its path or for its method, is answered by the fallback.
    pub fn dispatch(&self, method: Method, path: &str, body: &ValidationRequest) -> (outcome:
        Dispatch)
        ensures
            outcome@ == dispatch_of(table(self.routes@), method, path@, body@),
    {
        match resolve(&self.routes, method, path) {
            Some(Handler::Health) => Dispatch::Reply(
                Response { status: StatusCode::Success, body: Body::Message(health().message) },
            ),
            Some(Handler::Home) => Dispatch::Reply(
                Response { status: StatusCode::Success, body: Body::Message(home().message) },
            ),
            Some(Handler::Validation) => Dispatch::Reply(checked_validation(&self.state, body)),
            Some(Handler::Metrics) => Dispatch::Scrape,
            None => Dispatch::Reply(ApplicationServer::handle_404()),
        }
    }
}

/// The entry points of the service: how it is put together, and what it
/// answers where no handler does.
pub struct ApplicationServer;

impl ApplicationServer {
    /// Describes the service for the given settings.
    pub fn app(config: Arc<AppConfig>) -> (application: Application)
        ensures
            table(application.routes@) == served_routes(),
            application.pipeline.is_standard(),
            application.pipeline.wf(),
            application.state.config == config,
    {
        let state = Services::new(config);
        let group = crate::http::views::app();
        let ghost inner = group@;
        let mut routes = nest("/api/v1", group);
        proof {
            reveal_strlit("/api/v1");
            reveal_strlit("/");
            reveal_strlit("/validation");
            reveal_strlit("/api/v1/");
            reveal_strlit("/api/v1/validation");
            assert("/api/v1"@ + "/"@ =~= "/api/v1/"@);
            assert("/api/v1"@ + "/validation"@ =~= "/api/v1/validation"@);
            assert(api_routes().len() == 2);
            assert(inner[0]@ == table(inner)[0] && inner[1]@ == table(inner)[1]);
            assert(routes[0]@ == served_routes()[0]);
            assert(routes[1]@ == served_routes()[1]);
        }
        routes.push(
            Route { method: Method::Get, path: String::from_str("/"), handler: Handler::Health },
        );
        routes.push(
            Route {
                method: Method::Get,
                path: String::from_str("/metrics"),
                handler: Handler::Metrics,
            },
        );
        assert(table(routes@) =~= served_routes());
        Application { routes, pipeline: Pipeline::standard(), state }
    }

    /// The answer of the error boundary to a fault of the layers below it,
    /// under the deadline the service runs with.
    pub fn handle_timeout_error(fault: PipelineFault) -> (response: Response)
        ensures
            response@ == fault_response_of(fault, HTTP_TIMEOUT as nat),
    {
        fault_response(fault, HTTP_TIMEOUT)
    }

    /// The answer of the fallback.
    pub fn handle_404() -> (response: Response)
        ensures
            response@ == not_found_response(),
    {
        let mut reasons: Vec<String> = Vec::new();
        reasons.push(String::from_str("The requested resource does not exist on this server!"));
        let response = Response { status: StatusCode::NotFound, body: Body::Errors(reasons) };
        assert(response@.body->Errors_0 =~= seq![not_found_text()]);
        response
    }
}

} // verus!
