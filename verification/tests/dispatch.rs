use std::sync::Arc;

use starter::config::{AppConfig, CargoEnv};
use starter::http::models::ValidationRequest;
use starter::http::response::{Body, Response, StatusCode};
use starter::http::routes::{nest, resolve, Handler, Method, Route};
use starter::http::views::app;
use starter::http::{Application, ApplicationServer, Dispatch};

fn application() -> Application {
    ApplicationServer::app(Arc::new(AppConfig {
        cargo_env: CargoEnv::Development,
        port: 9001,
        host: String::from("0.0.0.0"),
        database_url: String::from("app.db"),
        shared_secret: String::from("notagoodsecret"),
    }))
}

fn body(message: Option<&str>) -> ValidationRequest {
    ValidationRequest { message: message.map(String::from) }
}

fn ok() -> Dispatch {
    Dispatch::Reply(Response {
        status: StatusCode::Success,
        body: Body::Message(String::from("Ok")),
    })
}

fn not_found() -> Dispatch {
    Dispatch::Reply(Response {
        status: StatusCode::NotFound,
        body: Body::Errors(vec![String::from(
            "The requested resource does not exist on this server!",
        )]),
    })
}

fn route(method: Method, path: &str, handler: Handler) -> Route {
    Route { method, path: String::from(path), handler }
}

#[test]
fn the_service_has_its_four_routes() {
    assert_eq!(
        application().routes,
        vec![
            route(Method::Get, "/api/v1/", Handler::Home),
            route(Method::Post, "/api/v1/validation", Handler::Validation),
            route(Method::Get, "/", Handler::Health),
            route(Method::Get, "/metrics", Handler::Metrics),
        ]
    );
}

#[test]
fn the_api_group_has_its_two_routes() {
    assert_eq!(
        app(),
        vec![
            route(Method::Get, "/", Handler::Home),
            route(Method::Post, "/validation", Handler::Validation),
        ]
    );
}

#[test]
fn the_application_shares_the_settings() {
    let config = Arc::new(AppConfig {
        cargo_env: CargoEnv::Testing,
        port: 1234,
        host: String::from("localhost"),
        database_url: String::from("test.db"),
        shared_secret: String::from("hush"),
    });
    let application = ApplicationServer::app(config.clone());
    assert!(Arc::ptr_eq(&application.state.config, &config));
}

#[test]
fn get_root_is_answered_ok() {
    assert_eq!(application().dispatch(Method::Get, "/", &body(None)), ok());
}

#[test]
fn get_api_root_is_answered_ok() {
    assert_eq!(application().dispatch(Method::Get, "/api/v1/", &body(None)), ok());
}

#[test]
fn liveness_does_not_look_at_the_body() {
    let application = application();
    for message in [None, Some(""), Some("anything at all")] {
        assert_eq!(application.dispatch(Method::Get, "/", &body(message)), ok());
        assert_eq!(application.dispatch(Method::Get, "/api/v1/", &body(message)), ok());
    }
}

#[test]
fn post_validation_with_a_message_is_answered_ok() {
    assert_eq!(
        application().dispatch(Method::Post, "/api/v1/validation", &body(Some("hello"))),
        ok()
    );
}

#[test]
fn post_validation_without_a_message_is_rejected() {
    assert_eq!(
        application().dispatch(Method::Post, "/api/v1/validation", &body(None)),
        Dispatch::Reply(Response {
            status: StatusCode::BadRequest,
            body: Body::Errors(vec![String::from("message is required")]),
        })
    );
}

#[test]
fn post_validation_with_an_empty_message_is_rejected() {
    assert_eq!(
        application().dispatch(Method::Post, "/api/v1/validation", &body(Some(""))),
        Dispatch::Reply(Response {
            status: StatusCode::BadRequest,
            body: Body::Errors(vec![String::from("message must not be empty")]),
        })
    );
}

#[test]
fn get_metrics_asks_for_a_scrape() {
    assert_eq!(application().dispatch(Method::Get, "/metrics", &body(None)), Dispatch::Scrape);
    assert_eq!(
        application().dispatch(Method::Get, "/metrics", &body(Some("ignored"))),
        Dispatch::Scrape
    );
}

#[test]
fn an_unknown_path_is_not_found() {
    let application = application();
    for path in ["/nope", "", "/api", "/api/v1", "/api/v1/validation/", "/metrics/", "//", "/Metrics"] {
        assert_eq!(application.dispatch(Method::Get, path, &body(None)), not_found());
        assert_eq!(application.dispatch(Method::Post, path, &body(Some("hello"))), not_found());
    }
}

#[test]
fn a_known_path_with_another_method_is_not_found() {
    let application = application();
    assert_eq!(application.dispatch(Method::Post, "/", &body(Some("hello"))), not_found());
    assert_eq!(application.dispatch(Method::Post, "/api/v1/", &body(Some("hello"))), not_found());
    assert_eq!(application.dispatch(Method::Post, "/metrics", &body(None)), not_found());
    assert_eq!(
        application.dispatch(Method::Get, "/api/v1/validation", &body(Some("hello"))),
        not_found()
    );
    for path in ["/", "/api/v1/", "/api/v1/validation", "/metrics"] {
        assert_eq!(application.dispatch(Method::Other, path, &body(Some("hello"))), not_found());
    }
}

#[test]
fn the_fallback_answers_with_the_fixed_body() {
    let response = ApplicationServer::handle_404();
    assert_eq!(response.status.as_u16(), 404);
    assert_eq!(
        response.body,
        Body::Errors(vec![String::from("The requested resource does not exist on this server!")])
    );
}

#[test]
fn resolve_finds_each_route() {
    let routes = application().routes;
    assert_eq!(resolve(&routes, Method::Get, "/"), Some(Handler::Health));
    assert_eq!(resolve(&routes, Method::Get, "/api/v1/"), Some(Handler::Home));
    assert_eq!(resolve(&routes, Method::Post, "/api/v1/validation"), Some(Handler::Validation));
    assert_eq!(resolve(&routes, Method::Get, "/metrics"), Some(Handler::Metrics));
    assert_eq!(resolve(&routes, Method::Get, "/missing"), None);
}

#[test]
fn resolve_on_an_empty_table_finds_nothing() {
    assert_eq!(resolve(&Vec::new(), Method::Get, "/"), None);
}

#[test]
fn resolve_takes_the_first_line_that_serves() {
    let routes = vec![
        route(Method::Post, "/twice", Handler::Validation),
        route(Method::Get, "/twice", Handler::Home),
        route(Method::Get, "/twice", Handler::Metrics),
    ];
    assert_eq!(resolve(&routes, Method::Get, "/twice"), Some(Handler::Home));
    assert_eq!(resolve(&routes, Method::Post, "/twice"), Some(Handler::Validation));
    assert_eq!(resolve(&routes, Method::Other, "/twice"), None);
}

#[test]
fn nest_puts_the_prefix_in_front() {
    assert_eq!(
        nest("/api/v1", app()),
        vec![
            route(Method::Get, "/api/v1/", Handler::Home),
            route(Method::Post, "/api/v1/validation", Handler::Validation),
        ]
    );
    assert_eq!(nest("/x", Vec::new()), Vec::new());
    assert_eq!(
        nest("", vec![route(Method::Get, "/a", Handler::Health)]),
        vec![route(Method::Get, "/a", Handler::Health)]
    );
}
