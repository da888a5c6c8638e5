use starter::config::{AppConfig, CargoEnv};
use starter::http::startup::{StartupAction, StartupError, StartupEvent, StartupState};

fn config() -> AppConfig {
    AppConfig {
        cargo_env: CargoEnv::Development,
        port: 9001,
        host: String::from("0.0.0.0"),
        database_url: String::from("app.db"),
        shared_secret: String::from("notagoodsecret"),
    }
}

#[test]
fn startup_begins_by_resolving_host_and_port() {
    let state = StartupState::start();
    assert_eq!(state, StartupState::Resolving);
    assert_eq!(
        state.action(&config()),
        StartupAction::Resolve { host: String::from("0.0.0.0"), port: 9001 }
    );
}

#[test]
fn a_resolved_address_is_bound_then_served() {
    let state = StartupState::start().advance(StartupEvent::Resolved { addresses: 1 });
    assert_eq!(state, StartupState::Binding { addresses: 1 });
    assert_eq!(state.action(&config()), StartupAction::Bind { address: 0 });
    let state = state.advance(StartupEvent::Bound);
    assert_eq!(state, StartupState::Serving);
    assert_eq!(state.action(&config()), StartupAction::Serve);
}

#[test]
fn the_first_of_several_addresses_is_bound() {
    let state = StartupState::start().advance(StartupEvent::Resolved { addresses: 3 });
    assert_eq!(state.action(&config()), StartupAction::Bind { address: 0 });
}

#[test]
fn no_address_aborts_startup() {
    let state = StartupState::start().advance(StartupEvent::Resolved { addresses: 0 });
    assert_eq!(state, StartupState::Failed(StartupError::NoAddress));
    assert_eq!(state.action(&config()), StartupAction::Abort(StartupError::NoAddress));
    assert_eq!(StartupError::NoAddress.message(), "Unable to parse listener address");
}

#[test]
fn a_failed_resolution_aborts_startup() {
    let words = "failed to lookup address information";
    let state = StartupState::start().advance(StartupEvent::ResolveFailed(String::from(words)));
    assert_eq!(state, StartupState::Failed(StartupError::Resolve(String::from(words))));
    assert_eq!(
        state.action(&config()),
        StartupAction::Abort(StartupError::Resolve(String::from(words)))
    );
    assert_eq!(StartupError::Resolve(String::from(words)).message(), words);
}

#[test]
fn a_failed_bind_aborts_startup() {
    let words = "Address already in use (os error 98)";
    let state = StartupState::start()
        .advance(StartupEvent::Resolved { addresses: 2 })
        .advance(StartupEvent::BindFailed(String::from(words)));
    assert_eq!(state, StartupState::Failed(StartupError::Bind(String::from(words))));
    assert_eq!(
        state.action(&config()),
        StartupAction::Abort(StartupError::Bind(String::from(words)))
    );
    assert_eq!(StartupError::Bind(String::from(words)).message(), words);
}

#[test]
fn a_failure_is_never_retried() {
    let failed = StartupState::Failed(StartupError::NoAddress);
    for event in [
        StartupEvent::Resolved { addresses: 1 },
        StartupEvent::ResolveFailed(String::from("again")),
        StartupEvent::Bound,
        StartupEvent::BindFailed(String::from("again")),
    ] {
        assert_eq!(failed.clone().advance(event), failed);
    }
}

#[test]
fn an_event_out_of_turn_changes_nothing() {
    assert_eq!(StartupState::Resolving.advance(StartupEvent::Bound), StartupState::Resolving);
    assert_eq!(
        StartupState::Resolving.advance(StartupEvent::BindFailed(String::from("x"))),
        StartupState::Resolving
    );
    let binding = StartupState::Binding { addresses: 1 };
    assert_eq!(
        binding.clone().advance(StartupEvent::Resolved { addresses: 0 }),
        binding
    );
    assert_eq!(
        binding.clone().advance(StartupEvent::ResolveFailed(String::from("x"))),
        binding
    );
    assert_eq!(StartupState::Serving.advance(StartupEvent::BindFailed(String::from("x"))), StartupState::Serving);
    assert_eq!(StartupState::Serving.advance(StartupEvent::Bound), StartupState::Serving);
}

#[test]
fn the_configured_host_and_port_are_resolved() {
    let config = AppConfig { host: String::from("example.org"), port: 443, ..config() };
    assert_eq!(
        StartupState::start().action(&config),
        StartupAction::Resolve { host: String::from("example.org"), port: 443 }
    );
}
