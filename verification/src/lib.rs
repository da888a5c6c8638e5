//! A small HTTP service described as data and decisions.
//!
//! The crate holds what the service decides: which routes exist and what each
//! answers, which requests are rejected before a handler runs, how a fault of
//! the middleware chain becomes a response, and in which order start-up
//! proceeds. Sockets, the asynchronous runtime and the middleware
//! implementations live with the caller, which hands plain values in and
//! carries the answers out.

pub mod config;
pub mod http;

pub use config::{AppConfig, CargoEnv};
pub use http::{
    models, routes, services, startup, views, Application, ApplicationServer, Dispatch, Layer,
    Pipeline, PipelineFault,
};
