use vstd::prelude::*;

verus! {

/// The environment a process was started for.
#[derive(Clone, Copy, Debug, PartialEq, Eq, Structural)]
pub enum CargoEnv {
    Development,
    Testing,
    Production,
}

/// The settings a process runs with. They are read once at start-up and do
/// not change afterwards.
#[derive(Clone, Debug, PartialEq, Eq)]
pub struct AppConfig {
    pub cargo_env: CargoEnv,
    pub port: u16,
    pub host: String,
    pub database_url: String,
    pub shared_secret: String,
}

} // verus!
