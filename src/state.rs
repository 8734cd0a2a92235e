use std::sync::Arc;

use vstd::prelude::*;

verus! {

#[verifier::external_type_specification]
#[verifier::external_body]
pub struct ExReport(color_eyre::eyre::Report);

/// The server's configuration; it holds no setting yet.
#[derive(Clone, Copy, Debug, PartialEq, Eq, Structural)]
pub struct Config {}

/// The configuration the server starts with.
pub fn build_configs() -> (r: Result<Config, color_eyre::eyre::Report>)
    ensures
        r == Ok::<Config, color_eyre::eyre::Report>(Config {}),
{
    Ok(Config {})
}

/// What every request handler can reach: the configuration, shared.
#[derive(Clone)]
pub struct ApplicationState {
    pub config: Arc<Config>,
}

impl ApplicationState {
    /// The state that shares `config`.
    pub fn new(config: Config) -> (r: ApplicationState)
        ensures
            *r.config == config,
    {
        ApplicationState { config: Arc::new(config) }
    }
}

} // verus!
