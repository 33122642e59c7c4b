//! What the service is configured with, and where it listens.
use vstd::prelude::*;

verus! {

/// The environment variable that names the front-end's base address.
pub const FRONTEND_URL_VAR: &'static str = "FRONTEND_URL";

/// The environment variable that names the backend's base address.
pub const BACKEND_URL_VAR: &'static str = "BACKEND_URL";

/// The front-end's base address where the environment names none.
pub const DEFAULT_FRONTEND_URL: &'static str = "https://piped.video";

/// The backend's base address where the environment names none.
pub const DEFAULT_BACKEND_URL: &'static str = "https://pipedapi.adminforge.de";

/// The address that the service binds: every interface.
pub const LISTEN_ADDRESS: &'static str = "0.0.0.0";

/// The port that the service binds.
pub const LISTEN_PORT: u16 = 8080;

/// The route of the liveness probe.
pub const STATUS_ROUTE: &'static str = "/status";

/// The route of a video's embed page; the identifier is the query's `v`.
pub const VIDEO_ROUTE: &'static str = "/watch";

/// The route of a playlist's embed page; the identifier is the query's `list`.
pub const PLAYLIST_ROUTE: &'static str = "/playlist";

/// The route of a channel's embed page; the identifier is the path's `id`.
pub const CHANNEL_ROUTE: &'static str = "/channel/{id}";

/// The two base addresses that the service works with. Neither is looked at:
/// whatever the environment holds is taken as it is.
#[derive(Debug, Clone)]
pub struct ServiceConfig {
    /// Where visitors are forwarded to.
    pub frontend_url: String,
    /// Where metadata is fetched from.
    pub backend_url: String,
}

/// Settles one setting: what was found for it in the environment, or the
/// default where nothing was found.
pub fn get_env_string(found: Option<String>, default_value: String) -> (value: String)
    ensures
        value == match found {
            Some(var) => var,
            None => default_value,
        },
{
    match found {
        Some(var) => var,
        None => default_value,
    }
}

impl ServiceConfig {
    /// The configuration for what the environment holds under the two
    /// variables: each value as found, or its default.
    pub fn resolve(frontend: Option<String>, backend: Option<String>) -> (config: ServiceConfig)
        ensures
            config.frontend_url@ == match frontend {
                Some(url) => url@,
                None => DEFAULT_FRONTEND_URL@,
            },
            config.backend_url@ == match backend {
                Some(url) => url@,
                None => DEFAULT_BACKEND_URL@,
            },
    {
        ServiceConfig {
            frontend_url: get_env_string(frontend, String::from_str(DEFAULT_FRONTEND_URL)),
            backend_url: get_env_string(backend, String::from_str(DEFAULT_BACKEND_URL)),
        }
    }
}

} // verus!
