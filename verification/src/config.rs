//! What the gateway is configured with, and why a service does not start.

use crate::carrier::Carrier;
use crate::text::lower;
use vstd::prelude::*;

verus! {

/// A failure that ends startup: the process must not begin to serve.
#[derive(Debug)]
pub enum ConfigurationError {
    /// A required setting is missing; the setting's name is given.
    MissingSetting(String),
    /// A required downstream service could not be reached; its address is
    /// given.
    DependencyUnavailable(String),
    /// The signing key was not accepted.
    KeyRejected,
}

/// The setting that holds the address of the words service.
pub const WORDS_SVC_ADDR: &'static str = "words-svc-addr";

/// The setting that holds the address of the signing service.
pub const SIGN_SVC_ADDR: &'static str = "sign-svc-addr";

/// The setting that holds the name under which spans are exported.
pub const TRACING_SERVICE_NAME: &'static str = "tracing-service-name";

/// The setting that holds the address of the trace collector.
pub const TRACE_COLLECTOR_ENDPOINT: &'static str = "trace-collector-endpoint";

/// The gateway's settings. All four are required.
#[derive(Debug)]
pub struct Config {
    pub words_svc_addr: String,
    pub sign_svc_addr: String,
    pub tracing_service_name: String,
    pub trace_collector_endpoint: String,
}

/// A configuration as contracts see it.
pub struct ConfigView {
    pub words_svc_addr: Seq<char>,
    pub sign_svc_addr: Seq<char>,
    pub tracing_service_name: Seq<char>,
    pub trace_collector_endpoint: Seq<char>,
}

impl View for Config {
    type V = ConfigView;

    open spec fn view(&self) -> ConfigView {
        ConfigView {
            words_svc_addr: self.words_svc_addr@,
            sign_svc_addr: self.sign_svc_addr@,
            tracing_service_name: self.tracing_service_name@,
            trace_collector_endpoint: self.trace_collector_endpoint@,
        }
    }
}

/// The name of the first required setting that `settings` lacks, in the
/// order in which they are read.
pub open spec fn first_missing(settings: Map<Seq<char>, Seq<char>>) -> Option<Seq<char>> {
    if !settings.contains_key(lower(WORDS_SVC_ADDR@)) {
        Some(WORDS_SVC_ADDR@)
    } else if !settings.contains_key(lower(SIGN_SVC_ADDR@)) {
        Some(SIGN_SVC_ADDR@)
    } else if !settings.contains_key(lower(TRACING_SERVICE_NAME@)) {
        Some(TRACING_SERVICE_NAME@)
    } else if !settings.contains_key(lower(TRACE_COLLECTOR_ENDPOINT@)) {
        Some(TRACE_COLLECTOR_ENDPOINT@)
    } else {
        None
    }
}

/// The configuration that complete settings give.
pub open spec fn configured(settings: Map<Seq<char>, Seq<char>>) -> ConfigView {
    ConfigView {
        words_svc_addr: settings[lower(WORDS_SVC_ADDR@)],
        sign_svc_addr: settings[lower(SIGN_SVC_ADDR@)],
        tracing_service_name: settings[lower(TRACING_SERVICE_NAME@)],
        trace_collector_endpoint: settings[lower(TRACE_COLLECTOR_ENDPOINT@)],
    }
}

/// One required setting, or the error that names it.
fn required(settings: &Carrier, name: &'static str) -> (r: Result<String, ConfigurationError>)
    ensures
        match r {
            Ok(value) => settings@.contains_key(lower(name@)) && value@ == settings@[lower(name@)],
            Err(error) => !settings@.contains_key(lower(name@)) && (
            error matches ConfigurationError::MissingSetting(missing) && missing@ == name@),
        },
{
    match settings.get(name) {
        Some(value) => Ok(value),
        None => Err(ConfigurationError::MissingSetting(name.to_owned())),
    }
}

impl Config {
    /// Reads the configuration from `settings`. Where a required setting
    /// is missing, the error names the first one that is.
    pub fn read(settings: &Carrier) -> (r: Result<Config, ConfigurationError>)
        ensures
            match r {
                Ok(config) => first_missing(settings@) is None && config@ == configured(
                    settings@,
                ),
                Err(error) => error matches ConfigurationError::MissingSetting(name)
                    && first_missing(settings@) == Some(name@),
            },
    {
        let words_svc_addr = match required(settings, WORDS_SVC_ADDR) {
            Ok(value) => value,
            Err(error) => {
                return Err(error);
            },
        };
        let sign_svc_addr = match required(settings, SIGN_SVC_ADDR) {
            Ok(value) => value,
            Err(error) => {
                return Err(error);
            },
        };
        let tracing_service_name = match required(settings, TRACING_SERVICE_NAME) {
            Ok(value) => value,
            Err(error) => {
                return Err(error);
            },
        };
        let trace_collector_endpoint = match required(settings, TRACE_COLLECTOR_ENDPOINT) {
            Ok(value) => value,
            Err(error) => {
                return Err(error);
            },
        };
        Ok(Config { words_svc_addr, sign_svc_addr, tracing_service_name, trace_collector_endpoint })
    }
}

} // verus!
