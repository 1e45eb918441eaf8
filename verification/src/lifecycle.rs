//! Starting and stopping the agent, and the settings it starts with.

use crate::agent::{AgentCall, Call};
use vstd::prelude::*;
use vstd::string::StringExecFns;

verus! {

/// The version of the agent that this client is made for.
pub const AGENT_VERSION: &'static str = "4201306";

/// Where data is pushed to unless the environment says otherwise.
pub const DEFAULT_PUSH_API_ENDPOINT: &'static str = "https://push.appsignal.com";

/// The environment that is reported unless one is named.
pub const DEFAULT_ENVIRONMENT: &'static str = "development";

/// The variable that tells the agent its own version.
pub const AGENT_VERSION_KEY: &'static str = "APPSIGNAL_AGENT_VERSION";

/// The variable that holds the push endpoint.
pub const PUSH_API_ENDPOINT_KEY: &'static str = "APPSIGNAL_PUSH_API_ENDPOINT";

/// The variable that names the environment.
pub const ENVIRONMENT_KEY: &'static str = "APPSIGNAL_ENVIRONMENT";

/// The variable that holds the path of the monitored application.
pub const APP_PATH_KEY: &'static str = "APPSIGNAL_APP_PATH";

/// What the process has to show for the settings that have a default.
#[derive(Debug, PartialEq, Eq)]
pub struct Environment {
    /// The push endpoint's variable; `None` where it is unset or is not
    /// Unicode.
    pub push_api_endpoint: Option<String>,
    /// The environment's variable; `None` where it is unset or is not
    /// Unicode.
    pub environment: Option<String>,
    /// The application path's variable; `None` where it is unset or is not
    /// Unicode.
    pub app_path: Option<String>,
    /// The process's current working directory; `None` where it was not
    /// asked for or is not known.
    pub working_dir: Option<String>,
}

/// The settings that the agent is started with.
#[derive(Debug, PartialEq, Eq)]
pub struct Config {
    pub agent_version: String,
    pub push_api_endpoint: String,
    pub environment: String,
    pub app_path: String,
}

/// A setting's value: the one found, or else the default.
pub open spec fn or_default(found: Option<String>, default: Seq<char>) -> Seq<char> {
    match found {
        Some(value) => value@,
        None => default,
    }
}

/// A setting's value: the one found, or else the default.
fn value_or(found: Option<String>, default: &str) -> (value: String)
    ensures
        value@ == or_default(found, default@),
{
    match found {
        Some(value) => value,
        None => String::from_str(default),
    }
}

/// Settles the configuration and asks for the agent to be started.
///
/// The agent's version is always this client's own. Endpoint and
/// environment keep what the process environment holds and take their
/// default where it holds nothing. The application's path falls back to the
/// working directory, so one of the two has to be known.
pub fn start(found: Environment) -> (r: (Config, AgentCall))
    requires
        found.app_path is Some || found.working_dir is Some,
    ensures
        r.0.agent_version@ == AGENT_VERSION@,
        r.0.push_api_endpoint@ == or_default(found.push_api_endpoint, DEFAULT_PUSH_API_ENDPOINT@),
        r.0.environment@ == or_default(found.environment, DEFAULT_ENVIRONMENT@),
        r.0.app_path@ == or_default(found.app_path, found.working_dir.unwrap()@),
        r.1@ == Call::Start,
{
    let app_path = match found.app_path {
        Some(path) => path,
        None => found.working_dir.unwrap(),
    };
    let config = Config {
        agent_version: String::from_str(AGENT_VERSION),
        push_api_endpoint: value_or(found.push_api_endpoint, DEFAULT_PUSH_API_ENDPOINT),
        environment: value_or(found.environment, DEFAULT_ENVIRONMENT),
        app_path,
    };
    (config, AgentCall::Start)
}

impl Config {
    /// The settings as the agent reads them: each variable's name with its
    /// value.
    pub fn variables(self) -> (pairs: Vec<(&'static str, String)>)
        ensures
            pairs@.len() == 4,
            pairs@[0].0@ == AGENT_VERSION_KEY@ && pairs@[0].1@ == self.agent_version@,
            pairs@[1].0@ == PUSH_API_ENDPOINT_KEY@ && pairs@[1].1@ == self.push_api_endpoint@,
            pairs@[2].0@ == ENVIRONMENT_KEY@ && pairs@[2].1@ == self.environment@,
            pairs@[3].0@ == APP_PATH_KEY@ && pairs@[3].1@ == self.app_path@,
    {
        let mut pairs: Vec<(&'static str, String)> = Vec::new();
        pairs.push((AGENT_VERSION_KEY, self.agent_version));
        pairs.push((PUSH_API_ENDPOINT_KEY, self.push_api_endpoint));
        pairs.push((ENVIRONMENT_KEY, self.environment));
        pairs.push((APP_PATH_KEY, self.app_path));
        pairs
    }
}

/// Asks for the agent to be stopped, once it has sent what is outstanding.
pub fn stop() -> (call: AgentCall)
    ensures
        call@ == Call::Stop,
{
    AgentCall::Stop
}

} // verus!
