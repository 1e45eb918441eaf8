use appsignal::{start, stop, AgentCall, Config, Environment};

fn nothing_set() -> Environment {
    Environment {
        push_api_endpoint: None,
        environment: None,
        app_path: None,
        working_dir: Some("/srv/app".to_owned()),
    }
}

#[test]
fn start_asks_for_the_agent() {
    let (_, call) = start(nothing_set());
    assert_eq!(call, AgentCall::Start);
}

#[test]
fn endpoint_defaults_when_unset() {
    let (config, _) = start(nothing_set());
    assert_eq!(config.push_api_endpoint, "https://push.appsignal.com");
}

#[test]
fn endpoint_that_is_set_stays() {
    let found = Environment {
        push_api_endpoint: Some("https://custom.example".to_owned()),
        ..nothing_set()
    };
    let (config, _) = start(found);
    assert_eq!(config.push_api_endpoint, "https://custom.example");
}

#[test]
fn environment_defaults_to_development() {
    let (config, _) = start(nothing_set());
    assert_eq!(config.environment, "development");
    let found = Environment { environment: Some("production".to_owned()), ..nothing_set() };
    let (config, _) = start(found);
    assert_eq!(config.environment, "production");
}

#[test]
fn app_path_defaults_to_the_working_directory() {
    let (config, _) = start(nothing_set());
    assert_eq!(config.app_path, "/srv/app");
    let found = Environment { app_path: Some("/opt/other".to_owned()), ..nothing_set() };
    let (config, _) = start(found);
    assert_eq!(config.app_path, "/opt/other");
}

#[test]
fn app_path_needs_no_working_directory_when_set() {
    let found = Environment {
        push_api_endpoint: None,
        environment: None,
        app_path: Some("/opt/app".to_owned()),
        working_dir: None,
    };
    let (config, _) = start(found);
    assert_eq!(config.app_path, "/opt/app");
}

#[test]
fn agent_version_is_always_the_clients_own() {
    let (config, _) = start(nothing_set());
    assert_eq!(config.agent_version, "4201306");
}

#[test]
fn empty_values_count_as_set() {
    let found = Environment {
        push_api_endpoint: Some(String::new()),
        environment: Some(String::new()),
        app_path: Some(String::new()),
        working_dir: None,
    };
    let (config, _) = start(found);
    assert_eq!(
        config,
        Config {
            agent_version: "4201306".to_owned(),
            push_api_endpoint: String::new(),
            environment: String::new(),
            app_path: String::new(),
        }
    );
}

#[test]
fn config_lists_each_variable_with_its_value() {
    let (config, _) = start(nothing_set());
    assert_eq!(
        config.variables(),
        vec![
            ("APPSIGNAL_AGENT_VERSION", "4201306".to_owned()),
            ("APPSIGNAL_PUSH_API_ENDPOINT", "https://push.appsignal.com".to_owned()),
            ("APPSIGNAL_ENVIRONMENT", "development".to_owned()),
            ("APPSIGNAL_APP_PATH", "/srv/app".to_owned()),
        ]
    );
}

#[test]
fn stop_twice_asks_twice_for_the_same() {
    assert_eq!(stop(), AgentCall::Stop);
    assert_eq!(stop(), AgentCall::Stop);
}
