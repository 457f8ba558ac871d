use mc_forward::address::TargetAddress;
use mc_forward::config::{Config, LISTEN_PORT};
use mc_forward::connector::{auth_mode, plan_connect, AuthMode, ConnectRequest};

#[test]
fn both_credentials_are_used_as_given() {
    assert_eq!(
        auth_mode(Some("alice"), Some("s3cret")),
        AuthMode::Password { username: "alice".to_string(), password: "s3cret".to_string() }
    );
}

#[test]
fn username_alone_gets_an_empty_password() {
    assert_eq!(
        auth_mode(Some("alice"), None),
        AuthMode::Password { username: "alice".to_string(), password: String::new() }
    );
}

#[test]
fn password_alone_gets_an_empty_username() {
    assert_eq!(
        auth_mode(None, Some("s3cret")),
        AuthMode::Password { username: String::new(), password: "s3cret".to_string() }
    );
}

#[test]
fn no_credentials_means_no_authentication() {
    assert_eq!(auth_mode(None, None), AuthMode::NoAuth);
}

#[test]
fn empty_credentials_still_authenticate() {
    assert_eq!(
        auth_mode(Some(""), None),
        AuthMode::Password { username: String::new(), password: String::new() }
    );
    assert_eq!(
        auth_mode(None, Some("")),
        AuthMode::Password { username: String::new(), password: String::new() }
    );
}

#[test]
fn plan_connect_fixes_proxy_target_and_auth() {
    let target = TargetAddress::service("target.example".to_string());
    let request = plan_connect("127.0.0.1:1080", target, Some("alice"), None);
    assert_eq!(
        request,
        ConnectRequest {
            proxy_addr: "127.0.0.1:1080".to_string(),
            target: TargetAddress { host: "target.example".to_string(), port: 25565 },
            auth: AuthMode::Password { username: "alice".to_string(), password: String::new() },
        }
    );
    assert_eq!(request.target.text(), "target.example:25565");
}

#[test]
fn plan_connect_without_credentials() {
    let target = TargetAddress::service("203.0.113.7".to_string());
    let request = plan_connect("proxy.example:9050", target, None, None);
    assert_eq!(request.proxy_addr, "proxy.example:9050");
    assert_eq!(request.auth, AuthMode::NoAuth);
}

#[test]
fn config_keeps_what_it_was_given() {
    let config = Config::new(
        "example.org".to_string(),
        "127.0.0.1:1080".to_string(),
        Some("alice".to_string()),
        None,
    );
    assert_eq!(config.domain(), "example.org");
    assert_eq!(config.proxy_addr(), "127.0.0.1:1080");
    assert_eq!(config.username(), Some("alice"));
    assert_eq!(config.password(), None);
    assert!(config.uses_auth());
}

#[test]
fn config_auth_flag_follows_the_credentials() {
    let make = |u: Option<&str>, p: Option<&str>| {
        Config::new(
            "example.org".to_string(),
            "127.0.0.1:1080".to_string(),
            u.map(|s| s.to_string()),
            p.map(|s| s.to_string()),
        )
    };
    assert!(!make(None, None).uses_auth());
    assert!(make(Some("u"), None).uses_auth());
    assert!(make(None, Some("p")).uses_auth());
    assert!(make(Some("u"), Some("p")).uses_auth());
    assert_eq!(make(None, Some("p")).password(), Some("p"));
}

#[test]
fn listen_port_is_fixed() {
    assert_eq!(LISTEN_PORT, 1337);
}
