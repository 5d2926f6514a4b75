use matrix2mqtt::broker::broker_connect_options;
use matrix2mqtt::config::{CommandlineOpts, ConfigError};

fn opts(matrix_username: &str, matrix_password: &str) -> CommandlineOpts {
    CommandlineOpts {
        mqtt_host: String::from("tcp://mqtt.localdomain:1883"),
        mqtt_username: String::new(),
        mqtt_password: String::new(),
        matrix_username: String::from(matrix_username),
        matrix_password: String::from(matrix_password),
        verbose: false,
    }
}

#[test]
fn missing_username_is_fatal() {
    let r = opts("", "secret").validate_matrix_credentials();
    assert_eq!(r, Err(ConfigError::MissingMatrixCredentials));
}

#[test]
fn missing_password_is_fatal() {
    let r = opts("@user:example.org", "").validate_matrix_credentials();
    assert_eq!(r, Err(ConfigError::MissingMatrixCredentials));
}

#[test]
fn present_credentials_pass() {
    let r = opts("@user:example.org", "secret").validate_matrix_credentials();
    assert_eq!(r, Ok(()));
}

#[test]
fn default_log_level_follows_verbose_flag() {
    let mut o = opts("@user:example.org", "secret");
    assert_eq!(o.default_log_level(), "info");
    o.verbose = true;
    assert_eq!(o.default_log_level(), "debug");
}

#[test]
fn empty_username_connects_anonymously() {
    let o = broker_connect_options(&String::new(), &String::from("ignored"));
    assert!(o.credentials.is_none());
    assert_eq!(o.keep_alive_secs, 20);
    assert_eq!(o.reconnect_min_secs, 1);
    assert_eq!(o.reconnect_max_secs, 60);
    assert!(o.clean_session);
    assert_eq!(o.connect_timeout_secs, 10);
}

#[test]
fn nonempty_username_attaches_both_credentials() {
    let o = broker_connect_options(&String::from("user"), &String::from("pw"));
    let c = o.credentials.expect("credentials must be attached");
    assert_eq!(c.username, "user");
    assert_eq!(c.password, "pw");
}
