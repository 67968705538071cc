use qendercore_mqtt_adapter::config::{
    load_secret, normalize_topic_segment, CliArgs, SecretFile, DEFAULT_API_URL, DEFAULT_CACHE_DIR,
    DEFAULT_CLIENT_ID, DEFAULT_DISCOVERY_PREFIX, DEFAULT_HTTP_TIMEOUT_MILLIS,
    DEFAULT_INTERVAL_SECONDS, DEFAULT_MQTT_PORT, DEFAULT_RECONNECT_INITIAL_DELAY_MILLIS,
    DEFAULT_RECONNECT_MAX_DELAY_MILLIS, DEFAULT_STATS_INTERVAL_MILLIS, DEFAULT_TOPIC_PREFIX,
};
use qendercore_mqtt_adapter::error::AppError;
use qendercore_mqtt_adapter::time::TimeSpan;

fn base_args() -> CliArgs {
    CliArgs {
        qc_login: "user@example.com".to_string(),
        qc_password: Some("secret".to_string()),
        qc_password_file: None,
        qc_api_url: DEFAULT_API_URL.to_string(),
        cache_dir: ".cache".into(),
        http_timeout_millis: 15_000,
        mqtt_host: "mqtt.local".to_string(),
        mqtt_port: 1883,
        mqtt_user: None,
        mqtt_password: None,
        mqtt_password_file: None,
        discovery_prefix: "homeassistant".to_string(),
        topic_prefix: "qendercore".to_string(),
        client_id: "qendercore-rs-mqtt-adapter".to_string(),
        interval_seconds: 60,
        reconnect_initial_delay_millis: 2_000,
        reconnect_max_delay_millis: 60_000,
        stats_interval_millis: 300_000,
    }
}

fn refused(args: CliArgs) -> String {
    match args.into_config() {
        Ok(_) => panic!("the arguments were accepted"),
        Err(error) => {
            assert!(matches!(error, AppError::InvalidConfig(_)));
            error.message()
        }
    }
}

#[test]
fn into_config_rejects_reconnect_initial_above_max() {
    let mut args = base_args();
    args.reconnect_initial_delay_millis = 90_000;
    args.reconnect_max_delay_millis = 30_000;

    let error = args.into_config().unwrap_err();
    assert!(error.message().contains(
        "reconnect initial delay 90000 cannot be greater than reconnect max delay 30000"
    ));
}

#[test]
fn into_config_rejects_missing_qc_password() {
    let mut args = base_args();
    args.qc_password = None;
    let error = args.into_config().unwrap_err();
    assert!(error.message().contains("qc-password"));
}

#[test]
fn into_config_rejects_password_without_user() {
    let mut args = base_args();
    args.mqtt_password = Some("hunter2".to_string());
    let error = args.into_config().unwrap_err();
    assert!(error.message().contains("mqtt password requires --mqtt-user"));
}

#[test]
fn defaults_are_as_documented() {
    assert_eq!(DEFAULT_MQTT_PORT, 1883);
    assert_eq!(DEFAULT_INTERVAL_SECONDS, 60);
    assert_eq!(DEFAULT_HTTP_TIMEOUT_MILLIS, 15_000);
    assert_eq!(DEFAULT_RECONNECT_INITIAL_DELAY_MILLIS, 2_000);
    assert_eq!(DEFAULT_RECONNECT_MAX_DELAY_MILLIS, 60_000);
    assert_eq!(DEFAULT_STATS_INTERVAL_MILLIS, 300_000);
    assert_eq!(DEFAULT_DISCOVERY_PREFIX, "homeassistant");
    assert_eq!(DEFAULT_TOPIC_PREFIX, "qendercore");
    assert_eq!(DEFAULT_CLIENT_ID, "qendercore-rs-mqtt-adapter");
    assert_eq!(DEFAULT_CACHE_DIR, ".cache");
    assert_eq!(DEFAULT_API_URL, "https://auth.qendercore.com:8000/v1");
}

#[test]
fn into_config_normalizes_texts() {
    let mut args = base_args();
    args.qc_login = "  user@example.com\n".to_string();
    args.qc_api_url = " https://example.com/v1// ".to_string();
    args.mqtt_host = "\tbroker ".to_string();
    args.mqtt_user = Some(" ha ".to_string());
    args.mqtt_password = Some(" kept as it is ".to_string());
    args.discovery_prefix = " /homeassistant/ ".to_string();
    args.topic_prefix = "/a/b/".to_string();
    args.client_id = " id ".to_string();
    let config = args.into_config().unwrap();
    assert_eq!(config.qcore.login, "user@example.com");
    assert_eq!(config.qcore.api_url, "https://example.com/v1");
    assert_eq!(config.qcore.password, "secret");
    assert_eq!(config.qcore.cache_dir, std::path::PathBuf::from(".cache"));
    assert_eq!(config.qcore.http_timeout, TimeSpan::from_secs(15));
    assert_eq!(config.mqtt.host, "broker");
    assert_eq!(config.mqtt.port, 1883);
    assert_eq!(config.mqtt.username, Some("ha".to_string()));
    assert_eq!(config.mqtt.password, Some(" kept as it is ".to_string()));
    assert_eq!(config.mqtt.discovery_prefix, "homeassistant");
    assert_eq!(config.mqtt.topic_prefix, "a/b");
    assert_eq!(config.mqtt.client_id, "id");
    assert_eq!(config.polling.interval, TimeSpan::from_secs(60));
    assert_eq!(config.reconnect.initial_delay, TimeSpan::from_secs(2));
    assert_eq!(config.reconnect.max_delay, TimeSpan::from_secs(60));
    assert_eq!(config.stats.interval, TimeSpan::from_millis(300_000));
    let copy = config.mqtt.clone();
    assert_eq!(copy.topic_prefix, "a/b");
    assert_eq!(config.qcore.clone().cache_dir, std::path::PathBuf::from(".cache"));
}

#[test]
fn into_config_rejects_empty_and_zero_settings() {
    let mut args = base_args();
    args.qc_login = " ".to_string();
    assert_eq!(refused(args), "invalid configuration: qc_login cannot be empty");
    let mut args = base_args();
    args.qc_api_url = String::new();
    assert_eq!(refused(args), "invalid configuration: qc_api_url cannot be empty");
    let mut args = base_args();
    args.mqtt_host = "\u{a0}".to_string();
    assert_eq!(refused(args), "invalid configuration: mqtt_host cannot be empty");
    let mut args = base_args();
    args.http_timeout_millis = 0;
    assert_eq!(
        refused(args),
        "invalid configuration: http_timeout_millis must be greater than zero"
    );
    let mut args = base_args();
    args.interval_seconds = 0;
    assert_eq!(
        refused(args),
        "invalid configuration: interval_seconds must be greater than zero"
    );
    let mut args = base_args();
    args.reconnect_initial_delay_millis = 0;
    assert_eq!(
        refused(args),
        "invalid configuration: reconnect_initial_delay_millis must be greater than zero"
    );
    let mut args = base_args();
    args.reconnect_max_delay_millis = 0;
    assert_eq!(
        refused(args),
        "invalid configuration: reconnect_max_delay_millis must be greater than zero"
    );
    let mut args = base_args();
    args.stats_interval_millis = 0;
    assert_eq!(
        refused(args),
        "invalid configuration: stats_interval_millis must be greater than zero"
    );
    let mut args = base_args();
    args.discovery_prefix = " // ".to_string();
    assert_eq!(refused(args), "invalid configuration: discovery prefix cannot be empty");
    let mut args = base_args();
    args.topic_prefix = "/".to_string();
    assert_eq!(refused(args), "invalid configuration: topic prefix cannot be empty");
}

#[test]
fn into_config_reports_the_first_problem() {
    let mut args = base_args();
    args.interval_seconds = 0;
    args.qc_password = None;
    args.topic_prefix = String::new();
    assert_eq!(
        refused(args),
        "invalid configuration: interval_seconds must be greater than zero"
    );
    let mut args = base_args();
    args.mqtt_password = Some("x".to_string());
    args.topic_prefix = String::new();
    assert_eq!(refused(args), "invalid configuration: mqtt password requires --mqtt-user");
}

#[test]
fn equal_delays_are_accepted() {
    let mut args = base_args();
    args.reconnect_initial_delay_millis = 5;
    args.reconnect_max_delay_millis = 5;
    let config = args.into_config().unwrap();
    assert_eq!(config.reconnect.initial_delay, config.reconnect.max_delay);
}

#[test]
fn secrets_come_inline_or_from_a_file() {
    let file = |content: Result<&str, &str>| {
        Some(SecretFile {
            path: "/run/secret".to_string(),
            content: match content {
                Ok(text) => Ok(text.to_string()),
                Err(words) => Err(words.to_string()),
            },
        })
    };
    let inline = load_secret("qc_password", Some(" a ".to_string()), None).unwrap();
    assert_eq!(inline, Some(" a ".to_string()));
    let read = load_secret("qc_password", None, file(Ok(" b\n"))).unwrap();
    assert_eq!(read, Some("b".to_string()));
    assert_eq!(load_secret("qc_password", None, None).unwrap(), None);
    let both = load_secret("qc_password", Some("a".to_string()), file(Ok("b"))).unwrap_err();
    assert_eq!(
        both.message(),
        "invalid configuration: use either --qc-password/--qc-password-file but not both"
    );
    let empty = load_secret("mqtt_password", None, file(Ok(" \n"))).unwrap_err();
    assert_eq!(
        empty.message(),
        "invalid configuration: mqtt_password file /run/secret was empty"
    );
    let missing = load_secret("mqtt_password", None, file(Err("not there"))).unwrap_err();
    assert!(matches!(missing, AppError::Io(_)));
    assert_eq!(missing.message(), "i/o error: not there");
}

#[test]
fn topic_segments_lose_their_slashes() {
    assert_eq!(normalize_topic_segment(" /a/b/ ", "x").unwrap(), "a/b");
    assert_eq!(normalize_topic_segment("/ a /", "x").unwrap(), " a ");
    let error = normalize_topic_segment("//", "some prefix").unwrap_err();
    assert_eq!(error.message(), "invalid configuration: some prefix cannot be empty");
}
