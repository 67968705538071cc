use qendercore_mqtt_adapter::error::AppError;

#[test]
fn errors_say_where_they_come_from() {
    let text = || "x".to_string();
    for (error, expected) in [
        (AppError::InvalidConfig(text()), "invalid configuration: x"),
        (AppError::InvalidState(text()), "invalid state: x"),
        (AppError::MqttDisconnected(text()), "mqtt disconnected: x"),
        (AppError::QcoreApi(text()), "qendercore api error: x"),
        (AppError::Io(text()), "i/o error: x"),
        (AppError::Http(text()), "http error: x"),
        (AppError::MqttClient(text()), "mqtt client error: x"),
        (AppError::Json(text()), "json error: x"),
    ] {
        assert_eq!(error.message(), expected);
    }
}
