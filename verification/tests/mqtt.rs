use qendercore_mqtt_adapter::config::MqttConfig;
use qendercore_mqtt_adapter::discovery::{
    base_discovery_payload, device_payload, energy_sensors, missing, number_discovery_payload,
    qc_data_payload, schedule_end_state_key, schedule_mode_state_key, schedule_start_state_key,
    select_discovery_payload, status_sensors, switch_discovery_payload, text_discovery_payload,
    unshown,
};
use qendercore_mqtt_adapter::command::{checked_soc, command_under};
use qendercore_mqtt_adapter::double::Double;
use qendercore_mqtt_adapter::error::AppError;
use qendercore_mqtt_adapter::model::{DailyScheduleConfig, QcData, Schedule, ScheduleMode};
use qendercore_mqtt_adapter::mqtt::{
    decode_command, parse_schedule_slot, parse_soc, schedule_state_payload, sensor_discovery_payload,
    CommandMessage, MqttPublisher, Publish, StopReason,
};
use qendercore_mqtt_adapter::time::TimeSpan;
use serde_json::Value;

fn make_publish(topic: &str, payload: &[u8]) -> Publish {
    Publish { topic: topic.to_string(), payload: payload.to_vec() }
}

fn object(pairs: Vec<(&str, Value)>) -> Value {
    let mut members = serde_json::Map::new();
    for (key, value) in pairs {
        members.insert(key.to_string(), value);
    }
    Value::Object(members)
}

fn mqtt_config() -> MqttConfig {
    MqttConfig {
        host: "mqtt.local".to_string(),
        port: 1883,
        username: None,
        password: None,
        discovery_prefix: "homeassistant".to_string(),
        topic_prefix: "qendercore".to_string(),
        client_id: "adapter".to_string(),
    }
}

fn publisher() -> MqttPublisher {
    MqttPublisher::connect(&mqtt_config()).0
}

fn sample_schedule() -> DailyScheduleConfig {
    DailyScheduleConfig {
        state_enabled: true,
        force_charge_current: Double::parse("100.0").unwrap(),
        force_discharge_current: Double::parse("48.0").unwrap(),
        min_soc: 15,
        max_soc: 100,
        schedules: vec![
            Schedule {
                mode: ScheduleMode::ForcedCharge,
                start_time: "02:00:00".into(),
                end_time: "05:00:00".into(),
            },
            Schedule::disabled(),
            Schedule::disabled(),
            Schedule::disabled(),
            Schedule::disabled(),
        ],
    }
}

#[test]
fn decode_schedule_enabled_on() {
    let publish = make_publish("qendercore/cmd/schedule_enabled", b"ON");
    let cmd = decode_command("qendercore", &publish).unwrap().unwrap();
    assert_eq!(cmd, CommandMessage::ScheduleEnabled(true));
}

#[test]
fn decode_min_soc_value() {
    let publish = make_publish("qendercore/cmd/min_soc", b"15");
    let cmd = decode_command("qendercore", &publish).unwrap().unwrap();
    assert_eq!(cmd, CommandMessage::MinSoc(15));
}

#[test]
fn decode_min_soc_rejects_out_of_range() {
    let publish = make_publish("qendercore/cmd/min_soc", b"150");
    let error = decode_command("qendercore", &publish).unwrap_err();
    assert!(error.message().contains("out of range"));
}

#[test]
fn decode_schedule_mode() {
    let publish = make_publish("qendercore/cmd/schedule_2_mode", b"Forced Charge");
    let cmd = decode_command("qendercore", &publish).unwrap().unwrap();
    assert_eq!(
        cmd,
        CommandMessage::ScheduleMode { slot: 2, mode: ScheduleMode::ForcedCharge }
    );
}

#[test]
fn decode_schedule_start() {
    let publish = make_publish("qendercore/cmd/schedule_3_start", b"01:30:00");
    let cmd = decode_command("qendercore", &publish).unwrap().unwrap();
    assert_eq!(
        cmd,
        CommandMessage::ScheduleStart { slot: 3, value: "01:30:00".to_string() }
    );
}

#[test]
fn decode_unknown_topic_returns_none() {
    let publish = make_publish("qendercore/cmd/unknown", b"x");
    assert!(decode_command("qendercore", &publish).unwrap().is_none());
}

#[test]
fn decode_other_prefix_returns_none() {
    let publish = make_publish("other/cmd/min_soc", b"5");
    assert!(decode_command("qendercore", &publish).unwrap().is_none());
}

#[test]
fn schedule_state_payload_contains_all_keys() {
    let config = sample_schedule();
    let payload = schedule_state_payload(&config);
    let object = payload.as_object().unwrap();
    assert_eq!(object["schedule_enabled"], Value::from("ON"));
    assert_eq!(object["min_soc"], Value::from(15));
    assert_eq!(object["max_soc"], Value::from(100));
    assert_eq!(object["force_charge_current"], Value::from(100.0));
    assert_eq!(object["schedule_1_mode"], Value::from("Forced Charge"));
    assert_eq!(object["schedule_1_start"], Value::from("02:00:00"));
    assert_eq!(object["schedule_5_mode"], Value::from("Disable"));
}

#[test]
fn sensor_discovery_payload_uses_value_template() {
    let device = object(vec![("name", Value::from("x"))]);
    let payload = sensor_discovery_payload(
        "Battery SoC",
        "qc_battery_soc",
        "qendercore/state",
        "current_battery_soc",
        Some("battery"),
        Some("%"),
        Some("measurement"),
        "qendercore/status",
        &device,
    );
    assert_eq!(
        payload["value_template"],
        Value::from("{{ value_json.current_battery_soc }}")
    );
    assert_eq!(payload["device_class"], Value::from("battery"));
    assert_eq!(payload["state_class"], Value::from("measurement"));
}

#[test]
fn schedule_state_payload_tells_every_slot_there_is() {
    let mut config = sample_schedule();
    config.state_enabled = false;
    config.force_charge_current = Double::parse("inf").unwrap();
    config.schedules.truncate(1);
    let payload = schedule_state_payload(&config);
    assert_eq!(
        payload,
        object(vec![
            ("schedule_enabled", Value::from("OFF")),
            ("min_soc", Value::from(15)),
            ("max_soc", Value::from(100)),
            ("force_charge_current", Value::Null),
            ("force_discharge_current", Value::from(48.0)),
            ("schedule_1_mode", Value::from("Forced Charge")),
            ("schedule_1_start", Value::from("02:00:00")),
            ("schedule_1_end", Value::from("05:00:00")),
        ])
    );
}

#[test]
fn commands_are_decoded_or_refused() {
    let decode = |key: &str, payload: &[u8]| {
        decode_command("a/b", &make_publish(&format!("a/b/cmd/{key}"), payload))
    };
    assert_eq!(
        decode("schedule_enabled", b"OFF").unwrap(),
        Some(CommandMessage::ScheduleEnabled(false))
    );
    assert_eq!(
        decode("schedule_enabled", b"on").unwrap_err().message(),
        "invalid state: schedule_enabled expected ON/OFF, got on"
    );
    assert_eq!(decode("max_soc", b"99.5").unwrap(), Some(CommandMessage::MaxSoc(100)));
    assert_eq!(decode("min_soc", b"-0").unwrap(), Some(CommandMessage::MinSoc(0)));
    assert_eq!(
        decode("max_soc", b"100.1").unwrap_err().message(),
        "invalid state: soc value 100.1 out of range 0..=100"
    );
    assert_eq!(
        decode("max_soc", b"NaN").unwrap_err().message(),
        "invalid state: soc value NaN out of range 0..=100"
    );
    assert_eq!(
        decode("max_soc", b"high").unwrap_err().message(),
        "invalid state: soc value 'high' invalid: invalid float literal"
    );
    assert_eq!(
        decode("schedule_5_end", b"later").unwrap(),
        Some(CommandMessage::ScheduleEnd { slot: 5, value: "later".to_string() })
    );
    assert_eq!(
        decode("schedule_1_mode", b"Sleep").unwrap_err().message(),
        "invalid state: unknown schedule mode display name: Sleep"
    );
    assert_eq!(decode("schedule_0_mode", b"Disable").unwrap(), None);
    assert_eq!(decode("schedule_6_start", b"x").unwrap(), None);
    assert_eq!(
        decode("schedule_+2_start", b"x").unwrap(),
        Some(CommandMessage::ScheduleStart { slot: 2, value: "x".to_string() })
    );
    let bytes = [0x66u8, 0xff];
    let expected = std::str::from_utf8(&bytes).unwrap_err().to_string();
    let error = decode("min_soc", &bytes).unwrap_err();
    assert!(matches!(error, AppError::InvalidState(_)));
    assert_eq!(
        error.message(),
        format!("invalid state: non-utf8 payload on a/b/cmd/min_soc: {expected}")
    );
    assert!(decode_command("a/b", &make_publish("a/b/cm", &bytes)).unwrap().is_none());
}

#[test]
fn parts_of_commands_are_read() {
    assert_eq!(parse_soc("14.5").unwrap(), 15);
    assert_eq!(checked_soc(&Double::parse("0.49").unwrap()).unwrap(), 0);
    assert!(checked_soc(&Double::parse("-0.1").unwrap()).is_err());
    assert_eq!(parse_schedule_slot("schedule_4_mode", "_mode"), Some(4));
    assert_eq!(parse_schedule_slot("schedule_4_mode", "_start"), None);
    assert_eq!(parse_schedule_slot("schedule__mode", "_mode"), None);
    assert_eq!(parse_schedule_slot("4_mode", "_mode"), None);
    assert_eq!(
        command_under("schedule_3_mode", "Disable").unwrap(),
        Some(CommandMessage::ScheduleMode { slot: 3, mode: ScheduleMode::Disable })
    );
    let command = CommandMessage::ScheduleEnd { slot: 1, value: "x".to_string() };
    assert_eq!(command.clone(), command);
}

#[test]
fn what_is_announced_is_taken() {
    for slot in 1..=5usize {
        for mode in ScheduleMode::all() {
            let topic = publisher().command_topic(&schedule_mode_state_key(slot));
            let publish = make_publish(&topic, mode.display_name().as_bytes());
            assert_eq!(
                decode_command("qendercore", &publish).unwrap(),
                Some(CommandMessage::ScheduleMode { slot, mode })
            );
        }
    }
    for percent in 0..=100u8 {
        let publish = make_publish("qendercore/cmd/max_soc", percent.to_string().as_bytes());
        assert_eq!(
            decode_command("qendercore", &publish).unwrap(),
            Some(CommandMessage::MaxSoc(percent))
        );
    }
}

#[test]
fn keys_and_topics_are_made_from_the_prefixes() {
    assert_eq!(schedule_mode_state_key(3), "schedule_3_mode");
    assert_eq!(schedule_start_state_key(3), "schedule_3_start");
    assert_eq!(schedule_end_state_key(12), "schedule_12_end");
    let publisher = publisher();
    assert_eq!(publisher.availability_topic(), "qendercore/status");
    assert_eq!(publisher.state_topic(), "qendercore/state");
    assert_eq!(publisher.schedule_state_topic(), "qendercore/schedule/state");
    assert_eq!(publisher.command_topic("min_soc"), "qendercore/cmd/min_soc");
    assert_eq!(publisher.birth_topic(), "homeassistant/status");
    assert_eq!(
        publisher.discovery_topic("sensor", "qc_battery_soc"),
        "homeassistant/sensor/qc_battery_soc/config"
    );
}

#[test]
fn discovery_announces_every_entity_once() {
    let publisher = publisher();
    let messages = publisher.publish_discovery();
    assert_eq!(messages.len(), 26);
    let expected_topics = [
        "sensor/qc_grid_export",
        "sensor/qc_battery_discharge",
        "sensor/qc_battery_soc",
        "sensor/qc_import_energy",
        "sensor/qc_export_energy",
        "sensor/qc_self_consumption",
        "sensor/qc_force_charge_current",
        "sensor/qc_force_discharge_current",
        "switch/qc_schedule_enabled",
        "number/qc_min_soc",
        "number/qc_max_soc",
        "select/qc_schedule_1_mode",
        "text/qc_schedule_1_start",
        "text/qc_schedule_1_end",
    ];
    for (message, topic) in messages.iter().zip(expected_topics) {
        assert_eq!(message.topic, format!("homeassistant/{topic}/config"));
    }
    assert_eq!(messages[25].topic, "homeassistant/text/qc_schedule_5_end/config");
    let subscriptions = publisher.subscribe_command_topics();
    let mut ids = Vec::new();
    let mut announced = Vec::new();
    for message in &messages {
        assert!(message.retain);
        let payload: Value = serde_json::from_str(&message.payload).unwrap();
        ids.push(payload["unique_id"].as_str().unwrap().to_string());
        assert_eq!(payload["availability_topic"], "qendercore/status");
        assert_eq!(payload["payload_available"], "online");
        assert_eq!(payload["payload_not_available"], "offline");
        assert_eq!(payload["device"], device_payload());
        if let Some(topic) = payload.get("command_topic") {
            announced.push(topic.as_str().unwrap().to_string());
        }
    }
    assert_eq!(subscriptions[0], "homeassistant/status");
    assert_eq!(announced, subscriptions[1..].to_vec());
    assert_eq!(subscriptions.len(), 19);
    assert!(!announced.contains(&publisher.birth_topic()));
    for topic in &announced {
        for payload in [&b""[..], b"ON", b"50", b"Disable", b"\xff", b"12:00:00"] {
            assert!(!matches!(
                decode_command("qendercore", &make_publish(topic, payload)),
                Ok(None)
            ));
        }
    }
    announced.sort();
    announced.dedup();
    assert_eq!(announced.len(), 18);
    for slot in 0..5 {
        let payload: Value = serde_json::from_str(&messages[11 + 3 * slot].payload).unwrap();
        let options = payload["options"].as_array().unwrap();
        assert_eq!(options, &["Disable", "Forced Charge", "Forced Discharge"]);
        for option in options {
            assert!(ScheduleMode::from_display_name(option.as_str().unwrap()).is_ok());
        }
    }
    ids.sort();
    ids.dedup();
    assert_eq!(ids.len(), 26);
}

#[test]
fn discovery_payloads_describe_their_entities() {
    let messages = publisher().publish_discovery();
    let payload = |at: usize| -> Value { serde_json::from_str(&messages[at].payload).unwrap() };
    assert_eq!(payload(0)["state_class"], "measurement");
    assert_eq!(payload(0)["unit_of_measurement"], "W");
    assert_eq!(payload(0)["state_topic"], "qendercore/state");
    assert_eq!(payload(2)["state_class"], "measurement");
    assert_eq!(payload(2)["device_class"], "battery");
    assert_eq!(payload(3)["state_class"], "total_increasing");
    assert_eq!(payload(6)["state_topic"], "qendercore/schedule/state");
    assert_eq!(payload(6)["value_template"], "{{ value_json.force_charge_current }}");
    assert_eq!(payload(6)["unit_of_measurement"], "A");
    assert_eq!(payload(8)["payload_on"], "ON");
    assert_eq!(payload(8)["state_off"], "OFF");
    assert_eq!(payload(8)["optimistic"], Value::from(false));
    assert_eq!(payload(9)["min"], Value::from(0.0));
    assert_eq!(payload(9)["max"], Value::from(100.0));
    assert_eq!(payload(9)["step"], Value::from(1.0));
    assert_eq!(payload(9)["mode"], "slider");
    assert_eq!(payload(9)["unit_of_measurement"], "%");
    assert_eq!(payload(11)["name"], "Schedule 1 Mode");
    assert_eq!(
        payload(11)["options"],
        Value::from(vec!["Disable", "Forced Charge", "Forced Discharge"])
    );
    assert_eq!(payload(12)["min"], Value::from(8));
    assert_eq!(payload(12)["max"], Value::from(8));
    assert_eq!(payload(12)["pattern"], r"^\d{2}:\d{2}:\d{2}$");
    assert_eq!(payload(13)["value_template"], "{{ value_json.schedule_1_end }}");
    assert!(messages[9].payload.contains("\"max\":100.0"));
}

#[test]
fn payload_functions_build_whole_documents() {
    let device = object(vec![("name", Value::from("x"))]);
    let base = base_discovery_payload("N", "id", "s", "k", "a", &device);
    let with = |more: Vec<(&str, Value)>| {
        let mut members = base.clone();
        for (key, value) in more {
            members.insert(key.to_string(), value);
        }
        Value::Object(members)
    };
    assert_eq!(base.len(), 8);
    assert_eq!(base["device"], device);
    assert_eq!(
        sensor_discovery_payload("N", "id", "s", "k", None, Some("W"), None, "a", &device),
        with(vec![("unit_of_measurement", Value::from("W"))])
    );
    assert_eq!(
        switch_discovery_payload("N", "id", "s", "k", "c", "a", &device),
        with(vec![
            ("command_topic", Value::from("c")),
            ("payload_on", Value::from("ON")),
            ("payload_off", Value::from("OFF")),
            ("state_on", Value::from("ON")),
            ("state_off", Value::from("OFF")),
            ("optimistic", Value::from(false)),
        ])
    );
    let read = |text: &str| Double::parse(text).unwrap();
    assert_eq!(
        number_discovery_payload(
            "N",
            "id",
            "s",
            "k",
            "c",
            &read("0.5"),
            &read("9"),
            &read("0.5"),
            "A",
            "a",
            &device
        ),
        with(vec![
            ("command_topic", Value::from("c")),
            ("min", Value::from(0.5)),
            ("max", Value::from(9.0)),
            ("step", Value::from(0.5)),
            ("mode", Value::from("slider")),
            ("unit_of_measurement", Value::from("A")),
            ("optimistic", Value::from(false)),
        ])
    );
    let options = vec!["one".to_string(), "two".to_string()];
    assert_eq!(
        select_discovery_payload("N", "id", "s", "k", "c", &options, "a", &device),
        with(vec![
            ("command_topic", Value::from("c")),
            ("options", Value::from(vec!["one", "two"])),
            ("optimistic", Value::from(false)),
        ])
    );
    assert_eq!(
        text_discovery_payload("N", "id", "s", "k", "c", Some(1), None, Some("x+"), "a", &device),
        with(vec![
            ("command_topic", Value::from("c")),
            ("min", Value::from(1)),
            ("pattern", Value::from("x+")),
            ("optimistic", Value::from(false)),
        ])
    );
}

#[test]
fn readings_are_published_where_a_sensor_shows_them() {
    let mut data = QcData::new();
    data.status.insert("grid_export_wh".to_string(), Double::parse("3779").unwrap());
    data.status.insert("import_energy_kwh".to_string(), Double::parse("1").unwrap());
    data.status.insert("solar_wh".to_string(), Double::parse("2").unwrap());
    data.energy.insert("export_energy_kwh".to_string(), Double::parse("4.6").unwrap());
    assert_eq!(
        qc_data_payload(&data),
        object(vec![
            ("grid_export_wh", Value::from(3779.0)),
            ("export_energy_kwh", Value::from(4.6)),
        ])
    );
    let message = publisher().publish_qc_data(&data);
    assert_eq!(message.topic, "qendercore/state");
    assert!(message.retain);
    assert_eq!(message.payload, r#"{"export_energy_kwh":4.6,"grid_export_wh":3779.0}"#);
    assert_eq!(publisher().publish_qc_data(&QcData::new()).payload, "{}");
    let schedule = publisher().publish_schedule(&sample_schedule());
    assert_eq!(schedule.topic, "qendercore/schedule/state");
    let payload: Value = serde_json::from_str(&schedule.payload).unwrap();
    assert_eq!(payload, schedule_state_payload(&sample_schedule()));
}

#[test]
fn readings_and_sensors_without_each_other_are_told() {
    let mut data = QcData::new();
    for key in ["solar_wh", "grid_export_wh", "battery_wh", "import_energy_kwh"] {
        data.status.insert(key.to_string(), Double::from_integer(1));
    }
    let status = status_sensors();
    assert_eq!(unshown(&data.status, &status), ["battery_wh", "import_energy_kwh", "solar_wh"]);
    assert_eq!(missing(&data.status, &status), ["battery_discharge_wh"]);
    let energy = energy_sensors();
    assert!(unshown(&data.energy, &energy).is_empty());
    let keys: Vec<String> = energy.iter().map(|sensor| sensor.api_key.to_string()).collect();
    assert_eq!(missing(&data.energy, &energy), keys);
    data.energy.insert("import_energy_kwh".to_string(), Double::from_integer(2));
    assert_eq!(missing(&data.energy, &energy)[..2], ["current_battery_soc", "export_energy_kwh"]);
}

#[test]
fn connection_follows_the_configuration() {
    let (publisher, options) = MqttPublisher::connect(&mqtt_config());
    assert_eq!(options.client_id, "adapter");
    assert_eq!(options.host, "mqtt.local");
    assert_eq!(options.port, 1883);
    assert_eq!(options.keep_alive, TimeSpan::from_secs(30));
    assert_eq!(options.capacity, 64);
    assert_eq!(options.credentials, None);
    assert_eq!(options.last_will.topic, "qendercore/status");
    assert_eq!(options.last_will.payload, "offline");
    assert!(options.last_will.retain);
    assert_eq!(publisher.publish_online().payload, "online");
    assert_eq!(publisher.publish_online().topic, "qendercore/status");
    assert_eq!(publisher.publish_offline_best_effort(), options.last_will);
    let mut config = mqtt_config();
    config.username = Some("ha".to_string());
    let (_, options) = MqttPublisher::connect(&config);
    assert_eq!(options.credentials, Some(("ha".to_string(), String::new())));
    config.password = Some("secret".to_string());
    let (_, options) = MqttPublisher::connect(&config);
    assert_eq!(options.credentials, Some(("ha".to_string(), "secret".to_string())));
}

#[test]
fn a_lost_connection_is_reported() {
    for (reason, words) in [
        (StopReason::Exhausted, "mqtt event loop stopped unexpectedly"),
        (StopReason::ReceiverDropped, "command receiver dropped"),
        (StopReason::Failed("refused".to_string()), "mqtt event loop stopped: refused"),
    ] {
        let mut publisher = publisher();
        assert!(publisher.ensure_healthy().is_ok());
        publisher.stopped(reason);
        let error = publisher.ensure_healthy().unwrap_err();
        assert!(matches!(error, AppError::MqttDisconnected(_)));
        assert_eq!(error.message(), format!("mqtt disconnected: {words}"));
    }
}

#[test]
fn home_assistant_announces_itself() {
    let publisher = publisher();
    assert_eq!(
        publisher.incoming(&make_publish("homeassistant/status", b"online")).unwrap(),
        Some(CommandMessage::HomeAssistantOnline)
    );
    assert_eq!(
        publisher.incoming(&make_publish("homeassistant/status", b"offline")).unwrap(),
        None
    );
    assert_eq!(
        publisher.incoming(&make_publish("homeassistant/status", b"onlinX")).unwrap(),
        None
    );
    assert_eq!(publisher.incoming(&make_publish("qendercore/status", b"online")).unwrap(), None);
    assert_eq!(
        publisher.incoming(&make_publish("qendercore/cmd/min_soc", b"20")).unwrap(),
        Some(CommandMessage::MinSoc(20))
    );
    assert!(publisher.incoming(&make_publish("qendercore/cmd/min_soc", b"x")).is_err());
}
