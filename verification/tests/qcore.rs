use qendercore_mqtt_adapter::config::QcoreConfig;
use qendercore_mqtt_adapter::dashboard::{extract_enchwt, hardware_request, join_words};
use qendercore_mqtt_adapter::double::Double;
use qendercore_mqtt_adapter::error::{AppError, AppResult};
use qendercore_mqtt_adapter::http::{
    default_headers, describe_failure, handle_response, is_success, set_header, Reply,
};
use qendercore_mqtt_adapter::model::{DailyScheduleConfig, QcData, Schedule, ScheduleMode};
use qendercore_mqtt_adapter::qcore::{
    build_chart_request, collect_widgets, extract_chart_into, extract_device_id, normalize_key,
    parse_daily_schedule, ApiCall, Attempt, DashboardWidget, DeviceStep, QcDataStep, QcoreClient,
    ScheduleStep, TokenStep, WriteStep,
};
use qendercore_mqtt_adapter::schedule::{
    read_f64, read_string, read_u8, require_value, schedule_body,
};
use qendercore_mqtt_adapter::time::TimeSpan;
use serde_json::Value;

fn object(pairs: Vec<(&str, Value)>) -> Value {
    let mut members = serde_json::Map::new();
    for (key, value) in pairs {
        members.insert(key.to_string(), value);
    }
    Value::Object(members)
}

fn list(values: Vec<Value>) -> Value {
    Value::Array(values)
}

fn config() -> QcoreConfig {
    QcoreConfig {
        api_url: "https://example.com/v1".to_string(),
        login: "user@example.com".to_string(),
        password: "secret".to_string(),
        cache_dir: ".cache".into(),
        http_timeout: TimeSpan::from_secs(15),
    }
}

fn client() -> QcoreClient {
    QcoreClient::new(config()).unwrap().0
}

fn number(readings: Option<&Double>) -> Option<f64> {
    readings.map(|value| f64::from_bits(value.to_bits()))
}

#[test]
fn normalize_key_handles_typical_inputs() {
    assert_eq!(normalize_key("Battery SoC"), "battery_soc");
    assert_eq!(normalize_key("Self Consumption (kWh)"), "self_consumption_kwh");
    assert_eq!(normalize_key("Grid-Export"), "grid_export");
    assert_eq!(normalize_key("__test__"), "test");
}

#[test]
fn extract_chart_handles_links_payload() {
    let chart = object(vec![(
        "series",
        object(vec![(
            "links",
            list(vec![
                object(vec![("id", Value::from("Grid Export")), ("value", Value::from(3779.0))]),
                object(vec![
                    ("id", Value::from("Battery Discharge")),
                    ("value", Value::from(2417.0)),
                ]),
            ]),
        )]),
    )]);
    let mut data = QcData::new();
    extract_chart_into(&chart, "Status", &mut data);
    assert_eq!(number(data.status.get("grid_export_wh")), Some(3779.0));
    assert_eq!(number(data.status.get("battery_discharge_wh")), Some(2417.0));
}

#[test]
fn extract_chart_handles_energy_series_list() {
    let chart = object(vec![(
        "series",
        list(vec![object(vec![(
            "data",
            list(vec![
                object(vec![
                    ("name", Value::from("Import Energy (kWh)")),
                    ("value", Value::from(0.0)),
                ]),
                object(vec![
                    ("name", Value::from("Export Energy (kWh)")),
                    ("value", Value::from(4.6)),
                ]),
            ]),
        )])]),
    )]);
    let mut data = QcData::new();
    extract_chart_into(&chart, "Energy", &mut data);
    assert_eq!(number(data.energy.get("import_energy_kwh")), Some(0.0));
    assert_eq!(number(data.energy.get("export_energy_kwh")), Some(4.6));
}

#[test]
fn extract_chart_uses_widget_title_when_data_has_no_name() {
    let chart = object(vec![(
        "series",
        list(vec![object(vec![(
            "data",
            list(vec![object(vec![("value", Value::from(31.0))])]),
        )])]),
    )]);
    let mut data = QcData::new();
    extract_chart_into(&chart, "Current Battery SoC", &mut data);
    assert_eq!(number(data.energy.get("current_battery_soc")), Some(31.0));
}

fn power_widget() -> DashboardWidget {
    DashboardWidget {
        datafetch: object(vec![
            ("fetchType", Value::from("chart")),
            (
                "parameters",
                object(vec![
                    ("deviceId", Value::from("abc123")),
                    ("lookback", Value::from("1d")),
                    ("metric", Value::from("power")),
                ]),
            ),
        ]),
        echart_opts: object(vec![("title", object(vec![("text", Value::from("Power"))]))]),
        title: "Power".to_string(),
    }
}

#[test]
fn build_chart_request_merges_parameters_into_datafetch() {
    let widget = power_widget();
    let body = build_chart_request(&widget).unwrap();
    let datafetch = body.get("datafetch").unwrap();
    assert_eq!(datafetch.get("fetchType").unwrap(), "chart");
    assert_eq!(datafetch.get("deviceId").unwrap(), "abc123");
    assert_eq!(datafetch.get("lookback").unwrap(), "1d");
    assert_eq!(datafetch.get("metric").unwrap(), "power");
    assert_eq!(
        body.get("echartOpts").unwrap(),
        &object(vec![("title", object(vec![("text", Value::from("Power"))]))])
    );
}

fn filter(output: &str, init: &str) -> Value {
    object(vec![("output", Value::from(output)), ("init", Value::from(init))])
}

fn schedule_filters() -> Vec<Value> {
    vec![
        filter("sched_state", "1"),
        filter("force_charge_curr", "100.0"),
        filter("force_discharge_curr", "48.0"),
        filter("min_soc", "15"),
        filter("max_soc", "100"),
        filter("s1_mode", "1"),
        filter("s1_starttime", "02:00:00"),
        filter("s1_endtime", "05:00:00"),
        filter("s2_mode", "1"),
        filter("s2_starttime", "05:00:00"),
        filter("s2_endtime", "20:00:00"),
        filter("s3_mode", "0"),
        filter("s3_starttime", "00:00:00"),
        filter("s3_endtime", "00:00:00"),
        filter("s4_mode", "2"),
        filter("s4_starttime", "00:00:00"),
        filter("s4_endtime", "02:00:00"),
        filter("s5_mode", "0"),
        filter("s5_starttime", "00:00:00"),
        filter("s5_endtime", "00:00:00"),
    ]
}

#[test]
fn parse_daily_schedule_extracts_all_fields() {
    let body = object(vec![("filters", list(schedule_filters()))]);
    let config = parse_daily_schedule(&body).unwrap();
    assert!(config.state_enabled);
    assert_eq!(number(Some(&config.force_charge_current)), Some(100.0));
    assert_eq!(number(Some(&config.force_discharge_current)), Some(48.0));
    assert_eq!(config.min_soc, 15);
    assert_eq!(config.max_soc, 100);
    assert_eq!(config.schedules.len(), 5);
    assert_eq!(config.schedules[0].mode, ScheduleMode::ForcedCharge);
    assert_eq!(config.schedules[0].start_time, "02:00:00");
    assert_eq!(config.schedules[3].mode, ScheduleMode::ForcedDischarge);
    assert_eq!(config.schedules[2].mode, ScheduleMode::Disable);
}

fn refused(filters: Vec<Value>) -> String {
    let error = parse_daily_schedule(&object(vec![("filters", list(filters))])).unwrap_err();
    error.message()
}

#[test]
fn parse_daily_schedule_names_what_is_wrong() {
    let missing = parse_daily_schedule(&object(vec![("filters", Value::from("x"))])).unwrap_err();
    assert_eq!(
        missing.message(),
        "qendercore api error: schedule response missing filters"
    );
    let mut filters = schedule_filters();
    filters.remove(12);
    assert_eq!(refused(filters), "qendercore api error: schedule response missing s3_starttime");
    let mut filters = schedule_filters();
    filters.remove(4);
    assert_eq!(refused(filters), "qendercore api error: schedule response missing max_soc");
    let mut filters = schedule_filters();
    filters.push(filter("s2_mode", "7"));
    assert_eq!(refused(filters), "invalid state: unknown schedule mode value: 7");
    let mut filters = schedule_filters();
    filters.push(filter("s2_mode", "charge"));
    assert_eq!(
        refused(filters),
        "qendercore api error: schedule field s2_mode not a float: invalid float literal"
    );
    let mut filters = schedule_filters();
    filters.push(filter("min_soc", "256"));
    assert_eq!(
        refused(filters),
        "qendercore api error: schedule field min_soc out of u8 range: 256"
    );
    let mut filters = schedule_filters();
    filters.push(object(vec![("output", Value::from("min_soc")), ("init", Value::Null)]));
    assert_eq!(
        refused(filters),
        "qendercore api error: schedule field min_soc expected number, got null"
    );
    let mut filters = schedule_filters();
    filters.push(object(vec![
        ("output", Value::from("sched_state")),
        ("init", list(vec![Value::from(true), Value::from("a")])),
    ]));
    assert_eq!(
        refused(filters),
        "qendercore api error: schedule field sched_state expected string, got [true,\"a\"]"
    );
}

#[test]
fn parse_daily_schedule_takes_the_last_setting_and_skips_odd_filters() {
    let mut filters = schedule_filters();
    filters.push(object(vec![("output", Value::from("min_soc"))]));
    filters.push(object(vec![("init", Value::from("9"))]));
    filters.push(object(vec![("output", Value::from("max_soc")), ("init", Value::from(90.9))]));
    filters.push(object(vec![("output", Value::from("sched_state")), ("init", Value::from(1))]));
    filters.push(object(vec![("output", Value::from("s1_endtime")), ("init", Value::from(7))]));
    let config = parse_daily_schedule(&object(vec![("filters", list(filters))])).unwrap();
    assert_eq!(config.min_soc, 15);
    assert_eq!(config.max_soc, 90);
    assert!(!config.state_enabled);
    assert_eq!(config.schedules[0].end_time, "7.0");
}

#[test]
fn settings_are_read_one_by_one() {
    let mut values = serde_json::Map::new();
    values.insert("a".to_string(), Value::from("2.5"));
    assert_eq!(require_value(&values, "a").unwrap(), &Value::from("2.5"));
    assert_eq!(
        require_value(&values, "b").unwrap_err().message(),
        "qendercore api error: schedule response missing b"
    );
    assert_eq!(read_string(&Value::from("x"), "k").unwrap(), "x");
    assert_eq!(read_string(&Value::from(2.5), "k").unwrap(), "2.5");
    assert_eq!(read_string(&Value::from(-3), "k").unwrap(), "-3.0");
    assert_eq!(number(Some(&read_f64(&Value::from("2.5"), "k").unwrap())), Some(2.5));
    assert_eq!(number(Some(&read_f64(&Value::from(7), "k").unwrap())), Some(7.0));
    assert_eq!(read_u8(&Value::from(254.9), "k").unwrap(), 254);
    assert_eq!(
        read_u8(&Value::from(-1), "k").unwrap_err().message(),
        "qendercore api error: schedule field k out of u8 range: -1"
    );
    assert_eq!(
        read_u8(&Value::from("NaN"), "k").unwrap_err().message(),
        "qendercore api error: schedule field k out of u8 range: NaN"
    );
}

fn schedule() -> DailyScheduleConfig {
    DailyScheduleConfig {
        state_enabled: false,
        force_charge_current: Double::parse("100").unwrap(),
        force_discharge_current: Double::parse("48").unwrap(),
        min_soc: 15,
        max_soc: 100,
        schedules: vec![Schedule {
            mode: ScheduleMode::ForcedDischarge,
            start_time: "18:00:00".to_string(),
            end_time: "21:30:00".to_string(),
        }],
    }
}

#[test]
fn schedules_are_written_as_texts() {
    let body = schedule_body(&schedule());
    let members = body.as_object().unwrap();
    assert_eq!(members.len(), 20);
    assert_eq!(members["sched_state"], "0");
    assert_eq!(members["force_charge_curr"], "100.0");
    assert_eq!(members["force_discharge_curr"], "48.0");
    assert_eq!(members["min_soc"], "15");
    assert_eq!(members["max_soc"], "100");
    assert_eq!(members["s1_mode"], "2");
    assert_eq!(members["s1_starttime"], "18:00:00");
    assert_eq!(members["s1_endtime"], "21:30:00");
    assert_eq!(members["s5_mode"], "0");
    assert_eq!(members["s5_endtime"], "00:00:00");
    let mut other = schedule();
    other.force_charge_current = Double::parse("0.5").unwrap();
    assert_eq!(schedule_body(&other)["force_charge_curr"], "0.5");
}

#[test]
fn written_schedules_are_read_back() {
    for (charge, discharge) in
        [("100", "48"), ("-5", "9007199254740994"), ("0", "-1e300"), ("-0", "25.5"), ("0.5", "-0.1")]
    {
        let mut written = schedule();
        written.force_charge_current = Double::parse(charge).unwrap();
        written.force_discharge_current = Double::parse(discharge).unwrap();
        let body = schedule_body(&written);
        let settings = body.as_object().unwrap();
        assert_eq!(settings.len(), 20);
        assert!(settings.values().all(|value| value.is_string()));
        let mut filters = Vec::new();
        for (output, init) in settings {
            filters.push(object(vec![
                ("output", Value::from(output.as_str())),
                ("init", init.clone()),
            ]));
        }
        let read = parse_daily_schedule(&object(vec![("filters", list(filters))])).unwrap();
        let mut expected = written;
        expected.ensure_slot(5).unwrap();
        assert_eq!(read, expected);
    }
}

#[test]
fn keys_are_words_joined_by_underscores() {
    assert_eq!(normalize_key(""), "");
    assert_eq!(normalize_key(" .-() "), "");
    assert_eq!(normalize_key("A..B  c"), "a_b_c");
    assert_eq!(normalize_key("ÄÖ x"), "äö_x");
    assert_eq!(join_words("already_a_key"), "already_a_key");
    assert_eq!(join_words("A b"), "A_b");
    assert_eq!(normalize_key(&normalize_key("Grid - Export (W)")), "grid_export_w");
}

#[test]
fn charts_without_readings_change_nothing() {
    let mut data = QcData::new();
    let entry = || list(vec![object(vec![("value", Value::from(1))])]);
    let series = || list(vec![object(vec![("data", entry())])]);
    extract_chart_into(&object(vec![]), "T", &mut data);
    extract_chart_into(
        &object(vec![("series", series()), ("dataset", Value::Null)]),
        "T",
        &mut data,
    );
    extract_chart_into(&object(vec![("series", Value::from(3))]), "T", &mut data);
    extract_chart_into(
        &object(vec![("series", list(vec![object(vec![("name", Value::from("x"))])]))]),
        "T",
        &mut data,
    );
    extract_chart_into(
        &object(vec![(
            "series",
            object(vec![(
                "links",
                list(vec![
                    object(vec![("id", Value::from(3)), ("value", Value::from(1))]),
                    object(vec![("id", Value::from("x")), ("value", Value::from("1"))]),
                ]),
            )]),
        )]),
        "T",
        &mut data,
    );
    assert!(data.energy.get("t").is_none());
    assert!(data.status.get("x_wh").is_none());
    extract_chart_into(&object(vec![("series", series())]), "T", &mut data);
    assert_eq!(number(data.energy.get("t")), Some(1.0));
}

fn dashboard() -> Value {
    let widget = |title: &str| {
        object(vec![
            ("title", Value::from(title)),
            ("datafetch", power_widget().datafetch),
            ("echartOpts", Value::from("opts")),
        ])
    };
    let cell = |title: &str| object(vec![("widget", widget(title))]);
    let row = |cells: Vec<Value>| object(vec![("cells", list(cells))]);
    object(vec![(
        "rows",
        list(vec![row(vec![cell("Status"), cell("Energy")]), row(vec![]), row(vec![cell("SoC")])]),
    )])
}

#[test]
fn widgets_are_collected_row_by_row() {
    let widgets = collect_widgets(&dashboard()).unwrap();
    let titles: Vec<&str> = widgets.iter().map(|widget| widget.title.as_str()).collect();
    assert_eq!(titles, ["Status", "Energy", "SoC"]);
    assert_eq!(widgets[1].echart_opts, Value::from("opts"));
    assert_eq!(widgets[2].datafetch, power_widget().datafetch);
    let bare = object(vec![(
        "rows",
        list(vec![object(vec![(
            "cells",
            list(vec![object(vec![("widget", object(vec![("datafetch", Value::Null)]))])]),
        )])]),
    )]);
    let widgets = collect_widgets(&bare).unwrap();
    assert_eq!(widgets[0].title, "");
    assert_eq!(widgets[0].echart_opts, Value::Null);
}

#[test]
fn broken_dashboards_are_refused() {
    let rows = |rows: Vec<Value>| object(vec![("rows", list(rows))]);
    let cells = |cells: Vec<Value>| object(vec![("cells", list(cells))]);
    for (dashboard, words) in [
        (object(vec![]), "dashboard missing rows"),
        (rows(vec![cells(vec![]), object(vec![])]), "dashboard row missing cells"),
        (rows(vec![cells(vec![object(vec![])])]), "dashboard cell missing widget"),
        (
            rows(vec![cells(vec![object(vec![("widget", object(vec![]))])]), object(vec![])]),
            "widget missing datafetch",
        ),
    ] {
        let error = collect_widgets(&dashboard).unwrap_err();
        assert_eq!(error.message(), format!("qendercore api error: {words}"));
    }
    let widget = DashboardWidget {
        datafetch: object(vec![("parameters", Value::from("x"))]),
        echart_opts: Value::Null,
        title: String::new(),
    };
    assert_eq!(
        build_chart_request(&widget).unwrap_err().message(),
        "qendercore api error: widget datafetch missing parameters"
    );
    assert_eq!(extract_device_id(&dashboard()).unwrap(), "abc123");
    assert_eq!(
        extract_device_id(&rows(vec![cells(vec![])])).unwrap_err().message(),
        "qendercore api error: dashboard missing widgets"
    );
    assert_eq!(
        extract_device_id(&rows(vec![cells(vec![object(vec![("widget", object(vec![]))])])]))
            .unwrap_err()
            .message(),
        "qendercore api error: widget missing deviceId"
    );
}

#[test]
fn chart_requests_prefer_the_kind_of_the_widget() {
    let widget = DashboardWidget {
        datafetch: object(vec![
            ("fetchType", Value::from("outer")),
            (
                "parameters",
                object(vec![("fetchType", Value::from("inner")), ("a", Value::from(1))]),
            ),
        ]),
        echart_opts: Value::Null,
        title: String::new(),
    };
    assert_eq!(
        build_chart_request(&widget).unwrap(),
        object(vec![
            (
                "datafetch",
                object(vec![("fetchType", Value::from("outer")), ("a", Value::from(1))])
            ),
            ("echartOpts", Value::Null),
        ])
    );
}

fn hardware(columns: Vec<Value>, rows: Vec<Value>) -> Value {
    object(vec![("cols", list(columns)), ("rows", list(rows))])
}

#[test]
fn the_type_of_the_device_is_read_from_its_column() {
    let column = |id: &str| object(vec![("id", Value::from(id))]);
    let columns = || vec![column("hwid"), column("enchwt")];
    let row = list(vec![Value::from("abc123"), Value::from("type7")]);
    assert_eq!(extract_enchwt(&hardware(columns(), vec![row.clone()])).unwrap(), "type7");
    for (answer, words) in [
        (object(vec![]), "ds response missing cols"),
        (hardware(vec![column("hwid")], vec![row]), "ds response missing enchwt column"),
        (object(vec![("cols", list(columns()))]), "ds response missing rows"),
        (hardware(columns(), vec![]), "ds response returned no rows"),
        (hardware(columns(), vec![Value::Null]), "ds response returned no rows"),
        (hardware(columns(), vec![list(vec![Value::from("abc123")])]), "enchwt cell empty"),
        (
            hardware(columns(), vec![list(vec![Value::from("abc123"), Value::Null])]),
            "enchwt cell empty",
        ),
    ] {
        let error = extract_enchwt(&answer).unwrap_err();
        assert_eq!(error.message(), format!("qendercore api error: {words}"));
    }
    assert_eq!(
        hardware_request("abc123"),
        object(vec![
            ("_ft", Value::from("hwv")),
            ("hwid", Value::from("abc123")),
            ("f", Value::from(vec!["hwid", "enchwt"])),
        ])
    );
}

#[test]
fn requests_carry_the_default_headers() {
    let headers = default_headers().unwrap();
    assert_eq!(headers.len(), 11);
    for (name, value) in [
        ("origin", "https://www.qendercore.com"),
        ("referer", "https://www.qendercore.com"),
        ("accept", "application/json"),
        ("accept-language", "en-US,en;q=0.5"),
        ("cache-control", "no-cache"),
        ("pragma", "no-cache"),
        ("sec-fetch-dest", "empty"),
        ("sec-fetch-mode", "cors"),
        ("sec-fetch-site", "same-site"),
        ("sec-gpc", "1"),
        ("x-qc-client-seq", "W.1.1"),
    ] {
        assert_eq!(headers[name], value);
    }
    assert_eq!(headers[reqwest::header::ORIGIN], "https://www.qendercore.com");
    let mut changed = headers;
    set_header(&mut changed, "accept", "text/plain").unwrap();
    assert_eq!(changed["accept"], "text/plain");
    let error = set_header(&mut changed, "accept", "a\nb").unwrap_err();
    assert_eq!(
        error.message(),
        "invalid configuration: invalid header value 'a\nb': failed to parse header value"
    );
    assert_eq!(changed["accept"], "text/plain");
    let (_, settings) = QcoreClient::new(config()).unwrap();
    assert_eq!(settings.timeout, TimeSpan::from_secs(15));
    assert_eq!(settings.pool_idle_timeout, TimeSpan::from_secs(90));
    assert!(settings.user_agent.starts_with("Mozilla/5.0 (X11; Linux x86_64; rv:124.0)"));
    assert_eq!(settings.headers.len(), 11);
}

#[test]
fn replies_are_documents_or_errors() {
    assert!(!is_success(199));
    assert!(is_success(200));
    assert!(is_success(299));
    assert!(!is_success(300));
    assert_eq!(handle_response(Reply::Success(Value::from(1))).unwrap(), Value::from(1));
    let failed = handle_response(Reply::Failure { status: 401, body: "nope".to_string() });
    assert_eq!(failed.unwrap_err().message(), "qendercore api error: 401 Unauthorized: nope");
    let failed = handle_response(Reply::Failure { status: 599, body: String::new() });
    assert_eq!(failed.unwrap_err().message(), "qendercore api error: 599 : ");
    let broken = handle_response(Reply::Broken(AppError::Http("timed out".to_string())));
    assert_eq!(broken.unwrap_err().message(), "http error: timed out");
    assert_eq!(describe_failure(500, Some("Oops"), "x"), "500 Oops: x");
}

fn api_error(words: &str) -> AppResult<Value> {
    Err(AppError::QcoreApi(words.to_string()))
}

#[test]
fn requests_are_made_twice_at_most() {
    let mut client = client();
    let step = client.token_stored("old".to_string(), Ok(()));
    assert!(matches!(step, TokenStep::Done(Ok(_))));
    let request = client.request(&ApiCall::Get { path: "/s/dashboard".to_string() });
    assert_eq!(request.url(), "https://example.com/v1/s/dashboard");
    assert_eq!(request.body(), None);
    let again = match client.settle(request, api_error("401 Unauthorized: x")) {
        Attempt::Again(again) => again,
        Attempt::Done(_) => panic!("the request was not made again"),
    };
    assert!(matches!(client.get_token(), TokenStep::ReadFile));
    assert_eq!(again.url(), "https://example.com/v1/s/dashboard");
    match client.settle(again, api_error("401 Unauthorized: x")) {
        Attempt::Done(result) => assert!(result.is_err()),
        Attempt::Again(_) => panic!("the request was made a third time"),
    }
    let body = object(vec![("a", Value::from(1))]);
    let request = client.authorized_post_json("/h/chart", &body);
    assert_eq!(request.url(), "https://example.com/v1/h/chart");
    assert_eq!(request.body(), Some("{\"a\":1}"));
    let request = client.authorized_get("/x");
    match client.settle(request, api_error("500 Oops: x")) {
        Attempt::Done(result) => assert!(result.is_err()),
        Attempt::Again(_) => panic!("the request was made again"),
    }
    let request = client.authorized_get("/x");
    match client.settle(request, Err(AppError::Http("401".to_string()))) {
        Attempt::Done(result) => assert!(result.is_err()),
        Attempt::Again(_) => panic!("the request was made again"),
    }
}

#[test]
fn tokens_are_used_checked_or_fetched() {
    let mut client = client();
    assert_eq!(client.account_url(), "https://example.com/v1/s/accountinfo");
    assert_eq!(client.login_url(), "https://example.com/v1/auth/login");
    assert_eq!(
        client.login_form(),
        [("username", "user@example.com"), ("password", "secret")]
    );
    assert!(matches!(client.get_token(), TokenStep::ReadFile));
    assert!(matches!(client.token_file_read(None), TokenStep::Login));
    assert!(matches!(
        client.token_file_read(Some("t".to_string())),
        TokenStep::Validate { token } if token == "t"
    ));
    let unknown = Reply::Success(object(vec![("name", Value::from("x"))]));
    assert!(matches!(client.token_validated("t".to_string(), &unknown), TokenStep::Login));
    let refused = Reply::Failure { status: 401, body: String::new() };
    assert!(matches!(client.token_validated("t".to_string(), &refused), TokenStep::Login));
    let broken = Reply::Broken(AppError::Http("x".to_string()));
    assert!(matches!(client.token_validated("t".to_string(), &broken), TokenStep::Login));
    assert!(matches!(client.get_token(), TokenStep::ReadFile));
    let known = Reply::Success(object(vec![("uid", Value::Null)]));
    assert!(matches!(
        client.token_validated("t".to_string(), &known),
        TokenStep::Done(Ok(token)) if token == "t"
    ));
    assert!(matches!(client.get_token(), TokenStep::Done(Ok(token)) if token == "t"));
    client.invalidate_token();
    assert!(matches!(
        client.logged_in(Ok("new".to_string())),
        TokenStep::Store { token } if token == "new"
    ));
    assert!(matches!(
        client.logged_in(Err(AppError::Http("x".to_string()))),
        TokenStep::Done(Err(_))
    ));
    let failed = client.token_stored("new".to_string(), Err(AppError::Io("full".to_string())));
    assert!(matches!(failed, TokenStep::Done(Err(AppError::Io(_)))));
    assert!(matches!(client.get_token(), TokenStep::ReadFile));
    client.token_stored("new".to_string(), Ok(()));
    assert!(matches!(client.get_token(), TokenStep::Done(Ok(token)) if token == "new"));
}

fn path_of(call: Option<ApiCall>) -> (String, Option<Value>) {
    match call.unwrap() {
        ApiCall::Get { path } => (path, None),
        ApiCall::Post { path, body } => (path, Some(body)),
    }
}

#[test]
fn readings_come_from_every_chart() {
    let client = client();
    let link = |id: &str, value: f64| {
        object(vec![(
            "series",
            object(vec![(
                "links",
                list(vec![object(vec![("id", Value::from(id)), ("value", Value::from(value))])]),
            )]),
        )])
    };
    let entry = object(vec![(
        "series",
        list(vec![object(vec![(
            "data",
            list(vec![object(vec![("value", Value::from(55))])]),
        )])]),
    )]);
    let mut step = client.fetch_qc_data();
    assert_eq!(path_of(step.call()), ("/s/dashboard".to_string(), None));
    step = step.advance(Ok(dashboard()));
    for chart in [link("Grid Export", 1.0), link("Grid Export", 2.0), entry] {
        let (path, body) = path_of(step.call());
        assert_eq!(path, "/h/chart");
        assert_eq!(body.unwrap()["datafetch"]["deviceId"], "abc123");
        step = step.advance(Ok(chart));
    }
    assert!(step.call().is_none());
    let data = match step {
        QcDataStep::Done(result) => result.unwrap(),
        _ => panic!("the readings are not complete"),
    };
    assert_eq!(number(data.status.get("grid_export_wh")), Some(2.0));
    assert_eq!(number(data.energy.get("soc")), Some(55.0));
}

#[test]
fn readings_fail_with_the_first_error() {
    let client = client();
    let failed = client.fetch_qc_data().advance(api_error("500 x: y"));
    assert!(matches!(failed, QcDataStep::Done(Err(AppError::QcoreApi(_)))));
    let failed = client.fetch_qc_data().advance(Ok(Value::Null));
    match failed {
        QcDataStep::Done(Err(error)) => {
            assert_eq!(error.message(), "qendercore api error: dashboard missing rows")
        }
        _ => panic!("the dashboard was accepted"),
    }
    let charts = client.fetch_qc_data().advance(Ok(dashboard()));
    let failed = charts.advance(Err(AppError::Http("x".to_string())));
    assert!(matches!(failed, QcDataStep::Done(Err(AppError::Http(_)))));
    let empty = client.fetch_qc_data().advance(Ok(object(vec![("rows", list(vec![]))])));
    assert!(matches!(empty, QcDataStep::Done(Ok(_))));
}

#[test]
fn schedules_are_fetched_step_by_step() {
    let mut client = client();
    let column = |id: &str| object(vec![("id", Value::from(id))]);
    let answer = hardware(
        vec![column("hwid"), column("enchwt")],
        vec![list(vec![Value::from("abc123"), Value::from("type7")])],
    );
    let mut step = client.fetch_daily_schedule();
    assert_eq!(path_of(step.call()).0, "/s/dashboard");
    step = client.schedule_answered(step, Ok(dashboard()));
    assert!(matches!(client.get_device_id(), DeviceStep::Known(device) if device == "abc123"));
    let (path, body) = path_of(step.call());
    assert_eq!(path, "/h/ds");
    assert_eq!(body.unwrap(), hardware_request("abc123"));
    step = client.schedule_answered(step, Ok(answer));
    assert_eq!(path_of(step.call()).0, "/h/devices/abc123/widgets/dailysched?enchwt=type7");
    let answer = object(vec![("filters", list(schedule_filters()))]);
    step = client.schedule_answered(step, Ok(answer));
    assert!(step.call().is_none());
    assert!(matches!(step, ScheduleStep::Done(Ok(config)) if config.min_soc == 15));
    let step = client.fetch_daily_schedule();
    assert_eq!(path_of(step.call()).0, "/h/ds");
    let step = client.schedule_answered(step, api_error("404 Not Found: x"));
    assert!(matches!(step, ScheduleStep::Done(Err(_))));
}

#[test]
fn schedules_are_written_to_the_device() {
    let mut client = client();
    let step = client.set_daily_schedule(&schedule());
    assert_eq!(path_of(step.call()).0, "/s/dashboard");
    let step = client.write_answered(step, Ok(dashboard()));
    let (path, body) = path_of(step.call());
    assert_eq!(path, "/h/devices/abc123/solt/daysched");
    assert_eq!(body.unwrap(), schedule_body(&schedule()));
    let step = client.write_answered(step, Ok(Value::from("ok")));
    assert!(step.call().is_none());
    assert!(matches!(step, WriteStep::Done(Ok(answer)) if answer == "ok"));
    let step = client.set_daily_schedule(&schedule());
    assert_eq!(path_of(step.call()).0, "/h/devices/abc123/solt/daysched");
    let mut other = QcoreClient::new(config()).unwrap().0;
    let step = other.set_daily_schedule(&schedule());
    let step = other.write_answered(step, Ok(Value::Null));
    assert!(matches!(step, WriteStep::Done(Err(_))));
    assert!(matches!(other.get_device_id(), DeviceStep::Ask(_)));
    assert_eq!(other.device_answered(Ok(dashboard())).unwrap(), "abc123");
}
