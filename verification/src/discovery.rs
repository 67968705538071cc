//! What Home Assistant is told about the adapter: the entities, and the documents that carry
//! their states.
use serde_json::Value;
use vstd::prelude::*;
use vstd::string::StringExecFns;

use crate::double::{double_json, Double, Numeral};
use crate::json::{
    array_value, bool_value, empty_object, integer_value, json_of, jsons_of, members_of, no_members,
    object_value, put, string_value, Json,
};
use crate::model::{
    mode_name, DailySchedule, DailyScheduleConfig, Data, QcData, Readings, Slot,
};
use crate::text::{ascending, decimal, lemma_ascending, push_decimal, same, texts_of};

verus! {

broadcast use vstd::string::group_string_axioms;

pub const DEVICE_NAME: &'static str = "Qendercore Inverter";

pub const DEVICE_IDENTIFIER: &'static str = "qendercore_inverter";

pub const DEVICE_MANUFACTURER: &'static str = "Qendercore";

pub const SCHEDULE_ENABLED_PAYLOAD_ON: &'static str = "ON";

pub const SCHEDULE_ENABLED_PAYLOAD_OFF: &'static str = "OFF";

pub const FORCE_CHARGE_CURRENT_KEY: &'static str = "force_charge_current";

pub const FORCE_DISCHARGE_CURRENT_KEY: &'static str = "force_discharge_current";

pub const SCHEDULE_ENABLED_KEY: &'static str = "schedule_enabled";

pub const MIN_SOC_KEY: &'static str = "min_soc";

pub const MAX_SOC_KEY: &'static str = "max_soc";

/// A sensor that shows a reading of the dashboard.
#[derive(Debug, Clone, Copy)]
pub struct SensorDef {
    pub api_key: &'static str,
    pub unique_id: &'static str,
    pub name: &'static str,
    pub device_class: &'static str,
    pub unit: &'static str,
}

/// A sensor by its texts.
pub struct Sensor {
    pub api_key: Seq<char>,
    pub unique_id: Seq<char>,
    pub name: Seq<char>,
    pub device_class: Seq<char>,
    pub unit: Seq<char>,
}

impl View for SensorDef {
    type V = Sensor;

    open spec fn view(&self) -> Sensor {
        Sensor {
            api_key: self.api_key@,
            unique_id: self.unique_id@,
            name: self.name@,
            device_class: self.device_class@,
            unit: self.unit@,
        }
    }
}

/// The sensors of a sequence.
pub open spec fn sensors(defs: Seq<SensorDef>) -> Seq<Sensor> {
    Seq::new(defs.len(), |i: int| defs[i]@)
}

/// The sensors for what flows now.
pub open spec fn status_table() -> Seq<Sensor> {
    seq![
        Sensor {
            api_key: "grid_export_wh"@,
            unique_id: "qc_grid_export"@,
            name: "Grid Export"@,
            device_class: "power"@,
            unit: "W"@,
        },
        Sensor {
            api_key: "battery_discharge_wh"@,
            unique_id: "qc_battery_discharge"@,
            name: "Battery Discharge"@,
            device_class: "power"@,
            unit: "W"@,
        },
    ]
}

/// The sensors for the battery and the energy meters.
pub open spec fn energy_table() -> Seq<Sensor> {
    seq![
        Sensor {
            api_key: "current_battery_soc"@,
            unique_id: "qc_battery_soc"@,
            name: "Battery SoC"@,
            device_class: "battery"@,
            unit: "%"@,
        },
        Sensor {
            api_key: "import_energy_kwh"@,
            unique_id: "qc_import_energy"@,
            name: "Import Energy"@,
            device_class: "energy"@,
            unit: "kWh"@,
        },
        Sensor {
            api_key: "export_energy_kwh"@,
            unique_id: "qc_export_energy"@,
            name: "Export Energy"@,
            device_class: "energy"@,
            unit: "kWh"@,
        },
        Sensor {
            api_key: "self_consumption_energy_kwh"@,
            unique_id: "qc_self_consumption"@,
            name: "Self Consumption"@,
            device_class: "energy"@,
            unit: "kWh"@,
        },
    ]
}

/// The sensors for what flows now.
pub fn status_sensors() -> (defs: Vec<SensorDef>)
    ensures
        sensors(defs@) == status_table(),
{
    let defs = vec![
        SensorDef {
            api_key: "grid_export_wh",
            unique_id: "qc_grid_export",
            name: "Grid Export",
            device_class: "power",
            unit: "W",
        },
        SensorDef {
            api_key: "battery_discharge_wh",
            unique_id: "qc_battery_discharge",
            name: "Battery Discharge",
            device_class: "power",
            unit: "W",
        },
    ];
    assert(sensors(defs@) =~= status_table());
    defs
}

/// The sensors for the battery and the energy meters.
pub fn energy_sensors() -> (defs: Vec<SensorDef>)
    ensures
        sensors(defs@) == energy_table(),
{
    let defs = vec![
        SensorDef {
            api_key: "current_battery_soc",
            unique_id: "qc_battery_soc",
            name: "Battery SoC",
            device_class: "battery",
            unit: "%",
        },
        SensorDef {
            api_key: "import_energy_kwh",
            unique_id: "qc_import_energy",
            name: "Import Energy",
            device_class: "energy",
            unit: "kWh",
        },
        SensorDef {
            api_key: "export_energy_kwh",
            unique_id: "qc_export_energy",
            name: "Export Energy",
            device_class: "energy",
            unit: "kWh",
        },
        SensorDef {
            api_key: "self_consumption_energy_kwh",
            unique_id: "qc_self_consumption",
            name: "Self Consumption",
            device_class: "energy",
            unit: "kWh",
        },
    ];
    assert(sensors(defs@) =~= energy_table());
    defs
}

/// The key of a slot for one of its settings.
pub open spec fn slot_key(slot: nat, tail: Seq<char>) -> Seq<char> {
    "schedule_"@ + decimal(slot) + tail
}

fn slot_key_text(slot: usize, tail: &str) -> (key: String)
    ensures
        key@ == slot_key(slot as nat, tail@),
{
    let mut key = "schedule_".to_string();
    push_decimal(&mut key, slot as u64);
    key.append(tail);
    key
}

/// The key of a slot for its mode.
pub fn schedule_mode_state_key(slot: usize) -> (key: String)
    ensures
        key@ == slot_key(slot as nat, "_mode"@),
{
    slot_key_text(slot, "_mode")
}

/// The key of a slot for its start.
pub fn schedule_start_state_key(slot: usize) -> (key: String)
    ensures
        key@ == slot_key(slot as nat, "_start"@),
{
    slot_key_text(slot, "_start")
}

/// The key of a slot for its end.
pub fn schedule_end_state_key(slot: usize) -> (key: String)
    ensures
        key@ == slot_key(slot as nat, "_end"@),
{
    slot_key_text(slot, "_end")
}

/// What a discovery message says of an entity of any kind.
pub struct Basics {
    pub name: Seq<char>,
    pub unique_id: Seq<char>,
    pub state_topic: Seq<char>,
    pub state_key: Seq<char>,
    pub availability_topic: Seq<char>,
    pub device: Json,
}

/// Where the state of an entity stands in the document with the states.
pub open spec fn value_template(state_key: Seq<char>) -> Seq<char> {
    "{{ value_json."@ + state_key + " }}"@
}

/// What a discovery message says of an entity of any kind.
pub open spec fn base_members(basics: Basics) -> Map<Seq<char>, Json> {
    map![
        "name"@ => Json::Text(basics.name),
        "unique_id"@ => Json::Text(basics.unique_id),
        "state_topic"@ => Json::Text(basics.state_topic),
        "value_template"@ => Json::Text(value_template(basics.state_key)),
        "availability_topic"@ => Json::Text(basics.availability_topic),
        "payload_available"@ => Json::Text("online"@),
        "payload_not_available"@ => Json::Text("offline"@),
        "device"@ => basics.device,
    ]
}

/// The characters of a text that may be missing.
pub open spec fn chars_in(text: Option<&str>) -> Option<Seq<char>> {
    match text {
        Some(inner) => Some(inner@),
        None => None,
    }
}

/// Members with one more text, where there is one.
pub open spec fn with_text(
    members: Map<Seq<char>, Json>,
    key: Seq<char>,
    text: Option<Seq<char>>,
) -> Map<Seq<char>, Json> {
    match text {
        Some(inner) => members.insert(key, Json::Text(inner)),
        None => members,
    }
}

/// Members with one more number, where there is one.
pub open spec fn with_number(
    members: Map<Seq<char>, Json>,
    key: Seq<char>,
    number: Option<u32>,
) -> Map<Seq<char>, Json> {
    match number {
        Some(n) => members.insert(key, Json::Num(Numeral::Integer(n as int))),
        None => members,
    }
}

/// What a discovery message says of a sensor.
pub open spec fn sensor_members(
    basics: Basics,
    device_class: Option<Seq<char>>,
    unit: Option<Seq<char>>,
    state_class: Option<Seq<char>>,
) -> Map<Seq<char>, Json> {
    with_text(
        with_text(
            with_text(base_members(basics), "device_class"@, device_class),
            "unit_of_measurement"@,
            unit,
        ),
        "state_class"@,
        state_class,
    )
}

/// What a discovery message says of a switch.
pub open spec fn switch_members(basics: Basics, command_topic: Seq<char>) -> Map<Seq<char>, Json> {
    base_members(basics).insert("command_topic"@, Json::Text(command_topic)).insert(
        "payload_on"@,
        Json::Text("ON"@),
    ).insert("payload_off"@, Json::Text("OFF"@)).insert("state_on"@, Json::Text("ON"@)).insert(
        "state_off"@,
        Json::Text("OFF"@),
    ).insert("optimistic"@, Json::Bool(false))
}

/// What a discovery message says of a number.
pub open spec fn number_members(
    basics: Basics,
    command_topic: Seq<char>,
    min: u64,
    max: u64,
    step: u64,
    unit: Seq<char>,
) -> Map<Seq<char>, Json> {
    base_members(basics).insert("command_topic"@, Json::Text(command_topic)).insert(
        "min"@,
        double_json(min),
    ).insert("max"@, double_json(max)).insert("step"@, double_json(step)).insert(
        "mode"@,
        Json::Text("slider"@),
    ).insert("unit_of_measurement"@, Json::Text(unit)).insert("optimistic"@, Json::Bool(false))
}

/// What a discovery message says of a selection.
pub open spec fn select_members(
    basics: Basics,
    command_topic: Seq<char>,
    options: Seq<Seq<char>>,
) -> Map<Seq<char>, Json> {
    base_members(basics).insert("command_topic"@, Json::Text(command_topic)).insert(
        "options"@,
        Json::List(options.map_values(|option: Seq<char>| Json::Text(option))),
    ).insert("optimistic"@, Json::Bool(false))
}

/// What a discovery message says of a text.
pub open spec fn text_members(
    basics: Basics,
    command_topic: Seq<char>,
    min: Option<u32>,
    max: Option<u32>,
    pattern: Option<Seq<char>>,
) -> Map<Seq<char>, Json> {
    with_text(
        with_number(
            with_number(
                base_members(basics).insert("command_topic"@, Json::Text(command_topic)),
                "min"@,
                min,
            ),
            "max"@,
            max,
        ),
        "pattern"@,
        pattern,
    ).insert("optimistic"@, Json::Bool(false))
}

fn put_text(members: &mut serde_json::Map<String, Value>, key: &str, text: &str)
    ensures
        members_of(*final(members)) == members_of(*old(members)).insert(key@, Json::Text(text@)),
{
    put(members, key.to_string(), string_value(text.to_string()));
}

fn put_optional(members: &mut serde_json::Map<String, Value>, key: &str, text: Option<&str>)
    ensures
        members_of(*final(members)) == with_text(members_of(*old(members)), key@, chars_in(text)),
{
    if let Some(inner) = text {
        put_text(members, key, inner);
    }
}

fn put_count(members: &mut serde_json::Map<String, Value>, key: &str, number: Option<u32>)
    ensures
        members_of(*final(members)) == with_number(members_of(*old(members)), key@, number),
{
    if let Some(n) = number {
        put(members, key.to_string(), integer_value(n as u64));
    }
}

/// What a discovery message says of an entity of any kind.
pub fn base_discovery_payload(
    name: &str,
    unique_id: &str,
    state_topic: &str,
    state_key: &str,
    availability_topic: &str,
    device: &Value,
) -> (payload: serde_json::Map<String, Value>)
    ensures
        members_of(payload) == base_members(
            Basics {
                name: name@,
                unique_id: unique_id@,
                state_topic: state_topic@,
                state_key: state_key@,
                availability_topic: availability_topic@,
                device: json_of(*device),
            },
        ),
{
    let mut template = "{{ value_json.".to_string();
    template.append(state_key);
    template.append(" }}");
    let mut payload = no_members();
    put_text(&mut payload, "name", name);
    put_text(&mut payload, "unique_id", unique_id);
    put_text(&mut payload, "state_topic", state_topic);
    put_text(&mut payload, "value_template", template.as_str());
    put_text(&mut payload, "availability_topic", availability_topic);
    put_text(&mut payload, "payload_available", "online");
    put_text(&mut payload, "payload_not_available", "offline");
    put(&mut payload, "device".to_string(), device.clone());
    payload
}

/// What a discovery message says of a sensor.
pub fn sensor_discovery_payload(
    name: &str,
    unique_id: &str,
    state_topic: &str,
    state_key: &str,
    device_class: Option<&str>,
    unit_of_measurement: Option<&str>,
    state_class: Option<&str>,
    availability_topic: &str,
    device: &Value,
) -> (payload: Value)
    ensures
        json_of(payload) == Json::Object(
            sensor_members(
                Basics {
                    name: name@,
                    unique_id: unique_id@,
                    state_topic: state_topic@,
                    state_key: state_key@,
                    availability_topic: availability_topic@,
                    device: json_of(*device),
                },
                chars_in(device_class),
                chars_in(unit_of_measurement),
                chars_in(state_class),
            ),
        ),
{
    let mut payload = base_discovery_payload(
        name,
        unique_id,
        state_topic,
        state_key,
        availability_topic,
        device,
    );
    put_optional(&mut payload, "device_class", device_class);
    put_optional(&mut payload, "unit_of_measurement", unit_of_measurement);
    put_optional(&mut payload, "state_class", state_class);
    object_value(payload)
}

/// What a discovery message says of a switch.
pub fn switch_discovery_payload(
    name: &str,
    unique_id: &str,
    state_topic: &str,
    state_key: &str,
    command_topic: &str,
    availability_topic: &str,
    device: &Value,
) -> (payload: Value)
    ensures
        json_of(payload) == Json::Object(
            switch_members(
                Basics {
                    name: name@,
                    unique_id: unique_id@,
                    state_topic: state_topic@,
                    state_key: state_key@,
                    availability_topic: availability_topic@,
                    device: json_of(*device),
                },
                command_topic@,
            ),
        ),
{
    let mut payload = base_discovery_payload(
        name,
        unique_id,
        state_topic,
        state_key,
        availability_topic,
        device,
    );
    put_text(&mut payload, "command_topic", command_topic);
    put_text(&mut payload, "payload_on", SCHEDULE_ENABLED_PAYLOAD_ON);
    put_text(&mut payload, "payload_off", SCHEDULE_ENABLED_PAYLOAD_OFF);
    put_text(&mut payload, "state_on", SCHEDULE_ENABLED_PAYLOAD_ON);
    put_text(&mut payload, "state_off", SCHEDULE_ENABLED_PAYLOAD_OFF);
    put(&mut payload, "optimistic".to_string(), bool_value(false));
    object_value(payload)
}

/// What a discovery message says of a number.
pub fn number_discovery_payload(
    name: &str,
    unique_id: &str,
    state_topic: &str,
    state_key: &str,
    command_topic: &str,
    min: &Double,
    max: &Double,
    step: &Double,
    unit_of_measurement: &str,
    availability_topic: &str,
    device: &Value,
) -> (payload: Value)
    ensures
        json_of(payload) == Json::Object(
            number_members(
                Basics {
                    name: name@,
                    unique_id: unique_id@,
                    state_topic: state_topic@,
                    state_key: state_key@,
                    availability_topic: availability_topic@,
                    device: json_of(*device),
                },
                command_topic@,
                min@,
                max@,
                step@,
                unit_of_measurement@,
            ),
        ),
{
    let mut payload = base_discovery_payload(
        name,
        unique_id,
        state_topic,
        state_key,
        availability_topic,
        device,
    );
    put_text(&mut payload, "command_topic", command_topic);
    put(&mut payload, "min".to_string(), min.to_value());
    put(&mut payload, "max".to_string(), max.to_value());
    put(&mut payload, "step".to_string(), step.to_value());
    put_text(&mut payload, "mode", "slider");
    put_text(&mut payload, "unit_of_measurement", unit_of_measurement);
    put(&mut payload, "optimistic".to_string(), bool_value(false));
    object_value(payload)
}

/// The array with these texts.
fn text_list(texts: &Vec<String>) -> (list: Value)
    ensures
        json_of(list) == Json::List(
            texts_of(texts@).map_values(|text: Seq<char>| Json::Text(text)),
        ),
{
    let ghost documents = texts_of(texts@).map_values(|text: Seq<char>| Json::Text(text));
    let mut values: Vec<Value> = Vec::new();
    let mut next: usize = 0;
    while next < texts.len()
        invariant
            next <= texts.len(),
            documents == texts_of(texts@).map_values(|text: Seq<char>| Json::Text(text)),
            jsons_of(values@) == documents.take(next as int),
        decreases texts.len() - next,
    {
        let ghost before = values@;
        let value = string_value(texts[next].clone());
        values.push(value);
        assert(jsons_of(values@) =~= jsons_of(before).push(json_of(value)));
        assert(documents.take(next + 1) =~= documents.take(next as int).push(documents[next as int]));
        next = next + 1;
    }
    assert(documents.take(next as int) =~= documents);
    array_value(values)
}

/// What a discovery message says of a selection.
pub fn select_discovery_payload(
    name: &str,
    unique_id: &str,
    state_topic: &str,
    state_key: &str,
    command_topic: &str,
    options: &Vec<String>,
    availability_topic: &str,
    device: &Value,
) -> (payload: Value)
    ensures
        json_of(payload) == Json::Object(
            select_members(
                Basics {
                    name: name@,
                    unique_id: unique_id@,
                    state_topic: state_topic@,
                    state_key: state_key@,
                    availability_topic: availability_topic@,
                    device: json_of(*device),
                },
                command_topic@,
                texts_of(options@),
            ),
        ),
{
    let mut payload = base_discovery_payload(
        name,
        unique_id,
        state_topic,
        state_key,
        availability_topic,
        device,
    );
    put_text(&mut payload, "command_topic", command_topic);
    put(&mut payload, "options".to_string(), text_list(options));
    put(&mut payload, "optimistic".to_string(), bool_value(false));
    object_value(payload)
}

/// What a discovery message says of a text.
pub fn text_discovery_payload(
    name: &str,
    unique_id: &str,
    state_topic: &str,
    state_key: &str,
    command_topic: &str,
    min: Option<u32>,
    max: Option<u32>,
    pattern: Option<&str>,
    availability_topic: &str,
    device: &Value,
) -> (payload: Value)
    ensures
        json_of(payload) == Json::Object(
            text_members(
                Basics {
                    name: name@,
                    unique_id: unique_id@,
                    state_topic: state_topic@,
                    state_key: state_key@,
                    availability_topic: availability_topic@,
                    device: json_of(*device),
                },
                command_topic@,
                min,
                max,
                chars_in(pattern),
            ),
        ),
{
    let mut payload = base_discovery_payload(
        name,
        unique_id,
        state_topic,
        state_key,
        availability_topic,
        device,
    );
    put_text(&mut payload, "command_topic", command_topic);
    put_count(&mut payload, "min", min);
    put_count(&mut payload, "max", max);
    put_optional(&mut payload, "pattern", pattern);
    put(&mut payload, "optimistic".to_string(), bool_value(false));
    object_value(payload)
}

/// The states of the first `count` slots of a schedule.
pub open spec fn with_slot_states(
    members: Map<Seq<char>, Json>,
    schedules: Seq<Slot>,
    count: nat,
) -> Map<Seq<char>, Json>
    decreases count,
{
    if count == 0 {
        members
    } else {
        let slot = schedules[count - 1];
        with_slot_states(members, schedules, (count - 1) as nat).insert(
            slot_key(count, "_mode"@),
            Json::Text(mode_name(slot.mode)),
        ).insert(slot_key(count, "_start"@), Json::Text(slot.start_time)).insert(
            slot_key(count, "_end"@),
            Json::Text(slot.end_time),
        )
    }
}

/// The states of a schedule outside its slots.
pub open spec fn general_states(config: DailySchedule) -> Map<Seq<char>, Json> {
    map![
        "schedule_enabled"@ => Json::Text(if config.state_enabled { "ON"@ } else { "OFF"@ }),
        "min_soc"@ => Json::Num(Numeral::Integer(config.min_soc as int)),
        "max_soc"@ => Json::Num(Numeral::Integer(config.max_soc as int)),
        "force_charge_current"@ => double_json(config.force_charge_current),
        "force_discharge_current"@ => double_json(config.force_discharge_current),
    ]
}

/// The states of a schedule and of every slot that it has.
pub open spec fn schedule_states(config: DailySchedule) -> Map<Seq<char>, Json> {
    with_slot_states(general_states(config), config.schedules, config.schedules.len())
}

fn general_state_members(config: &DailyScheduleConfig) -> (payload: serde_json::Map<String, Value>)
    ensures
        members_of(payload) == general_states(config@),
{
    let mut payload = no_members();
    let enabled = if config.state_enabled {
        SCHEDULE_ENABLED_PAYLOAD_ON
    } else {
        SCHEDULE_ENABLED_PAYLOAD_OFF
    };
    put_text(&mut payload, SCHEDULE_ENABLED_KEY, enabled);
    put(&mut payload, MIN_SOC_KEY.to_string(), integer_value(config.min_soc as u64));
    put(&mut payload, MAX_SOC_KEY.to_string(), integer_value(config.max_soc as u64));
    put(
        &mut payload,
        FORCE_CHARGE_CURRENT_KEY.to_string(),
        config.force_charge_current.to_value(),
    );
    put(
        &mut payload,
        FORCE_DISCHARGE_CURRENT_KEY.to_string(),
        config.force_discharge_current.to_value(),
    );
    payload
}

/// The states of a schedule and of every slot that it has.
pub fn schedule_state_payload(config: &DailyScheduleConfig) -> (payload: Value)
    ensures
        json_of(payload) == Json::Object(schedule_states(config@)),
{
    let mut payload = general_state_members(config);
    let ghost general = general_states(config@);
    let mut told: usize = 0;
    while told < config.schedules.len()
        invariant
            told <= config.schedules.len(),
            members_of(payload) == with_slot_states(general, config@.schedules, told as nat),
        decreases config.schedules.len() - told,
    {
        let slot: usize = told + 1;
        let schedule = &config.schedules[told];
        put(
            &mut payload,
            schedule_mode_state_key(slot),
            string_value(schedule.mode.display_name().to_string()),
        );
        put(&mut payload, schedule_start_state_key(slot), string_value(schedule.start_time.clone()));
        put(&mut payload, schedule_end_state_key(slot), string_value(schedule.end_time.clone()));
        told = slot;
    }
    object_value(payload)
}

/// The readings that the first `count` sensors of a table show.
pub open spec fn with_readings(
    members: Map<Seq<char>, Json>,
    table: Seq<Sensor>,
    readings: Map<Seq<char>, u64>,
    count: nat,
) -> Map<Seq<char>, Json>
    decreases count,
{
    if count == 0 {
        members
    } else {
        let before = with_readings(members, table, readings, (count - 1) as nat);
        let key = table[count - 1].api_key;
        if readings.dom().contains(key) {
            before.insert(key, double_json(readings[key]))
        } else {
            before
        }
    }
}

/// The readings that the sensors show: of a sensor without a reading nothing is said, nor of
/// a reading without a sensor.
pub open spec fn reading_states(data: Data) -> Map<Seq<char>, Json> {
    with_readings(
        with_readings(empty_object(), status_table(), data.status, status_table().len()),
        energy_table(),
        data.energy,
        energy_table().len(),
    )
}

fn put_readings(
    payload: &mut serde_json::Map<String, Value>,
    defs: &Vec<SensorDef>,
    readings: &Readings,
)
    ensures
        members_of(*final(payload)) == with_readings(
            members_of(*old(payload)),
            sensors(defs@),
            readings@,
            defs@.len(),
        ),
{
    let ghost before = members_of(*payload);
    let mut next: usize = 0;
    while next < defs.len()
        invariant
            next <= defs.len(),
            members_of(*payload) == with_readings(before, sensors(defs@), readings@, next as nat),
        decreases defs.len() - next,
    {
        let key = defs[next].api_key;
        assert(sensors(defs@)[next as int].api_key == key@);
        if let Some(value) = readings.get(key) {
            put(payload, key.to_string(), value.to_value());
        }
        next = next + 1;
    }
}

/// The readings that the sensors show.
pub fn qc_data_payload(data: &QcData) -> (payload: Value)
    ensures
        json_of(payload) == Json::Object(reading_states(data@)),
{
    let mut payload = no_members();
    put_readings(&mut payload, &status_sensors(), &data.status);
    put_readings(&mut payload, &energy_sensors(), &data.energy);
    object_value(payload)
}

/// Whether a sensor of a table shows the reading with a key.
pub open spec fn shows(table: Seq<Sensor>, key: Seq<char>) -> bool {
    exists|i: int| 0 <= i < table.len() && (#[trigger] table[i]).api_key == key
}

fn is_shown(defs: &Vec<SensorDef>, key: &str) -> (yes: bool)
    ensures
        yes == shows(sensors(defs@), key@),
{
    let mut next: usize = 0;
    while next < defs.len()
        invariant
            next <= defs.len(),
            forall|i: int| 0 <= i < next ==> (#[trigger] sensors(defs@)[i]).api_key != key@,
        decreases defs.len() - next,
    {
        if same(defs[next].api_key, key) {
            assert(sensors(defs@)[next as int].api_key == key@);
            return true;
        }
        next = next + 1;
    }
    false
}

/// The names of the readings that no sensor of a table shows, in ascending order.
pub fn unshown(readings: &Readings, defs: &Vec<SensorDef>) -> (names: Vec<String>)
    ensures
        ascending(texts_of(names@)),
        texts_of(names@).no_duplicates(),
        forall|name: Seq<char>| #[trigger]
            texts_of(names@).contains(name) <==> (readings@.dom().contains(name) && !shows(
                sensors(defs@),
                name,
            )),
{
    let all = readings.names();
    let ghost texts = texts_of(all@);
    let mut names: Vec<String> = Vec::new();
    let mut next: usize = 0;
    while next < all.len()
        invariant
            next <= all.len(),
            texts == texts_of(all@),
            ascending(texts),
            texts_of(names@) == unshown_of(texts.take(next as int), sensors(defs@)),
        decreases all.len() - next,
    {
        let ghost before = names@;
        assert(texts.take(next + 1).drop_last() =~= texts.take(next as int));
        if !is_shown(defs, all[next].as_str()) {
            let name = all[next].clone();
            names.push(name);
            assert(texts_of(names@) =~= texts_of(before).push(name@));
        }
        next = next + 1;
    }
    assert(texts.take(next as int) =~= texts);
    proof {
        lemma_unshown(texts, sensors(defs@));
        lemma_ascending(texts_of(names@));
        assert forall|name: Seq<char>| #[trigger] texts_of(names@).contains(name) <==> (
        readings@.dom().contains(name) && !shows(sensors(defs@), name)) by {
            assert(texts.contains(name) <==> readings@.dom().contains(name));
        }
    }
    names
}

/// Those of a sequence of keys that no sensor of a table shows.
pub open spec fn unshown_of(keys: Seq<Seq<char>>, table: Seq<Sensor>) -> Seq<Seq<char>>
    decreases keys.len(),
{
    if keys.len() == 0 {
        keys
    } else {
        let before = unshown_of(keys.drop_last(), table);
        if shows(table, keys.last()) {
            before
        } else {
            before.push(keys.last())
        }
    }
}

/// Leaving keys out keeps the order of the others.
proof fn lemma_unshown(keys: Seq<Seq<char>>, table: Seq<Sensor>)
    requires
        ascending(keys),
    ensures
        ascending(unshown_of(keys, table)),
        forall|key: Seq<char>| #[trigger]
            unshown_of(keys, table).contains(key) <==> (keys.contains(key) && !shows(table, key)),
    decreases keys.len(),
{
    if keys.len() > 0 {
        let rest = keys.drop_last();
        let last = keys.last();
        let before = unshown_of(rest, table);
        let all = unshown_of(keys, table);
        lemma_unshown(rest, table);
        assert forall|key: Seq<char>| #[trigger] all.contains(key) <==> (keys.contains(key)
            && !shows(table, key)) by {
            assert(before.contains(key) <==> (rest.contains(key) && !shows(table, key)));
            if keys.contains(key) {
                let i = choose|i: int| 0 <= i < keys.len() && keys[i] == key;
                if i < rest.len() {
                    assert(rest[i] == key);
                }
            }
            if rest.contains(key) {
                let i = choose|i: int| 0 <= i < rest.len() && rest[i] == key;
                assert(keys[i] == key);
            }
            if before.contains(key) {
                let i = choose|i: int| 0 <= i < before.len() && before[i] == key;
                assert(all[i] == key);
            }
            if !shows(table, last) {
                assert(all[before.len() as int] == last);
            }
            assert(keys[keys.len() - 1] == last);
        }
        assert forall|i: int, j: int| 0 <= i < j < all.len() implies crate::text::before(
            #[trigger] all[i],
            #[trigger] all[j],
        ) by {
            assert(all[i] == before[i]);
            if j < before.len() {
                assert(all[j] == before[j]);
            } else {
                assert(before.contains(before[i]));
                let at = choose|at: int| 0 <= at < rest.len() && rest[at] == before[i];
                assert(keys[at] == before[i]);
                assert(keys[keys.len() - 1] == last);
            }
        }
    }
}

/// The keys of the first `count` sensors of a table that have no reading.
pub open spec fn missing_of(
    table: Seq<Sensor>,
    readings: Map<Seq<char>, u64>,
    count: nat,
) -> Seq<Seq<char>>
    decreases count,
{
    if count == 0 {
        Seq::empty()
    } else {
        let before = missing_of(table, readings, (count - 1) as nat);
        let key = table[count - 1].api_key;
        if readings.dom().contains(key) {
            before
        } else {
            before.push(key)
        }
    }
}

/// The keys of the sensors of a table that have no reading, in the order of the table.
pub fn missing(readings: &Readings, defs: &Vec<SensorDef>) -> (keys: Vec<String>)
    ensures
        texts_of(keys@) == missing_of(sensors(defs@), readings@, defs@.len()),
{
    let mut keys: Vec<String> = Vec::new();
    let mut next: usize = 0;
    assert(texts_of(keys@) =~= Seq::<Seq<char>>::empty());
    while next < defs.len()
        invariant
            next <= defs.len(),
            texts_of(keys@) == missing_of(sensors(defs@), readings@, next as nat),
        decreases defs.len() - next,
    {
        let ghost before = keys@;
        let key = defs[next].api_key;
        assert(sensors(defs@)[next as int].api_key == key@);
        if readings.get(key).is_none() {
            let text = key.to_string();
            keys.push(text);
            assert(texts_of(keys@) =~= texts_of(before).push(text@));
        }
        next = next + 1;
    }
    keys
}

/// The device that the entities belong to.
pub open spec fn device_document() -> Json {
    Json::Object(
        map![
            "name"@ => Json::Text(DEVICE_NAME@),
            "identifiers"@ => Json::List(seq![Json::Text(DEVICE_IDENTIFIER@)]),
            "manufacturer"@ => Json::Text(DEVICE_MANUFACTURER@),
        ],
    )
}

/// The device that the entities belong to.
pub fn device_payload() -> (payload: Value)
    ensures
        json_of(payload) == device_document(),
{
    let mut identifiers: Vec<Value> = Vec::new();
    identifiers.push(string_value(DEVICE_IDENTIFIER.to_string()));
    assert(jsons_of(identifiers@) =~= seq![Json::Text(DEVICE_IDENTIFIER@)]);
    let mut payload = no_members();
    put_text(&mut payload, "name", DEVICE_NAME);
    put(&mut payload, "identifiers".to_string(), array_value(identifiers));
    put_text(&mut payload, "manufacturer", DEVICE_MANUFACTURER);
    assert(members_of(payload) =~= device_document()->Object_0);
    object_value(payload)
}

}
