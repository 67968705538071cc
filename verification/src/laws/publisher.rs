//! What holds of the messages: what each one that is published says, and what each one that
//! comes in is taken for.
use vstd::prelude::*;
use vstd::utf8::encode_utf8;

use crate::command::{decoded, Command};
use crate::config::MqttConfig;
use crate::discovery::{
    base_members, missing_of, number_members, reading_states, schedule_states, select_members,
    sensor_members, shows, switch_members, text_members, Basics, Sensor,
};
use crate::double::{double_json, whole_bits, Numeral};
use crate::error::Fault;
use crate::json::{compact_text, member, Json};
use crate::laws::discovery::command_topic_in;
use crate::model::{DailySchedule, Data, ScheduleMode};
use crate::mqtt::{ConnectOptions, Letter, Publisher, StopReason};
use crate::text::decimal;

verus! {

broadcast use vstd::string::group_string_axioms;

/// The message with which Home Assistant announces itself is taken for that, and no other one
/// is. Every other message is taken as exactly what its topic and its payload say.
pub proof fn law_incoming(publisher: Publisher, topic: Seq<char>, payload: Seq<u8>)
    ensures
        publisher.incoming(publisher.discovery_prefix + "/status"@, encode_utf8("online"@)) == Ok::<
            Option<Command>,
            Fault,
        >(Some(Command::HomeAssistantOnline)),
        topic != publisher.discovery_prefix + "/status"@ || payload != encode_utf8("online"@)
            ==> publisher.incoming(topic, payload) == decoded(
            publisher.topic_prefix,
            topic,
            payload,
        ) && publisher.incoming(topic, payload) != Ok::<Option<Command>, Fault>(
            Some(Command::HomeAssistantOnline),
        ),
{
    crate::laws::command::law_never_online(publisher.topic_prefix, topic, payload);
}

/// The topic of a key does not end like that of Home Assistant.
proof fn lemma_no_birth(publisher: Publisher, key: Seq<char>)
    requires
        key.len() > 0,
        key.last() != 's',
    ensures
        publisher.topic_prefix + "/cmd/"@ + key != publisher.discovery_prefix + "/status"@,
{
    reveal_strlit("/status");
    assert((publisher.topic_prefix + "/cmd/"@ + key).last() == key.last());
    assert((publisher.discovery_prefix + "/status"@).last() == 's');
}

/// Every whole percentage comes in as the limit that it is sent for, under every prefix.
pub proof fn law_limits_come_in(publisher: Publisher, percent: nat)
    requires
        percent <= 100,
    ensures
        publisher.incoming(
            publisher.topic_prefix + "/cmd/"@ + "max_soc"@,
            encode_utf8(decimal(percent)),
        ) == Ok::<Option<Command>, Fault>(Some(Command::MaxSoc(percent as u8))),
        publisher.incoming(
            publisher.topic_prefix + "/cmd/"@ + "min_soc"@,
            encode_utf8(decimal(percent)),
        ) == Ok::<Option<Command>, Fault>(Some(Command::MinSoc(percent as u8))),
{
    reveal_strlit("min_soc");
    reveal_strlit("max_soc");
    lemma_no_birth(publisher, "min_soc"@);
    lemma_no_birth(publisher, "max_soc"@);
    crate::laws::command::law_limits_decoded(publisher.topic_prefix, percent);
}

/// The switch comes in as it is turned, under every prefix.
pub proof fn law_switch_comes_in(publisher: Publisher)
    ensures
        publisher.incoming(
            publisher.topic_prefix + "/cmd/"@ + "schedule_enabled"@,
            encode_utf8("ON"@),
        ) == Ok::<Option<Command>, Fault>(Some(Command::ScheduleEnabled(true))),
        publisher.incoming(
            publisher.topic_prefix + "/cmd/"@ + "schedule_enabled"@,
            encode_utf8("OFF"@),
        ) == Ok::<Option<Command>, Fault>(Some(Command::ScheduleEnabled(false))),
{
    reveal_strlit("schedule_enabled");
    lemma_no_birth(publisher, "schedule_enabled"@);
    crate::laws::command::law_switch_decoded(publisher.topic_prefix);
}

/// The mode and the times of every slot come in as those of the slot, under every prefix.
pub proof fn law_slots_come_in(publisher: Publisher, slot: nat, mode: ScheduleMode, text: Seq<char>)
    requires
        1 <= slot <= 5,
    ensures
        ({
            let head = publisher.topic_prefix + "/cmd/"@;
            let name = match mode {
                ScheduleMode::Disable => "Disable"@,
                ScheduleMode::ForcedCharge => "Forced Charge"@,
                ScheduleMode::ForcedDischarge => "Forced Discharge"@,
            };
            &&& publisher.incoming(
                head + ("schedule_"@ + decimal(slot) + "_mode"@),
                encode_utf8(name),
            ) == Ok::<Option<Command>, Fault>(Some(Command::ScheduleMode { slot, mode }))
            &&& publisher.incoming(
                head + ("schedule_"@ + decimal(slot) + "_start"@),
                encode_utf8(text),
            ) == Ok::<Option<Command>, Fault>(Some(Command::ScheduleStart { slot, value: text }))
            &&& publisher.incoming(
                head + ("schedule_"@ + decimal(slot) + "_end"@),
                encode_utf8(text),
            ) == Ok::<Option<Command>, Fault>(Some(Command::ScheduleEnd { slot, value: text }))
        }),
{
    reveal_strlit("_mode");
    reveal_strlit("_start");
    reveal_strlit("_end");
    let digits = decimal(slot);
    assert(("schedule_"@ + digits + "_mode"@).last() == 'e');
    assert(("schedule_"@ + digits + "_start"@).last() == 't');
    assert(("schedule_"@ + digits + "_end"@).last() == 'd');
    lemma_no_birth(publisher, "schedule_"@ + digits + "_mode"@);
    lemma_no_birth(publisher, "schedule_"@ + digits + "_start"@);
    lemma_no_birth(publisher, "schedule_"@ + digits + "_end"@);
    crate::laws::command::law_modes_decoded(publisher.topic_prefix, slot, mode);
    crate::laws::command::law_times_decoded(publisher.topic_prefix, slot, text);
}

/// The message with the schedule goes to the topic of the schedule and stays there. It says
/// of the schedule whether it is on, its limits, its currents, and its slots one by one, and
/// nothing else.
pub proof fn law_schedule_published(publisher: Publisher, config: DailySchedule)
    ensures
        publisher.schedule_letter(config).topic == publisher.topic_prefix + "/schedule/state"@,
        publisher.schedule_letter(config).retain,
        exists|told: Map<Seq<char>, Json>| #[trigger]
            compact_text(Json::Object(told)) == publisher.schedule_letter(config).payload
                && states_of(told, config),
{
    let told = schedule_states(config);
    law_states_exact(config);
    assert(compact_text(Json::Object(told)) == publisher.schedule_letter(config).payload);
}

/// Whether a document says what a schedule is, under the keys that Home Assistant looks at,
/// and nothing else.
pub open spec fn states_of(told: Map<Seq<char>, Json>, config: DailySchedule) -> bool {
    &&& told.dom().contains("schedule_enabled"@)
    &&& config.state_enabled ==> told["schedule_enabled"@] == Json::Text("ON"@)
    &&& !config.state_enabled ==> told["schedule_enabled"@] == Json::Text("OFF"@)
    &&& told.dom().contains("min_soc"@)
    &&& told["min_soc"@] == Json::Num(Numeral::Integer(config.min_soc as int))
    &&& told.dom().contains("max_soc"@)
    &&& told["max_soc"@] == Json::Num(Numeral::Integer(config.max_soc as int))
    &&& told.dom().contains("force_charge_current"@)
    &&& told["force_charge_current"@] == double_json(config.force_charge_current)
    &&& told.dom().contains("force_discharge_current"@)
    &&& told["force_discharge_current"@] == double_json(config.force_discharge_current)
    &&& forall|i: int|
        0 <= i < config.schedules.len() ==> slot_told(
            told,
            (i + 1) as nat,
            #[trigger] config.schedules[i].mode,
            config.schedules[i].start_time,
            config.schedules[i].end_time,
        )
    &&& forall|key: Seq<char>| #[trigger]
        told.dom().contains(key) ==> key == "schedule_enabled"@ || key == "min_soc"@ || key
            == "max_soc"@ || key == "force_charge_current"@ || key == "force_discharge_current"@
            || exists|slot: nat|
            1 <= slot <= config.schedules.len() && (key == "schedule_"@ + #[trigger] decimal(slot)
                + "_mode"@ || key == "schedule_"@ + decimal(slot) + "_start"@ || key
                == "schedule_"@ + decimal(slot) + "_end"@)
}

/// Whether a document says what a slot is.
pub open spec fn slot_told(
    told: Map<Seq<char>, Json>,
    slot: nat,
    mode: ScheduleMode,
    start: Seq<char>,
    end: Seq<char>,
) -> bool {
    let name = match mode {
        ScheduleMode::Disable => "Disable"@,
        ScheduleMode::ForcedCharge => "Forced Charge"@,
        ScheduleMode::ForcedDischarge => "Forced Discharge"@,
    };
    &&& told.dom().contains("schedule_"@ + decimal(slot) + "_mode"@)
    &&& told["schedule_"@ + decimal(slot) + "_mode"@] == Json::Text(name)
    &&& told.dom().contains("schedule_"@ + decimal(slot) + "_start"@)
    &&& told["schedule_"@ + decimal(slot) + "_start"@] == Json::Text(start)
    &&& told.dom().contains("schedule_"@ + decimal(slot) + "_end"@)
    &&& told["schedule_"@ + decimal(slot) + "_end"@] == Json::Text(end)
}

/// The document with the schedule says what the schedule is, and nothing else.
pub proof fn law_states_exact(config: DailySchedule)
    ensures
        states_of(schedule_states(config), config),
{
    crate::laws::discovery::law_settings_told(config);
    let told = schedule_states(config);
    assert forall|i: int| 0 <= i < config.schedules.len() implies slot_told(
        told,
        (i + 1) as nat,
        #[trigger] config.schedules[i].mode,
        config.schedules[i].start_time,
        config.schedules[i].end_time,
    ) by {
        crate::laws::discovery::law_slots_told(config, (i + 1) as nat);
    }
    assert forall|key: Seq<char>| #[trigger] told.dom().contains(key) implies key
        == "schedule_enabled"@ || key == "min_soc"@ || key == "max_soc"@ || key
        == "force_charge_current"@ || key == "force_discharge_current"@ || exists|slot: nat|
        1 <= slot <= config.schedules.len() && (key == "schedule_"@ + #[trigger] decimal(slot)
            + "_mode"@ || key == "schedule_"@ + decimal(slot) + "_start"@ || key == "schedule_"@
            + decimal(slot) + "_end"@) by {
        lemma_slot_states_named(config, config.schedules.len(), key);
    }
}

proof fn lemma_slot_states_named(config: DailySchedule, count: nat, key: Seq<char>)
    requires
        crate::discovery::with_slot_states(
            crate::discovery::general_states(config),
            config.schedules,
            count,
        ).dom().contains(key),
    ensures
        crate::discovery::general_states(config).dom().contains(key) || exists|slot: nat|
            1 <= slot <= count && (key == "schedule_"@ + #[trigger] decimal(slot) + "_mode"@ || key
                == "schedule_"@ + decimal(slot) + "_start"@ || key == "schedule_"@ + decimal(slot)
                + "_end"@),
    decreases count,
{
    if count > 0 {
        let less = (count - 1) as nat;
        let before = crate::discovery::with_slot_states(
            crate::discovery::general_states(config),
            config.schedules,
            less,
        );
        if before.dom().contains(key) {
            lemma_slot_states_named(config, less, key);
        } else {
            assert(decimal(count) == decimal(count));
        }
    }
}

/// The message with the readings goes to the topic of the readings and stays there. It says
/// the readings that a sensor shows, and nothing else.
pub proof fn law_readings_published(publisher: Publisher, data: Data)
    ensures
        publisher.data_letter(data).topic == publisher.topic_prefix + "/state"@,
        publisher.data_letter(data).retain,
        exists|told: Map<Seq<char>, Json>| #[trigger]
            compact_text(Json::Object(told)) == publisher.data_letter(data).payload
                && readings_of(told, data),
{
    let told = reading_states(data);
    law_readings_exact(data);
    assert(compact_text(Json::Object(told)) == publisher.data_letter(data).payload);
}

/// Whether a key is that of a flow that a sensor shows.
pub open spec fn flow_key(key: Seq<char>) -> bool {
    key == "grid_export_wh"@ || key == "battery_discharge_wh"@
}

/// Whether a key is that of the battery or of a meter that a sensor shows.
pub open spec fn meter_key(key: Seq<char>) -> bool {
    key == "current_battery_soc"@ || key == "import_energy_kwh"@ || key == "export_energy_kwh"@
        || key == "self_consumption_energy_kwh"@
}

/// Whether a document says the readings that sensors show, each under its key.
pub open spec fn readings_of(told: Map<Seq<char>, Json>, data: Data) -> bool {
    forall|key: Seq<char>|
        {
            &&& #[trigger] told.dom().contains(key) == ((flow_key(key) && data.status.dom().contains(
                key,
            )) || (meter_key(key) && data.energy.dom().contains(key)))
            &&& flow_key(key) && data.status.dom().contains(key) ==> told[key] == double_json(
                data.status[key],
            )
            &&& meter_key(key) && data.energy.dom().contains(key) ==> told[key] == double_json(
                data.energy[key],
            )
        }
}

/// The document with the readings says the readings that sensors show, each under its key.
pub proof fn law_readings_exact(data: Data)
    ensures
        readings_of(reading_states(data), data),
{
    let told = reading_states(data);
    assert forall|key: Seq<char>|
        {
            &&& #[trigger] told.dom().contains(key) == ((flow_key(key) && data.status.dom().contains(
                key,
            )) || (meter_key(key) && data.energy.dom().contains(key)))
            &&& flow_key(key) && data.status.dom().contains(key) ==> told[key] == double_json(
                data.status[key],
            )
            &&& meter_key(key) && data.energy.dom().contains(key) ==> told[key] == double_json(
                data.energy[key],
            )
        } by {
        crate::laws::discovery::law_readings_told(data, key);
        let (flows, meters) = (crate::discovery::status_table(), crate::discovery::energy_table());
        assert(flows[0].api_key == "grid_export_wh"@ && flows[1].api_key == "battery_discharge_wh"@);
        assert(meters[0].api_key == "current_battery_soc"@ && meters[1].api_key
            == "import_energy_kwh"@);
        assert(meters[2].api_key == "export_energy_kwh"@ && meters[3].api_key
            == "self_consumption_energy_kwh"@);
    }
}

/// Whether the adapter is there is said under one topic, in the words that every entity is
/// announced with, and stays there.
pub proof fn law_availability_published(publisher: Publisher, state: Seq<char>)
    ensures
        publisher.availability_letter(state).topic == publisher.topic_prefix + "/status"@,
        publisher.availability_letter(state).retain,
        publisher.availability_letter(state).payload == state,
{
}

/// The topics of a publisher, by its two prefixes.
pub proof fn law_topics(publisher: Publisher, component: Seq<char>, id: Seq<char>, key: Seq<char>)
    ensures
        publisher.availability_topic() == publisher.topic_prefix + "/status"@,
        publisher.state_topic() == publisher.topic_prefix + "/state"@,
        publisher.schedule_state_topic() == publisher.topic_prefix + "/schedule/state"@,
        publisher.command_topic(key) == publisher.topic_prefix + "/cmd/"@ + key,
        publisher.birth_topic() == publisher.discovery_prefix + "/status"@,
        publisher.discovery_topic(component, id) == publisher.discovery_prefix + "/"@ + component
            + "/"@ + id + "/config"@,
{
}

/// What is said of every entity: its name and its id, where its state stands and under which
/// key, whether the adapter is there, and the device.
pub open spec fn common(
    publisher: Publisher,
    name: Seq<char>,
    id: Seq<char>,
    topic: Seq<char>,
    key: Seq<char>,
) -> Map<Seq<char>, Json> {
    map![
        "name"@ => Json::Text(name),
        "unique_id"@ => Json::Text(id),
        "state_topic"@ => Json::Text(topic),
        "value_template"@ => Json::Text("{{ value_json."@ + key + " }}"@),
        "availability_topic"@ => Json::Text(publisher.topic_prefix + "/status"@),
        "payload_available"@ => Json::Text("online"@),
        "payload_not_available"@ => Json::Text("offline"@),
        "device"@ => Json::Object(
            map![
                "name"@ => Json::Text("Qendercore Inverter"@),
                "identifiers"@ => Json::List(seq![Json::Text("qendercore_inverter"@)]),
                "manufacturer"@ => Json::Text("Qendercore"@),
            ],
        ),
    ]
}

/// What is said of a sensor: its class, its unit, and how it counts.
pub open spec fn sensed(
    told: Map<Seq<char>, Json>,
    class: Seq<char>,
    unit: Seq<char>,
    counting: Seq<char>,
) -> Map<Seq<char>, Json> {
    told.insert("device_class"@, Json::Text(class)).insert(
        "unit_of_measurement"@,
        Json::Text(unit),
    ).insert("state_class"@, Json::Text(counting))
}

/// Whether the entity at a position is announced as this one.
pub open spec fn announced_as(
    publisher: Publisher,
    at: int,
    component: Seq<char>,
    id: Seq<char>,
    told: Map<Seq<char>, Json>,
) -> bool {
    &&& publisher.entities()[at].component == component
    &&& publisher.entities()[at].unique_id == id
    &&& publisher.entities()[at].payload == Json::Object(told)
    &&& publisher.announcements(publisher.entities())[at] == (Letter {
        topic: publisher.discovery_prefix + "/"@ + component + "/"@ + id + "/config"@,
        retain: true,
        payload: compact_text(Json::Object(told)),
    })
}

proof fn lemma_counts(publisher: Publisher)
    ensures
        publisher.entities().len() == 26,
        publisher.announcements(publisher.entities()).len() == 26,
        forall|at: int|
            0 <= at < 26 ==> #[trigger] publisher.announcements(publisher.entities())[at]
                == publisher.announcement(publisher.entities()[at]),
{
    crate::laws::discovery::lemma_entity_count(publisher);
}

/// The sensors for readings are announced with the keys under which the readings stand in the
/// document with the readings.
pub proof fn law_readings_announced(publisher: Publisher)
    ensures
        publisher.announcements(publisher.entities()).len() == 26,
        ({
            let topic = publisher.topic_prefix + "/state"@;
            &&& announced_as(
                publisher,
                0,
                "sensor"@,
                "qc_grid_export"@,
                sensed(
                    common(publisher, "Grid Export"@, "qc_grid_export"@, topic, "grid_export_wh"@),
                    "power"@,
                    "W"@,
                    "measurement"@,
                ),
            )
            &&& announced_as(
                publisher,
                1,
                "sensor"@,
                "qc_battery_discharge"@,
                sensed(
                    common(
                        publisher,
                        "Battery Discharge"@,
                        "qc_battery_discharge"@,
                        topic,
                        "battery_discharge_wh"@,
                    ),
                    "power"@,
                    "W"@,
                    "measurement"@,
                ),
            )
            &&& announced_as(
                publisher,
                2,
                "sensor"@,
                "qc_battery_soc"@,
                sensed(
                    common(
                        publisher,
                        "Battery SoC"@,
                        "qc_battery_soc"@,
                        topic,
                        "current_battery_soc"@,
                    ),
                    "battery"@,
                    "%"@,
                    "measurement"@,
                ),
            )
            &&& announced_as(
                publisher,
                3,
                "sensor"@,
                "qc_import_energy"@,
                sensed(
                    common(
                        publisher,
                        "Import Energy"@,
                        "qc_import_energy"@,
                        topic,
                        "import_energy_kwh"@,
                    ),
                    "energy"@,
                    "kWh"@,
                    "total_increasing"@,
                ),
            )
            &&& announced_as(
                publisher,
                4,
                "sensor"@,
                "qc_export_energy"@,
                sensed(
                    common(
                        publisher,
                        "Export Energy"@,
                        "qc_export_energy"@,
                        topic,
                        "export_energy_kwh"@,
                    ),
                    "energy"@,
                    "kWh"@,
                    "total_increasing"@,
                ),
            )
            &&& announced_as(
                publisher,
                5,
                "sensor"@,
                "qc_self_consumption"@,
                sensed(
                    common(
                        publisher,
                        "Self Consumption"@,
                        "qc_self_consumption"@,
                        topic,
                        "self_consumption_energy_kwh"@,
                    ),
                    "energy"@,
                    "kWh"@,
                    "total_increasing"@,
                ),
            )
        }),
{
    lemma_counts(publisher);
    reveal_strlit("energy");
    reveal_strlit("battery");
    assert("energy"@.len() == 6 && "battery"@.len() == 7);
    let topic = publisher.topic_prefix + "/state"@;
    lemma_reading_at(publisher, 0);
    lemma_reading_at(publisher, 1);
    lemma_reading_at(publisher, 2);
    lemma_reading_at(publisher, 3);
    lemma_reading_at(publisher, 4);
    lemma_reading_at(publisher, 5);
}

proof fn lemma_reading_at(publisher: Publisher, at: int)
    requires
        0 <= at < 6,
    ensures
        publisher.entities()[at] == (if at < 2 {
            publisher.reading_entity(crate::discovery::status_table()[at], "measurement"@)
        } else {
            publisher.reading_entity(
                crate::discovery::energy_table()[at - 2],
                crate::mqtt::state_class(crate::discovery::energy_table()[at - 2].device_class),
            )
        }),
{
}

/// The currents, the switch and the limits of the schedule are announced with the keys under
/// which the document with the schedule tells them, and those that take commands with the
/// command topic of the same key.
pub proof fn law_settings_announced(publisher: Publisher)
    ensures
        ({
            let topic = publisher.topic_prefix + "/schedule/state"@;
            let command = publisher.topic_prefix + "/cmd/"@;
            &&& announced_as(
                publisher,
                6,
                "sensor"@,
                "qc_force_charge_current"@,
                sensed(
                    common(
                        publisher,
                        "Force Charge Current"@,
                        "qc_force_charge_current"@,
                        topic,
                        "force_charge_current"@,
                    ),
                    "current"@,
                    "A"@,
                    "measurement"@,
                ),
            )
            &&& announced_as(
                publisher,
                7,
                "sensor"@,
                "qc_force_discharge_current"@,
                sensed(
                    common(
                        publisher,
                        "Force Discharge Current"@,
                        "qc_force_discharge_current"@,
                        topic,
                        "force_discharge_current"@,
                    ),
                    "current"@,
                    "A"@,
                    "measurement"@,
                ),
            )
            &&& announced_as(
                publisher,
                8,
                "switch"@,
                "qc_schedule_enabled"@,
                common(
                    publisher,
                    "Schedule Enabled"@,
                    "qc_schedule_enabled"@,
                    topic,
                    "schedule_enabled"@,
                ).insert("command_topic"@, Json::Text(command + "schedule_enabled"@)).insert(
                    "payload_on"@,
                    Json::Text("ON"@),
                ).insert("payload_off"@, Json::Text("OFF"@)).insert(
                    "state_on"@,
                    Json::Text("ON"@),
                ).insert("state_off"@, Json::Text("OFF"@)).insert("optimistic"@, Json::Bool(false)),
            )
            &&& announced_as(
                publisher,
                9,
                "number"@,
                "qc_min_soc"@,
                limited(
                    common(publisher, "Min SoC"@, "qc_min_soc"@, topic, "min_soc"@),
                    command + "min_soc"@,
                ),
            )
            &&& announced_as(
                publisher,
                10,
                "number"@,
                "qc_max_soc"@,
                limited(
                    common(publisher, "Max SoC"@, "qc_max_soc"@, topic, "max_soc"@),
                    command + "max_soc"@,
                ),
            )
        }),
{
    lemma_counts(publisher);
    crate::double::lemma_whole_value(0);
    crate::double::lemma_whole_value(1);
    crate::double::lemma_whole_value(100);
    let general = publisher.general_entities();
    assert(publisher.entities()[6] == general[0]);
    assert(publisher.entities()[7] == general[1]);
    assert(publisher.entities()[8] == general[2]);
    assert(publisher.entities()[9] == general[3]);
    assert(publisher.entities()[10] == general[4]);
}

/// What is said of a limit: a slider from zero to one hundred percent, in steps of one.
pub open spec fn limited(told: Map<Seq<char>, Json>, command: Seq<char>) -> Map<Seq<char>, Json> {
    told.insert("command_topic"@, Json::Text(command)).insert(
        "min"@,
        Json::Num(Numeral::Double(whole_bits(0))),
    ).insert("max"@, Json::Num(Numeral::Double(whole_bits(100)))).insert(
        "step"@,
        Json::Num(Numeral::Double(whole_bits(1))),
    ).insert("mode"@, Json::Text("slider"@)).insert("unit_of_measurement"@, Json::Text("%"@)).insert(
        "optimistic"@,
        Json::Bool(false),
    )
}

/// What is said of a time: eight characters, like a clock with seconds.
pub open spec fn timed(told: Map<Seq<char>, Json>, command: Seq<char>) -> Map<Seq<char>, Json> {
    told.insert("command_topic"@, Json::Text(command)).insert(
        "min"@,
        Json::Num(Numeral::Integer(8)),
    ).insert("max"@, Json::Num(Numeral::Integer(8))).insert(
        "pattern"@,
        Json::Text("^\\d{2}:\\d{2}:\\d{2}$"@),
    ).insert("optimistic"@, Json::Bool(false))
}

/// The mode, the start and the end of every slot are announced with the keys under which the
/// document with the schedule tells them, and with the command topics of the same keys.
pub proof fn law_slots_announced(publisher: Publisher, slot: nat)
    requires
        1 <= slot <= 5,
    ensures
        ({
            let topic = publisher.topic_prefix + "/schedule/state"@;
            let command = publisher.topic_prefix + "/cmd/"@;
            let name = "Schedule "@ + decimal(slot);
            let id = "qc_schedule_"@ + decimal(slot);
            let key = "schedule_"@ + decimal(slot);
            &&& announced_as(
                publisher,
                3 * slot as int + 8,
                "select"@,
                id + "_mode"@,
                common(publisher, name + " Mode"@, id + "_mode"@, topic, key + "_mode"@).insert(
                    "command_topic"@,
                    Json::Text(command + (key + "_mode"@)),
                ).insert(
                    "options"@,
                    Json::List(
                        seq![
                            Json::Text("Disable"@),
                            Json::Text("Forced Charge"@),
                            Json::Text("Forced Discharge"@),
                        ],
                    ),
                ).insert("optimistic"@, Json::Bool(false)),
            )
            &&& announced_as(
                publisher,
                3 * slot as int + 9,
                "text"@,
                id + "_start"@,
                timed(
                    common(publisher, name + " Start"@, id + "_start"@, topic, key + "_start"@),
                    command + (key + "_start"@),
                ),
            )
            &&& announced_as(
                publisher,
                3 * slot as int + 10,
                "text"@,
                id + "_end"@,
                timed(
                    common(publisher, name + " End"@, id + "_end"@, topic, key + "_end"@),
                    command + (key + "_end"@),
                ),
            )
        }),
{
    lemma_counts(publisher);
    crate::laws::discovery::lemma_slot_entity_at(publisher, slot);
    let options = crate::mqtt::mode_names().map_values(|option: Seq<char>| Json::Text(option));
    assert(options =~= seq![
        Json::Text("Disable"@),
        Json::Text("Forced Charge"@),
        Json::Text("Forced Discharge"@),
    ]);
}

/// Every entity that takes commands shows its own state: its value template names the key of
/// its command topic, the document with the schedule tells that key, and it looks at the
/// topic of that document.
pub proof fn law_own_state_shown(publisher: Publisher, at: int, key: Seq<char>, config: DailySchedule)
    requires
        0 <= at < publisher.entities().len(),
        command_topic_in(publisher.entities()[at]) == Some(
            publisher.topic_prefix + "/cmd/"@ + key,
        ),
        config.schedules.len() >= 5,
    ensures
        member(publisher.entities()[at].payload, "value_template"@) == Some(
            Json::Text("{{ value_json."@ + key + " }}"@),
        ),
        member(publisher.entities()[at].payload, "state_topic"@) == Some(
            Json::Text(publisher.schedule_letter(config).topic),
        ),
        schedule_states(config).dom().contains(key),
{
    lemma_counts(publisher);
    lemma_names_differ();
    law_states_exact(config);
    crate::laws::discovery::lemma_command_topic_at(publisher, at);
    let head = publisher.topic_prefix + "/cmd/"@;
    let own = crate::laws::discovery::command_key(crate::laws::discovery::kind_at(at))->0;
    assert(head + own == head + key);
    assert((head + key).skip(head.len() as int) =~= key);
    assert((head + own).skip(head.len() as int) =~= own);
    assert(own == key);
    let topic = publisher.topic_prefix + "/schedule/state"@;
    if at >= 11 {
        let slot = ((at - 11) / 3 + 1) as nat;
        law_slots_announced(publisher, slot);
        assert(slot_told(
            schedule_states(config),
            (slot - 1 + 1) as nat,
            config.schedules[slot - 1].mode,
            config.schedules[slot - 1].start_time,
            config.schedules[slot - 1].end_time,
        ));
        if (at - 11) % 3 == 0 {
            assert(at == 3 * slot as int + 8);
        } else if (at - 11) % 3 == 1 {
            assert(at == 3 * slot as int + 9);
        } else {
            assert(at == 3 * slot as int + 10);
        }
    } else {
        law_settings_announced(publisher);
    }
}

proof fn lemma_names_differ()
    ensures
        "value_template"@ != "command_topic"@,
        "state_topic"@ != "command_topic"@,
        "value_template"@ != "payload_on"@,
        "state_topic"@ != "payload_on"@,
        "value_template"@ != "payload_off"@,
        "state_topic"@ != "payload_off"@,
        "value_template"@ != "state_on"@,
        "state_topic"@ != "state_on"@,
        "value_template"@ != "state_off"@,
        "state_topic"@ != "state_off"@,
        "value_template"@ != "optimistic"@,
        "state_topic"@ != "optimistic"@,
        "value_template"@ != "min"@,
        "state_topic"@ != "min"@,
        "value_template"@ != "max"@,
        "state_topic"@ != "max"@,
        "value_template"@ != "step"@,
        "state_topic"@ != "step"@,
        "value_template"@ != "mode"@,
        "state_topic"@ != "mode"@,
        "value_template"@ != "unit_of_measurement"@,
        "state_topic"@ != "unit_of_measurement"@,
        "value_template"@ != "options"@,
        "state_topic"@ != "options"@,
        "value_template"@ != "pattern"@,
        "state_topic"@ != "pattern"@,
        "value_template"@ != "availability_topic"@,
        "state_topic"@ != "availability_topic"@,
        "value_template"@ != "payload_available"@,
        "state_topic"@ != "payload_available"@,
        "value_template"@ != "payload_not_available"@,
        "state_topic"@ != "payload_not_available"@,
        "value_template"@ != "device"@,
        "state_topic"@ != "device"@,
        "value_template"@ != "state_topic"@,
{
    reveal_strlit("value_template");
    reveal_strlit("state_topic");
    reveal_strlit("command_topic");
    reveal_strlit("payload_on");
    reveal_strlit("payload_off");
    reveal_strlit("state_on");
    reveal_strlit("state_off");
    reveal_strlit("optimistic");
    reveal_strlit("min");
    reveal_strlit("max");
    reveal_strlit("step");
    reveal_strlit("mode");
    reveal_strlit("unit_of_measurement");
    reveal_strlit("options");
    reveal_strlit("pattern");
    reveal_strlit("availability_topic");
    reveal_strlit("payload_available");
    reveal_strlit("payload_not_available");
    reveal_strlit("device");
    assert("value_template"@.len() == 14 && "state_topic"@.len() == 11);
    assert("command_topic"@.len() == 13 && "payload_on"@.len() == 10 && "payload_off"@.len() == 11);
    assert("payload_off"@[0] != "state_topic"@[0]);
    assert("state_on"@.len() == 8 && "state_off"@.len() == 9 && "optimistic"@.len() == 10);
    assert("min"@.len() == 3 && "max"@.len() == 3 && "step"@.len() == 4 && "mode"@.len() == 4);
    assert("unit_of_measurement"@.len() == 19 && "options"@.len() == 7 && "pattern"@.len() == 7);
    assert("availability_topic"@.len() == 18 && "payload_available"@.len() == 17);
    assert("payload_not_available"@.len() == 21 && "device"@.len() == 6);
}

/// The adapter listens to the topic of Home Assistant and to one command topic for the
/// switch, for each limit, and for the mode, the start and the end of each slot.
pub proof fn law_topics_heard(publisher: Publisher, slot: nat)
    requires
        1 <= slot <= 5,
    ensures
        ({
            let heard = publisher.subscriptions();
            let command = publisher.topic_prefix + "/cmd/"@;
            let key = "schedule_"@ + decimal(slot);
            &&& heard.len() == 19
            &&& heard[0] == publisher.discovery_prefix + "/status"@
            &&& heard[1] == command + "schedule_enabled"@
            &&& heard[2] == command + "min_soc"@
            &&& heard[3] == command + "max_soc"@
            &&& heard[3 * slot as int + 1] == command + (key + "_mode"@)
            &&& heard[3 * slot as int + 2] == command + (key + "_start"@)
            &&& heard[3 * slot as int + 3] == command + (key + "_end"@)
        }),
{
    crate::laws::discovery::lemma_slot_topic_at(publisher, slot);
}

/// The connection is made as it is configured, for the configured client, and the broker says
/// that the adapter is gone, once it is, where the adapter itself would say it.
pub proof fn law_connection_made(options: ConnectOptions, config: MqttConfig)
    requires
        options.follow(config),
    ensures
        options.client_id@ == config.client_id@,
        options.host@ == config.host@,
        options.port == config.port,
        options.keep_alive@ == 30_000_000_000,
        options.last_will.topic@ == config.topic_prefix@ + "/status"@,
        options.last_will.retain,
        options.last_will.payload@ == "offline"@,
        options.credentials is Some <==> config.username is Some,
        options.credentials matches Some((user, password)) ==> {
            &&& user@ == config.username->0@
            &&& config.password is Some ==> password@ == config.password->0@
            &&& config.password is None ==> password@.len() == 0
        },
        options.capacity == 64,
{
}

/// A connection that stands has no fault. One that is lost has one: the words of the last
/// error, or that it stopped unexpectedly.
pub proof fn law_fault(publisher: Publisher)
    ensures
        publisher.healthy <==> publisher.fault() is None,
        !publisher.healthy && publisher.last_error is Some ==> publisher.fault() == Some(
            Fault::MqttDisconnected(publisher.last_error->0),
        ),
        !publisher.healthy && publisher.last_error is None ==> publisher.fault() == Some(
            Fault::MqttDisconnected("mqtt event loop stopped unexpectedly"@),
        ),
{
}

/// Why no more messages come, in words.
pub proof fn law_stop_words(error: String)
    ensures
        StopReason::Exhausted.words() == "mqtt event loop stopped unexpectedly"@,
        StopReason::ReceiverDropped.words() == "command receiver dropped"@,
        StopReason::Failed(error).words() == "mqtt event loop stopped: "@ + error@,
{
}

/// What the parts of a discovery message say of any entity: what they are given, each under its
/// own name. What is not given is not said.
pub proof fn law_payload_parts(
    basics: Basics,
    command: Seq<char>,
    class: Option<Seq<char>>,
    unit: Option<Seq<char>>,
    counting: Option<Seq<char>>,
    options: Seq<Seq<char>>,
    low: Option<u32>,
    high: Option<u32>,
    pattern: Option<Seq<char>>,
)
    ensures
        ({
            let all = base_members(basics);
            &&& all == map![
                "name"@ => Json::Text(basics.name),
                "unique_id"@ => Json::Text(basics.unique_id),
                "state_topic"@ => Json::Text(basics.state_topic),
                "value_template"@ => Json::Text("{{ value_json."@ + basics.state_key + " }}"@),
                "availability_topic"@ => Json::Text(basics.availability_topic),
                "payload_available"@ => Json::Text("online"@),
                "payload_not_available"@ => Json::Text("offline"@),
                "device"@ => basics.device,
            ]
            &&& sensor_members(basics, class, unit, counting) == given(
                given(given(all, "device_class"@, class), "unit_of_measurement"@, unit),
                "state_class"@,
                counting,
            )
            &&& switch_members(basics, command) == all.insert(
                "command_topic"@,
                Json::Text(command),
            ).insert("payload_on"@, Json::Text("ON"@)).insert(
                "payload_off"@,
                Json::Text("OFF"@),
            ).insert("state_on"@, Json::Text("ON"@)).insert("state_off"@, Json::Text("OFF"@)).insert(
                "optimistic"@,
                Json::Bool(false),
            )
            &&& select_members(basics, command, options) == all.insert(
                "command_topic"@,
                Json::Text(command),
            ).insert(
                "options"@,
                Json::List(Seq::new(options.len(), |i: int| Json::Text(options[i]))),
            ).insert("optimistic"@, Json::Bool(false))
            &&& text_members(basics, command, low, high, pattern) == given(
                counted(
                    counted(all.insert("command_topic"@, Json::Text(command)), "min"@, low),
                    "max"@,
                    high,
                ),
                "pattern"@,
                pattern,
            ).insert("optimistic"@, Json::Bool(false))
        }),
{
    let listed = options.map_values(|option: Seq<char>| Json::Text(option));
    assert(listed =~= Seq::new(options.len(), |i: int| Json::Text(options[i])));
}

/// What a discovery message says of a number, for any limits.
pub proof fn law_number_parts(
    basics: Basics,
    command: Seq<char>,
    low: u64,
    high: u64,
    step: u64,
    unit: Seq<char>,
)
    ensures
        number_members(basics, command, low, high, step, unit) == base_members(basics).insert(
            "command_topic"@,
            Json::Text(command),
        ).insert("min"@, double_json(low)).insert("max"@, double_json(high)).insert(
            "step"@,
            double_json(step),
        ).insert("mode"@, Json::Text("slider"@)).insert(
            "unit_of_measurement"@,
            Json::Text(unit),
        ).insert("optimistic"@, Json::Bool(false)),
{
}

/// A document with one more text, where there is one.
pub open spec fn given(
    told: Map<Seq<char>, Json>,
    name: Seq<char>,
    text: Option<Seq<char>>,
) -> Map<Seq<char>, Json> {
    if text is Some {
        told.insert(name, Json::Text(text->0))
    } else {
        told
    }
}

/// A document with one more whole number, where there is one.
pub open spec fn counted(
    told: Map<Seq<char>, Json>,
    name: Seq<char>,
    number: Option<u32>,
) -> Map<Seq<char>, Json> {
    if number is Some {
        told.insert(name, Json::Num(Numeral::Integer(number->0 as int)))
    } else {
        told
    }
}

/// The sensors of a table that have no reading are told by their keys, in the order of the
/// table, and no others: without any reading all of them are, and each reading that comes
/// takes its sensor away.
pub proof fn law_missing_told(
    table: Seq<Sensor>,
    readings: Map<Seq<char>, u64>,
    count: nat,
    key: Seq<char>,
    value: u64,
)
    requires
        count <= table.len(),
    ensures
        missing_of(table, Map::empty(), count) == Seq::new(count, |i: int| table[i].api_key),
        missing_of(table, readings.insert(key, value), count) == missing_of(
            table,
            readings,
            count,
        ).filter(|other: Seq<char>| other != key),
    decreases count,
{
    let kept = |other: Seq<char>| other != key;
    reveal(Seq::filter);
    if count > 0 {
        let less = (count - 1) as nat;
        law_missing_told(table, readings, less, key, value);
        let own = table[count - 1].api_key;
        let before = missing_of(table, readings, less);
        assert(missing_of(table, Map::empty(), count) =~= Seq::new(
            count,
            |i: int| table[i].api_key,
        ));
        if !readings.dom().contains(own) {
            assert(before.push(own).drop_last() =~= before);
            assert(before.push(own).last() == own);
        }
    } else {
        assert(missing_of(table, Map::empty(), count) =~= Seq::new(
            count,
            |i: int| table[i].api_key,
        ));
        assert(missing_of(table, readings, 0).filter(kept) =~= Seq::empty());
    }
}

/// A table shows the readings with the keys of its sensors.
pub proof fn law_shown(table: Seq<Sensor>, key: Seq<char>, at: int)
    ensures
        0 <= at < table.len() && table[at].api_key == key ==> shows(table, key),
        (forall|i: int| 0 <= i < table.len() ==> (#[trigger] table[i]).api_key != key) ==> !shows(
            table,
            key,
        ),
{
}

}
