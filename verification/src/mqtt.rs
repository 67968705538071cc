//! The MQTT side of the adapter: its topics, the messages that it publishes and those that
//! it takes.
use serde_json::Value;
use vstd::prelude::*;
use vstd::string::StringExecFns;
use vstd::utf8::encode_utf8;

use crate::command::{command_topic_of, decoded, gives, Command};
use crate::config::{optional, MqttConfig};
use crate::discovery::{
    device_document, device_payload, energy_sensors, energy_table, number_discovery_payload,
    number_members, qc_data_payload, reading_states, schedule_end_state_key, schedule_mode_state_key,
    schedule_start_state_key, schedule_states, select_discovery_payload, select_members, sensor_members,
    sensors, slot_key, status_sensors, status_table, switch_discovery_payload, switch_members,
    text_discovery_payload, text_members, Basics, Sensor, SensorDef,
    FORCE_CHARGE_CURRENT_KEY, FORCE_DISCHARGE_CURRENT_KEY, MAX_SOC_KEY, MIN_SOC_KEY,
    SCHEDULE_ENABLED_KEY,
};
use crate::double::{whole_bits, Double};
use crate::error::{AppError, AppResult, Fault};
use crate::json::{compact, compact_text, json_of, Json};
use crate::model::{
    mode_name, DailySchedule, DailyScheduleConfig, Data, QcData, ScheduleMode, SCHEDULE_COUNT,
};
use crate::text::{decimal, push_decimal, same, texts_of};
use crate::time::{TimeSpan, NANOS_PER_SECOND};

pub use crate::command::{
    decode_command, parse_schedule_slot, parse_soc, CommandMessage, Publish,
};
pub use crate::discovery::{schedule_state_payload, sensor_discovery_payload};

verus! {

broadcast use vstd::string::group_string_axioms;

pub const MQTT_KEEPALIVE_SECONDS: u64 = 30;

pub const MQTT_REQUEST_CAPACITY: usize = 64;

/// A message that the adapter publishes.
#[derive(Debug, PartialEq, Eq)]
pub struct Message {
    pub topic: String,
    pub retain: bool,
    pub payload: String,
}

/// A message by its characters.
pub struct Letter {
    pub topic: Seq<char>,
    pub retain: bool,
    pub payload: Seq<char>,
}

impl View for Message {
    type V = Letter;

    open spec fn view(&self) -> Letter {
        Letter { topic: self.topic@, retain: self.retain, payload: self.payload@ }
    }
}

impl Clone for Message {
    fn clone(&self) -> (copy: Self)
        ensures
            copy@ == self@,
    {
        Message {
            topic: self.topic.clone(),
            retain: self.retain,
            payload: self.payload.clone(),
        }
    }
}

/// The messages of a sequence.
pub open spec fn letters(messages: Seq<Message>) -> Seq<Letter> {
    Seq::new(messages.len(), |i: int| messages[i]@)
}

/// What the adapter publishes, and whether the connection still stands.
#[derive(Debug)]
pub struct MqttPublisher {
    discovery_prefix: String,
    topic_prefix: String,
    healthy: bool,
    last_error: Option<String>,
}

/// What the adapter publishes, by the characters of its prefixes.
#[verifier::ext_equal]
pub struct Publisher {
    pub discovery_prefix: Seq<char>,
    pub topic_prefix: Seq<char>,
    pub healthy: bool,
    pub last_error: Option<Seq<char>>,
}

impl View for MqttPublisher {
    type V = Publisher;

    closed spec fn view(&self) -> Publisher {
        Publisher {
            discovery_prefix: self.discovery_prefix@,
            topic_prefix: self.topic_prefix@,
            healthy: self.healthy,
            last_error: optional(self.last_error),
        }
    }
}

/// An entity of Home Assistant: its kind, its id and what its discovery message says.
pub struct Entity {
    pub component: Seq<char>,
    pub unique_id: Seq<char>,
    pub payload: Json,
}

/// How an energy meter or the battery counts.
pub open spec fn state_class(device_class: Seq<char>) -> Seq<char> {
    if device_class == "energy"@ {
        "total_increasing"@
    } else {
        "measurement"@
    }
}

/// The names of the modes, in their order.
pub open spec fn mode_names() -> Seq<Seq<char>> {
    seq![
        mode_name(ScheduleMode::Disable),
        mode_name(ScheduleMode::ForcedCharge),
        mode_name(ScheduleMode::ForcedDischarge),
    ]
}

/// What a time of day looks like.
pub open spec fn time_pattern() -> Seq<char> {
    "^\\d{2}:\\d{2}:\\d{2}$"@
}

/// The id of an entity of a slot.
pub open spec fn slot_id(slot: nat, tail: Seq<char>) -> Seq<char> {
    "qc_schedule_"@ + decimal(slot) + tail
}

/// The name of an entity of a slot.
pub open spec fn slot_name(slot: nat, tail: Seq<char>) -> Seq<char> {
    "Schedule "@ + decimal(slot) + tail
}

impl Publisher {
    pub open spec fn availability_topic(self) -> Seq<char> {
        self.topic_prefix + "/status"@
    }

    pub open spec fn state_topic(self) -> Seq<char> {
        self.topic_prefix + "/state"@
    }

    pub open spec fn schedule_state_topic(self) -> Seq<char> {
        self.topic_prefix + "/schedule/state"@
    }

    pub open spec fn command_topic(self, key: Seq<char>) -> Seq<char> {
        command_topic_of(self.topic_prefix, key)
    }

    pub open spec fn discovery_topic(self, component: Seq<char>, unique_id: Seq<char>) -> Seq<char> {
        self.discovery_prefix + "/"@ + component + "/"@ + unique_id + "/config"@
    }

    /// Where Home Assistant announces itself.
    pub open spec fn birth_topic(self) -> Seq<char> {
        self.discovery_prefix + "/status"@
    }

    /// What a discovery message says of an entity of any kind.
    pub open spec fn basics(
        self,
        name: Seq<char>,
        unique_id: Seq<char>,
        state_topic: Seq<char>,
        state_key: Seq<char>,
    ) -> Basics {
        Basics {
            name,
            unique_id,
            state_topic,
            state_key,
            availability_topic: self.availability_topic(),
            device: device_document(),
        }
    }

    /// The entity for a reading of the dashboard.
    pub open spec fn reading_entity(self, sensor: Sensor, state_class: Seq<char>) -> Entity {
        Entity {
            component: "sensor"@,
            unique_id: sensor.unique_id,
            payload: Json::Object(
                sensor_members(
                    self.basics(sensor.name, sensor.unique_id, self.state_topic(), sensor.api_key),
                    Some(sensor.device_class),
                    Some(sensor.unit),
                    Some(state_class),
                ),
            ),
        }
    }

    /// The entity for a current of the schedule.
    pub open spec fn current_entity(
        self,
        name: Seq<char>,
        unique_id: Seq<char>,
        key: Seq<char>,
    ) -> Entity {
        Entity {
            component: "sensor"@,
            unique_id,
            payload: Json::Object(
                sensor_members(
                    self.basics(name, unique_id, self.schedule_state_topic(), key),
                    Some("current"@),
                    Some("A"@),
                    Some("measurement"@),
                ),
            ),
        }
    }

    /// The entity that switches the schedule.
    pub open spec fn switch_entity(self) -> Entity {
        Entity {
            component: "switch"@,
            unique_id: "qc_schedule_enabled"@,
            payload: Json::Object(
                switch_members(
                    self.basics(
                        "Schedule Enabled"@,
                        "qc_schedule_enabled"@,
                        self.schedule_state_topic(),
                        SCHEDULE_ENABLED_KEY@,
                    ),
                    self.command_topic(SCHEDULE_ENABLED_KEY@),
                ),
            ),
        }
    }

    /// The entity for a limit of the state of charge.
    pub open spec fn limit_entity(
        self,
        name: Seq<char>,
        unique_id: Seq<char>,
        key: Seq<char>,
    ) -> Entity {
        Entity {
            component: "number"@,
            unique_id,
            payload: Json::Object(
                number_members(
                    self.basics(name, unique_id, self.schedule_state_topic(), key),
                    self.command_topic(key),
                    whole_bits(0),
                    whole_bits(100),
                    whole_bits(1),
                    "%"@,
                ),
            ),
        }
    }

    /// The entity for the mode of a slot.
    pub open spec fn mode_entity(self, slot: nat) -> Entity {
        Entity {
            component: "select"@,
            unique_id: slot_id(slot, "_mode"@),
            payload: Json::Object(
                select_members(
                    self.basics(
                        slot_name(slot, " Mode"@),
                        slot_id(slot, "_mode"@),
                        self.schedule_state_topic(),
                        slot_key(slot, "_mode"@),
                    ),
                    self.command_topic(slot_key(slot, "_mode"@)),
                    mode_names(),
                ),
            ),
        }
    }

    /// The entity for a time of a slot.
    pub open spec fn time_entity(self, slot: nat, word: Seq<char>, tail: Seq<char>) -> Entity {
        Entity {
            component: "text"@,
            unique_id: slot_id(slot, tail),
            payload: Json::Object(
                text_members(
                    self.basics(
                        slot_name(slot, word),
                        slot_id(slot, tail),
                        self.schedule_state_topic(),
                        slot_key(slot, tail),
                    ),
                    self.command_topic(slot_key(slot, tail)),
                    Some(8u32),
                    Some(8u32),
                    Some(time_pattern()),
                ),
            ),
        }
    }

    /// The entities for a sequence of readings that flow now.
    pub open spec fn status_entities(self, table: Seq<Sensor>) -> Seq<Entity> {
        Seq::new(table.len(), |i: int| self.reading_entity(table[i], "measurement"@))
    }

    /// The entities for a sequence of readings of the battery and the meters.
    pub open spec fn energy_entities(self, table: Seq<Sensor>) -> Seq<Entity> {
        Seq::new(
            table.len(),
            |i: int| self.reading_entity(table[i], state_class(table[i].device_class)),
        )
    }

    /// The entities for the schedule outside its slots.
    pub open spec fn general_entities(self) -> Seq<Entity> {
        seq![
            self.current_entity(
                "Force Charge Current"@,
                "qc_force_charge_current"@,
                FORCE_CHARGE_CURRENT_KEY@,
            ),
            self.current_entity(
                "Force Discharge Current"@,
                "qc_force_discharge_current"@,
                FORCE_DISCHARGE_CURRENT_KEY@,
            ),
            self.switch_entity(),
            self.limit_entity("Min SoC"@, "qc_min_soc"@, MIN_SOC_KEY@),
            self.limit_entity("Max SoC"@, "qc_max_soc"@, MAX_SOC_KEY@),
        ]
    }

    /// The entities for the first `count` slots.
    pub open spec fn slot_entities(self, count: nat) -> Seq<Entity>
        decreases count,
    {
        if count == 0 {
            Seq::empty()
        } else {
            self.slot_entities((count - 1) as nat).push(self.mode_entity(count)).push(
                self.time_entity(count, " Start"@, "_start"@),
            ).push(self.time_entity(count, " End"@, "_end"@))
        }
    }

    /// Every entity, in the order in which they are announced.
    pub open spec fn entities(self) -> Seq<Entity> {
        self.status_entities(status_table()) + self.energy_entities(energy_table())
            + self.general_entities() + self.slot_entities(SCHEDULE_COUNT as nat)
    }

    /// The message that announces an entity.
    pub open spec fn announcement(self, entity: Entity) -> Letter {
        Letter {
            topic: self.discovery_topic(entity.component, entity.unique_id),
            retain: true,
            payload: compact_text(entity.payload),
        }
    }

    /// The messages that announce entities.
    pub open spec fn announcements(self, entities: Seq<Entity>) -> Seq<Letter> {
        Seq::new(entities.len(), |i: int| self.announcement(entities[i]))
    }

    /// The message with the readings.
    pub open spec fn data_letter(self, data: Data) -> Letter {
        Letter {
            topic: self.state_topic(),
            retain: true,
            payload: compact_text(Json::Object(reading_states(data))),
        }
    }

    /// The message with the schedule.
    pub open spec fn schedule_letter(self, config: DailySchedule) -> Letter {
        Letter {
            topic: self.schedule_state_topic(),
            retain: true,
            payload: compact_text(Json::Object(schedule_states(config))),
        }
    }

    /// The message that says whether the adapter is there.
    pub open spec fn availability_letter(self, state: Seq<char>) -> Letter {
        Letter { topic: self.availability_topic(), retain: true, payload: state }
    }

    /// The topics of the commands of the first `count` slots.
    pub open spec fn slot_topics(self, count: nat) -> Seq<Seq<char>>
        decreases count,
    {
        if count == 0 {
            Seq::empty()
        } else {
            self.slot_topics((count - 1) as nat).push(
                self.command_topic(slot_key(count, "_mode"@)),
            ).push(self.command_topic(slot_key(count, "_start"@))).push(
                self.command_topic(slot_key(count, "_end"@)),
            )
        }
    }

    /// The topics that the adapter listens to.
    pub open spec fn subscriptions(self) -> Seq<Seq<char>> {
        seq![
            self.birth_topic(),
            self.command_topic(SCHEDULE_ENABLED_KEY@),
            self.command_topic(MIN_SOC_KEY@),
            self.command_topic(MAX_SOC_KEY@),
        ] + self.slot_topics(SCHEDULE_COUNT as nat)
    }

    /// What is wrong with the connection.
    pub open spec fn fault(self) -> Option<Fault> {
        if self.healthy {
            None
        } else {
            Some(
                Fault::MqttDisconnected(
                    match self.last_error {
                        Some(words) => words,
                        None => "mqtt event loop stopped unexpectedly"@,
                    },
                ),
            )
        }
    }

    /// The command that a message is: Home Assistant announces itself, or a message under a
    /// command topic.
    pub open spec fn incoming(self, topic: Seq<char>, payload: Seq<u8>) -> Result<
        Option<Command>,
        Fault,
    > {
        if topic == self.birth_topic() && payload == encode_utf8("online"@) {
            Ok(Some(Command::HomeAssistantOnline))
        } else {
            decoded(self.topic_prefix, topic, payload)
        }
    }
}

impl MqttPublisher {
    /// Where the adapter says whether it is there.
    pub fn availability_topic(&self) -> (topic: String)
        ensures
            topic@ == self@.availability_topic(),
    {
        self.topic_prefix.clone().concat("/status")
    }

    /// Where the readings are published.
    pub fn state_topic(&self) -> (topic: String)
        ensures
            topic@ == self@.state_topic(),
    {
        self.topic_prefix.clone().concat("/state")
    }

    /// Where the schedule is published.
    pub fn schedule_state_topic(&self) -> (topic: String)
        ensures
            topic@ == self@.schedule_state_topic(),
    {
        self.topic_prefix.clone().concat("/schedule/state")
    }

    /// Where commands for a key come.
    pub fn command_topic(&self, suffix: &str) -> (topic: String)
        ensures
            topic@ == self@.command_topic(suffix@),
    {
        self.topic_prefix.clone().concat("/cmd/").concat(suffix)
    }

    /// Where an entity is announced.
    pub fn discovery_topic(&self, component: &str, unique_id: &str) -> (topic: String)
        ensures
            topic@ == self@.discovery_topic(component@, unique_id@),
    {
        let mut topic = self.discovery_prefix.clone();
        topic.append("/");
        topic.append(component);
        topic.append("/");
        topic.append(unique_id);
        topic.append("/config");
        topic
    }

    /// Where Home Assistant announces itself.
    pub fn birth_topic(&self) -> (topic: String)
        ensures
            topic@ == self@.birth_topic(),
    {
        self.discovery_prefix.clone().concat("/status")
    }

    /// A message with a document.
    pub fn publish_json(&self, topic: String, retain: bool, payload: &Value) -> (message: Message)
        ensures
            message@ == (Letter { topic: topic@, retain, payload: compact_text(json_of(*payload)) }),
    {
        Message { topic, retain, payload: compact(payload) }
    }

    /// Adds the message that announces an entity.
    fn announce(
        &self,
        messages: &mut Vec<Message>,
        component: &str,
        unique_id: &str,
        payload: &Value,
    )
        ensures
            letters(final(messages)@) == letters(old(messages)@).push(
                self@.announcement(
                    Entity {
                        component: component@,
                        unique_id: unique_id@,
                        payload: json_of(*payload),
                    },
                ),
            ),
    {
        let message = self.publish_json(self.discovery_topic(component, unique_id), true, payload);
        messages.push(message);
        assert(letters(messages@) =~= letters(old(messages)@).push(message@));
    }

    /// Announces a sensor for a reading.
    fn announce_reading(
        &self,
        messages: &mut Vec<Message>,
        def: &SensorDef,
        state_class: &str,
        device: &Value,
    )
        requires
            json_of(*device) == device_document(),
        ensures
            letters(final(messages)@) == letters(old(messages)@).push(
                self@.announcement(self@.reading_entity(def@, state_class@)),
            ),
    {
        let payload = sensor_discovery_payload(
            def.name,
            def.unique_id,
            self.state_topic().as_str(),
            def.api_key,
            Some(def.device_class),
            Some(def.unit),
            Some(state_class),
            self.availability_topic().as_str(),
            device,
        );
        self.announce(messages, "sensor", def.unique_id, &payload);
    }

    fn announce_status(&self, messages: &mut Vec<Message>, device: &Value)
        requires
            json_of(*device) == device_document(),
        ensures
            letters(final(messages)@) == letters(old(messages)@) + self@.announcements(
                self@.status_entities(status_table()),
            ),
    {
        let defs = status_sensors();
        let ghost entities = self@.status_entities(status_table());
        let ghost before = letters(messages@);
        let mut next: usize = 0;
        assert(letters(messages@) =~= before + self@.announcements(entities.take(0)));
        while next < defs.len()
            invariant
                next <= defs.len(),
                json_of(*device) == device_document(),
                sensors(defs@) == status_table(),
                entities == self@.status_entities(status_table()),
                letters(messages@) == before + self@.announcements(entities.take(next as int)),
            decreases defs.len() - next,
        {
            assert(sensors(defs@)[next as int] == defs@[next as int]@);
            self.announce_reading(messages, &defs[next], "measurement", device);
            assert(self@.announcements(entities.take(next + 1)) =~= self@.announcements(
                entities.take(next as int),
            ).push(self@.announcement(entities[next as int])));
            assert(letters(messages@) =~= before + self@.announcements(entities.take(next + 1)));
            next = next + 1;
        }
        assert(sensors(defs@).len() == defs@.len());
        assert(entities.take(next as int) =~= entities);
    }

    fn announce_energy(&self, messages: &mut Vec<Message>, device: &Value)
        requires
            json_of(*device) == device_document(),
        ensures
            letters(final(messages)@) == letters(old(messages)@) + self@.announcements(
                self@.energy_entities(energy_table()),
            ),
    {
        let defs = energy_sensors();
        let ghost entities = self@.energy_entities(energy_table());
        let ghost before = letters(messages@);
        let mut next: usize = 0;
        assert(letters(messages@) =~= before + self@.announcements(entities.take(0)));
        while next < defs.len()
            invariant
                next <= defs.len(),
                json_of(*device) == device_document(),
                sensors(defs@) == energy_table(),
                entities == self@.energy_entities(energy_table()),
                letters(messages@) == before + self@.announcements(entities.take(next as int)),
            decreases defs.len() - next,
        {
            assert(sensors(defs@)[next as int] == defs@[next as int]@);
            let state_class = if same(defs[next].device_class, "energy") {
                "total_increasing"
            } else {
                "measurement"
            };
            self.announce_reading(messages, &defs[next], state_class, device);
            assert(self@.announcements(entities.take(next + 1)) =~= self@.announcements(
                entities.take(next as int),
            ).push(self@.announcement(entities[next as int])));
            assert(letters(messages@) =~= before + self@.announcements(entities.take(next + 1)));
            next = next + 1;
        }
        assert(sensors(defs@).len() == defs@.len());
        assert(entities.take(next as int) =~= entities);
    }

    /// Announces a current of the schedule.
    fn announce_current(
        &self,
        messages: &mut Vec<Message>,
        name: &str,
        unique_id: &str,
        key: &str,
        device: &Value,
    )
        requires
            json_of(*device) == device_document(),
        ensures
            letters(final(messages)@) == letters(old(messages)@).push(
                self@.announcement(self@.current_entity(name@, unique_id@, key@)),
            ),
    {
        let payload = sensor_discovery_payload(
            name,
            unique_id,
            self.schedule_state_topic().as_str(),
            key,
            Some("current"),
            Some("A"),
            Some("measurement"),
            self.availability_topic().as_str(),
            device,
        );
        self.announce(messages, "sensor", unique_id, &payload);
    }

    /// Announces the switch of the schedule.
    fn announce_switch(&self, messages: &mut Vec<Message>, device: &Value)
        requires
            json_of(*device) == device_document(),
        ensures
            letters(final(messages)@) == letters(old(messages)@).push(
                self@.announcement(self@.switch_entity()),
            ),
    {
        let payload = switch_discovery_payload(
            "Schedule Enabled",
            "qc_schedule_enabled",
            self.schedule_state_topic().as_str(),
            SCHEDULE_ENABLED_KEY,
            self.command_topic(SCHEDULE_ENABLED_KEY).as_str(),
            self.availability_topic().as_str(),
            device,
        );
        self.announce(messages, "switch", "qc_schedule_enabled", &payload);
    }

    /// Announces a limit of the state of charge.
    fn announce_limit(
        &self,
        messages: &mut Vec<Message>,
        name: &str,
        unique_id: &str,
        key: &str,
        device: &Value,
    )
        requires
            json_of(*device) == device_document(),
        ensures
            letters(final(messages)@) == letters(old(messages)@).push(
                self@.announcement(self@.limit_entity(name@, unique_id@, key@)),
            ),
    {
        let payload = number_discovery_payload(
            name,
            unique_id,
            self.schedule_state_topic().as_str(),
            key,
            self.command_topic(key).as_str(),
            &Double::from_integer(0),
            &Double::from_integer(100),
            &Double::from_integer(1),
            "%",
            self.availability_topic().as_str(),
            device,
        );
        self.announce(messages, "number", unique_id, &payload);
    }

    /// Announces the mode of a slot.
    fn announce_mode(&self, messages: &mut Vec<Message>, slot: usize, device: &Value)
        requires
            json_of(*device) == device_document(),
        ensures
            letters(final(messages)@) == letters(old(messages)@).push(
                self@.announcement(self@.mode_entity(slot as nat)),
            ),
    {
        let unique_id = slot_text("qc_schedule_", slot, "_mode");
        let key = schedule_mode_state_key(slot);
        let options = mode_options();
        let payload = select_discovery_payload(
            slot_text("Schedule ", slot, " Mode").as_str(),
            unique_id.as_str(),
            self.schedule_state_topic().as_str(),
            key.as_str(),
            self.command_topic(key.as_str()).as_str(),
            &options,
            self.availability_topic().as_str(),
            device,
        );
        self.announce(messages, "select", unique_id.as_str(), &payload);
    }

    /// Announces a time of a slot.
    fn announce_time(
        &self,
        messages: &mut Vec<Message>,
        slot: usize,
        word: &str,
        tail: &str,
        device: &Value,
    )
        requires
            json_of(*device) == device_document(),
        ensures
            letters(final(messages)@) == letters(old(messages)@).push(
                self@.announcement(self@.time_entity(slot as nat, word@, tail@)),
            ),
    {
        let unique_id = slot_text("qc_schedule_", slot, tail);
        let key = slot_text("schedule_", slot, tail);
        let payload = text_discovery_payload(
            slot_text("Schedule ", slot, word).as_str(),
            unique_id.as_str(),
            self.schedule_state_topic().as_str(),
            key.as_str(),
            self.command_topic(key.as_str()).as_str(),
            Some(8),
            Some(8),
            Some("^\\d{2}:\\d{2}:\\d{2}$"),
            self.availability_topic().as_str(),
            device,
        );
        self.announce(messages, "text", unique_id.as_str(), &payload);
    }

    fn announce_general(&self, messages: &mut Vec<Message>, device: &Value)
        requires
            json_of(*device) == device_document(),
        ensures
            letters(final(messages)@) == letters(old(messages)@) + self@.announcements(
                self@.general_entities(),
            ),
    {
        let ghost before = letters(messages@);
        self.announce_current(
            messages,
            "Force Charge Current",
            "qc_force_charge_current",
            FORCE_CHARGE_CURRENT_KEY,
            device,
        );
        self.announce_current(
            messages,
            "Force Discharge Current",
            "qc_force_discharge_current",
            FORCE_DISCHARGE_CURRENT_KEY,
            device,
        );
        self.announce_switch(messages, device);
        self.announce_limit(messages, "Min SoC", "qc_min_soc", MIN_SOC_KEY, device);
        self.announce_limit(messages, "Max SoC", "qc_max_soc", MAX_SOC_KEY, device);
        assert(letters(messages@) =~= before + self@.announcements(self@.general_entities()));
    }

    fn announce_slots(&self, messages: &mut Vec<Message>, device: &Value)
        requires
            json_of(*device) == device_document(),
        ensures
            letters(final(messages)@) == letters(old(messages)@) + self@.announcements(
                self@.slot_entities(SCHEDULE_COUNT as nat),
            ),
    {
        let ghost before = letters(messages@);
        let mut told: usize = 0;
        assert(letters(messages@) =~= before + self@.announcements(self@.slot_entities(0)));
        while told < SCHEDULE_COUNT
            invariant
                told <= SCHEDULE_COUNT,
                json_of(*device) == device_document(),
                letters(messages@) == before + self@.announcements(
                    self@.slot_entities(told as nat),
                ),
            decreases SCHEDULE_COUNT - told,
        {
            let slot: usize = told + 1;
            self.announce_mode(messages, slot, device);
            self.announce_time(messages, slot, " Start", "_start", device);
            self.announce_time(messages, slot, " End", "_end", device);
            assert(letters(messages@) =~= before + self@.announcements(
                self@.slot_entities(slot as nat),
            ));
            told = slot;
        }
    }

    /// The messages that announce every entity.
    pub fn publish_discovery(&self) -> (messages: Vec<Message>)
        ensures
            letters(messages@) == self@.announcements(self@.entities()),
    {
        let device = device_payload();
        let mut messages: Vec<Message> = Vec::new();
        self.announce_status(&mut messages, &device);
        self.announce_energy(&mut messages, &device);
        self.announce_general(&mut messages, &device);
        self.announce_slots(&mut messages, &device);
        assert(letters(messages@) =~= self@.announcements(self@.entities()));
        messages
    }

    /// The message with the readings.
    pub fn publish_qc_data(&self, data: &QcData) -> (message: Message)
        ensures
            message@ == self@.data_letter(data@),
    {
        self.publish_json(self.state_topic(), true, &qc_data_payload(data))
    }

    /// The message with the schedule.
    pub fn publish_schedule(&self, config: &DailyScheduleConfig) -> (message: Message)
        ensures
            message@ == self@.schedule_letter(config@),
    {
        self.publish_json(self.schedule_state_topic(), true, &schedule_state_payload(config))
    }

    /// The message that the adapter is there.
    pub fn publish_online(&self) -> (message: Message)
        ensures
            message@ == self@.availability_letter("online"@),
    {
        Message { topic: self.availability_topic(), retain: true, payload: "online".to_string() }
    }

    /// The message that the adapter is gone.
    pub fn publish_offline_best_effort(&self) -> (message: Message)
        ensures
            message@ == self@.availability_letter("offline"@),
    {
        Message { topic: self.availability_topic(), retain: true, payload: "offline".to_string() }
    }

    /// The topics that the adapter listens to.
    pub fn subscribe_command_topics(&self) -> (topics: Vec<String>)
        ensures
            texts_of(topics@) == self@.subscriptions(),
    {
        let mut topics: Vec<String> = Vec::new();
        topics.push(self.birth_topic());
        topics.push(self.command_topic(SCHEDULE_ENABLED_KEY));
        topics.push(self.command_topic(MIN_SOC_KEY));
        topics.push(self.command_topic(MAX_SOC_KEY));
        let ghost first = texts_of(topics@);
        let mut listened: usize = 0;
        assert(texts_of(topics@) =~= first + self@.slot_topics(0));
        while listened < SCHEDULE_COUNT
            invariant
                listened <= SCHEDULE_COUNT,
                texts_of(topics@) == first + self@.slot_topics(listened as nat),
            decreases SCHEDULE_COUNT - listened,
        {
            let slot: usize = listened + 1;
            let ghost before = topics@;
            topics.push(self.command_topic(schedule_mode_state_key(slot).as_str()));
            topics.push(self.command_topic(schedule_start_state_key(slot).as_str()));
            topics.push(self.command_topic(schedule_end_state_key(slot).as_str()));
            let ghost at = before.len() as int;
            assert(texts_of(topics@) =~= texts_of(before).push(topics@[at]@).push(
                topics@[at + 1]@,
            ).push(topics@[at + 2]@));
            assert(texts_of(topics@) =~= first + self@.slot_topics(slot as nat));
            listened = slot;
        }
        assert(texts_of(topics@) =~= self@.subscriptions());
        topics
    }

    /// Fails once the connection is lost.
    pub fn ensure_healthy(&self) -> (result: AppResult<()>)
        ensures
            match result {
                Ok(_) => self@.fault() is None,
                Err(error) => self@.fault() == Some(error@),
            },
    {
        if self.healthy {
            return Ok(());
        }
        let words = match &self.last_error {
            Some(words) => words.clone(),
            None => "mqtt event loop stopped unexpectedly".to_string(),
        };
        Err(AppError::MqttDisconnected(words))
    }

    /// The connection is lost.
    pub fn stopped(&mut self, reason: StopReason)
        ensures
            final(self)@ == (Publisher {
                healthy: false,
                last_error: Some(reason.words()),
                ..old(self)@
            }),
    {
        self.last_error = Some(reason.message());
        self.healthy = false;
    }

    /// The command that a message is.
    pub fn incoming(&self, publish: &Publish) -> (result: AppResult<Option<CommandMessage>>)
        ensures
            gives(result, self@.incoming(publish.topic@, publish.payload@)),
    {
        if same(publish.topic.as_str(), self.birth_topic().as_str()) && spells_online(
            &publish.payload,
        ) {
            return Ok(Some(CommandMessage::HomeAssistantOnline));
        }
        decode_command(self.topic_prefix.as_str(), publish)
    }
}

/// Whether bytes are the text with which Home Assistant announces itself.
fn spells_online(payload: &Vec<u8>) -> (yes: bool)
    ensures
        yes == (payload@ == encode_utf8("online"@)),
{
    let expected = "online".as_bytes();
    if payload.len() != expected.len() {
        return false;
    }
    let mut next: usize = 0;
    while next < payload.len()
        invariant
            next <= payload.len(),
            payload.len() == expected.len(),
            expected@ == encode_utf8("online"@),
            forall|i: int| 0 <= i < next ==> payload@[i] == expected@[i],
        decreases payload.len() - next,
    {
        if payload[next] != expected[next] {
            return false;
        }
        next = next + 1;
    }
    assert(payload@ =~= expected@);
    true
}

/// A text with a slot in it.
fn slot_text(head: &str, slot: usize, tail: &str) -> (text: String)
    ensures
        text@ == head@ + decimal(slot as nat) + tail@,
{
    let mut text = head.to_string();
    push_decimal(&mut text, slot as u64);
    text.append(tail);
    text
}

/// The names of the modes, in their order.
fn mode_options() -> (options: Vec<String>)
    ensures
        texts_of(options@) == mode_names(),
{
    let modes = ScheduleMode::all();
    let mut options: Vec<String> = Vec::new();
    options.push(modes[0].display_name().to_string());
    options.push(modes[1].display_name().to_string());
    options.push(modes[2].display_name().to_string());
    assert(texts_of(options@) =~= mode_names());
    options
}

/// Why no more messages come.
#[derive(Debug)]
pub enum StopReason {
    /// There were no more events.
    Exhausted,
    /// Nobody takes the commands any more.
    ReceiverDropped,
    /// The client failed, in these words.
    Failed(String),
}

impl StopReason {
    /// The reason in words.
    pub open spec fn words(self) -> Seq<char> {
        match self {
            StopReason::Exhausted => "mqtt event loop stopped unexpectedly"@,
            StopReason::ReceiverDropped => "command receiver dropped"@,
            StopReason::Failed(error) => "mqtt event loop stopped: "@ + error@,
        }
    }

    /// The reason in words.
    pub fn message(&self) -> (words: String)
        ensures
            words@ == self.words(),
    {
        match self {
            StopReason::Exhausted => "mqtt event loop stopped unexpectedly".to_string(),
            StopReason::ReceiverDropped => "command receiver dropped".to_string(),
            StopReason::Failed(error) => "mqtt event loop stopped: ".to_string().concat(error),
        }
    }
}

/// How the connection to the broker is made.
pub struct ConnectOptions {
    pub client_id: String,
    pub host: String,
    pub port: u16,
    pub keep_alive: TimeSpan,
    /// What the broker publishes once the adapter is gone.
    pub last_will: Message,
    /// The user and the password, where there is a user.
    pub credentials: Option<(String, String)>,
    /// How many requests wait at most.
    pub capacity: usize,
}

impl ConnectOptions {
    /// Whether this is how a configuration says that the connection is made.
    pub open spec fn follow(self, config: MqttConfig) -> bool {
        &&& self.client_id@ == config.client_id@
        &&& self.host@ == config.host@
        &&& self.port == config.port
        &&& self.keep_alive@ == MQTT_KEEPALIVE_SECONDS * NANOS_PER_SECOND
        &&& self.last_will@ == (Letter {
            topic: config.topic_prefix@ + "/status"@,
            retain: true,
            payload: "offline"@,
        })
        &&& match (config.username, self.credentials) {
            (Some(username), Some(credentials)) => {
                &&& credentials.0@ == username@
                &&& credentials.1@ == (match config.password {
                    Some(password) => password@,
                    None => Seq::empty(),
                })
            },
            (None, None) => true,
            _ => false,
        }
        &&& self.capacity == MQTT_REQUEST_CAPACITY
    }
}

impl MqttPublisher {
    /// A publisher with a connection that stands, and how the connection is made.
    pub fn connect(config: &MqttConfig) -> (result: (MqttPublisher, ConnectOptions))
        ensures
            result.0@ == (Publisher {
                discovery_prefix: config.discovery_prefix@,
                topic_prefix: config.topic_prefix@,
                healthy: true,
                last_error: None,
            }),
            result.1.follow(*config),
    {
        let publisher = MqttPublisher {
            discovery_prefix: config.discovery_prefix.clone(),
            topic_prefix: config.topic_prefix.clone(),
            healthy: true,
            last_error: None,
        };
        let credentials = match &config.username {
            Some(username) => {
                let password = match &config.password {
                    Some(password) => password.clone(),
                    None => String::new(),
                };
                Some((username.clone(), password))
            },
            None => None,
        };
        let options = ConnectOptions {
            client_id: config.client_id.clone(),
            host: config.host.clone(),
            port: config.port,
            keep_alive: TimeSpan::from_secs(MQTT_KEEPALIVE_SECONDS),
            last_will: publisher.publish_offline_best_effort(),
            credentials,
            capacity: MQTT_REQUEST_CAPACITY,
        };
        (publisher, options)
    }
}

}
