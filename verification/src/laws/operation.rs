//! What the operations do: how what they give back follows from what they are given.
use serde_json::Value;
use vstd::prelude::*;
use vstd::utf8::encode_utf8;

use crate::command::{
    checked_soc, command_for, command_under, decode_command, decoded, parse_schedule_slot, parse_soc,
    slot_in, CommandMessage, Publish,
};
use crate::config::{
    load_secret, normalize_topic_segment, secret, AppConfig, CliArgs, MqttConfig, QcoreConfig, SecretFile,
};
use crate::dashboard::{
    build_chart_request, chart_request, collect_widgets, device_in, enchwt_in, extract_chart_into,
    extract_device_id, extract_enchwt, hardware_request, key_of, lowered, normalize_key, widgets_in,
    widgets_of, with_chart, DashboardWidget, Widget,
};
use crate::discovery::{
    missing, missing_of, qc_data_payload, schedule_state_payload, sensors,
    shows, unshown, SensorDef,
};
use crate::double::{
    float_error, float_read, format_float, float_text, is_whole, is_within, rounded,
    truncated, within, Double,
};
use crate::error::{AppError, AppResult, Fault};
use crate::http::{
    default_fields, describe_failure, fields_of, handle_response, headers_of, is_success, json_outcome,
    HttpSettings, Reply,
};
use crate::json::{compact_text, json_of, Json};
use crate::laws::chart::{holds_links, link_shown, under};
use crate::laws::command::slot_alone_changed;
use crate::laws::publisher::{readings_of, states_of};
use crate::laws::schedule::tells;
use crate::model::{
    DailySchedule, DailyScheduleConfig, QcData, Readings, Schedule, ScheduleMode,
};
use crate::mqtt::{letters, ConnectOptions, Message, MqttPublisher, StopReason};
use crate::qcore::{
    token_accepted, ApiCall, Attempt, AuthorizedRequest, Call, DeviceStep, QcDataState, QcDataStep,
    QcoreClient, ScheduleState, ScheduleStep, TokenState, TokenStep, WriteState, WriteStep,
};
use crate::schedule::{
    byte_setting, number_setting, parse_daily_schedule, read_f64, read_string, read_u8, schedule_body,
    schedule_in, schedule_settings, settings_in, text_setting,
};
use crate::session::{
    after_session, apply_command, counted, recover, Action, AfterSession, Event, ReconnectBackoff,
    Session, World,
};
use crate::stats::{
    format_duration, format_summary, report, summary_line, RuntimeStats, StatsDelta, StatsSnapshot,
};
use crate::text::{ascending, decimal, drop_ends, texts_of, trimmed, two_digits};
use crate::time::TimeSpan;

verus! {

broadcast use vstd::string::group_string_axioms;

/// A command that sets one thing of the whole schedule is always carried out: it sets that,
/// and keeps the slots, the currents and the other settings.
pub proof fn law_apply_general(
    config: &mut DailyScheduleConfig,
    command: CommandMessage,
    result: AppResult<()>,
)
    requires
        call_ensures(apply_command, (config, command), result),
        command is ScheduleEnabled || command is MinSoc || command is MaxSoc,
    ensures
        result is Ok,
        final(config)@.schedules == old(config)@.schedules,
        final(config)@.force_charge_current == old(config)@.force_charge_current,
        final(config)@.force_discharge_current == old(config)@.force_discharge_current,
        command matches CommandMessage::ScheduleEnabled(on) ==> final(config)@.state_enabled == on
            && final(config)@.min_soc == old(config)@.min_soc && final(config)@.max_soc == old(
            config,
        )@.max_soc,
        command matches CommandMessage::MinSoc(percent) ==> final(config)@.min_soc == percent
            && final(config)@.state_enabled == old(config)@.state_enabled && final(config)@.max_soc
            == old(config)@.max_soc,
        command matches CommandMessage::MaxSoc(percent) ==> final(config)@.max_soc == percent
            && final(config)@.state_enabled == old(config)@.state_enabled && final(config)@.min_soc
            == old(config)@.min_soc,
{
}

/// A command for a slot that there is changes one setting of that slot and nothing else; one
/// for a slot that there is not is refused, and changes nothing.
pub proof fn law_apply_slot(
    config: &mut DailyScheduleConfig,
    command: CommandMessage,
    result: AppResult<()>,
)
    requires
        call_ensures(apply_command, (config, command), result),
        command is ScheduleMode || command is ScheduleStart || command is ScheduleEnd,
    ensures
        ({
            let slot = match command {
                CommandMessage::ScheduleMode { slot, .. } => slot,
                CommandMessage::ScheduleStart { slot, .. } => slot,
                CommandMessage::ScheduleEnd { slot, .. } => slot,
                _ => arbitrary(),
            };
            let (before, after) = (old(config)@, final(config)@);
            let there = slot <= before.schedules.len();
            if 1 <= slot <= 5 {
                &&& result is Ok
                &&& slot_alone_changed(before, after, slot as int)
                &&& command matches CommandMessage::ScheduleMode { mode, .. } ==> {
                    &&& after.schedules[slot - 1].mode == mode
                    &&& there ==> after.schedules[slot - 1].start_time
                        == before.schedules[slot - 1].start_time
                        && after.schedules[slot - 1].end_time == before.schedules[slot
                        - 1].end_time
                }
                &&& command matches CommandMessage::ScheduleStart { value, .. } ==> {
                    &&& after.schedules[slot - 1].start_time == value@
                    &&& there ==> after.schedules[slot - 1].mode == before.schedules[slot - 1].mode
                        && after.schedules[slot - 1].end_time == before.schedules[slot
                        - 1].end_time
                }
                &&& command matches CommandMessage::ScheduleEnd { value, .. } ==> {
                    &&& after.schedules[slot - 1].end_time == value@
                    &&& there ==> after.schedules[slot - 1].mode == before.schedules[slot - 1].mode
                        && after.schedules[slot - 1].start_time == before.schedules[slot
                        - 1].start_time
                }
            } else {
                &&& result is Err
                &&& result->Err_0@ == Fault::InvalidState(
                    "schedule slot "@ + decimal(slot as nat) + " out of range 1..=5"@,
                )
                &&& after == before
            }
        }),
{
    match command {
        CommandMessage::ScheduleMode { slot, mode } => {
            if 1 <= slot <= 5 {
                crate::laws::command::law_slot_changed(old(config)@, slot as nat, mode, ""@);
            } else {
                crate::laws::command::law_slot_refused(old(config)@, slot as nat, mode, ""@);
            }
        },
        CommandMessage::ScheduleStart { slot, value } => {
            if 1 <= slot <= 5 {
                crate::laws::command::law_slot_changed(
                    old(config)@,
                    slot as nat,
                    ScheduleMode::Disable,
                    value@,
                );
            } else {
                crate::laws::command::law_slot_refused(
                    old(config)@,
                    slot as nat,
                    ScheduleMode::Disable,
                    value@,
                );
            }
        },
        CommandMessage::ScheduleEnd { slot, value } => {
            if 1 <= slot <= 5 {
                crate::laws::command::law_slot_changed(
                    old(config)@,
                    slot as nat,
                    ScheduleMode::Disable,
                    value@,
                );
            } else {
                crate::laws::command::law_slot_refused(
                    old(config)@,
                    slot as nat,
                    ScheduleMode::Disable,
                    value@,
                );
            }
        },
        _ => {},
    }
}

/// Making sure of a slot that there can be keeps the slots that are there and adds slots that
/// do nothing up to it; one that there cannot be is refused, and nothing changes.
pub proof fn law_ensure_slot(config: &mut DailyScheduleConfig, slot: usize, result: AppResult<()>)
    requires
        call_ensures(DailyScheduleConfig::ensure_slot, (config, slot), result),
    ensures
        1 <= slot <= 5 ==> {
            &&& result is Ok
            &&& final(config)@ == (DailySchedule {
                schedules: final(config)@.schedules,
                ..old(config)@
            })
            &&& final(config)@.schedules.len() == (if slot > old(config)@.schedules.len() {
                slot as nat
            } else {
                old(config)@.schedules.len()
            })
            &&& forall|i: int|
                0 <= i < old(config)@.schedules.len() ==> #[trigger] final(config)@.schedules[i]
                    == old(config)@.schedules[i]
            &&& forall|i: int|
                old(config)@.schedules.len() <= i < slot ==> (
                #[trigger] final(config)@.schedules[i]).mode == ScheduleMode::Disable
                    && final(config)@.schedules[i].start_time == "00:00:00"@
                    && final(config)@.schedules[i].end_time == "00:00:00"@
        },
        !(1 <= slot <= 5) ==> {
            &&& result is Err
            &&& result->Err_0@ == Fault::InvalidState(
                "schedule slot "@ + decimal(slot as nat) + " out of range 1..=5"@,
            )
            &&& final(config)@ == old(config)@
        },
{
    if !(1 <= slot <= 5) {
        crate::laws::command::law_slot_refused(
            old(config)@,
            slot as nat,
            ScheduleMode::Disable,
            ""@,
        );
    }
}

/// A chart with links puts what each key's last link shows into the flows, and changes no
/// other reading.
pub proof fn law_chart_with_links(
    chart: &Value,
    title: &str,
    data: &mut QcData,
    links: Seq<Json>,
    key: Seq<char>,
    at: int,
)
    requires
        call_ensures(extract_chart_into, (chart, title, data), ()),
        holds_links(json_of(*chart), links),
    ensures
        final(data)@.energy == old(data)@.energy,
        0 <= at < links.len() && under(link_shown(links[at]), key) && (forall|i: int|
            at < i < links.len() ==> !under(link_shown(#[trigger] links[i]), key)) ==> {
            &&& final(data)@.status.dom().contains(key)
            &&& Some((key, final(data)@.status[key])) == link_shown(links[at])
        },
        (forall|i: int| 0 <= i < links.len() ==> !under(link_shown(#[trigger] links[i]), key)) ==> {
            &&& final(data)@.status.dom().contains(key) == old(data)@.status.dom().contains(key)
            &&& final(data)@.status[key] == old(data)@.status[key]
        },
{
    if 0 <= at < links.len() && under(link_shown(links[at]), key) && (forall|i: int|
        at < i < links.len() ==> !under(link_shown(#[trigger] links[i]), key)) {
        crate::laws::chart::lemma_link_last(old(data)@.status, links, at, key);
    }
    if forall|i: int| 0 <= i < links.len() ==> !under(link_shown(#[trigger] links[i]), key) {
        crate::laws::chart::lemma_link_none(old(data)@.status, links, key);
    }
}

/// Any chart puts into the readings what it shows under the title of its widget.
pub proof fn law_chart_read(chart: &Value, title: &str, data: &mut QcData)
    requires
        call_ensures(extract_chart_into, (chart, title, data), ()),
    ensures
        final(data)@ == with_chart(old(data)@, json_of(*chart), title@),
{
}

/// A name is brought into the form of a key.
pub proof fn law_normalize(name: &str, key: String)
    requires
        call_ensures(normalize_key, (name,), key),
    ensures
        key@ == key_of(lowered(name@)),
        crate::laws::key::is_key(key@),
{
    crate::laws::key::law_key_shape(lowered(name@));
}

/// What comes in is the birth message of Home Assistant, or what the topic and the payload
/// say.
pub proof fn law_message_taken(
    publisher: &MqttPublisher,
    publish: &Publish,
    result: AppResult<Option<CommandMessage>>,
)
    requires
        call_ensures(MqttPublisher::incoming, (publisher, publish), result),
    ensures
        publish.topic@ == publisher@.discovery_prefix + "/status"@ && publish.payload@
            == encode_utf8("online"@) ==> result is Ok && result->Ok_0 is Some
            && result->Ok_0->0 is HomeAssistantOnline,
        publish.topic@ != publisher@.discovery_prefix + "/status"@ || publish.payload@
            != encode_utf8("online"@) ==> match decoded(
            publisher@.topic_prefix,
            publish.topic@,
            publish.payload@,
        ) {
            Ok(Some(command)) => result is Ok && result->Ok_0 is Some && result->Ok_0->0@
                == command,
            Ok(None) => result is Ok && result->Ok_0 is None,
            Err(fault) => result is Err && result->Err_0@ == fault,
        },
{
}

/// Every whole percentage under the topic of a limit comes in as that limit.
pub proof fn law_limit_taken(
    publisher: &MqttPublisher,
    publish: &Publish,
    result: AppResult<Option<CommandMessage>>,
    percent: nat,
)
    requires
        call_ensures(MqttPublisher::incoming, (publisher, publish), result),
        percent <= 100,
        publish.payload@ == encode_utf8(decimal(percent)),
    ensures
        publish.topic@ == publisher@.topic_prefix + "/cmd/"@ + "max_soc"@ ==> result is Ok
            && result->Ok_0 is Some && result->Ok_0->0 == CommandMessage::MaxSoc(percent as u8),
        publish.topic@ == publisher@.topic_prefix + "/cmd/"@ + "min_soc"@ ==> result is Ok
            && result->Ok_0 is Some && result->Ok_0->0 == CommandMessage::MinSoc(percent as u8),
{
    crate::laws::publisher::law_limits_come_in(publisher@, percent);
}

/// A message under a command topic is decoded as its topic and its payload say.
pub proof fn law_message_decoded(
    topic_prefix: &str,
    publish: &Publish,
    result: AppResult<Option<CommandMessage>>,
)
    requires
        call_ensures(decode_command, (topic_prefix, publish), result),
    ensures
        match decoded(topic_prefix@, publish.topic@, publish.payload@) {
            Ok(Some(command)) => result is Ok && result->Ok_0 is Some && result->Ok_0->0@
                == command,
            Ok(None) => result is Ok && result->Ok_0 is None,
            Err(fault) => result is Err && result->Err_0@ == fault,
        },
{
}

/// A text under a key is the command that it says.
pub proof fn law_text_decoded(key: &str, text: &str, result: AppResult<Option<CommandMessage>>)
    requires
        call_ensures(command_under, (key, text), result),
    ensures
        match command_for(key@, text@) {
            Ok(Some(command)) => result is Ok && result->Ok_0 is Some && result->Ok_0->0@
                == command,
            Ok(None) => result is Ok && result->Ok_0 is None,
            Err(fault) => result is Err && result->Err_0@ == fault,
        },
{
}

/// A limit is read from a number between zero and one hundred, and from nothing else, as the
/// nearest whole percentage.
pub proof fn law_limit_read(value: &str, result: AppResult<u8>)
    requires
        call_ensures(parse_soc, (value,), result),
    ensures
        result is Ok <==> float_read(value@) is Some && within(float_read(value@)->0, 100),
        result is Ok ==> result->Ok_0 == rounded(float_read(value@)->0) && result->Ok_0 <= 100,
        result is Err ==> result->Err_0@ == Fault::InvalidState(
            match float_read(value@) {
                Some(bits) => "soc value "@ + crate::double::plain_text(bits)
                    + " out of range 0..=100"@,
                None => "soc value '"@ + value@ + "' invalid: "@ + float_error(value@),
            },
        ),
{
    if let Some(bits) = float_read(value@) {
        if within(bits, 100) {
            crate::laws::command::lemma_rounded_percent(bits);
        }
    }
}

/// A limit is taken from a number between zero and one hundred, as the nearest whole
/// percentage.
pub proof fn law_limit_checked(value: &Double, result: AppResult<u8>)
    requires
        call_ensures(checked_soc, (value,), result),
    ensures
        result is Ok <==> within(value@, 100),
        result is Ok ==> result->Ok_0 == rounded(value@),
        result is Err ==> result->Err_0@ == Fault::InvalidState(
            "soc value "@ + crate::double::plain_text(value@) + " out of range 0..=100"@,
        ),
{
}

/// The slot of a key is the one that the key names.
pub proof fn law_slot_parsed(suffix: &str, tail: &str, slot: Option<usize>)
    requires
        call_ensures(parse_schedule_slot, (suffix, tail), slot),
    ensures
        slot is Some <==> slot_in(suffix@, tail@) is Some,
        slot is Some ==> slot_in(suffix@, tail@) == Some(slot->0 as nat) && 1 <= slot->0 <= 5,
{
}

/// The message for a schedule carries the states of that very schedule.
pub proof fn law_schedule_message(
    publisher: &MqttPublisher,
    config: &DailyScheduleConfig,
    message: Message,
)
    requires
        call_ensures(MqttPublisher::publish_schedule, (publisher, config), message),
    ensures
        message.topic@ == publisher@.topic_prefix + "/schedule/state"@,
        message.retain,
        exists|told: Map<Seq<char>, Json>| #[trigger]
            compact_text(Json::Object(told)) == message.payload@ && states_of(told, config@),
{
    crate::laws::publisher::law_schedule_published(publisher@, config@);
}

/// The document for a schedule holds the states of that very schedule.
pub proof fn law_schedule_document(config: &DailyScheduleConfig, payload: Value)
    requires
        call_ensures(schedule_state_payload, (config,), payload),
    ensures
        json_of(payload) is Object,
        states_of(json_of(payload)->Object_0, config@),
{
    crate::laws::publisher::law_states_exact(config@);
}

/// The message for readings carries those that a sensor shows.
pub proof fn law_readings_message(publisher: &MqttPublisher, data: &QcData, message: Message)
    requires
        call_ensures(MqttPublisher::publish_qc_data, (publisher, data), message),
    ensures
        message.topic@ == publisher@.topic_prefix + "/state"@,
        message.retain,
        exists|told: Map<Seq<char>, Json>| #[trigger]
            compact_text(Json::Object(told)) == message.payload@ && readings_of(told, data@),
{
    crate::laws::publisher::law_readings_published(publisher@, data@);
}

/// The document for readings holds those that a sensor shows.
pub proof fn law_readings_document(data: &QcData, payload: Value)
    requires
        call_ensures(qc_data_payload, (data,), payload),
    ensures
        json_of(payload) is Object,
        readings_of(json_of(payload)->Object_0, data@),
{
    crate::laws::publisher::law_readings_exact(data@);
}

/// The adapter says that it is there, and that it is gone, under one topic.
pub proof fn law_availability_messages(publisher: &MqttPublisher, there: Message, gone: Message)
    requires
        call_ensures(MqttPublisher::publish_online, (publisher,), there),
        call_ensures(MqttPublisher::publish_offline_best_effort, (publisher,), gone),
    ensures
        there.topic@ == publisher@.topic_prefix + "/status"@,
        there.retain,
        there.payload@ == "online"@,
        gone.topic@ == publisher@.topic_prefix + "/status"@,
        gone.retain,
        gone.payload@ == "offline"@,
{
}

/// The announcements are those of every entity, in order.
pub proof fn law_announcements_made(publisher: &MqttPublisher, messages: Vec<Message>, at: int)
    requires
        call_ensures(MqttPublisher::publish_discovery, (publisher,), messages),
    ensures
        messages@.len() == 26,
        0 <= at < 26 ==> {
            let entity = publisher@.entities()[at];
            &&& messages@[at].topic@ == publisher@.discovery_prefix + "/"@ + entity.component + "/"@
                + entity.unique_id + "/config"@
            &&& messages@[at].retain
            &&& messages@[at].payload@ == compact_text(entity.payload)
        },
{
    crate::laws::discovery::lemma_entity_count(publisher@);
    assert(letters(messages@).len() == messages@.len());
    if 0 <= at < 26 {
        assert(letters(messages@)[at] == messages@[at]@);
        assert(publisher@.announcements(publisher@.entities())[at] == publisher@.announcement(
            publisher@.entities()[at],
        ));
    }
}

/// The topics that are subscribed to are those that the adapter listens to.
pub proof fn law_topics_subscribed(publisher: &MqttPublisher, topics: Vec<String>, at: int)
    requires
        call_ensures(MqttPublisher::subscribe_command_topics, (publisher,), topics),
    ensures
        topics@.len() == 19,
        0 <= at < 19 ==> topics@[at]@ == publisher@.subscriptions()[at],
{
    crate::laws::discovery::lemma_slot_topic_at(publisher@, 1);
    assert(texts_of(topics@).len() == topics@.len());
    if 0 <= at < 19 {
        assert(texts_of(topics@)[at] == topics@[at]@);
    }
}

/// A connection that is lost stays lost, and its words are told from then on.
pub proof fn law_connection_lost(publisher: &mut MqttPublisher, reason: StopReason)
    requires
        call_ensures(MqttPublisher::stopped, (publisher, reason), ()),
    ensures
        !final(publisher)@.healthy,
        final(publisher)@.last_error == Some(reason.words()),
        final(publisher)@.topic_prefix == old(publisher)@.topic_prefix,
        final(publisher)@.discovery_prefix == old(publisher)@.discovery_prefix,
{
}

/// A connection is fit exactly as long as it stands.
pub proof fn law_connection_checked(publisher: &MqttPublisher, result: AppResult<()>)
    requires
        call_ensures(MqttPublisher::ensure_healthy, (publisher,), result),
    ensures
        result is Ok <==> publisher@.healthy,
        result is Err ==> result->Err_0@ == Fault::MqttDisconnected(
            match publisher@.last_error {
                Some(words) => words,
                None => "mqtt event loop stopped unexpectedly"@,
            },
        ),
{
}

/// A connection is made with the configured prefixes, and stands.
pub proof fn law_connected(config: &MqttConfig, result: (MqttPublisher, ConnectOptions))
    requires
        call_ensures(MqttPublisher::connect, (config,), result),
    ensures
        ({
            let (publisher, options) = result;
            &&& publisher@.discovery_prefix == config.discovery_prefix@
            &&& publisher@.topic_prefix == config.topic_prefix@
            &&& publisher@.healthy
            &&& publisher@.last_error is None
            &&& options.client_id@ == config.client_id@
            &&& options.host@ == config.host@
            &&& options.port == config.port
            &&& options.last_will.topic@ == config.topic_prefix@ + "/status"@
            &&& options.last_will.payload@ == "offline"@
            &&& options.last_will.retain
            &&& options.keep_alive@ == 30_000_000_000
            &&& options.capacity == 64
            &&& options.credentials is Some <==> config.username is Some
            &&& options.credentials matches Some((user, password)) ==> {
                &&& user@ == config.username->0@
                &&& config.password is Some ==> password@ == config.password->0@
                &&& config.password is None ==> password@.len() == 0
            }
        }),
{
}

/// The topics, by the prefixes of the publisher.
pub proof fn law_topics_named(
    publisher: &MqttPublisher,
    key: &str,
    component: &str,
    id: &str,
    first: String,
    second: String,
    third: String,
    fourth: String,
    fifth: String,
    sixth: String,
)
    requires
        call_ensures(MqttPublisher::availability_topic, (publisher,), first),
        call_ensures(MqttPublisher::state_topic, (publisher,), second),
        call_ensures(MqttPublisher::schedule_state_topic, (publisher,), third),
        call_ensures(MqttPublisher::command_topic, (publisher, key), fourth),
        call_ensures(MqttPublisher::birth_topic, (publisher,), fifth),
        call_ensures(MqttPublisher::discovery_topic, (publisher, component, id), sixth),
    ensures
        first@ == publisher@.topic_prefix + "/status"@,
        second@ == publisher@.topic_prefix + "/state"@,
        third@ == publisher@.topic_prefix + "/schedule/state"@,
        fourth@ == publisher@.topic_prefix + "/cmd/"@ + key@,
        fifth@ == publisher@.discovery_prefix + "/status"@,
        sixth@ == publisher@.discovery_prefix + "/"@ + component@ + "/"@ + id@ + "/config"@,
{
}

/// An answer gives a schedule exactly where its settings tell one, and gives that one.
pub proof fn law_schedule_parsed(
    answer: &Value,
    filters: Seq<Json>,
    result: AppResult<DailyScheduleConfig>,
)
    requires
        call_ensures(parse_daily_schedule, (answer,), result),
        crate::json::list_under(json_of(*answer), "filters"@) == Some(filters),
    ensures
        result is Ok ==> tells(settings_in(filters), result->Ok_0@),
        result is Err ==> forall|config: DailySchedule| !tells(settings_in(filters), config),
        result is Err ==> schedule_in(json_of(*answer)) == Err::<DailySchedule, Fault>(
            result->Err_0@,
        ),
{
    if result is Ok {
        crate::laws::schedule::law_schedule_read(json_of(*answer), filters, result->Ok_0@);
    } else {
        assert forall|config: DailySchedule| !tells(settings_in(filters), config) by {
            crate::laws::schedule::law_schedule_read(json_of(*answer), filters, config);
        }
    }
}

/// An answer without settings gives no schedule.
pub proof fn law_no_schedule_parsed(answer: &Value, result: AppResult<DailyScheduleConfig>)
    requires
        call_ensures(parse_daily_schedule, (answer,), result),
        crate::json::list_under(json_of(*answer), "filters"@) is None,
    ensures
        result is Err,
        result->Err_0@ == Fault::QcoreApi("schedule response missing filters"@),
{
}

/// A setting is read as what it says.
pub proof fn law_settings_parsed(
    value: &Value,
    name: &str,
    text: AppResult<String>,
    number: AppResult<Double>,
    byte: AppResult<u8>,
)
    requires
        call_ensures(read_string, (value, name), text),
        call_ensures(read_f64, (value, name), number),
        call_ensures(read_u8, (value, name), byte),
    ensures
        match text {
            Ok(told) => text_setting(json_of(*value), name@) == Ok::<Seq<char>, Fault>(told@),
            Err(error) => text_setting(json_of(*value), name@) == Err::<Seq<char>, Fault>(error@),
        },
        match number {
            Ok(told) => number_setting(json_of(*value), name@) == Ok::<u64, Fault>(told@),
            Err(error) => number_setting(json_of(*value), name@) == Err::<u64, Fault>(error@),
        },
        match byte {
            Ok(told) => byte_setting(json_of(*value), name@) == Ok::<u8, Fault>(told),
            Err(error) => byte_setting(json_of(*value), name@) == Err::<u8, Fault>(error@),
        },
{
}

/// The body that tells the service a schedule tells that very schedule.
pub proof fn law_body_written(config: &DailyScheduleConfig, body: Value)
    requires
        call_ensures(schedule_body, (config,), body),
    ensures
        json_of(body) == Json::Object(schedule_settings(config@)),
{
}

/// The parts of a dashboard, as far as they can be found.
pub proof fn law_dashboard_read(
    dashboard: &Value,
    device: AppResult<String>,
    widgets: AppResult<Vec<DashboardWidget>>,
    kind: AppResult<String>,
)
    requires
        call_ensures(extract_device_id, (dashboard,), device),
        call_ensures(collect_widgets, (dashboard,), widgets),
        call_ensures(extract_enchwt, (dashboard,), kind),
    ensures
        match device {
            Ok(id) => device_in(json_of(*dashboard)) == Ok::<Seq<char>, Fault>(id@),
            Err(error) => device_in(json_of(*dashboard)) == Err::<Seq<char>, Fault>(error@),
        },
        match widgets {
            Ok(found) => widgets_in(json_of(*dashboard)) == Ok::<Seq<Widget>, Fault>(
                widgets_of(found@),
            ),
            Err(error) => widgets_in(json_of(*dashboard)) == Err::<Seq<Widget>, Fault>(error@),
        },
        match kind {
            Ok(text) => enchwt_in(json_of(*dashboard)) == Ok::<Seq<char>, Fault>(text@),
            Err(error) => enchwt_in(json_of(*dashboard)) == Err::<Seq<char>, Fault>(error@),
        },
{
}

/// What the service is asked for a chart and for the type of a device.
pub proof fn law_bodies_asked(
    widget: &DashboardWidget,
    device: &str,
    chart: AppResult<Value>,
    hardware: Value,
)
    requires
        call_ensures(build_chart_request, (widget,), chart),
        call_ensures(hardware_request, (device,), hardware),
    ensures
        match chart {
            Ok(body) => chart_request(widget@) == Ok::<Json, Fault>(json_of(body)),
            Err(error) => chart_request(widget@) == Err::<Json, Fault>(error@),
        },
        json_of(hardware) == Json::Object(
            map![
                "_ft"@ => Json::Text("hwv"@),
                "hwid"@ => Json::Text(device@),
                "f"@ => Json::List(seq![Json::Text("hwid"@), Json::Text("enchwt"@)]),
            ],
        ),
{
}

/// Where tokens are asked about and asked for, and with which account.
pub proof fn law_account(
    client: &QcoreClient,
    account: String,
    login: String,
    form: [(&'static str, &str); 2],
)
    requires
        call_ensures(QcoreClient::account_url, (client,), account),
        call_ensures(QcoreClient::login_url, (client,), login),
        call_ensures(QcoreClient::login_form, (client,), form),
    ensures
        account@ == client@.api_url + "/s/accountinfo"@,
        login@ == client@.api_url + "/auth/login"@,
        ({
            let (user, password) = (form@[0], form@[1]);
            &&& user.0@ == "username"@
            &&& user.1@ == client@.login
            &&& password.0@ == "password"@
            &&& password.1@ == client@.password
        }),
{
}

/// The first time that the token is refused it is forgotten and the same request is made once
/// more. Anything else that came of a request is its result, and the client stays as it was.
pub proof fn law_attempt_settled(
    client: &mut QcoreClient,
    request: AuthorizedRequest,
    result: AppResult<Value>,
    attempt: Attempt,
)
    requires
        call_ensures(QcoreClient::settle, (client, request, result), attempt),
    ensures
        ({
            let refused = match result {
                Err(AppError::QcoreApi(words)) => crate::text::occurs(words@, "401"@),
                _ => false,
            };
            if refused && !request@.retried {
                &&& attempt is Again
                &&& attempt->Again_0@.url == request@.url
                &&& attempt->Again_0@.body == request@.body
                &&& attempt->Again_0@.retried
                &&& final(client)@.token is None
                &&& final(client)@.device_id == old(client)@.device_id
                &&& final(client)@.login == old(client)@.login
                &&& final(client)@.password == old(client)@.password
                &&& final(client)@.api_url == old(client)@.api_url
            } else {
                &&& attempt == Attempt::Done(result)
                &&& final(client)@ == old(client)@
            }
        }),
{
}

/// A request goes under the address of the service, with a body where something is sent.
pub proof fn law_request_made(
    client: &QcoreClient,
    path: &str,
    body: &Value,
    get: AuthorizedRequest,
    post: AuthorizedRequest,
    call: &ApiCall,
    made: AuthorizedRequest,
)
    requires
        call_ensures(QcoreClient::authorized_get, (client, path), get),
        call_ensures(QcoreClient::authorized_post_json, (client, path, body), post),
        call_ensures(QcoreClient::request, (client, call), made),
    ensures
        get@.url == client@.api_url + path@,
        get@.body is None,
        !get@.retried,
        post@.url == client@.api_url + path@,
        post@.body == Some(compact_text(json_of(*body))),
        !post@.retried,
        made@ == client@.exchange(call@),
{
}

/// A token that is in use is handed out, else the file is read; a token of the file is asked
/// about, else there must be a new one.
pub proof fn law_token_wanted(
    client: &QcoreClient,
    wanted: TokenStep,
    found: Option<String>,
    read: TokenStep,
    login: AppResult<String>,
    entered: TokenStep,
)
    requires
        call_ensures(QcoreClient::get_token, (client,), wanted),
        call_ensures(QcoreClient::token_file_read, (client, found), read),
        call_ensures(QcoreClient::logged_in, (client, login), entered),
    ensures
        client@.token is Some ==> wanted@ == TokenState::Done(Ok(client@.token->0)),
        client@.token is None ==> wanted@ == TokenState::ReadFile,
        found is Some ==> read@ == (TokenState::Validate { token: found->0@ }),
        found is None ==> read@ == TokenState::Login,
        login is Ok ==> entered@ == (TokenState::Store { token: login->Ok_0@ }),
        login is Err ==> entered@ == TokenState::Done(Err(login->Err_0@)),
{
}

/// A token of the file is used where the service knows its account; otherwise there must be a
/// new one, and the client stays as it was.
pub proof fn law_token_validated(
    client: &mut QcoreClient,
    token: String,
    reply: &Reply,
    step: TokenStep,
)
    requires
        call_ensures(QcoreClient::token_validated, (client, token, reply), step),
    ensures
        token_accepted(reply.outcome()) ==> {
            &&& step@ == TokenState::Done(Ok(token@))
            &&& final(client)@.token == Some(token@)
            &&& final(client)@.device_id == old(client)@.device_id
            &&& final(client)@.login == old(client)@.login
            &&& final(client)@.password == old(client)@.password
            &&& final(client)@.api_url == old(client)@.api_url
        },
        !token_accepted(reply.outcome()) ==> step@ == TokenState::Login && final(client)@ == old(
            client,
        )@,
{
}

/// A new token is used once it is stored; where it could not be, the client stays as it was.
pub proof fn law_token_stored(
    client: &mut QcoreClient,
    token: String,
    result: AppResult<()>,
    step: TokenStep,
)
    requires
        call_ensures(QcoreClient::token_stored, (client, token, result), step),
    ensures
        result is Ok ==> {
            &&& step@ == TokenState::Done(Ok(token@))
            &&& final(client)@.token == Some(token@)
            &&& final(client)@.device_id == old(client)@.device_id
            &&& final(client)@.login == old(client)@.login
            &&& final(client)@.password == old(client)@.password
            &&& final(client)@.api_url == old(client)@.api_url
        },
        result is Err ==> step@ == TokenState::Done(Err(result->Err_0@)) && final(client)@ == old(
            client,
        )@,
{
}

/// A token is accepted where the service answers with an account that has an id.
pub proof fn law_account_known(reply: &Reply, accepted: bool)
    requires
        call_ensures(QcoreClient::validate_token, (reply,), accepted),
    ensures
        accepted <==> reply is Success && crate::json::member(json_of(reply->Success_0), "uid"@)
            is Some,
{
}

/// A device that is known is used; else the dashboard is asked.
pub proof fn law_device_wanted(client: &QcoreClient, step: DeviceStep)
    requires
        call_ensures(QcoreClient::get_device_id, (client,), step),
    ensures
        client@.device_id is Some ==> step is Known && Some(step->Known_0@) == client@.device_id,
        client@.device_id is None ==> step is Ask && step->Ask_0@ == (Call::Get {
            path: "/s/dashboard"@,
        }),
{
}

/// The device that the dashboard shows is known from then on, and nothing else of the client
/// changes.
pub proof fn law_device_answered(
    client: &mut QcoreClient,
    answer: AppResult<Value>,
    result: AppResult<String>,
)
    requires
        call_ensures(QcoreClient::device_answered, (client, answer), result),
    ensures
        ({
            let found = match answer {
                Ok(dashboard) => device_in(json_of(dashboard)),
                Err(error) => Err(error@),
            };
            &&& match result {
                Ok(device) => found == Ok::<Seq<char>, Fault>(device@),
                Err(error) => found == Err::<Seq<char>, Fault>(error@),
            }
            &&& found is Ok ==> final(client)@.device_id == Some(found->Ok_0)
            &&& found is Err ==> final(client)@.device_id == old(client)@.device_id
            &&& final(client)@.token == old(client)@.token
            &&& final(client)@.login == old(client)@.login
            &&& final(client)@.password == old(client)@.password
            &&& final(client)@.api_url == old(client)@.api_url
        }),
{
}

/// The readings are fetched from the dashboard on, step by step.
pub proof fn law_readings_fetched(
    client: &QcoreClient,
    first: QcDataStep,
    step: QcDataStep,
    call: Option<ApiCall>,
    answer: AppResult<Value>,
    next: QcDataStep,
)
    requires
        call_ensures(QcoreClient::fetch_qc_data, (client,), first),
        call_ensures(QcDataStep::call, (&step,), call),
        call_ensures(QcDataStep::advance, (step, answer), next),
    ensures
        first@ == QcDataState::Dashboard,
        call is Some ==> step@.call() == Some(call->0@),
        call is None ==> step@.call() is None,
        next@ == step@.after(json_outcome(answer)),
{
}

/// The schedule is fetched from the device on, step by step, and a device that is found on the
/// way is kept.
pub proof fn law_schedule_fetched(
    client: &mut QcoreClient,
    step: ScheduleStep,
    call: Option<ApiCall>,
    answer: AppResult<Value>,
    next: ScheduleStep,
)
    requires
        call_ensures(ScheduleStep::call, (&step,), call),
        call_ensures(QcoreClient::schedule_answered, (client, step, answer), next),
    ensures
        call is Some ==> step@.call() == Some(call->0@),
        call is None ==> step@.call() is None,
        next@ == step@.after(json_outcome(answer)),
        step@ is Device ==> final(client)@ == old(client)@.device_told(json_outcome(answer)),
        !(step@ is Device) ==> final(client)@ == old(client)@,
{
}

/// A schedule is written from the device on, step by step, and a device that is found on the
/// way is kept.
pub proof fn law_schedule_written(
    client: &mut QcoreClient,
    step: WriteStep,
    call: Option<ApiCall>,
    answer: AppResult<Value>,
    next: WriteStep,
)
    requires
        call_ensures(WriteStep::call, (&step,), call),
        call_ensures(QcoreClient::write_answered, (client, step, answer), next),
    ensures
        call is Some ==> step@.call() == Some(call->0@),
        call is None ==> step@.call() is None,
        next@ == step@.after(json_outcome(answer)),
        step@ is Device ==> final(client)@ == old(client)@.device_told(json_outcome(answer)),
        !(step@ is Device) ==> final(client)@ == old(client)@,
{
}

/// A schedule is fetched and written for the device that is known, else for the one that the
/// dashboard shows; what is written is that very schedule.
pub proof fn law_schedule_wanted(
    client: &QcoreClient,
    config: &DailyScheduleConfig,
    fetch: ScheduleStep,
    write: WriteStep,
)
    requires
        call_ensures(QcoreClient::fetch_daily_schedule, (client,), fetch),
        call_ensures(QcoreClient::set_daily_schedule, (client, config), write),
    ensures
        ({
            let body = Json::Object(schedule_settings(config@));
            match client@.device_id {
                Some(device) => {
                    &&& fetch@ == (ScheduleState::Hardware { device })
                    &&& write@ == (WriteState::Send { device, body })
                },
                None => {
                    &&& fetch@ == ScheduleState::Device
                    &&& write@ == (WriteState::Device { body })
                },
            }
        }),
{
}

/// An answer is its document, or an error with its status and its text, or what went wrong.
pub proof fn law_answers_handled(
    reply: Reply,
    result: AppResult<Value>,
    status: u16,
    good: bool,
    reason: Option<&str>,
    body: &str,
    words: String,
)
    requires
        call_ensures(handle_response, (reply,), result),
        call_ensures(is_success, (status,), good),
        call_ensures(describe_failure, (status, reason, body), words),
    ensures
        json_outcome(result) == reply.outcome(),
        good <==> 200 <= status <= 299,
        words@ == decimal(status as nat) + " "@ + (match reason {
            Some(text) => text@,
            None => Seq::empty(),
        }) + ": "@ + body@,
{
    reveal_strlit("");
    assert(""@ =~= Seq::<char>::empty());
}

/// A session begins and goes on as its stage and what came of its last action say, and counts
/// that.
pub proof fn law_session_steps(
    interval: TimeSpan,
    publisher: &MqttPublisher,
    begun: (Session, Action),
    session: Session,
    event: Event,
    now: TimeSpan,
    stats: &mut RuntimeStats,
    next: (Session, Action),
)
    requires
        call_ensures(Session::start, (interval, publisher), begun),
        call_ensures(Session::step, (session, event, now, publisher, stats), next),
    ensures
        ({
            let world = World { publisher: publisher@, interval: interval@, now: 0 };
            let (first, action) = begun;
            &&& first.pause() == interval@
            &&& first@ == world.begun().stage
            &&& action@ == world.begun().act
        }),
        ({
            let world = World { publisher: publisher@, interval: session.pause(), now: now@ };
            let (after, action) = next;
            &&& after.pause() == session.pause()
            &&& after@ == world.turn(session@, event@).stage
            &&& action@ == world.turn(session@, event@).act
        }),
        final(stats)@ == counted(session@, event@, old(stats)@),
{
}

/// A session awaits what its stage awaits.
pub proof fn law_session_awaits(session: &Session, event: &Event, yes: bool)
    requires
        call_ensures(Session::awaits, (session, event), yes),
    ensures
        yes <==> session@.awaits(event@),
{
}

/// The adapter stops behind a session that ended well, and begins the next one behind one that
/// failed, once the delay is over; that counts as a recovery, and nothing else does.
pub proof fn law_session_over(
    result: AppResult<()>,
    backoff: &mut ReconnectBackoff,
    stats: &mut RuntimeStats,
    next: AfterSession,
)
    requires
        call_ensures(after_session, (result, backoff, stats), next),
    ensures
        result is Ok ==> {
            &&& next is Finish
            &&& final(backoff)@.current == old(backoff)@.initial
            &&& final(stats)@ == old(stats)@
        },
        result is Err ==> {
            &&& next matches AfterSession::Retry { delay, failure } && delay@ == old(
                backoff,
            )@.current && failure@ == result->Err_0@
            &&& final(backoff)@.current == (if 2 * old(backoff)@.current <= old(backoff)@.max {
                2 * old(backoff)@.current
            } else {
                old(backoff)@.max
            })
            &&& final(stats)@.recoveries == crate::laws::session::one_more(
                old(stats)@.recoveries,
                true,
            )
            &&& final(stats)@.successful_polls == old(stats)@.successful_polls
            &&& final(stats)@.failed_polls == old(stats)@.failed_polls
            &&& final(stats)@.schedule_fetches == old(stats)@.schedule_fetches
            &&& final(stats)@.schedule_writes == old(stats)@.schedule_writes
            &&& final(stats)@.mqtt_messages_sent == old(stats)@.mqtt_messages_sent
            &&& final(stats)@.commands_received == old(stats)@.commands_received
        },
        final(backoff)@.initial == old(backoff)@.initial,
        final(backoff)@.max == old(backoff)@.max,
{
}

/// Every delay is the one that is due, and the next one is twice as long, up to the longest.
pub proof fn law_delay_taken(backoff: &mut ReconnectBackoff, delay: TimeSpan)
    requires
        call_ensures(ReconnectBackoff::next_delay, (backoff,), delay),
    ensures
        delay@ == old(backoff)@.current,
        final(backoff)@.current == (if 2 * old(backoff)@.current <= old(backoff)@.max {
            2 * old(backoff)@.current
        } else {
            old(backoff)@.max
        }),
        final(backoff)@.initial == old(backoff)@.initial,
        final(backoff)@.max == old(backoff)@.max,
{
}

/// The delays start with the first one, and start over with it.
pub proof fn law_delays_start(
    initial: TimeSpan,
    max: TimeSpan,
    fresh: ReconnectBackoff,
    backoff: &mut ReconnectBackoff,
)
    requires
        call_ensures(ReconnectBackoff::new, (initial, max), fresh),
        call_ensures(ReconnectBackoff::reset, (backoff,), ()),
    ensures
        fresh@.current == initial@,
        fresh@.initial == initial@,
        fresh@.max == max@,
        final(backoff)@.current == old(backoff)@.initial,
        final(backoff)@.initial == old(backoff)@.initial,
        final(backoff)@.max == old(backoff)@.max,
{
}

/// A snapshot holds every counter, and is reported with how much each grew since the last one.
pub proof fn law_counters_reported(
    stats: &RuntimeStats,
    uptime: TimeSpan,
    snapshot: StatsSnapshot,
    previous: &StatsSnapshot,
    line: Option<String>,
    delta: &StatsDelta,
    summary: String,
    fresh: RuntimeStats,
)
    requires
        call_ensures(RuntimeStats::snapshot, (stats, uptime), snapshot),
        call_ensures(report, (&snapshot, previous), line),
        call_ensures(format_summary, (&snapshot, delta), summary),
        call_ensures(RuntimeStats::new_shared, (), fresh),
    ensures
        snapshot.uptime == uptime,
        snapshot.successful_polls == stats@.successful_polls,
        snapshot.failed_polls == stats@.failed_polls,
        snapshot.schedule_fetches == stats@.schedule_fetches,
        snapshot.schedule_writes == stats@.schedule_writes,
        snapshot.mqtt_messages_sent == stats@.mqtt_messages_sent,
        snapshot.commands_received == stats@.commands_received,
        snapshot.recoveries == stats@.recoveries,
        line is Some <==> snapshot.follows(*previous),
        line is Some ==> line->0@ == summary_line(snapshot, snapshot.growth(*previous)),
        summary@ == summary_line(snapshot, *delta),
        fresh@.successful_polls == 0 && fresh@.failed_polls == 0 && fresh@.schedule_fetches == 0
            && fresh@.schedule_writes == 0 && fresh@.mqtt_messages_sent == 0
            && fresh@.commands_received == 0 && fresh@.recoveries == 0,
{
}

/// What was recorded is counted under its own name.
pub proof fn law_each_counted(
    a: &mut RuntimeStats,
    b: &mut RuntimeStats,
    c: &mut RuntimeStats,
    d: &mut RuntimeStats,
    e: &mut RuntimeStats,
    f: &mut RuntimeStats,
    g: &mut RuntimeStats,
)
    requires
        call_ensures(RuntimeStats::record_successful_poll, (a,), ()),
        call_ensures(RuntimeStats::record_failed_poll, (b,), ()),
        call_ensures(RuntimeStats::record_schedule_fetch, (c,), ()),
        call_ensures(RuntimeStats::record_schedule_write, (d,), ()),
        call_ensures(RuntimeStats::record_mqtt_message_sent, (e,), ()),
        call_ensures(RuntimeStats::record_command_received, (f,), ()),
        call_ensures(RuntimeStats::record_recovery, (g,), ()),
    ensures
        final(a)@ == crate::laws::stats::Record::SuccessfulPoll.counted(old(a)@),
        final(b)@ == crate::laws::stats::Record::FailedPoll.counted(old(b)@),
        final(c)@ == crate::laws::stats::Record::ScheduleFetch.counted(old(c)@),
        final(d)@ == crate::laws::stats::Record::ScheduleWrite.counted(old(d)@),
        final(e)@ == crate::laws::stats::Record::MqttMessageSent.counted(old(e)@),
        final(f)@ == crate::laws::stats::Record::CommandReceived.counted(old(f)@),
        final(g)@ == crate::laws::stats::Record::Recovery.counted(old(g)@),
{
}

/// A length of time is told in hours, minutes and seconds.
pub proof fn law_clock(duration: &TimeSpan, text: String)
    requires
        call_ensures(format_duration, (duration,), text),
    ensures
        ({
            let seconds = duration@ / 1_000_000_000;
            text@ == two_digits(seconds / 3600) + ":"@ + two_digits((seconds / 60) % 60) + ":"@
                + two_digits(seconds % 60)
        }),
{
    let seconds = duration@ / 1_000_000_000;
    assert((seconds % 3600) / 60 == (seconds / 60) % 60);
}

/// A command line gives the configuration that it says, or the first thing that is wrong with
/// it.
pub proof fn law_configured(args: CliArgs, result: AppResult<AppConfig>)
    requires
        call_ensures(CliArgs::into_config, (args,), result),
    ensures
        result is Ok <==> args.fault() is None,
        result is Ok ==> args.described_by(result->Ok_0),
        result is Err ==> args.fault() == Some(result->Err_0@),
{
}

/// A secret and a prefix are read as they are given, or refused.
pub proof fn law_given(
    field_name: &str,
    inline: Option<String>,
    file: Option<SecretFile>,
    found: AppResult<Option<String>>,
    value: &str,
    segment: AppResult<String>,
)
    requires
        call_ensures(load_secret, (field_name, inline, file), found),
        call_ensures(normalize_topic_segment, (value, field_name), segment),
    ensures
        match secret(field_name@, inline, file) {
            Ok(None) => found is Ok && found->Ok_0 is None,
            Ok(Some(text)) => found is Ok && found->Ok_0 is Some && found->Ok_0->0@ == text,
            Err(fault) => found is Err && found->Err_0@ == fault,
        },
        ({
            let rest = drop_ends(trimmed(value@), set!['/']);
            &&& rest.len() > 0 ==> segment is Ok && segment->Ok_0@ == rest
            &&& rest.len() == 0 ==> segment is Err && segment->Err_0@ == Fault::InvalidConfig(
                field_name@ + " cannot be empty"@,
            )
        }),
{
}

/// A number under a name is found there, in place of the one that was, and every other name
/// keeps its own.
pub proof fn law_readings_kept(
    readings: &mut Readings,
    name: String,
    value: Double,
    other: &Readings,
    wanted: &str,
    found: Option<&Double>,
    names: Vec<String>,
    text: Seq<char>,
)
    requires
        call_ensures(Readings::insert, (readings, name, value), ()),
        call_ensures(Readings::get, (other, wanted), found),
        call_ensures(Readings::names, (other,), names),
    ensures
        final(readings)@.dom().contains(name@),
        final(readings)@[name@] == value@,
        text != name@ ==> final(readings)@.dom().contains(text) == old(readings)@.dom().contains(
            text,
        ) && final(readings)@[text] == old(readings)@[text],
        found is Some <==> other@.dom().contains(wanted@),
        found is Some ==> found->0@ == other@[wanted@],
        texts_of(names@).contains(text) <==> other@.dom().contains(text),
        ascending(texts_of(names@)),
{
}

/// Readings that no sensor shows, and sensors that have no reading, are told.
pub proof fn law_strangers_told(
    readings: &Readings,
    defs: &Vec<SensorDef>,
    extra: Vec<String>,
    absent: Vec<String>,
    name: Seq<char>,
)
    requires
        call_ensures(unshown, (readings, defs), extra),
        call_ensures(missing, (readings, defs), absent),
    ensures
        ascending(texts_of(extra@)),
        texts_of(extra@).contains(name) <==> readings@.dom().contains(name) && !shows(
            sensors(defs@),
            name,
        ),
        texts_of(absent@) == missing_of(sensors(defs@), readings@, defs@.len()),
{
}

/// A literal is read as the number that it denotes, and a number is written as the service
/// takes it.
pub proof fn law_numbers(
    text: &str,
    read: Result<Double, String>,
    value: &Double,
    written: String,
)
    requires
        call_ensures(Double::parse, (text,), read),
        call_ensures(format_float, (value,), written),
    ensures
        read is Ok <==> float_read(text@) is Some,
        read is Ok ==> float_read(text@) == Some(read->Ok_0@),
        read is Err ==> read->Err_0@ == float_error(text@),
        written@ == float_text(value@),
{
}

/// Whether a double is whole or within a range is told as it is, and within the range it is cut
/// and rounded to what it is.
pub proof fn law_bits(
    bits: u64,
    top: u8,
    entire: bool,
    inside: bool,
    cut: u8,
    near: u8,
)
    requires
        call_ensures(is_whole, (bits,), entire),
        call_ensures(is_within, (bits, top), inside),
        call_ensures(crate::double::truncate, (bits,), cut),
        call_ensures(crate::double::round, (bits,), near),
    ensures
        entire <==> crate::double::whole(bits),
        inside <==> within(bits, top as nat),
        within(bits, 255) ==> cut == truncated(bits),
        within(bits, 100) ==> near == rounded(bits),
{
}

/// Lengths of time are what they are made of; twice one, the shorter of two, two after one
/// another, and what is left of one.
pub proof fn law_times(
    secs: u64,
    millis: u64,
    a: &TimeSpan,
    b: &TimeSpan,
    from_secs: TimeSpan,
    from_millis: TimeSpan,
    twice: TimeSpan,
    less: TimeSpan,
    sum: TimeSpan,
    rest: TimeSpan,
    shorter: bool,
)
    requires
        call_ensures(TimeSpan::from_secs, (secs,), from_secs),
        call_ensures(TimeSpan::from_millis, (millis,), from_millis),
        call_ensures(TimeSpan::doubled, (a,), twice),
        call_ensures(TimeSpan::shorter, (a, b), less),
        call_ensures(TimeSpan::plus, (a, b), sum),
        call_ensures(TimeSpan::minus, (a, b), rest),
        call_ensures(TimeSpan::is_shorter, (a, b), shorter),
    ensures
        from_secs@ == secs * 1_000_000_000,
        from_millis@ == millis * 1_000_000,
        2 * a@ <= crate::time::longest() ==> twice@ == 2 * a@,
        2 * a@ > crate::time::longest() ==> twice@ == crate::time::longest(),
        less@ <= a@ && less@ <= b@ && (less@ == a@ || less@ == b@),
        a@ + b@ <= crate::time::longest() ==> sum@ == a@ + b@,
        a@ + b@ > crate::time::longest() ==> sum@ == crate::time::longest(),
        b@ <= a@ ==> rest@ + b@ == a@,
        shorter <==> a@ < b@,
{
}

/// An error is told in the words of its kind.
pub proof fn law_error_told(error: &AppError, message: String)
    requires
        call_ensures(AppError::message, (error,), message),
    ensures
        message@ == error@.message(),
{
}

/// The modes have their names and their numbers, and are found by them.
pub proof fn law_mode_operations(
    mode: ScheduleMode,
    name: &'static str,
    value: u8,
    text: &str,
    found: AppResult<ScheduleMode>,
    idle: Schedule,
)
    requires
        call_ensures(ScheduleMode::display_name, (mode,), name),
        call_ensures(ScheduleMode::as_api_int, (mode,), value),
        call_ensures(ScheduleMode::from_display_name, (text,), found),
        call_ensures(Schedule::disabled, (), idle),
    ensures
        name@ == (match mode {
            ScheduleMode::Disable => "Disable"@,
            ScheduleMode::ForcedCharge => "Forced Charge"@,
            ScheduleMode::ForcedDischarge => "Forced Discharge"@,
        }),
        value == (match mode {
            ScheduleMode::Disable => 0u8,
            ScheduleMode::ForcedCharge => 1u8,
            ScheduleMode::ForcedDischarge => 2u8,
        }),
        found is Ok ==> text@ == (match found->Ok_0 {
            ScheduleMode::Disable => "Disable"@,
            ScheduleMode::ForcedCharge => "Forced Charge"@,
            ScheduleMode::ForcedDischarge => "Forced Discharge"@,
        }),
        found is Err ==> text@ != "Disable"@ && text@ != "Forced Charge"@ && text@
            != "Forced Discharge"@ && found->Err_0@ == Fault::InvalidState(
            "unknown schedule mode display name: "@ + text@,
        ),
        idle.mode == ScheduleMode::Disable && idle.start_time@ == "00:00:00"@ && idle.end_time@
            == "00:00:00"@,
{
}

/// A new client knows the account and the address that it is given, and nothing more; it
/// waits as long as it is told.
pub proof fn law_client_made(
    config: QcoreConfig,
    result: AppResult<(QcoreClient, HttpSettings)>,
)
    requires
        call_ensures(QcoreClient::new, (config,), result),
    ensures
        result is Ok,
        ({
            let (client, settings) = result->Ok_0;
            &&& client@.api_url == config.api_url@
            &&& client@.login == config.login@
            &&& client@.password == config.password@
            &&& client@.token is None
            &&& client@.device_id is None
            &&& settings.user_agent@
                == "Mozilla/5.0 (X11; Linux x86_64; rv:124.0) Gecko/20100101 Firefox/124.0"@
            &&& headers_of(settings.headers) == fields_of(default_fields())
            &&& settings.timeout == config.http_timeout
            &&& settings.pool_idle_timeout@ == 90_000_000_000
        }),
{
}

/// A token is forgotten, and nothing else is.
pub proof fn law_token_forgotten(client: &mut QcoreClient)
    requires
        call_ensures(QcoreClient::invalidate_token, (client,), ()),
    ensures
        final(client)@.token is None,
        final(client)@.device_id == old(client)@.device_id,
        final(client)@.login == old(client)@.login,
        final(client)@.password == old(client)@.password,
        final(client)@.api_url == old(client)@.api_url,
{
}

/// A request is sent where it goes, with what it sends.
pub proof fn law_request_sent(request: &AuthorizedRequest, url: &str, body: Option<&str>)
    requires
        call_ensures(AuthorizedRequest::url, (request,), url),
        call_ensures(AuthorizedRequest::body, (request,), body),
    ensures
        url@ == request@.url,
        body is Some <==> request@.body is Some,
        body is Some ==> body->0@ == request@.body->0,
{
}

/// A recovery takes the delay that is due, and counts as one.
pub proof fn law_recovered(
    backoff: &mut ReconnectBackoff,
    stats: &mut RuntimeStats,
    delay: TimeSpan,
)
    requires
        call_ensures(recover, (backoff, stats), delay),
    ensures
        delay@ == old(backoff)@.current,
        final(backoff)@.current == (if 2 * old(backoff)@.current <= old(backoff)@.max {
            2 * old(backoff)@.current
        } else {
            old(backoff)@.max
        }),
        final(backoff)@.initial == old(backoff)@.initial,
        final(backoff)@.max == old(backoff)@.max,
        final(stats)@ == crate::laws::stats::Record::Recovery.counted(old(stats)@),
{
}

/// A document goes out under the topic that it is meant for, and is kept there where that is
/// wanted; a connection that is lost is told of in the words of its reason.
pub proof fn law_document_sent(
    publisher: &MqttPublisher,
    topic: String,
    retain: bool,
    payload: &Value,
    message: Message,
    reason: &StopReason,
    words: String,
)
    requires
        call_ensures(MqttPublisher::publish_json, (publisher, topic, retain, payload), message),
        call_ensures(StopReason::message, (reason,), words),
    ensures
        message.topic@ == topic@,
        message.retain == retain,
        message.payload@ == compact_text(json_of(*payload)),
        words@ == (match *reason {
            StopReason::Exhausted => "mqtt event loop stopped unexpectedly"@,
            StopReason::ReceiverDropped => "command receiver dropped"@,
            StopReason::Failed(error) => "mqtt event loop stopped: "@ + error@,
        }),
{
}

}
