//! What holds of the mathematical views: each stands for what its value holds, part by part.
use serde_json::Value;
use vstd::prelude::*;

use crate::command::{gives, Command, CommandMessage};
use crate::dashboard::{widgets_of, DashboardWidget};
use crate::discovery::{sensors, SensorDef};
use crate::error::{AppError, Fault};
use crate::http::{json_outcome, plain_outcome, text_outcome};
use crate::json::{json_of, jsons_of, Json};
use crate::model::{slots, DailyScheduleConfig, QcData, Schedule, ScheduleMode};
use crate::mqtt::{letters, Message};
use crate::qcore::{
    data_outcome, schedule_outcome, ApiCall, Call, ScheduleState, ScheduleStep, TokenState, TokenStep,
    WriteState, WriteStep,
};
use crate::session::{Act, Action, Event, Outcome};
use crate::text::texts_of;
use crate::time::TimeSpan;

verus! {

broadcast use vstd::string::group_string_axioms;

/// A command stands for itself.
pub proof fn law_commands_viewed(on: bool, percent: u8, slot: usize, mode: ScheduleMode, text: String)
    ensures
        CommandMessage::ScheduleEnabled(on)@ == Command::ScheduleEnabled(on),
        CommandMessage::MinSoc(percent)@ == Command::MinSoc(percent),
        CommandMessage::MaxSoc(percent)@ == Command::MaxSoc(percent),
        (CommandMessage::ScheduleMode { slot, mode })@ == (Command::ScheduleMode {
            slot: slot as nat,
            mode,
        }),
        (CommandMessage::ScheduleStart { slot, value: text })@ == (Command::ScheduleStart {
            slot: slot as nat,
            value: text@,
        }),
        (CommandMessage::ScheduleEnd { slot, value: text })@ == (Command::ScheduleEnd {
            slot: slot as nat,
            value: text@,
        }),
        CommandMessage::HomeAssistantOnline@ == Command::HomeAssistantOnline,
{
}

/// What a message is taken for is what it is described to be, and nothing else.
pub proof fn law_results_given(command: CommandMessage, error: AppError, described: Result<Option<Command>, Fault>)
    ensures
        gives(Ok(Some(command)), described) <==> described == Ok::<Option<Command>, Fault>(
            Some(command@),
        ),
        gives(Ok(None), described) <==> described == Ok::<Option<Command>, Fault>(None),
        gives(Err(error), described) <==> described == Err::<Option<Command>, Fault>(error@),
{
}

/// An error stands for its kind and its words, and is told in both.
pub proof fn law_errors_viewed(text: String)
    ensures
        AppError::InvalidConfig(text)@ == Fault::InvalidConfig(text@),
        AppError::InvalidState(text)@ == Fault::InvalidState(text@),
        AppError::MqttDisconnected(text)@ == Fault::MqttDisconnected(text@),
        AppError::QcoreApi(text)@ == Fault::QcoreApi(text@),
        AppError::Io(text)@ == Fault::Io(text@),
        AppError::Http(text)@ == Fault::Http(text@),
        AppError::MqttClient(text)@ == Fault::MqttClient(text@),
        AppError::Json(text)@ == Fault::Json(text@),
        Fault::InvalidConfig(text@).message() == "invalid configuration: "@ + text@,
        Fault::InvalidState(text@).message() == "invalid state: "@ + text@,
        Fault::MqttDisconnected(text@).message() == "mqtt disconnected: "@ + text@,
        Fault::QcoreApi(text@).message() == "qendercore api error: "@ + text@,
        Fault::Io(text@).message() == "i/o error: "@ + text@,
        Fault::Http(text@).message() == "http error: "@ + text@,
        Fault::MqttClient(text@).message() == "mqtt client error: "@ + text@,
        Fault::Json(text@).message() == "json error: "@ + text@,
{
}

/// A schedule stands for its settings and its slots, one by one.
pub proof fn law_schedules_viewed(config: DailyScheduleConfig, schedule: Schedule, at: int)
    ensures
        schedule@.mode == schedule.mode,
        schedule@.start_time == schedule.start_time@,
        schedule@.end_time == schedule.end_time@,
        config@.state_enabled == config.state_enabled,
        config@.force_charge_current == config.force_charge_current@,
        config@.force_discharge_current == config.force_discharge_current@,
        config@.min_soc == config.min_soc,
        config@.max_soc == config.max_soc,
        config@.schedules.len() == config.schedules@.len(),
        0 <= at < config.schedules@.len() ==> config@.schedules[at] == config.schedules@[at]@,
{
}

/// Readings stand for the flows and the meters.
pub proof fn law_data_viewed(data: QcData)
    ensures
        data@.status == data.status@,
        data@.energy == data.energy@,
{
}

/// A sequence stands for its elements, one by one.
pub proof fn law_sequences_viewed(
    messages: Seq<Message>,
    texts: Seq<String>,
    values: Seq<Value>,
    widgets: Seq<DashboardWidget>,
    defs: Seq<SensorDef>,
    schedules: Seq<Schedule>,
    at: int,
)
    ensures
        letters(messages).len() == messages.len(),
        0 <= at < messages.len() ==> {
            &&& letters(messages)[at].topic == messages[at].topic@
            &&& letters(messages)[at].retain == messages[at].retain
            &&& letters(messages)[at].payload == messages[at].payload@
        },
        texts_of(texts).len() == texts.len(),
        0 <= at < texts.len() ==> texts_of(texts)[at] == texts[at]@,
        jsons_of(values).len() == values.len(),
        0 <= at < values.len() ==> jsons_of(values)[at] == json_of(values[at]),
        widgets_of(widgets).len() == widgets.len(),
        0 <= at < widgets.len() ==> {
            &&& widgets_of(widgets)[at].datafetch == json_of(widgets[at].datafetch)
            &&& widgets_of(widgets)[at].echart_opts == json_of(widgets[at].echart_opts)
            &&& widgets_of(widgets)[at].title == widgets[at].title@
        },
        sensors(defs).len() == defs.len(),
        0 <= at < defs.len() ==> {
            &&& sensors(defs)[at].api_key == defs[at].api_key@
            &&& sensors(defs)[at].unique_id == defs[at].unique_id@
            &&& sensors(defs)[at].name == defs[at].name@
            &&& sensors(defs)[at].device_class == defs[at].device_class@
            &&& sensors(defs)[at].unit == defs[at].unit@
        },
        slots(schedules).len() == schedules.len(),
        0 <= at < schedules.len() ==> slots(schedules)[at] == schedules[at]@,
{
}

/// A result stands for what it holds, or for its error.
pub proof fn law_results_viewed(
    value: Value,
    text: String,
    data: QcData,
    config: DailyScheduleConfig,
    error: AppError,
)
    ensures
        json_outcome(Ok(value)) == Ok::<Json, Fault>(json_of(value)),
        json_outcome(Err(error)) == Err::<Json, Fault>(error@),
        text_outcome(Ok(text)) == Ok::<Seq<char>, Fault>(text@),
        text_outcome(Err(error)) == Err::<Seq<char>, Fault>(error@),
        plain_outcome(Ok(())) is Ok,
        plain_outcome(Err(error)) == Err::<(), Fault>(error@),
        data_outcome(Ok(data)) == Ok::<crate::model::Data, Fault>(data@),
        data_outcome(Err(error)) == Err::<crate::model::Data, Fault>(error@),
        schedule_outcome(Ok(config)) == Ok::<crate::model::DailySchedule, Fault>(config@),
        schedule_outcome(Err(error)) == Err::<crate::model::DailySchedule, Fault>(error@),
{
}

/// An action stands for what is to be done.
pub proof fn law_actions_viewed(
    message: Message,
    topic: String,
    config: DailyScheduleConfig,
    timeout: TimeSpan,
    error: AppError,
)
    ensures
        Action::Publish(message)@ == Act::Publish(message@),
        Action::Subscribe(topic)@ == Act::Subscribe(topic@),
        Action::FetchData@ == Act::FetchData,
        Action::FetchSchedule@ == Act::FetchSchedule,
        Action::WriteSchedule(config)@ == Act::WriteSchedule(config@),
        (Action::Receive { timeout })@ == (Act::Receive { timeout: timeout@ }),
        Action::PublishOffline(message)@ == Act::PublishOffline(message@),
        Action::End(error)@ == Act::End(error@),
{
}

/// An event stands for what came of an action.
pub proof fn law_events_viewed(
    done: Result<(), AppError>,
    data: Result<QcData, AppError>,
    config: Result<DailyScheduleConfig, AppError>,
    command: CommandMessage,
)
    ensures
        Event::Published(done)@ == Outcome::Published(plain_outcome(done)),
        Event::Subscribed(done)@ == Outcome::Subscribed(plain_outcome(done)),
        Event::Data(data)@ == Outcome::Data(data_outcome(data)),
        Event::Schedule(config)@ == Outcome::Schedule(schedule_outcome(config)),
        Event::Written(done)@ == Outcome::Written(plain_outcome(done)),
        Event::Command(command)@ == Outcome::Command(command@),
        Event::Timeout@ == Outcome::Timeout,
        Event::Closed@ == Outcome::Closed,
        Event::OfflinePublished(done)@ == Outcome::OfflinePublished(plain_outcome(done)),
{
}

/// A call of the service stands for its path and its body.
pub proof fn law_calls_viewed(path: String, body: Value)
    ensures
        (ApiCall::Get { path })@ == (Call::Get { path: path@ }),
        (ApiCall::Post { path, body })@ == (Call::Post { path: path@, body: json_of(body) }),
{
}

/// A step stands for what is to be done next, and with what.
pub proof fn law_steps_viewed(
    text: String,
    other: String,
    body: Value,
    found: Result<String, AppError>,
    config: Result<DailyScheduleConfig, AppError>,
    answer: Result<Value, AppError>,
)
    ensures
        TokenStep::ReadFile@ == TokenState::ReadFile,
        (TokenStep::Validate { token: text })@ == (TokenState::Validate { token: text@ }),
        TokenStep::Login@ == TokenState::Login,
        (TokenStep::Store { token: text })@ == (TokenState::Store { token: text@ }),
        TokenStep::Done(found)@ == TokenState::Done(text_outcome(found)),
        ScheduleStep::Device@ == ScheduleState::Device,
        (ScheduleStep::Hardware { device_id: text })@ == (ScheduleState::Hardware { device: text@ }),
        (ScheduleStep::Schedule { device_id: text, enchwt: other })@ == (ScheduleState::Schedule {
            device: text@,
            enchwt: other@,
        }),
        ScheduleStep::Done(config)@ == ScheduleState::Done(schedule_outcome(config)),
        (WriteStep::Device { body })@ == (WriteState::Device { body: json_of(body) }),
        (WriteStep::Send { device_id: text, body })@ == (WriteState::Send {
            device: text@,
            body: json_of(body),
        }),
        WriteStep::Done(answer)@ == WriteState::Done(json_outcome(answer)),
{
}

}
