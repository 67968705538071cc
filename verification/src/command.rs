//! The commands that the adapter takes, and how messages carry them.
use vstd::prelude::*;
use vstd::string::StringExecFns;
use vstd::utf8::{decode_utf8, valid_utf8};

use crate::double::{
    float_error, float_read, is_within, plain_text, round, rounded, within, Double,
};
use crate::error::{AppError, AppResult, Fault};
use crate::model::{mode_named, unknown_mode_name, ScheduleMode, SCHEDULE_COUNT};
use crate::text::{after_prefix, before_suffix, parse_unsigned, same, unsigned_value};

verus! {

broadcast use vstd::string::group_string_axioms;

/// A message for the adapter.
#[derive(Debug, PartialEq, Eq)]
pub enum CommandMessage {
    ScheduleEnabled(bool),
    MinSoc(u8),
    MaxSoc(u8),
    ScheduleMode { slot: usize, mode: ScheduleMode },
    ScheduleStart { slot: usize, value: String },
    ScheduleEnd { slot: usize, value: String },
    /// Home Assistant announced itself online; discovery and state are published again.
    HomeAssistantOnline,
}

/// A message for the adapter by the characters of its texts.
pub enum Command {
    ScheduleEnabled(bool),
    MinSoc(u8),
    MaxSoc(u8),
    ScheduleMode { slot: nat, mode: ScheduleMode },
    ScheduleStart { slot: nat, value: Seq<char> },
    ScheduleEnd { slot: nat, value: Seq<char> },
    HomeAssistantOnline,
}

impl View for CommandMessage {
    type V = Command;

    open spec fn view(&self) -> Command {
        match self {
            CommandMessage::ScheduleEnabled(on) => Command::ScheduleEnabled(*on),
            CommandMessage::MinSoc(value) => Command::MinSoc(*value),
            CommandMessage::MaxSoc(value) => Command::MaxSoc(*value),
            CommandMessage::ScheduleMode { slot, mode } => Command::ScheduleMode {
                slot: *slot as nat,
                mode: *mode,
            },
            CommandMessage::ScheduleStart { slot, value } => Command::ScheduleStart {
                slot: *slot as nat,
                value: value@,
            },
            CommandMessage::ScheduleEnd { slot, value } => Command::ScheduleEnd {
                slot: *slot as nat,
                value: value@,
            },
            CommandMessage::HomeAssistantOnline => Command::HomeAssistantOnline,
        }
    }
}

impl Clone for CommandMessage {
    fn clone(&self) -> (copy: Self)
        ensures
            copy@ == self@,
    {
        match self {
            CommandMessage::ScheduleEnabled(on) => CommandMessage::ScheduleEnabled(*on),
            CommandMessage::MinSoc(value) => CommandMessage::MinSoc(*value),
            CommandMessage::MaxSoc(value) => CommandMessage::MaxSoc(*value),
            CommandMessage::ScheduleMode { slot, mode } => CommandMessage::ScheduleMode {
                slot: *slot,
                mode: *mode,
            },
            CommandMessage::ScheduleStart { slot, value } => CommandMessage::ScheduleStart {
                slot: *slot,
                value: value.clone(),
            },
            CommandMessage::ScheduleEnd { slot, value } => CommandMessage::ScheduleEnd {
                slot: *slot,
                value: value.clone(),
            },
            CommandMessage::HomeAssistantOnline => CommandMessage::HomeAssistantOnline,
        }
    }
}

/// A message that the broker delivered.
#[derive(Debug)]
pub struct Publish {
    pub topic: String,
    pub payload: Vec<u8>,
}

/// How `std::str::from_utf8` words that bytes are no UTF-8.
pub uninterp spec fn utf8_error(bytes: Seq<u8>) -> Seq<char>;

/// `std::str::from_utf8`: the text that the bytes encode, or the words of its error.
#[verifier::external_body]
fn read_utf8(bytes: &Vec<u8>) -> (result: Result<&str, String>)
    ensures
        match result {
            Ok(text) => valid_utf8(bytes@) && text@ == decode_utf8(bytes@),
            Err(message) => !valid_utf8(bytes@) && message@ == utf8_error(bytes@),
        },
{
    std::str::from_utf8(bytes).map_err(|error| error.to_string())
}

/// What a state of charge must be.
pub open spec fn soc_out_of_range(bits: u64) -> Fault {
    Fault::InvalidState("soc value "@ + plain_text(bits) + " out of range 0..=100"@)
}

/// What is said of a text that is no number.
pub open spec fn soc_invalid(text: Seq<char>) -> Fault {
    Fault::InvalidState("soc value '"@ + text + "' invalid: "@ + float_error(text))
}

/// The state of charge that a text gives, in percent.
pub open spec fn soc(text: Seq<char>) -> Result<u8, Fault> {
    match float_read(text) {
        Some(bits) => if within(bits, 100) {
            Ok(rounded(bits) as u8)
        } else {
            Err(soc_out_of_range(bits))
        },
        None => Err(soc_invalid(text)),
    }
}

/// The slot in a key of the form `schedule_<slot><tail>`.
pub open spec fn slot_in(key: Seq<char>, tail: Seq<char>) -> Option<nat> {
    let head = "schedule_"@;
    if head.is_prefix_of(key) && tail.is_suffix_of(key.skip(head.len() as int)) {
        match unsigned_value(key.subrange(head.len() as int, key.len() - tail.len())) {
            Some(slot) => if 1 <= slot <= SCHEDULE_COUNT {
                Some(slot)
            } else {
                None
            },
            None => None,
        }
    } else {
        None
    }
}

/// The command that a text under a key is.
pub open spec fn command_for(key: Seq<char>, text: Seq<char>) -> Result<Option<Command>, Fault> {
    if key == "schedule_enabled"@ {
        if text == "ON"@ {
            Ok(Some(Command::ScheduleEnabled(true)))
        } else if text == "OFF"@ {
            Ok(Some(Command::ScheduleEnabled(false)))
        } else {
            Err(Fault::InvalidState("schedule_enabled expected ON/OFF, got "@ + text))
        }
    } else if key == "min_soc"@ {
        match soc(text) {
            Ok(value) => Ok(Some(Command::MinSoc(value))),
            Err(fault) => Err(fault),
        }
    } else if key == "max_soc"@ {
        match soc(text) {
            Ok(value) => Ok(Some(Command::MaxSoc(value))),
            Err(fault) => Err(fault),
        }
    } else if slot_in(key, "_mode"@) is Some {
        match mode_named(text) {
            Some(mode) => Ok(Some(Command::ScheduleMode { slot: slot_in(key, "_mode"@)->0, mode })),
            None => Err(unknown_mode_name(text)),
        }
    } else if slot_in(key, "_start"@) is Some {
        Ok(Some(Command::ScheduleStart { slot: slot_in(key, "_start"@)->0, value: text }))
    } else if slot_in(key, "_end"@) is Some {
        Ok(Some(Command::ScheduleEnd { slot: slot_in(key, "_end"@)->0, value: text }))
    } else {
        Ok(None)
    }
}

/// The topic under which commands for `key` come.
pub open spec fn command_topic_of(topic_prefix: Seq<char>, key: Seq<char>) -> Seq<char> {
    topic_prefix + "/cmd/"@ + key
}

/// The command that a message is. A topic outside the command topics, or one that is not
/// known, is none.
pub open spec fn decoded(
    topic_prefix: Seq<char>,
    topic: Seq<char>,
    payload: Seq<u8>,
) -> Result<Option<Command>, Fault> {
    let head = topic_prefix + "/cmd/"@;
    if !head.is_prefix_of(topic) {
        Ok(None)
    } else if !valid_utf8(payload) {
        Err(Fault::InvalidState("non-utf8 payload on "@ + topic + ": "@ + utf8_error(payload)))
    } else {
        command_for(topic.skip(head.len() as int), decode_utf8(payload))
    }
}

/// Whether a result is the one described: the same command, or the same error.
pub open spec fn gives(
    result: AppResult<Option<CommandMessage>>,
    described: Result<Option<Command>, Fault>,
) -> bool {
    match (result, described) {
        (Ok(Some(command)), Ok(Some(expected))) => command@ == expected,
        (Ok(None), Ok(None)) => true,
        (Err(error), Err(fault)) => error@ == fault,
        _ => false,
    }
}

/// The state of charge that a number gives, in percent: from zero to one hundred, rounded
/// to the nearest whole number.
pub fn checked_soc(value: &Double) -> (result: AppResult<u8>)
    ensures
        match result {
            Ok(percent) => within(value@, 100) && percent == rounded(value@) && percent <= 100,
            Err(error) => !within(value@, 100) && error@ == soc_out_of_range(value@),
        },
{
    if !is_within(value.to_bits(), 100) {
        let mut text = "soc value ".to_string();
        text.append(value.plain().as_str());
        text.append(" out of range 0..=100");
        return Err(AppError::InvalidState(text));
    }
    Ok(round(value.to_bits()))
}

/// The state of charge that a text gives, in percent.
pub fn parse_soc(value: &str) -> (result: AppResult<u8>)
    ensures
        match result {
            Ok(percent) => soc(value@) == Ok::<u8, Fault>(percent) && percent <= 100,
            Err(error) => soc(value@) == Err::<u8, Fault>(error@),
        },
{
    match Double::parse(value) {
        Ok(parsed) => checked_soc(&parsed),
        Err(error) => {
            let mut text = "soc value '".to_string();
            text.append(value);
            text.append("' invalid: ");
            text.append(error.as_str());
            Err(AppError::InvalidState(text))
        },
    }
}

/// The slot in a key of the form `schedule_<slot><tail>`.
pub fn parse_schedule_slot(suffix: &str, tail: &str) -> (slot: Option<usize>)
    ensures
        match slot {
            Some(n) => slot_in(suffix@, tail@) == Some(n as nat),
            None => slot_in(suffix@, tail@) is None,
        },
{
    let stripped = match after_prefix(suffix, "schedule_") {
        Some(rest) => rest,
        None => {
            return None;
        },
    };
    let ghost head = "schedule_"@;
    assert(suffix@.skip(head.len() as int) =~= stripped@);
    let middle = match before_suffix(stripped.as_str(), tail) {
        Some(rest) => rest,
        None => {
            return None;
        },
    };
    assert(suffix@.subrange(head.len() as int, suffix@.len() - tail@.len()) =~= middle@);
    match parse_unsigned(middle.as_str()) {
        Some(slot) if 1 <= slot && slot <= SCHEDULE_COUNT => Some(slot),
        _ => None,
    }
}

/// The command that a text under a key is.
pub fn command_under(key: &str, text: &str) -> (result: AppResult<Option<CommandMessage>>)
    ensures
        gives(result, command_for(key@, text@)),
{
    if same(key, "schedule_enabled") {
        if same(text, "ON") {
            return Ok(Some(CommandMessage::ScheduleEnabled(true)));
        }
        if same(text, "OFF") {
            return Ok(Some(CommandMessage::ScheduleEnabled(false)));
        }
        return Err(
            AppError::InvalidState(
                "schedule_enabled expected ON/OFF, got ".to_string().concat(text),
            ),
        );
    }
    if same(key, "min_soc") {
        return match parse_soc(text) {
            Ok(value) => Ok(Some(CommandMessage::MinSoc(value))),
            Err(error) => Err(error),
        };
    }
    if same(key, "max_soc") {
        return match parse_soc(text) {
            Ok(value) => Ok(Some(CommandMessage::MaxSoc(value))),
            Err(error) => Err(error),
        };
    }
    if let Some(slot) = parse_schedule_slot(key, "_mode") {
        return match ScheduleMode::from_display_name(text) {
            Ok(mode) => Ok(Some(CommandMessage::ScheduleMode { slot, mode })),
            Err(error) => Err(error),
        };
    }
    if let Some(slot) = parse_schedule_slot(key, "_start") {
        return Ok(Some(CommandMessage::ScheduleStart { slot, value: text.to_string() }));
    }
    if let Some(slot) = parse_schedule_slot(key, "_end") {
        return Ok(Some(CommandMessage::ScheduleEnd { slot, value: text.to_string() }));
    }
    Ok(None)
}

/// The command that a message is.
pub fn decode_command(topic_prefix: &str, publish: &Publish) -> (result: AppResult<
    Option<CommandMessage>,
>)
    ensures
        gives(result, decoded(topic_prefix@, publish.topic@, publish.payload@)),
{
    let head = topic_prefix.to_string().concat("/cmd/");
    let suffix = match after_prefix(publish.topic.as_str(), head.as_str()) {
        Some(rest) => rest,
        None => {
            return Ok(None);
        },
    };
    assert(publish.topic@.skip(head@.len() as int) =~= suffix@);
    match read_utf8(&publish.payload) {
        Ok(text) => command_under(suffix.as_str(), text),
        Err(error) => {
            let mut text = "non-utf8 payload on ".to_string();
            text.append(publish.topic.as_str());
            text.append(": ");
            text.append(error.as_str());
            Err(AppError::InvalidState(text))
        },
    }
}

}
