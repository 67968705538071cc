//! The schedule as the service tells it and takes it: named settings.
use serde_json::Value;
use vstd::prelude::*;
use vstd::string::StringExecFns;

use crate::dashboard::{answer_error, answer_fault};
use crate::double::{
    double_bits, float_error, float_read, float_text, format_float, is_within, plain_text, truncate,
    truncated, within, Double,
};
use crate::error::{AppError, AppResult, Fault};
use crate::json::{
    compact, compact_text, field, json_of, jsons_of, list_field, list_under, lookup,
    member, members_of, no_members, object_value, put, string_of, string_value, text_field,
    text_under, Json,
};
use crate::model::{
    disabled_slot, mode_value, mode_valued, slots, unknown_mode_value, DailySchedule,
    DailyScheduleConfig, Schedule, ScheduleMode, Slot, SCHEDULE_COUNT,
};
use crate::text::{decimal, decimal_text, push_decimal, same};

verus! {

broadcast use vstd::string::group_string_axioms;

/// The settings that filters list: a later one in place of an earlier one with its name.
pub open spec fn settings_in(filters: Seq<Json>) -> Map<Seq<char>, Json>
    decreases filters.len(),
{
    if filters.len() == 0 {
        Map::empty()
    } else {
        let before = settings_in(filters.drop_last());
        match (text_under(filters.last(), "output"@), member(filters.last(), "init"@)) {
            (Some(name), Some(value)) => before.insert(name, value),
            _ => before,
        }
    }
}

/// The setting with a name.
pub open spec fn setting(settings: Map<Seq<char>, Json>, name: Seq<char>) -> Result<Json, Fault> {
    if settings.dom().contains(name) {
        Ok(settings[name])
    } else {
        Err(answer_fault("schedule response missing "@ + name))
    }
}

/// What is said of a setting that is not what it should be.
pub open spec fn bad_setting(name: Seq<char>, words: Seq<char>) -> Fault {
    answer_fault("schedule field "@ + name + words)
}

/// A setting as a text.
pub open spec fn text_setting(value: Json, name: Seq<char>) -> Result<Seq<char>, Fault> {
    match value {
        Json::Text(text) => Ok(text),
        Json::Num(numeral) => Ok(float_text(double_bits(numeral))),
        _ => Err(bad_setting(name, " expected string, got "@ + compact_text(value))),
    }
}

/// A setting as a number.
pub open spec fn number_setting(value: Json, name: Seq<char>) -> Result<u64, Fault> {
    match value {
        Json::Num(numeral) => Ok(double_bits(numeral)),
        Json::Text(text) => match float_read(text) {
            Some(bits) => Ok(bits),
            None => Err(bad_setting(name, " not a float: "@ + float_error(text))),
        },
        _ => Err(bad_setting(name, " expected number, got "@ + compact_text(value))),
    }
}

/// A setting as a whole number from zero to 255, without its fractional part.
pub open spec fn byte_setting(value: Json, name: Seq<char>) -> Result<u8, Fault> {
    match number_setting(value, name) {
        Ok(bits) => if within(bits, 255) {
            Ok(truncated(bits) as u8)
        } else {
            Err(bad_setting(name, " out of u8 range: "@ + plain_text(bits)))
        },
        Err(fault) => Err(fault),
    }
}

/// The name of a setting of a slot.
pub open spec fn slot_setting(slot: nat, tail: Seq<char>) -> Seq<char> {
    "s"@ + decimal(slot) + tail
}

/// The named setting as a text.
pub open spec fn named_text(settings: Map<Seq<char>, Json>, name: Seq<char>) -> Result<
    Seq<char>,
    Fault,
> {
    match setting(settings, name) {
        Ok(value) => text_setting(value, name),
        Err(fault) => Err(fault),
    }
}

/// The named setting as a number.
pub open spec fn named_number(settings: Map<Seq<char>, Json>, name: Seq<char>) -> Result<
    u64,
    Fault,
> {
    match setting(settings, name) {
        Ok(value) => number_setting(value, name),
        Err(fault) => Err(fault),
    }
}

/// The named setting as a whole number from zero to 255.
pub open spec fn named_byte(settings: Map<Seq<char>, Json>, name: Seq<char>) -> Result<u8, Fault> {
    match setting(settings, name) {
        Ok(value) => byte_setting(value, name),
        Err(fault) => Err(fault),
    }
}

/// A slot of the schedule: its three settings must be there before any of them is read.
pub open spec fn slot_from(settings: Map<Seq<char>, Json>, slot: nat) -> Result<Slot, Fault> {
    let mode = setting(settings, slot_setting(slot, "_mode"@));
    let start = setting(settings, slot_setting(slot, "_starttime"@));
    let end = setting(settings, slot_setting(slot, "_endtime"@));
    match (mode, start, end) {
        (Ok(_), Ok(_), Ok(_)) => match named_byte(settings, slot_setting(slot, "_mode"@)) {
            Ok(value) => match mode_valued(value) {
                Some(mode) => match named_text(settings, slot_setting(slot, "_starttime"@)) {
                    Ok(start_time) => match named_text(settings, slot_setting(slot, "_endtime"@)) {
                        Ok(end_time) => Ok(Slot { mode, start_time, end_time }),
                        Err(fault) => Err(fault),
                    },
                    Err(fault) => Err(fault),
                },
                None => Err(unknown_mode_value(value)),
            },
            Err(fault) => Err(fault),
        },
        (Err(fault), _, _) => Err(fault),
        (_, Err(fault), _) => Err(fault),
        (_, _, Err(fault)) => Err(fault),
    }
}

/// The first `count` slots of the schedule.
pub open spec fn slots_from(settings: Map<Seq<char>, Json>, count: nat) -> Result<Seq<Slot>, Fault>
    decreases count,
{
    if count == 0 {
        Ok(Seq::empty())
    } else {
        match slots_from(settings, (count - 1) as nat) {
            Ok(before) => match slot_from(settings, count) {
                Ok(slot) => Ok(before.push(slot)),
                Err(fault) => Err(fault),
            },
            Err(fault) => Err(fault),
        }
    }
}

/// The schedule that settings give, or what is wrong with the first bad one.
pub open spec fn schedule_from(settings: Map<Seq<char>, Json>) -> Result<DailySchedule, Fault> {
    match slots_from(settings, SCHEDULE_COUNT as nat) {
        Ok(schedules) => match named_text(settings, "sched_state"@) {
            Ok(state) => match named_number(settings, "force_charge_curr"@) {
                Ok(force_charge_current) => match named_number(settings, "force_discharge_curr"@) {
                    Ok(force_discharge_current) => match named_byte(settings, "min_soc"@) {
                        Ok(min_soc) => match named_byte(settings, "max_soc"@) {
                            Ok(max_soc) => Ok(
                                DailySchedule {
                                    state_enabled: state == "1"@,
                                    force_charge_current,
                                    force_discharge_current,
                                    min_soc,
                                    max_soc,
                                    schedules,
                                },
                            ),
                            Err(fault) => Err(fault),
                        },
                        Err(fault) => Err(fault),
                    },
                    Err(fault) => Err(fault),
                },
                Err(fault) => Err(fault),
            },
            Err(fault) => Err(fault),
        },
        Err(fault) => Err(fault),
    }
}

/// The schedule that an answer gives.
pub open spec fn schedule_in(answer: Json) -> Result<DailySchedule, Fault> {
    match list_under(answer, "filters"@) {
        Some(filters) => schedule_from(settings_in(filters)),
        None => Err(answer_fault("schedule response missing filters"@)),
    }
}

fn collect_settings(filters: &Vec<Value>) -> (settings: serde_json::Map<String, Value>)
    ensures
        members_of(settings) == settings_in(jsons_of(filters@)),
{
    let ghost documents = jsons_of(filters@);
    let mut settings = no_members();
    let mut next: usize = 0;
    assert(documents.take(0) =~= Seq::<Json>::empty());
    while next < filters.len()
        invariant
            next <= filters.len(),
            documents == jsons_of(filters@),
            members_of(settings) == settings_in(documents.take(next as int)),
        decreases filters.len() - next,
    {
        assert(documents.take(next + 1).drop_last() =~= documents.take(next as int));
        let filter = &filters[next];
        if let Some(output) = text_field(filter, "output") {
            if let Some(init) = field(filter, "init") {
                put(&mut settings, output.to_string(), init.clone());
            }
        }
        next = next + 1;
    }
    assert(documents.take(next as int) =~= documents);
    settings
}

/// The setting with a name.
pub fn require_value<'a>(values: &'a serde_json::Map<String, Value>, key: &str) -> (result:
    AppResult<&'a Value>)
    ensures
        match result {
            Ok(value) => setting(members_of(*values), key@) == Ok::<Json, Fault>(json_of(*value)),
            Err(error) => setting(members_of(*values), key@) == Err::<Json, Fault>(error@),
        },
{
    match lookup(values, key) {
        Some(value) => Ok(value),
        None => Err(
            AppError::QcoreApi("schedule response missing ".to_string().concat(key)),
        ),
    }
}

fn setting_error(key: &str, words: &str, detail: &str) -> (error: AppError)
    ensures
        error@ == bad_setting(key@, words@ + detail@),
{
    let mut text = "schedule field ".to_string();
    text.append(key);
    text.append(words);
    text.append(detail);
    assert(text@ =~= "schedule field "@ + key@ + (words@ + detail@));
    AppError::QcoreApi(text)
}

/// A setting as a text.
pub fn read_string(value: &Value, key: &str) -> (result: AppResult<String>)
    ensures
        match result {
            Ok(text) => text_setting(json_of(*value), key@) == Ok::<Seq<char>, Fault>(text@),
            Err(error) => text_setting(json_of(*value), key@) == Err::<Seq<char>, Fault>(error@),
        },
{
    if let Some(text) = string_of(value) {
        return Ok(text.to_string());
    }
    if let Some(number) = Double::from_value(value) {
        return Ok(format_float(&number));
    }
    Err(setting_error(key, " expected string, got ", compact(value).as_str()))
}

/// A setting as a number.
pub fn read_f64(value: &Value, key: &str) -> (result: AppResult<Double>)
    ensures
        match result {
            Ok(number) => number_setting(json_of(*value), key@) == Ok::<u64, Fault>(number@),
            Err(error) => number_setting(json_of(*value), key@) == Err::<u64, Fault>(error@),
        },
{
    if let Some(number) = Double::from_value(value) {
        return Ok(number);
    }
    if let Some(text) = string_of(value) {
        return match Double::parse(text) {
            Ok(number) => Ok(number),
            Err(error) => Err(setting_error(key, " not a float: ", error.as_str())),
        };
    }
    Err(setting_error(key, " expected number, got ", compact(value).as_str()))
}

/// A setting as a whole number from zero to 255, without its fractional part.
pub fn read_u8(value: &Value, key: &str) -> (result: AppResult<u8>)
    ensures
        match result {
            Ok(byte) => byte_setting(json_of(*value), key@) == Ok::<u8, Fault>(byte),
            Err(error) => byte_setting(json_of(*value), key@) == Err::<u8, Fault>(error@),
        },
{
    let number = match read_f64(value, key) {
        Ok(number) => number,
        Err(error) => {
            return Err(error);
        },
    };
    if !is_within(number.to_bits(), 255) {
        return Err(setting_error(key, " out of u8 range: ", number.plain().as_str()));
    }
    Ok(truncate(number.to_bits()))
}

fn named_string(values: &serde_json::Map<String, Value>, key: &str) -> (result: AppResult<String>)
    ensures
        match result {
            Ok(text) => named_text(members_of(*values), key@) == Ok::<Seq<char>, Fault>(text@),
            Err(error) => named_text(members_of(*values), key@) == Err::<Seq<char>, Fault>(error@),
        },
{
    match require_value(values, key) {
        Ok(value) => read_string(value, key),
        Err(error) => Err(error),
    }
}

fn named_double(values: &serde_json::Map<String, Value>, key: &str) -> (result: AppResult<Double>)
    ensures
        match result {
            Ok(number) => named_number(members_of(*values), key@) == Ok::<u64, Fault>(number@),
            Err(error) => named_number(members_of(*values), key@) == Err::<u64, Fault>(error@),
        },
{
    match require_value(values, key) {
        Ok(value) => read_f64(value, key),
        Err(error) => Err(error),
    }
}

fn named_u8(values: &serde_json::Map<String, Value>, key: &str) -> (result: AppResult<u8>)
    ensures
        match result {
            Ok(byte) => named_byte(members_of(*values), key@) == Ok::<u8, Fault>(byte),
            Err(error) => named_byte(members_of(*values), key@) == Err::<u8, Fault>(error@),
        },
{
    match require_value(values, key) {
        Ok(value) => read_u8(value, key),
        Err(error) => Err(error),
    }
}

fn slot_setting_name(slot: usize, tail: &str) -> (name: String)
    ensures
        name@ == slot_setting(slot as nat, tail@),
{
    let mut name = "s".to_string();
    push_decimal(&mut name, slot as u64);
    name.append(tail);
    name
}

fn read_slot(values: &serde_json::Map<String, Value>, slot: usize) -> (result: AppResult<Schedule>)
    ensures
        match result {
            Ok(schedule) => slot_from(members_of(*values), slot as nat) == Ok::<Slot, Fault>(
                schedule@,
            ),
            Err(error) => slot_from(members_of(*values), slot as nat) == Err::<Slot, Fault>(error@),
        },
{
    let mode_key = slot_setting_name(slot, "_mode");
    let start_key = slot_setting_name(slot, "_starttime");
    let end_key = slot_setting_name(slot, "_endtime");
    if let Err(error) = require_value(values, mode_key.as_str()) {
        return Err(error);
    }
    if let Err(error) = require_value(values, start_key.as_str()) {
        return Err(error);
    }
    if let Err(error) = require_value(values, end_key.as_str()) {
        return Err(error);
    }
    let mode_int = match named_u8(values, mode_key.as_str()) {
        Ok(value) => value,
        Err(error) => {
            return Err(error);
        },
    };
    let mode = match ScheduleMode::try_from(mode_int) {
        Ok(mode) => mode,
        Err(error) => {
            return Err(error);
        },
    };
    let start_time = match named_string(values, start_key.as_str()) {
        Ok(text) => text,
        Err(error) => {
            return Err(error);
        },
    };
    let end_time = match named_string(values, end_key.as_str()) {
        Ok(text) => text,
        Err(error) => {
            return Err(error);
        },
    };
    Ok(Schedule { mode, start_time, end_time })
}

/// What is wrong with the first slots is what is wrong with all of them.
proof fn lemma_slots_fail(settings: Map<Seq<char>, Json>, n: nat, count: nat)
    requires
        n <= count,
        slots_from(settings, n) is Err,
    ensures
        slots_from(settings, count) == slots_from(settings, n),
    decreases count,
{
    if n < count {
        lemma_slots_fail(settings, n, (count - 1) as nat);
    }
}

fn read_slots(values: &serde_json::Map<String, Value>) -> (result: AppResult<Vec<Schedule>>)
    ensures
        match result {
            Ok(schedules) => slots_from(members_of(*values), SCHEDULE_COUNT as nat) == Ok::<
                Seq<Slot>,
                Fault,
            >(slots(schedules@)),
            Err(error) => slots_from(members_of(*values), SCHEDULE_COUNT as nat) == Err::<
                Seq<Slot>,
                Fault,
            >(error@),
        },
{
    let ghost settings = members_of(*values);
    let mut schedules: Vec<Schedule> = Vec::new();
    let mut read: usize = 0;
    assert(slots(schedules@) =~= Seq::<Slot>::empty());
    while read < SCHEDULE_COUNT
        invariant
            read <= SCHEDULE_COUNT,
            settings == members_of(*values),
            slots_from(settings, read as nat) == Ok::<Seq<Slot>, Fault>(slots(schedules@)),
        decreases SCHEDULE_COUNT - read,
    {
        let ghost before = schedules@;
        match read_slot(values, read + 1) {
            Ok(schedule) => {
                schedules.push(schedule);
                assert(slots(schedules@) =~= slots(before).push(schedule@));
            },
            Err(error) => {
                proof {
                    lemma_slots_fail(settings, (read + 1) as nat, SCHEDULE_COUNT as nat);
                }
                return Err(error);
            },
        }
        read = read + 1;
    }
    Ok(schedules)
}

/// The schedule that settings give.
fn read_schedule(values: &serde_json::Map<String, Value>) -> (result: AppResult<
    DailyScheduleConfig,
>)
    ensures
        match result {
            Ok(config) => schedule_from(members_of(*values)) == Ok::<DailySchedule, Fault>(config@),
            Err(error) => schedule_from(members_of(*values)) == Err::<DailySchedule, Fault>(error@),
        },
{
    let schedules = match read_slots(values) {
        Ok(schedules) => schedules,
        Err(error) => {
            return Err(error);
        },
    };
    let state = match named_string(values, "sched_state") {
        Ok(state) => state,
        Err(error) => {
            return Err(error);
        },
    };
    let force_charge_current = match named_double(values, "force_charge_curr") {
        Ok(number) => number,
        Err(error) => {
            return Err(error);
        },
    };
    let force_discharge_current = match named_double(values, "force_discharge_curr") {
        Ok(number) => number,
        Err(error) => {
            return Err(error);
        },
    };
    let min_soc = match named_u8(values, "min_soc") {
        Ok(value) => value,
        Err(error) => {
            return Err(error);
        },
    };
    let max_soc = match named_u8(values, "max_soc") {
        Ok(value) => value,
        Err(error) => {
            return Err(error);
        },
    };
    Ok(
        DailyScheduleConfig {
            state_enabled: same(state.as_str(), "1"),
            force_charge_current,
            force_discharge_current,
            min_soc,
            max_soc,
            schedules,
        },
    )
}

/// The schedule that an answer gives.
pub fn parse_daily_schedule(resp: &Value) -> (result: AppResult<DailyScheduleConfig>)
    ensures
        match result {
            Ok(config) => schedule_in(json_of(*resp)) == Ok::<DailySchedule, Fault>(config@),
            Err(error) => schedule_in(json_of(*resp)) == Err::<DailySchedule, Fault>(error@),
        },
{
    match list_field(resp, "filters") {
        Some(filters) => read_schedule(&collect_settings(filters)),
        None => Err(answer_error("schedule response missing filters")),
    }
}

/// What a slot of a schedule is: one that is not there does nothing.
pub open spec fn slot_at(schedules: Seq<Slot>, slot: nat) -> Slot {
    if 1 <= slot <= schedules.len() {
        schedules[slot - 1]
    } else {
        disabled_slot()
    }
}

/// Settings with those of the first `count` slots of a schedule.
pub open spec fn with_slots(
    settings: Map<Seq<char>, Json>,
    schedules: Seq<Slot>,
    count: nat,
) -> Map<Seq<char>, Json>
    decreases count,
{
    if count == 0 {
        settings
    } else {
        let slot = slot_at(schedules, count);
        with_slots(settings, schedules, (count - 1) as nat).insert(
            slot_setting(count, "_mode"@),
            Json::Text(decimal(mode_value(slot.mode) as nat)),
        ).insert(slot_setting(count, "_starttime"@), Json::Text(slot.start_time)).insert(
            slot_setting(count, "_endtime"@),
            Json::Text(slot.end_time),
        )
    }
}

/// The settings of a schedule outside its slots.
pub open spec fn general_settings(config: DailySchedule) -> Map<Seq<char>, Json> {
    map![
        "sched_state"@ => Json::Text(if config.state_enabled { "1"@ } else { "0"@ }),
        "force_charge_curr"@ => Json::Text(float_text(config.force_charge_current)),
        "force_discharge_curr"@ => Json::Text(float_text(config.force_discharge_current)),
        "min_soc"@ => Json::Text(decimal(config.min_soc as nat)),
        "max_soc"@ => Json::Text(decimal(config.max_soc as nat)),
    ]
}

/// The settings that tell the service a schedule: a text each.
pub open spec fn schedule_settings(config: DailySchedule) -> Map<Seq<char>, Json> {
    with_slots(general_settings(config), config.schedules, SCHEDULE_COUNT as nat)
}

fn put_text(settings: &mut serde_json::Map<String, Value>, name: String, text: String)
    ensures
        members_of(*final(settings)) == members_of(*old(settings)).insert(
            name@,
            Json::Text(text@),
        ),
{
    put(settings, name, string_value(text));
}

fn write_general(config: &DailyScheduleConfig) -> (settings: serde_json::Map<String, Value>)
    ensures
        members_of(settings) == general_settings(config@),
{
    let mut settings = no_members();
    let state = if config.state_enabled {
        "1"
    } else {
        "0"
    };
    put_text(&mut settings, "sched_state".to_string(), state.to_string());
    put_text(
        &mut settings,
        "force_charge_curr".to_string(),
        format_float(&config.force_charge_current),
    );
    put_text(
        &mut settings,
        "force_discharge_curr".to_string(),
        format_float(&config.force_discharge_current),
    );
    put_text(&mut settings, "min_soc".to_string(), decimal_text(config.min_soc as u64));
    put_text(&mut settings, "max_soc".to_string(), decimal_text(config.max_soc as u64));
    settings
}

/// The settings that tell the service a schedule.
pub fn schedule_body(config: &DailyScheduleConfig) -> (body: Value)
    ensures
        json_of(body) == Json::Object(schedule_settings(config@)),
{
    let mut settings = write_general(config);
    let ghost general = general_settings(config@);
    let mut written: usize = 0;
    while written < SCHEDULE_COUNT
        invariant
            written <= SCHEDULE_COUNT,
            members_of(settings) == with_slots(general, config@.schedules, written as nat),
        decreases SCHEDULE_COUNT - written,
    {
        let slot: usize = written + 1;
        let schedule = if written < config.schedules.len() {
            config.schedules[written].clone()
        } else {
            Schedule::disabled()
        };
        assert(schedule@ == slot_at(config@.schedules, slot as nat));
        put_text(
            &mut settings,
            slot_setting_name(slot, "_mode"),
            decimal_text(schedule.mode.as_api_int() as u64),
        );
        put_text(&mut settings, slot_setting_name(slot, "_starttime"), schedule.start_time);
        put_text(&mut settings, slot_setting_name(slot, "_endtime"), schedule.end_time);
        written = slot;
    }
    object_value(settings)
}

}
