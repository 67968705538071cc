//! What holds of modes and commands.
use vstd::prelude::*;
use vstd::utf8::encode_utf8;

use crate::command::{command_for, command_topic_of, decoded, slot_in, Command};
use crate::discovery::slot_key;
use crate::error::Fault;
use crate::model::{
    disabled_slot, filled, mode_name, mode_named, mode_value, mode_valued, DailySchedule, ScheduleMode,
    SCHEDULE_COUNT,
};
use crate::session::commanded;
use crate::text::{decimal, lemma_decimal, unsigned_value};

verus! {

broadcast use vstd::string::group_string_axioms;

/// A mode is found by its name, and a name that finds a mode is that mode's.
pub proof fn law_mode_names(mode: ScheduleMode, name: Seq<char>)
    ensures
        mode_named(mode_name(mode)) == Some(mode),
        mode_named(name) == Some(mode) ==> name == mode_name(mode),
{
    reveal_strlit("Disable");
    reveal_strlit("Forced Charge");
    reveal_strlit("Forced Discharge");
    assert("Disable"@.len() != "Forced Charge"@.len());
    assert("Disable"@.len() != "Forced Discharge"@.len());
    assert("Forced Charge"@.len() != "Forced Discharge"@.len());
}

/// A mode is found by its number, and a number that finds a mode is that mode's.
pub proof fn law_mode_values(mode: ScheduleMode, value: u8)
    ensures
        mode_valued(mode_value(mode)) == Some(mode),
        mode_valued(value) == Some(mode) ==> value == mode_value(mode),
{
}

/// A message under the command topic of a key is what its text says under that key,
/// whatever the prefix.
pub proof fn law_command_topic(topic_prefix: Seq<char>, key: Seq<char>, text: Seq<char>)
    ensures
        decoded(topic_prefix, command_topic_of(topic_prefix, key), encode_utf8(text))
            == command_for(key, text),
{
    let head = topic_prefix + "/cmd/"@;
    let topic = command_topic_of(topic_prefix, key);
    assert(head.is_prefix_of(topic));
    assert(topic.skip(head.len() as int) =~= key);
    vstd::utf8::encode_utf8_valid_utf8(text);
    vstd::utf8::encode_utf8_decode_utf8(text);
}

/// The keys of the schedule outside its slots are none of a slot's.
pub proof fn lemma_general_keys(slot: nat, tail: Seq<char>)
    ensures
        slot_key(slot, tail) != "schedule_enabled"@,
        slot_key(slot, tail) != "min_soc"@,
        slot_key(slot, tail) != "max_soc"@,
{
    reveal_strlit("schedule_");
    reveal_strlit("schedule_enabled");
    reveal_strlit("min_soc");
    reveal_strlit("max_soc");
    lemma_decimal(slot);
    let key = slot_key(slot, tail);
    assert(key[0] == 's');
    assert(key[9] == decimal(slot)[0]);
}

/// The slot of a key is the one that the key was made for, under its own tail.
pub proof fn lemma_slot_in(slot: nat, tail: Seq<char>)
    requires
        1 <= slot <= SCHEDULE_COUNT,
    ensures
        slot_in(slot_key(slot, tail), tail) == Some(slot),
{
    let head = "schedule_"@;
    let key = slot_key(slot, tail);
    lemma_decimal(slot);
    assert(head.is_prefix_of(key));
    assert(key.skip(head.len() as int) =~= decimal(slot) + tail);
    assert(tail.is_suffix_of(key.skip(head.len() as int)));
    assert(key.subrange(head.len() as int, key.len() - tail.len()) =~= decimal(slot));
}

/// A key has no slot under a tail that ends with another character.
proof fn lemma_other_tail(slot: nat, tail: Seq<char>, other: Seq<char>)
    requires
        tail.len() > 0,
        other.len() > 0,
        tail.last() != other.last(),
    ensures
        slot_in(slot_key(slot, tail), other) is None,
{
    let head = "schedule_"@;
    let key = slot_key(slot, tail);
    let rest = key.skip(head.len() as int);
    assert(rest =~= decimal(slot) + tail);
    if other.is_suffix_of(rest) {
        assert(rest.last() == other.last());
    }
}

proof fn lemma_tails()
    ensures
        "_mode"@.len() > 0 && "_start"@.len() > 0 && "_end"@.len() > 0,
        "_mode"@.last() == 'e',
        "_start"@.last() == 't',
        "_end"@.last() == 'd',
{
    reveal_strlit("_mode");
    reveal_strlit("_start");
    reveal_strlit("_end");
}

/// The switch of the schedule is turned by the two texts that it is announced with.
pub proof fn law_switch_decoded(topic_prefix: Seq<char>)
    ensures
        decoded(
            topic_prefix,
            command_topic_of(topic_prefix, "schedule_enabled"@),
            encode_utf8("ON"@),
        ) == Ok::<Option<Command>, Fault>(Some(Command::ScheduleEnabled(true))),
        decoded(
            topic_prefix,
            command_topic_of(topic_prefix, "schedule_enabled"@),
            encode_utf8("OFF"@),
        ) == Ok::<Option<Command>, Fault>(Some(Command::ScheduleEnabled(false))),
{
    law_command_topic(topic_prefix, "schedule_enabled"@, "ON"@);
    law_command_topic(topic_prefix, "schedule_enabled"@, "OFF"@);
    reveal_strlit("ON");
    reveal_strlit("OFF");
    assert("ON"@.len() != "OFF"@.len());
}

/// Every whole percentage is taken as a limit of the state of charge.
pub proof fn law_limits_decoded(topic_prefix: Seq<char>, percent: nat)
    requires
        percent <= 100,
    ensures
        decoded(
            topic_prefix,
            command_topic_of(topic_prefix, "min_soc"@),
            encode_utf8(decimal(percent)),
        ) == Ok::<Option<Command>, Fault>(Some(Command::MinSoc(percent as u8))),
        decoded(
            topic_prefix,
            command_topic_of(topic_prefix, "max_soc"@),
            encode_utf8(decimal(percent)),
        ) == Ok::<Option<Command>, Fault>(Some(Command::MaxSoc(percent as u8))),
{
    law_command_topic(topic_prefix, "min_soc"@, decimal(percent));
    law_command_topic(topic_prefix, "max_soc"@, decimal(percent));
    reveal_strlit("schedule_enabled");
    reveal_strlit("min_soc");
    reveal_strlit("max_soc");
    assert("min_soc"@[1] != "max_soc"@[1]);
    assert("min_soc"@[0] != "schedule_enabled"@[0]);
    assert("max_soc"@[0] != "schedule_enabled"@[0]);
    crate::double::lemma_spelled(percent);
    crate::double::lemma_whole_value(percent);
}

/// Every mode of every slot is taken by the name that it is announced with.
pub proof fn law_modes_decoded(topic_prefix: Seq<char>, slot: nat, mode: ScheduleMode)
    requires
        1 <= slot <= SCHEDULE_COUNT,
    ensures
        decoded(
            topic_prefix,
            command_topic_of(topic_prefix, slot_key(slot, "_mode"@)),
            encode_utf8(mode_name(mode)),
        ) == Ok::<Option<Command>, Fault>(Some(Command::ScheduleMode { slot, mode })),
{
    law_command_topic(topic_prefix, slot_key(slot, "_mode"@), mode_name(mode));
    lemma_general_keys(slot, "_mode"@);
    lemma_slot_in(slot, "_mode"@);
    law_mode_names(mode, mode_name(mode));
}

/// Every text is taken as the start and as the end of every slot.
pub proof fn law_times_decoded(topic_prefix: Seq<char>, slot: nat, text: Seq<char>)
    requires
        1 <= slot <= SCHEDULE_COUNT,
    ensures
        decoded(
            topic_prefix,
            command_topic_of(topic_prefix, slot_key(slot, "_start"@)),
            encode_utf8(text),
        ) == Ok::<Option<Command>, Fault>(Some(Command::ScheduleStart { slot, value: text })),
        decoded(
            topic_prefix,
            command_topic_of(topic_prefix, slot_key(slot, "_end"@)),
            encode_utf8(text),
        ) == Ok::<Option<Command>, Fault>(Some(Command::ScheduleEnd { slot, value: text })),
{
    law_command_topic(topic_prefix, slot_key(slot, "_start"@), text);
    law_command_topic(topic_prefix, slot_key(slot, "_end"@), text);
    lemma_tails();
    lemma_general_keys(slot, "_start"@);
    lemma_general_keys(slot, "_end"@);
    lemma_slot_in(slot, "_start"@);
    lemma_slot_in(slot, "_end"@);
    lemma_other_tail(slot, "_start"@, "_mode"@);
    lemma_other_tail(slot, "_end"@, "_mode"@);
    lemma_other_tail(slot, "_end"@, "_start"@);
}

/// Whether a command is one that can be carried out: its slot is there, its limit is a
/// percentage.
pub open spec fn sound(command: Command) -> bool {
    match command {
        Command::MinSoc(value) => value <= 100,
        Command::MaxSoc(value) => value <= 100,
        Command::ScheduleMode { slot, mode } => 1 <= slot <= SCHEDULE_COUNT,
        Command::ScheduleStart { slot, value } => 1 <= slot <= SCHEDULE_COUNT,
        Command::ScheduleEnd { slot, value } => 1 <= slot <= SCHEDULE_COUNT,
        _ => true,
    }
}

/// Whatever message comes, the command that it is can be carried out on every schedule.
pub proof fn law_commands_sound(
    topic_prefix: Seq<char>,
    topic: Seq<char>,
    payload: Seq<u8>,
    config: DailySchedule,
)
    ensures
        decoded(topic_prefix, topic, payload) matches Ok(Some(command)) ==> sound(command)
            && commanded(config, command) is Ok,
{
    let head = topic_prefix + "/cmd/"@;
    if head.is_prefix_of(topic) && vstd::utf8::valid_utf8(payload) {
        let text = vstd::utf8::decode_utf8(payload);
        if let Some(bits) = crate::double::float_read(text) {
            if crate::double::within(bits, 100) {
                lemma_rounded_percent(bits);
            }
        }
    }
}

/// What lies between zero and one hundred is rounded to a percentage.
pub proof fn lemma_rounded_percent(bits: u64)
    requires
        crate::double::within(bits, 100),
    ensures
        crate::double::rounded(bits) <= 100,
{
    let one = crate::double::unit();
    let doubled = 2 * crate::double::magnitude(bits) + one;
    vstd::arithmetic::power2::lemma_pow2_pos(1074);
    assert(2 * (100 * one) + one < (2 * one) * 101) by (nonlinear_arith)
        requires
            one > 0,
    ;
    vstd::arithmetic::div_mod::lemma_multiply_divide_lt(doubled as int, 2 * one as int, 101);
}

/// A slot that is made sure of is there; what was there before stays as it was, and what is
/// new does nothing. Doing it twice is doing it once.
pub proof fn law_slot_ensured(config: DailySchedule, slot: nat)
    requires
        slot > 0,
    ensures
        filled(config.schedules, slot).len() >= slot,
        filled(config.schedules, slot).len() >= config.schedules.len(),
        forall|i: int|
            0 <= i < config.schedules.len() ==> #[trigger] filled(config.schedules, slot)[i]
                == config.schedules[i],
        forall|i: int|
            config.schedules.len() <= i < slot ==> #[trigger] filled(config.schedules, slot)[i]
                == disabled_slot(),
        filled(filled(config.schedules, slot), slot) == filled(config.schedules, slot),
{
    assert(filled(filled(config.schedules, slot), slot) =~= filled(config.schedules, slot));
}

/// A command that is carried out twice is carried out once.
pub proof fn law_command_twice(config: DailySchedule, command: Command)
    ensures
        commanded(config, command) matches Ok(changed) ==> commanded(changed, command) == Ok::<
            DailySchedule,
            Fault,
        >(changed),
{
    if let Ok(changed) = commanded(config, command) {
        match command {
            Command::ScheduleMode { slot, mode } => {
                assert(filled(changed.schedules, slot) =~= changed.schedules);
                assert(commanded(changed, command)->Ok_0.schedules =~= changed.schedules);
            },
            Command::ScheduleStart { slot, value } => {
                assert(filled(changed.schedules, slot) =~= changed.schedules);
                assert(commanded(changed, command)->Ok_0.schedules =~= changed.schedules);
            },
            Command::ScheduleEnd { slot, value } => {
                assert(filled(changed.schedules, slot) =~= changed.schedules);
                assert(commanded(changed, command)->Ok_0.schedules =~= changed.schedules);
            },
            _ => {},
        }
    }
}

/// A command for a slot changes that slot alone, and of it one setting alone.
pub proof fn law_slot_command(config: DailySchedule, command: Command, slot: nat)
    requires
        1 <= slot <= SCHEDULE_COUNT,
        match command {
            Command::ScheduleMode { slot: named, mode } => named == slot,
            Command::ScheduleStart { slot: named, value } => named == slot,
            Command::ScheduleEnd { slot: named, value } => named == slot,
            _ => false,
        },
    ensures
        commanded(config, command) is Ok,
        ({
            let changed = commanded(config, command)->Ok_0;
            let before = filled(config.schedules, slot);
            &&& changed == (DailySchedule { schedules: changed.schedules, ..config })
            &&& changed.schedules.len() == before.len()
            &&& forall|i: int|
                0 <= i < before.len() && i != slot - 1 ==> #[trigger] changed.schedules[i]
                    == before[i]
            &&& match command {
                Command::ScheduleMode { slot: named, mode } => {
                    &&& changed.schedules[slot - 1].mode == mode
                    &&& changed.schedules[slot - 1].start_time == before[slot - 1].start_time
                    &&& changed.schedules[slot - 1].end_time == before[slot - 1].end_time
                },
                Command::ScheduleStart { slot: named, value } => {
                    &&& changed.schedules[slot - 1].mode == before[slot - 1].mode
                    &&& changed.schedules[slot - 1].start_time == value
                    &&& changed.schedules[slot - 1].end_time == before[slot - 1].end_time
                },
                Command::ScheduleEnd { slot: named, value } => {
                    &&& changed.schedules[slot - 1].mode == before[slot - 1].mode
                    &&& changed.schedules[slot - 1].start_time == before[slot - 1].start_time
                    &&& changed.schedules[slot - 1].end_time == value
                },
                _ => false,
            }
        }),
{
}

/// A command for the whole schedule sets what it names, and leaves everything else as it was:
/// the slots, the currents and the other settings. That Home Assistant is there changes
/// nothing.
pub proof fn law_general_command(config: DailySchedule, on: bool, percent: u8)
    ensures
        ({
            let changed = commanded(config, Command::ScheduleEnabled(on))->Ok_0;
            &&& commanded(config, Command::ScheduleEnabled(on)) is Ok
            &&& changed.state_enabled == on
            &&& changed.min_soc == config.min_soc
            &&& changed.max_soc == config.max_soc
            &&& changed.force_charge_current == config.force_charge_current
            &&& changed.force_discharge_current == config.force_discharge_current
            &&& changed.schedules == config.schedules
        }),
        ({
            let changed = commanded(config, Command::MinSoc(percent))->Ok_0;
            &&& commanded(config, Command::MinSoc(percent)) is Ok
            &&& changed.min_soc == percent
            &&& changed.state_enabled == config.state_enabled
            &&& changed.max_soc == config.max_soc
            &&& changed.force_charge_current == config.force_charge_current
            &&& changed.force_discharge_current == config.force_discharge_current
            &&& changed.schedules == config.schedules
        }),
        ({
            let changed = commanded(config, Command::MaxSoc(percent))->Ok_0;
            &&& commanded(config, Command::MaxSoc(percent)) is Ok
            &&& changed.max_soc == percent
            &&& changed.state_enabled == config.state_enabled
            &&& changed.min_soc == config.min_soc
            &&& changed.force_charge_current == config.force_charge_current
            &&& changed.force_discharge_current == config.force_discharge_current
            &&& changed.schedules == config.schedules
        }),
        commanded(config, Command::HomeAssistantOnline) == Ok::<DailySchedule, Fault>(config),
{
}

/// What a command for a slot leaves alone: the settings outside the slots, and every other
/// slot. The slots are as many as before, or as many as the command needs; what is new does
/// nothing from midnight to midnight.
pub open spec fn slot_alone_changed(before: DailySchedule, after: DailySchedule, slot: int) -> bool {
    &&& after.state_enabled == before.state_enabled
    &&& after.min_soc == before.min_soc
    &&& after.max_soc == before.max_soc
    &&& after.force_charge_current == before.force_charge_current
    &&& after.force_discharge_current == before.force_discharge_current
    &&& after.schedules.len() >= before.schedules.len()
    &&& after.schedules.len() >= slot
    &&& after.schedules.len() == before.schedules.len() || after.schedules.len() == slot
    &&& forall|i: int|
        0 <= i < before.schedules.len() && i != slot - 1 ==> #[trigger] after.schedules[i]
            == before.schedules[i]
    &&& forall|i: int|
        before.schedules.len() <= i < after.schedules.len() && i != slot - 1 ==> (
        #[trigger] after.schedules[i]).mode == ScheduleMode::Disable && after.schedules[i].start_time
            == "00:00:00"@ && after.schedules[i].end_time == "00:00:00"@
}

/// A command for a slot changes one setting of the slot: the mode, the start or the end. The
/// other two are as they were, or those of a slot that does nothing.
pub proof fn law_slot_changed(config: DailySchedule, slot: nat, mode: ScheduleMode, text: Seq<char>)
    requires
        1 <= slot <= 5,
    ensures
        ({
            let there = slot <= config.schedules.len();
            let old_mode = if there {
                config.schedules[slot - 1].mode
            } else {
                ScheduleMode::Disable
            };
            let old_start = if there {
                config.schedules[slot - 1].start_time
            } else {
                "00:00:00"@
            };
            let old_end = if there {
                config.schedules[slot - 1].end_time
            } else {
                "00:00:00"@
            };
            let by_mode = commanded(config, Command::ScheduleMode { slot, mode })->Ok_0;
            let by_start = commanded(config, Command::ScheduleStart { slot, value: text })->Ok_0;
            let by_end = commanded(config, Command::ScheduleEnd { slot, value: text })->Ok_0;
            &&& commanded(config, Command::ScheduleMode { slot, mode }) is Ok
            &&& commanded(config, Command::ScheduleStart { slot, value: text }) is Ok
            &&& commanded(config, Command::ScheduleEnd { slot, value: text }) is Ok
            &&& slot_alone_changed(config, by_mode, slot as int)
            &&& by_mode.schedules[slot - 1].mode == mode
            &&& by_mode.schedules[slot - 1].start_time == old_start
            &&& by_mode.schedules[slot - 1].end_time == old_end
            &&& slot_alone_changed(config, by_start, slot as int)
            &&& by_start.schedules[slot - 1].mode == old_mode
            &&& by_start.schedules[slot - 1].start_time == text
            &&& by_start.schedules[slot - 1].end_time == old_end
            &&& slot_alone_changed(config, by_end, slot as int)
            &&& by_end.schedules[slot - 1].mode == old_mode
            &&& by_end.schedules[slot - 1].start_time == old_start
            &&& by_end.schedules[slot - 1].end_time == text
        }),
{
}

/// A command for a slot that an inverter does not have is refused, in these words.
pub proof fn law_slot_refused(config: DailySchedule, slot: nat, mode: ScheduleMode, text: Seq<char>)
    requires
        slot == 0 || slot > 5,
    ensures
        ({
            let refusal = Err::<DailySchedule, Fault>(
                Fault::InvalidState("schedule slot "@ + decimal(slot) + " out of range 1..=5"@),
            );
            &&& commanded(config, Command::ScheduleMode { slot, mode }) == refusal
            &&& commanded(config, Command::ScheduleStart { slot, value: text }) == refusal
            &&& commanded(config, Command::ScheduleEnd { slot, value: text }) == refusal
        }),
{
    reveal_strlit(" out of range 1..=");
    reveal_strlit(" out of range 1..=5");
    assert(decimal(5) =~= seq!['5']);
    assert(" out of range 1..="@ + decimal(5) =~= " out of range 1..=5"@);
    assert("schedule slot "@ + decimal(slot) + " out of range 1..="@ + decimal(5)
        =~= "schedule slot "@ + decimal(slot) + " out of range 1..=5"@);
}

/// Where the commands of the schedule are heard: under the prefix, then `/cmd/`, then the key.
pub proof fn law_command_topic_of(topic_prefix: Seq<char>, key: Seq<char>)
    ensures
        command_topic_of(topic_prefix, key) == topic_prefix + "/cmd/"@ + key,
{
}

/// A message under the command topic of a key is what its text says under that key, in full.
proof fn lemma_under_key(topic_prefix: Seq<char>, key: Seq<char>, text: Seq<char>)
    ensures
        decoded(topic_prefix, topic_prefix + "/cmd/"@ + key, encode_utf8(text)) == command_for(
            key,
            text,
        ),
{
    law_command_topic(topic_prefix, key, text);
}

proof fn lemma_plain_keys()
    ensures
        "schedule_enabled"@ != "min_soc"@,
        "schedule_enabled"@ != "max_soc"@,
        "min_soc"@ != "max_soc"@,
{
    reveal_strlit("schedule_enabled");
    reveal_strlit("min_soc");
    reveal_strlit("max_soc");
    assert("min_soc"@[1] != "max_soc"@[1]);
    assert("min_soc"@[0] != "schedule_enabled"@[0]);
    assert("max_soc"@[0] != "schedule_enabled"@[0]);
}

/// The switch takes `ON` and `OFF`, and says of any other text what it got.
pub proof fn law_switch_exact(topic_prefix: Seq<char>, text: Seq<char>)
    ensures
        ({
            let taken = decoded(
                topic_prefix,
                topic_prefix + "/cmd/"@ + "schedule_enabled"@,
                encode_utf8(text),
            );
            &&& text == "ON"@ ==> taken == Ok::<Option<Command>, Fault>(
                Some(Command::ScheduleEnabled(true)),
            )
            &&& text == "OFF"@ ==> taken == Ok::<Option<Command>, Fault>(
                Some(Command::ScheduleEnabled(false)),
            )
            &&& text != "ON"@ && text != "OFF"@ ==> taken == Err::<Option<Command>, Fault>(
                Fault::InvalidState("schedule_enabled expected ON/OFF, got "@ + text),
            )
        }),
{
    lemma_under_key(topic_prefix, "schedule_enabled"@, text);
    reveal_strlit("ON");
    reveal_strlit("OFF");
    assert("ON"@.len() != "OFF"@.len());
}

/// A limit is taken from any text that denotes a number between zero and one hundred, both
/// included: as the nearest whole percentage, halves upwards, under `min_soc` as the lower
/// limit and under `max_soc` as the upper one. Of any other text it is said what is wrong.
pub proof fn law_limits_exact(topic_prefix: Seq<char>, text: Seq<char>)
    ensures
        ({
            let lower = decoded(
                topic_prefix,
                topic_prefix + "/cmd/"@ + "min_soc"@,
                encode_utf8(text),
            );
            let upper = decoded(
                topic_prefix,
                topic_prefix + "/cmd/"@ + "max_soc"@,
                encode_utf8(text),
            );
            let one = crate::double::unit();
            match crate::double::float_read(text) {
                Some(bits) => {
                    let size = crate::double::magnitude(bits);
                    if crate::double::finite(bits) && (bits < 0x8000_0000_0000_0000 || size == 0)
                        && size <= 100 * one {
                        let percent = lower->Ok_0->0->MinSoc_0;
                        &&& lower == Ok::<Option<Command>, Fault>(Some(Command::MinSoc(percent)))
                        &&& upper == Ok::<Option<Command>, Fault>(Some(Command::MaxSoc(percent)))
                        &&& percent <= 100
                        &&& 2 * percent * one <= 2 * size + one < 2 * (percent + 1) * one
                    } else {
                        let words = "soc value "@ + crate::double::plain_text(bits)
                            + " out of range 0..=100"@;
                        &&& lower == Err::<Option<Command>, Fault>(Fault::InvalidState(words))
                        &&& upper == Err::<Option<Command>, Fault>(Fault::InvalidState(words))
                    }
                },
                None => {
                    let words = "soc value '"@ + text + "' invalid: "@ + crate::double::float_error(
                        text,
                    );
                    &&& lower == Err::<Option<Command>, Fault>(Fault::InvalidState(words))
                    &&& upper == Err::<Option<Command>, Fault>(Fault::InvalidState(words))
                },
            }
        }),
{
    lemma_under_key(topic_prefix, "min_soc"@, text);
    lemma_under_key(topic_prefix, "max_soc"@, text);
    lemma_plain_keys();
    if let Some(bits) = crate::double::float_read(text) {
        if crate::double::within(bits, 100) {
            lemma_rounded_percent(bits);
            lemma_rounded_near(bits);
        }
    }
}

/// A double is rounded to the nearest whole number.
proof fn lemma_rounded_near(bits: u64)
    ensures
        ({
            let (n, size, one) = (
                crate::double::rounded(bits),
                crate::double::magnitude(bits),
                crate::double::unit(),
            );
            2 * n * one <= 2 * size + one < 2 * (n + 1) * one
        }),
{
    let (n, size, one) = (
        crate::double::rounded(bits) as int,
        crate::double::magnitude(bits) as int,
        crate::double::unit() as int,
    );
    vstd::arithmetic::power2::lemma_pow2_pos(1074);
    vstd::arithmetic::div_mod::lemma_fundamental_div_mod(2 * size + one, 2 * one);
    assert((2 * one) * n == 2 * n * one) by (nonlinear_arith);
    assert((2 * one) * n + 2 * one == 2 * (n + 1) * one) by (nonlinear_arith);
}

/// A key with digits that spell a slot is a key of the slot, under its own tail alone.
proof fn lemma_spelled_slot(digits: Seq<char>, slot: nat, tail: Seq<char>)
    requires
        unsigned_value(digits) == Some(slot),
        1 <= slot <= 5,
        tail.len() > 0,
    ensures
        ({
            let key = "schedule_"@ + digits + tail;
            &&& slot_in(key, tail) == Some(slot)
            &&& key != "schedule_enabled"@
            &&& key != "min_soc"@
            &&& key != "max_soc"@
            &&& forall|other: Seq<char>|
                other.len() > 0 && other.last() != tail.last() ==> #[trigger] slot_in(key, other)
                    is None
        }),
{
    let head = "schedule_"@;
    let key = head + digits + tail;
    let rest = key.skip(head.len() as int);
    assert(head.is_prefix_of(key));
    assert(rest =~= digits + tail);
    assert(tail.is_suffix_of(rest));
    assert(key.subrange(head.len() as int, key.len() - tail.len()) =~= digits);
    reveal_strlit("schedule_");
    reveal_strlit("schedule_enabled");
    reveal_strlit("min_soc");
    reveal_strlit("max_soc");
    assert(digits.len() > 0);
    assert(digits[0] != 'e') by {
        if digits[0] != '+' {
            assert(crate::text::is_digit(digits[0]));
        }
    }
    assert(key[0] == 's');
    assert(key[9] == digits[0]);
    assert forall|other: Seq<char>|
        other.len() > 0 && other.last() != tail.last() implies #[trigger] slot_in(key, other)
        is None by {
        if other.is_suffix_of(rest) {
            assert(rest.last() == other.last());
        }
    }
}

/// The mode of a slot is taken by one of three names, for every way to spell the slot; of any
/// other text it is said that it is none.
pub proof fn law_modes_exact(
    topic_prefix: Seq<char>,
    digits: Seq<char>,
    slot: nat,
    text: Seq<char>,
)
    requires
        unsigned_value(digits) == Some(slot),
        1 <= slot <= 5,
    ensures
        ({
            let taken = decoded(
                topic_prefix,
                topic_prefix + "/cmd/"@ + ("schedule_"@ + digits + "_mode"@),
                encode_utf8(text),
            );
            if text == "Disable"@ {
                taken == Ok::<Option<Command>, Fault>(
                    Some(Command::ScheduleMode { slot, mode: ScheduleMode::Disable }),
                )
            } else if text == "Forced Charge"@ {
                taken == Ok::<Option<Command>, Fault>(
                    Some(Command::ScheduleMode { slot, mode: ScheduleMode::ForcedCharge }),
                )
            } else if text == "Forced Discharge"@ {
                taken == Ok::<Option<Command>, Fault>(
                    Some(Command::ScheduleMode { slot, mode: ScheduleMode::ForcedDischarge }),
                )
            } else {
                taken == Err::<Option<Command>, Fault>(
                    Fault::InvalidState("unknown schedule mode display name: "@ + text),
                )
            }
        }),
{
    lemma_tails();
    lemma_spelled_slot(digits, slot, "_mode"@);
    lemma_under_key(topic_prefix, "schedule_"@ + digits + "_mode"@, text);
    law_mode_names(ScheduleMode::Disable, text);
    law_mode_names(ScheduleMode::ForcedCharge, text);
    law_mode_names(ScheduleMode::ForcedDischarge, text);
}

/// The start and the end of a slot are taken as they are said, for every way to spell the
/// slot.
pub proof fn law_times_exact(
    topic_prefix: Seq<char>,
    digits: Seq<char>,
    slot: nat,
    text: Seq<char>,
)
    requires
        unsigned_value(digits) == Some(slot),
        1 <= slot <= 5,
    ensures
        decoded(
            topic_prefix,
            topic_prefix + "/cmd/"@ + ("schedule_"@ + digits + "_start"@),
            encode_utf8(text),
        ) == Ok::<Option<Command>, Fault>(Some(Command::ScheduleStart { slot, value: text })),
        decoded(
            topic_prefix,
            topic_prefix + "/cmd/"@ + ("schedule_"@ + digits + "_end"@),
            encode_utf8(text),
        ) == Ok::<Option<Command>, Fault>(Some(Command::ScheduleEnd { slot, value: text })),
{
    lemma_tails();
    lemma_spelled_slot(digits, slot, "_start"@);
    lemma_spelled_slot(digits, slot, "_end"@);
    lemma_under_key(topic_prefix, "schedule_"@ + digits + "_start"@, text);
    lemma_under_key(topic_prefix, "schedule_"@ + digits + "_end"@, text);
    assert(slot_in("schedule_"@ + digits + "_start"@, "_mode"@) is None);
    assert(slot_in("schedule_"@ + digits + "_end"@, "_mode"@) is None);
    assert(slot_in("schedule_"@ + digits + "_end"@, "_start"@) is None);
}

/// Whether a key is made of `schedule_`, the digits of a slot, and the tail.
pub open spec fn names_slot(key: Seq<char>, tail: Seq<char>) -> bool {
    exists|digits: Seq<char>|
        #[trigger] ("schedule_"@ + digits + tail) == key && unsigned_value(digits) is Some && 1
            <= unsigned_value(digits)->0 <= 5
}

/// A message that is not under the command topics of the prefix is no command, and neither is
/// a text under a key that is none of the schedule's.
pub proof fn law_others_ignored(
    topic_prefix: Seq<char>,
    topic: Seq<char>,
    payload: Seq<u8>,
    key: Seq<char>,
    text: Seq<char>,
)
    requires
        forall|rest: Seq<char>| topic != #[trigger] (topic_prefix + "/cmd/"@ + rest),
        key != "schedule_enabled"@,
        key != "min_soc"@,
        key != "max_soc"@,
        !names_slot(key, "_mode"@),
        !names_slot(key, "_start"@),
        !names_slot(key, "_end"@),
    ensures
        decoded(topic_prefix, topic, payload) == Ok::<Option<Command>, Fault>(None),
        decoded(topic_prefix, topic_prefix + "/cmd/"@ + key, encode_utf8(text)) == Ok::<
            Option<Command>,
            Fault,
        >(None),
{
    let head = topic_prefix + "/cmd/"@;
    if head.is_prefix_of(topic) {
        assert(topic =~= topic_prefix + "/cmd/"@ + topic.skip(head.len() as int));
    }
    lemma_under_key(topic_prefix, key, text);
    lemma_other_slots(key, "_mode"@);
    lemma_other_slots(key, "_start"@);
    lemma_other_slots(key, "_end"@);
}

/// A key with a slot is made of the head, the digits of the slot and the tail.
proof fn lemma_other_slots(key: Seq<char>, tail: Seq<char>)
    ensures
        slot_in(key, tail) is Some ==> names_slot(key, tail),
{
    let head = "schedule_"@;
    if let Some(slot) = slot_in(key, tail) {
        let digits = key.subrange(head.len() as int, key.len() - tail.len());
        let rest = key.skip(head.len() as int);
        assert(rest.len() >= tail.len());
        assert(rest =~= digits + tail) by {
            assert(tail =~= rest.skip(rest.len() - tail.len()));
        }
        assert(key =~= head + digits + tail);
    }
}

/// Bytes under a command topic that are no text are an error, which names the topic.
pub proof fn law_bytes_refused(topic_prefix: Seq<char>, key: Seq<char>, payload: Seq<u8>)
    requires
        !vstd::utf8::valid_utf8(payload),
    ensures
        ({
            let topic = topic_prefix + "/cmd/"@ + key;
            decoded(topic_prefix, topic, payload) == Err::<Option<Command>, Fault>(
                Fault::InvalidState(
                    "non-utf8 payload on "@ + topic + ": "@ + crate::command::utf8_error(payload),
                ),
            )
        }),
{
    let head = topic_prefix + "/cmd/"@;
    assert(head.is_prefix_of(head + key));
}

/// No message under a command topic says that Home Assistant is there.
pub proof fn law_never_online(topic_prefix: Seq<char>, topic: Seq<char>, payload: Seq<u8>)
    ensures
        decoded(topic_prefix, topic, payload) != Ok::<Option<Command>, Fault>(
            Some(Command::HomeAssistantOnline),
        ),
{
}

/// The three modes by their names and by their numbers.
pub proof fn law_modes_written()
    ensures
        mode_name(ScheduleMode::Disable) == "Disable"@,
        mode_name(ScheduleMode::ForcedCharge) == "Forced Charge"@,
        mode_name(ScheduleMode::ForcedDischarge) == "Forced Discharge"@,
        mode_value(ScheduleMode::Disable) == 0,
        mode_value(ScheduleMode::ForcedCharge) == 1,
        mode_value(ScheduleMode::ForcedDischarge) == 2,
        SCHEDULE_COUNT == 5,
{
}

/// A name or a number finds a mode exactly where it is that of a mode.
pub proof fn law_modes_found(name: Seq<char>, value: u8)
    ensures
        mode_named(name) is Some <==> (name == "Disable"@ || name == "Forced Charge"@ || name
            == "Forced Discharge"@),
        mode_valued(value) is Some <==> value <= 2,
{
}

/// A key names a slot where digits that spell it stand between `schedule_` and the tail, and
/// nowhere else.
pub proof fn law_slot_in_key(key: Seq<char>, tail: Seq<char>, digits: Seq<char>, slot: nat)
    ensures
        unsigned_value(digits) == Some(slot) && 1 <= slot <= 5 ==> slot_in(
            "schedule_"@ + digits + tail,
            tail,
        ) == Some(slot),
        !names_slot(key, tail) ==> slot_in(key, tail) is None,
{
    lemma_other_slots(key, tail);
    let head = "schedule_"@;
    let made = head + digits + tail;
    assert(head.is_prefix_of(made));
    assert(made.skip(head.len() as int) =~= digits + tail);
    assert(tail.is_suffix_of(made.skip(head.len() as int)));
    assert(made.subrange(head.len() as int, made.len() - tail.len()) =~= digits);
}

}
