//! What holds of a schedule that is written to the service and read from it.
use vstd::prelude::*;

use crate::command::Command;
use crate::discovery::{schedule_states, slot_key};
use crate::double::{
    double_bits, finite, float_read, float_text, magnitude, negative_zero, same_number, unit, whole,
    within, Numeral,
};
use crate::error::Fault;
use crate::json::{compact_text, list_under, Json};
use crate::model::{
    filled, mode_name, mode_value, DailySchedule, ScheduleMode, Slot, SCHEDULE_COUNT,
};
use crate::schedule::{
    byte_setting, general_settings, number_setting, schedule_from, schedule_in, schedule_settings,
    setting, settings_in, slot_at, slot_from, slot_setting, slots_from, text_setting, with_slots,
};
use crate::session::commanded;
use crate::text::decimal;

verus! {

broadcast use vstd::string::group_string_axioms;

/// The names of the settings of slots differ where the slots or the settings do.
proof fn lemma_slot_names(i: nat, j: nat, a: Seq<char>, b: Seq<char>)
    requires
        i < 10,
        j < 10,
        i != j || a != b,
    ensures
        slot_setting(i, a) != slot_setting(j, b),
{
    reveal_strlit("s");
    let (left, right) = (slot_setting(i, a), slot_setting(j, b));
    if left == right {
        assert(left[1] == decimal(i)[0]);
        assert(right[1] == decimal(j)[0]);
        assert(left.skip(2) =~= a);
        assert(right.skip(2) =~= b);
    }
}

/// The name of a setting of a slot is none of the other settings'.
proof fn lemma_general_names(slot: nat, tail: Seq<char>)
    requires
        slot < 10,
    ensures
        slot_setting(slot, tail) != "sched_state"@,
        slot_setting(slot, tail) != "force_charge_curr"@,
        slot_setting(slot, tail) != "force_discharge_curr"@,
        slot_setting(slot, tail) != "min_soc"@,
        slot_setting(slot, tail) != "max_soc"@,
{
    reveal_strlit("s");
    reveal_strlit("sched_state");
    reveal_strlit("force_charge_curr");
    reveal_strlit("force_discharge_curr");
    reveal_strlit("min_soc");
    reveal_strlit("max_soc");
    let name = slot_setting(slot, tail);
    assert(name[0] == 's');
    assert(name[1] == decimal(slot)[0]);
}

/// The settings of slots leave the other settings alone.
proof fn lemma_general_kept(
    settings: Map<Seq<char>, Json>,
    schedules: Seq<Slot>,
    count: nat,
    name: Seq<char>,
)
    requires
        count < 10,
        forall|slot: nat, tail: Seq<char>| slot < 10 ==> #[trigger] slot_setting(slot, tail) != name,
    ensures
        with_slots(settings, schedules, count).dom().contains(name) == settings.dom().contains(
            name,
        ),
        with_slots(settings, schedules, count)[name] == settings[name],
    decreases count,
{
    if count > 0 {
        lemma_general_kept(settings, schedules, (count - 1) as nat, name);
    }
}

/// The settings of a slot are among those of the slots up to it.
proof fn lemma_slot_kept(
    settings: Map<Seq<char>, Json>,
    schedules: Seq<Slot>,
    slot: nat,
    count: nat,
)
    requires
        1 <= slot <= count < 10,
    ensures
        ({
            let all = with_slots(settings, schedules, count);
            let shown = slot_at(schedules, slot);
            &&& all.dom().contains(slot_setting(slot, "_mode"@))
            &&& all[slot_setting(slot, "_mode"@)] == Json::Text(
                decimal(mode_value(shown.mode) as nat),
            )
            &&& all.dom().contains(slot_setting(slot, "_starttime"@))
            &&& all[slot_setting(slot, "_starttime"@)] == Json::Text(shown.start_time)
            &&& all.dom().contains(slot_setting(slot, "_endtime"@))
            &&& all[slot_setting(slot, "_endtime"@)] == Json::Text(shown.end_time)
        }),
    decreases count,
{
    reveal_strlit("_mode");
    reveal_strlit("_starttime");
    reveal_strlit("_endtime");
    let tails = seq!["_mode"@, "_starttime"@, "_endtime"@];
    assert("_mode"@.len() != "_starttime"@.len());
    assert("_mode"@.len() != "_endtime"@.len());
    assert("_starttime"@.len() != "_endtime"@.len());
    assert forall|i: int, j: int|
        0 <= i < 3 && 0 <= j < 3 && (slot != count || i != j) implies slot_setting(
        slot,
        #[trigger] tails[i],
    ) != slot_setting(count, #[trigger] tails[j]) by {
        lemma_slot_names(slot, count, tails[i], tails[j]);
    }
    assert(tails[0] == "_mode"@ && tails[1] == "_starttime"@ && tails[2] == "_endtime"@);
    if slot < count {
        lemma_slot_kept(settings, schedules, slot, (count - 1) as nat);
    }
}

/// The service is told every slot that an inverter has: one that is not in the schedule does
/// nothing.
pub proof fn law_slots_written(config: DailySchedule, slot: nat)
    requires
        1 <= slot <= SCHEDULE_COUNT,
    ensures
        ({
            let written = schedule_settings(config);
            let shown = slot_at(config.schedules, slot);
            &&& written.dom().contains(slot_setting(slot, "_mode"@))
            &&& written[slot_setting(slot, "_mode"@)] == Json::Text(
                decimal(mode_value(shown.mode) as nat),
            )
            &&& written.dom().contains(slot_setting(slot, "_starttime"@))
            &&& written[slot_setting(slot, "_starttime"@)] == Json::Text(shown.start_time)
            &&& written.dom().contains(slot_setting(slot, "_endtime"@))
            &&& written[slot_setting(slot, "_endtime"@)] == Json::Text(shown.end_time)
        }),
{
    lemma_slot_kept(general_settings(config), config.schedules, slot, SCHEDULE_COUNT as nat);
}

/// The service is told the settings outside the slots.
pub proof fn law_settings_written(config: DailySchedule)
    ensures
        ({
            let written = schedule_settings(config);
            &&& written.dom().contains("sched_state"@)
            &&& written["sched_state"@] == Json::Text(
                if config.state_enabled {
                    "1"@
                } else {
                    "0"@
                },
            )
            &&& written.dom().contains("force_charge_curr"@)
            &&& written["force_charge_curr"@] == Json::Text(float_text(config.force_charge_current))
            &&& written.dom().contains("force_discharge_curr"@)
            &&& written["force_discharge_curr"@] == Json::Text(
                float_text(config.force_discharge_current),
            )
            &&& written.dom().contains("min_soc"@)
            &&& written["min_soc"@] == Json::Text(decimal(config.min_soc as nat))
            &&& written.dom().contains("max_soc"@)
            &&& written["max_soc"@] == Json::Text(decimal(config.max_soc as nat))
        }),
{
    let general = general_settings(config);
    reveal_strlit("sched_state");
    reveal_strlit("force_charge_curr");
    reveal_strlit("force_discharge_curr");
    reveal_strlit("min_soc");
    reveal_strlit("max_soc");
    assert forall|slot: nat, tail: Seq<char>| slot < 10 implies {
        &&& #[trigger] slot_setting(slot, tail) != "sched_state"@
        &&& slot_setting(slot, tail) != "force_charge_curr"@
        &&& slot_setting(slot, tail) != "force_discharge_curr"@
        &&& slot_setting(slot, tail) != "min_soc"@
        &&& slot_setting(slot, tail) != "max_soc"@
    } by {
        lemma_general_names(slot, tail);
    }
    let count = SCHEDULE_COUNT as nat;
    lemma_general_kept(general, config.schedules, count, "sched_state"@);
    lemma_general_kept(general, config.schedules, count, "force_charge_curr"@);
    lemma_general_kept(general, config.schedules, count, "force_discharge_curr"@);
    lemma_general_kept(general, config.schedules, count, "min_soc"@);
    lemma_general_kept(general, config.schedules, count, "max_soc"@);
    assert("sched_state"@.len() == 11 && "min_soc"@.len() == 7 && "max_soc"@.len() == 7);
    assert("force_charge_curr"@.len() == 17 && "force_discharge_curr"@.len() == 20);
    assert("min_soc"@[1] != "max_soc"@[1]);
}

/// The settings of slots are three for each slot, beside the others, and each is a text.
proof fn lemma_slots_counted(settings: Map<Seq<char>, Json>, schedules: Seq<Slot>, count: nat)
    requires
        count < 10,
        settings.dom().finite(),
        forall|slot: nat, tail: Seq<char>|
            slot < 10 ==> !settings.dom().contains(#[trigger] slot_setting(slot, tail)),
        forall|name: Seq<char>| #[trigger]
            settings.dom().contains(name) ==> settings[name] is Text,
    ensures
        ({
            let all = with_slots(settings, schedules, count);
            &&& all.dom().finite()
            &&& all.dom().len() == settings.dom().len() + 3 * count
            &&& forall|slot: nat, tail: Seq<char>|
                count < slot < 10 ==> !all.dom().contains(#[trigger] slot_setting(slot, tail))
            &&& forall|name: Seq<char>| #[trigger]
                all.dom().contains(name) ==> all[name] is Text
        }),
    decreases count,
{
    if count > 0 {
        let less = (count - 1) as nat;
        lemma_slots_counted(settings, schedules, less);
        let before = with_slots(settings, schedules, less);
        let all = with_slots(settings, schedules, count);
        reveal_strlit("_mode");
        reveal_strlit("_starttime");
        reveal_strlit("_endtime");
        assert("_mode"@.len() == 5 && "_starttime"@.len() == 10 && "_endtime"@.len() == 8);
        let mode = slot_setting(count, "_mode"@);
        let start = slot_setting(count, "_starttime"@);
        let end = slot_setting(count, "_endtime"@);
        lemma_slot_names(count, count, "_mode"@, "_starttime"@);
        lemma_slot_names(count, count, "_mode"@, "_endtime"@);
        lemma_slot_names(count, count, "_starttime"@, "_endtime"@);
        assert(all.dom() =~= before.dom().insert(mode).insert(start).insert(end));
        assert forall|slot: nat, tail: Seq<char>| count < slot < 10 implies !all.dom().contains(
            #[trigger] slot_setting(slot, tail),
        ) by {
            lemma_slot_names(slot, count, tail, "_mode"@);
            lemma_slot_names(slot, count, tail, "_starttime"@);
            lemma_slot_names(slot, count, tail, "_endtime"@);
        }
    }
}

/// The service is told twenty settings, whatever the schedule, and each of them is a text.
pub proof fn law_twenty_texts_written(config: DailySchedule)
    ensures
        schedule_settings(config).dom().finite(),
        schedule_settings(config).dom().len() == 20,
        forall|name: Seq<char>| #[trigger]
            schedule_settings(config).dom().contains(name) ==> schedule_settings(
                config,
            )[name] is Text,
{
    let general = general_settings(config);
    reveal_strlit("sched_state");
    reveal_strlit("force_charge_curr");
    reveal_strlit("force_discharge_curr");
    reveal_strlit("min_soc");
    reveal_strlit("max_soc");
    assert("sched_state"@.len() == 11 && "min_soc"@.len() == 7 && "max_soc"@.len() == 7);
    assert("force_charge_curr"@.len() == 17 && "force_discharge_curr"@.len() == 20);
    assert("min_soc"@[1] != "max_soc"@[1]);
    assert(general.dom() =~= Set::<Seq<char>>::empty().insert("sched_state"@).insert(
        "force_charge_curr"@,
    ).insert("force_discharge_curr"@).insert("min_soc"@).insert("max_soc"@));
    assert forall|slot: nat, tail: Seq<char>| slot < 10 implies !general.dom().contains(
        #[trigger] slot_setting(slot, tail),
    ) by {
        lemma_general_names(slot, tail);
    }
    lemma_slots_counted(general, config.schedules, SCHEDULE_COUNT as nat);
}

/// A slot that was written is read back.
proof fn lemma_slot_read_back(config: DailySchedule, slot: nat)
    requires
        1 <= slot <= SCHEDULE_COUNT,
    ensures
        slot_from(schedule_settings(config), slot) == Ok::<Slot, Fault>(
            slot_at(config.schedules, slot),
        ),
{
    let shown = slot_at(config.schedules, slot);
    law_slots_written(config, slot);
    let value = mode_value(shown.mode) as nat;
    crate::double::lemma_spelled(value);
    crate::double::lemma_whole_value(value);
}

/// The slots that were written are read back.
proof fn lemma_slots_read_back(config: DailySchedule, count: nat)
    requires
        count <= SCHEDULE_COUNT,
    ensures
        slots_from(schedule_settings(config), count) == Ok::<Seq<Slot>, Fault>(
            Seq::new(count, |i: int| slot_at(config.schedules, (i + 1) as nat)),
        ),
    decreases count,
{
    if count == 0 {
        assert(Seq::new(0, |i: int| slot_at(config.schedules, (i + 1) as nat)) =~= Seq::<
            Slot,
        >::empty());
    } else {
        lemma_slots_read_back(config, (count - 1) as nat);
        lemma_slot_read_back(config, count);
        assert(Seq::new((count - 1) as nat, |i: int| slot_at(config.schedules, (i + 1) as nat)).push(
            slot_at(config.schedules, count),
        ) =~= Seq::new(count, |i: int| slot_at(config.schedules, (i + 1) as nat)));
    }
}

/// How an answer of the service lists a setting.
pub open spec fn filter_of(name: Seq<char>, value: Json) -> Json {
    Json::Object(map!["output"@ => Json::Text(name), "init"@ => value])
}

/// How an answer of the service lists the settings with these names.
pub open spec fn filters_of(settings: Map<Seq<char>, Json>, names: Seq<Seq<char>>) -> Seq<Json> {
    Seq::new(names.len(), |i: int| filter_of(names[i], settings[names[i]]))
}

/// Settings that are listed under all their names, in any order, are found in the list.
pub proof fn law_listed_settings_found(settings: Map<Seq<char>, Json>, names: Seq<Seq<char>>)
    requires
        names.to_set() == settings.dom(),
    ensures
        settings_in(filters_of(settings, names)) == settings,
{
    lemma_listed(settings, names);
    let found = settings_in(filters_of(settings, names));
    assert forall|name: Seq<char>| found.dom().contains(name) <==> settings.dom().contains(
        name,
    ) by {
        assert(names.to_set().contains(name) <==> names.contains(name));
    }
    assert(found =~= settings);
}

/// Of settings that are listed, those with the listed names are found.
proof fn lemma_listed(settings: Map<Seq<char>, Json>, names: Seq<Seq<char>>)
    ensures
        ({
            let found = settings_in(filters_of(settings, names));
            forall|name: Seq<char>|
                {
                    &&& #[trigger] found.dom().contains(name) <==> names.contains(name)
                    &&& names.contains(name) ==> found[name] == settings[name]
                }
        }),
    decreases names.len(),
{
    reveal_strlit("output");
    reveal_strlit("init");
    assert("output"@.len() != "init"@.len());
    let filters = filters_of(settings, names);
    if names.len() > 0 {
        let (rest, last) = (names.drop_last(), names.last());
        lemma_listed(settings, rest);
        assert(filters.drop_last() =~= filters_of(settings, rest));
        assert(filters.last() == filter_of(last, settings[last]));
        let before = settings_in(filters.drop_last());
        let found = settings_in(filters);
        assert(found == before.insert(last, settings[last]));
        assert forall|name: Seq<char>|
            {
                &&& #[trigger] found.dom().contains(name) <==> names.contains(name)
                &&& names.contains(name) ==> found[name] == settings[name]
            } by {
            assert(before.dom().contains(name) <==> rest.contains(name));
            assert(names =~= rest.push(last));
            if names.contains(name) && name != last {
                let i = choose|i: int| 0 <= i < names.len() && names[i] == name;
                assert(rest[i] == name);
            }
            if rest.contains(name) {
                let i = choose|i: int| 0 <= i < rest.len() && rest[i] == name;
                assert(names[i] == name);
            }
            assert(names[names.len() - 1] == last);
        }
    }
}

/// The schedule that is read back of one that was written, where the texts of its currents
/// denote these: the slots that an inverter has, and everything else as it was.
pub open spec fn read_back(config: DailySchedule, charge: u64, discharge: u64) -> DailySchedule {
    DailySchedule {
        force_charge_current: charge,
        force_discharge_current: discharge,
        schedules: filled(config.schedules, SCHEDULE_COUNT as nat).take(SCHEDULE_COUNT as int),
        ..config
    }
}

/// Where the service lists the settings that it was told, in any order, the answer gives the
/// schedule that was written, with the slots that an inverter has and with the currents that
/// their texts denote. It gives none exactly where the text of a current denotes no number.
pub proof fn law_written_schedule_read(config: DailySchedule, answer: Json, filters: Seq<Json>)
    requires
        list_under(answer, "filters"@) == Some(filters),
        settings_in(filters) == schedule_settings(config),
    ensures
        match (
            float_read(float_text(config.force_charge_current)),
            float_read(float_text(config.force_discharge_current)),
        ) {
            (Some(charge), Some(discharge)) => schedule_in(answer) == Ok::<DailySchedule, Fault>(
                read_back(config, charge, discharge),
            ),
            _ => schedule_in(answer) is Err,
        },
{
    law_settings_written(config);
    reveal_strlit("0");
    reveal_strlit("1");
    assert("0"@[0] != "1"@[0]);
    let count = SCHEDULE_COUNT as nat;
    lemma_slots_read_back(config, count);
    assert(Seq::new(count, |i: int| slot_at(config.schedules, (i + 1) as nat)) =~= filled(
        config.schedules,
        count,
    ).take(count as int));
    crate::double::lemma_spelled(config.min_soc as nat);
    crate::double::lemma_whole_value(config.min_soc as nat);
    crate::double::lemma_spelled(config.max_soc as nat);
    crate::double::lemma_whole_value(config.max_soc as nat);
}

/// A schedule that was written is read back where the texts of the two currents denote the
/// currents.
pub proof fn law_schedule_read_back(config: DailySchedule, answer: Json, filters: Seq<Json>)
    requires
        float_read(float_text(config.force_charge_current)) == Some(config.force_charge_current),
        float_read(float_text(config.force_discharge_current)) == Some(
            config.force_discharge_current,
        ),
        list_under(answer, "filters"@) == Some(filters),
        settings_in(filters) == schedule_settings(config),
    ensures
        schedule_in(answer) == Ok::<DailySchedule, Fault>(
            read_back(config, config.force_charge_current, config.force_discharge_current),
        ),
{
    law_written_schedule_read(config, answer, filters);
}

/// A schedule whose two currents are whole numbers is read back: each current is the same
/// number, and but for the negative zero the same double.
pub proof fn law_whole_currents_read_back(config: DailySchedule, answer: Json, filters: Seq<Json>)
    requires
        whole(config.force_charge_current),
        whole(config.force_discharge_current),
        list_under(answer, "filters"@) == Some(filters),
        settings_in(filters) == schedule_settings(config),
    ensures
        ({
            let read = schedule_in(answer)->Ok_0;
            &&& schedule_in(answer) is Ok
            &&& read == read_back(
                config,
                read.force_charge_current,
                read.force_discharge_current,
            )
            &&& same_number(read.force_charge_current, config.force_charge_current)
            &&& same_number(read.force_discharge_current, config.force_discharge_current)
            &&& !negative_zero(config.force_charge_current) ==> read.force_charge_current
                == config.force_charge_current
            &&& !negative_zero(config.force_discharge_current) ==> read.force_discharge_current
                == config.force_discharge_current
        }),
{
    crate::double::lemma_whole_read(config.force_charge_current);
    crate::double::lemma_whole_read(config.force_discharge_current);
    law_written_schedule_read(config, answer, filters);
}

/// A command for a slot reaches both sides: the service is told what it says, and Home
/// Assistant is shown it.
pub proof fn law_slot_command_told(config: DailySchedule, command: Command, slot: nat)
    requires
        1 <= slot <= SCHEDULE_COUNT,
    ensures
        ({
            let changed = commanded(config, command)->Ok_0;
            match command {
                Command::ScheduleMode { slot: named, mode } => named == slot ==> {
                    &&& schedule_settings(changed)[slot_setting(slot, "_mode"@)] == Json::Text(
                        decimal(mode_value(mode) as nat),
                    )
                    &&& schedule_states(changed)[slot_key(slot, "_mode"@)] == Json::Text(
                        mode_name(mode),
                    )
                },
                Command::ScheduleStart { slot: named, value } => named == slot ==> {
                    &&& schedule_settings(changed)[slot_setting(slot, "_starttime"@)]
                        == Json::Text(value)
                    &&& schedule_states(changed)[slot_key(slot, "_start"@)] == Json::Text(value)
                },
                Command::ScheduleEnd { slot: named, value } => named == slot ==> {
                    &&& schedule_settings(changed)[slot_setting(slot, "_endtime"@)] == Json::Text(
                        value,
                    )
                    &&& schedule_states(changed)[slot_key(slot, "_end"@)] == Json::Text(value)
                },
                _ => true,
            }
        }),
{
    let changed = commanded(config, command)->Ok_0;
    match command {
        Command::ScheduleMode { slot: named, mode } if named == slot => {
            law_slots_written(changed, slot);
            crate::laws::discovery::law_slots_told(changed, slot);
        },
        Command::ScheduleStart { slot: named, value } if named == slot => {
            law_slots_written(changed, slot);
            crate::laws::discovery::law_slots_told(changed, slot);
        },
        Command::ScheduleEnd { slot: named, value } if named == slot => {
            law_slots_written(changed, slot);
            crate::laws::discovery::law_slots_told(changed, slot);
        },
        _ => {},
    }
}

/// A command for the whole schedule reaches both sides: the service is told what it says,
/// and Home Assistant is shown it.
pub proof fn law_general_command_told(config: DailySchedule, command: Command)
    ensures
        ({
            let changed = commanded(config, command)->Ok_0;
            match command {
                Command::ScheduleEnabled(on) => {
                    &&& schedule_settings(changed)["sched_state"@] == Json::Text(
                        if on {
                            "1"@
                        } else {
                            "0"@
                        },
                    )
                    &&& schedule_states(changed)["schedule_enabled"@] == Json::Text(
                        if on {
                            "ON"@
                        } else {
                            "OFF"@
                        },
                    )
                },
                Command::MinSoc(value) => {
                    &&& schedule_settings(changed)["min_soc"@] == Json::Text(decimal(value as nat))
                    &&& schedule_states(changed)["min_soc"@] == Json::Num(
                        Numeral::Integer(value as int),
                    )
                },
                Command::MaxSoc(value) => {
                    &&& schedule_settings(changed)["max_soc"@] == Json::Text(decimal(value as nat))
                    &&& schedule_states(changed)["max_soc"@] == Json::Num(
                        Numeral::Integer(value as int),
                    )
                },
                _ => true,
            }
        }),
{
    let changed = commanded(config, command)->Ok_0;
    law_settings_written(changed);
    crate::laws::discovery::law_settings_told(changed);
}

/// What the service is told of a slot: the number of its mode and its two times, or of a slot
/// that is not in the schedule that it does nothing from midnight to midnight.
pub proof fn law_slot_posted(config: DailySchedule, slot: nat)
    requires
        1 <= slot <= 5,
    ensures
        ({
            let told = schedule_settings(config);
            let name = "s"@ + decimal(slot);
            let there = slot <= config.schedules.len();
            let mode = if there {
                config.schedules[slot - 1].mode
            } else {
                ScheduleMode::Disable
            };
            &&& told.dom().contains(name + "_mode"@)
            &&& mode == ScheduleMode::Disable ==> told[name + "_mode"@] == Json::Text("0"@)
            &&& mode == ScheduleMode::ForcedCharge ==> told[name + "_mode"@] == Json::Text("1"@)
            &&& mode == ScheduleMode::ForcedDischarge ==> told[name + "_mode"@] == Json::Text("2"@)
            &&& told.dom().contains(name + "_starttime"@)
            &&& told[name + "_starttime"@] == Json::Text(
                if there {
                    config.schedules[slot - 1].start_time
                } else {
                    "00:00:00"@
                },
            )
            &&& told.dom().contains(name + "_endtime"@)
            &&& told[name + "_endtime"@] == Json::Text(
                if there {
                    config.schedules[slot - 1].end_time
                } else {
                    "00:00:00"@
                },
            )
        }),
{
    law_slots_written(config, slot);
    reveal_strlit("0");
    reveal_strlit("1");
    reveal_strlit("2");
    assert(decimal(0) =~= "0"@);
    assert(decimal(1) =~= "1"@);
    assert(decimal(2) =~= "2"@);
}

/// What the service is told of the schedule outside its slots.
pub proof fn law_settings_posted(config: DailySchedule)
    ensures
        ({
            let told = schedule_settings(config);
            &&& told.dom().contains("sched_state"@)
            &&& config.state_enabled ==> told["sched_state"@] == Json::Text("1"@)
            &&& !config.state_enabled ==> told["sched_state"@] == Json::Text("0"@)
            &&& told.dom().contains("force_charge_curr"@)
            &&& told["force_charge_curr"@] == Json::Text(float_text(config.force_charge_current))
            &&& told.dom().contains("force_discharge_curr"@)
            &&& told["force_discharge_curr"@] == Json::Text(
                float_text(config.force_discharge_current),
            )
            &&& told.dom().contains("min_soc"@)
            &&& told["min_soc"@] == Json::Text(decimal(config.min_soc as nat))
            &&& told.dom().contains("max_soc"@)
            &&& told["max_soc"@] == Json::Text(decimal(config.max_soc as nat))
        }),
{
    law_settings_written(config);
}

/// Whether a filter sets a setting.
pub open spec fn sets(filter: Json, name: Seq<char>) -> bool {
    &&& filter is Object
    &&& filter->Object_0.dom().contains("output"@)
    &&& filter->Object_0["output"@] == Json::Text(name)
    &&& filter->Object_0.dom().contains("init"@)
}

/// Of each setting that filters set, the last of these filters says what it is; a setting that
/// none sets is not there.
pub proof fn law_filters_read(filters: Seq<Json>, name: Seq<char>, at: int)
    ensures
        0 <= at < filters.len() && sets(filters[at], name) && (forall|i: int|
            at < i < filters.len() ==> !sets(#[trigger] filters[i], name)) ==> {
            &&& settings_in(filters).dom().contains(name)
            &&& settings_in(filters)[name] == filters[at]->Object_0["init"@]
        },
        (forall|i: int| 0 <= i < filters.len() ==> !sets(#[trigger] filters[i], name))
            ==> !settings_in(filters).dom().contains(name),
    decreases filters.len(),
{
    if filters.len() > 0 {
        let rest = filters.drop_last();
        let last = filters[filters.len() - 1];
        law_filters_read(rest, name, at);
        assert(forall|i: int| 0 <= i < rest.len() ==> #[trigger] rest[i] == filters[i]);
        if sets(last, name) {
            assert(settings_in(filters)[name] == last->Object_0["init"@]);
        } else {
            assert(settings_in(filters).dom().contains(name) == settings_in(rest).dom().contains(
                name,
            ));
            assert(settings_in(filters)[name] == settings_in(rest)[name]);
        }
    }
}

/// Whether a value says a text: it is one, or a number that is written as one.
pub open spec fn says_text(value: Json, text: Seq<char>) -> bool {
    match value {
        Json::Text(told) => told == text,
        Json::Num(numeral) => text == float_text(double_bits(numeral)),
        _ => false,
    }
}

/// Whether a value says a number: it is one, or a text that denotes one.
pub open spec fn says_number(value: Json, bits: u64) -> bool {
    match value {
        Json::Num(numeral) => bits == double_bits(numeral),
        Json::Text(told) => float_read(told) == Some(bits),
        _ => false,
    }
}

/// Whether a value says a whole number from zero to 255: a number between the two, of which
/// the fractional part is dropped.
pub open spec fn says_byte(value: Json, byte: u8) -> bool {
    exists|bits: u64|
        {
            &&& #[trigger] says_number(value, bits)
            &&& finite(bits)
            &&& bits < 0x8000_0000_0000_0000 || magnitude(bits) == 0
            &&& magnitude(bits) <= 255 * unit()
            &&& byte * unit() <= magnitude(bits) < (byte + 1) * unit()
        }
}

/// Whether a setting is there and says a text, a number or a byte.
pub open spec fn tells_text(settings: Map<Seq<char>, Json>, name: Seq<char>, text: Seq<char>) -> bool {
    settings.dom().contains(name) && says_text(settings[name], text)
}

pub open spec fn tells_number(settings: Map<Seq<char>, Json>, name: Seq<char>, bits: u64) -> bool {
    settings.dom().contains(name) && says_number(settings[name], bits)
}

pub open spec fn tells_byte(settings: Map<Seq<char>, Json>, name: Seq<char>, byte: u8) -> bool {
    settings.dom().contains(name) && says_byte(settings[name], byte)
}

/// Whether settings tell a slot: its mode by its number, its start and its end.
pub open spec fn tells_slot(settings: Map<Seq<char>, Json>, number: nat, slot: Slot) -> bool {
    let name = "s"@ + decimal(number);
    &&& tells_byte(
        settings,
        name + "_mode"@,
        match slot.mode {
            ScheduleMode::Disable => 0u8,
            ScheduleMode::ForcedCharge => 1u8,
            ScheduleMode::ForcedDischarge => 2u8,
        },
    )
    &&& tells_text(settings, name + "_starttime"@, slot.start_time)
    &&& tells_text(settings, name + "_endtime"@, slot.end_time)
}

/// Whether settings tell a schedule. It is on where its state is the text `1`.
pub open spec fn tells(settings: Map<Seq<char>, Json>, config: DailySchedule) -> bool {
    &&& exists|state: Seq<char>| #[trigger]
        tells_text(settings, "sched_state"@, state) && config.state_enabled == (state == "1"@)
    &&& tells_number(settings, "force_charge_curr"@, config.force_charge_current)
    &&& tells_number(settings, "force_discharge_curr"@, config.force_discharge_current)
    &&& tells_byte(settings, "min_soc"@, config.min_soc)
    &&& tells_byte(settings, "max_soc"@, config.max_soc)
    &&& config.schedules.len() == 5
    &&& forall|i: int|
        0 <= i < 5 ==> tells_slot(settings, (i + 1) as nat, #[trigger] config.schedules[i])
}

proof fn lemma_byte(value: Json, name: Seq<char>, byte: u8)
    ensures
        byte_setting(value, name) == Ok::<u8, Fault>(byte) <==> says_byte(value, byte),
{
    if let Ok(bits) = number_setting(value, name) {
        assert(says_number(value, bits));
        assert(forall|other: u64| #[trigger] says_number(value, other) ==> other == bits);
        let (size, one) = (magnitude(bits) as int, unit() as int);
        vstd::arithmetic::power2::lemma_pow2_pos(1074);
        vstd::arithmetic::div_mod::lemma_fundamental_div_mod(size, one);
        let n = crate::double::truncated(bits) as int;
        assert(one * n == n * one) by (nonlinear_arith);
        assert((n + 1) * one == n * one + one) by (nonlinear_arith);
        assert((255 * one) / one == 255) by {
            vstd::arithmetic::div_mod::lemma_div_by_multiple(255, one);
        }
        if within(bits, 255) {
            assert(n <= 255) by (nonlinear_arith)
                requires
                    n * one <= size,
                    size <= 255 * one,
                    one > 0,
            ;
        }
        let b = byte as int;
        if b * one <= size && size < (b + 1) * one {
            assert(b == n) by (nonlinear_arith)
                requires
                    b * one <= size < (b + 1) * one,
                    n * one <= size < (n + 1) * one,
                    one > 0,
            ;
        }
    } else {
        assert(forall|other: u64| !says_number(value, other));
    }
}

proof fn lemma_slot_told(settings: Map<Seq<char>, Json>, number: nat, slot: Slot)
    ensures
        slot_from(settings, number) == Ok::<Slot, Fault>(slot) <==> tells_slot(
            settings,
            number,
            slot,
        ),
{
    let name = "s"@ + decimal(number) + "_mode"@;
    lemma_byte(settings[name], name, 0);
    lemma_byte(settings[name], name, 1);
    lemma_byte(settings[name], name, 2);
    if let Ok(value) = byte_setting(settings[name], name) {
        lemma_byte(settings[name], name, value);
    }
}

proof fn lemma_slots_told(settings: Map<Seq<char>, Json>, count: nat, found: Seq<Slot>)
    ensures
        slots_from(settings, count) == Ok::<Seq<Slot>, Fault>(found) <==> (found.len() == count
            && forall|i: int|
            0 <= i < count ==> tells_slot(settings, (i + 1) as nat, #[trigger] found[i])),
    decreases count,
{
    if count == 0 {
        if found.len() == 0 {
            assert(found =~= Seq::empty());
        }
    } else if found.len() == count {
        let rest = found.drop_last();
        lemma_slots_told(settings, (count - 1) as nat, rest);
        lemma_slot_told(settings, count, found.last());
        assert(found =~= rest.push(found.last()));
        assert(forall|i: int| 0 <= i < rest.len() ==> #[trigger] rest[i] == found[i]);
        if slots_from(settings, count) == Ok::<Seq<Slot>, Fault>(found) {
            let before = slots_from(settings, (count - 1) as nat)->Ok_0;
            assert(before.push(slot_from(settings, count)->Ok_0).drop_last() =~= before);
            assert(found.drop_last() == before);
            assert forall|i: int| 0 <= i < count implies tells_slot(
                settings,
                (i + 1) as nat,
                #[trigger] found[i],
            ) by {
                if i < count - 1 {
                    assert(tells_slot(settings, (i + 1) as nat, rest[i]));
                }
            }
        }
        if forall|i: int|
            0 <= i < count ==> tells_slot(settings, (i + 1) as nat, #[trigger] found[i]) {
            assert(tells_slot(settings, count, found[count - 1]));
            assert forall|i: int| 0 <= i < rest.len() implies tells_slot(
                settings,
                (i + 1) as nat,
                #[trigger] rest[i],
            ) by {
                assert(tells_slot(settings, (i + 1) as nat, found[i]));
            }
        }
    } else {
        lemma_slots_length(settings, count);
    }
}

proof fn lemma_slots_length(settings: Map<Seq<char>, Json>, count: nat)
    ensures
        slots_from(settings, count) is Ok ==> slots_from(settings, count)->Ok_0.len() == count,
    decreases count,
{
    if count > 0 {
        lemma_slots_length(settings, (count - 1) as nat);
    }
}

/// Settings give a schedule if and only if they tell it: every one of the twenty is there and
/// says what it should. What else they say does not matter.
pub proof fn law_schedule_read(answer: Json, filters: Seq<Json>, config: DailySchedule)
    requires
        list_under(answer, "filters"@) == Some(filters),
    ensures
        schedule_in(answer) == Ok::<DailySchedule, Fault>(config) <==> tells(
            settings_in(filters),
            config,
        ),
{
    let settings = settings_in(filters);
    lemma_slots_told(settings, 5, config.schedules);
    lemma_byte(settings["min_soc"@], "min_soc"@, config.min_soc);
    lemma_byte(settings["max_soc"@], "max_soc"@, config.max_soc);
    if settings.dom().contains("sched_state"@) {
        let value = settings["sched_state"@];
        if let Ok(state) = text_setting(value, "sched_state"@) {
            assert(tells_text(settings, "sched_state"@, state));
            assert(forall|other: Seq<char>| #[trigger]
                tells_text(settings, "sched_state"@, other) ==> other == state);
        }
    }
    if let Ok(found) = schedule_in(answer) {
        lemma_slots_told(settings, 5, found.schedules);
    }
}

/// An answer without settings gives no schedule.
pub proof fn law_no_schedule(answer: Json)
    requires
        list_under(answer, "filters"@) is None,
    ensures
        schedule_in(answer) == Err::<DailySchedule, Fault>(
            Fault::QcoreApi("schedule response missing filters"@),
        ),
{
}

/// What is said of a setting that is missing, or that is not what it should be.
pub proof fn law_setting_refused(settings: Map<Seq<char>, Json>, name: Seq<char>, value: Json)
    ensures
        !settings.dom().contains(name) ==> setting(settings, name) == Err::<Json, Fault>(
            Fault::QcoreApi("schedule response missing "@ + name),
        ),
        settings.dom().contains(name) ==> setting(settings, name) == Ok::<Json, Fault>(
            settings[name],
        ),
        !(value is Text) && !(value is Num) ==> {
            &&& text_setting(value, name) == Err::<Seq<char>, Fault>(
                Fault::QcoreApi(
                    "schedule field "@ + name + (" expected string, got "@ + compact_text(value)),
                ),
            )
            &&& number_setting(value, name) == Err::<u64, Fault>(
                Fault::QcoreApi(
                    "schedule field "@ + name + (" expected number, got "@ + compact_text(value)),
                ),
            )
        },
        value is Text && float_read(value->Text_0) is None ==> number_setting(value, name) == Err::<
            u64,
            Fault,
        >(
            Fault::QcoreApi(
                "schedule field "@ + name + (" not a float: "@ + crate::double::float_error(
                    value->Text_0,
                )),
            ),
        ),
        forall|bits: u64|
            number_setting(value, name) == Ok::<u64, Fault>(bits) && (!finite(bits) || (bits
                >= 0x8000_0000_0000_0000 && magnitude(bits) != 0) || magnitude(bits) > 255 * unit())
                ==> byte_setting(value, name) == Err::<u8, Fault>(
                Fault::QcoreApi(
                    "schedule field "@ + name + (" out of u8 range: "@
                        + #[trigger] crate::double::plain_text(bits)),
                ),
            ),
{
}

/// What is said of an answer is what is wrong with the first setting that is not what it
/// should be: slot by slot, of each slot first that a setting is missing, and then the
/// settings outside the slots.
pub proof fn law_first_refusal(settings: Map<Seq<char>, Json>, slot: nat)
    ensures
        1 <= slot <= 5 && slots_from(settings, (slot - 1) as nat) is Ok && slot_from(
            settings,
            slot,
        ) is Err ==> schedule_from(settings) == Err::<DailySchedule, Fault>(
            slot_from(settings, slot)->Err_0,
        ),
        ({
            let name = "s"@ + decimal(slot);
            let (mode, start, end) = (name + "_mode"@, name + "_starttime"@, name + "_endtime"@);
            &&& !settings.dom().contains(mode) ==> slot_from(settings, slot) == Err::<Slot, Fault>(
                Fault::QcoreApi("schedule response missing "@ + mode),
            )
            &&& settings.dom().contains(mode) && !settings.dom().contains(start) ==> slot_from(
                settings,
                slot,
            ) == Err::<Slot, Fault>(Fault::QcoreApi("schedule response missing "@ + start))
            &&& settings.dom().contains(mode) && settings.dom().contains(start)
                && !settings.dom().contains(end) ==> slot_from(settings, slot) == Err::<Slot, Fault>(
                Fault::QcoreApi("schedule response missing "@ + end),
            )
            &&& settings.dom().contains(mode) && settings.dom().contains(start)
                && settings.dom().contains(end) && byte_setting(settings[mode], mode) is Err
                ==> slot_from(settings, slot) == Err::<Slot, Fault>(
                byte_setting(settings[mode], mode)->Err_0,
            )
            &&& settings.dom().contains(mode) && settings.dom().contains(start)
                && settings.dom().contains(end) && byte_setting(settings[mode], mode) is Ok
                && byte_setting(settings[mode], mode)->Ok_0 > 2 ==> slot_from(settings, slot)
                == Err::<Slot, Fault>(
                Fault::InvalidState(
                    "unknown schedule mode value: "@ + decimal(
                        byte_setting(settings[mode], mode)->Ok_0 as nat,
                    ),
                ),
            )
        }),
        slots_from(settings, 5) is Ok && !settings.dom().contains("sched_state"@) ==> schedule_from(
            settings,
        ) == Err::<DailySchedule, Fault>(
            Fault::QcoreApi("schedule response missing sched_state"@),
        ),
{
    if 1 <= slot <= 5 && slots_from(settings, (slot - 1) as nat) is Ok && slot_from(
        settings,
        slot,
    ) is Err {
        lemma_slots_refused(settings, slot, 5);
    }
    reveal_strlit("schedule response missing ");
    reveal_strlit("sched_state");
    reveal_strlit("schedule response missing sched_state");
    assert("schedule response missing "@ + "sched_state"@
        =~= "schedule response missing sched_state"@);
}

proof fn lemma_slots_refused(settings: Map<Seq<char>, Json>, n: nat, count: nat)
    requires
        n <= count,
        slots_from(settings, n) is Err,
    ensures
        slots_from(settings, count) == slots_from(settings, n),
    decreases count,
{
    if n < count {
        lemma_slots_refused(settings, n, (count - 1) as nat);
    }
}

/// A setting is read as what it says, whatever its name: a text, a number, or a whole number
/// from zero to 255.
pub proof fn law_setting_read(value: Json, name: Seq<char>, text: Seq<char>, bits: u64, byte: u8)
    ensures
        text_setting(value, name) == Ok::<Seq<char>, Fault>(text) <==> says_text(value, text),
        number_setting(value, name) == Ok::<u64, Fault>(bits) <==> says_number(value, bits),
        byte_setting(value, name) == Ok::<u8, Fault>(byte) <==> says_byte(value, byte),
{
    lemma_byte(value, name, byte);
}

/// What is said of the settings outside the slots, once the slots are fine: what is wrong with
/// the first one, in this order.
pub proof fn law_general_refusal(settings: Map<Seq<char>, Json>)
    requires
        slots_from(settings, 5) is Ok,
    ensures
        ({
            let state = refusal(settings, "sched_state"@, Content::Text);
            let charge = refusal(settings, "force_charge_curr"@, Content::Number);
            let discharge = refusal(settings, "force_discharge_curr"@, Content::Number);
            let low = refusal(settings, "min_soc"@, Content::Byte);
            let high = refusal(settings, "max_soc"@, Content::Byte);
            let first = if state is Some {
                state
            } else if charge is Some {
                charge
            } else if discharge is Some {
                discharge
            } else if low is Some {
                low
            } else {
                high
            };
            match first {
                Some(fault) => schedule_from(settings) == Err::<DailySchedule, Fault>(fault),
                None => schedule_from(settings) is Ok,
            }
        }),
{
}

/// What a setting should say.
pub enum Content {
    Text,
    Number,
    Byte,
}

/// What is wrong with a setting that should say a text, a number or a byte.
pub open spec fn refusal(
    settings: Map<Seq<char>, Json>,
    name: Seq<char>,
    content: Content,
) -> Option<Fault> {
    if !settings.dom().contains(name) {
        Some(Fault::QcoreApi("schedule response missing "@ + name))
    } else {
        match content {
            Content::Text => match text_setting(settings[name], name) {
                Ok(_) => None,
                Err(fault) => Some(fault),
            },
            Content::Number => match number_setting(settings[name], name) {
                Ok(_) => None,
                Err(fault) => Some(fault),
            },
            Content::Byte => match byte_setting(settings[name], name) {
                Ok(_) => None,
                Err(fault) => Some(fault),
            },
        }
    }
}

/// What is said of a slot whose mode is fine: what is wrong with its start, and then with its
/// end.
pub proof fn law_slot_times_refused(settings: Map<Seq<char>, Json>, slot: nat)
    ensures
        ({
            let name = "s"@ + decimal(slot);
            let (mode, start, end) = (name + "_mode"@, name + "_starttime"@, name + "_endtime"@);
            settings.dom().contains(mode) && settings.dom().contains(start)
                && settings.dom().contains(end) && byte_setting(settings[mode], mode) is Ok
                && byte_setting(settings[mode], mode)->Ok_0 <= 2 ==> {
                &&& text_setting(settings[start], start) is Err ==> slot_from(settings, slot)
                    == Err::<Slot, Fault>(text_setting(settings[start], start)->Err_0)
                &&& text_setting(settings[start], start) is Ok && text_setting(settings[end], end)
                    is Err ==> slot_from(settings, slot) == Err::<Slot, Fault>(
                    text_setting(settings[end], end)->Err_0,
                )
            }
        }),
{
}

}
