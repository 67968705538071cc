//! What holds of the entities, the topics and the documents with their states.
use vstd::prelude::*;

use crate::command::{decoded, Command};
use crate::discovery::{
    energy_table, general_states, reading_states, schedule_states, slot_key,
    status_table, with_readings, with_slot_states, Sensor,
};
use crate::double::{double_json, Numeral};
use crate::error::Fault;
use crate::json::{elements, empty_object, member, string, Json};
use crate::model::{
    mode_name, mode_named, DailySchedule, Data, ScheduleMode, Slot, SCHEDULE_COUNT,
};
use crate::mqtt::{mode_names, slot_id, Entity, Publisher};
use crate::text::{decimal, lemma_decimal};

verus! {

broadcast use vstd::string::group_string_axioms;

/// The entities of the slots: three for each, in order.
proof fn lemma_slot_entities(publisher: Publisher, count: nat)
    ensures
        publisher.slot_entities(count).len() == 3 * count,
        forall|slot: nat|
            #![trigger publisher.mode_entity(slot)]
            1 <= slot <= count ==> publisher.slot_entities(count)[3 * slot - 3]
                == publisher.mode_entity(slot),
        forall|slot: nat|
            #![trigger publisher.time_entity(slot, " Start"@, "_start"@)]
            1 <= slot <= count ==> publisher.slot_entities(count)[3 * slot - 2]
                == publisher.time_entity(slot, " Start"@, "_start"@),
        forall|slot: nat|
            #![trigger publisher.time_entity(slot, " End"@, "_end"@)]
            1 <= slot <= count ==> publisher.slot_entities(count)[3 * slot - 1]
                == publisher.time_entity(slot, " End"@, "_end"@),
    decreases count,
{
    if count > 0 {
        lemma_slot_entities(publisher, (count - 1) as nat);
        let before = publisher.slot_entities((count - 1) as nat);
        let all = publisher.slot_entities(count);
        assert(forall|i: int| 0 <= i < before.len() ==> #[trigger] all[i] == before[i]);
    }
}

/// What kind of entity stands at a position.
pub enum Kind {
    Reading,
    Current,
    Switch,
    MinLimit,
    MaxLimit,
    Mode { slot: nat },
    Start { slot: nat },
    End { slot: nat },
}

/// What kind of entity stands at a position.
pub open spec fn kind_at(at: int) -> Kind {
    if at < 6 {
        Kind::Reading
    } else if at < 8 {
        Kind::Current
    } else if at == 8 {
        Kind::Switch
    } else if at == 9 {
        Kind::MinLimit
    } else if at == 10 {
        Kind::MaxLimit
    } else {
        let slot = ((at - 11) / 3 + 1) as nat;
        if (at - 11) % 3 == 0 {
            Kind::Mode { slot }
        } else if (at - 11) % 3 == 1 {
            Kind::Start { slot }
        } else {
            Kind::End { slot }
        }
    }
}

proof fn lemma_entity_at(publisher: Publisher, at: int)
    requires
        0 <= at < publisher.entities().len(),
    ensures
        publisher.entities().len() == 26,
        match kind_at(at) {
            Kind::Reading => if at < 2 {
                publisher.entities()[at] == publisher.reading_entity(
                    status_table()[at],
                    "measurement"@,
                )
            } else {
                publisher.entities()[at] == publisher.reading_entity(
                    energy_table()[at - 2],
                    crate::mqtt::state_class(energy_table()[at - 2].device_class),
                )
            },
            Kind::Current => publisher.entities()[at] == publisher.general_entities()[at - 6],
            Kind::Switch => publisher.entities()[at] == publisher.switch_entity(),
            Kind::MinLimit => publisher.entities()[at] == publisher.limit_entity(
                "Min SoC"@,
                "qc_min_soc"@,
                "min_soc"@,
            ),
            Kind::MaxLimit => publisher.entities()[at] == publisher.limit_entity(
                "Max SoC"@,
                "qc_max_soc"@,
                "max_soc"@,
            ),
            Kind::Mode { slot } => 1 <= slot <= SCHEDULE_COUNT && publisher.entities()[at]
                == publisher.mode_entity(slot),
            Kind::Start { slot } => 1 <= slot <= SCHEDULE_COUNT && publisher.entities()[at]
                == publisher.time_entity(slot, " Start"@, "_start"@),
            Kind::End { slot } => 1 <= slot <= SCHEDULE_COUNT && publisher.entities()[at]
                == publisher.time_entity(slot, " End"@, "_end"@),
        },
{
    lemma_slot_entities(publisher, SCHEDULE_COUNT as nat);
    let slots = publisher.slot_entities(SCHEDULE_COUNT as nat);
    if at >= 11 {
        let slot = ((at - 11) / 3 + 1) as nat;
        assert(publisher.entities()[at] == slots[at - 11]);
        assert(publisher.mode_entity(slot) == slots[3 * slot - 3]);
        assert(publisher.time_entity(slot, " Start"@, "_start"@) == slots[3 * slot - 2]);
        assert(publisher.time_entity(slot, " End"@, "_end"@) == slots[3 * slot - 1]);
    }
}

/// There are twenty-six entities.
pub proof fn lemma_entity_count(publisher: Publisher)
    ensures
        publisher.entities().len() == 26,
{
    lemma_slot_entities(publisher, SCHEDULE_COUNT as nat);
}

/// The entities of a slot stand next to each other.
pub proof fn lemma_slot_entity_at(publisher: Publisher, slot: nat)
    requires
        1 <= slot <= SCHEDULE_COUNT,
    ensures
        publisher.entities()[3 * slot as int + 8] == publisher.mode_entity(slot),
        publisher.entities()[3 * slot as int + 9] == publisher.time_entity(slot, " Start"@, "_start"@),
        publisher.entities()[3 * slot as int + 10] == publisher.time_entity(slot, " End"@, "_end"@),
{
    lemma_entity_count(publisher);
    lemma_entity_at(publisher, 3 * slot as int + 8);
    lemma_entity_at(publisher, 3 * slot as int + 9);
    lemma_entity_at(publisher, 3 * slot as int + 10);
}

/// The ids of the slots' entities differ where the slots or the settings do.
proof fn lemma_slot_ids(i: nat, j: nat, a: Seq<char>, b: Seq<char>)
    requires
        i < 10,
        j < 10,
        i != j || a != b,
    ensures
        slot_id(i, a) != slot_id(j, b),
{
    let head = "qc_schedule_"@;
    let (left, right) = (slot_id(i, a), slot_id(j, b));
    if left == right {
        assert(left[head.len() as int] == decimal(i)[0]);
        assert(right[head.len() as int] == decimal(j)[0]);
        assert(left.skip((head.len() + 1) as int) =~= a);
        assert(right.skip((head.len() + 1) as int) =~= b);
    }
}

/// The ids of the entities outside the slots.
spec fn fixed_ids() -> Seq<Seq<char>> {
    seq![
        "qc_grid_export"@,
        "qc_battery_discharge"@,
        "qc_battery_soc"@,
        "qc_import_energy"@,
        "qc_export_energy"@,
        "qc_self_consumption"@,
        "qc_force_charge_current"@,
        "qc_force_discharge_current"@,
        "qc_schedule_enabled"@,
        "qc_min_soc"@,
        "qc_max_soc"@,
    ]
}

proof fn lemma_fixed_ids()
    ensures
        forall|i: int, j: int|
            0 <= i < j < fixed_ids().len() ==> #[trigger] fixed_ids()[i] != #[trigger] fixed_ids()[j],
        forall|i: int, slot: nat, tail: Seq<char>|
            0 <= i < fixed_ids().len() && slot < 10 ==> #[trigger] fixed_ids()[i]
                != #[trigger] slot_id(slot, tail),
{
    reveal_strlit("qc_schedule_");
    reveal_strlit("qc_grid_export");
    reveal_strlit("qc_battery_discharge");
    reveal_strlit("qc_battery_soc");
    reveal_strlit("qc_import_energy");
    reveal_strlit("qc_export_energy");
    reveal_strlit("qc_self_consumption");
    reveal_strlit("qc_force_charge_current");
    reveal_strlit("qc_force_discharge_current");
    reveal_strlit("qc_schedule_enabled");
    reveal_strlit("qc_min_soc");
    reveal_strlit("qc_max_soc");
    assert("qc_grid_export"@.len() == 14);
    assert("qc_battery_discharge"@.len() == 20);
    assert("qc_battery_soc"@.len() == 14);
    assert("qc_import_energy"@.len() == 16);
    assert("qc_export_energy"@.len() == 16);
    assert("qc_self_consumption"@.len() == 19);
    assert("qc_force_charge_current"@.len() == 23);
    assert("qc_force_discharge_current"@.len() == 26);
    assert("qc_schedule_enabled"@.len() == 19);
    assert("qc_min_soc"@.len() == 10);
    assert("qc_max_soc"@.len() == 10);
    assert("qc_grid_export"@[3] != "qc_battery_soc"@[3]);
    assert("qc_import_energy"@[3] != "qc_export_energy"@[3]);
    assert("qc_self_consumption"@[4] != "qc_schedule_enabled"@[4]);
    assert("qc_min_soc"@[4] != "qc_max_soc"@[4]);
    assert forall|i: int, slot: nat, tail: Seq<char>|
        0 <= i < fixed_ids().len() && slot < 10 implies #[trigger] fixed_ids()[i]
        != #[trigger] slot_id(slot, tail) by {
        let id = slot_id(slot, tail);
        assert(id[3] == 's' && id[4] == 'c' && id[12] == decimal(slot)[0]);
    }
}

/// No two entities have the same id.
pub proof fn law_ids_distinct(publisher: Publisher, i: int, j: int)
    requires
        0 <= i < j < publisher.entities().len(),
    ensures
        publisher.entities()[i].unique_id != publisher.entities()[j].unique_id,
{
    lemma_entity_at(publisher, i);
    lemma_entity_at(publisher, j);
    lemma_fixed_ids();
    lemma_tails_differ();
    let (first, second) = (publisher.entities()[i].unique_id, publisher.entities()[j].unique_id);
    assert(i < 11 ==> first == fixed_ids()[i]);
    assert(j < 11 ==> second == fixed_ids()[j]);
    if i >= 11 {
        let (slot, other) = (((i - 11) / 3 + 1) as nat, ((j - 11) / 3 + 1) as nat);
        let (tail, last) = (tail_at(i), tail_at(j));
        assert(first == slot_id(slot, tail));
        assert(second == slot_id(other, last));
        if slot == other {
            assert((i - 11) % 3 != (j - 11) % 3);
        }
        lemma_slot_ids(slot, other, tail, last);
    } else if j >= 11 {
        let other = ((j - 11) / 3 + 1) as nat;
        assert(second == slot_id(other, tail_at(j)));
        assert(fixed_ids()[i] != slot_id(other, tail_at(j)));
    }
}

/// The tail of the id and the keys of a slot's entity.
spec fn tail_at(at: int) -> Seq<char> {
    if (at - 11) % 3 == 0 {
        "_mode"@
    } else if (at - 11) % 3 == 1 {
        "_start"@
    } else {
        "_end"@
    }
}

proof fn lemma_tails_differ()
    ensures
        "_mode"@ != "_start"@,
        "_mode"@ != "_end"@,
        "_start"@ != "_end"@,
        "_mode"@.len() > 0 && "_start"@.len() > 0 && "_end"@.len() > 0,
        "_mode"@.last() == 'e' && "_start"@.last() == 't' && "_end"@.last() == 'd',
{
    reveal_strlit("_mode");
    reveal_strlit("_start");
    reveal_strlit("_end");
    assert("_mode"@[1] != "_start"@[1]);
    assert("_mode"@[1] != "_end"@[1]);
    assert("_start"@[1] != "_end"@[1]);
}

/// The topic on which an entity takes commands, where it takes any.
pub open spec fn command_topic_in(entity: Entity) -> Option<Seq<char>> {
    match member(entity.payload, "command_topic"@) {
        Some(topic) => string(topic),
        None => None,
    }
}

/// The key for the commands of an entity, where it takes any.
pub open spec fn command_key(kind: Kind) -> Option<Seq<char>> {
    match kind {
        Kind::Reading => None,
        Kind::Current => None,
        Kind::Switch => Some("schedule_enabled"@),
        Kind::MinLimit => Some("min_soc"@),
        Kind::MaxLimit => Some("max_soc"@),
        Kind::Mode { slot } => Some(slot_key(slot, "_mode"@)),
        Kind::Start { slot } => Some(slot_key(slot, "_start"@)),
        Kind::End { slot } => Some(slot_key(slot, "_end"@)),
    }
}

/// The names of the members of discovery messages that stand behind the command topic.
proof fn lemma_member_names()
    ensures
        "command_topic"@ != "name"@,
        "command_topic"@ != "unique_id"@,
        "command_topic"@ != "state_topic"@,
        "command_topic"@ != "value_template"@,
        "command_topic"@ != "availability_topic"@,
        "command_topic"@ != "payload_available"@,
        "command_topic"@ != "payload_not_available"@,
        "command_topic"@ != "device"@,
        "command_topic"@ != "device_class"@,
        "command_topic"@ != "unit_of_measurement"@,
        "command_topic"@ != "state_class"@,
        "command_topic"@ != "payload_on"@,
        "command_topic"@ != "payload_off"@,
        "command_topic"@ != "state_on"@,
        "command_topic"@ != "state_off"@,
        "command_topic"@ != "optimistic"@,
        "command_topic"@ != "min"@,
        "command_topic"@ != "max"@,
        "command_topic"@ != "step"@,
        "command_topic"@ != "mode"@,
        "command_topic"@ != "options"@,
        "command_topic"@ != "pattern"@,
{
    reveal_strlit("command_topic");
    reveal_strlit("name");
    reveal_strlit("unique_id");
    reveal_strlit("state_topic");
    reveal_strlit("value_template");
    reveal_strlit("availability_topic");
    reveal_strlit("payload_available");
    reveal_strlit("payload_not_available");
    reveal_strlit("device");
    reveal_strlit("device_class");
    reveal_strlit("unit_of_measurement");
    reveal_strlit("state_class");
    reveal_strlit("payload_on");
    reveal_strlit("payload_off");
    reveal_strlit("state_on");
    reveal_strlit("state_off");
    reveal_strlit("optimistic");
    reveal_strlit("min");
    reveal_strlit("max");
    reveal_strlit("step");
    reveal_strlit("mode");
    reveal_strlit("options");
    reveal_strlit("pattern");
    assert("name"@.len() != "command_topic"@.len());
    assert("unique_id"@.len() != "command_topic"@.len());
    assert("state_topic"@.len() != "command_topic"@.len());
    assert("value_template"@.len() != "command_topic"@.len());
    assert("availability_topic"@.len() != "command_topic"@.len());
    assert("payload_available"@.len() != "command_topic"@.len());
    assert("payload_not_available"@.len() != "command_topic"@.len());
    assert("device"@.len() != "command_topic"@.len());
    assert("device_class"@.len() != "command_topic"@.len());
    assert("unit_of_measurement"@.len() != "command_topic"@.len());
    assert("state_class"@.len() != "command_topic"@.len());
    assert("payload_on"@.len() != "command_topic"@.len());
    assert("payload_off"@.len() != "command_topic"@.len());
    assert("state_on"@.len() != "command_topic"@.len());
    assert("state_off"@.len() != "command_topic"@.len());
    assert("optimistic"@.len() != "command_topic"@.len());
    assert("min"@.len() != "command_topic"@.len());
    assert("max"@.len() != "command_topic"@.len());
    assert("step"@.len() != "command_topic"@.len());
    assert("mode"@.len() != "command_topic"@.len());
    assert("options"@.len() != "command_topic"@.len());
    assert("pattern"@.len() != "command_topic"@.len());
}

pub proof fn lemma_command_topic_at(publisher: Publisher, at: int)
    requires
        0 <= at < publisher.entities().len(),
    ensures
        command_topic_in(publisher.entities()[at]) == (match command_key(kind_at(at)) {
            Some(key) => Some(publisher.command_topic(key)),
            None => None,
        }),
{
    lemma_entity_at(publisher, at);
    lemma_member_names();
}

/// The topics of the slots: three for each, in order.
proof fn lemma_slot_topics(publisher: Publisher, count: nat)
    ensures
        publisher.slot_topics(count).len() == 3 * count,
        forall|slot: nat|
            #![trigger slot_key(slot, "_mode"@)]
            1 <= slot <= count ==> publisher.slot_topics(count)[3 * slot - 3]
                == publisher.command_topic(slot_key(slot, "_mode"@)),
        forall|slot: nat|
            #![trigger slot_key(slot, "_start"@)]
            1 <= slot <= count ==> publisher.slot_topics(count)[3 * slot - 2]
                == publisher.command_topic(slot_key(slot, "_start"@)),
        forall|slot: nat|
            #![trigger slot_key(slot, "_end"@)]
            1 <= slot <= count ==> publisher.slot_topics(count)[3 * slot - 1]
                == publisher.command_topic(slot_key(slot, "_end"@)),
    decreases count,
{
    if count > 0 {
        lemma_slot_topics(publisher, (count - 1) as nat);
        let before = publisher.slot_topics((count - 1) as nat);
        let all = publisher.slot_topics(count);
        assert(forall|i: int| 0 <= i < before.len() ==> #[trigger] all[i] == before[i]);
    }
}

/// The topics of a slot stand next to each other.
pub proof fn lemma_slot_topic_at(publisher: Publisher, slot: nat)
    requires
        1 <= slot <= SCHEDULE_COUNT,
    ensures
        publisher.subscriptions().len() == 19,
        publisher.subscriptions()[3 * slot as int + 1] == publisher.command_topic(slot_key(slot, "_mode"@)),
        publisher.subscriptions()[3 * slot as int + 2] == publisher.command_topic(slot_key(slot, "_start"@)),
        publisher.subscriptions()[3 * slot as int + 3] == publisher.command_topic(slot_key(slot, "_end"@)),
{
    lemma_slot_topics(publisher, SCHEDULE_COUNT as nat);
    let topics = publisher.slot_topics(SCHEDULE_COUNT as nat);
    assert(publisher.subscriptions()[3 * slot as int + 1] == topics[3 * slot - 3]);
    assert(publisher.subscriptions()[3 * slot as int + 2] == topics[3 * slot - 2]);
    assert(publisher.subscriptions()[3 * slot as int + 3] == topics[3 * slot - 1]);
}

/// Behind the topic of Home Assistant, the adapter listens to the command topics of its
/// entities, in the order of the entities.
proof fn lemma_subscription_at(publisher: Publisher, at: int)
    requires
        1 <= at < publisher.subscriptions().len(),
    ensures
        publisher.subscriptions().len() == 19,
        command_key(kind_at(at + 7)) is Some,
        publisher.subscriptions()[at] == publisher.command_topic(command_key(kind_at(at + 7))->0),
{
    lemma_slot_topics(publisher, SCHEDULE_COUNT as nat);
    let topics = publisher.slot_topics(SCHEDULE_COUNT as nat);
    if at >= 4 {
        let slot = ((at - 4) / 3 + 1) as nat;
        assert(publisher.subscriptions()[at] == topics[at - 4]);
        assert(topics[3 * slot - 3] == publisher.command_topic(slot_key(slot, "_mode"@)));
        assert(topics[3 * slot - 2] == publisher.command_topic(slot_key(slot, "_start"@)));
        assert(topics[3 * slot - 1] == publisher.command_topic(slot_key(slot, "_end"@)));
    }
}

/// The adapter listens to every topic that it announces for commands.
pub proof fn law_commands_heard(publisher: Publisher, at: int)
    requires
        0 <= at < publisher.entities().len(),
        command_topic_in(publisher.entities()[at]) is Some,
    ensures
        publisher.subscriptions().contains(command_topic_in(publisher.entities()[at])->0),
{
    lemma_command_topic_at(publisher, at);
    lemma_entity_at(publisher, at);
    lemma_slot_topics(publisher, SCHEDULE_COUNT as nat);
    lemma_subscription_at(publisher, at - 7);
    assert(publisher.subscriptions()[at - 7] == command_topic_in(publisher.entities()[at])->0);
}

/// The adapter listens to no topic for commands that it does not announce: the first topic
/// is that of Home Assistant, and each other one is announced by an entity.
pub proof fn law_commands_announced(publisher: Publisher, at: int)
    requires
        0 <= at < publisher.subscriptions().len(),
    ensures
        at == 0 ==> publisher.subscriptions()[at] == publisher.birth_topic(),
        at > 0 ==> exists|i: int|
            0 <= i < publisher.entities().len() && #[trigger] command_topic_in(
                publisher.entities()[i],
            ) == Some(publisher.subscriptions()[at]),
{
    if at > 0 {
        lemma_subscription_at(publisher, at);
        lemma_slot_entities(publisher, SCHEDULE_COUNT as nat);
        lemma_command_topic_at(publisher, at + 7);
        assert(command_topic_in(publisher.entities()[at + 7]) == Some(
            publisher.subscriptions()[at],
        ));
    }
}

/// Whatever comes under a command topic that the adapter listens to is a command or an error,
/// never nothing.
pub proof fn law_commands_known(publisher: Publisher, at: int, payload: Seq<u8>)
    requires
        1 <= at < publisher.subscriptions().len(),
    ensures
        decoded(publisher.topic_prefix, publisher.subscriptions()[at], payload) != Ok::<
            Option<Command>,
            Fault,
        >(None),
{
    lemma_subscription_at(publisher, at);
    let key = command_key(kind_at(at + 7))->0;
    let head = publisher.topic_prefix + "/cmd/"@;
    let topic = publisher.command_topic(key);
    assert(head.is_prefix_of(topic));
    assert(topic.skip(head.len() as int) =~= key);
    if at >= 4 {
        let slot = ((at - 4) / 3 + 1) as nat;
        crate::laws::command::lemma_slot_in(slot, tail_at(at + 7));
    }
}

/// Every mode that is offered for a slot is taken.
pub proof fn law_options_taken(publisher: Publisher, slot: nat, option: int)
    requires
        1 <= slot <= SCHEDULE_COUNT,
        0 <= option < mode_names().len(),
    ensures
        decoded(
            publisher.topic_prefix,
            publisher.command_topic(slot_key(slot, "_mode"@)),
            vstd::utf8::encode_utf8(mode_names()[option]),
        ) matches Ok(Some(Command::ScheduleMode { slot: named, mode })) && named == slot
            && mode_name(mode) == mode_names()[option],
{
    let mode = if option == 0 {
        ScheduleMode::Disable
    } else if option == 1 {
        ScheduleMode::ForcedCharge
    } else {
        ScheduleMode::ForcedDischarge
    };
    assert(mode_names()[option] == mode_name(mode));
    crate::laws::command::law_modes_decoded(publisher.topic_prefix, slot, mode);
}

/// The options that an entity offers, where it offers any.
pub open spec fn options_in(entity: Entity) -> Option<Seq<Json>> {
    match member(entity.payload, "options"@) {
        Some(options) => elements(options),
        None => None,
    }
}

/// The modes that are offered for a slot are exactly those that are taken: the entity offers
/// a text if and only if the text is the name of a mode.
pub proof fn law_options_exact(publisher: Publisher, slot: nat, text: Seq<char>)
    ensures
        ({
            let options = options_in(publisher.mode_entity(slot));
            &&& options is Some
            &&& options->0.contains(Json::Text(text)) <==> mode_named(text) is Some
            &&& forall|i: int| 0 <= i < options->0.len() ==> (#[trigger] options->0[i]) is Text
        }),
{
    reveal_strlit("options");
    reveal_strlit("optimistic");
    assert("options"@.len() != "optimistic"@.len());
    let options = mode_names().map_values(|option: Seq<char>| Json::Text(option));
    assert(options_in(publisher.mode_entity(slot)) == Some(options));
    if mode_named(text) is Some {
        let i: int = match mode_named(text)->0 {
            ScheduleMode::Disable => 0,
            ScheduleMode::ForcedCharge => 1,
            ScheduleMode::ForcedDischarge => 2,
        };
        assert(mode_names()[i] == text);
        assert(options[i] == Json::Text(text));
    }
    if options.contains(Json::Text(text)) {
        let i = choose|i: int| 0 <= i < options.len() && options[i] == Json::Text(text);
        assert(mode_names()[i] == text);
    }
}

/// The keys of slots differ where the slots do, or where their tails end differently.
proof fn lemma_slot_keys(i: nat, j: nat, a: Seq<char>, b: Seq<char>)
    requires
        a.len() > 0 && b.len() > 0,
        if a == b {
            i != j
        } else {
            a.last() != b.last()
        },
    ensures
        slot_key(i, a) != slot_key(j, b),
{
    let head = "schedule_"@;
    let (left, right) = (slot_key(i, a), slot_key(j, b));
    if left == right {
        if a != b {
            assert(left.last() == a.last());
            assert(right.last() == b.last());
        } else {
            let n = head.len() as int;
            assert(left.subrange(n, left.len() - a.len()) =~= decimal(i));
            assert(right.subrange(n, right.len() - b.len()) =~= decimal(j));
            lemma_decimal(i);
            lemma_decimal(j);
        }
    }
}

/// The topics that the entities announce for commands.
pub open spec fn announced_topics(publisher: Publisher) -> Set<Seq<char>> {
    Set::new(
        |topic: Seq<char>|
            exists|i: int|
                0 <= i < publisher.entities().len() && #[trigger] command_topic_in(
                    publisher.entities()[i],
                ) == Some(topic),
    )
}

/// The keys for commands differ, and none ends like the topic of Home Assistant.
proof fn lemma_command_keys(i: int, j: int)
    requires
        8 <= i < 26,
        8 <= j < 26,
    ensures
        command_key(kind_at(i)) is Some,
        i != j ==> command_key(kind_at(i)) != command_key(kind_at(j)),
        command_key(kind_at(i))->0.len() > 0,
        command_key(kind_at(i))->0.last() != 's',
{
    reveal_strlit("schedule_enabled");
    reveal_strlit("min_soc");
    reveal_strlit("max_soc");
    lemma_tails_differ();
    let (slot, other) = (((i - 11) / 3 + 1) as nat, ((j - 11) / 3 + 1) as nat);
    if i >= 11 {
        let tail = tail_at(i);
        assert(command_key(kind_at(i)) == Some(slot_key(slot, tail)));
        assert(slot_key(slot, tail).last() == tail.last());
        crate::laws::command::lemma_general_keys(slot, tail);
    }
    if j >= 11 {
        assert(command_key(kind_at(j)) == Some(slot_key(other, tail_at(j))));
        crate::laws::command::lemma_general_keys(other, tail_at(j));
    }
    if i >= 11 && j >= 11 && i != j {
        if slot == other {
            assert((i - 11) % 3 != (j - 11) % 3);
        }
        lemma_slot_keys(slot, other, tail_at(i), tail_at(j));
    }
    assert("schedule_enabled"@.len() == 16 && "min_soc"@.len() == 7 && "max_soc"@.len() == 7);
    assert("min_soc"@[1] != "max_soc"@[1]);
    assert("schedule_enabled"@.last() == 'd' && "min_soc"@.last() == 'c' && "max_soc"@.last()
        == 'c');
}

/// The adapter listens to no topic twice.
proof fn lemma_subscriptions_differ(publisher: Publisher)
    ensures
        publisher.subscriptions().no_duplicates(),
        publisher.subscriptions().len() == 19,
{
    let topics = publisher.subscriptions();
    lemma_slot_topics(publisher, SCHEDULE_COUNT as nat);
    reveal_strlit("/status");
    let birth = publisher.birth_topic();
    assert(birth.last() == "/status"@.last());
    let head = publisher.topic_prefix + "/cmd/"@;
    assert forall|i: int, j: int|
        0 <= i < topics.len() && 0 <= j < topics.len() && i != j implies topics[i] != topics[j] by {
        if i > 0 {
            lemma_subscription_at(publisher, i);
            lemma_command_keys(i + 7, i + 7);
            let key = command_key(kind_at(i + 7))->0;
            assert(topics[i].last() == key.last());
            assert(topics[i].skip(head.len() as int) =~= key);
        }
        if j > 0 {
            lemma_subscription_at(publisher, j);
            lemma_command_keys(j + 7, j + 7);
            let key = command_key(kind_at(j + 7))->0;
            assert(topics[j].last() == key.last());
            assert(topics[j].skip(head.len() as int) =~= key);
        }
        if i > 0 && j > 0 {
            lemma_command_keys(i + 7, j + 7);
        }
    }
}

/// What is announced for commands and what is listened to agree: the topics that the entities
/// announce are the topics that the adapter listens to without that of Home Assistant, and
/// they are eighteen. Whatever comes under one of them is a command or an error. And of each
/// slot the modes that its entity offers are exactly the names that are taken.
pub proof fn law_announced_and_heard(publisher: Publisher)
    ensures
        announced_topics(publisher) == publisher.subscriptions().to_set().remove(
            publisher.birth_topic(),
        ),
        publisher.subscriptions().contains(publisher.birth_topic()),
        announced_topics(publisher).finite(),
        announced_topics(publisher).len() == 18,
        forall|topic: Seq<char>, payload: Seq<u8>|
            announced_topics(publisher).contains(topic) ==> #[trigger] decoded(
                publisher.topic_prefix,
                topic,
                payload,
            ) != Ok::<Option<Command>, Fault>(None),
        forall|slot: nat, text: Seq<char>|
            #![trigger publisher.mode_entity(slot), mode_named(text)]
            1 <= slot <= SCHEDULE_COUNT ==> {
                let options = options_in(publisher.mode_entity(slot));
                &&& publisher.entities().contains(publisher.mode_entity(slot))
                &&& options is Some
                &&& options->0.contains(Json::Text(text)) <==> mode_named(text) is Some
            },
{
    let topics = publisher.subscriptions();
    let announced = announced_topics(publisher);
    let heard = topics.to_set();
    let birth = publisher.birth_topic();
    lemma_subscriptions_differ(publisher);
    topics.unique_seq_to_set();
    assert(topics[0] == birth);
    assert forall|topic: Seq<char>| #[trigger] announced.contains(topic) <==> heard.remove(
        birth,
    ).contains(topic) by {
        if announced.contains(topic) {
            let i = choose|i: int|
                0 <= i < publisher.entities().len() && #[trigger] command_topic_in(
                    publisher.entities()[i],
                ) == Some(topic);
            lemma_command_topic_at(publisher, i);
            lemma_entity_at(publisher, i);
            lemma_subscription_at(publisher, i - 7);
            assert(topics[i - 7] == topic);
            assert(topics[i - 7] != topics[0]);
        }
        if heard.remove(birth).contains(topic) {
            let at = choose|at: int| 0 <= at < topics.len() && topics[at] == topic;
            law_commands_announced(publisher, at);
        }
    }
    assert(announced =~= heard.remove(birth));
    assert forall|topic: Seq<char>, payload: Seq<u8>|
        announced.contains(topic) implies #[trigger] decoded(
        publisher.topic_prefix,
        topic,
        payload,
    ) != Ok::<Option<Command>, Fault>(None) by {
        assert(heard.remove(birth).contains(topic));
        let at = choose|at: int| 0 <= at < topics.len() && topics[at] == topic;
        law_commands_known(publisher, at, payload);
    }
    assert forall|slot: nat, text: Seq<char>|
        #![trigger publisher.mode_entity(slot), mode_named(text)]
        1 <= slot <= SCHEDULE_COUNT implies {
        let options = options_in(publisher.mode_entity(slot));
        &&& publisher.entities().contains(publisher.mode_entity(slot))
        &&& options is Some
        &&& options->0.contains(Json::Text(text)) <==> mode_named(text) is Some
    } by {
        law_options_exact(publisher, slot, text);
        lemma_slot_entities(publisher, SCHEDULE_COUNT as nat);
        let at = (3 * slot + 8) as int;
        lemma_entity_at(publisher, at);
        assert(publisher.entities()[at] == publisher.mode_entity(slot));
    }
}

/// What is told of later slots leaves what was told before.
proof fn lemma_states_kept(
    members: Map<Seq<char>, Json>,
    schedules: Seq<Slot>,
    count: nat,
    key: Seq<char>,
)
    requires
        forall|slot: nat|
            #![trigger decimal(slot)]
            1 <= slot <= count ==> slot_key(slot, "_mode"@) != key && slot_key(slot, "_start"@)
                != key && slot_key(slot, "_end"@) != key,
    ensures
        with_slot_states(members, schedules, count).dom().contains(key) == members.dom().contains(
            key,
        ),
        with_slot_states(members, schedules, count)[key] == members[key],
    decreases count,
{
    if count > 0 {
        assert(decimal(count) == decimal(count));
        lemma_states_kept(members, schedules, (count - 1) as nat, key);
    }
}

/// What is told of a slot is told.
proof fn lemma_slot_told(
    members: Map<Seq<char>, Json>,
    schedules: Seq<Slot>,
    slot: nat,
    count: nat,
)
    requires
        1 <= slot <= count,
    ensures
        ({
            let all = with_slot_states(members, schedules, count);
            &&& all.dom().contains(slot_key(slot, "_mode"@))
            &&& all[slot_key(slot, "_mode"@)] == Json::Text(mode_name(schedules[slot - 1].mode))
            &&& all.dom().contains(slot_key(slot, "_start"@))
            &&& all[slot_key(slot, "_start"@)] == Json::Text(schedules[slot - 1].start_time)
            &&& all.dom().contains(slot_key(slot, "_end"@))
            &&& all[slot_key(slot, "_end"@)] == Json::Text(schedules[slot - 1].end_time)
        }),
    decreases count,
{
    lemma_tails_differ();
    let tails = seq!["_mode"@, "_start"@, "_end"@];
    assert(tails[0] == "_mode"@ && tails[1] == "_start"@ && tails[2] == "_end"@);
    assert forall|i: int, j: int|
        0 <= i < 3 && 0 <= j < 3 && (slot != count || i != j) implies slot_key(
        slot,
        #[trigger] tails[i],
    ) != slot_key(count, #[trigger] tails[j]) by {
        lemma_slot_keys(slot, count, tails[i], tails[j]);
    }
    if slot < count {
        lemma_slot_told(members, schedules, slot, (count - 1) as nat);
    }
}

/// The document with the schedule tells every slot that the schedule has, under the keys
/// that the entities of the slot look at.
pub proof fn law_slots_told(config: DailySchedule, slot: nat)
    requires
        1 <= slot <= config.schedules.len(),
    ensures
        ({
            let told = schedule_states(config);
            let shown = config.schedules[slot - 1];
            &&& told.dom().contains(slot_key(slot, "_mode"@))
            &&& told[slot_key(slot, "_mode"@)] == Json::Text(mode_name(shown.mode))
            &&& told.dom().contains(slot_key(slot, "_start"@))
            &&& told[slot_key(slot, "_start"@)] == Json::Text(shown.start_time)
            &&& told.dom().contains(slot_key(slot, "_end"@))
            &&& told[slot_key(slot, "_end"@)] == Json::Text(shown.end_time)
        }),
{
    lemma_slot_told(general_states(config), config.schedules, slot, config.schedules.len());
}

/// The document with the schedule tells the settings outside the slots, under the keys that
/// their entities look at.
pub proof fn law_settings_told(config: DailySchedule)
    ensures
        ({
            let told = schedule_states(config);
            &&& told.dom().contains("schedule_enabled"@)
            &&& told["schedule_enabled"@] == Json::Text(
                if config.state_enabled {
                    "ON"@
                } else {
                    "OFF"@
                },
            )
            &&& told.dom().contains("min_soc"@)
            &&& told["min_soc"@] == Json::Num(Numeral::Integer(config.min_soc as int))
            &&& told.dom().contains("max_soc"@)
            &&& told["max_soc"@] == Json::Num(Numeral::Integer(config.max_soc as int))
            &&& told.dom().contains("force_charge_current"@)
            &&& told["force_charge_current"@] == double_json(config.force_charge_current)
            &&& told.dom().contains("force_discharge_current"@)
            &&& told["force_discharge_current"@] == double_json(config.force_discharge_current)
        }),
{
    reveal_strlit("schedule_");
    reveal_strlit("schedule_enabled");
    reveal_strlit("min_soc");
    reveal_strlit("max_soc");
    reveal_strlit("force_charge_current");
    reveal_strlit("force_discharge_current");
    let count = config.schedules.len();
    assert forall|slot: nat, tail: Seq<char>| true implies {
        &&& #[trigger] slot_key(slot, tail) != "schedule_enabled"@
        &&& slot_key(slot, tail) != "min_soc"@
        &&& slot_key(slot, tail) != "max_soc"@
        &&& slot_key(slot, tail) != "force_charge_current"@
        &&& slot_key(slot, tail) != "force_discharge_current"@
    } by {
        lemma_decimal(slot);
        let key = slot_key(slot, tail);
        assert(key[0] == 's');
        assert(key[9] == decimal(slot)[0]);
    }
    let general = general_states(config);
    lemma_states_kept(general, config.schedules, count, "schedule_enabled"@);
    lemma_states_kept(general, config.schedules, count, "min_soc"@);
    lemma_states_kept(general, config.schedules, count, "max_soc"@);
    lemma_states_kept(general, config.schedules, count, "force_charge_current"@);
    lemma_states_kept(general, config.schedules, count, "force_discharge_current"@);
    assert("schedule_enabled"@.len() == 16 && "min_soc"@.len() == 7 && "max_soc"@.len() == 7);
    assert("force_charge_current"@.len() == 20 && "force_discharge_current"@.len() == 23);
    assert("min_soc"@[1] != "max_soc"@[1]);
}

/// The keys of the readings that sensors show.
spec fn reading_keys() -> Seq<Seq<char>> {
    seq![
        "grid_export_wh"@,
        "battery_discharge_wh"@,
        "current_battery_soc"@,
        "import_energy_kwh"@,
        "export_energy_kwh"@,
        "self_consumption_energy_kwh"@,
    ]
}

proof fn lemma_reading_keys()
    ensures
        forall|i: int, j: int|
            0 <= i < j < reading_keys().len() ==> #[trigger] reading_keys()[i]
                != #[trigger] reading_keys()[j],
        forall|i: int| 0 <= i < 2 ==> #[trigger] status_table()[i].api_key == reading_keys()[i],
        forall|i: int| 0 <= i < 4 ==> #[trigger] energy_table()[i].api_key == reading_keys()[i + 2],
{
    reveal_strlit("grid_export_wh");
    reveal_strlit("battery_discharge_wh");
    reveal_strlit("current_battery_soc");
    reveal_strlit("import_energy_kwh");
    reveal_strlit("export_energy_kwh");
    reveal_strlit("self_consumption_energy_kwh");
    assert("grid_export_wh"@.len() == 14);
    assert("battery_discharge_wh"@.len() == 20);
    assert("current_battery_soc"@.len() == 19);
    assert("import_energy_kwh"@.len() == 17);
    assert("export_energy_kwh"@.len() == 17);
    assert("self_consumption_energy_kwh"@.len() == 27);
    assert("import_energy_kwh"@[0] != "export_energy_kwh"@[0]);
}

/// A document with the readings of a table tells each reading of the table that there is.
proof fn lemma_readings_told(
    members: Map<Seq<char>, Json>,
    table: Seq<Sensor>,
    readings: Map<Seq<char>, u64>,
    count: nat,
    key: Seq<char>,
)
    requires
        count <= table.len(),
        forall|i: int, j: int|
            0 <= i < j < table.len() ==> (#[trigger] table[i]).api_key != (
            #[trigger] table[j]).api_key,
    ensures
        ({
            let all = with_readings(members, table, readings, count);
            if exists|i: int|
                0 <= i < count && (#[trigger] table[i]).api_key == key && readings.dom().contains(
                    key,
                ) {
                all.dom().contains(key) && all[key] == double_json(readings[key])
            } else {
                &&& all.dom().contains(key) == members.dom().contains(key)
                &&& all[key] == members[key]
            }
        }),
    decreases count,
{
    if count > 0 {
        lemma_readings_told(members, table, readings, (count - 1) as nat, key);
        let last = table[count - 1];
        if last.api_key == key && readings.dom().contains(key) {
            assert(table[count - 1].api_key == key);
        }
    }
}

/// The document with the readings tells, under the key that a sensor looks at, the reading
/// with that key where there is one, and holds nothing else.
pub proof fn law_readings_told(data: Data, key: Seq<char>)
    ensures
        ({
            let told = reading_states(data);
            let power = exists|i: int|
                0 <= i < status_table().len() && (#[trigger] status_table()[i]).api_key == key;
            let energy = exists|i: int|
                0 <= i < energy_table().len() && (#[trigger] energy_table()[i]).api_key == key;
            &&& told.dom().contains(key) == ((power && data.status.dom().contains(key)) || (energy
                && data.energy.dom().contains(key)))
            &&& power && data.status.dom().contains(key) ==> told[key] == double_json(
                data.status[key],
            )
            &&& energy && data.energy.dom().contains(key) ==> told[key] == double_json(
                data.energy[key],
            )
        }),
{
    lemma_reading_keys();
    let first = with_readings(empty_object(), status_table(), data.status, 2);
    assert forall|i: int, j: int|
        0 <= i < status_table().len() && 0 <= j < energy_table().len() implies (
    #[trigger] status_table()[i]).api_key != (#[trigger] energy_table()[j]).api_key by {
        assert(reading_keys()[i] != reading_keys()[j + 2]);
    }
    assert forall|i: int, j: int| 0 <= i < j < energy_table().len() implies (
    #[trigger] energy_table()[i]).api_key != (#[trigger] energy_table()[j]).api_key by {
        assert(reading_keys()[i + 2] != reading_keys()[j + 2]);
    }
    lemma_readings_told(empty_object(), status_table(), data.status, 2, key);
    lemma_readings_told(first, energy_table(), data.energy, 4, key);
}

}
