//! The schedule of an inverter and the readings of its dashboard.
use vstd::prelude::*;
use vstd::string::StringExecFns;

use crate::double::Double;
use crate::error::{AppError, AppResult, Fault};
use crate::text::{
    ascending, decimal, insert_ascending, lemma_ascending, push_decimal, same, texts_of,
};

verus! {

broadcast use vstd::string::group_string_axioms;

/// The number of schedule slots of an inverter.
pub const SCHEDULE_COUNT: usize = 5;

/// What an inverter does during a schedule slot.
#[derive(Debug, Clone, Copy, PartialEq, Eq, Hash, Structural)]
pub enum ScheduleMode {
    Disable,
    ForcedCharge,
    ForcedDischarge,
}

/// The name under which users know a mode.
pub open spec fn mode_name(mode: ScheduleMode) -> Seq<char> {
    match mode {
        ScheduleMode::Disable => "Disable"@,
        ScheduleMode::ForcedCharge => "Forced Charge"@,
        ScheduleMode::ForcedDischarge => "Forced Discharge"@,
    }
}

/// The mode with a name.
pub open spec fn mode_named(name: Seq<char>) -> Option<ScheduleMode> {
    if name == mode_name(ScheduleMode::Disable) {
        Some(ScheduleMode::Disable)
    } else if name == mode_name(ScheduleMode::ForcedCharge) {
        Some(ScheduleMode::ForcedCharge)
    } else if name == mode_name(ScheduleMode::ForcedDischarge) {
        Some(ScheduleMode::ForcedDischarge)
    } else {
        None
    }
}

/// The number under which the service knows a mode.
pub open spec fn mode_value(mode: ScheduleMode) -> u8 {
    match mode {
        ScheduleMode::Disable => 0,
        ScheduleMode::ForcedCharge => 1,
        ScheduleMode::ForcedDischarge => 2,
    }
}

/// The mode with a number.
pub open spec fn mode_valued(value: u8) -> Option<ScheduleMode> {
    match value {
        0 => Some(ScheduleMode::Disable),
        1 => Some(ScheduleMode::ForcedCharge),
        2 => Some(ScheduleMode::ForcedDischarge),
        _ => None,
    }
}

/// What is said of a number that no mode has.
pub open spec fn unknown_mode_value(value: u8) -> Fault {
    Fault::InvalidState("unknown schedule mode value: "@ + decimal(value as nat))
}

/// What is said of a name that no mode has.
pub open spec fn unknown_mode_name(name: Seq<char>) -> Fault {
    Fault::InvalidState("unknown schedule mode display name: "@ + name)
}

impl ScheduleMode {
    /// Every mode once.
    pub fn all() -> (modes: [ScheduleMode; 3])
        ensures
            modes@ == seq![
                ScheduleMode::Disable,
                ScheduleMode::ForcedCharge,
                ScheduleMode::ForcedDischarge,
            ],
    {
        [ScheduleMode::Disable, ScheduleMode::ForcedCharge, ScheduleMode::ForcedDischarge]
    }

    /// The name under which users know the mode.
    pub fn display_name(self) -> (name: &'static str)
        ensures
            name@ == mode_name(self),
    {
        match self {
            ScheduleMode::Disable => "Disable",
            ScheduleMode::ForcedCharge => "Forced Charge",
            ScheduleMode::ForcedDischarge => "Forced Discharge",
        }
    }

    /// The mode with a name.
    pub fn from_display_name(name: &str) -> (result: AppResult<ScheduleMode>)
        ensures
            match result {
                Ok(mode) => mode_named(name@) == Some(mode),
                Err(error) => mode_named(name@) is None && error@ == unknown_mode_name(name@),
            },
    {
        if same(name, "Disable") {
            Ok(ScheduleMode::Disable)
        } else if same(name, "Forced Charge") {
            Ok(ScheduleMode::ForcedCharge)
        } else if same(name, "Forced Discharge") {
            Ok(ScheduleMode::ForcedDischarge)
        } else {
            Err(
                AppError::InvalidState(
                    "unknown schedule mode display name: ".to_string().concat(name),
                ),
            )
        }
    }

    /// The number under which the service knows the mode.
    pub fn as_api_int(self) -> (value: u8)
        ensures
            value == mode_value(self),
    {
        u8::from(self)
    }
}

impl From<ScheduleMode> for u8 {
    fn from(mode: ScheduleMode) -> (value: u8) {
        match mode {
            ScheduleMode::Disable => 0,
            ScheduleMode::ForcedCharge => 1,
            ScheduleMode::ForcedDischarge => 2,
        }
    }
}

impl vstd::std_specs::convert::FromSpecImpl<ScheduleMode> for u8 {
    open spec fn obeys_from_spec() -> bool {
        true
    }

    open spec fn from_spec(mode: ScheduleMode) -> u8 {
        mode_value(mode)
    }
}

impl TryFrom<u8> for ScheduleMode {
    type Error = AppError;

    fn try_from(value: u8) -> (result: Result<ScheduleMode, AppError>)
        ensures
            match result {
                Ok(mode) => mode_valued(value) == Some(mode),
                Err(error) => mode_valued(value) is None && error@ == unknown_mode_value(value),
            },
    {
        match value {
            0 => Ok(ScheduleMode::Disable),
            1 => Ok(ScheduleMode::ForcedCharge),
            2 => Ok(ScheduleMode::ForcedDischarge),
            _ => {
                let mut text = "unknown schedule mode value: ".to_string();
                push_decimal(&mut text, value as u64);
                Err(AppError::InvalidState(text))
            },
        }
    }
}

impl vstd::std_specs::convert::TryFromSpecImpl<u8> for ScheduleMode {
    open spec fn obeys_try_from_spec() -> bool {
        false
    }

    open spec fn try_from_spec(value: u8) -> Result<ScheduleMode, AppError> {
        arbitrary()
    }
}

/// A schedule slot: what the inverter does, from when until when.
#[derive(Debug, PartialEq, Eq)]
pub struct Schedule {
    pub mode: ScheduleMode,
    pub start_time: String,
    pub end_time: String,
}

/// A schedule slot by the characters of its times.
pub struct Slot {
    pub mode: ScheduleMode,
    pub start_time: Seq<char>,
    pub end_time: Seq<char>,
}

impl View for Schedule {
    type V = Slot;

    open spec fn view(&self) -> Slot {
        Slot { mode: self.mode, start_time: self.start_time@, end_time: self.end_time@ }
    }
}

/// A slot that does nothing.
pub open spec fn disabled_slot() -> Slot {
    Slot { mode: ScheduleMode::Disable, start_time: "00:00:00"@, end_time: "00:00:00"@ }
}

impl Schedule {
    /// A slot that does nothing.
    pub fn disabled() -> (schedule: Schedule)
        ensures
            schedule@ == disabled_slot(),
    {
        Schedule {
            mode: ScheduleMode::Disable,
            start_time: "00:00:00".to_string(),
            end_time: "00:00:00".to_string(),
        }
    }
}

impl Clone for Schedule {
    fn clone(&self) -> (copy: Self)
        ensures
            copy@ == self@,
    {
        Schedule {
            mode: self.mode,
            start_time: self.start_time.clone(),
            end_time: self.end_time.clone(),
        }
    }
}

/// The schedule of an inverter.
#[derive(Debug, PartialEq)]
pub struct DailyScheduleConfig {
    pub state_enabled: bool,
    pub force_charge_current: Double,
    pub force_discharge_current: Double,
    pub min_soc: u8,
    pub max_soc: u8,
    pub schedules: Vec<Schedule>,
}

/// The schedule of an inverter by what it says: the currents are doubles.
#[verifier::ext_equal]
pub struct DailySchedule {
    pub state_enabled: bool,
    pub force_charge_current: u64,
    pub force_discharge_current: u64,
    pub min_soc: u8,
    pub max_soc: u8,
    pub schedules: Seq<Slot>,
}

/// The slots of a sequence of schedules.
pub open spec fn slots(schedules: Seq<Schedule>) -> Seq<Slot> {
    Seq::new(schedules.len(), |i: int| schedules[i]@)
}

impl View for DailyScheduleConfig {
    type V = DailySchedule;

    open spec fn view(&self) -> DailySchedule {
        DailySchedule {
            state_enabled: self.state_enabled,
            force_charge_current: self.force_charge_current@,
            force_discharge_current: self.force_discharge_current@,
            min_soc: self.min_soc,
            max_soc: self.max_soc,
            schedules: slots(self.schedules@),
        }
    }
}

impl Clone for DailyScheduleConfig {
    fn clone(&self) -> (copy: Self)
        ensures
            copy@ == self@,
    {
        let mut schedules: Vec<Schedule> = Vec::new();
        let mut next: usize = 0;
        while next < self.schedules.len()
            invariant
                next <= self.schedules.len(),
                slots(schedules@) == slots(self.schedules@).take(next as int),
            decreases self.schedules.len() - next,
        {
            let ghost before = schedules@;
            let schedule = self.schedules[next].clone();
            schedules.push(schedule);
            assert(slots(schedules@) =~= slots(before).push(schedule@));
            assert(slots(self.schedules@).take(next + 1) =~= slots(self.schedules@).take(
                next as int,
            ).push(slots(self.schedules@)[next as int]));
            next = next + 1;
        }
        assert(slots(self.schedules@).take(next as int) =~= slots(self.schedules@));
        DailyScheduleConfig {
            state_enabled: self.state_enabled,
            force_charge_current: self.force_charge_current.clone(),
            force_discharge_current: self.force_discharge_current.clone(),
            min_soc: self.min_soc,
            max_soc: self.max_soc,
            schedules,
        }
    }
}

/// At least `count` slots: what is missing does nothing.
pub open spec fn filled(schedules: Seq<Slot>, count: nat) -> Seq<Slot> {
    Seq::new(
        if schedules.len() < count {
            count
        } else {
            schedules.len()
        },
        |i: int|
            if i < schedules.len() {
                schedules[i]
            } else {
                disabled_slot()
            },
    )
}

/// What is said of a slot that an inverter does not have.
pub open spec fn slot_out_of_range(slot: nat) -> Fault {
    Fault::InvalidState("schedule slot "@ + decimal(slot) + " out of range 1..="@ + decimal(5))
}

impl DailyScheduleConfig {
    /// Makes sure that a slot, counted from one, is there.
    pub fn ensure_slot(&mut self, slot: usize) -> (result: AppResult<()>)
        ensures
            match result {
                Ok(_) => {
                    &&& 1 <= slot <= SCHEDULE_COUNT
                    &&& final(self)@ == (DailySchedule {
                        schedules: filled(old(self)@.schedules, slot as nat),
                        ..old(self)@
                    })
                },
                Err(error) => {
                    &&& slot == 0 || slot > SCHEDULE_COUNT
                    &&& error@ == slot_out_of_range(slot as nat)
                    &&& final(self)@ == old(self)@
                },
            },
    {
        if slot == 0 || slot > SCHEDULE_COUNT {
            let mut text = "schedule slot ".to_string();
            push_decimal(&mut text, slot as u64);
            text.append(" out of range 1..=");
            push_decimal(&mut text, SCHEDULE_COUNT as u64);
            return Err(AppError::InvalidState(text));
        }
        let ghost before = self@.schedules;
        while self.schedules.len() < slot
            invariant
                self@ == (DailySchedule { schedules: self@.schedules, ..old(self)@ }),
                before == old(self)@.schedules,
                before.len() <= self.schedules.len(),
                self.schedules.len() <= before.len() || self.schedules.len() <= slot,
                slots(self.schedules@) == filled(before, self.schedules@.len()),
            decreases slot - self.schedules.len(),
        {
            let ghost prior = self.schedules@;
            self.schedules.push(Schedule::disabled());
            proof {
                let now = self.schedules@;
                assert forall|i: int| 0 <= i < now.len() implies slots(now)[i] == filled(
                    before,
                    now.len(),
                )[i] by {
                    if i < prior.len() {
                        assert(slots(prior)[i] == filled(before, prior.len())[i]);
                    }
                }
                assert(slots(now) =~= filled(before, now.len()));
            }
        }
        Ok(())
    }
}

/// Numbers by name, no name twice.
#[derive(Debug)]
pub struct Readings {
    entries: Vec<(String, Double)>,
}

/// The numbers of a sequence of entries, by name.
spec fn entry_map(entries: Seq<(String, Double)>) -> Map<Seq<char>, u64>
    decreases entries.len(),
{
    if entries.len() == 0 {
        Map::empty()
    } else {
        entry_map(entries.drop_last()).insert(entries.last().0@, entries.last().1@)
    }
}

impl View for Readings {
    type V = Map<Seq<char>, u64>;

    closed spec fn view(&self) -> Map<Seq<char>, u64> {
        entry_map(self.entries@)
    }
}

/// A name that none of the entries has is not among the numbers.
proof fn lemma_absent(entries: Seq<(String, Double)>, name: Seq<char>)
    requires
        forall|i: int| 0 <= i < entries.len() ==> (#[trigger] entries[i]).0@ != name,
    ensures
        !entry_map(entries).dom().contains(name),
    decreases entries.len(),
{
    if entries.len() > 0 {
        lemma_absent(entries.drop_last(), name);
    }
}

/// The number of a name is that of its one entry, and putting another number there
/// changes this name alone.
proof fn lemma_entry(entries: Seq<(String, Double)>, at: int, entry: (String, Double))
    requires
        0 <= at < entries.len(),
        entry.0@ == entries[at].0@,
        forall|i: int| 0 <= i < entries.len() && i != at ==> (#[trigger] entries[i]).0@
            != entries[at].0@,
    ensures
        entry_map(entries).dom().contains(entries[at].0@),
        entry_map(entries)[entries[at].0@] == entries[at].1@,
        entry_map(entries.update(at, entry)) == entry_map(entries).insert(entry.0@, entry.1@),
    decreases entries.len(),
{
    let changed = entries.update(at, entry);
    if at == entries.len() - 1 {
        assert(changed.drop_last() =~= entries.drop_last());
        assert(entry_map(changed) =~= entry_map(entries).insert(entry.0@, entry.1@));
    } else {
        let last = entries.last();
        lemma_entry(entries.drop_last(), at, entry);
        assert(changed.drop_last() =~= entries.drop_last().update(at, entry));
        assert(entries[entries.len() - 1].0@ != entries[at].0@);
        assert(entry_map(changed) =~= entry_map(entries).insert(entry.0@, entry.1@));
    }
}

impl Readings {
    #[verifier::type_invariant]
    spec fn distinct(self) -> bool {
        forall|i: int, j: int|
            0 <= i < j < self.entries@.len() ==> (#[trigger] self.entries@[i]).0@ != (
            #[trigger] self.entries@[j]).0@
    }

    /// No numbers.
    pub fn new() -> (readings: Readings)
        ensures
            readings@ == Map::<Seq<char>, u64>::empty(),
    {
        Readings { entries: Vec::new() }
    }

    /// The position of a name among the entries.
    fn position(&self, name: &str) -> (found: Option<usize>)
        ensures
            match found {
                Some(at) => at < self.entries@.len() && self.entries@[at as int].0@ == name@,
                None => forall|i: int|
                    0 <= i < self.entries@.len() ==> (#[trigger] self.entries@[i]).0@ != name@,
            },
    {
        let mut at: usize = 0;
        while at < self.entries.len()
            invariant
                at <= self.entries@.len(),
                forall|i: int| 0 <= i < at ==> (#[trigger] self.entries@[i]).0@ != name@,
            decreases self.entries.len() - at,
        {
            if same(self.entries[at].0.as_str(), name) {
                return Some(at);
            }
            at = at + 1;
        }
        None
    }

    /// Puts a number under a name, in place of the one that was there.
    pub fn insert(&mut self, name: String, value: Double)
        ensures
            final(self)@ == old(self)@.insert(name@, value@),
    {
        proof {
            use_type_invariant(&*self);
        }
        let found = self.position(name.as_str());
        let ghost before = self.entries@;
        let mut entries: Vec<(String, Double)> = Vec::new();
        std::mem::swap(&mut entries, &mut self.entries);
        match found {
            Some(at) => {
                proof {
                    lemma_entry(before, at as int, (name, value));
                }
                entries.set(at, (name, value));
            },
            None => {
                entries.push((name, value));
                assert(entries@.drop_last() =~= before);
            },
        }
        self.entries = entries;
    }

    /// The names, each once, in ascending order.
    pub fn names(&self) -> (names: Vec<String>)
        ensures
            ascending(texts_of(names@)),
            texts_of(names@).no_duplicates(),
            forall|name: Seq<char>|
                #[trigger] texts_of(names@).contains(name) <==> self@.dom().contains(name),
    {
        proof {
            use_type_invariant(self);
        }
        let mut names: Vec<String> = Vec::new();
        let mut next: usize = 0;
        while next < self.entries.len()
            invariant
                next <= self.entries@.len(),
                self.distinct(),
                ascending(texts_of(names@)),
                forall|name: Seq<char>|
                    #[trigger] texts_of(names@).contains(name) <==> entry_map(
                        self.entries@.take(next as int),
                    ).dom().contains(name),
            decreases self.entries.len() - next,
        {
            let name = self.entries[next].0.clone();
            proof {
                let read = self.entries@.take(next as int);
                assert forall|i: int| 0 <= i < read.len() implies (#[trigger] read[i]).0@
                    != name@ by {
                    assert(self.entries@[i].0@ != self.entries@[next as int].0@);
                }
                lemma_absent(read, name@);
                assert(self.entries@.take(next + 1).drop_last() =~= read);
            }
            insert_ascending(&mut names, name);
            next = next + 1;
        }
        assert(self.entries@.take(next as int) =~= self.entries@);
        proof {
            lemma_ascending(texts_of(names@));
        }
        names
    }

    /// The number under a name.
    pub fn get(&self, name: &str) -> (found: Option<&Double>)
        ensures
            match found {
                Some(value) => self@.dom().contains(name@) && self@[name@] == value@,
                None => !self@.dom().contains(name@),
            },
    {
        proof {
            use_type_invariant(self);
        }
        match self.position(name) {
            Some(at) => {
                proof {
                    lemma_entry(self.entries@, at as int, self.entries@[at as int]);
                }
                Some(&self.entries[at].1)
            },
            None => {
                proof {
                    lemma_absent(self.entries@, name@);
                }
                None
            },
        }
    }
}

/// The readings of a dashboard.
#[derive(Debug)]
pub struct QcData {
    pub status: Readings,
    pub energy: Readings,
}

/// The readings of a dashboard: doubles by name.
#[verifier::ext_equal]
pub struct Data {
    pub status: Map<Seq<char>, u64>,
    pub energy: Map<Seq<char>, u64>,
}

impl View for QcData {
    type V = Data;

    open spec fn view(&self) -> Data {
        Data { status: self.status@, energy: self.energy@ }
    }
}

/// No readings.
pub open spec fn no_data() -> Data {
    Data { status: Map::empty(), energy: Map::empty() }
}

impl QcData {
    /// No readings.
    pub fn new() -> (data: QcData)
        ensures
            data@ == no_data(),
    {
        QcData { status: Readings::new(), energy: Readings::new() }
    }
}

impl Default for QcData {
    fn default() -> (data: QcData)
        ensures
            data@ == no_data(),
    {
        QcData::new()
    }
}

impl Clone for Readings {
    fn clone(&self) -> (copy: Self)
        ensures
            copy@ == self@,
    {
        proof {
            use_type_invariant(self);
        }
        let mut copy = Readings::new();
        let mut next: usize = 0;
        assert(self.entries@.take(0) =~= Seq::<(String, Double)>::empty());
        while next < self.entries.len()
            invariant
                next <= self.entries@.len(),
                copy@ == entry_map(self.entries@.take(next as int)),
            decreases self.entries.len() - next,
        {
            assert(self.entries@.take(next + 1).drop_last() =~= self.entries@.take(next as int));
            copy.insert(self.entries[next].0.clone(), self.entries[next].1.clone());
            next = next + 1;
        }
        assert(self.entries@.take(next as int) =~= self.entries@);
        copy
    }
}

impl Clone for QcData {
    fn clone(&self) -> (copy: Self)
        ensures
            copy@ == self@,
    {
        QcData { status: self.status.clone(), energy: self.energy.clone() }
    }
}

}
