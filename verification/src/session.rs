//! A session with the broker and the service: what is done next, whatever comes back.
use vstd::prelude::*;
use vstd::string::StringExecFns;

use crate::command::{Command, CommandMessage};
use crate::error::{AppError, AppResult, Fault};
use crate::http::plain_outcome;
use crate::model::{
    filled, slot_out_of_range, DailySchedule, DailyScheduleConfig, Data, QcData, Slot,
    SCHEDULE_COUNT,
};
use crate::mqtt::{letters, Letter, Message, MqttPublisher, Publisher};
use crate::qcore::{data_outcome, schedule_outcome};
use crate::stats::{Counters, RuntimeStats};
use crate::text::texts_of;
use crate::time::{longest, TimeSpan};

verus! {

broadcast use vstd::string::group_string_axioms;

/// How long to wait before the next attempt to connect: longer each time.
#[derive(Debug, Clone, Copy)]
pub struct ReconnectBackoff {
    current: TimeSpan,
    initial: TimeSpan,
    max: TimeSpan,
}

/// The delays of a backoff, in nanoseconds.
pub struct Delays {
    pub current: nat,
    pub initial: nat,
    pub max: nat,
}

impl View for ReconnectBackoff {
    type V = Delays;

    closed spec fn view(&self) -> Delays {
        Delays { current: self.current@, initial: self.initial@, max: self.max@ }
    }
}

impl Delays {
    /// Once a delay has been taken: twice as long, up to the longest.
    pub open spec fn taken(self) -> Delays {
        Delays {
            current: if 2 * self.current <= self.max {
                2 * self.current
            } else {
                self.max
            },
            ..self
        }
    }

    /// Once the attempts start over.
    pub open spec fn restarted(self) -> Delays {
        Delays { current: self.initial, ..self }
    }

    /// After `n` more delays have been taken.
    pub open spec fn after(self, n: nat) -> Delays
        decreases n,
    {
        if n == 0 {
            self
        } else {
            self.after((n - 1) as nat).taken()
        }
    }
}

impl ReconnectBackoff {
    /// The first delay is `initial`, no later one is longer than `max`.
    pub fn new(initial: TimeSpan, max: TimeSpan) -> (backoff: ReconnectBackoff)
        ensures
            backoff@ == (Delays { current: initial@, initial: initial@, max: max@ }),
    {
        ReconnectBackoff { current: initial, initial, max }
    }

    /// The delay before the next attempt.
    pub fn next_delay(&mut self) -> (delay: TimeSpan)
        ensures
            delay@ == old(self)@.current,
            final(self)@ == old(self)@.taken(),
    {
        let delay = self.current;
        self.current = self.current.doubled().shorter(&self.max);
        delay
    }

    /// The attempts start over.
    pub fn reset(&mut self)
        ensures
            final(self)@ == old(self)@.restarted(),
    {
        self.current = self.initial;
    }
}

/// A session failed: the delay before the next one.
pub fn recover(backoff: &mut ReconnectBackoff, stats: &mut RuntimeStats) -> (delay: TimeSpan)
    ensures
        delay@ == old(backoff)@.current,
        final(backoff)@ == old(backoff)@.taken(),
        final(stats)@ == old(stats)@.recovery(),
{
    stats.record_recovery();
    backoff.next_delay()
}

/// What the adapter does once a session is over.
#[derive(Debug)]
pub enum AfterSession {
    /// It stops.
    Finish,
    /// It waits for the delay and begins the next session.
    Retry { delay: TimeSpan, failure: AppError },
}

/// A session is over: the adapter stops behind one that ended well, and begins anew behind
/// one that failed.
pub fn after_session(
    result: AppResult<()>,
    backoff: &mut ReconnectBackoff,
    stats: &mut RuntimeStats,
) -> (next: AfterSession)
    ensures
        match result {
            Ok(_) => {
                &&& next is Finish
                &&& final(backoff)@ == old(backoff)@.restarted()
                &&& final(stats)@ == old(stats)@
            },
            Err(error) => {
                &&& next matches AfterSession::Retry { delay, failure } && delay@ == old(
                    backoff,
                )@.current && failure@ == error@
                &&& final(backoff)@ == old(backoff)@.taken()
                &&& final(stats)@ == old(stats)@.recovery()
            },
        },
        ({
            let before = Run {
                delays: old(backoff)@,
                counters: old(stats)@,
                slept: Seq::empty(),
                finished: false,
            };
            let run = before.next(plain_outcome(result), old(stats)@);
            &&& run.delays == final(backoff)@
            &&& run.counters == final(stats)@
            &&& run.finished == (next is Finish)
            &&& run.slept == match next {
                AfterSession::Finish => Seq::empty(),
                AfterSession::Retry { delay, .. } => seq![delay@],
            }
        }),
{
    match result {
        Ok(_) => {
            backoff.reset();
            AfterSession::Finish
        },
        Err(failure) => {
            let delay = recover(backoff, stats);
            AfterSession::Retry { delay, failure }
        },
    }
}

/// How far the adapter has come after some sessions: the delays to come, the counters, how
/// long it slept behind each failed session, and whether it has stopped.
pub struct Run {
    pub delays: Delays,
    pub counters: Counters,
    pub slept: Seq<nat>,
    pub finished: bool,
}

impl Run {
    /// Once one more session is over, with its result and the counters that it left.
    pub open spec fn next(self, result: Result<(), Fault>, counters: Counters) -> Run {
        match result {
            Ok(_) => Run {
                delays: self.delays.restarted(),
                counters,
                slept: self.slept,
                finished: true,
            },
            Err(_) => Run {
                delays: self.delays.taken(),
                counters: counters.recovery(),
                slept: self.slept.push(self.delays.current),
                finished: false,
            },
        }
    }
}

/// A schedule with one slot changed, which is there from now on.
pub open spec fn with_slot(config: DailySchedule, slot: nat, changed: Slot) -> DailySchedule {
    DailySchedule { schedules: filled(config.schedules, slot).update(slot - 1, changed), ..config }
}

/// A slot of a schedule once it is there.
pub open spec fn slot_of(config: DailySchedule, slot: nat) -> Slot {
    filled(config.schedules, slot)[slot - 1]
}

/// What a command makes of a schedule: it changes what it names and nothing else.
pub open spec fn commanded(config: DailySchedule, command: Command) -> Result<DailySchedule, Fault> {
    match command {
        Command::ScheduleEnabled(on) => Ok(DailySchedule { state_enabled: on, ..config }),
        Command::MinSoc(value) => Ok(DailySchedule { min_soc: value, ..config }),
        Command::MaxSoc(value) => Ok(DailySchedule { max_soc: value, ..config }),
        Command::ScheduleMode { slot, mode } => if 1 <= slot <= SCHEDULE_COUNT {
            Ok(with_slot(config, slot, Slot { mode, ..slot_of(config, slot) }))
        } else {
            Err(slot_out_of_range(slot))
        },
        Command::ScheduleStart { slot, value } => if 1 <= slot <= SCHEDULE_COUNT {
            Ok(with_slot(config, slot, Slot { start_time: value, ..slot_of(config, slot) }))
        } else {
            Err(slot_out_of_range(slot))
        },
        Command::ScheduleEnd { slot, value } => if 1 <= slot <= SCHEDULE_COUNT {
            Ok(with_slot(config, slot, Slot { end_time: value, ..slot_of(config, slot) }))
        } else {
            Err(slot_out_of_range(slot))
        },
        Command::HomeAssistantOnline => Ok(config),
    }
}

/// What a command makes of a schedule. That Home Assistant is there is no such command.
pub fn apply_command(config: &mut DailyScheduleConfig, command: CommandMessage) -> (result:
    AppResult<()>)
    requires
        !(command is HomeAssistantOnline),
    ensures
        match result {
            Ok(_) => commanded(old(config)@, command@) == Ok::<DailySchedule, Fault>(
                final(config)@,
            ),
            Err(error) => {
                &&& commanded(old(config)@, command@) == Err::<DailySchedule, Fault>(error@)
                &&& final(config)@ == old(config)@
            },
        },
{
    match command {
        CommandMessage::ScheduleEnabled(enabled) => {
            config.state_enabled = enabled;
        },
        CommandMessage::MinSoc(value) => {
            config.min_soc = value;
        },
        CommandMessage::MaxSoc(value) => {
            config.max_soc = value;
        },
        CommandMessage::ScheduleMode { slot, mode } => {
            if let Err(error) = config.ensure_slot(slot) {
                return Err(error);
            }
            let ghost before = config@;
            assert(config@.schedules.len() == config.schedules@.len());
            assert(slot <= config@.schedules.len());
            let mut schedule = config.schedules[slot - 1].clone();
            schedule.mode = mode;
            config.schedules.set(slot - 1, schedule);
            assert(config@.schedules =~= before.schedules.update(slot - 1, schedule@));
        },
        CommandMessage::ScheduleStart { slot, value } => {
            if let Err(error) = config.ensure_slot(slot) {
                return Err(error);
            }
            let ghost before = config@;
            assert(config@.schedules.len() == config.schedules@.len());
            assert(slot <= config@.schedules.len());
            let mut schedule = config.schedules[slot - 1].clone();
            schedule.start_time = value;
            config.schedules.set(slot - 1, schedule);
            assert(config@.schedules =~= before.schedules.update(slot - 1, schedule@));
        },
        CommandMessage::ScheduleEnd { slot, value } => {
            if let Err(error) = config.ensure_slot(slot) {
                return Err(error);
            }
            let ghost before = config@;
            assert(config@.schedules.len() == config.schedules@.len());
            assert(slot <= config@.schedules.len());
            let mut schedule = config.schedules[slot - 1].clone();
            schedule.end_time = value;
            config.schedules.set(slot - 1, schedule);
            assert(config@.schedules =~= before.schedules.update(slot - 1, schedule@));
        },
        CommandMessage::HomeAssistantOnline => {},
    }
    Ok(())
}

/// What the readings and the schedule are fetched for: the regular poll, or Home Assistant
/// came online during a wait.
#[derive(Debug, Clone, Copy)]
enum Task {
    Poll,
    Rediscovery { deadline: TimeSpan },
}

/// Where a session stands: what it waits for.
#[derive(Debug)]
enum Phase {
    /// The message that the adapter is there was published.
    Greeting,
    /// A topic was subscribed to.
    Subscribing { topics: Vec<String>, next: usize },
    /// A discovery message was published.
    Announcing { task: Task, messages: Vec<Message>, next: usize },
    /// The readings were asked for.
    Reading { task: Task },
    /// The readings were published.
    PublishingData { task: Task },
    /// The schedule was asked for.
    Scheduling { task: Task },
    /// The schedule was published.
    PublishingSchedule { task: Task },
    /// A command may come until the deadline.
    Waiting { deadline: TimeSpan },
    /// The schedule was asked for, to change it.
    Fetching { command: CommandMessage, deadline: TimeSpan },
    /// A changed schedule was written.
    Writing { config: DailyScheduleConfig, deadline: TimeSpan },
    /// A changed schedule was published.
    Reporting { deadline: TimeSpan },
    /// The message that the adapter is gone was published.
    Leaving { error: AppError },
    /// The session is over.
    Ended,
}

/// A session with the broker and the service.
#[derive(Debug)]
pub struct Session {
    interval: TimeSpan,
    phase: Phase,
}

/// What is to be done next.
#[derive(Debug)]
pub enum Action {
    /// A message is published.
    Publish(Message),
    /// A topic is subscribed to.
    Subscribe(String),
    /// The readings are fetched.
    FetchData,
    /// The schedule is fetched.
    FetchSchedule,
    /// A schedule is written.
    WriteSchedule(DailyScheduleConfig),
    /// A command is waited for, so long at most.
    Receive { timeout: TimeSpan },
    /// The last message is published.
    PublishOffline(Message),
    /// The session is over.
    End(AppError),
}

/// What came of an action.
#[derive(Debug)]
pub enum Event {
    Published(AppResult<()>),
    Subscribed(AppResult<()>),
    Data(AppResult<QcData>),
    Schedule(AppResult<DailyScheduleConfig>),
    Written(AppResult<()>),
    Command(CommandMessage),
    Timeout,
    Closed,
    OfflinePublished(AppResult<()>),
}

/// What the readings and the schedule are fetched for; a deadline is in nanoseconds.
pub enum Errand {
    Poll,
    Rediscovery { deadline: nat },
}

/// Where a session stands, by what it holds.
pub enum Stage {
    Greeting,
    Subscribing { topics: Seq<Seq<char>>, next: nat },
    Announcing { task: Errand, messages: Seq<Letter>, next: nat },
    Reading { task: Errand },
    PublishingData { task: Errand },
    Scheduling { task: Errand },
    PublishingSchedule { task: Errand },
    Waiting { deadline: nat },
    Fetching { command: Command, deadline: nat },
    Writing { config: DailySchedule, deadline: nat },
    Reporting { deadline: nat },
    Leaving { fault: Fault },
    Ended,
}

/// What is to be done next, by what it says.
pub enum Act {
    Publish(Letter),
    Subscribe(Seq<char>),
    FetchData,
    FetchSchedule,
    WriteSchedule(DailySchedule),
    Receive { timeout: nat },
    PublishOffline(Letter),
    End(Fault),
}

/// What came of an action, by what it holds.
pub enum Outcome {
    Published(Result<(), Fault>),
    Subscribed(Result<(), Fault>),
    Data(Result<Data, Fault>),
    Schedule(Result<DailySchedule, Fault>),
    Written(Result<(), Fault>),
    Command(Command),
    Timeout,
    Closed,
    OfflinePublished(Result<(), Fault>),
}

impl Task {
    spec fn errand(self) -> Errand {
        match self {
            Task::Poll => Errand::Poll,
            Task::Rediscovery { deadline } => Errand::Rediscovery { deadline: deadline@ },
        }
    }
}

impl Phase {
    spec fn stage(self) -> Stage {
        match self {
            Phase::Greeting => Stage::Greeting,
            Phase::Subscribing { topics, next } => Stage::Subscribing {
                topics: texts_of(topics@),
                next: next as nat,
            },
            Phase::Announcing { task, messages, next } => Stage::Announcing {
                task: task.errand(),
                messages: letters(messages@),
                next: next as nat,
            },
            Phase::Reading { task } => Stage::Reading { task: task.errand() },
            Phase::PublishingData { task } => Stage::PublishingData { task: task.errand() },
            Phase::Scheduling { task } => Stage::Scheduling { task: task.errand() },
            Phase::PublishingSchedule { task } => Stage::PublishingSchedule { task: task.errand() },
            Phase::Waiting { deadline } => Stage::Waiting { deadline: deadline@ },
            Phase::Fetching { command, deadline } => Stage::Fetching {
                command: command@,
                deadline: deadline@,
            },
            Phase::Writing { config, deadline } => Stage::Writing {
                config: config@,
                deadline: deadline@,
            },
            Phase::Reporting { deadline } => Stage::Reporting { deadline: deadline@ },
            Phase::Leaving { error } => Stage::Leaving { fault: error@ },
            Phase::Ended => Stage::Ended,
        }
    }
}

impl View for Session {
    type V = Stage;

    closed spec fn view(&self) -> Stage {
        self.phase.stage()
    }
}

impl View for Action {
    type V = Act;

    open spec fn view(&self) -> Act {
        match self {
            Action::Publish(message) => Act::Publish(message@),
            Action::Subscribe(topic) => Act::Subscribe(topic@),
            Action::FetchData => Act::FetchData,
            Action::FetchSchedule => Act::FetchSchedule,
            Action::WriteSchedule(config) => Act::WriteSchedule(config@),
            Action::Receive { timeout } => Act::Receive { timeout: timeout@ },
            Action::PublishOffline(message) => Act::PublishOffline(message@),
            Action::End(error) => Act::End(error@),
        }
    }
}

impl View for Event {
    type V = Outcome;

    open spec fn view(&self) -> Outcome {
        match self {
            Event::Published(result) => Outcome::Published(plain_outcome(*result)),
            Event::Subscribed(result) => Outcome::Subscribed(plain_outcome(*result)),
            Event::Data(result) => Outcome::Data(data_outcome(*result)),
            Event::Schedule(result) => Outcome::Schedule(schedule_outcome(*result)),
            Event::Written(result) => Outcome::Written(plain_outcome(*result)),
            Event::Command(command) => Outcome::Command(command@),
            Event::Timeout => Outcome::Timeout,
            Event::Closed => Outcome::Closed,
            Event::OfflinePublished(result) => Outcome::OfflinePublished(plain_outcome(*result)),
        }
    }
}

/// What a step of a session depends on besides where it stands: the publisher, the interval
/// between two polls, and the time. Times are in nanoseconds.
pub struct World {
    pub publisher: Publisher,
    pub interval: nat,
    pub now: nat,
}

/// Where a session stands after a step, and what is to be done next.
pub struct Turn {
    pub stage: Stage,
    pub act: Act,
}

impl World {
    /// The session is over.
    pub open spec fn ended(self, fault: Fault) -> Turn {
        Turn { stage: Stage::Ended, act: Act::End(fault) }
    }

    /// The session fails once everything is set up: the adapter says that it is gone.
    pub open spec fn leaving(self, fault: Fault) -> Turn {
        Turn {
            stage: Stage::Leaving { fault },
            act: Act::PublishOffline(self.publisher.availability_letter("offline"@)),
        }
    }

    /// A poll begins, with a connection that stands.
    pub open spec fn polling(self) -> Turn {
        match self.publisher.fault() {
            Some(fault) => self.leaving(fault),
            None => Turn { stage: Stage::Reading { task: Errand::Poll }, act: Act::FetchData },
        }
    }

    /// Commands are taken until the deadline, while the connection stands. Then comes the
    /// next poll.
    pub open spec fn waiting(self, deadline: nat) -> Turn {
        match self.publisher.fault() {
            Some(fault) => self.leaving(fault),
            None => if self.now >= deadline {
                self.polling()
            } else {
                Turn {
                    stage: Stage::Waiting { deadline },
                    act: Act::Receive { timeout: (deadline - self.now) as nat },
                }
            },
        }
    }

    /// When the next poll is due.
    pub open spec fn next_deadline(self) -> nat {
        if self.now + self.interval <= longest() {
            self.now + self.interval
        } else {
            longest()
        }
    }

    /// The readings and the schedule were fetched, as far as they could be.
    pub open spec fn done(self, task: Errand) -> Turn {
        match task {
            Errand::Poll => self.waiting(self.next_deadline()),
            Errand::Rediscovery { deadline } => self.waiting(deadline),
        }
    }

    /// Something could not be published: a poll ends the session, anything else is given up.
    pub open spec fn failed(self, task: Errand, fault: Fault) -> Turn {
        match task {
            Errand::Poll => self.leaving(fault),
            Errand::Rediscovery { deadline } => self.waiting(deadline),
        }
    }

    /// The entities are announced, those before `next` are.
    pub open spec fn announcing(self, task: Errand, messages: Seq<Letter>, next: nat) -> Turn {
        if next >= messages.len() {
            match task {
                Errand::Poll => self.polling(),
                Errand::Rediscovery { deadline } => Turn {
                    stage: Stage::Reading { task },
                    act: Act::FetchData,
                },
            }
        } else {
            match self.publisher.fault() {
                Some(fault) => self.failed(task, fault),
                None => Turn {
                    stage: Stage::Announcing { task, messages, next },
                    act: Act::Publish(messages[next as int]),
                },
            }
        }
    }

    /// The entities are announced, from the first.
    pub open spec fn discovering(self, task: Errand) -> Turn {
        self.announcing(task, self.publisher.announcements(self.publisher.entities()), 0)
    }

    /// The topics are subscribed to, those before `next` are.
    pub open spec fn subscribing(self, topics: Seq<Seq<char>>, next: nat) -> Turn {
        if next >= topics.len() {
            self.discovering(Errand::Poll)
        } else {
            Turn {
                stage: Stage::Subscribing { topics, next },
                act: Act::Subscribe(topics[next as int]),
            }
        }
    }

    /// The schedule is fetched.
    pub open spec fn scheduling(self, task: Errand) -> Turn {
        Turn { stage: Stage::Scheduling { task }, act: Act::FetchSchedule }
    }

    /// A session begins: the adapter says that it is there.
    pub open spec fn begun(self) -> Turn {
        match self.publisher.fault() {
            Some(fault) => self.ended(fault),
            None => Turn {
                stage: Stage::Greeting,
                act: Act::Publish(self.publisher.availability_letter("online"@)),
            },
        }
    }

    /// The readings came, or did not.
    pub open spec fn read(self, task: Errand, result: Result<Data, Fault>) -> Turn {
        match result {
            Ok(data) => match self.publisher.fault() {
                Some(fault) => self.failed(task, fault),
                None => Turn {
                    stage: Stage::PublishingData { task },
                    act: Act::Publish(self.publisher.data_letter(data)),
                },
            },
            Err(_) => self.scheduling(task),
        }
    }

    /// The schedule came, or did not.
    pub open spec fn scheduled(self, task: Errand, result: Result<DailySchedule, Fault>) -> Turn {
        match result {
            Ok(config) => match self.publisher.fault() {
                Some(fault) => self.failed(task, fault),
                None => Turn {
                    stage: Stage::PublishingSchedule { task },
                    act: Act::Publish(self.publisher.schedule_letter(config)),
                },
            },
            Err(_) => self.done(task),
        }
    }

    /// The schedule came that a command is to change, or did not.
    pub open spec fn fetched(
        self,
        command: Command,
        deadline: nat,
        result: Result<DailySchedule, Fault>,
    ) -> Turn {
        match result {
            Ok(config) => match commanded(config, command) {
                Ok(changed) => Turn {
                    stage: Stage::Writing { config: changed, deadline },
                    act: Act::WriteSchedule(changed),
                },
                Err(_) => self.waiting(deadline),
            },
            Err(_) => self.waiting(deadline),
        }
    }

    /// A changed schedule was written, or was not.
    pub open spec fn written(
        self,
        config: DailySchedule,
        deadline: nat,
        result: Result<(), Fault>,
    ) -> Turn {
        match result {
            Ok(_) => match self.publisher.fault() {
                Some(fault) => self.waiting(deadline),
                None => Turn {
                    stage: Stage::Reporting { deadline },
                    act: Act::Publish(self.publisher.schedule_letter(config)),
                },
            },
            Err(_) => self.waiting(deadline),
        }
    }

    /// A command came.
    pub open spec fn received(self, command: Command, deadline: nat) -> Turn {
        match command {
            Command::HomeAssistantOnline => self.discovering(Errand::Rediscovery { deadline }),
            _ => Turn { stage: Stage::Fetching { command, deadline }, act: Act::FetchSchedule },
        }
    }

    /// What follows what came of the last action.
    pub open spec fn turn(self, stage: Stage, outcome: Outcome) -> Turn {
        match (stage, outcome) {
            (Stage::Greeting, Outcome::Published(Ok(_))) => self.subscribing(
                self.publisher.subscriptions(),
                0,
            ),
            (Stage::Greeting, Outcome::Published(Err(fault))) => self.ended(fault),
            (Stage::Subscribing { topics, next }, Outcome::Subscribed(Ok(_))) => self.subscribing(
                topics,
                next + 1,
            ),
            (Stage::Subscribing { topics, next }, Outcome::Subscribed(Err(fault))) => self.ended(
                fault,
            ),
            (Stage::Announcing { task, messages, next }, Outcome::Published(Ok(_))) => {
                self.announcing(task, messages, next + 1)
            },
            (Stage::Announcing { task, messages, next }, Outcome::Published(Err(fault))) => {
                self.failed(task, fault)
            },
            (Stage::Reading { task }, Outcome::Data(result)) => self.read(task, result),
            (Stage::PublishingData { task }, Outcome::Published(Ok(_))) => self.scheduling(task),
            (Stage::PublishingData { task }, Outcome::Published(Err(fault))) => self.failed(
                task,
                fault,
            ),
            (Stage::Scheduling { task }, Outcome::Schedule(result)) => self.scheduled(task, result),
            (Stage::PublishingSchedule { task }, Outcome::Published(Ok(_))) => self.done(task),
            (Stage::PublishingSchedule { task }, Outcome::Published(Err(fault))) => self.failed(
                task,
                fault,
            ),
            (Stage::Waiting { deadline }, Outcome::Command(command)) => self.received(
                command,
                deadline,
            ),
            (Stage::Waiting { deadline }, Outcome::Timeout) => self.polling(),
            (Stage::Waiting { deadline }, Outcome::Closed) => self.leaving(
                Fault::MqttDisconnected("command channel closed"@),
            ),
            (Stage::Fetching { command, deadline }, Outcome::Schedule(result)) => self.fetched(
                command,
                deadline,
                result,
            ),
            (Stage::Writing { config, deadline }, Outcome::Written(result)) => self.written(
                config,
                deadline,
                result,
            ),
            (Stage::Reporting { deadline }, Outcome::Published(_)) => self.waiting(deadline),
            (Stage::Leaving { fault }, Outcome::OfflinePublished(_)) => self.ended(fault),
            _ => arbitrary(),
        }
    }
}

/// The counters once something came of the action that a stage waits for.
pub open spec fn counted(stage: Stage, outcome: Outcome, counters: Counters) -> Counters {
    match (stage, outcome) {
        (Stage::Greeting, Outcome::Published(Ok(_))) => counters.mqtt_message_sent(),
        (Stage::Announcing { task, messages, next }, Outcome::Published(Ok(_))) => {
            counters.mqtt_message_sent()
        },
        (Stage::Reading { task: Errand::Poll }, Outcome::Data(Err(_))) => counters.failed_poll(),
        (Stage::PublishingData { task }, Outcome::Published(Ok(_))) => {
            counters.mqtt_message_sent().successful_poll()
        },
        (Stage::PublishingSchedule { task }, Outcome::Published(Ok(_))) => {
            counters.mqtt_message_sent().schedule_fetch()
        },
        (Stage::Waiting { deadline }, Outcome::Command(command)) => match command {
            Command::HomeAssistantOnline => counters,
            _ => counters.command_received(),
        },
        (Stage::Fetching { command, deadline }, Outcome::Schedule(Ok(_))) => {
            counters.schedule_fetch()
        },
        (Stage::Writing { config, deadline }, Outcome::Written(Ok(_))) => counters.schedule_write(),
        (Stage::Reporting { deadline }, Outcome::Published(Ok(_))) => counters.mqtt_message_sent(),
        (Stage::Leaving { fault }, Outcome::OfflinePublished(Ok(_))) => {
            counters.mqtt_message_sent()
        },
        _ => counters,
    }
}

/// What came of an action of a session, with the publisher and the time then.
pub struct Moment {
    pub outcome: Outcome,
    pub publisher: Publisher,
    pub now: nat,
}

/// How far a session has come: where it stands, what is to be done next, and the counters.
pub struct Course {
    pub stage: Stage,
    pub act: Act,
    pub counters: Counters,
}

/// A session as it happened: the publisher that it began with, the interval between two
/// polls, what came of its actions, one after the other, and its result. Nothing came of any
/// action in one that failed before it began.
pub struct Episode {
    pub publisher: Publisher,
    pub interval: nat,
    pub moments: Seq<Moment>,
    pub result: Result<(), Fault>,
}

impl Episode {
    /// How far the session has come once something came of its first `count` actions, where
    /// it began with these counters.
    pub open spec fn course(self, counters: Counters, count: nat) -> Course
        decreases count,
    {
        if count == 0 {
            let turn = (World { publisher: self.publisher, interval: self.interval, now: 0 }).begun();
            Course { stage: turn.stage, act: turn.act, counters }
        } else {
            let before = self.course(counters, (count - 1) as nat);
            let moment = self.moments[count - 1];
            let world = World {
                publisher: moment.publisher,
                interval: self.interval,
                now: moment.now,
            };
            let turn = world.turn(before.stage, moment.outcome);
            Course {
                stage: turn.stage,
                act: turn.act,
                counters: counted(before.stage, moment.outcome, before.counters),
            }
        }
    }

    /// The counters that the session leaves, where it began with these.
    pub open spec fn leaves(self, counters: Counters) -> Counters {
        self.course(counters, self.moments.len()).counters
    }
}

/// How far the adapter has come when the sessions that it could have are listed: it begins
/// them one after the other until it has stopped.
pub open spec fn ran(delays: Delays, counters: Counters, sessions: Seq<Episode>) -> Run
    decreases sessions.len(),
{
    if sessions.len() == 0 {
        Run { delays, counters, slept: Seq::empty(), finished: false }
    } else {
        let before = ran(delays, counters, sessions.drop_last());
        let session = sessions.last();
        if before.finished {
            before
        } else {
            before.next(session.result, session.leaves(before.counters))
        }
    }
}

impl Stage {
    /// Whether something is what can come of the action that this stage waits for.
    pub open spec fn awaits(self, outcome: Outcome) -> bool {
        match self {
            Stage::Greeting => outcome is Published,
            Stage::Subscribing { topics, next } => outcome is Subscribed,
            Stage::Announcing { task, messages, next } => outcome is Published,
            Stage::Reading { task } => outcome is Data,
            Stage::PublishingData { task } => outcome is Published,
            Stage::Scheduling { task } => outcome is Schedule,
            Stage::PublishingSchedule { task } => outcome is Published,
            Stage::Waiting { deadline } => outcome is Command || outcome is Timeout
                || outcome is Closed,
            Stage::Fetching { command, deadline } => outcome is Schedule,
            Stage::Writing { config, deadline } => outcome is Written,
            Stage::Reporting { deadline } => outcome is Published,
            Stage::Leaving { fault } => outcome is OfflinePublished,
            Stage::Ended => false,
        }
    }
}

/// What a step of a session depends on besides where it stands.
struct Context<'a> {
    publisher: &'a MqttPublisher,
    interval: TimeSpan,
    now: TimeSpan,
}

/// Whether a phase and an action are those of a turn, the phase in order.
spec fn is_turn(next: (Phase, Action), turn: Turn) -> bool {
    next.0.stage() == turn.stage && next.1@ == turn.act && next.0.sound()
}

impl Phase {
    /// What is handed out is there, and what a command changes is a schedule.
    spec fn sound(self) -> bool {
        match self {
            Phase::Subscribing { topics, next } => next < topics@.len(),
            Phase::Announcing { task, messages, next } => next < messages@.len(),
            Phase::Fetching { command, deadline } => !(command is HomeAssistantOnline),
            _ => true,
        }
    }
}

impl<'a> Context<'a> {
    spec fn world(self) -> World {
        World { publisher: self.publisher@, interval: self.interval@, now: self.now@ }
    }

    fn leaving(&self, error: AppError) -> (next: (Phase, Action))
        ensures
            is_turn(next, self.world().leaving(error@)),
    {
        let message = self.publisher.publish_offline_best_effort();
        (Phase::Leaving { error }, Action::PublishOffline(message))
    }

    fn polling(&self) -> (next: (Phase, Action))
        ensures
            is_turn(next, self.world().polling()),
    {
        match self.publisher.ensure_healthy() {
            Err(error) => self.leaving(error),
            Ok(()) => (Phase::Reading { task: Task::Poll }, Action::FetchData),
        }
    }

    fn waiting(&self, deadline: TimeSpan) -> (next: (Phase, Action))
        ensures
            is_turn(next, self.world().waiting(deadline@)),
    {
        match self.publisher.ensure_healthy() {
            Err(error) => self.leaving(error),
            Ok(()) => if self.now.is_shorter(&deadline) {
                let timeout = deadline.minus(&self.now);
                (Phase::Waiting { deadline }, Action::Receive { timeout })
            } else {
                self.polling()
            },
        }
    }

    fn done(&self, task: Task) -> (next: (Phase, Action))
        ensures
            is_turn(next, self.world().done(task.errand())),
    {
        match task {
            Task::Poll => self.waiting(self.now.plus(&self.interval)),
            Task::Rediscovery { deadline } => self.waiting(deadline),
        }
    }

    fn failed(&self, task: Task, error: AppError) -> (next: (Phase, Action))
        ensures
            is_turn(next, self.world().failed(task.errand(), error@)),
    {
        match task {
            Task::Poll => self.leaving(error),
            Task::Rediscovery { deadline } => self.waiting(deadline),
        }
    }

    fn announcing(&self, task: Task, messages: Vec<Message>, at: usize) -> (next: (Phase, Action))
        ensures
            is_turn(
                next,
                self.world().announcing(task.errand(), letters(messages@), at as nat),
            ),
    {
        if at >= messages.len() {
            return match task {
                Task::Poll => self.polling(),
                Task::Rediscovery { deadline } => (Phase::Reading { task }, Action::FetchData),
            };
        }
        match self.publisher.ensure_healthy() {
            Err(error) => self.failed(task, error),
            Ok(()) => {
                let message = messages[at].clone();
                (Phase::Announcing { task, messages, next: at }, Action::Publish(message))
            },
        }
    }

    fn discovering(&self, task: Task) -> (next: (Phase, Action))
        ensures
            is_turn(next, self.world().discovering(task.errand())),
    {
        self.announcing(task, self.publisher.publish_discovery(), 0)
    }

    fn subscribing(&self, topics: Vec<String>, at: usize) -> (next: (Phase, Action))
        ensures
            is_turn(next, self.world().subscribing(texts_of(topics@), at as nat)),
    {
        if at >= topics.len() {
            return self.discovering(Task::Poll);
        }
        let topic = topics[at].clone();
        (Phase::Subscribing { topics, next: at }, Action::Subscribe(topic))
    }

    fn begun(&self) -> (next: (Phase, Action))
        ensures
            is_turn(next, self.world().begun()),
    {
        match self.publisher.ensure_healthy() {
            Err(error) => (Phase::Ended, Action::End(error)),
            Ok(()) => (Phase::Greeting, Action::Publish(self.publisher.publish_online())),
        }
    }

    fn read(&self, task: Task, result: AppResult<QcData>) -> (next: (Phase, Action))
        ensures
            is_turn(next, self.world().read(task.errand(), data_outcome(result))),
    {
        match result {
            Ok(data) => match self.publisher.ensure_healthy() {
                Err(error) => self.failed(task, error),
                Ok(()) => {
                    let message = self.publisher.publish_qc_data(&data);
                    (Phase::PublishingData { task }, Action::Publish(message))
                },
            },
            Err(_) => (Phase::Scheduling { task }, Action::FetchSchedule),
        }
    }

    fn scheduled(&self, task: Task, result: AppResult<DailyScheduleConfig>) -> (next: (
        Phase,
        Action,
    ))
        ensures
            is_turn(next, self.world().scheduled(task.errand(), schedule_outcome(result))),
    {
        match result {
            Ok(config) => match self.publisher.ensure_healthy() {
                Err(error) => self.failed(task, error),
                Ok(()) => {
                    let message = self.publisher.publish_schedule(&config);
                    (Phase::PublishingSchedule { task }, Action::Publish(message))
                },
            },
            Err(_) => self.done(task),
        }
    }

    fn fetched(
        &self,
        command: CommandMessage,
        deadline: TimeSpan,
        result: AppResult<DailyScheduleConfig>,
    ) -> (next: (Phase, Action))
        requires
            !(command is HomeAssistantOnline),
        ensures
            is_turn(next, self.world().fetched(command@, deadline@, schedule_outcome(result))),
    {
        match result {
            Ok(config) => {
                let mut changed = config;
                match apply_command(&mut changed, command) {
                    Ok(()) => {
                        let told = changed.clone();
                        (Phase::Writing { config: changed, deadline }, Action::WriteSchedule(told))
                    },
                    Err(_) => self.waiting(deadline),
                }
            },
            Err(_) => self.waiting(deadline),
        }
    }

    fn written(
        &self,
        config: DailyScheduleConfig,
        deadline: TimeSpan,
        result: AppResult<()>,
    ) -> (next: (Phase, Action))
        ensures
            is_turn(next, self.world().written(config@, deadline@, plain_outcome(result))),
    {
        match result {
            Ok(()) => match self.publisher.ensure_healthy() {
                Err(_) => self.waiting(deadline),
                Ok(()) => {
                    let message = self.publisher.publish_schedule(&config);
                    (Phase::Reporting { deadline }, Action::Publish(message))
                },
            },
            Err(_) => self.waiting(deadline),
        }
    }

    fn received(&self, command: CommandMessage, deadline: TimeSpan) -> (next: (Phase, Action))
        ensures
            is_turn(next, self.world().received(command@, deadline@)),
    {
        match command {
            CommandMessage::HomeAssistantOnline => self.discovering(Task::Rediscovery { deadline }),
            _ => (Phase::Fetching { command, deadline }, Action::FetchSchedule),
        }
    }
}

impl Session {
    #[verifier::type_invariant]
    spec fn in_order(self) -> bool {
        self.phase.sound()
    }

    /// How long the session waits between two polls, in nanoseconds.
    pub closed spec fn pause(self) -> nat {
        self.interval@
    }

    /// A session begins. The service is polled once in every interval.
    pub fn start(interval: TimeSpan, publisher: &MqttPublisher) -> (begun: (Session, Action))
        ensures
            begun.0.pause() == interval@,
            begun.0@ == (World { publisher: publisher@, interval: interval@, now: 0 }).begun().stage,
            begun.1@ == (World { publisher: publisher@, interval: interval@, now: 0 }).begun().act,
    {
        let context = Context { publisher, interval, now: TimeSpan::from_secs(0) };
        let (phase, action) = context.begun();
        (Session { interval, phase }, action)
    }

    /// Whether something is what can come of the action that the session waits for.
    pub fn awaits(&self, event: &Event) -> (yes: bool)
        ensures
            yes == self@.awaits(event@),
    {
        match (&self.phase, event) {
            (Phase::Greeting, Event::Published(_)) => true,
            (Phase::Subscribing { topics, next }, Event::Subscribed(_)) => true,
            (Phase::Announcing { task, messages, next }, Event::Published(_)) => true,
            (Phase::Reading { task }, Event::Data(_)) => true,
            (Phase::PublishingData { task }, Event::Published(_)) => true,
            (Phase::Scheduling { task }, Event::Schedule(_)) => true,
            (Phase::PublishingSchedule { task }, Event::Published(_)) => true,
            (Phase::Waiting { deadline }, Event::Command(_)) => true,
            (Phase::Waiting { deadline }, Event::Timeout) => true,
            (Phase::Waiting { deadline }, Event::Closed) => true,
            (Phase::Fetching { command, deadline }, Event::Schedule(_)) => true,
            (Phase::Writing { config, deadline }, Event::Written(_)) => true,
            (Phase::Reporting { deadline }, Event::Published(_)) => true,
            (Phase::Leaving { error }, Event::OfflinePublished(_)) => true,
            _ => false,
        }
    }

    /// Counts what came of the last action.
    fn count(&self, event: &Event, stats: &mut RuntimeStats)
        ensures
            final(stats)@ == counted(self@, event@, old(stats)@),
    {
        match (&self.phase, event) {
            (Phase::Greeting, Event::Published(Ok(()))) => stats.record_mqtt_message_sent(),
            (Phase::Announcing { task, messages, next }, Event::Published(Ok(()))) => {
                stats.record_mqtt_message_sent()
            },
            (Phase::Reading { task: Task::Poll }, Event::Data(Err(_))) => {
                stats.record_failed_poll()
            },
            (Phase::PublishingData { task }, Event::Published(Ok(()))) => {
                stats.record_mqtt_message_sent();
                stats.record_successful_poll();
            },
            (Phase::PublishingSchedule { task }, Event::Published(Ok(()))) => {
                stats.record_mqtt_message_sent();
                stats.record_schedule_fetch();
            },
            (Phase::Waiting { deadline }, Event::Command(CommandMessage::HomeAssistantOnline)) => {
            },
            (Phase::Waiting { deadline }, Event::Command(_)) => stats.record_command_received(),
            (Phase::Fetching { command, deadline }, Event::Schedule(Ok(_))) => {
                stats.record_schedule_fetch()
            },
            (Phase::Writing { config, deadline }, Event::Written(Ok(()))) => {
                stats.record_schedule_write()
            },
            (Phase::Reporting { deadline }, Event::Published(Ok(()))) => {
                stats.record_mqtt_message_sent()
            },
            (Phase::Leaving { error }, Event::OfflinePublished(Ok(()))) => {
                stats.record_mqtt_message_sent()
            },
            _ => {},
        }
    }

    /// Something came of the last action: where the session stands then, and what is to be
    /// done next. The time is counted from the beginning of the session.
    pub fn step(
        self,
        event: Event,
        now: TimeSpan,
        publisher: &MqttPublisher,
        stats: &mut RuntimeStats,
    ) -> (next: (Session, Action))
        requires
            self@.awaits(event@),
        ensures
            next.0.pause() == self.pause(),
            next.0@ == (World { publisher: publisher@, interval: self.pause(), now: now@ }).turn(
                self@,
                event@,
            ).stage,
            next.1@ == (World { publisher: publisher@, interval: self.pause(), now: now@ }).turn(
                self@,
                event@,
            ).act,
            final(stats)@ == counted(self@, event@, old(stats)@),
    {
        proof {
            use_type_invariant(&self);
        }
        self.count(&event, stats);
        let interval = self.interval;
        let context = Context { publisher, interval, now };
        let (phase, action) = match (self.phase, event) {
            (Phase::Greeting, Event::Published(Ok(()))) => context.subscribing(
                publisher.subscribe_command_topics(),
                0,
            ),
            (Phase::Greeting, Event::Published(Err(error))) => (Phase::Ended, Action::End(error)),
            (Phase::Subscribing { topics, next }, Event::Subscribed(Ok(()))) => {
                let count: usize = topics.len();
                assert(next < count);
                context.subscribing(topics, next + 1)
            },
            (Phase::Subscribing { topics, next }, Event::Subscribed(Err(error))) => {
                (Phase::Ended, Action::End(error))
            },
            (Phase::Announcing { task, messages, next }, Event::Published(Ok(()))) => {
                let count: usize = messages.len();
                assert(next < count);
                context.announcing(task, messages, next + 1)
            },
            (Phase::Announcing { task, messages, next }, Event::Published(Err(error))) => {
                context.failed(task, error)
            },
            (Phase::Reading { task }, Event::Data(result)) => context.read(task, result),
            (Phase::PublishingData { task }, Event::Published(Ok(()))) => {
                (Phase::Scheduling { task }, Action::FetchSchedule)
            },
            (Phase::PublishingData { task }, Event::Published(Err(error))) => context.failed(
                task,
                error,
            ),
            (Phase::Scheduling { task }, Event::Schedule(result)) => context.scheduled(task, result),
            (Phase::PublishingSchedule { task }, Event::Published(Ok(()))) => context.done(task),
            (Phase::PublishingSchedule { task }, Event::Published(Err(error))) => context.failed(
                task,
                error,
            ),
            (Phase::Waiting { deadline }, Event::Command(command)) => context.received(
                command,
                deadline,
            ),
            (Phase::Waiting { deadline }, Event::Timeout) => context.polling(),
            (Phase::Waiting { deadline }, Event::Closed) => context.leaving(
                AppError::MqttDisconnected("command channel closed".to_string()),
            ),
            (Phase::Fetching { command, deadline }, Event::Schedule(result)) => context.fetched(
                command,
                deadline,
                result,
            ),
            (Phase::Writing { config, deadline }, Event::Written(result)) => context.written(
                config,
                deadline,
                result,
            ),
            (Phase::Reporting { deadline }, Event::Published(_)) => context.waiting(deadline),
            (Phase::Leaving { error }, Event::OfflinePublished(_)) => {
                (Phase::Ended, Action::End(error))
            },
            _ => vstd::pervasive::unreached(),
        };
        (Session { interval, phase }, action)
    }
}

}
