//! What holds of the delays between sessions, and of every session.
use vstd::arithmetic::power2::pow2;
use vstd::prelude::*;

use crate::command::Command;
use crate::error::Fault;
use crate::model::{DailySchedule, Data};
use crate::mqtt::Letter;
use crate::session::{
    commanded, counted, ran, Act, Delays, Episode, Errand, Outcome, Stage, Turn, World,
};
use crate::stats::{next_count, Counters};

verus! {

broadcast use vstd::string::group_string_axioms;

/// The delays double from the first one on until they reach the longest, where they stay.
pub proof fn law_backoff_doubles(delays: Delays, n: nat)
    requires
        delays.current == delays.initial,
        delays.initial <= delays.max,
    ensures
        delays.after(n).current == (if delays.initial * pow2(n) <= delays.max {
            delays.initial * pow2(n)
        } else {
            delays.max
        }),
        delays.after(n).initial == delays.initial,
        delays.after(n).max == delays.max,
    decreases n,
{
    vstd::arithmetic::power2::lemma2_to64();
    if n > 0 {
        let before = (n - 1) as nat;
        law_backoff_doubles(delays, before);
        vstd::arithmetic::power2::lemma_pow2_unfold(n);
        let (first, power) = (delays.initial, pow2(before));
        assert(first * (2 * power) == 2 * (first * power)) by (nonlinear_arith);
    }
}

/// No delay is longer than the longest, and none is shorter than the one before it.
pub proof fn law_backoff_bounded(delays: Delays, n: nat)
    requires
        delays.current == delays.initial,
        delays.initial <= delays.max,
    ensures
        delays.after(n).current <= delays.max,
        delays.after(n).current <= delays.after(n + 1).current,
{
    law_backoff_doubles(delays, n);
}

/// Whatever delays were taken, starting over gives the first delays again.
pub proof fn law_backoff_restarts(delays: Delays, n: nat, m: nat)
    requires
        delays.current == delays.initial,
    ensures
        delays.after(n).restarted().after(m) == delays.after(m),
    decreases n,
{
    lemma_backoff_keeps(delays, n);
}

proof fn lemma_backoff_keeps(delays: Delays, n: nat)
    ensures
        delays.after(n).initial == delays.initial,
        delays.after(n).max == delays.max,
    decreases n,
{
    if n > 0 {
        lemma_backoff_keeps(delays, (n - 1) as nat);
    }
}

/// The counters after `n` recoveries.
pub open spec fn recovered(counters: Counters, n: nat) -> Counters
    decreases n,
{
    if n == 0 {
        counters
    } else {
        recovered(counters, (n - 1) as nat).recovery()
    }
}

/// After `n` recoveries in a row the next delay is the first one doubled `n` times, up to the
/// longest, and `n` more recoveries are counted, and nothing else.
pub proof fn law_recoveries(delays: Delays, counters: Counters, n: nat)
    requires
        delays.current == delays.initial,
        delays.initial <= delays.max,
        counters.recoveries + n <= u64::MAX,
    ensures
        delays.after(n).current == (if delays.initial * pow2(n) <= delays.max {
            delays.initial * pow2(n)
        } else {
            delays.max
        }),
        recovered(counters, n) == (Counters {
            recoveries: (counters.recoveries + n) as u64,
            ..counters
        }),
    decreases n,
{
    law_backoff_doubles(delays, n);
    if n > 0 {
        law_recoveries(delays, counters, (n - 1) as nat);
    }
}

/// A session counts no recovery, whatever comes of its actions, from its beginning to any
/// moment of it.
pub proof fn law_session_recoveries(session: Episode, counters: Counters, count: nat)
    ensures
        session.course(counters, count).counters.recoveries == counters.recoveries,
        session.leaves(counters).recoveries == counters.recoveries,
{
    lemma_course_recoveries(session, counters, count);
    lemma_course_recoveries(session, counters, session.moments.len());
}

proof fn lemma_course_recoveries(session: Episode, counters: Counters, count: nat)
    ensures
        session.course(counters, count).counters.recoveries == counters.recoveries,
    decreases count,
{
    if count > 0 {
        lemma_course_recoveries(session, counters, (count - 1) as nat);
    }
}

/// A session awaits what can come of the action that it asks for, and nothing else, as long
/// as it has been given what it awaited.
pub proof fn law_session_in_step(
    session: Episode,
    counters: Counters,
    count: nat,
    outcome: Outcome,
)
    requires
        count <= session.moments.len(),
        forall|k: nat|
            k < count ==> (#[trigger] session.course(counters, k)).stage.awaits(
                session.moments[k as int].outcome,
            ),
    ensures
        ({
            let course = session.course(counters, count);
            course.stage.awaits(outcome) == comes_of(outcome, course.act)
        }),
{
    if count == 0 {
        let world = World { publisher: session.publisher, interval: session.interval, now: 0 };
        law_begins_in_step(world, outcome);
    } else {
        let before = session.course(counters, (count - 1) as nat);
        let moment = session.moments[count - 1];
        let world = World {
            publisher: moment.publisher,
            interval: session.interval,
            now: moment.now,
        };
        law_stays_in_step(world, before.stage, moment.outcome, outcome);
    }
}

/// The adapter stops behind the first session that ends well, and not before. Behind each
/// that fails it sleeps: for the first delay doubled as often as sessions failed before, up
/// to the longest. It has recovered as often as sessions failed.
pub proof fn law_run(delays: Delays, counters: Counters, sessions: Seq<Episode>)
    requires
        delays.current == delays.initial,
        delays.initial <= delays.max,
        counters.recoveries + sessions.len() <= u64::MAX,
    ensures
        ({
            let run = ran(delays, counters, sessions);
            let failed = run.slept.len();
            &&& failed <= sessions.len()
            &&& forall|k: int| 0 <= k < failed ==> (#[trigger] sessions[k]).result is Err
            &&& failed < sessions.len() ==> sessions[failed as int].result is Ok
            &&& run.finished == (failed < sessions.len())
            &&& forall|k: int|
                0 <= k < failed ==> #[trigger] run.slept[k] == (if delays.initial * pow2(k as nat)
                    <= delays.max {
                    delays.initial * pow2(k as nat)
                } else {
                    delays.max
                })
            &&& run.counters.recoveries == counters.recoveries + failed
            &&& run.delays == (if run.finished {
                delays
            } else {
                delays.after(failed)
            })
        }),
    decreases sessions.len(),
{
    if sessions.len() > 0 {
        let rest = sessions.drop_last();
        law_run(delays, counters, rest);
        let before = ran(delays, counters, rest);
        let run = ran(delays, counters, sessions);
        law_session_recoveries(sessions.last(), before.counters, 0);
        assert forall|k: int| 0 <= k < run.slept.len() implies (
        #[trigger] sessions[k]).result is Err by {
            if k < rest.len() {
                assert(rest[k] == sessions[k]);
            }
        }
        if before.finished {
            let first = before.slept.len() as int;
            assert(rest[first] == sessions[first]);
        } else {
            assert(before.slept.len() == rest.len());
            law_backoff_doubles(delays, rest.len());
            lemma_backoff_keeps(delays, rest.len());
        }
    }
}

/// Whether something can come of an action.
pub open spec fn comes_of(outcome: Outcome, act: Act) -> bool {
    match act {
        Act::Publish(_) => outcome is Published,
        Act::Subscribe(_) => outcome is Subscribed,
        Act::FetchData => outcome is Data,
        Act::FetchSchedule => outcome is Schedule,
        Act::WriteSchedule(_) => outcome is Written,
        Act::Receive { timeout } => outcome is Command || outcome is Timeout || outcome is Closed,
        Act::PublishOffline(_) => outcome is OfflinePublished,
        Act::End(_) => false,
    }
}

/// A session that begins awaits what can come of its first action, and nothing else.
pub proof fn law_begins_in_step(world: World, outcome: Outcome)
    ensures
        world.begun().stage.awaits(outcome) == comes_of(outcome, world.begun().act),
{
}

/// After every step a session awaits what can come of the action that it asks for, and
/// nothing else.
pub proof fn law_stays_in_step(world: World, stage: Stage, outcome: Outcome, next: Outcome)
    requires
        stage.awaits(outcome),
    ensures
        world.turn(stage, outcome).stage.awaits(next) == comes_of(
            next,
            world.turn(stage, outcome).act,
        ),
{
}

/// Once it has begun to announce its entities, a session does not end before it has said
/// that the adapter is gone.
pub proof fn law_says_goodbye(world: World, stage: Stage, outcome: Outcome)
    requires
        stage.awaits(outcome),
        world.turn(stage, outcome).act is End,
    ensures
        stage is Greeting || stage is Subscribing || stage is Leaving,
        stage matches Stage::Leaving { fault } ==> world.turn(stage, outcome).act == Act::End(
            fault,
        ),
{
}

/// Over a connection that is lost nothing is published but that the adapter is gone.
pub proof fn law_lost_connection(world: World, stage: Stage, outcome: Outcome)
    requires
        stage.awaits(outcome),
        world.publisher.fault() is Some,
    ensures
        !(world.turn(stage, outcome).act is Publish),
{
}

/// A lost connection ends the session where it would wait or poll, with what was wrong.
pub proof fn law_lost_connection_ends(world: World, deadline: nat, fault: Fault)
    requires
        world.publisher.fault() == Some(fault),
    ensures
        world.waiting(deadline) == world.leaving(fault),
        world.polling() == world.leaving(fault),
{
}

/// A command is carried out at once: the schedule is fetched, changed, written and
/// published, and the wait goes on until the deadline that it had.
pub proof fn law_command_carried_out(
    first: World,
    second: World,
    third: World,
    fourth: World,
    deadline: nat,
    command: Command,
    config: DailySchedule,
    changed: DailySchedule,
)
    requires
        !(command is HomeAssistantOnline),
        commanded(config, command) == Ok::<DailySchedule, Fault>(changed),
        third.publisher.fault() is None,
    ensures
        ({
            let heard = first.turn(Stage::Waiting { deadline }, Outcome::Command(command));
            let fetched = second.turn(heard.stage, Outcome::Schedule(Ok(config)));
            let written = third.turn(fetched.stage, Outcome::Written(Ok(())));
            let told = fourth.turn(written.stage, Outcome::Published(Ok(())));
            &&& heard.act == Act::FetchSchedule
            &&& fetched.act == Act::WriteSchedule(changed)
            &&& written.act == Act::Publish(third.publisher.schedule_letter(changed))
            &&& told == fourth.waiting(deadline)
        }),
{
}

/// A command that cannot be carried out is dropped: the wait goes on until the deadline
/// that it had.
pub proof fn law_command_dropped(
    world: World,
    deadline: nat,
    command: Command,
    config: DailySchedule,
    fault: Fault,
)
    ensures
        world.turn(Stage::Fetching { command, deadline }, Outcome::Schedule(Err(fault)))
            == world.waiting(deadline),
        commanded(config, command) is Err ==> world.turn(
            Stage::Fetching { command, deadline },
            Outcome::Schedule(Ok(config)),
        ) == world.waiting(deadline),
        world.turn(Stage::Writing { config, deadline }, Outcome::Written(Err(fault)))
            == world.waiting(deadline),
        world.turn(Stage::Reporting { deadline }, Outcome::Published(Err(fault)))
            == world.waiting(deadline),
{
}

/// Where a session stands once `count` messages were published.
pub open spec fn published(world: World, stage: Stage, count: nat) -> Stage
    decreases count,
{
    if count == 0 {
        stage
    } else {
        world.turn(published(world, stage, (count - 1) as nat), Outcome::Published(Ok(()))).stage
    }
}

/// While the connection stands, the entities are announced one after the other, in their
/// order, each of them once. Then the readings are fetched.
pub proof fn law_announced_in_order(world: World, task: Errand, count: nat)
    requires
        world.publisher.fault() is None,
        count <= world.publisher.entities().len(),
    ensures
        ({
            let messages = world.publisher.announcements(world.publisher.entities());
            let stage = published(world, world.discovering(task).stage, count);
            if count < messages.len() {
                &&& stage == Stage::Announcing { task, messages, next: count }
                &&& world.announcing(task, messages, count).act == Act::Publish(
                    messages[count as int],
                )
            } else {
                &&& stage == Stage::Reading { task }
                &&& world.announcing(task, messages, count).act == Act::FetchData
            }
        }),
    decreases count,
{
    if count > 0 {
        law_announced_in_order(world, task, (count - 1) as nat);
    }
}

/// When Home Assistant comes online during a wait, every entity is announced again.
pub proof fn law_rediscovery(world: World, deadline: nat)
    ensures
        world.turn(Stage::Waiting { deadline }, Outcome::Command(Command::HomeAssistantOnline))
            == world.discovering(Errand::Rediscovery { deadline }),
{
}

/// Over a connection that stands the readings are published and then the schedule, each as
/// soon as it was fetched. What could not be fetched is left out.
pub proof fn law_round(
    world: World,
    task: Errand,
    data: Result<Data, Fault>,
    config: Result<DailySchedule, Fault>,
)
    requires
        world.publisher.fault() is None,
    ensures
        ({
            let read = world.turn(Stage::Reading { task }, Outcome::Data(data));
            let scheduled = world.turn(Stage::Scheduling { task }, Outcome::Schedule(config));
            &&& match data {
                Ok(readings) => {
                    &&& read.act == Act::Publish(world.publisher.data_letter(readings))
                    &&& world.turn(read.stage, Outcome::Published(Ok(()))) == (Turn {
                        stage: Stage::Scheduling { task },
                        act: Act::FetchSchedule,
                    })
                },
                Err(_) => read == (Turn {
                    stage: Stage::Scheduling { task },
                    act: Act::FetchSchedule,
                }),
            }
            &&& match config {
                Ok(schedule) => {
                    &&& scheduled.act == Act::Publish(world.publisher.schedule_letter(schedule))
                    &&& world.turn(scheduled.stage, Outcome::Published(Ok(()))) == world.done(task)
                },
                Err(_) => scheduled == world.done(task),
            }
        }),
{
}

/// Behind a poll the adapter waits for the interval, behind anything else until the deadline
/// that it had. At the deadline comes the next poll.
pub proof fn law_wait(world: World, deadline: nat)
    requires
        world.publisher.fault() is None,
    ensures
        world.interval > 0 && world.now + world.interval <= crate::time::longest() ==> world.done(
            Errand::Poll,
        ).act == (Act::Receive { timeout: world.interval }),
        world.now < deadline ==> world.waiting(deadline).act == (Act::Receive {
            timeout: (deadline - world.now) as nat,
        }),
        world.now >= deadline ==> world.waiting(deadline).act == Act::FetchData,
{
}

/// Whether a counter stayed or took one step.
pub open spec fn stepped(before: u64, after: u64) -> bool {
    after == before || after == next_count(before)
}

/// Whether a message was published.
pub open spec fn was_published(outcome: Outcome) -> bool {
    match outcome {
        Outcome::Published(result) => result is Ok,
        Outcome::OfflinePublished(result) => result is Ok,
        _ => false,
    }
}

/// A step counts each thing once at most. Messages are counted exactly where one was
/// published.
pub proof fn law_counted(stage: Stage, outcome: Outcome, counters: Counters)
    requires
        stage.awaits(outcome),
    ensures
        ({
            let after = counted(stage, outcome, counters);
            &&& stepped(counters.successful_polls, after.successful_polls)
            &&& stepped(counters.failed_polls, after.failed_polls)
            &&& stepped(counters.schedule_fetches, after.schedule_fetches)
            &&& stepped(counters.schedule_writes, after.schedule_writes)
            &&& stepped(counters.commands_received, after.commands_received)
            &&& after.recoveries == counters.recoveries
            &&& after.mqtt_messages_sent == (if was_published(outcome) {
                next_count(counters.mqtt_messages_sent)
            } else {
                counters.mqtt_messages_sent
            })
        }),
{
}

/// Whether the adapter says that it is gone, and keeps what was wrong.
pub open spec fn says_gone(turn: Turn, world: World, fault: Fault) -> bool {
    &&& turn.stage == Stage::Leaving { fault }
    &&& turn.act == Act::PublishOffline(
        Letter {
            topic: world.publisher.topic_prefix + "/status"@,
            retain: true,
            payload: "offline"@,
        },
    )
}

/// What is wrong with a connection that does not stand.
pub open spec fn loss(world: World) -> Fault {
    Fault::MqttDisconnected(
        match world.publisher.last_error {
            Some(words) => words,
            None => "mqtt event loop stopped unexpectedly"@,
        },
    )
}

/// Whether a poll begins: the readings are fetched.
pub open spec fn polls(turn: Turn) -> bool {
    turn.stage == (Stage::Reading { task: Errand::Poll }) && turn.act == Act::FetchData
}

/// Whether commands are taken until a deadline: over a connection that stands, for as long as
/// there is time, and then comes the next poll.
pub open spec fn rests(turn: Turn, world: World, deadline: nat) -> bool {
    if !world.publisher.healthy {
        says_gone(turn, world, loss(world))
    } else if world.now >= deadline {
        polls(turn)
    } else {
        &&& turn.stage == Stage::Waiting { deadline }
        &&& turn.act == Act::Receive { timeout: (deadline - world.now) as nat }
    }
}

/// Whether an errand is over: behind a poll the next one is due after the interval, behind
/// anything else the wait goes on.
pub open spec fn errand_over(turn: Turn, world: World, task: Errand) -> bool {
    match task {
        Errand::Poll => rests(
            turn,
            world,
            if world.now + world.interval <= 18_446_744_073_709_551_615_999_999_999 {
                world.now + world.interval
            } else {
                18_446_744_073_709_551_615_999_999_999
            },
        ),
        Errand::Rediscovery { deadline } => rests(turn, world, deadline),
    }
}

/// Whether an errand is given up: a poll ends the session, behind anything else the wait goes
/// on.
pub open spec fn errand_failed(turn: Turn, world: World, task: Errand, fault: Fault) -> bool {
    match task {
        Errand::Poll => says_gone(turn, world, fault),
        Errand::Rediscovery { deadline } => rests(turn, world, deadline),
    }
}

/// Whether a message is published next, over a connection that stands; else the errand is
/// given up.
pub open spec fn sends(
    turn: Turn,
    world: World,
    task: Errand,
    stage: Stage,
    letter: Letter,
) -> bool {
    if world.publisher.healthy {
        turn.stage == stage && turn.act == Act::Publish(letter)
    } else {
        errand_failed(turn, world, task, loss(world))
    }
}

/// A session over a connection that stands begins with the message that the adapter is there.
/// Over one that does not it is over at once.
pub proof fn law_session_begins(world: World)
    ensures
        world.publisher.healthy ==> world.begun().stage == Stage::Greeting && world.begun().act
            == Act::Publish(
            Letter {
                topic: world.publisher.topic_prefix + "/status"@,
                retain: true,
                payload: "online"@,
            },
        ),
        !world.publisher.healthy ==> world.begun().stage == Stage::Ended && world.begun().act
            == Act::End(loss(world)),
{
}

/// Once the adapter has said that it is there, it subscribes to its topics, one after the
/// other, and then announces its entities. Where one of that fails, the session is over with
/// what was wrong.
pub proof fn law_sets_up(world: World, topics: Seq<Seq<char>>, next: nat, fault: Fault)
    ensures
        ({
            let turn = world.turn(Stage::Greeting, Outcome::Published(Ok(())));
            let heard = world.publisher.subscriptions();
            &&& heard.len() > 0 ==> turn.stage == (Stage::Subscribing { topics: heard, next: 0 })
                && turn.act == Act::Subscribe(heard[0])
        }),
        ({
            let turn = world.turn(
                Stage::Subscribing { topics, next },
                Outcome::Subscribed(Ok(())),
            );
            &&& next + 1 < topics.len() ==> turn.stage == (Stage::Subscribing {
                topics,
                next: next + 1,
            }) && turn.act == Act::Subscribe(topics[next + 1 as int])
            &&& next + 1 >= topics.len() && world.publisher.entities().len() > 0 ==> {
                let messages = world.publisher.announcements(world.publisher.entities());
                sends(
                    turn,
                    world,
                    Errand::Poll,
                    Stage::Announcing { task: Errand::Poll, messages, next: 0 },
                    messages[0],
                )
            }
        }),
        ({
            let turn = world.turn(Stage::Greeting, Outcome::Published(Err(fault)));
            turn.stage == Stage::Ended && turn.act == Act::End(fault)
        }),
        ({
            let turn = world.turn(
                Stage::Subscribing { topics, next },
                Outcome::Subscribed(Err(fault)),
            );
            turn.stage == Stage::Ended && turn.act == Act::End(fault)
        }),
{
}

/// The entities are announced one after the other, and behind the last one the readings are
/// fetched. An announcement that fails is the end of what it was for.
pub proof fn law_announces(
    world: World,
    task: Errand,
    messages: Seq<Letter>,
    next: nat,
    fault: Fault,
)
    ensures
        ({
            let stage = Stage::Announcing { task, messages, next };
            let turn = world.turn(stage, Outcome::Published(Ok(())));
            &&& next + 1 < messages.len() ==> sends(
                turn,
                world,
                task,
                Stage::Announcing { task, messages, next: next + 1 },
                messages[next + 1 as int],
            )
            &&& next + 1 >= messages.len() && world.publisher.healthy ==> turn.stage
                == (Stage::Reading { task }) && turn.act == Act::FetchData
            &&& next + 1 >= messages.len() && !world.publisher.healthy && task is Poll ==> says_gone(
                turn,
                world,
                loss(world),
            )
            &&& next + 1 >= messages.len() && task is Rediscovery ==> turn.stage
                == (Stage::Reading { task }) && turn.act == Act::FetchData
            &&& errand_failed(
                world.turn(stage, Outcome::Published(Err(fault))),
                world,
                task,
                fault,
            )
        }),
{
}

/// Readings that were fetched are published, and then the schedule is fetched. Readings that
/// could not be fetched are left out.
pub proof fn law_reads(world: World, task: Errand, data: Data, fault: Fault)
    ensures
        sends(
            world.turn(Stage::Reading { task }, Outcome::Data(Ok(data))),
            world,
            task,
            Stage::PublishingData { task },
            world.publisher.data_letter(data),
        ),
        ({
            let turn = world.turn(Stage::Reading { task }, Outcome::Data(Err(fault)));
            turn.stage == (Stage::Scheduling { task }) && turn.act == Act::FetchSchedule
        }),
        ({
            let turn = world.turn(Stage::PublishingData { task }, Outcome::Published(Ok(())));
            turn.stage == (Stage::Scheduling { task }) && turn.act == Act::FetchSchedule
        }),
        errand_failed(
            world.turn(Stage::PublishingData { task }, Outcome::Published(Err(fault))),
            world,
            task,
            fault,
        ),
{
}

/// A schedule that was fetched is published, and with that the errand is over. A schedule
/// that could not be fetched is left out.
pub proof fn law_schedules(world: World, task: Errand, config: DailySchedule, fault: Fault)
    ensures
        sends(
            world.turn(Stage::Scheduling { task }, Outcome::Schedule(Ok(config))),
            world,
            task,
            Stage::PublishingSchedule { task },
            world.publisher.schedule_letter(config),
        ),
        errand_over(
            world.turn(Stage::Scheduling { task }, Outcome::Schedule(Err(fault))),
            world,
            task,
        ),
        errand_over(
            world.turn(Stage::PublishingSchedule { task }, Outcome::Published(Ok(()))),
            world,
            task,
        ),
        errand_failed(
            world.turn(Stage::PublishingSchedule { task }, Outcome::Published(Err(fault))),
            world,
            task,
            fault,
        ),
{
}

/// During a wait a command is carried out, when Home Assistant comes online every entity is
/// announced again, at the deadline comes a poll, and without a source of commands the session
/// is over.
pub proof fn law_waits(world: World, deadline: nat, command: Command)
    ensures
        ({
            let turn = world.turn(Stage::Waiting { deadline }, Outcome::Command(command));
            &&& !(command is HomeAssistantOnline) ==> turn.stage == (Stage::Fetching {
                command,
                deadline,
            }) && turn.act == Act::FetchSchedule
            &&& command is HomeAssistantOnline && world.publisher.entities().len() > 0 ==> {
                let messages = world.publisher.announcements(world.publisher.entities());
                let task = Errand::Rediscovery { deadline };
                sends(
                    turn,
                    world,
                    task,
                    Stage::Announcing { task, messages, next: 0 },
                    messages[0],
                )
            }
        }),
        ({
            let turn = world.turn(Stage::Waiting { deadline }, Outcome::Timeout);
            &&& world.publisher.healthy ==> polls(turn)
            &&& !world.publisher.healthy ==> says_gone(turn, world, loss(world))
        }),
        says_gone(
            world.turn(Stage::Waiting { deadline }, Outcome::Closed),
            world,
            Fault::MqttDisconnected("command channel closed"@),
        ),
{
}

/// To carry out a command the schedule is fetched, what the command makes of it is written,
/// and what was written is published. Where one of that fails, the wait goes on.
pub proof fn law_carries_out(
    world: World,
    deadline: nat,
    command: Command,
    config: DailySchedule,
    published: Result<(), Fault>,
    fault: Fault,
)
    ensures
        ({
            let turn = world.turn(
                Stage::Fetching { command, deadline },
                Outcome::Schedule(Ok(config)),
            );
            match commanded(config, command) {
                Ok(changed) => turn.stage == (Stage::Writing { config: changed, deadline })
                    && turn.act == Act::WriteSchedule(changed),
                Err(_) => rests(turn, world, deadline),
            }
        }),
        rests(
            world.turn(Stage::Fetching { command, deadline }, Outcome::Schedule(Err(fault))),
            world,
            deadline,
        ),
        ({
            let turn = world.turn(Stage::Writing { config, deadline }, Outcome::Written(Ok(())));
            if world.publisher.healthy {
                &&& turn.stage == Stage::Reporting { deadline }
                &&& turn.act == Act::Publish(world.publisher.schedule_letter(config))
            } else {
                says_gone(turn, world, loss(world))
            }
        }),
        rests(
            world.turn(Stage::Writing { config, deadline }, Outcome::Written(Err(fault))),
            world,
            deadline,
        ),
        rests(
            world.turn(Stage::Reporting { deadline }, Outcome::Published(published)),
            world,
            deadline,
        ),
{
}

/// The session is over once the adapter has said, or tried to say, that it is gone, with what
/// was wrong.
pub proof fn law_ends(world: World, fault: Fault, published: Result<(), Fault>)
    ensures
        ({
            let turn = world.turn(Stage::Leaving { fault }, Outcome::OfflinePublished(published));
            turn.stage == Stage::Ended && turn.act == Act::End(fault)
        }),
{
}

/// What each counter counts: readings that were published, polls whose readings could not be
/// fetched, schedules that were published or fetched for a command, schedules that were
/// written, messages that were published, and commands that came.
pub proof fn law_counted_exactly(stage: Stage, outcome: Outcome, counters: Counters)
    requires
        stage.awaits(outcome),
    ensures
        ({
            let after = counted(stage, outcome, counters);
            let published = (outcome is Published && outcome->Published_0 is Ok) || (outcome
                is OfflinePublished && outcome->OfflinePublished_0 is Ok);
            let read = stage is PublishingData && outcome is Published && outcome->Published_0 is Ok;
            let unread = stage == (Stage::Reading { task: Errand::Poll }) && outcome is Data
                && outcome->Data_0 is Err;
            let fetched = (stage is PublishingSchedule && outcome is Published && outcome->Published_0 is Ok) || (
            stage is Fetching && outcome is Schedule && outcome->Schedule_0 is Ok);
            let written = stage is Writing && outcome is Written && outcome->Written_0 is Ok;
            let ordered = outcome is Command && !(outcome->Command_0 is HomeAssistantOnline);
            &&& after.successful_polls == one_more(counters.successful_polls, read)
            &&& after.failed_polls == one_more(counters.failed_polls, unread)
            &&& after.schedule_fetches == one_more(counters.schedule_fetches, fetched)
            &&& after.schedule_writes == one_more(counters.schedule_writes, written)
            &&& after.mqtt_messages_sent == one_more(counters.mqtt_messages_sent, published)
            &&& after.commands_received == one_more(counters.commands_received, ordered)
            &&& after.recoveries == counters.recoveries
        }),
{
}

/// A counter, one step on where there is something to count. Behind the largest value it
/// starts over.
pub open spec fn one_more(count: u64, counts: bool) -> u64 {
    if !counts {
        count
    } else if count == 0xffff_ffff_ffff_ffff {
        0
    } else {
        (count + 1) as u64
    }
}

/// A delay that was taken is followed by one twice as long, or by the longest; starting over
/// gives the first one.
pub proof fn law_delays(delays: Delays)
    ensures
        2 * delays.current <= delays.max ==> delays.taken().current == 2 * delays.current,
        2 * delays.current > delays.max ==> delays.taken().current == delays.max,
        delays.taken().initial == delays.initial,
        delays.taken().max == delays.max,
        delays.restarted().current == delays.initial,
        delays.restarted().initial == delays.initial,
        delays.restarted().max == delays.max,
{
}

/// Every stage awaits what can come of one kind of action.
pub proof fn law_awaited(stage: Stage, outcome: Outcome)
    ensures
        stage.awaits(outcome) <==> match outcome {
            Outcome::Published(_) => stage is Greeting || stage is Announcing || stage
                is PublishingData || stage is PublishingSchedule || stage is Reporting,
            Outcome::Subscribed(_) => stage is Subscribing,
            Outcome::Data(_) => stage is Reading,
            Outcome::Schedule(_) => stage is Scheduling || stage is Fetching,
            Outcome::Written(_) => stage is Writing,
            Outcome::Command(_) => stage is Waiting,
            Outcome::Timeout => stage is Waiting,
            Outcome::Closed => stage is Waiting,
            Outcome::OfflinePublished(_) => stage is Leaving,
        },
{
}

}
