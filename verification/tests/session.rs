use qendercore_mqtt_adapter::config::MqttConfig;
use qendercore_mqtt_adapter::double::Double;
use qendercore_mqtt_adapter::error::AppError;
use qendercore_mqtt_adapter::model::{DailyScheduleConfig, QcData, Schedule, ScheduleMode};
use qendercore_mqtt_adapter::mqtt::{CommandMessage, MqttPublisher, StopReason};
use qendercore_mqtt_adapter::session::{
    after_session, apply_command, recover, Action, AfterSession, Event, ReconnectBackoff, Session,
};
use qendercore_mqtt_adapter::stats::RuntimeStats;
use qendercore_mqtt_adapter::time::TimeSpan;

#[test]
fn reconnect_backoff_doubles_and_caps() {
    let mut backoff = ReconnectBackoff::new(TimeSpan::from_secs(2), TimeSpan::from_secs(10));
    assert_eq!(backoff.next_delay(), TimeSpan::from_secs(2));
    assert_eq!(backoff.next_delay(), TimeSpan::from_secs(4));
    assert_eq!(backoff.next_delay(), TimeSpan::from_secs(8));
    assert_eq!(backoff.next_delay(), TimeSpan::from_secs(10));
    assert_eq!(backoff.next_delay(), TimeSpan::from_secs(10));
    backoff.reset();
    assert_eq!(backoff.next_delay(), TimeSpan::from_secs(2));
}

fn publisher() -> MqttPublisher {
    let config = MqttConfig {
        host: "mqtt.local".to_string(),
        port: 1883,
        username: None,
        password: None,
        discovery_prefix: "homeassistant".to_string(),
        topic_prefix: "qendercore".to_string(),
        client_id: "adapter".to_string(),
    };
    MqttPublisher::connect(&config).0
}

fn schedule() -> DailyScheduleConfig {
    DailyScheduleConfig {
        state_enabled: true,
        force_charge_current: Double::from_integer(100),
        force_discharge_current: Double::from_integer(48),
        min_soc: 15,
        max_soc: 100,
        schedules: vec![Schedule::disabled()],
    }
}

struct Run {
    session: Option<Session>,
    action: Action,
    publisher: MqttPublisher,
    stats: RuntimeStats,
}

impl Run {
    fn start(publisher: MqttPublisher) -> Run {
        let (session, action) = Session::start(TimeSpan::from_secs(60), &publisher);
        Run { session: Some(session), action, publisher, stats: RuntimeStats::new_shared() }
    }

    fn step(&mut self, event: Event, now: u64) {
        let session = self.session.take().unwrap();
        assert!(session.awaits(&event));
        let now = TimeSpan::from_secs(now);
        let (next, action) = session.step(event, now, &self.publisher, &mut self.stats);
        self.session = Some(next);
        self.action = action;
    }

    fn published(&mut self, now: u64) -> String {
        let topic = match &self.action {
            Action::Publish(message) => message.topic.clone(),
            other => panic!("nothing was published: {other:?}"),
        };
        self.step(Event::Published(Ok(())), now);
        topic
    }

    fn subscribed(&mut self) -> String {
        let topic = match &self.action {
            Action::Subscribe(topic) => topic.clone(),
            other => panic!("nothing was subscribed to: {other:?}"),
        };
        self.step(Event::Subscribed(Ok(())), 0);
        topic
    }

    fn set_up(&mut self) {
        assert_eq!(self.published(0), "qendercore/status");
        for topic in self.publisher.subscribe_command_topics() {
            assert_eq!(self.subscribed(), topic);
        }
        self.announce(0);
    }

    fn announce(&mut self, now: u64) {
        for message in self.publisher.publish_discovery() {
            assert_eq!(self.published(now), message.topic);
        }
    }

    fn sent(&self) -> u64 {
        self.stats.snapshot(TimeSpan::from_secs(0)).mqtt_messages_sent
    }

    fn waiting() -> Run {
        let mut run = Run::start(publisher());
        run.set_up();
        run.step(Event::Data(Ok(QcData::new())), 1);
        assert_eq!(run.published(1), "qendercore/state");
        run.step(Event::Schedule(Ok(schedule())), 2);
        assert_eq!(run.published(3), "qendercore/schedule/state");
        run.receives(60);
        run
    }

    fn receives(&self, seconds: u64) {
        match &self.action {
            Action::Receive { timeout } => assert_eq!(*timeout, TimeSpan::from_secs(seconds)),
            other => panic!("no command is waited for: {other:?}"),
        }
    }

    fn leaves(&mut self, words: &str) {
        match &self.action {
            Action::PublishOffline(message) => {
                assert_eq!(message.topic, "qendercore/status");
                assert_eq!(message.payload, "offline");
            }
            other => panic!("the session goes on: {other:?}"),
        }
        self.step(Event::OfflinePublished(Ok(())), 100);
        self.ends(words);
    }

    fn ends(&self, words: &str) {
        match &self.action {
            Action::End(error) => {
                assert_eq!(error.message(), words);
                assert_eq!(self.stats.snapshot(TimeSpan::from_secs(0)).recoveries, 0);
            }
            other => panic!("the session goes on: {other:?}"),
        }
    }
}

#[test]
fn a_session_polls_and_waits() {
    let mut run = Run::waiting();
    let stats = run.stats.snapshot(TimeSpan::from_secs(0));
    assert_eq!(stats.mqtt_messages_sent, 1 + 26 + 2);
    assert_eq!(stats.successful_polls, 1);
    assert_eq!(stats.schedule_fetches, 1);
    assert_eq!(stats.failed_polls, 0);
    run.step(Event::Timeout, 63);
    assert!(matches!(run.action, Action::FetchData));
    run.step(Event::Data(Err(AppError::Http("x".to_string()))), 64);
    assert!(matches!(run.action, Action::FetchSchedule));
    run.step(Event::Schedule(Err(AppError::Http("x".to_string()))), 65);
    run.receives(60);
    assert_eq!(run.stats.snapshot(TimeSpan::from_secs(0)).failed_polls, 1);
}

#[test]
fn a_command_is_carried_out_at_once() {
    let mut run = Run::waiting();
    let command = CommandMessage::ScheduleMode { slot: 2, mode: ScheduleMode::ForcedCharge };
    run.step(Event::Command(command), 10);
    assert!(matches!(run.action, Action::FetchSchedule));
    run.step(Event::Schedule(Ok(schedule())), 11);
    match &run.action {
        Action::WriteSchedule(config) => {
            assert_eq!(config.schedules.len(), 2);
            assert_eq!(config.schedules[1].mode, ScheduleMode::ForcedCharge);
        }
        other => panic!("nothing is written: {other:?}"),
    }
    run.step(Event::Written(Ok(())), 12);
    match &run.action {
        Action::Publish(message) => {
            assert!(message.payload.contains("\"schedule_2_mode\":\"Forced Charge\""))
        }
        other => panic!("nothing is published: {other:?}"),
    }
    assert_eq!(run.published(13), "qendercore/schedule/state");
    run.receives(50);
    let stats = run.stats.snapshot(TimeSpan::from_secs(0));
    assert_eq!(stats.commands_received, 1);
    assert_eq!(stats.schedule_fetches, 2);
    assert_eq!(stats.schedule_writes, 1);
}

#[test]
fn a_command_that_fails_is_dropped() {
    let error = || AppError::Http("x".to_string());
    let mut run = Run::waiting();
    run.step(Event::Command(CommandMessage::MinSoc(20)), 10);
    run.step(Event::Schedule(Err(error())), 11);
    run.receives(52);
    run.step(Event::Command(CommandMessage::MinSoc(20)), 12);
    run.step(Event::Schedule(Ok(schedule())), 13);
    run.step(Event::Written(Err(error())), 14);
    run.receives(49);
    run.step(Event::Command(CommandMessage::ScheduleEnd { slot: 9, value: String::new() }), 15);
    run.step(Event::Schedule(Ok(schedule())), 16);
    run.receives(47);
    run.step(Event::Command(CommandMessage::MaxSoc(90)), 62);
    run.step(Event::Schedule(Ok(schedule())), 62);
    run.step(Event::Written(Ok(())), 62);
    run.step(Event::Published(Err(error())), 63);
    assert!(matches!(run.action, Action::FetchData));
}

#[test]
fn home_assistant_coming_online_is_answered() {
    let mut run = Run::waiting();
    let before = run.sent();
    run.step(Event::Command(CommandMessage::HomeAssistantOnline), 10);
    run.announce(11);
    assert!(matches!(run.action, Action::FetchData));
    run.step(Event::Data(Ok(QcData::new())), 12);
    assert_eq!(run.published(12), "qendercore/state");
    run.step(Event::Schedule(Ok(schedule())), 13);
    assert_eq!(run.published(13), "qendercore/schedule/state");
    run.receives(50);
    assert_eq!(run.sent(), before + 28);
    let stats = run.stats.snapshot(TimeSpan::from_secs(0));
    assert_eq!(stats.commands_received, 0);
    assert_eq!(stats.successful_polls, 2);
    run.step(Event::Command(CommandMessage::HomeAssistantOnline), 20);
    run.step(Event::Published(Err(AppError::MqttClient("x".to_string()))), 21);
    run.receives(42);
    run.step(Event::Command(CommandMessage::HomeAssistantOnline), 22);
    run.announce(23);
    run.step(Event::Data(Err(AppError::Http("x".to_string()))), 24);
    run.step(Event::Schedule(Err(AppError::Http("x".to_string()))), 25);
    run.receives(38);
    assert_eq!(run.stats.snapshot(TimeSpan::from_secs(0)).failed_polls, 0);
}

#[test]
fn a_lost_connection_ends_the_session() {
    let mut run = Run::waiting();
    run.publisher.stopped(StopReason::Exhausted);
    run.step(Event::Timeout, 63);
    run.leaves("mqtt disconnected: mqtt event loop stopped unexpectedly");
    let mut run = Run::waiting();
    run.step(Event::Command(CommandMessage::MinSoc(20)), 10);
    run.step(Event::Schedule(Ok(schedule())), 11);
    run.publisher.stopped(StopReason::Failed("reset".to_string()));
    run.step(Event::Written(Ok(())), 12);
    run.leaves("mqtt disconnected: mqtt event loop stopped: reset");
    let mut run = Run::waiting();
    run.step(Event::Closed, 10);
    run.leaves("mqtt disconnected: command channel closed");
    let mut run = Run::waiting();
    run.step(Event::Timeout, 63);
    run.step(Event::Data(Ok(QcData::new())), 64);
    let sent = run.sent();
    run.step(Event::Published(Err(AppError::MqttClient("full".to_string()))), 64);
    run.leaves("mqtt client error: full");
    assert_eq!(run.sent(), sent + 1);
}

#[test]
fn a_session_that_cannot_be_set_up_just_ends() {
    let mut lost = publisher();
    lost.stopped(StopReason::ReceiverDropped);
    let run = Run::start(lost);
    run.ends("mqtt disconnected: command receiver dropped");
    let mut run = Run::start(publisher());
    run.step(Event::Published(Err(AppError::MqttClient("x".to_string()))), 0);
    run.ends("mqtt client error: x");
    assert_eq!(run.sent(), 0);
    let mut run = Run::start(publisher());
    run.published(0);
    run.subscribed();
    run.step(Event::Subscribed(Err(AppError::MqttClient("y".to_string()))), 0);
    run.ends("mqtt client error: y");
    let session = run.session.unwrap();
    assert!(!session.awaits(&Event::Timeout));
    assert!(!session.awaits(&Event::Published(Ok(()))));
}

#[test]
fn commands_change_what_they_name() {
    let mut config = schedule();
    apply_command(&mut config, CommandMessage::ScheduleEnabled(false)).unwrap();
    apply_command(&mut config, CommandMessage::MinSoc(30)).unwrap();
    apply_command(&mut config, CommandMessage::MaxSoc(80)).unwrap();
    let start = CommandMessage::ScheduleStart { slot: 1, value: "01:00:00".to_string() };
    apply_command(&mut config, start.clone()).unwrap();
    let end = CommandMessage::ScheduleEnd { slot: 3, value: "02:00:00".to_string() };
    apply_command(&mut config, end).unwrap();
    let mut expected = schedule();
    expected.state_enabled = false;
    expected.min_soc = 30;
    expected.max_soc = 80;
    expected.schedules[0].start_time = "01:00:00".to_string();
    expected.schedules.push(Schedule::disabled());
    expected.schedules.push(Schedule::disabled());
    expected.schedules[2].end_time = "02:00:00".to_string();
    assert_eq!(config, expected);
    apply_command(&mut config, start).unwrap();
    assert_eq!(config, expected);
    let wrong = CommandMessage::ScheduleMode { slot: 6, mode: ScheduleMode::Disable };
    assert_eq!(
        apply_command(&mut config, wrong).unwrap_err().message(),
        "invalid state: schedule slot 6 out of range 1..=5"
    );
    assert_eq!(config, expected);
}

#[test]
fn a_failed_session_is_counted_and_delayed() {
    let mut stats = RuntimeStats::new_shared();
    let mut backoff = ReconnectBackoff::new(TimeSpan::from_secs(2), TimeSpan::from_secs(60));
    assert_eq!(recover(&mut backoff, &mut stats), TimeSpan::from_secs(2));
    assert_eq!(recover(&mut backoff, &mut stats), TimeSpan::from_secs(4));
    assert_eq!(stats.snapshot(TimeSpan::from_secs(0)).recoveries, 2);
}

#[test]
fn sessions_are_begun_until_one_ends_well() {
    let mut stats = RuntimeStats::new_shared();
    let mut backoff = ReconnectBackoff::new(TimeSpan::from_secs(2), TimeSpan::from_secs(10));
    for (failed, seconds) in [2, 4, 8, 10, 10].into_iter().enumerate() {
        let result = Err(AppError::InvalidState(format!("session {failed}")));
        match after_session(result, &mut backoff, &mut stats) {
            AfterSession::Retry { delay, failure } => {
                assert_eq!(delay, TimeSpan::from_secs(seconds));
                assert_eq!(failure.message(), format!("invalid state: session {failed}"));
            }
            AfterSession::Finish => panic!("a failed session is followed by another"),
        }
        assert_eq!(stats.snapshot(TimeSpan::from_secs(0)).recoveries, failed as u64 + 1);
    }
    assert!(matches!(after_session(Ok(()), &mut backoff, &mut stats), AfterSession::Finish));
    assert_eq!(stats.snapshot(TimeSpan::from_secs(0)).recoveries, 5);
    assert_eq!(backoff.next_delay(), TimeSpan::from_secs(2));
}
