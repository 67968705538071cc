use qendercore_mqtt_adapter::stats::{
    format_duration, format_summary, report, RuntimeStats, StatsDelta, StatsSnapshot,
};
use qendercore_mqtt_adapter::time::TimeSpan;

#[test]
fn format_summary_includes_totals_and_deltas() {
    let snapshot = StatsSnapshot {
        uptime: TimeSpan::from_secs(3661),
        successful_polls: 100,
        failed_polls: 2,
        schedule_fetches: 100,
        schedule_writes: 5,
        mqtt_messages_sent: 800,
        commands_received: 5,
        recoveries: 1,
    };
    let delta = StatsDelta {
        successful_polls: 5,
        failed_polls: 0,
        schedule_fetches: 5,
        schedule_writes: 1,
        mqtt_messages_sent: 40,
        commands_received: 1,
        recoveries: 0,
    };

    let summary = format_summary(&snapshot, &delta);
    assert!(summary.contains("uptime=01:01:01"));
    assert!(summary.contains("polls_ok=100 (+5)"));
    assert!(summary.contains("commands=5 (+1)"));
}

#[test]
fn counters_count_and_deltas_tell_the_growth() {
    let mut stats = RuntimeStats::new_shared();
    let before = stats.snapshot(TimeSpan::from_secs(1));
    stats.record_successful_poll();
    stats.record_successful_poll();
    stats.record_failed_poll();
    stats.record_schedule_fetch();
    stats.record_schedule_write();
    stats.record_mqtt_message_sent();
    stats.record_mqtt_message_sent();
    stats.record_mqtt_message_sent();
    stats.record_command_received();
    stats.record_recovery();
    let after = stats.snapshot(TimeSpan::from_secs(90_061));
    assert!(after.continues(&before));
    assert!(after.continues(&after));
    assert!(!before.continues(&after));
    let delta = after.delta_from(&before);
    assert_eq!(
        delta,
        StatsDelta {
            successful_polls: 2,
            failed_polls: 1,
            schedule_fetches: 1,
            schedule_writes: 1,
            mqtt_messages_sent: 3,
            commands_received: 1,
            recoveries: 1,
        }
    );
    assert_eq!(
        format_summary(&after, &delta),
        "alive: uptime=25:01:01 polls_ok=2 (+2) polls_fail=1 (+1) sched_fetch=1 (+1) \
         sched_write=1 (+1) mqtt_messages=3 (+3) commands=1 (+1) recoveries=1 (+1)"
    );
    assert_eq!(report(&after, &before), Some(format_summary(&after, &delta)));
    assert_eq!(report(&before, &after), None);
}

#[test]
fn durations_are_written_as_clocks() {
    assert_eq!(format_duration(&TimeSpan::from_secs(0)), "00:00:00");
    assert_eq!(format_duration(&TimeSpan::from_millis(59_999)), "00:00:59");
    assert_eq!(format_duration(&TimeSpan::from_secs(360_000)), "100:00:00");
}

#[test]
fn counters_are_counted_one_by_one() {
    let mut stats = RuntimeStats::new_shared();
    let other = RuntimeStats::new_shared();
    for _ in 0..1000 {
        stats.record_mqtt_message_sent();
    }
    let first = stats.snapshot(TimeSpan::from_secs(1));
    for _ in 0..7 {
        stats.record_failed_poll();
    }
    let second = stats.snapshot(TimeSpan::from_secs(2));
    assert_eq!(stats.snapshot(TimeSpan::from_secs(2)), second);
    assert_eq!(first.mqtt_messages_sent, 1000);
    assert_eq!(first.failed_polls, 0);
    assert!(second.continues(&first));
    let delta = second.delta_from(&first);
    assert_eq!((delta.mqtt_messages_sent, delta.failed_polls), (0, 7));
    assert_eq!(delta.successful_polls, 0);
    assert_eq!(
        other.snapshot(TimeSpan::from_secs(0)),
        RuntimeStats::new_shared().snapshot(TimeSpan::from_secs(0))
    );
}
