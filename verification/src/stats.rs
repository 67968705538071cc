//! Counters of what the adapter has done, and the line that reports them.
use vstd::prelude::*;
use vstd::string::StringExecFns;

use crate::text::{push_decimal, push_two_digits};
use crate::time::{TimeSpan, NANOS_PER_SECOND};

verus! {

broadcast use vstd::string::group_string_axioms;

/// What the adapter has done since it started. A counter starts over behind its largest
/// value.
#[derive(Debug)]
pub struct RuntimeStats {
    successful_polls: u64,
    failed_polls: u64,
    schedule_fetches: u64,
    schedule_writes: u64,
    mqtt_messages_sent: u64,
    commands_received: u64,
    recoveries: u64,
}

/// The values of the counters.
pub struct Counters {
    pub successful_polls: u64,
    pub failed_polls: u64,
    pub schedule_fetches: u64,
    pub schedule_writes: u64,
    pub mqtt_messages_sent: u64,
    pub commands_received: u64,
    pub recoveries: u64,
}

/// The counters at one moment, and how long the adapter had been running.
#[derive(Debug, Clone, Copy, PartialEq, Eq)]
pub struct StatsSnapshot {
    pub uptime: TimeSpan,
    pub successful_polls: u64,
    pub failed_polls: u64,
    pub schedule_fetches: u64,
    pub schedule_writes: u64,
    pub mqtt_messages_sent: u64,
    pub commands_received: u64,
    pub recoveries: u64,
}

/// How much each counter grew between two moments.
#[derive(Debug, Clone, Copy, PartialEq, Eq)]
pub struct StatsDelta {
    pub successful_polls: u64,
    pub failed_polls: u64,
    pub schedule_fetches: u64,
    pub schedule_writes: u64,
    pub mqtt_messages_sent: u64,
    pub commands_received: u64,
    pub recoveries: u64,
}

impl View for RuntimeStats {
    type V = Counters;

    closed spec fn view(&self) -> Counters {
        Counters {
            successful_polls: self.successful_polls,
            failed_polls: self.failed_polls,
            schedule_fetches: self.schedule_fetches,
            schedule_writes: self.schedule_writes,
            mqtt_messages_sent: self.mqtt_messages_sent,
            commands_received: self.commands_received,
            recoveries: self.recoveries,
        }
    }
}

/// The counters of an adapter that has not done anything.
pub open spec fn no_counts() -> Counters {
    Counters {
        successful_polls: 0,
        failed_polls: 0,
        schedule_fetches: 0,
        schedule_writes: 0,
        mqtt_messages_sent: 0,
        commands_received: 0,
        recoveries: 0,
    }
}

/// A counter one step on.
pub open spec fn next_count(n: u64) -> u64 {
    if n == u64::MAX {
        0
    } else {
        (n + 1) as u64
    }
}

impl Counters {
    pub open spec fn successful_poll(self) -> Counters {
        Counters { successful_polls: next_count(self.successful_polls), ..self }
    }

    pub open spec fn failed_poll(self) -> Counters {
        Counters { failed_polls: next_count(self.failed_polls), ..self }
    }

    pub open spec fn schedule_fetch(self) -> Counters {
        Counters { schedule_fetches: next_count(self.schedule_fetches), ..self }
    }

    pub open spec fn schedule_write(self) -> Counters {
        Counters { schedule_writes: next_count(self.schedule_writes), ..self }
    }

    pub open spec fn mqtt_message_sent(self) -> Counters {
        Counters { mqtt_messages_sent: next_count(self.mqtt_messages_sent), ..self }
    }

    pub open spec fn command_received(self) -> Counters {
        Counters { commands_received: next_count(self.commands_received), ..self }
    }

    pub open spec fn recovery(self) -> Counters {
        Counters { recoveries: next_count(self.recoveries), ..self }
    }
}

impl StatsSnapshot {
    /// The values of the counters.
    pub open spec fn counters(self) -> Counters {
        Counters {
            successful_polls: self.successful_polls,
            failed_polls: self.failed_polls,
            schedule_fetches: self.schedule_fetches,
            schedule_writes: self.schedule_writes,
            mqtt_messages_sent: self.mqtt_messages_sent,
            commands_received: self.commands_received,
            recoveries: self.recoveries,
        }
    }

    /// How much each counter grew since an earlier moment.
    pub open spec fn growth(self, previous: StatsSnapshot) -> StatsDelta {
        StatsDelta {
            successful_polls: (self.successful_polls - previous.successful_polls) as u64,
            failed_polls: (self.failed_polls - previous.failed_polls) as u64,
            schedule_fetches: (self.schedule_fetches - previous.schedule_fetches) as u64,
            schedule_writes: (self.schedule_writes - previous.schedule_writes) as u64,
            mqtt_messages_sent: (self.mqtt_messages_sent - previous.mqtt_messages_sent) as u64,
            commands_received: (self.commands_received - previous.commands_received) as u64,
            recoveries: (self.recoveries - previous.recoveries) as u64,
        }
    }

    /// Whether no counter was ahead of this one at an earlier moment.
    pub open spec fn follows(self, previous: StatsSnapshot) -> bool {
        &&& previous.successful_polls <= self.successful_polls
        &&& previous.failed_polls <= self.failed_polls
        &&& previous.schedule_fetches <= self.schedule_fetches
        &&& previous.schedule_writes <= self.schedule_writes
        &&& previous.mqtt_messages_sent <= self.mqtt_messages_sent
        &&& previous.commands_received <= self.commands_received
        &&& previous.recoveries <= self.recoveries
    }
}

impl RuntimeStats {
    /// The counters of an adapter that has not done anything, for its threads to share.
    pub fn new_shared() -> (stats: RuntimeStats)
        ensures
            stats@ == no_counts(),
    {
        RuntimeStats {
            successful_polls: 0,
            failed_polls: 0,
            schedule_fetches: 0,
            schedule_writes: 0,
            mqtt_messages_sent: 0,
            commands_received: 0,
            recoveries: 0,
        }
    }

    /// The counters now, `uptime` after the adapter started.
    pub fn snapshot(&self, uptime: TimeSpan) -> (snapshot: StatsSnapshot)
        ensures
            snapshot.uptime == uptime,
            snapshot.counters() == self@,
    {
        StatsSnapshot {
            uptime,
            successful_polls: self.successful_polls,
            failed_polls: self.failed_polls,
            schedule_fetches: self.schedule_fetches,
            schedule_writes: self.schedule_writes,
            mqtt_messages_sent: self.mqtt_messages_sent,
            commands_received: self.commands_received,
            recoveries: self.recoveries,
        }
    }

    pub fn record_successful_poll(&mut self)
        ensures
            final(self)@ == old(self)@.successful_poll(),
    {
        self.successful_polls = self.successful_polls.wrapping_add(1);
    }

    pub fn record_failed_poll(&mut self)
        ensures
            final(self)@ == old(self)@.failed_poll(),
    {
        self.failed_polls = self.failed_polls.wrapping_add(1);
    }

    pub fn record_schedule_fetch(&mut self)
        ensures
            final(self)@ == old(self)@.schedule_fetch(),
    {
        self.schedule_fetches = self.schedule_fetches.wrapping_add(1);
    }

    pub fn record_schedule_write(&mut self)
        ensures
            final(self)@ == old(self)@.schedule_write(),
    {
        self.schedule_writes = self.schedule_writes.wrapping_add(1);
    }

    pub fn record_mqtt_message_sent(&mut self)
        ensures
            final(self)@ == old(self)@.mqtt_message_sent(),
    {
        self.mqtt_messages_sent = self.mqtt_messages_sent.wrapping_add(1);
    }

    pub fn record_command_received(&mut self)
        ensures
            final(self)@ == old(self)@.command_received(),
    {
        self.commands_received = self.commands_received.wrapping_add(1);
    }

    pub fn record_recovery(&mut self)
        ensures
            final(self)@ == old(self)@.recovery(),
    {
        self.recoveries = self.recoveries.wrapping_add(1);
    }
}

impl StatsSnapshot {
    /// Whether no counter was ahead of this one at an earlier moment.
    pub fn continues(&self, previous: &StatsSnapshot) -> (yes: bool)
        ensures
            yes == self.follows(*previous),
    {
        previous.successful_polls <= self.successful_polls && previous.failed_polls
            <= self.failed_polls && previous.schedule_fetches <= self.schedule_fetches
            && previous.schedule_writes <= self.schedule_writes && previous.mqtt_messages_sent
            <= self.mqtt_messages_sent && previous.commands_received <= self.commands_received
            && previous.recoveries <= self.recoveries
    }

    /// How much each counter grew since an earlier moment.
    pub fn delta_from(&self, previous: &StatsSnapshot) -> (delta: StatsDelta)
        requires
            self.follows(*previous),
        ensures
            delta == self.growth(*previous),
    {
        StatsDelta {
            successful_polls: self.successful_polls - previous.successful_polls,
            failed_polls: self.failed_polls - previous.failed_polls,
            schedule_fetches: self.schedule_fetches - previous.schedule_fetches,
            schedule_writes: self.schedule_writes - previous.schedule_writes,
            mqtt_messages_sent: self.mqtt_messages_sent - previous.mqtt_messages_sent,
            commands_received: self.commands_received - previous.commands_received,
            recoveries: self.recoveries - previous.recoveries,
        }
    }
}

/// A total and how much it grew.
pub open spec fn counted(total: u64, added: u64) -> Seq<char> {
    crate::text::decimal(total as nat) + " (+"@ + crate::text::decimal(added as nat) + ")"@
}

/// A length of time in hours, minutes and seconds.
pub open spec fn clock(seconds: nat) -> Seq<char> {
    crate::text::two_digits(seconds / 3600) + ":"@ + crate::text::two_digits((seconds % 3600) / 60)
        + ":"@ + crate::text::two_digits(seconds % 60)
}

/// The line that reports the counters.
pub open spec fn summary_line(snapshot: StatsSnapshot, delta: StatsDelta) -> Seq<char> {
    "alive: uptime="@ + clock(snapshot.uptime@ / NANOS_PER_SECOND as nat) + " polls_ok="@ + counted(
        snapshot.successful_polls,
        delta.successful_polls,
    ) + " polls_fail="@ + counted(snapshot.failed_polls, delta.failed_polls) + " sched_fetch="@
        + counted(snapshot.schedule_fetches, delta.schedule_fetches) + " sched_write="@ + counted(
        snapshot.schedule_writes,
        delta.schedule_writes,
    ) + " mqtt_messages="@ + counted(snapshot.mqtt_messages_sent, delta.mqtt_messages_sent)
        + " commands="@ + counted(snapshot.commands_received, delta.commands_received)
        + " recoveries="@ + counted(snapshot.recoveries, delta.recoveries)
}

/// Appends a total and how much it grew.
fn push_counted(out: &mut String, total: u64, added: u64)
    ensures
        final(out)@ == old(out)@ + counted(total, added),
{
    push_decimal(out, total);
    out.append(" (+");
    push_decimal(out, added);
    out.append(")");
    assert(out@ =~= old(out)@ + counted(total, added));
}

/// The line that reports the counters.
pub fn format_summary(snapshot: &StatsSnapshot, delta: &StatsDelta) -> (summary: String)
    ensures
        summary@ == summary_line(*snapshot, *delta),
{
    let mut summary = "alive: uptime=".to_string();
    summary.append(format_duration(&snapshot.uptime).as_str());
    summary.append(" polls_ok=");
    push_counted(&mut summary, snapshot.successful_polls, delta.successful_polls);
    summary.append(" polls_fail=");
    push_counted(&mut summary, snapshot.failed_polls, delta.failed_polls);
    summary.append(" sched_fetch=");
    push_counted(&mut summary, snapshot.schedule_fetches, delta.schedule_fetches);
    summary.append(" sched_write=");
    push_counted(&mut summary, snapshot.schedule_writes, delta.schedule_writes);
    summary.append(" mqtt_messages=");
    push_counted(&mut summary, snapshot.mqtt_messages_sent, delta.mqtt_messages_sent);
    summary.append(" commands=");
    push_counted(&mut summary, snapshot.commands_received, delta.commands_received);
    summary.append(" recoveries=");
    push_counted(&mut summary, snapshot.recoveries, delta.recoveries);
    summary
}

/// The line that reports the counters, with how much they grew since the last report. None
/// where a counter has started over.
pub fn report(current: &StatsSnapshot, previous: &StatsSnapshot) -> (line: Option<String>)
    ensures
        match line {
            Some(text) => {
                &&& current.follows(*previous)
                &&& text@ == summary_line(*current, current.growth(*previous))
            },
            None => !current.follows(*previous),
        },
{
    if current.continues(previous) {
        Some(format_summary(current, &current.delta_from(previous)))
    } else {
        None
    }
}

/// A length of time in hours, minutes and seconds.
pub fn format_duration(duration: &TimeSpan) -> (text: String)
    ensures
        text@ == clock(duration@ / NANOS_PER_SECOND as nat),
{
    let total: u64 = duration.as_secs();
    let mut text = String::new();
    push_two_digits(&mut text, total / 3600);
    text.append(":");
    push_two_digits(&mut text, (total % 3600) / 60);
    text.append(":");
    push_two_digits(&mut text, total % 60);
    assert(text@ =~= clock(total as nat));
    text
}

}
