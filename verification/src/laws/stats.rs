//! What holds of the counters, however often and in whatever order things are recorded.
use vstd::prelude::*;

use crate::stats::{no_counts, summary_line, Counters, StatsDelta, StatsSnapshot};
use crate::text::{decimal, two_digits};

verus! {

/// What can be recorded: one kind for each counter.
pub enum Record {
    SuccessfulPoll,
    FailedPoll,
    ScheduleFetch,
    ScheduleWrite,
    MqttMessageSent,
    CommandReceived,
    Recovery,
}

impl Record {
    /// The counters once this is recorded.
    pub open spec fn counted(self, counters: Counters) -> Counters {
        match self {
            Record::SuccessfulPoll => counters.successful_poll(),
            Record::FailedPoll => counters.failed_poll(),
            Record::ScheduleFetch => counters.schedule_fetch(),
            Record::ScheduleWrite => counters.schedule_write(),
            Record::MqttMessageSent => counters.mqtt_message_sent(),
            Record::CommandReceived => counters.command_received(),
            Record::Recovery => counters.recovery(),
        }
    }

    /// Its counter.
    pub open spec fn counter(self, counters: Counters) -> u64 {
        match self {
            Record::SuccessfulPoll => counters.successful_polls,
            Record::FailedPoll => counters.failed_polls,
            Record::ScheduleFetch => counters.schedule_fetches,
            Record::ScheduleWrite => counters.schedule_writes,
            Record::MqttMessageSent => counters.mqtt_messages_sent,
            Record::CommandReceived => counters.commands_received,
            Record::Recovery => counters.recoveries,
        }
    }

    /// How much its counter grew.
    pub open spec fn growth(self, delta: StatsDelta) -> u64 {
        match self {
            Record::SuccessfulPoll => delta.successful_polls,
            Record::FailedPoll => delta.failed_polls,
            Record::ScheduleFetch => delta.schedule_fetches,
            Record::ScheduleWrite => delta.schedule_writes,
            Record::MqttMessageSent => delta.mqtt_messages_sent,
            Record::CommandReceived => delta.commands_received,
            Record::Recovery => delta.recoveries,
        }
    }
}

/// The counters once everything of a sequence is recorded, in its order.
pub open spec fn recorded(counters: Counters, records: Seq<Record>) -> Counters
    decreases records.len(),
{
    if records.len() == 0 {
        counters
    } else {
        records.last().counted(recorded(counters, records.drop_last()))
    }
}

/// How often something occurs in a sequence.
pub open spec fn times(records: Seq<Record>, record: Record) -> nat
    decreases records.len(),
{
    if records.len() == 0 {
        0
    } else {
        times(records.drop_last(), record) + (if records.last() == record {
            1nat
        } else {
            0nat
        })
    }
}

/// Every counter grows by as often as its kind was recorded, whatever else was. One whose
/// kind was not recorded stays as it was.
pub proof fn law_counts(counters: Counters, records: Seq<Record>, record: Record)
    requires
        record.counter(counters) + times(records, record) <= u64::MAX,
    ensures
        record.counter(recorded(counters, records)) == record.counter(counters) + times(
            records,
            record,
        ),
    decreases records.len(),
{
    if records.len() > 0 {
        law_counts(counters, records.drop_last(), record);
    }
}

/// Recording one kind of thing `n` times from the start makes its counter `n`, and leaves
/// every other counter at zero.
pub proof fn law_one_kind_counted(record: Record, other: Record, n: nat)
    requires
        n <= u64::MAX,
    ensures
        ({
            let counters = recorded(no_counts(), Seq::new(n, |i: int| record));
            other.counter(counters) == (if other == record {
                n
            } else {
                0
            })
        }),
{
    lemma_times_same(record, other, n);
    law_counts(no_counts(), Seq::new(n, |i: int| record), other);
}

proof fn lemma_times_same(record: Record, other: Record, n: nat)
    ensures
        times(Seq::new(n, |i: int| record), other) == (if other == record {
            n
        } else {
            0
        }),
    decreases n,
{
    if n > 0 {
        let less = (n - 1) as nat;
        lemma_times_same(record, other, less);
        assert(Seq::new(n, |i: int| record).drop_last() =~= Seq::new(less, |i: int| record));
    }
}

/// What was recorded first and what was recorded then are counted together.
proof fn lemma_times_split(records: Seq<Record>, n: int, record: Record)
    requires
        0 <= n <= records.len(),
    ensures
        times(records, record) == times(records.take(n), record) + times(records.skip(n), record),
        times(records, record) <= records.len(),
    decreases records.len(),
{
    if records.len() > 0 {
        let rest = records.drop_last();
        if n == records.len() {
            assert(records.take(n) =~= records);
            assert(records.skip(n) =~= Seq::<Record>::empty());
            lemma_times_split(rest, n - 1, record);
        } else {
            lemma_times_split(rest, n, record);
            assert(records.skip(n).drop_last() =~= rest.skip(n));
            assert(records.take(n) =~= rest.take(n));
        }
    }
}

/// A later snapshot is never behind an earlier one, so that the growth between them can be
/// told: it is how often each kind was recorded in between.
pub proof fn law_snapshots_follow(
    records: Seq<Record>,
    n: int,
    earlier: StatsSnapshot,
    later: StatsSnapshot,
    record: Record,
)
    requires
        0 <= n <= records.len() <= u64::MAX,
        earlier.counters() == recorded(no_counts(), records.take(n)),
        later.counters() == recorded(no_counts(), records),
    ensures
        later.follows(earlier),
        record.growth(later.growth(earlier)) == times(records.skip(n), record),
        record.counter(later.counters()) == times(records, record),
{
    assert forall|kind: Record|
        {
            &&& #[trigger] kind.counter(later.counters()) == times(records, kind)
            &&& kind.counter(earlier.counters()) == times(records.take(n), kind)
            &&& times(records, kind) == times(records.take(n), kind) + times(records.skip(n), kind)
        } by {
        lemma_times_split(records, n, kind);
        law_counts(no_counts(), records, kind);
        law_counts(no_counts(), records.take(n), kind);
    }
    let (now, past) = (later.counters(), earlier.counters());
    assert(Record::SuccessfulPoll.counter(now) >= Record::SuccessfulPoll.counter(past));
    assert(Record::FailedPoll.counter(now) >= Record::FailedPoll.counter(past));
    assert(Record::ScheduleFetch.counter(now) >= Record::ScheduleFetch.counter(past));
    assert(Record::ScheduleWrite.counter(now) >= Record::ScheduleWrite.counter(past));
    assert(Record::MqttMessageSent.counter(now) >= Record::MqttMessageSent.counter(past));
    assert(Record::CommandReceived.counter(now) >= Record::CommandReceived.counter(past));
    assert(Record::Recovery.counter(now) >= Record::Recovery.counter(past));
    assert(record.counter(now) >= record.counter(past));
}

/// Two values of the counters while things are recorded, on the left one or on the right.
pub open spec fn both_recorded(
    left: Counters,
    right: Counters,
    records: Seq<(bool, Record)>,
) -> (Counters, Counters)
    decreases records.len(),
{
    if records.len() == 0 {
        (left, right)
    } else {
        let (a, b) = both_recorded(left, right, records.drop_last());
        let (on_left, record) = records.last();
        if on_left {
            (record.counted(a), b)
        } else {
            (a, record.counted(b))
        }
    }
}

/// What was recorded on one of the two values.
pub open spec fn recorded_on(records: Seq<(bool, Record)>, left: bool) -> Seq<Record>
    decreases records.len(),
{
    if records.len() == 0 {
        Seq::empty()
    } else {
        let before = recorded_on(records.drop_last(), left);
        if records.last().0 == left {
            before.push(records.last().1)
        } else {
            before
        }
    }
}

/// Two values of the counters do not know of each other: each holds what was recorded on it,
/// however the records are interleaved.
pub proof fn law_two_apart(left: Counters, right: Counters, records: Seq<(bool, Record)>)
    ensures
        both_recorded(left, right, records) == (
            recorded(left, recorded_on(records, true)),
            recorded(right, recorded_on(records, false)),
        ),
    decreases records.len(),
{
    if records.len() > 0 {
        let rest = records.drop_last();
        law_two_apart(left, right, rest);
        let (on_left, record) = records.last();
        let before = recorded_on(rest, on_left);
        assert(before.push(record).drop_last() =~= before);
    }
}

/// A snapshot holds the counters, each under its own name, and none of them is set at the
/// start.
pub proof fn law_snapshot(snapshot: StatsSnapshot)
    ensures
        snapshot.counters().successful_polls == snapshot.successful_polls,
        snapshot.counters().failed_polls == snapshot.failed_polls,
        snapshot.counters().schedule_fetches == snapshot.schedule_fetches,
        snapshot.counters().schedule_writes == snapshot.schedule_writes,
        snapshot.counters().mqtt_messages_sent == snapshot.mqtt_messages_sent,
        snapshot.counters().commands_received == snapshot.commands_received,
        snapshot.counters().recoveries == snapshot.recoveries,
        no_counts().successful_polls == 0,
        no_counts().failed_polls == 0,
        no_counts().schedule_fetches == 0,
        no_counts().schedule_writes == 0,
        no_counts().mqtt_messages_sent == 0,
        no_counts().commands_received == 0,
        no_counts().recoveries == 0,
{
}

/// A snapshot follows another where no counter of the other one is ahead of it, and then each
/// counter grew by the difference.
pub proof fn law_growth(later: StatsSnapshot, earlier: StatsSnapshot)
    ensures
        later.follows(earlier) <==> (earlier.successful_polls <= later.successful_polls
            && earlier.failed_polls <= later.failed_polls && earlier.schedule_fetches
            <= later.schedule_fetches && earlier.schedule_writes <= later.schedule_writes
            && earlier.mqtt_messages_sent <= later.mqtt_messages_sent && earlier.commands_received
            <= later.commands_received && earlier.recoveries <= later.recoveries),
        later.follows(earlier) ==> {
            let grown = later.growth(earlier);
            &&& earlier.successful_polls + grown.successful_polls == later.successful_polls
            &&& earlier.failed_polls + grown.failed_polls == later.failed_polls
            &&& earlier.schedule_fetches + grown.schedule_fetches == later.schedule_fetches
            &&& earlier.schedule_writes + grown.schedule_writes == later.schedule_writes
            &&& earlier.mqtt_messages_sent + grown.mqtt_messages_sent == later.mqtt_messages_sent
            &&& earlier.commands_received + grown.commands_received == later.commands_received
            &&& earlier.recoveries + grown.recoveries == later.recoveries
        },
{
}

/// What is recorded counts one more of its kind, and of nothing else. Behind its largest value
/// a counter starts over.
pub proof fn law_recorded(record: Record, other: Record, counters: Counters)
    ensures
        record.counter(counters) < u64::MAX ==> record.counter(record.counted(counters))
            == record.counter(counters) + 1,
        record.counter(counters) == u64::MAX ==> record.counter(record.counted(counters)) == 0,
        other != record ==> other.counter(record.counted(counters)) == other.counter(counters),
{
}

/// The line that reports the counters names each, with its total and how much it grew, behind
/// how long the adapter has been running, in hours, minutes and seconds.
pub proof fn law_line(snapshot: StatsSnapshot, delta: StatsDelta)
    ensures
        ({
            let seconds = snapshot.uptime@ / 1_000_000_000;
            let (hours, minutes, rest) = (
                seconds / 3600,
                (seconds / 60) % 60,
                seconds % 60,
            );
            summary_line(snapshot, delta) == "alive: uptime="@ + (two_digits(hours) + ":"@
                + two_digits(minutes) + ":"@ + two_digits(rest)) + " polls_ok="@ + (decimal(
                snapshot.successful_polls as nat,
            ) + " (+"@ + decimal(delta.successful_polls as nat) + ")"@) + " polls_fail="@ + (
            decimal(snapshot.failed_polls as nat) + " (+"@ + decimal(delta.failed_polls as nat)
                + ")"@) + " sched_fetch="@ + (decimal(snapshot.schedule_fetches as nat) + " (+"@
                + decimal(delta.schedule_fetches as nat) + ")"@) + " sched_write="@ + (decimal(
                snapshot.schedule_writes as nat,
            ) + " (+"@ + decimal(delta.schedule_writes as nat) + ")"@) + " mqtt_messages="@ + (
            decimal(snapshot.mqtt_messages_sent as nat) + " (+"@ + decimal(
                delta.mqtt_messages_sent as nat,
            ) + ")"@) + " commands="@ + (decimal(snapshot.commands_received as nat) + " (+"@
                + decimal(delta.commands_received as nat) + ")"@) + " recoveries="@ + (decimal(
                snapshot.recoveries as nat,
            ) + " (+"@ + decimal(delta.recoveries as nat) + ")"@)
        }),
{
    let seconds = snapshot.uptime@ / 1_000_000_000;
    assert((seconds % 3600) / 60 == (seconds / 60) % 60);
}

}
