//! What one delivery does to a retrying wrapper, as mathematics.
//!
//! A delivery is settled by three things: the state before it, the clock
//! reading it is given, and the answers of the sinks and of the factory, which
//! are summed up in an [`Outcome`]. [`admissible`] says which outcomes a state
//! and a reading allow, [`step`] says what state follows, and [`calls_of`] says
//! which calls were made on the way.

use vstd::prelude::*;

verus! {

/// How long to wait between retries: 50 ms, in nanoseconds.
pub const RETRY_NANOS: i128 = 50_000_000;

/// One hour, in nanoseconds.
pub const HOUR_NANOS: i128 = 3_600_000_000_000;

/// How one delivery ended.
#[derive(Debug, Clone, Copy, PartialEq, Eq, Structural)]
pub enum Outcome {
    /// The sink in use took the record.
    Delivered,
    /// There was no sink, or the sink in use had just refused the record, and
    /// the retry interval had not passed: the record was dropped and the
    /// factory was left alone.
    Suppressed,
    /// The factory was asked for a sink and failed. The record was dropped.
    ConnectFailed,
    /// The factory made a sink, which refused the accounting record. The sink
    /// was thrown away and the record was dropped.
    AccountingRefused,
    /// The factory made a sink, which took the accounting record if one was
    /// due and then refused the record. The sink was thrown away and the record
    /// was dropped.
    RecordRefused,
    /// The factory made a sink, which took the accounting record if one was
    /// due and then the record. The sink is now in use.
    Reconnected,
}

/// The state of a retrying wrapper, as far as deliveries depend on it.
pub struct Snapshot {
    /// Whether a sink is in use.
    pub connected: bool,
    /// How many records were dropped since the last accounting record went through.
    pub dropped_logs: nat,
    /// When the factory was last asked for a sink.
    pub last_try_time: int,
}

/// One call that a wrapper makes on the factory or on a sink.
pub enum Call {
    /// The factory is asked for a sink.
    Connect,
    /// A sink fresh from the factory is offered the accounting record for this
    /// many dropped records.
    Accounting(nat),
    /// A sink is offered the producer's record.
    Record,
}

/// One delivery: the clock reading it was given and how it ended.
pub struct Event {
    /// The reading of the clock that the delivery was given.
    pub now: int,
    /// How the delivery ended.
    pub outcome: Outcome,
}

/// Whether the factory may be asked again at `now`, having last been asked at
/// `last_try_time`.
pub open spec fn retry_due(last_try_time: int, now: int) -> bool {
    now - last_try_time >= RETRY_NANOS
}

/// The count of dropped records after one more was dropped. The count stops at
/// the largest `usize`.
pub open spec fn count_drop(dropped_logs: nat) -> nat {
    if dropped_logs < usize::MAX {
        dropped_logs + 1
    } else {
        dropped_logs
    }
}

/// Whether the factory made a sink in a delivery that ended in `outcome`.
pub open spec fn sink_made(outcome: Outcome) -> bool {
    outcome is AccountingRefused || outcome is RecordRefused || outcome is Reconnected
}

/// Whether the record was dropped in a delivery that ended in `outcome`.
pub open spec fn record_dropped(outcome: Outcome) -> bool {
    !(outcome is Delivered) && !(outcome is Reconnected)
}

/// How many dropped records a delivery that started in `pre` and ended in
/// `outcome` has accounted for: all of them where a new sink took the
/// accounting record, none otherwise.
pub open spec fn accounted(pre: Snapshot, outcome: Outcome) -> nat {
    if outcome is RecordRefused || outcome is Reconnected {
        pre.dropped_logs
    } else {
        0
    }
}

/// Whether a delivery that starts in `pre` at `now` can end in `outcome`.
///
/// With a sink in use, the sink decides between `Delivered` and the rest.
/// Without one, or once it has refused, the clock decides between `Suppressed`
/// and a reconnection, and the factory and the new sink decide how the
/// reconnection ends. An accounting record can only be refused where one is
/// due.
pub open spec fn admissible(pre: Snapshot, now: int, outcome: Outcome) -> bool {
    match outcome {
        Outcome::Delivered => pre.connected,
        Outcome::Suppressed => !retry_due(pre.last_try_time, now),
        Outcome::ConnectFailed => retry_due(pre.last_try_time, now),
        Outcome::AccountingRefused => retry_due(pre.last_try_time, now) && pre.dropped_logs != 0,
        Outcome::RecordRefused => retry_due(pre.last_try_time, now),
        Outcome::Reconnected => retry_due(pre.last_try_time, now),
    }
}

/// The state after a delivery that started in `pre` at `now` and ended in
/// `outcome`.
pub open spec fn step(pre: Snapshot, now: int, outcome: Outcome) -> Snapshot {
    match outcome {
        Outcome::Delivered => pre,
        Outcome::Suppressed => Snapshot {
            connected: false,
            dropped_logs: count_drop(pre.dropped_logs),
            last_try_time: pre.last_try_time,
        },
        Outcome::ConnectFailed => Snapshot {
            connected: false,
            dropped_logs: count_drop(pre.dropped_logs),
            last_try_time: now,
        },
        Outcome::AccountingRefused => Snapshot {
            connected: false,
            dropped_logs: count_drop(pre.dropped_logs),
            last_try_time: now,
        },
        Outcome::RecordRefused => Snapshot { connected: false, dropped_logs: 1, last_try_time: now },
        Outcome::Reconnected => Snapshot { connected: true, dropped_logs: 0, last_try_time: now },
    }
}

/// The accounting record that a new sink is offered, as a sequence of calls:
/// one call where records were dropped, none where none were.
pub open spec fn accounting_call(dropped_logs: nat) -> Seq<Call> {
    if dropped_logs != 0 {
        seq![Call::Accounting(dropped_logs)]
    } else {
        seq![]
    }
}

/// The calls made, in order, by a delivery that started in `pre` and ended in
/// `outcome`.
pub open spec fn calls_of(pre: Snapshot, outcome: Outcome) -> Seq<Call> {
    let first = if pre.connected {
        seq![Call::Record]
    } else {
        seq![]
    };
    let rest = match outcome {
        Outcome::Delivered => seq![],
        Outcome::Suppressed => seq![],
        Outcome::ConnectFailed => seq![Call::Connect],
        Outcome::AccountingRefused => seq![Call::Connect, Call::Accounting(pre.dropped_logs)],
        Outcome::RecordRefused => seq![Call::Connect] + accounting_call(pre.dropped_logs)
            + seq![Call::Record],
        Outcome::Reconnected => seq![Call::Connect] + accounting_call(pre.dropped_logs)
            + seq![Call::Record],
    };
    first + rest
}

/// Whether each of `events` can follow the one before, starting in `start`.
pub open spec fn admissible_run(start: Snapshot, events: Seq<Event>) -> bool
    decreases events.len(),
{
    events.len() == 0 || {
        &&& admissible_run(start, events.drop_last())
        &&& admissible(run(start, events.drop_last()), events.last().now, events.last().outcome)
    }
}

/// The state after `events` took place one after another, starting in `start`.
pub open spec fn run(start: Snapshot, events: Seq<Event>) -> Snapshot
    decreases events.len(),
{
    if events.len() == 0 {
        start
    } else {
        step(run(start, events.drop_last()), events.last().now, events.last().outcome)
    }
}

/// The calls made, in order, while `events` took place one after another,
/// starting in `start`.
pub open spec fn calls_of_run(start: Snapshot, events: Seq<Event>) -> Seq<Call>
    decreases events.len(),
{
    if events.len() == 0 {
        seq![]
    } else {
        calls_of_run(start, events.drop_last()) + calls_of(
            run(start, events.drop_last()),
            events.last().outcome,
        )
    }
}

/// While every record is taken by the sink in use, nothing changes: the state
/// after any number of such deliveries is the state before them, so no record
/// is counted as dropped, and every call made is the offer of a record to the
/// sink, so the factory is never called.
pub proof fn lemma_deliveries_change_nothing(start: Snapshot, events: Seq<Event>)
    requires
        start.connected,
        forall|i: int| 0 <= i < events.len() ==> (#[trigger] events[i]).outcome is Delivered,
    ensures
        admissible_run(start, events),
        run(start, events) == start,
        calls_of_run(start, events).len() == events.len(),
        forall|i: int|
            0 <= i < events.len() ==> #[trigger] calls_of_run(start, events)[i] == Call::Record,
    decreases events.len(),
{
    if events.len() > 0 {
        let earlier = events.drop_last();
        assert forall|i: int| 0 <= i < earlier.len() implies (
        #[trigger] earlier[i]).outcome is Delivered by {
            assert(earlier[i] == events[i]);
        }
        lemma_deliveries_change_nothing(start, earlier);
        assert(events.last().outcome is Delivered);
        assert(calls_of(start, Outcome::Delivered) =~= seq![Call::Record]);
    }
}

/// Inside the retry interval, a delivery that does not go through the sink in
/// use can only be suppressed. The factory is not called: the one call made, if
/// any, is the offer that the sink in use refused. One more record is counted
/// as dropped, unless the count already stands at the largest `usize`, and
/// there is no sink afterwards.
pub proof fn lemma_inside_interval_drops_one(pre: Snapshot, now: int, outcome: Outcome)
    requires
        admissible(pre, now, outcome),
        !(outcome is Delivered),
        !retry_due(pre.last_try_time, now),
    ensures
        outcome is Suppressed,
        calls_of(pre, outcome) == (if pre.connected {
            seq![Call::Record]
        } else {
            Seq::<Call>::empty()
        }),
        step(pre, now, outcome) == (Snapshot {
            connected: false,
            dropped_logs: count_drop(pre.dropped_logs),
            last_try_time: pre.last_try_time,
        }),
        pre.dropped_logs < usize::MAX ==> step(pre, now, outcome).dropped_logs == pre.dropped_logs
            + 1,
{
}

/// Once the retry interval has passed, a delivery that does not go through the
/// sink in use calls the factory exactly once, before any call on the sink it
/// makes, and the interval starts anew at `now`. Where the factory fails, no
/// further call is made, one more record is counted as dropped, and there is no
/// sink afterwards.
pub proof fn lemma_after_interval_connects_once(pre: Snapshot, now: int, outcome: Outcome)
    requires
        admissible(pre, now, outcome),
        !(outcome is Delivered),
        retry_due(pre.last_try_time, now),
    ensures
        !(outcome is Suppressed),
        step(pre, now, outcome).last_try_time == now,
        ({
            let calls = calls_of(pre, outcome);
            let at: int = if pre.connected {
                1
            } else {
                0
            };
            &&& at < calls.len()
            &&& calls[at] == Call::Connect
            &&& forall|i: int| 0 <= i < calls.len() && i != at ==> calls[i] != Call::Connect
            &&& outcome is ConnectFailed ==> calls.len() == at + 1
        }),
        outcome is ConnectFailed ==> step(pre, now, outcome) == (Snapshot {
            connected: false,
            dropped_logs: count_drop(pre.dropped_logs),
            last_try_time: now,
        }),
{
}

/// Where the factory makes a sink after records were dropped, the calls that
/// follow the call of the factory begin with exactly one accounting record,
/// which carries the count of dropped records, and the record is offered only
/// after it was taken. Where the new sink takes both, the count is back at
/// zero and a sink is in use.
pub proof fn lemma_reconnect_accounts_first(pre: Snapshot, now: int, outcome: Outcome)
    requires
        admissible(pre, now, outcome),
        sink_made(outcome),
        pre.dropped_logs > 0,
    ensures
        ({
            let first = if pre.connected {
                seq![Call::Record]
            } else {
                Seq::<Call>::empty()
            };
            let last = if outcome is AccountingRefused {
                Seq::<Call>::empty()
            } else {
                seq![Call::Record]
            };
            calls_of(pre, outcome) == first + seq![
                Call::Connect,
                Call::Accounting(pre.dropped_logs),
            ] + last
        }),
        outcome is Reconnected ==> step(pre, now, outcome) == (Snapshot {
            connected: true,
            dropped_logs: 0,
            last_try_time: now,
        }),
{
}

/// Where the new sink refuses the accounting record, it is offered nothing
/// more and is not kept: there is no sink afterwards, and the count is not
/// reset but stands one higher, or at the largest `usize`.
pub proof fn lemma_refused_accounting_keeps_count(pre: Snapshot, now: int, outcome: Outcome)
    requires
        admissible(pre, now, outcome),
        outcome is AccountingRefused,
    ensures
        calls_of(pre, outcome).last() == Call::Accounting(pre.dropped_logs),
        !step(pre, now, outcome).connected,
        step(pre, now, outcome).dropped_logs == count_drop(pre.dropped_logs),
        step(pre, now, outcome).dropped_logs >= pre.dropped_logs > 0,
{
}

/// No dropped record goes unnoticed. Below the largest `usize`, the records
/// that are still to be accounted for after a delivery, together with those
/// that the delivery has accounted for, are those that were to be accounted
/// for before it and the record itself, if it was dropped.
pub proof fn lemma_drops_are_accounted(pre: Snapshot, now: int, outcome: Outcome)
    requires
        admissible(pre, now, outcome),
        pre.dropped_logs < usize::MAX,
    ensures
        step(pre, now, outcome).dropped_logs + accounted(pre, outcome) == pre.dropped_logs + (
        if record_dropped(outcome) {
            1nat
        } else {
            0nat
        }),
{
}

/// The count of dropped records falls only in a delivery in which a new sink
/// took the accounting record for that count.
pub proof fn lemma_count_falls_after_accounting(pre: Snapshot, now: int, outcome: Outcome)
    requires
        admissible(pre, now, outcome),
        step(pre, now, outcome).dropped_logs < pre.dropped_logs,
    ensures
        outcome is RecordRefused || outcome is Reconnected,
        calls_of(pre, outcome).contains(Call::Accounting(pre.dropped_logs)),
{
    let at: int = if pre.connected {
        2
    } else {
        1
    };
    assert(calls_of(pre, outcome)[at] == Call::Accounting(pre.dropped_logs));
}

/// A sink is in use after a delivery only where the record went through it:
/// either it was in use before and took the record, or it is new and took
/// everything it was offered.
pub proof fn lemma_sink_in_use_took_the_record(pre: Snapshot, now: int, outcome: Outcome)
    requires
        admissible(pre, now, outcome),
        step(pre, now, outcome).connected,
    ensures
        outcome is Delivered || outcome is Reconnected,
        calls_of(pre, outcome).last() == Call::Record,
{
}

} // verus!
