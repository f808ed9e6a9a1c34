//! A simple retry implementation that never gives up and drops log entries rather than sleeping.

use crate::syslog::accounting::AccountingRecord;
use crate::syslog::clock::{shift, shifted, Clock, Timestamp};
use crate::syslog::model::{
    admissible, calls_of, count_drop, retry_due, sink_made, step, Call, Outcome, Snapshot,
    HOUR_NANOS, RETRY_NANOS,
};
use std::convert::Infallible;
use vstd::prelude::*;

verus! {

/// Something that takes log records of type `R` and may refuse them.
///
/// Nothing is promised of either method: a [`Retry`] is ready for every answer.
pub trait Sink<R> {
    /// Why a record was refused.
    type Error;

    /// Offers one record of the producer to the sink.
    fn deliver(&self, record: &R) -> Result<(), Self::Error>;

    /// Offers the accounting record to the sink. `context` is the record of the
    /// producer whose delivery led to the reconnection.
    fn deliver_accounting(
        &self,
        accounting: &AccountingRecord,
        context: &R,
    ) -> Result<(), Self::Error>;
}

/// What a [`Retry`] keeps between deliveries, apart from the factory.
pub struct RetryState<D> {
    current_drain: Option<D>,
    dropped_logs: usize,
    last_try_time: Timestamp,
}

impl<D> View for RetryState<D> {
    type V = Snapshot;

    closed spec fn view(&self) -> Snapshot {
        Snapshot {
            connected: self.current_drain is Some,
            dropped_logs: self.dropped_logs as nat,
            last_try_time: self.last_try_time as int,
        }
    }
}

impl<D> RetryState<D> {
    /// The sink in use, if there is one.
    pub closed spec fn sink(&self) -> Option<D> {
        self.current_drain
    }

    /// Makes a state from its parts: the sink in use, if any, the count of
    /// dropped records, and the time of the last try.
    pub fn new(
        current_drain: Option<D>,
        dropped_logs: usize,
        last_try_time: Timestamp,
    ) -> (state: RetryState<D>)
        ensures
            state@ == (Snapshot {
                connected: current_drain is Some,
                dropped_logs: dropped_logs as nat,
                last_try_time: last_try_time as int,
            }),
            state.sink() == current_drain,
    {
        RetryState { current_drain, dropped_logs, last_try_time }
    }

    /// How many records were dropped since the last accounting record went through.
    pub fn dropped_logs(&self) -> (dropped_logs: usize)
        ensures
            dropped_logs == self@.dropped_logs,
    {
        self.dropped_logs
    }

    /// Whether a sink is in use.
    pub fn is_connected(&self) -> (connected: bool)
        ensures
            connected == self@.connected,
            connected == (self.sink() is Some),
    {
        self.current_drain.is_some()
    }

    /// When the factory was last asked for a sink.
    pub fn last_try_time(&self) -> (last_try_time: Timestamp)
        ensures
            last_try_time == self@.last_try_time,
    {
        self.last_try_time
    }

    /// Safely increments the count of log messages dropped.
    pub fn incr_dropped_logs(&mut self)
        ensures
            final(self)@ == (Snapshot {
                dropped_logs: count_drop(old(self)@.dropped_logs),
                ..old(self)@
            }),
            final(self).sink() == old(self).sink(),
    {
        self.dropped_logs = self.dropped_logs.saturating_add(1);
    }

    /// Checks if it's time to try again at `now`. If it is, the timeout is also reset.
    pub fn should_try_again(&mut self, now: Timestamp) -> (again: bool)
        ensures
            again == retry_due(old(self)@.last_try_time, now as int),
            again ==> final(self)@ == (Snapshot { last_try_time: now as int, ..old(self)@ }),
            !again ==> final(self)@ == old(self)@,
            final(self).sink() == old(self).sink(),
    {
        let elapsed = match self.last_try_time.checked_add(RETRY_NANOS) {
            Some(next_try_time) => now >= next_try_time,
            None => false,
        };
        if elapsed {
            self.last_try_time = now;
        }
        elapsed
    }

    /// Takes in what the sink in use answered when it was offered the record.
    /// `taken` says whether it took the record. A sink that refused is thrown
    /// away. Without a sink in use nothing counts as delivered.
    pub fn sink_answered(&mut self, taken: bool) -> (delivered: bool)
        ensures
            delivered == (taken && old(self)@.connected),
            delivered ==> final(self)@ == old(self)@ && final(self).sink() == old(self).sink(),
            !delivered ==> final(self)@ == (Snapshot { connected: false, ..old(self)@ })
                && final(self).sink() is None,
    {
        let delivered = taken && self.current_drain.is_some();
        if !delivered {
            // Failed. Drop the failed drain and start recovering.
            self.current_drain = None;
        }
        delivered
    }

    /// Takes in what the factory answered. Where it failed, the record is
    /// counted as dropped and there is nothing to go on with. Where it made a
    /// sink, the state stays as it is, and what comes back is that sink and
    /// what it is to be offered first: the accounting record for the count of
    /// dropped records, where that count is not zero.
    pub fn factory_answered<E>(&mut self, attempt: Result<D, E>) -> (next: Option<
        (D, Option<AccountingRecord>),
    >)
        ensures
            final(self).sink() == old(self).sink(),
            attempt is Err ==> next is None && final(self)@ == (Snapshot {
                dropped_logs: count_drop(old(self)@.dropped_logs),
                ..old(self)@
            }),
            attempt matches Ok(drain) ==> final(self)@ == old(self)@ && (next matches Some(pair)
                && pair.0 == drain && (match pair.1 {
                Some(first) => old(self)@.dropped_logs != 0 && first.accounts_for(
                    old(self)@.dropped_logs,
                ),
                None => old(self)@.dropped_logs == 0,
            })),
    {
        match attempt {
            Ok(drain) => {
                // Cool, got a new drain. If any messages were dropped, a log message is to say so.
                let first = if self.dropped_logs != 0 {
                    Some(AccountingRecord::new(self.dropped_logs))
                } else {
                    None
                };
                Some((drain, first))
            },
            Err(_) => {
                // Nope, failed. Try again later.
                self.incr_dropped_logs();
                None
            },
        }
    }

    /// Takes in what a new sink answered when it was offered the accounting
    /// record. Where it took the record, the count of dropped records is reset
    /// and the delivery goes on. Where it refused, the record of the producer
    /// is counted as dropped as well.
    pub fn accounting_answered(&mut self, taken: bool) -> (go_on: bool)
        ensures
            go_on == taken,
            final(self).sink() == old(self).sink(),
            taken ==> final(self)@ == (Snapshot { dropped_logs: 0, ..old(self)@ }),
            !taken ==> final(self)@ == (Snapshot {
                dropped_logs: count_drop(old(self)@.dropped_logs),
                ..old(self)@
            }),
    {
        if taken {
            // The count of dropped messages has been logged successfully, so reset that counter.
            self.dropped_logs = 0;
        } else {
            // Nope, failed. Try again later.
            self.incr_dropped_logs();
        }
        taken
    }

    /// Takes in what the new sink `drain` answered when it was offered the
    /// record. Where it took the record, it is the sink in use from now on.
    /// Where it refused, it is thrown away, no sink is in use, and the record
    /// is counted as dropped.
    pub fn record_answered(&mut self, drain: D, taken: bool) -> (kept: bool)
        ensures
            kept == taken,
            taken ==> final(self).sink() == Some(drain) && final(self)@ == (Snapshot {
                connected: true,
                ..old(self)@
            }),
            !taken ==> final(self).sink() is None && final(self)@ == (Snapshot {
                connected: false,
                dropped_logs: count_drop(old(self)@.dropped_logs),
                ..old(self)@
            }),
    {
        if taken {
            // Everything went through. Great. Keep the new drain.
            self.current_drain = Some(drain);
        } else {
            // Nope, failed. Try again later.
            self.current_drain = None;
            self.incr_dropped_logs();
        }
        taken
    }
}

/// A sink that mends itself.
///
/// It owns a sink made by the factory `new_drain`. When that sink refuses a
/// record it is thrown away, and a new one is asked of the factory, but not more
/// often than once per retry interval. Records that arrive while there is no
/// sink are dropped and counted. The first thing a new sink is given is an
/// accounting record with that count.
///
/// The wrapper is changed through `&mut`: whoever shares it between threads
/// puts it behind a lock and holds the lock for the whole of each delivery.
pub struct Retry<D, N> {
    new_drain: N,
    state: RetryState<D>,
    clock: Clock,
    calls: Ghost<Seq<Call>>,
}

impl<D, N> View for Retry<D, N> {
    type V = Snapshot;

    closed spec fn view(&self) -> Snapshot {
        self.state@
    }
}

impl<D, E, N> Retry<D, N> where N: Fn() -> Result<D, E> {
    /// The factory.
    pub closed spec fn factory(&self) -> N {
        self.new_drain
    }

    /// The sink in use, if there is one.
    pub closed spec fn sink(&self) -> Option<D> {
        self.state.sink()
    }

    /// Every call made so far on the factory and on the sinks it made, oldest first.
    pub closed spec fn calls(&self) -> Seq<Call> {
        self.calls@
    }

    /// The factory can be called.
    pub open spec fn wf(&self) -> bool {
        call_requires(self.factory(), ())
    }

    /// Calls the factory once. The wrapper is made around the sink that comes
    /// back; where none comes back, the factory's error is handed on.
    pub fn new(new_drain: N) -> (made: Result<Retry<D, N>, E>)
        requires
            call_requires(new_drain, ()),
        ensures
            match made {
                Ok(retry) => {
                    &&& retry.wf()
                    &&& retry.factory() == new_drain
                    &&& retry@ == (Snapshot { connected: true, dropped_logs: 0, last_try_time: 0 })
                    &&& retry.sink() matches Some(drain) && call_ensures(
                        new_drain,
                        (),
                        Ok::<D, E>(drain),
                    )
                    &&& retry.calls() == seq![Call::Connect]
                },
                Err(error) => call_ensures(new_drain, (), Err::<D, E>(error)),
            },
    {
        let drain = new_drain()?;
        let ghost first = seq![Call::Connect];

        Ok(
            Retry {
                new_drain,
                state: RetryState::new(Some(drain), 0, 0),
                clock: Clock::start(),
                calls: Ghost(first),
            },
        )
    }

    /// How many records were dropped since the last accounting record went through.
    pub fn dropped_logs(&self) -> (dropped_logs: usize)
        ensures
            dropped_logs == self@.dropped_logs,
    {
        self.state.dropped_logs()
    }

    /// Whether a sink is in use.
    pub fn is_connected(&self) -> (connected: bool)
        ensures
            connected == self@.connected,
            connected == (self.sink() is Some),
    {
        self.state.is_connected()
    }

    /// When the factory was last asked for a sink, on the wrapper's own clock.
    /// The clock stood at zero when the wrapper was made.
    pub fn last_try_time(&self) -> (last_try_time: Timestamp)
        ensures
            last_try_time == self@.last_try_time,
    {
        self.state.last_try_time()
    }

    /// Reads the wrapper's own clock, which was started when the wrapper was made.
    pub fn now(&self) -> (now: Timestamp)
        ensures
            0 <= now,
    {
        self.clock.now()
    }

    /// Sets the time of the last try as if the wrapper were read at `now`, so
    /// that the retry interval ends an hour after `now`.
    pub fn fudge_timeout_long_at(&mut self, now: Timestamp)
        ensures
            final(self)@ == (Snapshot {
                last_try_time: shifted(now as int, HOUR_NANOS - RETRY_NANOS),
                ..old(self)@
            }),
            final(self).factory() == old(self).factory(),
            final(self).sink() == old(self).sink(),
            final(self).calls() == old(self).calls(),
    {
        self.state.last_try_time = shift(now, HOUR_NANOS - RETRY_NANOS);
    }

    /// Sets the time of the last try as if the wrapper were read at `now`, so
    /// that the retry interval ends at `now`.
    pub fn fudge_timeout_instant_at(&mut self, now: Timestamp)
        ensures
            final(self)@ == (Snapshot {
                last_try_time: shifted(now as int, -RETRY_NANOS),
                ..old(self)@
            }),
            final(self).factory() == old(self).factory(),
            final(self).sink() == old(self).sink(),
            final(self).calls() == old(self).calls(),
    {
        self.state.last_try_time = shift(now, -RETRY_NANOS);
    }

    /// Fudges the retry timeout so that it times out after an hour. Used for testing.
    pub fn fudge_timeout_long(&mut self)
        ensures
            (exists|now: int|
                0 <= now <= i128::MAX && final(self)@ == (Snapshot {
                    last_try_time: #[trigger] shifted(now, HOUR_NANOS - RETRY_NANOS),
                    ..old(self)@
                })),
            final(self).factory() == old(self).factory(),
            final(self).sink() == old(self).sink(),
            final(self).calls() == old(self).calls(),
    {
        let now = self.clock.now();
        self.fudge_timeout_long_at(now);
    }

    /// Fudges the retry timeout so that it times out instantly. Used for testing.
    pub fn fudge_timeout_instant(&mut self)
        ensures
            (exists|now: int|
                0 <= now <= i128::MAX && final(self)@ == (Snapshot {
                    last_try_time: #[trigger] shifted(now, -RETRY_NANOS),
                    ..old(self)@
                })),
            final(self).factory() == old(self).factory(),
            final(self).sink() == old(self).sink(),
            final(self).calls() == old(self).calls(),
    {
        let now = self.clock.now();
        self.fudge_timeout_instant_at(now);
    }

    /// The first half of a delivery: offers the record to the sink in use, if
    /// there is one, and hands its answer to [`RetryState::sink_answered`].
    fn offer_to_sink_in_use<R>(&mut self, record: &R) -> (delivered: bool) where D: Sink<R>
        ensures
            delivered ==> old(self)@.connected && final(self)@ == old(self)@ && final(self).sink()
                == old(self).sink(),
            !delivered ==> final(self)@ == (Snapshot { connected: false, ..old(self)@ })
                && final(self).sink() is None,
            final(self).calls() == old(self).calls() + (if old(self)@.connected {
                seq![Call::Record]
            } else {
                Seq::<Call>::empty()
            }),
            final(self).factory() == old(self).factory(),
    {
        // If a drain is already there, try to use it.
        let taken = match &self.state.current_drain {
            Some(drain) => {
                let delivery = drain.deliver(record);
                proof {
                    self.calls@ = self.calls@.push(Call::Record);
                }
                delivery.is_ok()
            },
            None => false,
        };
        self.state.sink_answered(taken)
    }

    /// The second half of a delivery, for when no sink is in use: asks the
    /// factory for a new sink if the retry interval has passed at `now`, offers
    /// the new sink what it is due, and hands each answer to the function of
    /// [`RetryState`] that takes it in.
    fn reconnect_at<R>(&mut self, record: &R, now: Timestamp) -> (outcome: Outcome) where
        D: Sink<R>,

        requires
            old(self).wf(),
            !old(self)@.connected,
        ensures
            !(outcome is Delivered),
            admissible(old(self)@, now as int, outcome),
            final(self)@ == step(old(self)@, now as int, outcome),
            final(self).calls() == old(self).calls() + calls_of(old(self)@, outcome),
            final(self).factory() == old(self).factory(),
            outcome is Reconnected ==> (final(self).sink() matches Some(drain) && call_ensures(
                old(self).factory(),
                (),
                Ok::<D, E>(drain),
            )),
            outcome is ConnectFailed ==> (exists|error: E|
                call_ensures(old(self).factory(), (), Err::<D, E>(error))),
            sink_made(outcome) ==> (exists|drain: D|
                call_ensures(old(self).factory(), (), Ok::<D, E>(drain))),
    {
        // We need a new drain. First, check if it's been long enough since the last attempt.
        if !self.state.should_try_again(now) {
            // It hasn't been enough time yet. Give it a while.
            self.state.incr_dropped_logs();
            return Outcome::Suppressed;
        }
        // Ok, it's been long enough. Try again.

        let attempt = (self.new_drain)();
        let ghost answer = attempt;
        proof {
            self.calls@ = self.calls@.push(Call::Connect);
        }
        let (drain, first) = match self.state.factory_answered(attempt) {
            Some(pair) => pair,
            None => {
                assert(call_ensures(self.new_drain, (), Err::<D, E>(answer->Err_0)));
                return Outcome::ConnectFailed;
            },
        };
        assert(call_ensures(self.new_drain, (), Ok::<D, E>(drain)));

        // If any messages were dropped, send a log message saying so.
        if let Some(accounting) = first {
            let delivery = drain.deliver_accounting(&accounting, record);
            proof {
                self.calls@ = self.calls@.push(Call::Accounting(accounting.count as nat));
            }
            if !self.state.accounting_answered(delivery.is_ok()) {
                return Outcome::AccountingRefused;
            }
        }
        // Now, send the log message itself.

        let delivery = drain.deliver(record);
        proof {
            self.calls@ = self.calls@.push(Call::Record);
        }
        if self.state.record_answered(drain, delivery.is_ok()) {
            Outcome::Reconnected
        } else {
            Outcome::RecordRefused
        }
    }

    /// Delivers one record, with `now` as the reading of the clock.
    ///
    /// What is returned says which way the delivery went. The state that is
    /// left, and the calls that were made, are those that the model gives for
    /// the state before, `now`, and that outcome. Every call is made here, and
    /// every answer is handed to the function of [`RetryState`] that takes it
    /// in: [`RetryState::sink_answered`], [`RetryState::factory_answered`],
    /// [`RetryState::accounting_answered`] and [`RetryState::record_answered`]
    /// say what follows from each.
    pub fn log_at<R>(&mut self, record: &R, now: Timestamp) -> (outcome: Outcome) where D: Sink<R>
        requires
            old(self).wf(),
        ensures
            admissible(old(self)@, now as int, outcome),
            final(self)@ == step(old(self)@, now as int, outcome),
            final(self).calls() == old(self).calls() + calls_of(old(self)@, outcome),
            final(self).factory() == old(self).factory(),
            outcome is Delivered ==> final(self).sink() == old(self).sink(),
            outcome is Reconnected ==> (final(self).sink() matches Some(drain) && call_ensures(
                old(self).factory(),
                (),
                Ok::<D, E>(drain),
            )),
            outcome is ConnectFailed ==> (exists|error: E|
                call_ensures(old(self).factory(), (), Err::<D, E>(error))),
            sink_made(outcome) ==> (exists|drain: D|
                call_ensures(old(self).factory(), (), Ok::<D, E>(drain))),
    {
        if self.offer_to_sink_in_use(record) {
            // Logged successfully. Good. We're done here.
            return Outcome::Delivered;
        }
        self.reconnect_at(record, now)
    }

    /// Delivers one record. The clock is the wrapper's own, and it is read
    /// only once the sink in use, if there was one, has refused the record.
    ///
    /// This never fails: a record that cannot be delivered is dropped and
    /// counted. The state that is left, and the calls that were made, are
    /// those that [`Retry::log_at`] leaves for some reading of the clock.
    pub fn log<R>(&mut self, record: &R) -> (done: Result<(), Infallible>) where D: Sink<R>
        requires
            old(self).wf(),
        ensures
            done is Ok,
            (exists|now: int, outcome: Outcome|
                {
                    &&& 0 <= now <= i128::MAX
                    &&& admissible(old(self)@, now, outcome)
                    &&& final(self)@ == #[trigger] step(old(self)@, now, outcome)
                    &&& final(self).calls() == old(self).calls() + calls_of(old(self)@, outcome)
                    &&& outcome is Delivered ==> final(self).sink() == old(self).sink()
                    &&& outcome is Reconnected ==> (final(self).sink() matches Some(drain)
                        && call_ensures(old(self).factory(), (), Ok::<D, E>(drain)))
                    &&& outcome is ConnectFailed ==> (exists|error: E|
                        call_ensures(old(self).factory(), (), Err::<D, E>(error)))
                    &&& sink_made(outcome) ==> (exists|drain: D|
                        call_ensures(old(self).factory(), (), Ok::<D, E>(drain)))
                }),
            final(self).factory() == old(self).factory(),
    {
        if self.offer_to_sink_in_use(record) {
            // Logged successfully. Good. We're done here.
            assert(self@ == step(old(self)@, 0, Outcome::Delivered));
            return Ok(());
        }
        // The sink in use may have taken its time to fail: the clock is read now.

        let now = self.clock.now();
        let outcome = self.reconnect_at(record, now);
        assert(self@ == step(old(self)@, now as int, outcome));
        Ok(())
    }
}

} // verus!
