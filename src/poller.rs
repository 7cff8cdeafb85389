//! The decisions of one exchange's polling loop, apart from the waiting and
//! the network: each event yields the next action, and no event stops it.
use vstd::prelude::*;
use crate::clock::{parse_naive_datetime, parsed_naive, Timestamp};
use crate::model::{BtcPrice, Exchange, FetchError};

verus! {

/// The pause between two ticks unless another is chosen.
pub const DEFAULT_DELAY_MILLIS: u64 = 2000;

/// What the loop does next.
#[derive(Debug, Clone)]
pub enum PollAction {
    /// Write `price` at `at` to the store, then report the outcome.
    Persist { at: Timestamp, price: String },
    /// The tick is over: wait this long, then fetch the next price.
    Wait { millis: u64 },
}

/// One exchange's loop: its pause, and how many ticks have ended, how many
/// of them in a failure. The counts stop at the largest `u64`.
#[derive(Debug, Clone, Copy, PartialEq, Eq, Structural)]
pub struct Poller {
    pub exchange: Exchange,
    pub delay_millis: u64,
    pub ticks: u64,
    pub failures: u64,
}

pub open spec fn saturating_inc(n: u64) -> u64 {
    if n == u64::MAX {
        n
    } else {
        (n + 1) as u64
    }
}

/// The loop once a tick has ended, in a failure or not.
pub open spec fn tick_ended(p: Poller, failed: bool) -> Poller {
    Poller {
        ticks: saturating_inc(p.ticks),
        failures: if failed { saturating_inc(p.failures) } else { p.failures },
        ..p
    }
}

/// The loop after `n` ticks that each ended in a failed write.
pub open spec fn after_failed_writes(p: Poller, n: nat) -> Poller
    decreases n,
{
    if n == 0 {
        p
    } else {
        tick_ended(after_failed_writes(p, (n - 1) as nat), true)
    }
}

impl Poller {
    pub fn new(exchange: Exchange, delay_millis: u64) -> (p: Poller)
        ensures
            p == (Poller { exchange, delay_millis, ticks: 0, failures: 0 }),
    {
        Poller { exchange, delay_millis, ticks: 0, failures: 0 }
    }

    fn end_tick(&mut self, failed: bool) -> (a: PollAction)
        ensures
            *final(self) == tick_ended(*old(self), failed),
            a == (PollAction::Wait { millis: old(self).delay_millis }),
    {
        if self.ticks < u64::MAX {
            self.ticks = self.ticks + 1;
        }
        if failed && self.failures < u64::MAX {
            self.failures = self.failures + 1;
        }
        PollAction::Wait { millis: self.delay_millis }
    }

    /// The adapter has answered. A quote whose time reads back goes to the
    /// store; a failed fetch or an unreadable time ends the tick as a failure.
    pub fn on_price(&mut self, fetched: Result<BtcPrice, FetchError>) -> (a: PollAction)
        ensures
            match fetched {
                Ok(q) => match parsed_naive(q.time@) {
                    Some(at) => *final(self) == *old(self) && a is Persist && a->at == at
                        && a->price@ == q.price@,
                    None => *final(self) == tick_ended(*old(self), true)
                        && a == (PollAction::Wait { millis: old(self).delay_millis }),
                },
                Err(_) => *final(self) == tick_ended(*old(self), true)
                    && a == (PollAction::Wait { millis: old(self).delay_millis }),
            },
    {
        match fetched {
            Ok(q) => match parse_naive_datetime(q.time.as_str()) {
                Some(at) => PollAction::Persist { at, price: q.price },
                None => self.end_tick(true),
            },
            Err(_) => self.end_tick(true),
        }
    }

    /// The store has answered: the tick ends, as a failure if the write
    /// failed, and the loop waits for the next one.
    pub fn on_persisted(&mut self, outcome: Result<(), FetchError>) -> (a: PollAction)
        ensures
            *final(self) == tick_ended(*old(self), outcome is Err),
            a == (PollAction::Wait { millis: old(self).delay_millis }),
    {
        self.end_tick(outcome.is_err())
    }
}

/// A store that fails every write never stops the loop: after any number of
/// such ticks each has been counted, up to the largest `u64`, and the
/// exchange and the pause are those it started with.
pub proof fn failing_store_never_stops(p: Poller, n: nat)
    ensures
        after_failed_writes(p, n).ticks == if p.ticks + n >= u64::MAX { u64::MAX as int } else { p.ticks + n },
        after_failed_writes(p, n).failures == if p.failures + n >= u64::MAX { u64::MAX as int } else { p.failures + n },
        after_failed_writes(p, n).exchange == p.exchange,
        after_failed_writes(p, n).delay_millis == p.delay_millis,
    decreases n,
{
    if n > 0 {
        failing_store_never_stops(p, (n - 1) as nat);
    }
}

} // verus!
