//! When a client tries to connect again after it lost its connection.

use std::time::Duration;
use vstd::prelude::*;

verus! {

/// What a client does about a lost connection.
///
/// The interval of a variant is fixed for the lifetime of the policy: there is
/// no jitter and no backoff.
#[derive(Copy, Clone, Debug, PartialEq)]
pub enum ReconnectOptions {
    /// Never connect again.
    Never,
    /// Connect again after the interval, but only once a connection has
    /// succeeded.
    AfterFirstSuccess(Duration),
    /// Connect again after the interval, whether or not a connection has
    /// ever succeeded.
    Always(Duration),
}

/// What a connection manager sees happen to its connection.
#[derive(Copy, Clone, Debug, PartialEq, Eq)]
pub enum LinkEvent {
    /// An attempt to connect succeeded.
    Connected,
    /// The connection was lost, or an attempt to connect failed.
    Disconnected,
}

impl ReconnectOptions {
    /// The delay after which a retry is scheduled when the connection is lost,
    /// `None` where the policy schedules none. `connected_before` says whether
    /// a connection under this policy has succeeded so far.
    pub open spec fn retry_delay(self, connected_before: bool) -> Option<Duration> {
        match self {
            ReconnectOptions::Never => None,
            ReconnectOptions::AfterFirstSuccess(interval) => if connected_before {
                Some(interval)
            } else {
                None
            },
            ReconnectOptions::Always(interval) => Some(interval),
        }
    }

    /// Decides on a lost connection whether to retry, and after what delay.
    pub fn retry_after(&self, connected_before: bool) -> (delay: Option<Duration>)
        ensures
            delay == self.retry_delay(connected_before),
    {
        match *self {
            ReconnectOptions::Never => None,
            ReconnectOptions::AfterFirstSuccess(interval) => if connected_before {
                Some(interval)
            } else {
                None
            },
            ReconnectOptions::Always(interval) => Some(interval),
        }
    }

    /// Whether a connection has succeeded among `events`.
    pub open spec fn has_connected(events: Seq<LinkEvent>) -> bool {
        exists|j: int| 0 <= j < events.len() && events[j] is Connected
    }

    /// The retry that event `i` of the run `events` schedules: none unless it
    /// is a disconnect, and then what the policy gives for the events before
    /// it.
    pub open spec fn scheduled_retry(self, events: Seq<LinkEvent>, i: int) -> Option<Duration> {
        if events[i] is Disconnected {
            self.retry_delay(Self::has_connected(events.take(i)))
        } else {
            None
        }
    }

    /// Runs the policy over a sequence of events and gives, for each event,
    /// the retry that it schedules.
    pub fn schedule(&self, events: &Vec<LinkEvent>) -> (retries: Vec<Option<Duration>>)
        ensures
            retries@.len() == events@.len(),
            forall|i: int|
                0 <= i < events@.len() ==> #[trigger] retries@[i] == self.scheduled_retry(
                    events@,
                    i,
                ),
    {
        let mut retries: Vec<Option<Duration>> = Vec::new();
        let mut connected: bool = false;
        let mut k: usize = 0;
        while k < events.len()
            invariant
                k <= events@.len(),
                retries@.len() == k,
                connected == Self::has_connected(events@.take(k as int)),
                forall|i: int|
                    0 <= i < k ==> #[trigger] retries@[i] == self.scheduled_retry(events@, i),
            decreases events@.len() - k,
        {
            let ghost seen = events@.take(k as int);
            let ghost next = events@.take(k + 1);
            match events[k] {
                LinkEvent::Connected => {
                    retries.push(None);
                    connected = true;
                    assert(next[k as int] is Connected);
                },
                LinkEvent::Disconnected => {
                    retries.push(self.retry_after(connected));
                    assert(Self::has_connected(next) == Self::has_connected(seen)) by {
                        if Self::has_connected(next) {
                            let j = choose|j: int| 0 <= j < next.len() && next[j] is Connected;
                            assert(seen[j] is Connected);
                        }
                        if Self::has_connected(seen) {
                            let j = choose|j: int| 0 <= j < seen.len() && seen[j] is Connected;
                            assert(next[j] is Connected);
                        }
                    }
                },
            }
            k = k + 1;
        }
        retries
    }

    /// On a disconnect, `Never` schedules no retry; `AfterFirstSuccess`
    /// schedules none before the first successful connect, and one after its
    /// interval once a connect has succeeded; `Always` schedules one after its
    /// interval on every disconnect, also before any success.
    pub proof fn lemma_retry_on_disconnect(self, events: Seq<LinkEvent>, i: int)
        requires
            0 <= i < events.len(),
            events[i] is Disconnected,
        ensures
            self is Never ==> self.scheduled_retry(events, i) is None,
            self matches ReconnectOptions::AfterFirstSuccess(interval) ==> {
                &&& !Self::has_connected(events.take(i)) ==> self.scheduled_retry(events, i) is None
                &&& Self::has_connected(events.take(i)) ==> self.scheduled_retry(events, i) == Some(
                    interval,
                )
            },
            self matches ReconnectOptions::Always(interval) ==> self.scheduled_retry(events, i)
                == Some(interval),
    {
    }

    /// An event that is no disconnect schedules no retry, whatever the policy.
    pub proof fn lemma_no_retry_without_disconnect(self, events: Seq<LinkEvent>, i: int)
        requires
            0 <= i < events.len(),
            !(events[i] is Disconnected),
        ensures
            self.scheduled_retry(events, i) is None,
    {
    }
}

} // verus!
