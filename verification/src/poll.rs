//! Poll accounting shared by tasks and async operations.
use crate::time::Duration;
use crate::time::Timestamp;
use crate::time::elapsed_between;
use vstd::prelude::*;

verus! {

/// Poll counters of one entity. `current_polls` is the depth of entered and
/// not yet exited polls; the other fields follow outermost polls only.
#[derive(Clone, Copy, Debug, PartialEq, Eq, Structural)]
pub struct PollStats {
    pub current_polls: u64,
    pub polls: u64,
    pub first_poll: Option<Timestamp>,
    pub last_poll_started: Option<Timestamp>,
    pub last_poll_ended: Option<Timestamp>,
    pub busy_time: Duration,
}

impl PollStats {
    /// The counters of an entity that has never been polled.
    pub open spec fn fresh() -> PollStats {
        PollStats {
            current_polls: 0,
            polls: 0,
            first_poll: None,
            last_poll_started: None,
            last_poll_ended: None,
            busy_time: Duration { nanos: 0 },
        }
    }

    /// Whether an enter can be counted without a counter leaving `u64`.
    pub open spec fn can_enter(self) -> bool {
        &&& self.current_polls < u64::MAX
        &&& self.current_polls == 0 ==> self.polls < u64::MAX
    }

    /// The counters after a poll was entered at `at`. Entering at depth zero
    /// starts an outermost poll: it is timestamped and counted, and it sets
    /// `first_poll` unless that is already set.
    pub open spec fn entered(self, at: Timestamp) -> PollStats {
        if self.current_polls == 0 {
            PollStats {
                current_polls: 1,
                polls: (self.polls + 1) as u64,
                first_poll: if self.first_poll is None {
                    Some(at)
                } else {
                    self.first_poll
                },
                last_poll_started: Some(at),
                ..self
            }
        } else {
            PollStats { current_polls: (self.current_polls + 1) as u64, ..self }
        }
    }

    /// The length of the outermost poll that an exit at `at` ends, if it ends
    /// one whose start is known.
    pub open spec fn poll_ended(self, at: Timestamp) -> Option<Duration> {
        if self.current_polls == 1 {
            match self.last_poll_started {
                Some(started) => Some(elapsed_between(started, at)),
                None => None,
            }
        } else {
            None
        }
    }

    /// Whether an exit at `at` can be counted without `busy_time` overflowing.
    pub open spec fn can_exit(self, at: Timestamp) -> bool {
        self.poll_ended(at) matches Some(elapsed) ==> self.busy_time.nanos + elapsed.nanos
            <= u128::MAX
    }

    /// The counters after a poll was exited at `at`. An exit at depth zero
    /// changes nothing. An exit that returns to depth zero ends the outermost
    /// poll: where its start is known, its length is added to `busy_time` and
    /// `last_poll_ended` is set.
    pub open spec fn exited(self, at: Timestamp) -> PollStats {
        if self.current_polls == 0 {
            self
        } else {
            match self.poll_ended(at) {
                Some(elapsed) => PollStats {
                    current_polls: 0,
                    last_poll_ended: Some(at),
                    busy_time: Duration { nanos: (self.busy_time.nanos + elapsed.nanos) as u128 },
                    ..self
                },
                None => PollStats { current_polls: (self.current_polls - 1) as u64, ..self },
            }
        }
    }

    /// The counters after a resource operation polled the entity at `at`: the
    /// poll is counted, and a pending one sets `first_poll` if it is unset.
    pub open spec fn polled(self, pending: bool, at: Timestamp) -> PollStats {
        PollStats {
            polls: (self.polls + 1) as u64,
            first_poll: if pending && self.first_poll is None {
                Some(at)
            } else {
                self.first_poll
            },
            ..self
        }
    }

    pub fn enter(&mut self, at: Timestamp)
        requires
            old(self).can_enter(),
        ensures
            *final(self) == old(self).entered(at),
    {
        if self.current_polls == 0 {
            self.last_poll_started = Some(at);
            if self.first_poll.is_none() {
                self.first_poll = Some(at);
            }
            self.polls = self.polls + 1;
        }
        self.current_polls = self.current_polls + 1;
    }

    /// Counts an exit and returns the length of the outermost poll that it
    /// ended, if any.
    pub fn exit(&mut self, at: Timestamp) -> (ended: Option<Duration>)
        requires
            old(self).can_exit(at),
        ensures
            *final(self) == old(self).exited(at),
            ended == old(self).poll_ended(at),
    {
        if self.current_polls == 0 {
            return None;
        }
        self.current_polls = self.current_polls - 1;
        if self.current_polls == 0 {
            if let Some(started) = self.last_poll_started {
                let elapsed = at.saturating_duration_since(started);
                self.last_poll_ended = Some(at);
                self.busy_time = Duration { nanos: self.busy_time.nanos + elapsed.nanos };
                return Some(elapsed);
            }
        }
        None
    }

    /// Counts a poll that a resource operation reported.
    pub fn poll(&mut self, pending: bool, at: Timestamp)
        requires
            old(self).polls < u64::MAX,
        ensures
            *final(self) == old(self).polled(pending, at),
    {
        self.polls = self.polls + 1;
        if pending && self.first_poll.is_none() {
            self.first_poll = Some(at);
        }
    }
}

impl Default for PollStats {
    fn default() -> (stats: PollStats)
        ensures
            stats == PollStats::fresh(),
    {
        PollStats {
            current_polls: 0,
            polls: 0,
            first_poll: None,
            last_poll_started: None,
            last_poll_ended: None,
            busy_time: Duration::zero(),
        }
    }
}

} // verus!
