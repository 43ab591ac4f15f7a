//! The bookkeeping of a TCP relay: two directions that copy bytes
//! independently of each other, each until its source ends or fails.

use vstd::prelude::*;
use crate::error::SocksError;

verus! {

/// One of the two directions of a relay.
#[derive(Clone, Copy, Debug, PartialEq, Eq, Structural)]
pub enum Direction {
    /// From the client to the remote end.
    Upstream,
    /// From the remote end to the client.
    Downstream,
}

/// How a direction came to its end.
#[derive(Clone, Copy, Debug, PartialEq, Eq, Structural)]
pub enum Ending {
    /// The source reached end-of-stream.
    EndOfStream,
    /// Reading or writing failed.
    Failure,
}

/// What to do when a direction reports its end.
#[derive(Clone, Copy, Debug, PartialEq, Eq, Structural)]
pub enum RelayStep {
    /// Shut down the write half of the direction, so that the peer sees
    /// end-of-stream; the other direction goes on.
    Shutdown,
    /// Shut down the write half of the direction; both directions have
    /// ended, and this is the relay's result.
    Complete(Option<SocksError>),
    /// The direction had ended before: nothing to do.
    Ignored,
}

/// The state of a TCP relay.
#[derive(Clone, Copy, Debug, PartialEq, Eq, Structural)]
pub struct Relay {
    /// How the upstream direction ended, once it has.
    pub upstream: Option<Ending>,
    /// How the downstream direction ended, once it has.
    pub downstream: Option<Ending>,
    /// The direction that failed first, if any has failed.
    pub first_failure: Option<Direction>,
}

impl Relay {
    /// How a direction ended, once it has.
    pub open spec fn ending(self, direction: Direction) -> Option<Ending> {
        match direction {
            Direction::Upstream => self.upstream,
            Direction::Downstream => self.downstream,
        }
    }

    /// Whether both directions have ended.
    pub open spec fn complete(self) -> bool {
        self.upstream is Some && self.downstream is Some
    }

    /// The result of the relay: a relay failure if a direction failed.
    pub open spec fn result(self) -> Option<SocksError> {
        if self.first_failure is Some {
            Some(SocksError::RelayIOError)
        } else {
            None
        }
    }

    /// What holds of every relay that reports can lead to: a first failure
    /// is on record exactly when a direction has failed, and it names a
    /// direction that did.
    pub open spec fn well_formed(self) -> bool {
        &&& self.first_failure is Some <==> self.upstream == Some(Ending::Failure)
            || self.downstream == Some(Ending::Failure)
        &&& self.first_failure matches Some(direction) ==> self.ending(direction) == Some(
            Ending::Failure,
        )
    }

    /// The state after a direction reports its end, and what to do then.
    pub open spec fn after(self, direction: Direction, ending: Ending) -> (Relay, RelayStep) {
        if self.ending(direction) is Some {
            (self, RelayStep::Ignored)
        } else {
            let failed = if self.first_failure is None && ending == Ending::Failure {
                Some(direction)
            } else {
                self.first_failure
            };
            let next = match direction {
                Direction::Upstream => Relay {
                    upstream: Some(ending),
                    first_failure: failed,
                    ..self
                },
                Direction::Downstream => Relay {
                    downstream: Some(ending),
                    first_failure: failed,
                    ..self
                },
            };
            if next.complete() {
                (next, RelayStep::Complete(next.result()))
            } else {
                (next, RelayStep::Shutdown)
            }
        }
    }

    /// A relay with both directions running.
    pub fn new() -> (relay: Relay)
        ensures
            relay == (Relay { upstream: None, downstream: None, first_failure: None }),
            relay.well_formed(),
    {
        Relay { upstream: None, downstream: None, first_failure: None }
    }

    /// Records that a direction has ended and says what to do about it.
    pub fn finish(&mut self, direction: Direction, ending: Ending) -> (step: RelayStep)
        ensures
            (*final(self), step) == old(self).after(direction, ending),
    {
        let already = match direction {
            Direction::Upstream => self.upstream.is_some(),
            Direction::Downstream => self.downstream.is_some(),
        };
        if already {
            return RelayStep::Ignored;
        }
        if self.first_failure.is_none() && ending == Ending::Failure {
            self.first_failure = Some(direction);
        }
        match direction {
            Direction::Upstream => {
                self.upstream = Some(ending);
            },
            Direction::Downstream => {
                self.downstream = Some(ending);
            },
        }
        if self.upstream.is_some() && self.downstream.is_some() {
            RelayStep::Complete(self.outcome())
        } else {
            RelayStep::Shutdown
        }
    }

    /// Whether both directions have ended.
    pub fn is_complete(&self) -> (done: bool)
        ensures
            done == self.complete(),
    {
        self.upstream.is_some() && self.downstream.is_some()
    }

    /// The result of the relay as far as it has come.
    pub fn outcome(&self) -> (result: Option<SocksError>)
        ensures
            result == self.result(),
    {
        if self.first_failure.is_some() {
            Some(SocksError::RelayIOError)
        } else {
            None
        }
    }
}

/// The two directions do not disturb each other: the end of one leaves the
/// other as it was, whether that one is still running or not.
pub proof fn directions_are_independent(relay: Relay, direction: Direction, ending: Ending)
    ensures
        ({
            let next = relay.after(direction, ending).0;
            &&& direction == Direction::Upstream ==> next.downstream == relay.downstream
            &&& direction == Direction::Downstream ==> next.upstream == relay.upstream
        }),
{
}

/// The relay is complete exactly when both directions have ended, a
/// direction that has ended stays so, and the first failure on record is
/// never replaced.
pub proof fn relay_waits_for_both(relay: Relay, direction: Direction, ending: Ending)
    requires
        relay.well_formed(),
    ensures
        ({
            let (next, step) = relay.after(direction, ending);
            &&& next.well_formed()
            &&& step is Complete <==> !relay.complete() && next.complete()
            &&& step matches RelayStep::Complete(result) ==> result == next.result()
            &&& relay.upstream is Some ==> next.upstream == relay.upstream
            &&& relay.downstream is Some ==> next.downstream == relay.downstream
            &&& relay.first_failure is Some ==> next.first_failure == relay.first_failure
            &&& next.result() is None <==> next.upstream != Some(Ending::Failure)
                && next.downstream != Some(Ending::Failure)
        }),
{
}

} // verus!
