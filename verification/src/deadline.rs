//! A wait under a read deadline of its own.
//!
//! Waiting for an event with a deadline given for that one wait takes four
//! steps: note the deadline that is in force, install the new one, wait, and
//! put the earlier deadline back. The types here lead a caller through the
//! steps in that order. The result of the wait can only be had from
//! [`Restore::restored`], that is after the earlier deadline was handed out to
//! be put back, whether the wait brought an event or an error.
//!
//! The caller sets the deadlines and waits; `D` is its type of deadline, `T`
//! what a wait brings and `E` its type of error.
use vstd::prelude::*;

verus! {

/// First step: the deadline for the wait is being installed.
#[derive(Debug)]
pub struct DeadlineOverride<D> {
    previous: Option<D>,
}

/// Second step: the deadline for the wait is in force.
#[derive(Debug)]
pub struct TimedWait<D> {
    previous: Option<D>,
}

/// Third step: the wait is over and the earlier deadline is being put back.
#[derive(Debug)]
pub struct Restore<T, E> {
    result: Result<T, E>,
}

impl<D> DeadlineOverride<D> {
    /// The first step of a wait that begins with `previous` in force.
    pub closed spec fn started(previous: Option<D>) -> Self {
        DeadlineOverride { previous }
    }

    /// The second step, once the deadline for the wait is in force.
    pub closed spec fn in_force(self) -> TimedWait<D> {
        TimedWait { previous: self.previous }
    }

    /// Starts a wait under `timeout`, with `previous` in force until now.
    /// The second part of the result is the deadline to set.
    pub fn begin(previous: Option<D>, timeout: D) -> (r: (Self, Option<D>))
        ensures
            r.0 == Self::started(previous),
            r.1 == Some(timeout),
    {
        (DeadlineOverride { previous }, Some(timeout))
    }

    /// Takes note of how setting the deadline for the wait went. When it
    /// failed, nothing was changed and the wait is given up with that error.
    pub fn installed<E>(self, outcome: Result<(), E>) -> (r: Result<TimedWait<D>, E>)
        ensures
            match outcome {
                Ok(()) => r == Ok::<TimedWait<D>, E>(self.in_force()),
                Err(e) => r == Err::<TimedWait<D>, E>(e),
            },
    {
        match outcome {
            Ok(()) => Ok(TimedWait { previous: self.previous }),
            Err(e) => Err(e),
        }
    }
}

impl<D> TimedWait<D> {
    /// The deadline to put back after the wait.
    pub closed spec fn previous(self) -> Option<D> {
        self.previous
    }

    /// Takes the result of the wait, an event or an error alike. The second
    /// part of the result is the deadline to set now.
    pub fn finished<T, E>(self, result: Result<T, E>) -> (r: (Restore<T, E>, Option<D>))
        ensures
            r.0.result() == result,
            r.1 == self.previous(),
    {
        (Restore { result }, self.previous)
    }
}

impl<T, E> Restore<T, E> {
    /// What the wait brought.
    pub closed spec fn result(self) -> Result<T, E> {
        self.result
    }

    /// Takes note of how putting the earlier deadline back went, and gives
    /// the result of the wait. When putting it back failed, that error is
    /// the result.
    pub fn restored(self, outcome: Result<(), E>) -> (r: Result<T, E>)
        ensures
            match outcome {
                Ok(()) => r == self.result(),
                Err(e) => r == Err::<T, E>(e),
            },
    {
        match outcome {
            Ok(()) => self.result,
            Err(e) => Err(e),
        }
    }
}

/// Timeout restore: the deadline that is handed out to be set when a wait is
/// over is the one that was in force when the wait began, whatever it was,
/// whatever deadline the wait was under, and whatever the wait brought.
pub proof fn theorem_previous_deadline_is_put_back<D>(previous: Option<D>)
    ensures
        DeadlineOverride::started(previous).in_force().previous() == previous,
{
}

} // verus!
