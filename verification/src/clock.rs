//! The ledger's clock, and how the simulator moves it.

use crate::outcome::SimulatorError;
use crate::simulator::ProgramSimulator;
use vstd::prelude::*;

verus! {

/// The clock of the simulated ledger: where it stands, and what time it says.
#[derive(Clone, Copy, Debug, PartialEq, Eq, Structural)]
pub struct Clock {
    pub slot: u64,
    pub epoch_start_timestamp: i64,
    pub epoch: u64,
    pub leader_schedule_epoch: u64,
    pub unix_timestamp: i64,
}

impl Clock {
    /// Both timestamps can move by `seconds` without leaving the 64 bits.
    pub open spec fn can_advance_by(self, seconds: i64) -> bool {
        &&& i64::MIN <= self.epoch_start_timestamp + seconds <= i64::MAX
        &&& i64::MIN <= self.unix_timestamp + seconds <= i64::MAX
    }

    /// The clock with both timestamps moved by `seconds`, which may be
    /// negative; slot and epochs stay.
    pub open spec fn advanced_by(self, seconds: i64) -> Clock {
        Clock {
            epoch_start_timestamp: (self.epoch_start_timestamp + seconds) as i64,
            unix_timestamp: (self.unix_timestamp + seconds) as i64,
            ..self
        }
    }

    /// The clock with both timestamps set to `timestamp`; slot and epochs stay.
    pub open spec fn advanced_to(self, timestamp: i64) -> Clock {
        Clock { epoch_start_timestamp: timestamp, unix_timestamp: timestamp, ..self }
    }
}

impl Clock {
    /// The clock moved by `seconds`, forwards or backwards.
    pub fn advance_by(self, seconds: i64) -> (next: Clock)
        requires
            self.can_advance_by(seconds),
        ensures
            next == self.advanced_by(seconds),
            next.epoch_start_timestamp == self.epoch_start_timestamp + seconds,
            next.unix_timestamp == self.unix_timestamp + seconds,
    {
        let mut next = self;
        next.epoch_start_timestamp = self.epoch_start_timestamp + seconds;
        next.unix_timestamp = self.unix_timestamp + seconds;
        next
    }

    /// As `advance_by`, for any amount: `None` where a timestamp would leave
    /// the 64 bits.
    pub fn checked_advance_by(self, seconds: i64) -> (next: Option<Clock>)
        ensures
            next == if self.can_advance_by(seconds) {
                Some(self.advanced_by(seconds))
            } else {
                None
            },
    {
        let fits = self.epoch_start_timestamp.checked_add(seconds).is_some()
            && self.unix_timestamp.checked_add(seconds).is_some();
        if fits {
            Some(self.advance_by(seconds))
        } else {
            None
        }
    }

    /// The clock set to `timestamp`, whatever it said before.
    pub fn advance_to(self, timestamp: i64) -> (next: Clock)
        ensures
            next == self.advanced_to(timestamp),
            next.epoch_start_timestamp == timestamp,
            next.unix_timestamp == timestamp,
    {
        let mut next = self;
        next.epoch_start_timestamp = timestamp;
        next.unix_timestamp = timestamp;
        next
    }
}

impl ProgramSimulator {
    /// The clock to set when the ledger's clock, which it gave as `fetched`,
    /// is to move by `seconds_to_advance`, forwards or backwards; the
    /// session's failure where the ledger gave none.
    pub fn advance_clock_by<E>(fetched: Result<Clock, E>, seconds_to_advance: i64) -> (next: Result<
        Clock,
        SimulatorError<E>,
    >)
        requires
            fetched matches Ok(clock) ==> clock.can_advance_by(seconds_to_advance),
        ensures
            next == match fetched {
                Ok(clock) => Ok::<Clock, SimulatorError<E>>(clock.advanced_by(seconds_to_advance)),
                Err(error) => Err::<Clock, SimulatorError<E>>(SimulatorError::ClientError(error)),
            },
            fetched matches Ok(clock) ==> (next matches Ok(set) && set.epoch_start_timestamp
                == clock.epoch_start_timestamp + seconds_to_advance && set.unix_timestamp
                == clock.unix_timestamp + seconds_to_advance),
    {
        match fetched {
            Ok(clock) => Ok(clock.advance_by(seconds_to_advance)),
            Err(error) => Err(SimulatorError::ClientError(error)),
        }
    }

    /// The clock to set when the ledger's clock, which it gave as `fetched`,
    /// is to say `seconds_to_advance`, an absolute time, whatever it said
    /// before; the session's failure where the ledger gave none.
    pub fn advance_clock_to<E>(fetched: Result<Clock, E>, seconds_to_advance: i64) -> (next: Result<
        Clock,
        SimulatorError<E>,
    >)
        ensures
            next == match fetched {
                Ok(clock) => Ok::<Clock, SimulatorError<E>>(clock.advanced_to(seconds_to_advance)),
                Err(error) => Err::<Clock, SimulatorError<E>>(SimulatorError::ClientError(error)),
            },
            fetched is Ok ==> (next matches Ok(set) && set.epoch_start_timestamp
                == seconds_to_advance && set.unix_timestamp == seconds_to_advance),
    {
        match fetched {
            Ok(clock) => Ok(clock.advance_to(seconds_to_advance)),
            Err(error) => Err(SimulatorError::ClientError(error)),
        }
    }
}

/// Moving the clock by `seconds` adds exactly `seconds` to both timestamps and
/// leaves slot and epochs alone.
pub proof fn lemma_advance_by_is_exact(clock: Clock, seconds: i64)
    requires
        clock.can_advance_by(seconds),
    ensures
        clock.advanced_by(seconds).epoch_start_timestamp == clock.epoch_start_timestamp + seconds,
        clock.advanced_by(seconds).unix_timestamp == clock.unix_timestamp + seconds,
        clock.advanced_by(seconds).slot == clock.slot,
        clock.advanced_by(seconds).epoch == clock.epoch,
        clock.advanced_by(seconds).leader_schedule_epoch == clock.leader_schedule_epoch,
{
}

/// Setting the clock overwrites: both timestamps are the one given, whatever
/// they were, also after the clock was moved.
pub proof fn lemma_advance_to_overwrites(clock: Clock, seconds: i64, timestamp: i64)
    ensures
        clock.advanced_to(timestamp).epoch_start_timestamp == timestamp,
        clock.advanced_to(timestamp).unix_timestamp == timestamp,
        clock.advanced_by(seconds).advanced_to(timestamp) == clock.advanced_to(timestamp),
{
}

} // verus!
