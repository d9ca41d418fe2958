//! What an operation of the simulator can fail with, and what an answer of
//! the ledger comes to where nothing is left to decide.

use crate::clock::Clock;
use crate::simulator::ProgramSimulator;
use vstd::prelude::*;

verus! {

/// Why an operation of the simulator gave no result.
#[derive(Debug, PartialEq, Eq)]
pub enum SimulatorError<E> {
    /// The session with the ledger failed; what it reported is kept as it is.
    ClientError(E),
    /// The ledger holds nothing under the address.
    AccountNotFound,
    /// The account's bytes do not have the layout asked for.
    DeserializationError,
}

impl<E> SimulatorError<E> {
    /// The words in which the simulator reports an error of its own; none for
    /// an error of the session, which speaks for itself.
    pub fn message(&self) -> (text: Option<&'static str>)
        ensures
            match self {
                SimulatorError::ClientError(_) => text is None,
                SimulatorError::AccountNotFound => text matches Some(words) && words@
                    == "Account not found"@,
                SimulatorError::DeserializationError => text matches Some(words) && words@
                    == "Unpack error"@,
            },
    {
        match self {
            SimulatorError::ClientError(_) => None,
            SimulatorError::AccountNotFound => Some("Account not found"),
            SimulatorError::DeserializationError => Some("Unpack error"),
        }
    }
}

/// What an answer of the ledger comes to when the simulator has nothing to
/// add: the value, or the session's failure as a `ClientError`.
pub open spec fn answered<T, E>(fetched: Result<T, E>) -> Result<T, SimulatorError<E>> {
    match fetched {
        Ok(value) => Ok(value),
        Err(error) => Err(SimulatorError::ClientError(error)),
    }
}

/// Hands an answer of the ledger on: the value, or the session's failure as
/// a `ClientError`.
pub fn answer<T, E>(fetched: Result<T, E>) -> (result: Result<T, SimulatorError<E>>)
    ensures
        result == answered(fetched),
{
    match fetched {
        Ok(value) => Ok(value),
        Err(error) => Err(SimulatorError::ClientError(error)),
    }
}

impl ProgramSimulator {
    /// What a submission comes to once the ledger has answered: `value`, what
    /// the caller awaits, where the transaction was processed, and the
    /// session's failure where it was not.
    pub fn processed<T, E>(value: T, outcome: Result<(), E>) -> (result: Result<
        T,
        SimulatorError<E>,
    >)
        ensures
            result == match outcome {
                Ok(_) => Ok::<T, SimulatorError<E>>(value),
                Err(error) => Err::<T, SimulatorError<E>>(SimulatorError::ClientError(error)),
            },
    {
        match outcome {
            Ok(_) => Ok(value),
            Err(error) => Err(SimulatorError::ClientError(error)),
        }
    }

    /// The lamports under an address, as the ledger gave them: zero where it
    /// holds nothing there.
    pub fn get_balance<E>(fetched: Result<u64, E>) -> (lamports: Result<u64, SimulatorError<E>>)
        ensures
            lamports == answered(fetched),
    {
        answer(fetched)
    }

    /// The ledger's clock, as the ledger gave it.
    pub fn get_clock<E>(fetched: Result<Clock, E>) -> (clock: Result<Clock, SimulatorError<E>>)
        ensures
            clock == answered(fetched),
    {
        answer(fetched)
    }

    /// What became of a transaction, as the ledger gave it: `None` where the
    /// ledger does not know the signature.
    pub fn get_transaction_status<S, E>(fetched: Result<Option<S>, E>) -> (status: Result<
        Option<S>,
        SimulatorError<E>,
    >)
        ensures
            status == answered(fetched),
    {
        answer(fetched)
    }
}

} // verus!
