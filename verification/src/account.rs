//! Accounts as the ledger returns them, and what a typed read takes from one.

use crate::keys::Pubkey;
use crate::outcome::SimulatorError;
use crate::simulator::ProgramSimulator;
use vstd::prelude::*;

verus! {

/// The bytes that an Anchor account carries in front of its data.
pub const ANCHOR_DISCRIMINATOR_LEN: usize = 8;

/// What the ledger holds under an address at one moment.
#[derive(Debug, PartialEq, Eq)]
pub struct Account {
    pub lamports: u64,
    pub data: Vec<u8>,
    pub owner: Pubkey,
    pub executable: bool,
    pub rent_epoch: u64,
}

/// How the data of an account is laid out.
#[derive(Clone, Copy, Debug, PartialEq, Eq, Structural)]
pub enum AccountEncoding {
    /// Eight bytes that name the type, then the value in Borsh.
    Anchor,
    /// The value in Borsh, from the first byte.
    Borsh,
    /// The value in its fixed packed layout.
    Packed,
}

impl AccountEncoding {
    /// The bytes of an account that hold the value, where it has them: all of
    /// them, but for an Anchor account what follows its discriminator.
    pub open spec fn payload_of(self, data: Seq<u8>) -> Option<Seq<u8>> {
        match self {
            AccountEncoding::Anchor => if data.len() >= ANCHOR_DISCRIMINATOR_LEN {
                Some(data.skip(ANCHOR_DISCRIMINATOR_LEN as int))
            } else {
                None
            },
            AccountEncoding::Borsh => Some(data),
            AccountEncoding::Packed => Some(data),
        }
    }

    /// Takes the bytes that hold the value out of an account's data.
    pub fn payload(self, data: Vec<u8>) -> (cut: Option<Vec<u8>>)
        ensures
            match cut {
                Some(bytes) => self.payload_of(data@) == Some(bytes@),
                None => self.payload_of(data@) is None,
            },
    {
        match self {
            AccountEncoding::Anchor => {
                if data.len() >= ANCHOR_DISCRIMINATOR_LEN {
                    let mut head = data;
                    let bytes = head.split_off(ANCHOR_DISCRIMINATOR_LEN);
                    assert(bytes@ =~= data@.skip(ANCHOR_DISCRIMINATOR_LEN as int));
                    Some(bytes)
                } else {
                    None
                }
            },
            AccountEncoding::Borsh => Some(data),
            AccountEncoding::Packed => Some(data),
        }
    }
}

/// What a lookup of an account comes to: the account that the ledger
/// returned, `AccountNotFound` where it returned none, and the session's
/// failure where it did not answer.
pub open spec fn looked_up<E>(fetched: Result<Option<Account>, E>) -> Result<
    Account,
    SimulatorError<E>,
> {
    match fetched {
        Ok(Some(account)) => Ok(account),
        Ok(None) => Err(SimulatorError::AccountNotFound),
        Err(error) => Err(SimulatorError::ClientError(error)),
    }
}

/// What a typed read takes from a lookup: the payload of the account found,
/// under the encoding asked for; `DeserializationError` where the account is
/// too short to have one.
pub open spec fn typed_payload<E>(
    fetched: Result<Option<Account>, E>,
    encoding: AccountEncoding,
) -> Result<Seq<u8>, SimulatorError<E>> {
    match looked_up(fetched) {
        Ok(account) => match encoding.payload_of(account.data@) {
            Some(bytes) => Ok(bytes),
            None => Err(SimulatorError::DeserializationError),
        },
        Err(error) => Err(error),
    }
}

impl ProgramSimulator {
    /// What a lookup of an account comes to: the account that the ledger
    /// returned, or `AccountNotFound` where it returned none.
    pub fn get_account<E>(fetched: Result<Option<Account>, E>) -> (found: Result<
        Account,
        SimulatorError<E>,
    >)
        ensures
            found == looked_up(fetched),
    {
        match fetched {
            Ok(Some(account)) => Ok(account),
            Ok(None) => Err(SimulatorError::AccountNotFound),
            Err(error) => Err(SimulatorError::ClientError(error)),
        }
    }

    /// The bytes that hold the value of the account that a lookup returned,
    /// for a read under `encoding`.
    pub fn get_typed_account_data<E>(
        fetched: Result<Option<Account>, E>,
        encoding: AccountEncoding,
    ) -> (cut: Result<Vec<u8>, SimulatorError<E>>)
        ensures
            match cut {
                Ok(bytes) => typed_payload(fetched, encoding) == Ok::<Seq<u8>, SimulatorError<E>>(
                    bytes@,
                ),
                Err(error) => typed_payload(fetched, encoding) == Err::<
                    Seq<u8>,
                    SimulatorError<E>,
                >(error),
            },
    {
        match Self::get_account(fetched) {
            Ok(account) => match encoding.payload(account.data) {
                Some(bytes) => Ok(bytes),
                None => Err(SimulatorError::DeserializationError),
            },
            Err(error) => Err(error),
        }
    }

    /// The bytes of an Anchor account that hold its value: what follows the
    /// discriminator.
    pub fn get_anchor_account_data<E>(fetched: Result<Option<Account>, E>) -> (cut: Result<
        Vec<u8>,
        SimulatorError<E>,
    >)
        ensures
            match cut {
                Ok(bytes) => typed_payload(fetched, AccountEncoding::Anchor) == Ok::<
                    Seq<u8>,
                    SimulatorError<E>,
                >(bytes@),
                Err(error) => typed_payload(fetched, AccountEncoding::Anchor) == Err::<
                    Seq<u8>,
                    SimulatorError<E>,
                >(error),
            },
    {
        Self::get_typed_account_data(fetched, AccountEncoding::Anchor)
    }

    /// The bytes of a Borsh account that hold its value: all of them.
    pub fn get_borsh_account_data<E>(fetched: Result<Option<Account>, E>) -> (cut: Result<
        Vec<u8>,
        SimulatorError<E>,
    >)
        ensures
            match cut {
                Ok(bytes) => typed_payload(fetched, AccountEncoding::Borsh) == Ok::<
                    Seq<u8>,
                    SimulatorError<E>,
                >(bytes@),
                Err(error) => typed_payload(fetched, AccountEncoding::Borsh) == Err::<
                    Seq<u8>,
                    SimulatorError<E>,
                >(error),
            },
    {
        Self::get_typed_account_data(fetched, AccountEncoding::Borsh)
    }

    /// The bytes of a packed account that hold its value: all of them.
    pub fn get_packed_account_data<E>(fetched: Result<Option<Account>, E>) -> (cut: Result<
        Vec<u8>,
        SimulatorError<E>,
    >)
        ensures
            match cut {
                Ok(bytes) => typed_payload(fetched, AccountEncoding::Packed) == Ok::<
                    Seq<u8>,
                    SimulatorError<E>,
                >(bytes@),
                Err(error) => typed_payload(fetched, AccountEncoding::Packed) == Err::<
                    Seq<u8>,
                    SimulatorError<E>,
                >(error),
            },
    {
        Self::get_typed_account_data(fetched, AccountEncoding::Packed)
    }
}

} // verus!
