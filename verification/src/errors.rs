//! From a program's error to the error that the ledger reports for the
//! transaction that ran into it.

use anchor_lang::error::Error;
use solana_sdk::instruction::InstructionError;
use solana_sdk::program_error::ProgramError;
use solana_sdk::transaction::TransactionError;
use vstd::prelude::*;

verus! {

/// Anchor's error: what an Anchor program fails with.
#[verifier::external_type_specification]
#[verifier::external_body]
pub struct ExError(anchor_lang::error::Error);

/// The SDK's program error: what any program fails with.
#[verifier::external_type_specification]
#[verifier::external_body]
pub struct ExProgramError(solana_sdk::program_error::ProgramError);

/// The SDK's instruction error: what the runtime makes of a program's failure.
#[verifier::external_type_specification]
#[verifier::external_body]
pub struct ExInstructionError(solana_sdk::instruction::InstructionError);

/// The SDK's transaction error: what the ledger reports for a transaction.
#[verifier::external_type_specification]
#[verifier::external_body]
pub struct ExTransactionError(solana_sdk::transaction::TransactionError);

/// The program error that an Anchor error stands for: what
/// `ProgramError::from` makes of it.
pub uninterp spec fn program_error_of(error: Error) -> ProgramError;

/// The number under which a program returns an error: what `u64::from` makes
/// of the program error.
pub uninterp spec fn program_error_code(error: ProgramError) -> u64;

/// The instruction error that the runtime reads from a program's return
/// code: what `InstructionError::from` makes of the number.
pub uninterp spec fn instruction_error_of(code: u64) -> InstructionError;

/// The transaction error `InstructionError(index, error)`: the instruction
/// at `index` failed with `error`.
pub uninterp spec fn instruction_error_at(index: u8, error: InstructionError) -> TransactionError;

/// Calls `ProgramError::from` on an Anchor error. Trusted: the outcome
/// depends on the error alone.
#[verifier::external_body]
pub(crate) fn program_error_from(error: Error) -> (program_error: ProgramError)
    ensures
        program_error == program_error_of(error),
{
    ProgramError::from(error)
}

/// Calls `u64::from` on a program error. Trusted: the outcome depends on the
/// error alone.
#[verifier::external_body]
pub(crate) fn code_from(error: ProgramError) -> (code: u64)
    ensures
        code == program_error_code(error),
{
    u64::from(error)
}

/// Calls `InstructionError::from` on a return code. Trusted: the outcome
/// depends on the number alone.
#[verifier::external_body]
pub(crate) fn instruction_error_from(code: u64) -> (error: InstructionError)
    ensures
        error == instruction_error_of(code),
{
    InstructionError::from(code)
}

/// Builds the variant `TransactionError::InstructionError`.
#[verifier::external_body]
pub(crate) fn instruction_error(index: u8, error: InstructionError) -> (failure: TransactionError)
    ensures
        failure == instruction_error_at(index, error),
{
    TransactionError::InstructionError(index, error)
}

/// The transaction error that the ledger reports when the instruction at
/// `instruction_index` fails with `error`.
pub open spec fn transaction_error_of(instruction_index: u8, error: Error) -> TransactionError {
    instruction_error_at(
        instruction_index,
        instruction_error_of(program_error_code(program_error_of(error))),
    )
}

/// The transaction error for a failure of the instruction at index 0 with
/// the program's error `error`.
pub fn into_transaction_error(error: Error) -> (failure: TransactionError)
    ensures
        failure == transaction_error_of(0, error),
{
    into_transaction_error_with_index(0, error)
}

/// The transaction error for a failure of the instruction at
/// `instruction_index` with the program's error `error`.
pub fn into_transaction_error_with_index(instruction_index: u8, error: Error) -> (failure:
    TransactionError)
    ensures
        failure == transaction_error_of(instruction_index, error),
{
    let code = code_from(program_error_from(error));
    instruction_error(instruction_index, instruction_error_from(code))
}

} // verus!
