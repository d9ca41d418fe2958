//! Key pairs and transactions. Both stay what the Solana SDK makes of them:
//! compiling a message and signing it is its work, reached through the
//! functions below, whose contracts are taken on trust.

use crate::instruction::{Instruction, InstructionView, instruction_views};
use crate::keys::{Blockhash, Pubkey, Signature};
use crate::message::{fits_a_message, mentions, readonly_unsigned_keys, signer_keys};
use solana_sdk::signature::Keypair;
use solana_sdk::transaction::Transaction;
use vstd::prelude::*;

verus! {

/// The SDK's key pair: a secret key with its address. Nothing of it is read
/// here; it is handed to the SDK to sign.
#[verifier::external_type_specification]
#[verifier::external_body]
pub struct ExKeypair(solana_sdk::signature::Keypair);

/// The SDK's transaction: a compiled message with its signature slots. It
/// is made and signed by the SDK and handed on as it is.
#[verifier::external_type_specification]
#[verifier::external_body]
pub struct ExTransaction(solana_sdk::transaction::Transaction);

/// The address that a key pair signs for: what `Signer::pubkey` returns.
pub uninterp spec fn keypair_pubkey(keypair: Keypair) -> Pubkey;

/// The unsigned transaction that `Transaction::new_with_payer` compiles from
/// these instructions and this fee payer.
pub uninterp spec fn compiled_transaction(
    instructions: Seq<InstructionView>,
    payer: Pubkey,
) -> Transaction;

/// The transaction as `Transaction::partial_sign` leaves it when these key
/// pairs sign it over this block hash.
pub uninterp spec fn partially_signed(
    transaction: Transaction,
    signers: Seq<Keypair>,
    blockhash: Blockhash,
) -> Transaction;

/// The addresses that may sign a transaction, in the order of their signature
/// slots: the first `num_required_signatures` account keys of its message, or
/// all its account keys where it has fewer.
pub uninterp spec fn signing_keys(transaction: Transaction) -> Seq<Pubkey>;

/// The transaction can take signatures: its message has at least
/// `num_required_signatures` account keys, `signatures` has exactly that many
/// entries, and the message can be serialized, which it can where it has no
/// more than 65535 account keys and instructions, and no instruction of it
/// more than 65535 accounts or bytes of input.
pub uninterp spec fn takes_signatures(transaction: Transaction) -> bool;

/// The `signatures` of a transaction, slot by slot.
pub uninterp spec fn transaction_signatures(transaction: Transaction) -> Seq<Signature>;

/// The key pairs behind a list of references.
pub open spec fn keypairs(signers: Seq<&Keypair>) -> Seq<Keypair> {
    Seq::new(signers.len(), |i: int| *signers[i])
}

/// The addresses that a list of key pairs signs for.
pub open spec fn addresses(signers: Seq<&Keypair>) -> Seq<Pubkey> {
    Seq::new(signers.len(), |i: int| keypair_pubkey(*signers[i]))
}

/// Calls `Signer::pubkey` on the key pair. Trusted: the address depends on the
/// key pair alone.
#[verifier::external_body]
pub(crate) fn pubkey(keypair: &Keypair) -> (address: Pubkey)
    ensures
        address == keypair_pubkey(*keypair),
{
    Pubkey { bytes: solana_sdk::signer::Signer::pubkey(keypair).to_bytes() }
}

/// Calls `Keypair::new`, which draws a key pair from the operating system's
/// random source. Nothing is known of the outcome.
#[verifier::external_body]
pub(crate) fn new_keypair() -> (keypair: Keypair) {
    Keypair::new()
}

/// Calls `Transaction::new_with_payer` on the instructions, converted one for
/// one. It fails on more than 255 signers or more than 255 addresses that are
/// only read, which `requires` leaves out. Trusted: the account keys that sign
/// are the fee payer and every address that some instruction marks as a
/// signer, each once; there is one signature slot for each; and the message
/// holds the instructions one for one and every address named once, so that
/// it can be serialized exactly where `fits_a_message` holds.
#[verifier::external_body]
pub(crate) fn new_with_payer(instructions: &Vec<Instruction>, payer: &Pubkey) -> (transaction:
    Transaction)
    requires
        signer_keys(mentions(instruction_views(instructions@), *payer)).len() <= 255,
        readonly_unsigned_keys(mentions(instruction_views(instructions@), *payer)).len() <= 255,
    ensures
        transaction == compiled_transaction(instruction_views(instructions@), *payer),
        signing_keys(transaction).to_set() == signer_keys(
            mentions(instruction_views(instructions@), *payer),
        ),
        signing_keys(transaction).len() == signer_keys(
            mentions(instruction_views(instructions@), *payer),
        ).len(),
        transaction_signatures(transaction).len() == signing_keys(transaction).len(),
        takes_signatures(transaction) == fits_a_message(instruction_views(instructions@), *payer),
{
    let converted: Vec<_> = instructions.iter().map(|instruction| solana_sdk::instruction::Instruction {
        program_id: solana_sdk::pubkey::Pubkey::new_from_array(instruction.program_id.bytes),
        accounts: instruction.accounts.iter().map(|meta| solana_sdk::instruction::AccountMeta {
            pubkey: solana_sdk::pubkey::Pubkey::new_from_array(meta.pubkey.bytes),
            is_signer: meta.is_signer,
            is_writable: meta.is_writable,
        }).collect(),
        data: instruction.data.clone(),
    }).collect();
    let payer = solana_sdk::pubkey::Pubkey::new_from_array(payer.bytes);
    Transaction::new_with_payer(&converted, Some(&payer))
}

/// Calls `Transaction::partial_sign`. It fails where a key pair's address is
/// not among the account keys that sign, or the transaction cannot take
/// signatures, which `requires` leaves out. Trusted: the outcome depends on
/// the transaction, the key pairs and the block hash alone, and signing
/// changes neither the account keys, nor the number of signature slots, nor
/// the lengths in the message.
#[verifier::external_body]
pub(crate) fn partial_sign(
    transaction: &mut Transaction,
    signers: &[&Keypair],
    blockhash: &Blockhash,
)
    requires
        takes_signatures(*old(transaction)),
        forall|i: int|
            0 <= i < signers@.len() ==> signing_keys(*old(transaction)).contains(
                #[trigger] keypair_pubkey(*signers@[i]),
            ),
    ensures
        *final(transaction) == partially_signed(*old(transaction), keypairs(signers@), *blockhash),
        signing_keys(*final(transaction)) == signing_keys(*old(transaction)),
        takes_signatures(*final(transaction)),
        transaction_signatures(*final(transaction)).len() == transaction_signatures(
            *old(transaction),
        ).len(),
{
    transaction.partial_sign(signers, solana_sdk::hash::Hash::new_from_array(blockhash.bytes));
}

/// Reads the first entry of the transaction's `signatures`.
#[verifier::external_body]
pub(crate) fn first_signature(transaction: &Transaction) -> (signature: Signature)
    requires
        transaction_signatures(*transaction).len() > 0,
    ensures
        signature == transaction_signatures(*transaction)[0],
{
    Signature { bytes: transaction.signatures[0].into() }
}

} // verus!
