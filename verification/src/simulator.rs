//! The simulator's own part of a session with the simulated ledger: the fee
//! payer, the block hash last seen, and how transactions are put together.

use crate::instruction::{
    AccountMeta, COMPUTE_BUDGET_PROGRAM_ID, Instruction, InstructionView, SYSTEM_PROGRAM_ID,
    compute_unit_limit_instruction, instruction_views, set_compute_unit_limit, transfer,
    transfer_instruction,
};
use crate::keys::{Blockhash, Pubkey, Signature};
use crate::message::{
    MAX_SHORT_LEN, check_lengths, collect_mentions, fits_a_message, is_signer_key, mentions,
    mentions_of, named_key_list, named_keys, readonly_unsigned_among, readonly_unsigned_key_list,
    readonly_unsigned_keys, signer_key_list, signer_keys, signs,
};
use crate::outcome::SimulatorError;
use crate::roles::lemma_roles_of_a_transaction;
use crate::signing::{
    addresses, compiled_transaction, first_signature, keypair_pubkey, keypairs, new_keypair,
    new_with_payer, partial_sign, partially_signed, pubkey, signing_keys, transaction_signatures,
};
use solana_sdk::signature::Keypair;
use solana_sdk::transaction::Transaction;
use vstd::prelude::*;

verus! {

/// The compute units that every transaction of the simulator may spend.
pub const DEFAULT_COMPUTE_UNIT_LIMIT: u32 = 2_000_000;

/// The lamports that a freshly made key pair is funded with: one SOL.
pub const LAMPORTS_PER_SOL: u64 = 1_000_000_000;

/// The most signers, and the most addresses that are only read, that one
/// transaction can name.
pub const MAX_KEYS_OF_A_KIND: usize = 255;

/// What the simulator keeps of a session: who pays by default, and the block
/// hash that its last transaction was signed over.
pub struct ProgramSimulator {
    pub payer: Keypair,
    pub last_blockhash: Blockhash,
}

/// The instructions of a transaction: the compute-unit limit, then the
/// caller's instructions in their order.
pub open spec fn with_compute_limit(instructions: Seq<InstructionView>) -> Seq<InstructionView> {
    seq![compute_unit_limit_instruction(DEFAULT_COMPUTE_UNIT_LIMIT)] + instructions
}

/// A transaction with these instructions and this fee payer can be compiled:
/// it has no more than 255 signers, and no more than 255 addresses that it
/// only reads.
pub open spec fn compilable(instructions: Seq<InstructionView>, payer: Pubkey) -> bool {
    let all = mentions(with_compute_limit(instructions), payer);
    &&& signer_keys(all).len() <= MAX_KEYS_OF_A_KIND
    &&& readonly_unsigned_keys(all).len() <= MAX_KEYS_OF_A_KIND
}

/// A transaction with these instructions and this fee payer can be compiled
/// and signed by `signers`: its message can be written down, and each of
/// `signers` has a signature slot in it.
pub open spec fn signable(
    instructions: Seq<InstructionView>,
    payer: Pubkey,
    signers: Seq<Pubkey>,
) -> bool {
    let all = mentions(with_compute_limit(instructions), payer);
    &&& compilable(instructions, payer)
    &&& fits_a_message(with_compute_limit(instructions), payer)
    &&& forall|i: int| 0 <= i < signers.len() ==> signs(all, #[trigger] signers[i])
}

/// The transaction that the simulator hands to the ledger: compiled from the
/// compute-unit limit and the caller's instructions, signed by the fee payer
/// and then by the other signers, all over the same block hash.
pub open spec fn signed_transaction(
    instructions: Seq<InstructionView>,
    payer: Keypair,
    signers: Seq<Keypair>,
    blockhash: Blockhash,
) -> Transaction {
    partially_signed(
        partially_signed(
            compiled_transaction(with_compute_limit(instructions), keypair_pubkey(payer)),
            seq![payer],
            blockhash,
        ),
        signers,
        blockhash,
    )
}

/// Puts the compute-unit limit in front of the caller's instructions.
pub fn instructions_with_compute_limit(instructions: &[Instruction]) -> (all: Vec<Instruction>)
    ensures
        instruction_views(all@) == with_compute_limit(instruction_views(instructions@)),
{
    let mut all: Vec<Instruction> = Vec::new();
    all.push(set_compute_unit_limit(DEFAULT_COMPUTE_UNIT_LIMIT));
    let mut i: usize = 0;
    while i < instructions.len()
        invariant
            i <= instructions.len(),
            instruction_views(all@) == with_compute_limit(
                instruction_views(instructions@).take(i as int),
            ),
        decreases instructions.len() - i,
    {
        let ghost before = all@;
        let copy = instructions[i].clone();
        all.push(copy);
        proof {
            let longer = instruction_views(instructions@).take(i + 1);
            assert(longer =~= instruction_views(instructions@).take(i as int).push(copy@));
            assert(instruction_views(all@) =~= instruction_views(before).push(copy@));
            assert(instruction_views(all@) =~= with_compute_limit(longer));
        }
        i += 1;
    }
    assert(instruction_views(instructions@).take(i as int) =~= instruction_views(instructions@));
    all
}

impl ProgramSimulator {
    /// The fee payer of a transaction: the one given, else the session's own.
    pub open spec fn fee_payer(&self, payer: Option<&Keypair>) -> Keypair {
        match payer {
            Some(given) => *given,
            None => self.payer,
        }
    }

    /// A simulator for a session that just began.
    pub fn new(payer: Keypair, last_blockhash: Blockhash) -> (simulator: ProgramSimulator)
        ensures
            simulator.payer == payer,
            simulator.last_blockhash == last_blockhash,
    {
        ProgramSimulator { payer, last_blockhash }
    }

    /// Whether a transaction with these instructions can be compiled at all.
    pub fn can_compile(&self, instructions: &[Instruction], payer: Option<&Keypair>) -> (ok: bool)
        ensures
            ok == compilable(
                instruction_views(instructions@),
                keypair_pubkey(self.fee_payer(payer)),
            ),
    {
        let actual_payer = match payer {
            Some(given) => given,
            None => &self.payer,
        };
        let payer_key = pubkey(actual_payer);
        let all_instructions = instructions_with_compute_limit(instructions);
        let all = collect_mentions(all_instructions.as_slice(), &payer_key);
        signer_key_list(&all).len() <= MAX_KEYS_OF_A_KIND && readonly_unsigned_key_list(&all).len()
            <= MAX_KEYS_OF_A_KIND
    }

    /// Whether `build_and_sign_tx` can take these arguments: the transaction
    /// compiles, its message can be written down, and every signer has a
    /// signature slot in it.
    pub fn can_sign(
        &self,
        instructions: &[Instruction],
        signers: &[&Keypair],
        payer: Option<&Keypair>,
    ) -> (ok: bool)
        ensures
            ok == signable(
                instruction_views(instructions@),
                keypair_pubkey(self.fee_payer(payer)),
                addresses(signers@),
            ),
    {
        let actual_payer = match payer {
            Some(given) => given,
            None => &self.payer,
        };
        let payer_key = pubkey(actual_payer);
        let all_instructions = instructions_with_compute_limit(instructions);
        if !check_lengths(all_instructions.as_slice()) {
            return false;
        }
        let all = collect_mentions(all_instructions.as_slice(), &payer_key);
        let named = named_key_list(&all);
        if named.len() > MAX_SHORT_LEN {
            return false;
        }
        if signer_key_list(&all).len() > MAX_KEYS_OF_A_KIND {
            return false;
        }
        if readonly_unsigned_among(&all, &named).len() > MAX_KEYS_OF_A_KIND {
            return false;
        }
        let mut i: usize = 0;
        while i < signers.len()
            invariant
                i <= signers.len(),
                all@ == mentions(
                    with_compute_limit(instruction_views(instructions@)),
                    keypair_pubkey(self.fee_payer(payer)),
                ),
                compilable(
                    instruction_views(instructions@),
                    keypair_pubkey(self.fee_payer(payer)),
                ),
                fits_a_message(
                    with_compute_limit(instruction_views(instructions@)),
                    keypair_pubkey(self.fee_payer(payer)),
                ),
                forall|j: int| 0 <= j < i ==> signs(all@, #[trigger] addresses(signers@)[j]),
            decreases signers.len() - i,
        {
            let key = pubkey(signers[i]);
            if !is_signer_key(&all, &key) {
                assert(!signs(all@, addresses(signers@)[i as int]));
                return false;
            }
            i += 1;
        }
        true
    }

    /// The block hash that the session keeps after the ledger was asked for
    /// a new one: the new one, or the old one where the ledger gave none.
    pub open spec fn kept_blockhash<E>(&self, refreshed: Result<Blockhash, E>) -> Blockhash {
        match refreshed {
            Ok(blockhash) => blockhash,
            Err(_) => self.last_blockhash,
        }
    }

    /// What building a transaction comes to: the signed transaction over the
    /// block hash that the ledger gave, or the session's failure where it
    /// gave none.
    pub open spec fn built<E>(
        &self,
        instructions: Seq<InstructionView>,
        signers: Seq<Keypair>,
        payer: Option<&Keypair>,
        refreshed: Result<Blockhash, E>,
    ) -> Result<Transaction, SimulatorError<E>> {
        match refreshed {
            Ok(blockhash) => Ok(
                signed_transaction(instructions, self.fee_payer(payer), signers, blockhash),
            ),
            Err(error) => Err(SimulatorError::ClientError(error)),
        }
    }

    /// Builds the transaction for `instructions` and signs it over the block
    /// hash that the ledger gave when asked for a new one, `refreshed`: the
    /// compute-unit limit comes first, the fee payer signs first, then
    /// `signers`. The block hash becomes the session's last. Where the ledger
    /// gave none, its failure is the result and the session stays as it was.
    pub fn build_and_sign_tx<E>(
        &mut self,
        instructions: &[Instruction],
        signers: &[&Keypair],
        payer: Option<&Keypair>,
        refreshed: Result<Blockhash, E>,
    ) -> (transaction: Result<Transaction, SimulatorError<E>>)
        requires
            compilable(instruction_views(instructions@), keypair_pubkey(old(self).fee_payer(payer))),
            refreshed is Ok ==> signable(
                instruction_views(instructions@),
                keypair_pubkey(old(self).fee_payer(payer)),
                addresses(signers@),
            ),
        ensures
            transaction == old(self).built(
                instruction_views(instructions@),
                keypairs(signers@),
                payer,
                refreshed,
            ),
            transaction matches Ok(signed) ==> transaction_signatures(signed).len() > 0,
            final(self).last_blockhash == old(self).kept_blockhash(refreshed),
            final(self).payer == old(self).payer,
    {
        let blockhash = match refreshed {
            Ok(blockhash) => blockhash,
            Err(error) => {
                return Err(SimulatorError::ClientError(error));
            },
        };
        let all_instructions = instructions_with_compute_limit(instructions);
        let actual_payer = match payer {
            Some(given) => given,
            None => &self.payer,
        };
        let payer_key = pubkey(actual_payer);
        let ghost all = mentions(instruction_views(all_instructions@), payer_key);
        let mut transaction = new_with_payer(&all_instructions, &payer_key);
        proof {
            lemma_roles_of_a_transaction(instruction_views(all_instructions@), payer_key, payer_key);
            assert(signing_keys(transaction).to_set().contains(payer_key));
            assert forall|i: int| 0 <= i < signers@.len() implies signing_keys(
                transaction,
            ).contains(#[trigger] keypair_pubkey(*signers@[i])) by {
                assert(signs(all, addresses(signers@)[i]));
                assert(signing_keys(transaction).to_set().contains(keypair_pubkey(*signers@[i])));
            }
        }
        let first: [&Keypair; 1] = [actual_payer];
        assert(keypairs(first@) =~= seq![*actual_payer]);
        partial_sign(&mut transaction, first.as_slice(), &blockhash);
        partial_sign(&mut transaction, signers, &blockhash);
        self.last_blockhash = blockhash;
        Ok(transaction)
    }

    /// Prepares `instructions` for submission: the signed transaction to
    /// send, and its first signature, the fee payer's, by which the ledger
    /// knows the transaction afterwards.
    pub fn process_ixs_with_default_compute_limit<E>(
        &mut self,
        instructions: &[Instruction],
        signers: &[&Keypair],
        payer: Option<&Keypair>,
        refreshed: Result<Blockhash, E>,
    ) -> (submission: Result<(Signature, Transaction), SimulatorError<E>>)
        requires
            compilable(instruction_views(instructions@), keypair_pubkey(old(self).fee_payer(payer))),
            refreshed is Ok ==> signable(
                instruction_views(instructions@),
                keypair_pubkey(old(self).fee_payer(payer)),
                addresses(signers@),
            ),
        ensures
            submitted(
                submission,
                old(self).built(instruction_views(instructions@), keypairs(signers@), payer, refreshed),
            ),
            final(self).last_blockhash == old(self).kept_blockhash(refreshed),
            final(self).payer == old(self).payer,
    {
        match self.build_and_sign_tx(instructions, signers, payer, refreshed) {
            Ok(transaction) => {
                let signature = first_signature(&transaction);
                Ok((signature, transaction))
            },
            Err(error) => Err(error),
        }
    }

    /// Prepares a single instruction for submission.
    pub fn process_ix_with_default_compute_limit<E>(
        &mut self,
        instruction: Instruction,
        signers: &[&Keypair],
        payer: Option<&Keypair>,
        refreshed: Result<Blockhash, E>,
    ) -> (submission: Result<(Signature, Transaction), SimulatorError<E>>)
        requires
            compilable(seq![instruction@], keypair_pubkey(old(self).fee_payer(payer))),
            refreshed is Ok ==> signable(
                seq![instruction@],
                keypair_pubkey(old(self).fee_payer(payer)),
                addresses(signers@),
            ),
        ensures
            submitted(
                submission,
                old(self).built(seq![instruction@], keypairs(signers@), payer, refreshed),
            ),
            final(self).last_blockhash == old(self).kept_blockhash(refreshed),
            final(self).payer == old(self).payer,
    {
        let single: [Instruction; 1] = [instruction];
        assert(instruction_views(single@) =~= seq![instruction@]);
        self.process_ixs_with_default_compute_limit(single.as_slice(), signers, payer, refreshed)
    }

    /// Prepares `instructions` for a simulation: the signed transaction that
    /// the ledger is to run without committing it.
    pub fn simulate_ixs_with_default_compute_limit<E>(
        &mut self,
        instructions: &[Instruction],
        signers: &[&Keypair],
        payer: Option<&Keypair>,
        refreshed: Result<Blockhash, E>,
    ) -> (transaction: Result<Transaction, SimulatorError<E>>)
        requires
            compilable(instruction_views(instructions@), keypair_pubkey(old(self).fee_payer(payer))),
            refreshed is Ok ==> signable(
                instruction_views(instructions@),
                keypair_pubkey(old(self).fee_payer(payer)),
                addresses(signers@),
            ),
        ensures
            transaction == old(self).built(
                instruction_views(instructions@),
                keypairs(signers@),
                payer,
                refreshed,
            ),
            final(self).last_blockhash == old(self).kept_blockhash(refreshed),
            final(self).payer == old(self).payer,
    {
        self.build_and_sign_tx(instructions, signers, payer, refreshed)
    }

    /// Prepares a single instruction for a simulation.
    pub fn simulate_ix_with_default_compute_limit<E>(
        &mut self,
        instruction: Instruction,
        signers: &[&Keypair],
        payer: Option<&Keypair>,
        refreshed: Result<Blockhash, E>,
    ) -> (transaction: Result<Transaction, SimulatorError<E>>)
        requires
            compilable(seq![instruction@], keypair_pubkey(old(self).fee_payer(payer))),
            refreshed is Ok ==> signable(
                seq![instruction@],
                keypair_pubkey(old(self).fee_payer(payer)),
                addresses(signers@),
            ),
        ensures
            transaction == old(self).built(
                seq![instruction@],
                keypairs(signers@),
                payer,
                refreshed,
            ),
            final(self).last_blockhash == old(self).kept_blockhash(refreshed),
            final(self).payer == old(self).payer,
    {
        let single: [Instruction; 1] = [instruction];
        assert(instruction_views(single@) =~= seq![instruction@]);
        self.simulate_ixs_with_default_compute_limit(single.as_slice(), signers, payer, refreshed)
    }

    /// Prepares the transfer of `lamports` from the session's fee payer to
    /// `to`, signed by the fee payer alone.
    pub fn airdrop<E>(&mut self, to: &Pubkey, lamports: u64, refreshed: Result<Blockhash, E>) -> (submission:
        Result<(Signature, Transaction), SimulatorError<E>>)
        ensures
            submitted(
                submission,
                old(self).built(
                    seq![transfer_instruction(keypair_pubkey(old(self).payer), *to, lamports)],
                    Seq::empty(),
                    None,
                    refreshed,
                ),
            ),
            final(self).last_blockhash == old(self).kept_blockhash(refreshed),
            final(self).payer == old(self).payer,
    {
        let from = pubkey(&self.payer);
        let instruction = transfer(&from, to, lamports);
        let no_signers: [&Keypair; 0] = [];
        proof {
            lemma_airdrop_signable(from, *to, lamports);
            assert(addresses(no_signers@) =~= Seq::<Pubkey>::empty());
            assert(keypairs(no_signers@) =~= Seq::<Keypair>::empty());
        }
        self.process_ix_with_default_compute_limit(
            instruction,
            no_signers.as_slice(),
            None,
            refreshed,
        )
    }

    /// Makes a new key pair and prepares its funding with one SOL from the
    /// session's fee payer. Which key pair it is, is left to chance; the
    /// transfer goes to its address.
    pub fn get_funded_keypair<E>(&mut self, refreshed: Result<Blockhash, E>) -> (funded: Result<
        (Keypair, Signature, Transaction),
        SimulatorError<E>,
    >)
        ensures
            match funded {
                Ok((keypair, signature, transaction)) => submitted(
                    Ok::<(Signature, Transaction), SimulatorError<E>>((signature, transaction)),
                    old(self).built(
                        seq![
                            transfer_instruction(
                                keypair_pubkey(old(self).payer),
                                keypair_pubkey(keypair),
                                LAMPORTS_PER_SOL,
                            ),
                        ],
                        Seq::empty(),
                        None,
                        refreshed,
                    ),
                ),
                Err(error) => refreshed matches Err(failure) && error
                    == SimulatorError::ClientError(failure),
            },
            final(self).last_blockhash == old(self).kept_blockhash(refreshed),
            final(self).payer == old(self).payer,
    {
        let keypair = new_keypair();
        let address = pubkey(&keypair);
        match self.airdrop(&address, LAMPORTS_PER_SOL, refreshed) {
            Ok((signature, transaction)) => Ok((keypair, signature, transaction)),
            Err(error) => Err(error),
        }
    }
}

/// A submission is what building came to, together with the first signature
/// of the transaction built.
pub open spec fn submitted<E>(
    submission: Result<(Signature, Transaction), SimulatorError<E>>,
    built: Result<Transaction, SimulatorError<E>>,
) -> bool {
    match submission {
        Ok((signature, transaction)) => {
            &&& built == Ok::<Transaction, SimulatorError<E>>(transaction)
            &&& transaction_signatures(transaction).len() > 0
            &&& signature == transaction_signatures(transaction)[0]
        },
        Err(error) => built == Err::<Transaction, SimulatorError<E>>(error),
    }
}

/// A transfer from the fee payer can always be signed by the fee payer alone:
/// it has one signer, reads at most the two programs without writing, and
/// names four addresses at most.
pub proof fn lemma_airdrop_signable(payer: Pubkey, to: Pubkey, lamports: u64)
    ensures
        signable(seq![transfer_instruction(payer, to, lamports)], payer, Seq::empty()),
{
    let budget = Pubkey { bytes: COMPUTE_BUDGET_PROGRAM_ID };
    let system = Pubkey { bytes: SYSTEM_PROGRAM_ID };
    let instructions = with_compute_limit(seq![transfer_instruction(payer, to, lamports)]);
    let all = mentions(instructions, payer);
    let expected = seq![
        AccountMeta { pubkey: payer, is_signer: true, is_writable: true },
        AccountMeta { pubkey: budget, is_signer: false, is_writable: false },
        AccountMeta { pubkey: system, is_signer: false, is_writable: false },
        AccountMeta { pubkey: payer, is_signer: true, is_writable: true },
        AccountMeta { pubkey: to, is_signer: false, is_writable: true },
    ];
    assert(all =~= expected) by {
        let one = instructions.drop_last();
        let none = one.drop_last();
        assert(instructions.len() == 2 && one.len() == 1 && none.len() == 0);
        assert(mentions(none, payer) =~= expected.take(1));
        assert(mentions(one, payer) =~= expected.take(2)) by {
            assert(mentions_of(one.last()) =~= expected.subrange(1, 2));
        }
        assert(mentions_of(instructions.last()) =~= expected.subrange(2, 5));
    }
    assert(signer_keys(all) =~= set![payer]) by {
        assert(all[0].pubkey == payer && all[0].is_signer);
    }
    assert(readonly_unsigned_keys(all).subset_of(set![budget, system]));
    vstd::set_lib::lemma_len_subset(readonly_unsigned_keys(all), set![budget, system]);
    assert(named_keys(all).subset_of(set![payer, budget, system, to]));
    vstd::set_lib::lemma_len_subset(named_keys(all), set![payer, budget, system, to]);
    assert(instructions[0].accounts.len() == 0 && instructions[0].data.len() == 5);
    assert(instructions[1].accounts.len() == 2 && instructions[1].data.len() == 12);
}

/// Whatever the caller's instructions are, the first instruction of the
/// transaction is the limit of 2,000,000 compute units, and the others are the
/// caller's, in the caller's order.
pub proof fn lemma_compute_limit_leads(instructions: Seq<InstructionView>)
    ensures
        with_compute_limit(instructions).len() == instructions.len() + 1,
        with_compute_limit(instructions)[0] == compute_unit_limit_instruction(2_000_000),
        with_compute_limit(instructions).skip(1) == instructions,
{
    assert(with_compute_limit(instructions).skip(1) =~= instructions);
}

} // verus!
