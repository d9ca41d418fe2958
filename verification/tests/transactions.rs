use solana_program_simulator::instruction::{COMPUTE_BUDGET_PROGRAM_ID, SYSTEM_PROGRAM_ID};
use solana_program_simulator::simulator::{
    instructions_with_compute_limit, DEFAULT_COMPUTE_UNIT_LIMIT, LAMPORTS_PER_SOL,
};
use solana_program_simulator::{
    AccountMeta, Blockhash, Instruction, ProgramSimulator, Pubkey, SimulatorError,
};
use solana_sdk::signature::Keypair;
use solana_sdk::signer::Signer;
use solana_sdk::transaction::Transaction;

fn address(keypair: &Keypair) -> Pubkey {
    Pubkey { bytes: keypair.pubkey().to_bytes() }
}

fn key(byte: u8) -> Pubkey {
    Pubkey { bytes: [byte; 32] }
}

fn meta(pubkey: Pubkey, is_signer: bool, is_writable: bool) -> AccountMeta {
    AccountMeta { pubkey, is_signer, is_writable }
}

fn simulator() -> ProgramSimulator {
    ProgramSimulator::new(Keypair::new(), Blockhash { bytes: [0; 32] })
}

/// The answer of a ledger that gave a new block hash.
fn fresh(byte: u8) -> Result<Blockhash, &'static str> {
    Ok(Blockhash { bytes: [byte; 32] })
}

/// The instruction at `index` of a compiled transaction, with its addresses looked up.
fn decompiled(transaction: &Transaction, index: usize) -> (Pubkey, Vec<Pubkey>, Vec<u8>) {
    let compiled = &transaction.message.instructions[index];
    let keys = &transaction.message.account_keys;
    let program = Pubkey { bytes: keys[compiled.program_id_index as usize].to_bytes() };
    let accounts = compiled
        .accounts
        .iter()
        .map(|at| Pubkey { bytes: keys[*at as usize].to_bytes() })
        .collect();
    (program, accounts, compiled.data.clone())
}

#[test]
fn compute_limit_is_two_million_units() {
    assert_eq!(DEFAULT_COMPUTE_UNIT_LIMIT, 2_000_000);
    let all = instructions_with_compute_limit(&[]);
    assert_eq!(all.len(), 1);
    assert_eq!(all[0].program_id.bytes, COMPUTE_BUDGET_PROGRAM_ID);
    assert_eq!(all[0].program_id.bytes, solana_sdk::compute_budget::id().to_bytes());
    assert!(all[0].accounts.is_empty());
    assert_eq!(all[0].data, vec![2, 0x80, 0x84, 0x1e, 0x00]);
}

#[test]
fn compute_limit_leads_and_the_rest_keeps_its_order() {
    let first = Instruction {
        program_id: key(7),
        accounts: vec![meta(key(1), false, true), meta(key(2), false, false)],
        data: vec![1, 2, 3],
    };
    let second = Instruction { program_id: key(8), accounts: vec![], data: vec![] };
    let third = Instruction {
        program_id: key(7),
        accounts: vec![meta(key(2), false, true)],
        data: vec![9],
    };
    let given = [first, second, third];
    let all = instructions_with_compute_limit(&given);
    assert_eq!(all.len(), 4);
    assert_eq!(all[0].data, vec![2, 0x80, 0x84, 0x1e, 0x00]);
    assert_eq!(&all[1..], &given[..]);
}

#[test]
fn built_transaction_starts_with_the_compute_limit() {
    let mut simulator = simulator();
    let given = [
        Instruction {
            program_id: key(7),
            accounts: vec![meta(key(1), false, true), meta(key(2), false, false)],
            data: vec![1, 2, 3],
        },
        Instruction { program_id: key(8), accounts: vec![meta(key(2), false, true)], data: vec![] },
    ];
    assert!(simulator.can_sign(&given, &[], None));
    let transaction = simulator.build_and_sign_tx(&given, &[], None, fresh(5)).unwrap();

    assert_eq!(transaction.message.instructions.len(), 3);
    let (program, accounts, data) = decompiled(&transaction, 0);
    assert_eq!(program.bytes, COMPUTE_BUDGET_PROGRAM_ID);
    assert!(accounts.is_empty());
    assert_eq!(data, vec![2, 0x80, 0x84, 0x1e, 0x00]);
    for (index, instruction) in given.iter().enumerate() {
        let (program, accounts, data) = decompiled(&transaction, index + 1);
        assert_eq!(program, instruction.program_id);
        let expected: Vec<Pubkey> = instruction.accounts.iter().map(|meta| meta.pubkey).collect();
        assert_eq!(accounts, expected);
        assert_eq!(data, instruction.data);
    }
}

#[test]
fn empty_instruction_list_still_gets_the_compute_limit() {
    let mut simulator = simulator();
    assert!(simulator.can_sign(&[], &[], None));
    let transaction = simulator.build_and_sign_tx(&[], &[], None, fresh(1)).unwrap();
    assert_eq!(transaction.message.instructions.len(), 1);
    assert_eq!(transaction.message.instructions[0].data, vec![2, 0x80, 0x84, 0x1e, 0x00]);
    assert!(transaction.is_signed());
}

#[test]
fn default_payer_pays_and_signs_first() {
    let mut simulator = simulator();
    let payer = simulator.payer.pubkey();
    let other = Keypair::new();
    let given = [Instruction {
        program_id: key(7),
        accounts: vec![meta(address(&other), true, false)],
        data: vec![],
    }];
    assert!(simulator.can_sign(&given, &[&other], None));
    let transaction =
        simulator.build_and_sign_tx(&given, &[&other], None, fresh(5)).unwrap();

    assert_eq!(transaction.message.account_keys[0], payer);
    assert_eq!(transaction.message.header.num_required_signatures, 2);
    assert_eq!(transaction.signatures.len(), 2);
    let message = transaction.message_data();
    assert!(transaction.signatures[0].verify(payer.as_ref(), &message));
    assert!(transaction.signatures[1].verify(other.pubkey().as_ref(), &message));
    assert!(transaction.verify().is_ok());
}

#[test]
fn given_payer_replaces_the_default() {
    let mut simulator = simulator();
    let default_payer = simulator.payer.pubkey();
    let payer = Keypair::new();
    assert!(simulator.can_sign(&[], &[], Some(&payer)));
    let transaction =
        simulator.build_and_sign_tx(&[], &[], Some(&payer), fresh(5)).unwrap();
    assert_eq!(transaction.message.account_keys[0], payer.pubkey());
    assert!(!transaction.message.account_keys.contains(&default_payer));
    assert!(transaction.verify().is_ok());
    assert_eq!(simulator.payer.pubkey(), default_payer);
}

#[test]
fn transaction_is_signed_over_the_block_hash_which_is_kept() {
    let mut simulator = simulator();
    assert_eq!(simulator.last_blockhash, Blockhash { bytes: [0; 32] });
    let transaction = simulator.build_and_sign_tx(&[], &[], None, fresh(42)).unwrap();
    assert_eq!(transaction.message.recent_blockhash.to_bytes(), [42; 32]);
    assert_eq!(simulator.last_blockhash, Blockhash { bytes: [42; 32] });
    let transaction =
        simulator.simulate_ixs_with_default_compute_limit(&[], &[], None, fresh(43)).unwrap();
    assert_eq!(transaction.message.recent_blockhash.to_bytes(), [43; 32]);
    assert_eq!(simulator.last_blockhash, Blockhash { bytes: [43; 32] });
}

#[test]
fn missing_signer_leaves_its_slot_empty() {
    let mut simulator = simulator();
    let other = Keypair::new();
    let given = [Instruction {
        program_id: key(7),
        accounts: vec![meta(address(&other), true, true)],
        data: vec![],
    }];
    assert!(simulator.can_sign(&given, &[], None));
    let transaction = simulator.build_and_sign_tx(&given, &[], None, fresh(5)).unwrap();
    assert_eq!(transaction.signatures.len(), 2);
    assert!(!transaction.is_signed());
    assert_ne!(transaction.signatures[0], solana_sdk::signature::Signature::default());
    assert_eq!(transaction.signatures[1], solana_sdk::signature::Signature::default());
}

#[test]
fn signer_that_no_instruction_names_cannot_sign() {
    let simulator = simulator();
    let stranger = Keypair::new();
    let given = [Instruction {
        program_id: key(7),
        accounts: vec![meta(address(&stranger), false, true)],
        data: vec![],
    }];
    assert!(!simulator.can_sign(&given, &[&stranger], None));
    assert!(!simulator.can_sign(&[], &[&stranger], None));
    assert!(simulator.can_sign(&given, &[], None));
}

#[test]
fn payer_may_sign_again_among_the_signers() {
    let mut simulator = simulator();
    let payer = Keypair::new();
    assert!(simulator.can_sign(&[], &[&payer], Some(&payer)));
    let transaction =
        simulator.build_and_sign_tx(&[], &[&payer, &payer], Some(&payer), fresh(5)).unwrap();
    assert_eq!(transaction.signatures.len(), 1);
    assert!(transaction.verify().is_ok());
}

fn many_accounts(count: usize, is_signer: bool, is_writable: bool) -> Vec<AccountMeta> {
    (0..count)
        .map(|index| {
            let mut bytes = [0xAB; 32];
            bytes[0] = (index % 256) as u8;
            bytes[1] = (index / 256) as u8;
            meta(Pubkey { bytes }, is_signer, is_writable)
        })
        .collect()
}

#[test]
fn at_most_255_signers() {
    let mut simulator = simulator();
    let fits = [Instruction { program_id: key(7), accounts: many_accounts(254, true, false), data: vec![] }];
    assert!(simulator.can_sign(&fits, &[], None));
    let transaction = simulator.build_and_sign_tx(&fits, &[], None, fresh(5)).unwrap();
    assert_eq!(transaction.message.header.num_required_signatures, 255);
    assert_eq!(transaction.signatures.len(), 255);

    let too_many =
        [Instruction { program_id: key(7), accounts: many_accounts(255, true, false), data: vec![] }];
    assert!(!simulator.can_sign(&too_many, &[], None));
}

#[test]
fn repeated_signers_count_once() {
    let mut simulator = simulator();
    let mut accounts = many_accounts(200, true, false);
    accounts.extend(many_accounts(200, true, true));
    let given = [Instruction { program_id: key(7), accounts, data: vec![] }];
    assert!(simulator.can_sign(&given, &[], None));
    let transaction = simulator.build_and_sign_tx(&given, &[], None, fresh(5)).unwrap();
    assert_eq!(transaction.message.header.num_required_signatures, 201);
}

#[test]
fn at_most_255_addresses_that_are_only_read() {
    let mut simulator = simulator();
    // The compute-budget program and the program called are read too.
    let fits = [Instruction { program_id: key(7), accounts: many_accounts(253, false, false), data: vec![] }];
    assert!(simulator.can_sign(&fits, &[], None));
    let transaction = simulator.build_and_sign_tx(&fits, &[], None, fresh(5)).unwrap();
    assert_eq!(transaction.message.header.num_readonly_unsigned_accounts, 255);

    let too_many =
        [Instruction { program_id: key(7), accounts: many_accounts(254, false, false), data: vec![] }];
    assert!(!simulator.can_sign(&too_many, &[], None));

    let written =
        [Instruction { program_id: key(7), accounts: many_accounts(300, false, true), data: vec![] }];
    assert!(simulator.can_sign(&written, &[], None));
    let transaction = simulator.build_and_sign_tx(&written, &[], None, fresh(5)).unwrap();
    assert_eq!(transaction.message.header.num_readonly_unsigned_accounts, 2);
}

#[test]
fn too_many_signers_do_not_even_compile() {
    let simulator = simulator();
    let fits = [Instruction { program_id: key(7), accounts: many_accounts(254, true, true), data: vec![] }];
    assert!(simulator.can_compile(&fits, None));
    let too_many =
        [Instruction { program_id: key(7), accounts: many_accounts(255, true, true), data: vec![] }];
    assert!(!simulator.can_compile(&too_many, None));
    let readers =
        [Instruction { program_id: key(7), accounts: many_accounts(254, false, false), data: vec![] }];
    assert!(!simulator.can_compile(&readers, None));
    // A signer whom no instruction names is no matter of compiling.
    assert!(simulator.can_compile(&[], Some(&Keypair::new())));
}

#[test]
fn input_of_an_instruction_has_at_most_65535_bytes() {
    let mut simulator = simulator();
    let fits = [Instruction { program_id: key(7), accounts: vec![], data: vec![1; 65535] }];
    assert!(simulator.can_sign(&fits, &[], None));
    let transaction = simulator.build_and_sign_tx(&fits, &[], None, fresh(5)).unwrap();
    assert_eq!(transaction.message.instructions[1].data.len(), 65535);
    assert!(transaction.verify().is_ok());

    let too_long = [Instruction { program_id: key(7), accounts: vec![], data: vec![1; 65536] }];
    assert!(simulator.can_compile(&too_long, None));
    assert!(!simulator.can_sign(&too_long, &[], None));
}

#[test]
fn an_instruction_has_at_most_65535_accounts() {
    let mut simulator = simulator();
    let accounts = vec![meta(key(1), false, true); 65535];
    let fits = [Instruction { program_id: key(7), accounts, data: vec![] }];
    assert!(simulator.can_sign(&fits, &[], None));
    let transaction = simulator.build_and_sign_tx(&fits, &[], None, fresh(5)).unwrap();
    assert_eq!(transaction.message.instructions[1].accounts.len(), 65535);
    assert!(transaction.verify().is_ok());

    let accounts = vec![meta(key(1), false, true); 65536];
    let too_many = [Instruction { program_id: key(7), accounts, data: vec![] }];
    assert!(simulator.can_compile(&too_many, None));
    assert!(!simulator.can_sign(&too_many, &[], None));
}

#[test]
fn a_transaction_has_at_most_65535_instructions_with_the_limit() {
    let mut simulator = simulator();
    let one = Instruction { program_id: key(7), accounts: vec![], data: vec![] };
    let fits = vec![one.clone(); 65534];
    assert!(simulator.can_sign(&fits, &[], None));
    let transaction = simulator.build_and_sign_tx(&fits, &[], None, fresh(5)).unwrap();
    assert_eq!(transaction.message.instructions.len(), 65535);
    assert!(transaction.verify().is_ok());

    let too_many = vec![one; 65535];
    assert!(simulator.can_compile(&too_many, None));
    assert!(!simulator.can_sign(&too_many, &[], None));
}

#[test]
fn many_addresses_that_are_written_fit() {
    let mut simulator = simulator();
    let given =
        [Instruction { program_id: key(7), accounts: many_accounts(3000, false, true), data: vec![] }];
    assert!(simulator.can_sign(&given, &[], None));
    let transaction = simulator.build_and_sign_tx(&given, &[], None, fresh(5)).unwrap();
    assert_eq!(transaction.message.account_keys.len(), 3003);
    assert!(transaction.verify().is_ok());
}

#[test]
fn a_transaction_names_at_most_65535_addresses() {
    let simulator = simulator();
    // With the payer and the two programs, 65536 addresses.
    let given =
        [Instruction { program_id: key(7), accounts: many_accounts(65533, false, true), data: vec![] }];
    assert!(!simulator.can_sign(&given, &[], None));
}

#[test]
fn process_returns_the_payers_signature() {
    let mut simulator = simulator();
    let given = [Instruction { program_id: key(7), accounts: vec![], data: vec![4] }];
    let (signature, transaction) = simulator.process_ixs_with_default_compute_limit(
        &given,
        &[],
        None,
        fresh(5),
    ).unwrap();
    let first: [u8; 64] = transaction.signatures[0].into();
    assert_eq!(signature.bytes, first);
    assert!(transaction.signatures[0]
        .verify(simulator.payer.pubkey().as_ref(), &transaction.message_data()));
}

#[test]
fn single_instruction_is_a_list_of_one() {
    let mut simulator = simulator();
    let given = Instruction { program_id: key(7), accounts: vec![meta(key(1), false, true)], data: vec![4] };
    let (signature, single) = simulator
        .process_ix_with_default_compute_limit(given.clone(), &[], None, fresh(5))
        .unwrap();
    let (same_signature, list) = simulator
        .process_ixs_with_default_compute_limit(&[given.clone()], &[], None, fresh(5))
        .unwrap();
    assert_eq!(single, list);
    assert_eq!(signature, same_signature);
    let simulated = simulator
        .simulate_ix_with_default_compute_limit(given.clone(), &[], None, fresh(5))
        .unwrap();
    let simulated_list = simulator
        .simulate_ixs_with_default_compute_limit(&[given], &[], None, fresh(5))
        .unwrap();
    assert_eq!(simulated, list);
    assert_eq!(simulated_list, list);
}

#[test]
fn airdrop_transfers_from_the_default_payer() {
    let mut simulator = simulator();
    let payer = address(&simulator.payer);
    let to = key(9);
    let (signature, transaction) = simulator.airdrop(&to, 1_000_000, fresh(5)).unwrap();

    assert_eq!(transaction.message.instructions.len(), 2);
    let (program, accounts, data) = decompiled(&transaction, 1);
    assert_eq!(program.bytes, SYSTEM_PROGRAM_ID);
    assert_eq!(program.bytes, solana_sdk::system_program::id().to_bytes());
    assert_eq!(accounts, vec![payer, to]);
    assert_eq!(data, vec![2, 0, 0, 0, 0x40, 0x42, 0x0f, 0, 0, 0, 0, 0]);
    assert_eq!(transaction.message.header.num_required_signatures, 1);
    assert_eq!(transaction.message.header.num_readonly_unsigned_accounts, 2);
    assert!(transaction.message.is_maybe_writable(1, None));
    assert!(transaction.verify().is_ok());
    let first: [u8; 64] = transaction.signatures[0].into();
    assert_eq!(signature.bytes, first);
}

#[test]
fn airdrop_of_nothing_to_the_payer_itself_is_built_too() {
    let mut simulator = simulator();
    let payer = address(&simulator.payer);
    let (_, transaction) = simulator.airdrop(&payer, 0, fresh(5)).unwrap();
    let (_, accounts, data) = decompiled(&transaction, 1);
    assert_eq!(accounts, vec![payer, payer]);
    assert_eq!(data, vec![2, 0, 0, 0, 0, 0, 0, 0, 0, 0, 0, 0]);
    assert!(transaction.verify().is_ok());
    let (_, transaction) = simulator.airdrop(&key(3), u64::MAX, fresh(5)).unwrap();
    let (_, _, data) = decompiled(&transaction, 1);
    assert_eq!(data, vec![2, 0, 0, 0, 255, 255, 255, 255, 255, 255, 255, 255]);
}

#[test]
fn funded_keypair_is_sent_one_sol() {
    assert_eq!(LAMPORTS_PER_SOL, 1_000_000_000);
    assert_eq!(LAMPORTS_PER_SOL, solana_sdk::native_token::LAMPORTS_PER_SOL);
    let mut simulator = simulator();
    let payer = address(&simulator.payer);
    let (keypair, signature, transaction) =
        simulator.get_funded_keypair(fresh(5)).unwrap();
    let (program, accounts, data) = decompiled(&transaction, 1);
    assert_eq!(program.bytes, SYSTEM_PROGRAM_ID);
    assert_eq!(accounts, vec![payer, address(&keypair)]);
    assert_eq!(data, vec![2, 0, 0, 0, 0x00, 0xca, 0x9a, 0x3b, 0, 0, 0, 0]);
    let first: [u8; 64] = transaction.signatures[0].into();
    assert_eq!(signature.bytes, first);
    let (other, _, _) = simulator.get_funded_keypair(fresh(5)).unwrap();
    assert_ne!(other.pubkey(), keypair.pubkey());
}

#[test]
fn funded_keypair_can_pay_a_transfer_of_its_own() {
    let mut simulator = simulator();
    let (funded, _, _) = simulator.get_funded_keypair(fresh(5)).unwrap();
    let recipient = key(0x77);
    let transfer = Instruction {
        program_id: Pubkey { bytes: SYSTEM_PROGRAM_ID },
        accounts: vec![meta(address(&funded), true, true), meta(recipient, false, true)],
        data: vec![2, 0, 0, 0, 0x40, 0x42, 0x0f, 0, 0, 0, 0, 0],
    };
    assert!(simulator.can_sign(&[transfer.clone()], &[&funded], None));
    let (signature, transaction) = simulator.process_ix_with_default_compute_limit(
        transfer,
        &[&funded],
        None,
        fresh(6),
    ).unwrap();
    let expected = solana_sdk::system_instruction::transfer(
        &funded.pubkey(),
        &solana_sdk::pubkey::Pubkey::new_from_array(recipient.bytes),
        1_000_000,
    );
    let (program, accounts, data) = decompiled(&transaction, 1);
    assert_eq!(program.bytes, expected.program_id.to_bytes());
    assert_eq!(accounts, vec![address(&funded), recipient]);
    assert_eq!(data, expected.data);
    assert!(transaction.is_signed());
    assert!(transaction.verify().is_ok());
    let first: [u8; 64] = transaction.signatures[0].into();
    assert_eq!(signature.bytes, first);
}

#[test]
fn failed_refresh_is_the_failure_of_building() {
    let mut simulator = simulator();
    let payer = simulator.payer.pubkey();
    let given = [Instruction { program_id: key(7), accounts: vec![], data: vec![4] }];
    let built = simulator.build_and_sign_tx(&given, &[], None, Err("no blockhash"));
    assert_eq!(built, Err(SimulatorError::ClientError("no blockhash")));
    assert_eq!(simulator.last_blockhash, Blockhash { bytes: [0; 32] });
    assert_eq!(simulator.payer.pubkey(), payer);
    let simulated =
        simulator.simulate_ixs_with_default_compute_limit(&given, &[], None, Err("down"));
    assert_eq!(simulated, Err(SimulatorError::ClientError("down")));
    let [single] = given;
    let simulated = simulator.simulate_ix_with_default_compute_limit(single, &[], None, Err(7));
    assert_eq!(simulated, Err(SimulatorError::ClientError(7)));
}

#[test]
fn failed_refresh_is_the_failure_of_a_submission() {
    let mut simulator = simulator();
    let given = [Instruction { program_id: key(7), accounts: vec![], data: vec![4] }];
    let submission =
        simulator.process_ixs_with_default_compute_limit(&given, &[], None, Err("no blockhash"));
    assert_eq!(submission, Err(SimulatorError::ClientError("no blockhash")));
    let [single] = given;
    let submission =
        simulator.process_ix_with_default_compute_limit(single, &[], None, Err("again"));
    assert_eq!(submission, Err(SimulatorError::ClientError("again")));
    assert_eq!(
        simulator.airdrop(&key(9), 5, Err("still")),
        Err(SimulatorError::ClientError("still"))
    );
    assert_eq!(
        simulator.get_funded_keypair(Err("none")).map(|(_, signature, _)| signature),
        Err(SimulatorError::ClientError("none"))
    );
    assert_eq!(simulator.last_blockhash, Blockhash { bytes: [0; 32] });
}

#[test]
fn failed_refresh_comes_before_a_signer_that_cannot_sign() {
    let mut simulator = simulator();
    let stranger = Keypair::new();
    assert!(simulator.can_compile(&[], None));
    assert!(!simulator.can_sign(&[], &[&stranger], None));
    let built = simulator.build_and_sign_tx(&[], &[&stranger], None, Err("no blockhash"));
    assert_eq!(built, Err(SimulatorError::ClientError("no blockhash")));
}

#[test]
fn processed_submission_gives_what_was_awaited() {
    let mut simulator = simulator();
    let (signature, _) = simulator.airdrop(&key(9), 5, fresh(1)).unwrap();
    let done: Result<(), &str> = Ok(());
    assert_eq!(ProgramSimulator::processed(signature, done), Ok(signature));
    assert_eq!(
        ProgramSimulator::processed(signature, Err("rejected")),
        Err(SimulatorError::ClientError("rejected"))
    );
}
