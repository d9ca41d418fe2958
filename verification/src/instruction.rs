//! Instructions as plain data, and the two instructions that this library
//! makes itself: the compute-unit limit and the system transfer.

use crate::keys::Pubkey;
use vstd::prelude::*;

verus! {

/// One account that an instruction touches, with what it asks of it.
#[derive(Clone, Copy, Debug, PartialEq, Eq)]
pub struct AccountMeta {
    pub pubkey: Pubkey,
    pub is_signer: bool,
    pub is_writable: bool,
}

/// A call of one program: the program, the accounts it touches, its input.
#[derive(Debug, PartialEq, Eq)]
pub struct Instruction {
    pub program_id: Pubkey,
    pub accounts: Vec<AccountMeta>,
    pub data: Vec<u8>,
}

/// What an `Instruction` holds, as mathematical sequences.
pub struct InstructionView {
    pub program_id: Pubkey,
    pub accounts: Seq<AccountMeta>,
    pub data: Seq<u8>,
}

impl View for Instruction {
    type V = InstructionView;

    open spec fn view(&self) -> InstructionView {
        InstructionView { program_id: self.program_id, accounts: self.accounts@, data: self.data@ }
    }
}

impl Clone for Instruction {
    fn clone(&self) -> (copy: Self)
        ensures
            copy@ == self@,
    {
        let copy = Instruction {
            program_id: self.program_id,
            accounts: self.accounts.clone(),
            data: self.data.clone(),
        };
        assert(copy.accounts@ =~= self.accounts@);
        assert(copy.data@ =~= self.data@);
        copy
    }
}

/// The address of the program that takes compute-budget instructions.
pub const COMPUTE_BUDGET_PROGRAM_ID: [u8; 32] = [
    3, 6, 70, 111, 229, 33, 23, 50, 255, 236, 173, 186, 114, 195, 155, 231,
    188, 140, 229, 187, 197, 247, 18, 107, 44, 67, 155, 58, 64, 0, 0, 0,
];

/// The address of the system program, which moves lamports between accounts.
pub const SYSTEM_PROGRAM_ID: [u8; 32] = [
    0, 0, 0, 0, 0, 0, 0, 0, 0, 0, 0, 0, 0, 0, 0, 0,
    0, 0, 0, 0, 0, 0, 0, 0, 0, 0, 0, 0, 0, 0, 0, 0,
];

/// The four bytes of `value`, lowest first.
pub open spec fn le_bytes_u32(value: u32) -> Seq<u8> {
    Seq::new(4, |i: int| (value as int / pow256(i) % 256) as u8)
}

/// The eight bytes of `value`, lowest first.
pub open spec fn le_bytes_u64(value: u64) -> Seq<u8> {
    Seq::new(8, |i: int| (value as int / pow256(i) % 256) as u8)
}

/// 256 to the power `i`, for the byte positions of a 64-bit number.
pub open spec fn pow256(i: int) -> int
    decreases i,
{
    if i <= 0 {
        1
    } else {
        256 * pow256(i - 1)
    }
}

/// The instruction that limits a transaction to `units` compute units: no
/// accounts, and as input the tag 2 followed by `units`, lowest byte first.
pub open spec fn compute_unit_limit_instruction(units: u32) -> InstructionView {
    InstructionView {
        program_id: Pubkey { bytes: COMPUTE_BUDGET_PROGRAM_ID },
        accounts: Seq::empty(),
        data: seq![2u8] + le_bytes_u32(units),
    }
}

/// The instruction that moves `lamports` from `from` to `to`: `from` signs and
/// both are written; the input is the tag 2 in four bytes, then the amount.
pub open spec fn transfer_instruction(from: Pubkey, to: Pubkey, lamports: u64) -> InstructionView {
    InstructionView {
        program_id: Pubkey { bytes: SYSTEM_PROGRAM_ID },
        accounts: seq![
            AccountMeta { pubkey: from, is_signer: true, is_writable: true },
            AccountMeta { pubkey: to, is_signer: false, is_writable: true },
        ],
        data: seq![2u8, 0u8, 0u8, 0u8] + le_bytes_u64(lamports),
    }
}

/// The limit of 2,000,000 compute units carries the bytes 02 80 84 1e 00.
pub proof fn lemma_two_million_units_in_bytes()
    ensures
        compute_unit_limit_instruction(2_000_000).data == seq![2u8, 0x80u8, 0x84u8, 0x1eu8, 0u8],
{
    let low = le_bytes_u32(2_000_000);
    assert(pow256(0) == 1 && pow256(1) == 256 && pow256(2) == 65536 && pow256(3) == 16777216) by {
        reveal_with_fuel(pow256, 5);
    }
    assert(low[0] == 0x80 && low[1] == 0x84 && low[2] == 0x1e && low[3] == 0);
    assert(compute_unit_limit_instruction(2_000_000).data =~= seq![
        2u8,
        0x80u8,
        0x84u8,
        0x1eu8,
        0u8,
    ]);
}

/// A transfer of one SOL, 1,000,000,000 lamports, carries the bytes
/// 02 00 00 00 00 ca 9a 3b 00 00 00 00.
pub proof fn lemma_one_sol_in_bytes(from: Pubkey, to: Pubkey)
    ensures
        transfer_instruction(from, to, 1_000_000_000).data == seq![
            2u8,
            0u8,
            0u8,
            0u8,
            0u8,
            0xcau8,
            0x9au8,
            0x3bu8,
            0u8,
            0u8,
            0u8,
            0u8,
        ],
{
    let low = le_bytes_u64(1_000_000_000);
    assert(pow256(0) == 1 && pow256(1) == 256 && pow256(2) == 65536 && pow256(3) == 16777216
        && pow256(4) == 4294967296 && pow256(5) == 1099511627776 && pow256(6) == 281474976710656
        && pow256(7) == 72057594037927936) by {
        reveal_with_fuel(pow256, 9);
    }
    assert(low[0] == 0 && low[1] == 0xca && low[2] == 0x9a && low[3] == 0x3b);
    assert(low[4] == 0 && low[5] == 0 && low[6] == 0 && low[7] == 0);
    assert(transfer_instruction(from, to, 1_000_000_000).data =~= seq![
        2u8,
        0u8,
        0u8,
        0u8,
        0u8,
        0xcau8,
        0x9au8,
        0x3bu8,
        0u8,
        0u8,
        0u8,
        0u8,
    ]);
}

/// Calls `ComputeBudgetInstruction::set_compute_unit_limit` and copies the
/// result field by field. Trusted: the result is addressed to the
/// compute-budget program, names no account, and carries the byte 2 followed by
/// the little-endian bytes of `units`.
#[verifier::external_body]
pub(crate) fn set_compute_unit_limit(units: u32) -> (instruction: Instruction)
    ensures
        instruction@ == compute_unit_limit_instruction(units),
{
    let made = solana_sdk::compute_budget::ComputeBudgetInstruction::set_compute_unit_limit(units);
    let accounts = made.accounts.iter().map(|meta| AccountMeta {
        pubkey: Pubkey { bytes: meta.pubkey.to_bytes() },
        is_signer: meta.is_signer,
        is_writable: meta.is_writable,
    }).collect();
    Instruction { program_id: Pubkey { bytes: made.program_id.to_bytes() }, accounts, data: made.data }
}

/// Calls `system_instruction::transfer` and copies the result field by field.
/// Trusted: the result is addressed to the system program, names `from` as a
/// writable signer and `to` as writable, and carries the variant index 2 as
/// four little-endian bytes followed by the eight of `lamports`.
#[verifier::external_body]
pub(crate) fn transfer(from: &Pubkey, to: &Pubkey, lamports: u64) -> (instruction: Instruction)
    ensures
        instruction@ == transfer_instruction(*from, *to, lamports),
{
    let source = solana_sdk::pubkey::Pubkey::new_from_array(from.bytes);
    let target = solana_sdk::pubkey::Pubkey::new_from_array(to.bytes);
    let made = solana_sdk::system_instruction::transfer(&source, &target, lamports);
    let accounts = made.accounts.iter().map(|meta| AccountMeta {
        pubkey: Pubkey { bytes: meta.pubkey.to_bytes() },
        is_signer: meta.is_signer,
        is_writable: meta.is_writable,
    }).collect();
    Instruction { program_id: Pubkey { bytes: made.program_id.to_bytes() }, accounts, data: made.data }
}

/// The views of a list of instructions, in order.
pub open spec fn instruction_views(instructions: Seq<Instruction>) -> Seq<InstructionView> {
    Seq::new(instructions.len(), |i: int| instructions[i]@)
}

} // verus!
