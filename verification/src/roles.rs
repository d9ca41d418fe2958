//! What a transaction asks of an address, said of its instructions rather
//! than of the list of its mentions.

use crate::instruction::{AccountMeta, InstructionView};
use crate::keys::Pubkey;
use crate::message::{mentions, mentions_of, named, signs, writes};
use vstd::prelude::*;

verus! {

/// Some instruction marks `key` as a signer among its accounts.
pub open spec fn marked_signer(instructions: Seq<InstructionView>, key: Pubkey) -> bool {
    exists|i: int, j: int|
        0 <= i < instructions.len() && 0 <= j < instructions[i].accounts.len() && (
        #[trigger] instructions[i].accounts[j]).pubkey == key && instructions[i].accounts[j].is_signer
}

/// Some instruction marks `key` as written among its accounts.
pub open spec fn marked_writable(instructions: Seq<InstructionView>, key: Pubkey) -> bool {
    exists|i: int, j: int|
        0 <= i < instructions.len() && 0 <= j < instructions[i].accounts.len() && (
        #[trigger] instructions[i].accounts[j]).pubkey == key
            && instructions[i].accounts[j].is_writable
}

/// Some instruction calls `key` as its program or has it among its accounts.
pub open spec fn occurs(instructions: Seq<InstructionView>, key: Pubkey) -> bool {
    ||| exists|i: int| 0 <= i < instructions.len() && (#[trigger] instructions[i]).program_id == key
    ||| exists|i: int, j: int|
        0 <= i < instructions.len() && 0 <= j < instructions[i].accounts.len() && (
        #[trigger] instructions[i].accounts[j]).pubkey == key
}

/// What a transaction asks of an address, said of its instructions: the fee
/// payer signs and is written; besides, an address signs where some
/// instruction marks it as a signer, is written where some instruction marks
/// it as written, and is named where it occurs in some instruction.
pub proof fn lemma_roles_of_a_transaction(
    instructions: Seq<InstructionView>,
    payer: Pubkey,
    key: Pubkey,
)
    ensures
        signs(mentions(instructions, payer), key) <==> key == payer || marked_signer(
            instructions,
            key,
        ),
        writes(mentions(instructions, payer), key) <==> key == payer || marked_writable(
            instructions,
            key,
        ),
        named(mentions(instructions, payer), key) <==> key == payer || occurs(instructions, key),
    decreases instructions.len(),
{
    let all = mentions(instructions, payer);
    if instructions.len() == 0 {
        assert(all[0].pubkey == payer && all[0].is_signer && all[0].is_writable);
    } else {
        let last = instructions.last();
        let rest = instructions.drop_last();
        let n = instructions.len() - 1;
        lemma_roles_of_a_transaction(rest, payer, key);
        lemma_roles_of_both(mentions(rest, payer), mentions_of(last), key);
        lemma_roles_of_an_instruction(last, key);
        assert forall|i: int| 0 <= i < n implies rest[i] == instructions[i] by {}
        // Each way through the last instruction or the ones before it.
        if marked_signer(rest, key) {
            let (i, j) = choose|i: int, j: int|
                0 <= i < rest.len() && 0 <= j < rest[i].accounts.len() && (
                #[trigger] rest[i].accounts[j]).pubkey == key && rest[i].accounts[j].is_signer;
            assert(instructions[i].accounts[j].pubkey == key);
        }
        if marked_writable(rest, key) {
            let (i, j) = choose|i: int, j: int|
                0 <= i < rest.len() && 0 <= j < rest[i].accounts.len() && (
                #[trigger] rest[i].accounts[j]).pubkey == key && rest[i].accounts[j].is_writable;
            assert(instructions[i].accounts[j].pubkey == key);
        }
        if occurs(rest, key) {
            if exists|i: int| 0 <= i < rest.len() && (#[trigger] rest[i]).program_id == key {
                let i = choose|i: int| 0 <= i < rest.len() && (#[trigger] rest[i]).program_id == key;
                assert(instructions[i].program_id == key);
            } else {
                let (i, j) = choose|i: int, j: int|
                    0 <= i < rest.len() && 0 <= j < rest[i].accounts.len() && (
                    #[trigger] rest[i].accounts[j]).pubkey == key;
                assert(instructions[i].accounts[j].pubkey == key);
            }
        }
        if signs(mentions_of(last), key) {
            let j = choose|j: int|
                0 <= j < last.accounts.len() && (#[trigger] last.accounts[j]).pubkey == key
                    && last.accounts[j].is_signer;
            assert(instructions[n].accounts[j].pubkey == key);
        }
        if writes(mentions_of(last), key) {
            let j = choose|j: int|
                0 <= j < last.accounts.len() && (#[trigger] last.accounts[j]).pubkey == key
                    && last.accounts[j].is_writable;
            assert(instructions[n].accounts[j].pubkey == key);
        }
        if named(mentions_of(last), key) {
            if last.program_id == key {
                assert(instructions[n].program_id == key);
            } else {
                let j = choose|j: int|
                    0 <= j < last.accounts.len() && (#[trigger] last.accounts[j]).pubkey == key;
                assert(instructions[n].accounts[j].pubkey == key);
            }
        }
        if marked_signer(instructions, key) {
            let (i, j) = choose|i: int, j: int|
                0 <= i < instructions.len() && 0 <= j < instructions[i].accounts.len() && (
                #[trigger] instructions[i].accounts[j]).pubkey == key
                    && instructions[i].accounts[j].is_signer;
            if i < n {
                assert(rest[i].accounts[j].pubkey == key);
            } else {
                assert(last.accounts[j].pubkey == key);
            }
        }
        if marked_writable(instructions, key) {
            let (i, j) = choose|i: int, j: int|
                0 <= i < instructions.len() && 0 <= j < instructions[i].accounts.len() && (
                #[trigger] instructions[i].accounts[j]).pubkey == key
                    && instructions[i].accounts[j].is_writable;
            if i < n {
                assert(rest[i].accounts[j].pubkey == key);
            } else {
                assert(last.accounts[j].pubkey == key);
            }
        }
        if occurs(instructions, key) {
            if exists|i: int|
                0 <= i < instructions.len() && (#[trigger] instructions[i]).program_id == key {
                let i = choose|i: int|
                    0 <= i < instructions.len() && (#[trigger] instructions[i]).program_id == key;
                if i < n {
                    assert(rest[i].program_id == key);
                }
            } else {
                let (i, j) = choose|i: int, j: int|
                    0 <= i < instructions.len() && 0 <= j < instructions[i].accounts.len() && (
                    #[trigger] instructions[i].accounts[j]).pubkey == key;
                if i < n {
                    assert(rest[i].accounts[j].pubkey == key);
                } else {
                    assert(last.accounts[j].pubkey == key);
                }
            }
        }
    }
}

/// What one instruction asks of an address: nothing of its program but to be
/// named, and of an account what the account's entry says.
proof fn lemma_roles_of_an_instruction(instruction: InstructionView, key: Pubkey)
    ensures
        signs(mentions_of(instruction), key) <==> exists|j: int|
            0 <= j < instruction.accounts.len() && (#[trigger] instruction.accounts[j]).pubkey
                == key && instruction.accounts[j].is_signer,
        writes(mentions_of(instruction), key) <==> exists|j: int|
            0 <= j < instruction.accounts.len() && (#[trigger] instruction.accounts[j]).pubkey
                == key && instruction.accounts[j].is_writable,
        named(mentions_of(instruction), key) <==> instruction.program_id == key || exists|j: int|
            0 <= j < instruction.accounts.len() && (#[trigger] instruction.accounts[j]).pubkey
                == key,
{
    let own = mentions_of(instruction);
    assert(own[0].pubkey == instruction.program_id && !own[0].is_signer && !own[0].is_writable);
    assert forall|j: int| 0 <= j < instruction.accounts.len() implies own[j + 1]
        == #[trigger] instruction.accounts[j] by {}
    if signs(own, key) {
        let i = choose|i: int|
            0 <= i < own.len() && (#[trigger] own[i]).pubkey == key && own[i].is_signer;
        assert(instruction.accounts[i - 1].pubkey == key);
    }
    if writes(own, key) {
        let i = choose|i: int|
            0 <= i < own.len() && (#[trigger] own[i]).pubkey == key && own[i].is_writable;
        assert(instruction.accounts[i - 1].pubkey == key);
    }
    if named(own, key) && instruction.program_id != key {
        let i = choose|i: int| 0 <= i < own.len() && (#[trigger] own[i]).pubkey == key;
        assert(instruction.accounts[i - 1].pubkey == key);
    }
    if exists|j: int|
        0 <= j < instruction.accounts.len() && (#[trigger] instruction.accounts[j]).pubkey == key
            && instruction.accounts[j].is_signer {
        let j = choose|j: int|
            0 <= j < instruction.accounts.len() && (#[trigger] instruction.accounts[j]).pubkey
                == key && instruction.accounts[j].is_signer;
        assert(own[j + 1].pubkey == key && own[j + 1].is_signer);
    }
    if exists|j: int|
        0 <= j < instruction.accounts.len() && (#[trigger] instruction.accounts[j]).pubkey == key
            && instruction.accounts[j].is_writable {
        let j = choose|j: int|
            0 <= j < instruction.accounts.len() && (#[trigger] instruction.accounts[j]).pubkey
                == key && instruction.accounts[j].is_writable;
        assert(own[j + 1].pubkey == key && own[j + 1].is_writable);
    }
    if exists|j: int|
        0 <= j < instruction.accounts.len() && (#[trigger] instruction.accounts[j]).pubkey == key {
        let j = choose|j: int|
            0 <= j < instruction.accounts.len() && (#[trigger] instruction.accounts[j]).pubkey
                == key;
        assert(own[j + 1].pubkey == key);
    }
}

/// What two runs of mentions ask of an address together is what either asks.
proof fn lemma_roles_of_both(first: Seq<AccountMeta>, second: Seq<AccountMeta>, key: Pubkey)
    ensures
        signs(first + second, key) <==> signs(first, key) || signs(second, key),
        writes(first + second, key) <==> writes(first, key) || writes(second, key),
        named(first + second, key) <==> named(first, key) || named(second, key),
{
    let both = first + second;
    assert forall|i: int| 0 <= i < first.len() implies both[i] == #[trigger] first[i] by {}
    assert forall|i: int| 0 <= i < second.len() implies both[first.len() + i]
        == #[trigger] second[i] by {}
    if signs(first, key) {
        let i = choose|i: int|
            0 <= i < first.len() && (#[trigger] first[i]).pubkey == key && first[i].is_signer;
        assert(both[i].pubkey == key && both[i].is_signer);
    }
    if signs(second, key) {
        let i = choose|i: int|
            0 <= i < second.len() && (#[trigger] second[i]).pubkey == key && second[i].is_signer;
        assert(both[first.len() + i].pubkey == key && both[first.len() + i].is_signer);
    }
    if signs(both, key) {
        let i = choose|i: int|
            0 <= i < both.len() && (#[trigger] both[i]).pubkey == key && both[i].is_signer;
        if i < first.len() {
            assert(first[i].pubkey == key);
        } else {
            assert(second[i - first.len()].pubkey == key);
        }
    }
    if writes(first, key) {
        let i = choose|i: int|
            0 <= i < first.len() && (#[trigger] first[i]).pubkey == key && first[i].is_writable;
        assert(both[i].pubkey == key && both[i].is_writable);
    }
    if writes(second, key) {
        let i = choose|i: int|
            0 <= i < second.len() && (#[trigger] second[i]).pubkey == key && second[i].is_writable;
        assert(both[first.len() + i].pubkey == key && both[first.len() + i].is_writable);
    }
    if writes(both, key) {
        let i = choose|i: int|
            0 <= i < both.len() && (#[trigger] both[i]).pubkey == key && both[i].is_writable;
        if i < first.len() {
            assert(first[i].pubkey == key);
        } else {
            assert(second[i - first.len()].pubkey == key);
        }
    }
    if named(first, key) {
        let i = choose|i: int| 0 <= i < first.len() && (#[trigger] first[i]).pubkey == key;
        assert(both[i].pubkey == key);
    }
    if named(second, key) {
        let i = choose|i: int| 0 <= i < second.len() && (#[trigger] second[i]).pubkey == key;
        assert(both[first.len() + i].pubkey == key);
    }
    if named(both, key) {
        let i = choose|i: int| 0 <= i < both.len() && (#[trigger] both[i]).pubkey == key;
        if i < first.len() {
            assert(first[i].pubkey == key);
        } else {
            assert(second[i - first.len()].pubkey == key);
        }
    }
}

} // verus!
