//! What the message of a transaction holds: which addresses it names and what
//! it asks of each, who has to sign, and whether it is short enough to be
//! written down.

use crate::instruction::{AccountMeta, Instruction, InstructionView, instruction_views};
use crate::keys::Pubkey;
use vstd::prelude::*;

verus! {

/// The mentions that one instruction makes: its program, which it neither
/// signs for nor writes, and then its accounts as they stand.
pub open spec fn mentions_of(instruction: InstructionView) -> Seq<AccountMeta> {
    seq![AccountMeta { pubkey: instruction.program_id, is_signer: false, is_writable: false }]
        + instruction.accounts
}

/// Every mention of an address in a transaction: first the fee payer, who
/// signs and is written, then the mentions of each instruction in order.
pub open spec fn mentions(instructions: Seq<InstructionView>, payer: Pubkey) -> Seq<AccountMeta>
    decreases instructions.len(),
{
    if instructions.len() == 0 {
        seq![AccountMeta { pubkey: payer, is_signer: true, is_writable: true }]
    } else {
        mentions(instructions.drop_last(), payer) + mentions_of(instructions.last())
    }
}

/// `key` is named at all.
pub open spec fn named(mentions: Seq<AccountMeta>, key: Pubkey) -> bool {
    exists|i: int| 0 <= i < mentions.len() && (#[trigger] mentions[i]).pubkey == key
}

/// Some mention of `key` asks for its signature.
pub open spec fn signs(mentions: Seq<AccountMeta>, key: Pubkey) -> bool {
    exists|i: int|
        0 <= i < mentions.len() && (#[trigger] mentions[i]).pubkey == key && mentions[i].is_signer
}

/// Some mention of `key` asks to write it.
pub open spec fn writes(mentions: Seq<AccountMeta>, key: Pubkey) -> bool {
    exists|i: int|
        0 <= i < mentions.len() && (#[trigger] mentions[i]).pubkey == key && mentions[i].is_writable
}

/// `key` is named, and no mention of it asks for a signature or a write.
pub open spec fn readonly_unsigned(mentions: Seq<AccountMeta>, key: Pubkey) -> bool {
    named(mentions, key) && !signs(mentions, key) && !writes(mentions, key)
}

/// The longest sequence that a message can hold: of account keys, of
/// instructions, of the accounts of one instruction, of its input bytes.
pub const MAX_SHORT_LEN: usize = 65535;

/// The addresses that the transaction names.
pub open spec fn named_keys(mentions: Seq<AccountMeta>) -> Set<Pubkey> {
    Set::new(|key: Pubkey| named(mentions, key))
}

/// The addresses whose signature the transaction needs.
pub open spec fn signer_keys(mentions: Seq<AccountMeta>) -> Set<Pubkey> {
    Set::new(|key: Pubkey| signs(mentions, key))
}

/// The addresses that the transaction only reads and that need not sign.
pub open spec fn readonly_unsigned_keys(mentions: Seq<AccountMeta>) -> Set<Pubkey> {
    Set::new(|key: Pubkey| readonly_unsigned(mentions, key))
}

/// There are no more than `MAX_SHORT_LEN` instructions, and none of them has
/// more accounts or more bytes of input than that.
pub open spec fn lengths_fit(instructions: Seq<InstructionView>) -> bool {
    &&& instructions.len() <= MAX_SHORT_LEN
    &&& forall|i: int|
        0 <= i < instructions.len() ==> (#[trigger] instructions[i]).accounts.len() <= MAX_SHORT_LEN
            && instructions[i].data.len() <= MAX_SHORT_LEN
}

/// The message of a transaction with these instructions can be written down:
/// none of its sequences is longer than `MAX_SHORT_LEN`, the one of the
/// addresses that it names included.
pub open spec fn fits_a_message(instructions: Seq<InstructionView>, payer: Pubkey) -> bool {
    &&& lengths_fit(instructions)
    &&& named_keys(mentions(instructions, payer)).len() <= MAX_SHORT_LEN
}

/// A mention among the first `n + 1` is among the first `n` or is the one at `n`.
proof fn lemma_mentions_step(mentions: Seq<AccountMeta>, n: int, key: Pubkey)
    requires
        0 <= n < mentions.len(),
    ensures
        named(mentions.take(n + 1), key) <==> named(mentions.take(n), key) || mentions[n].pubkey
            == key,
        signs(mentions.take(n + 1), key) <==> signs(mentions.take(n), key) || (mentions[n].pubkey
            == key && mentions[n].is_signer),
        writes(mentions.take(n + 1), key) <==> writes(mentions.take(n), key) || (mentions[n].pubkey
            == key && mentions[n].is_writable),
{
    let shorter = mentions.take(n);
    let longer = mentions.take(n + 1);
    assert(longer[n] == mentions[n]);
    assert forall|i: int| 0 <= i < n implies #[trigger] shorter[i] == longer[i] by {}
    if named(shorter, key) {
        let i = choose|i: int| 0 <= i < shorter.len() && (#[trigger] shorter[i]).pubkey == key;
        assert(longer[i].pubkey == key);
    }
    if signs(shorter, key) {
        let i = choose|i: int|
            0 <= i < shorter.len() && (#[trigger] shorter[i]).pubkey == key && shorter[i].is_signer;
        assert(longer[i].pubkey == key && longer[i].is_signer);
    }
    if writes(shorter, key) {
        let i = choose|i: int|
            0 <= i < shorter.len() && (#[trigger] shorter[i]).pubkey == key
                && shorter[i].is_writable;
        assert(longer[i].pubkey == key && longer[i].is_writable);
    }
    if named(longer, key) {
        let i = choose|i: int| 0 <= i < longer.len() && (#[trigger] longer[i]).pubkey == key;
        if i < n {
            assert(shorter[i].pubkey == key);
        }
    }
    if signs(longer, key) {
        let i = choose|i: int|
            0 <= i < longer.len() && (#[trigger] longer[i]).pubkey == key && longer[i].is_signer;
        if i < n {
            assert(shorter[i].pubkey == key && shorter[i].is_signer);
        }
    }
    if writes(longer, key) {
        let i = choose|i: int|
            0 <= i < longer.len() && (#[trigger] longer[i]).pubkey == key && longer[i].is_writable;
        if i < n {
            assert(shorter[i].pubkey == key && shorter[i].is_writable);
        }
    }
}

/// Lists every mention of a transaction, the fee payer's first.
pub fn collect_mentions(instructions: &[Instruction], payer: &Pubkey) -> (all: Vec<AccountMeta>)
    ensures
        all@ == mentions(instruction_views(instructions@), *payer),
{
    let ghost views = instruction_views(instructions@);
    let mut all: Vec<AccountMeta> = Vec::new();
    all.push(AccountMeta { pubkey: *payer, is_signer: true, is_writable: true });
    assert(all@ =~= mentions(views.take(0), *payer));
    let mut i: usize = 0;
    while i < instructions.len()
        invariant
            i <= instructions.len(),
            views == instruction_views(instructions@),
            all@ == mentions(views.take(i as int), *payer),
        decreases instructions.len() - i,
    {
        let instruction = &instructions[i];
        let ghost before = all@;
        all.push(AccountMeta { pubkey: instruction.program_id, is_signer: false, is_writable: false });
        let mut j: usize = 0;
        while j < instruction.accounts.len()
            invariant
                j <= instruction.accounts.len(),
                all@ == before + mentions_of(instruction@).take(j + 1),
            decreases instruction.accounts.len() - j,
        {
            all.push(instruction.accounts[j]);
            assert(all@ =~= before + mentions_of(instruction@).take(j + 2));
            j += 1;
        }
        proof {
            let longer = views.take(i + 1);
            assert(longer.drop_last() =~= views.take(i as int));
            assert(longer.last() == instruction@);
            assert(mentions_of(instruction@).take(j + 1) =~= mentions_of(instruction@));
        }
        i += 1;
    }
    assert(views.take(i as int) =~= views);
    all
}

/// Whether some mention of `key` asks for its signature.
pub fn is_signer_key(all: &Vec<AccountMeta>, key: &Pubkey) -> (found: bool)
    ensures
        found == signs(all@, *key),
{
    let mut i: usize = 0;
    while i < all.len()
        invariant
            i <= all.len(),
            !signs(all@.take(i as int), *key),
        decreases all.len() - i,
    {
        proof {
            lemma_mentions_step(all@, i as int, *key);
        }
        if all[i].is_signer && all[i].pubkey == *key {
            assert(all@.take(all.len() as int) =~= all@);
            return true;
        }
        i += 1;
    }
    assert(all@.take(i as int) =~= all@);
    false
}

/// Whether some mention of `key` asks to write it.
pub fn is_writable_key(all: &Vec<AccountMeta>, key: &Pubkey) -> (found: bool)
    ensures
        found == writes(all@, *key),
{
    let mut i: usize = 0;
    while i < all.len()
        invariant
            i <= all.len(),
            !writes(all@.take(i as int), *key),
        decreases all.len() - i,
    {
        proof {
            lemma_mentions_step(all@, i as int, *key);
        }
        if all[i].is_writable && all[i].pubkey == *key {
            assert(all@.take(all.len() as int) =~= all@);
            return true;
        }
        i += 1;
    }
    assert(all@.take(i as int) =~= all@);
    false
}

/// Whether `key` stands in `keys`.
fn holds_key(keys: &Vec<Pubkey>, key: &Pubkey) -> (found: bool)
    ensures
        found == keys@.contains(*key),
{
    let mut i: usize = 0;
    while i < keys.len()
        invariant
            i <= keys.len(),
            forall|j: int| 0 <= j < i ==> keys@[j] != *key,
        decreases keys.len() - i,
    {
        if keys[i] == *key {
            return true;
        }
        i += 1;
    }
    false
}

/// The addresses that have to sign, each once.
pub fn signer_key_list(all: &Vec<AccountMeta>) -> (keys: Vec<Pubkey>)
    ensures
        keys@.no_duplicates(),
        keys@.to_set() == signer_keys(all@),
        keys@.len() == signer_keys(all@).len(),
{
    let mut keys: Vec<Pubkey> = Vec::new();
    let mut i: usize = 0;
    while i < all.len()
        invariant
            i <= all.len(),
            keys@.no_duplicates(),
            forall|key: Pubkey| keys@.contains(key) <==> signs(all@.take(i as int), key),
        decreases all.len() - i,
    {
        let meta = all[i];
        let ghost before = keys@;
        let fresh = meta.is_signer && !holds_key(&keys, &meta.pubkey);
        if fresh {
            keys.push(meta.pubkey);
        }
        proof {
            assert forall|key: Pubkey| keys@.contains(key) <==> signs(
                all@.take(i + 1),
                key,
            ) by {
                lemma_mentions_step(all@, i as int, key);
                lemma_pushed_contains(before, meta.pubkey, key);
            }
        }
        i += 1;
    }
    proof {
        assert(all@.take(i as int) =~= all@);
        assert(keys@.to_set() =~= signer_keys(all@));
        keys@.unique_seq_to_set();
    }
    keys
}

/// The addresses among `named`, the addresses that the transaction names, that
/// are only read and need not sign, each once.
pub fn readonly_unsigned_among(all: &Vec<AccountMeta>, named: &Vec<Pubkey>) -> (keys: Vec<Pubkey>)
    requires
        named@.no_duplicates(),
        named@.to_set() == named_keys(all@),
    ensures
        keys@.no_duplicates(),
        keys@.to_set() == readonly_unsigned_keys(all@),
        keys@.len() == readonly_unsigned_keys(all@).len(),
{
    let mut keys: Vec<Pubkey> = Vec::new();
    let mut i: usize = 0;
    while i < named.len()
        invariant
            i <= named.len(),
            named@.no_duplicates(),
            keys@.no_duplicates(),
            forall|key: Pubkey|
                keys@.contains(key) <==> named@.take(i as int).contains(key) && !signs(all@, key)
                    && !writes(all@, key),
        decreases named.len() - i,
    {
        let key = named[i];
        let ghost before = keys@;
        if !is_signer_key(all, &key) && !is_writable_key(all, &key) {
            assert(!named@.take(i as int).contains(key)) by {
                if named@.take(i as int).contains(key) {
                    let j = choose|j: int| 0 <= j < i && named@.take(i as int)[j] == key;
                    assert(named@[j] == named@[i as int]);
                }
            }
            keys.push(key);
        }
        proof {
            assert(named@.take(i + 1) =~= named@.take(i as int).push(key));
            assert forall|other: Pubkey|
                keys@.contains(other) <==> named@.take(i + 1).contains(other) && !signs(
                    all@,
                    other,
                ) && !writes(all@, other) by {
                lemma_pushed_contains(before, key, other);
                lemma_pushed_contains(named@.take(i as int), key, other);
            }
        }
        i += 1;
    }
    proof {
        assert(named@.take(i as int) =~= named@);
        assert forall|key: Pubkey| keys@.contains(key) <==> readonly_unsigned(all@, key) by {
            assert(named@.to_set().contains(key) <==> named@.contains(key));
        }
        assert(keys@.to_set() =~= readonly_unsigned_keys(all@));
        keys@.unique_seq_to_set();
    }
    keys
}

/// The addresses that are only read and need not sign, each once.
pub fn readonly_unsigned_key_list(all: &Vec<AccountMeta>) -> (keys: Vec<Pubkey>)
    ensures
        keys@.no_duplicates(),
        keys@.to_set() == readonly_unsigned_keys(all@),
        keys@.len() == readonly_unsigned_keys(all@).len(),
{
    let named = named_key_list(all);
    readonly_unsigned_among(all, &named)
}

/// The addresses that the transaction names, each once.
pub fn named_key_list(all: &Vec<AccountMeta>) -> (keys: Vec<Pubkey>)
    ensures
        keys@.no_duplicates(),
        keys@.to_set() == named_keys(all@),
        keys@.len() == named_keys(all@).len(),
{
    let mut keys: Vec<Pubkey> = Vec::new();
    let mut i: usize = 0;
    while i < all.len()
        invariant
            i <= all.len(),
            keys@.no_duplicates(),
            forall|key: Pubkey| keys@.contains(key) <==> named(all@.take(i as int), key),
        decreases all.len() - i,
    {
        let meta = all[i];
        let ghost before = keys@;
        if !holds_key(&keys, &meta.pubkey) {
            keys.push(meta.pubkey);
        }
        proof {
            assert forall|key: Pubkey| keys@.contains(key) <==> named(
                all@.take(i + 1),
                key,
            ) by {
                lemma_mentions_step(all@, i as int, key);
                lemma_pushed_contains(before, meta.pubkey, key);
            }
        }
        i += 1;
    }
    proof {
        assert(all@.take(i as int) =~= all@);
        assert(keys@.to_set() =~= named_keys(all@));
        keys@.unique_seq_to_set();
    }
    keys
}

/// Whether there are no more than `MAX_SHORT_LEN` instructions, and none of
/// them has more accounts or more bytes of input than that.
pub fn check_lengths(instructions: &[Instruction]) -> (fit: bool)
    ensures
        fit == lengths_fit(instruction_views(instructions@)),
{
    if instructions.len() > MAX_SHORT_LEN {
        return false;
    }
    let mut i: usize = 0;
    while i < instructions.len()
        invariant
            i <= instructions.len(),
            instructions.len() <= MAX_SHORT_LEN,
            forall|j: int|
                0 <= j < i ==> (#[trigger] instruction_views(instructions@)[j]).accounts.len()
                    <= MAX_SHORT_LEN && instruction_views(instructions@)[j].data.len()
                    <= MAX_SHORT_LEN,
        decreases instructions.len() - i,
    {
        assert(instruction_views(instructions@)[i as int] == instructions[i as int]@);
        if instructions[i].accounts.len() > MAX_SHORT_LEN || instructions[i].data.len()
            > MAX_SHORT_LEN {
            return false;
        }
        i += 1;
    }
    true
}

/// What a list holds after one more key was pushed.
proof fn lemma_pushed_contains(keys: Seq<Pubkey>, pushed: Pubkey, key: Pubkey)
    ensures
        keys.push(pushed).contains(key) <==> keys.contains(key) || key == pushed,
{
    let longer = keys.push(pushed);
    if keys.contains(key) {
        let i = choose|i: int| 0 <= i < keys.len() && keys[i] == key;
        assert(longer[i] == key);
    }
    if key == pushed {
        assert(longer[keys.len() as int] == key);
    }
}

} // verus!
