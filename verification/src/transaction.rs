//! Transactions before they are signed: an ordered list of instructions, the account
//! that pays, and the accounts whose signatures the ledger will ask for.

use crate::address::{Address, SYSTEM_PROGRAM_ID};
use crate::instruction::{AccountMeta, Instruction, InstructionView};
use vstd::prelude::*;

verus! {

/// What has to be signed and submitted as one atomic transaction.
#[derive(Debug)]
pub struct TransactionPlan {
    /// The instructions, in the order in which the ledger runs them.
    pub instructions: Vec<Instruction>,
    /// The account that pays the fee.
    pub payer: Address,
    /// Every account that has to sign, each once, the payer first.
    pub signers: Vec<Address>,
}

/// A `TransactionPlan` with its vectors as sequences.
pub struct TransactionPlanView {
    pub instructions: Seq<InstructionView>,
    pub payer: Address,
    pub signers: Seq<Address>,
}

impl View for TransactionPlan {
    type V = TransactionPlanView;

    open spec fn view(&self) -> TransactionPlanView {
        TransactionPlanView {
            instructions: self.instructions.deep_view(),
            payer: self.payer,
            signers: self.signers@,
        }
    }
}

/// `known` with `a` added at the end unless it is there already.
pub open spec fn with_signer(known: Seq<Address>, a: Address) -> Seq<Address> {
    if known.contains(a) {
        known
    } else {
        known.push(a)
    }
}

/// `known`, then the signing accounts among `metas` that are new, in their order.
pub open spec fn with_account_signers(known: Seq<Address>, metas: Seq<AccountMeta>) -> Seq<Address>
    decreases metas.len(),
{
    if metas.len() == 0 {
        known
    } else {
        let before = with_account_signers(known, metas.drop_last());
        if metas.last().is_signer {
            with_signer(before, metas.last().pubkey)
        } else {
            before
        }
    }
}

/// `known`, then the signing accounts of the instructions that are new, in their order.
pub open spec fn with_instruction_signers(
    known: Seq<Address>,
    instructions: Seq<InstructionView>,
) -> Seq<Address>
    decreases instructions.len(),
{
    if instructions.len() == 0 {
        known
    } else {
        with_account_signers(
            with_instruction_signers(known, instructions.drop_last()),
            instructions.last().accounts,
        )
    }
}

/// The accounts that must sign a transaction: the payer, then every account that an
/// instruction marks as a signer, each once, in the order of first appearance.
pub open spec fn required_signers(instructions: Seq<InstructionView>, payer: Address) -> Seq<
    Address,
> {
    with_instruction_signers(seq![payer], instructions)
}

/// The plan for `instructions`, paid by `payer`, with the signers that they require.
pub open spec fn plan_of(
    instructions: Seq<InstructionView>,
    payer: Address,
) -> TransactionPlanView {
    TransactionPlanView { instructions, payer, signers: required_signers(instructions, payer) }
}

/// Whether some instruction marks `a` as a signer.
pub open spec fn signs_somewhere(instructions: Seq<InstructionView>, a: Address) -> bool {
    exists|i: int, j: int|
        0 <= i < instructions.len() && 0 <= j < instructions[i].accounts.len()
            && #[trigger] instructions[i].accounts[j].is_signer
            && instructions[i].accounts[j].pubkey == a
}

/// Whether `ix` is the system program's instruction that brings `a` into being.
pub open spec fn creates(ix: InstructionView, a: Address) -> bool {
    ix.program_id.bytes == SYSTEM_PROGRAM_ID && ix.accounts.len() == 2 && ix.accounts[1].pubkey
        == a
}

/// Whether `ix` hands `a` to a program other than the system program.
pub open spec fn consumes(ix: InstructionView, a: Address) -> bool {
    ix.program_id.bytes != SYSTEM_PROGRAM_ID && exists|j: int|
        0 <= j < ix.accounts.len() && #[trigger] ix.accounts[j].pubkey == a
}

/// The ordering rule: an account that the transaction creates is created before any
/// instruction of another program refers to it.
pub open spec fn creation_precedes_use(instructions: Seq<InstructionView>) -> bool {
    forall|i: int, j: int, a: Address|
        0 <= i < instructions.len() && 0 <= j < instructions.len() && #[trigger] creates(
            instructions[i],
            a,
        ) && #[trigger] consumes(instructions[j], a) ==> i < j
}

/// Instructions obey the ordering rule where those of the system program come first:
/// whatever they create is there before another program sees it.
pub proof fn lemma_system_instructions_first(instructions: Seq<InstructionView>, count: int)
    requires
        0 <= count <= instructions.len(),
        forall|i: int|
            0 <= i < count ==> (#[trigger] instructions[i]).program_id.bytes == SYSTEM_PROGRAM_ID,
        forall|i: int|
            count <= i < instructions.len() ==> !creates(
                #[trigger] instructions[i],
                instructions[i].accounts[1].pubkey,
            ),
    ensures
        creation_precedes_use(instructions),
{
    assert forall|i: int, j: int, a: Address|
        0 <= i < instructions.len() && 0 <= j < instructions.len() && #[trigger] creates(
            instructions[i],
            a,
        ) && #[trigger] consumes(instructions[j], a) implies i < j by {
        if i >= count {
            assert(creates(instructions[i], instructions[i].accounts[1].pubkey));
        }
        if j < count {
            assert(instructions[j].program_id.bytes == SYSTEM_PROGRAM_ID);
        }
    }
}

proof fn lemma_with_account_signers(known: Seq<Address>, metas: Seq<AccountMeta>)
    requires
        known.no_duplicates(),
    ensures
        with_account_signers(known, metas).no_duplicates(),
        known.len() <= with_account_signers(known, metas).len(),
        with_account_signers(known, metas).subrange(0, known.len() as int) == known,
        forall|a: Address| #[trigger]
            with_account_signers(known, metas).contains(a) <==> known.contains(a) || exists|
                j: int,
            |
                0 <= j < metas.len() && #[trigger] metas[j].is_signer && metas[j].pubkey == a,
    decreases metas.len(),
{
    let all = with_account_signers(known, metas);
    if metas.len() == 0 {
        assert(all.subrange(0, known.len() as int) =~= known);
    } else {
        let init = metas.drop_last();
        let before = with_account_signers(known, init);
        lemma_with_account_signers(known, init);
        let m = metas.last();
        assert(before.subrange(0, known.len() as int) == known);
        assert(all.subrange(0, known.len() as int) =~= before.subrange(0, known.len() as int));
        assert forall|a: Address| #[trigger]
            all.contains(a) <==> known.contains(a) || exists|j: int|
                0 <= j < metas.len() && #[trigger] metas[j].is_signer && metas[j].pubkey
                    == a by {
            let in_init = exists|j: int|
                0 <= j < init.len() && #[trigger] init[j].is_signer && init[j].pubkey == a;
            let in_all = exists|j: int|
                0 <= j < metas.len() && #[trigger] metas[j].is_signer && metas[j].pubkey == a;
            assert(before.contains(a) <==> known.contains(a) || in_init);
            if in_init {
                let j = choose|j: int|
                    0 <= j < init.len() && #[trigger] init[j].is_signer && init[j].pubkey == a;
                assert(metas[j].is_signer && metas[j].pubkey == a);
            }
            if in_all && !in_init {
                let j = choose|j: int|
                    0 <= j < metas.len() && #[trigger] metas[j].is_signer && metas[j].pubkey == a;
                if j < init.len() {
                    assert(init[j].is_signer && init[j].pubkey == a);
                }
                assert(j == metas.len() - 1);
            }
            if m.is_signer {
                if before.contains(m.pubkey) {
                } else {
                    assert(all == before.push(m.pubkey));
                    assert(before.push(m.pubkey).last() == m.pubkey);
                    if all.contains(a) && !before.contains(a) {
                        let k = choose|k: int| 0 <= k < all.len() && all[k] == a;
                        assert(k == before.len());
                    }
                    if before.contains(a) {
                        let k = choose|k: int| 0 <= k < before.len() && before[k] == a;
                        assert(all[k] == a);
                    }
                    assert(all[before.len() as int] == m.pubkey);
                }
                assert(metas[metas.len() - 1].is_signer);
            }
        }
    }
}

proof fn lemma_with_instruction_signers(known: Seq<Address>, instructions: Seq<InstructionView>)
    requires
        known.no_duplicates(),
    ensures
        with_instruction_signers(known, instructions).no_duplicates(),
        known.len() <= with_instruction_signers(known, instructions).len(),
        with_instruction_signers(known, instructions).subrange(0, known.len() as int) == known,
        forall|a: Address| #[trigger]
            with_instruction_signers(known, instructions).contains(a) <==> known.contains(a)
                || signs_somewhere(instructions, a),
    decreases instructions.len(),
{
    let all = with_instruction_signers(known, instructions);
    if instructions.len() == 0 {
        assert(all.subrange(0, known.len() as int) =~= known);
    } else {
        let init = instructions.drop_last();
        let before = with_instruction_signers(known, init);
        let last = instructions.last();
        lemma_with_instruction_signers(known, init);
        lemma_with_account_signers(before, last.accounts);
        assert(all.subrange(0, known.len() as int) =~= all.subrange(
            0,
            before.len() as int,
        ).subrange(0, known.len() as int));
        assert forall|a: Address| #[trigger]
            all.contains(a) <==> known.contains(a) || signs_somewhere(instructions, a) by {
            let in_last = exists|j: int|
                0 <= j < last.accounts.len() && #[trigger] last.accounts[j].is_signer
                    && last.accounts[j].pubkey == a;
            assert(all.contains(a) <==> before.contains(a) || in_last);
            assert(before.contains(a) <==> known.contains(a) || signs_somewhere(init, a));
            if signs_somewhere(init, a) {
                let (i, j) = choose|i: int, j: int|
                    0 <= i < init.len() && 0 <= j < init[i].accounts.len()
                        && #[trigger] init[i].accounts[j].is_signer && init[i].accounts[j].pubkey
                        == a;
                assert(instructions[i].accounts[j].is_signer);
            }
            if in_last {
                let j = choose|j: int|
                    0 <= j < last.accounts.len() && #[trigger] last.accounts[j].is_signer
                        && last.accounts[j].pubkey == a;
                assert(instructions[instructions.len() - 1].accounts[j].is_signer);
            }
            if signs_somewhere(instructions, a) && !signs_somewhere(init, a) {
                let (i, j) = choose|i: int, j: int|
                    0 <= i < instructions.len() && 0 <= j < instructions[i].accounts.len()
                        && #[trigger] instructions[i].accounts[j].is_signer
                        && instructions[i].accounts[j].pubkey == a;
                if i < init.len() {
                    assert(init[i].accounts[j].is_signer);
                }
                assert(last.accounts[j].is_signer);
            }
        }
    }
}

/// The signer set is deduplicated, starts with the payer, and holds exactly the payer
/// and the accounts that some instruction marks as a signer.
pub proof fn lemma_required_signers(instructions: Seq<InstructionView>, payer: Address)
    ensures
        required_signers(instructions, payer).no_duplicates(),
        required_signers(instructions, payer).len() >= 1,
        required_signers(instructions, payer)[0] == payer,
        forall|a: Address| #[trigger]
            required_signers(instructions, payer).contains(a) <==> a == payer || signs_somewhere(
                instructions,
                a,
            ),
{
    let known = seq![payer];
    lemma_with_instruction_signers(known, instructions);
    let all = required_signers(instructions, payer);
    assert(all.subrange(0, 1)[0] == all[0]);
    assert forall|a: Address| known.contains(a) <==> a == payer by {
        assert(known[0] == payer);
    }
}

/// Whether `a` is among `known`.
pub fn holds(known: &Vec<Address>, a: &Address) -> (found: bool)
    ensures
        found == known@.contains(*a),
{
    let mut i: usize = 0;
    while i < known.len()
        invariant
            i <= known.len(),
            forall|k: int| 0 <= k < i ==> known@[k] != *a,
        decreases known.len() - i,
    {
        if known[i].same(a) {
            return true;
        }
        i += 1;
    }
    false
}

/// Builds the plan for `instructions`, paid by `payer`: the instructions stay in the
/// order given and the signer set is computed from them.
pub fn assemble(instructions: Vec<Instruction>, payer: Address) -> (plan: TransactionPlan)
    ensures
        plan.instructions == instructions,
        plan@ == plan_of(instructions.deep_view(), payer),
{
    let mut signers: Vec<Address> = Vec::new();
    signers.push(payer);
    let ghost all = instructions.deep_view();
    let mut i: usize = 0;
    assert(all.take(0) =~= Seq::<InstructionView>::empty());
    while i < instructions.len()
        invariant
            i <= instructions.len(),
            all == instructions.deep_view(),
            signers@ == with_instruction_signers(seq![payer], all.take(i as int)),
        decreases instructions.len() - i,
    {
        let ghost before = signers@;
        let accounts = &instructions[i].accounts;
        let ghost metas = accounts@;
        let mut j: usize = 0;
        assert(metas.take(0) =~= Seq::<AccountMeta>::empty());
        while j < accounts.len()
            invariant
                j <= accounts.len(),
                metas == accounts@,
                signers@ == with_account_signers(before, metas.take(j as int)),
            decreases accounts.len() - j,
        {
            let meta = accounts[j];
            assert(metas.take(j + 1).drop_last() =~= metas.take(j as int));
            if meta.is_signer && !holds(&signers, &meta.pubkey) {
                signers.push(meta.pubkey);
            }
            j += 1;
        }
        assert(metas.take(j as int) =~= metas);
        assert(all.take(i + 1).drop_last() =~= all.take(i as int));
        assert(all.take(i + 1).last().accounts == metas);
        i += 1;
    }
    assert(all.take(i as int) =~= all);
    TransactionPlan { instructions, payer, signers }
}

} // verus!
