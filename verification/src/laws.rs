//! The laws of the ledger, proved over the model's transition functions:
//! construction and every operation preserve well-formedness, token
//! identifiers stay dense, an address mints at most once, the supply cap is
//! final, transfers clear approvals, approvals are idempotent, and a
//! delegated transfer cannot be replayed.

use vstd::prelude::*;

verus! {

use crate::MAX_SUPPLY;
use crate::model::{Address, Error, LedgerView};

/// A just-constructed ledger is well-formed.
pub proof fn lemma_initial_wf(admin: Address)
    ensures
        LedgerView::initial(admin).wf(),
{
}

/// A successful `add_to_whitelist` preserves well-formedness.
pub proof fn lemma_add_whitelist_wf(l: LedgerView, address: Address)
    requires
        l.wf(),
        l.add_whitelist_err(address) is None,
    ensures
        l.add_whitelist_step(address).wf(),
{
}

/// A successful `remove_from_whitelist` preserves well-formedness.
pub proof fn lemma_remove_whitelist_wf(l: LedgerView, admin: Address, address: Address)
    requires
        l.wf(),
        l.remove_whitelist_err(admin, address) is None,
    ensures
        l.remove_whitelist_step(address).wf(),
{
    let i = l.whitelist.index_of(address);
    l.whitelist.remove_ensures(i);
}

/// A successful `mint` preserves well-formedness.
pub proof fn lemma_mint_wf(l: LedgerView, to: Address)
    requires
        l.wf(),
        l.mint_err(to) is None,
    ensures
        l.mint_step(to).wf(),
{
    let step = l.mint_step(to);
    assert(step.record_addresses() =~= l.record_addresses().push(to));
}

/// `approve` preserves well-formedness, whatever its arguments.
pub proof fn lemma_approve_wf(l: LedgerView, to: Address, token_id: int)
    requires
        l.wf(),
    ensures
        l.approve_step(to, token_id).wf(),
{
    if l.approve_adds(to, token_id) {
        let step = l.approve_step(to, token_id);
        assert(step.records =~= l.records);
    }
}

/// A transfer of an assigned token preserves well-formedness.
pub proof fn lemma_transfer_wf(l: LedgerView, to: Address, token_id: int)
    requires
        l.wf(),
        1 <= token_id <= l.token_count,
    ensures
        l.transfer_step(to, token_id).wf(),
{
    let step = l.transfer_step(to, token_id);
    assert(step.records =~= l.records);
}

/// Token identifiers are dense: a well-formed ledger that has minted N
/// tokens carries exactly the identifiers 1 through N, in order, with no
/// gaps and no repeats.
pub proof fn lemma_token_ids_dense(l: LedgerView)
    requires
        l.wf(),
    ensures
        l.records.len() == l.token_count,
        forall|i: int| 0 <= i < l.records.len() ==> (#[trigger] l.records[i]).token_id == i + 1,
{
}

/// A successful `mint` raises the count by one and assigns the new count as
/// the fresh token's identifier, owned by the minter.
pub proof fn lemma_mint_assigns_next_id(l: LedgerView, to: Address)
    requires
        l.wf(),
        l.mint_err(to) is None,
    ensures
        l.mint_step(to).wf(),
        l.mint_step(to).token_count == l.token_count + 1,
        l.mint_step(to).records[l.token_count].token_id == l.token_count + 1,
        l.mint_step(to).owner_of(l.token_count + 1) == to,
{
    lemma_mint_wf(l, to);
}

/// Once the supply cap is reached, every `mint` fails, and it fails with
/// `SupplyExhausted` exactly when the earlier preconditions pass.
pub proof fn lemma_supply_exhausted(l: LedgerView, to: Address)
    requires
        l.wf(),
        l.token_count == MAX_SUPPLY as int,
    ensures
        l.mint_err(to) is Some,
        l.whitelist.contains(to) && !l.has_minted(to) ==> l.mint_err(to) == Some(
            Error::SupplyExhausted,
        ),
{
}

/// An address mints at most once: right after its successful `mint`, a
/// second `mint` for the same address fails with `AlreadyMinted`.
pub proof fn lemma_mint_at_most_once(l: LedgerView, to: Address)
    requires
        l.wf(),
        l.mint_err(to) is None,
    ensures
        l.mint_step(to).mint_err(to) == Some(Error::AlreadyMinted),
{
    let step = l.mint_step(to);
    assert(step.records[l.records.len() as int].address == to);
}

/// A transfer clears the token's approval set entirely: afterwards no
/// principal at all is approved for the token.
pub proof fn lemma_transfer_clears_approvals(
    l: LedgerView,
    owner: Address,
    to: Address,
    token_id: int,
)
    requires
        l.wf(),
        owner != Address::zero_spec(),
        l.transfer_err(owner, token_id) is None,
    ensures
        forall|any: Address|
            !l.transfer_step(to, token_id).approvals_of(token_id).contains(any),
{
    assert(1 <= token_id <= l.token_count);
}

/// `approve` is idempotent: after one `approve`, repeating it changes
/// nothing, adds nothing (so no second event is owed), and the owner check
/// still passes.
pub proof fn lemma_approve_idempotent(l: LedgerView, owner: Address, to: Address, token_id: int)
    requires
        l.wf(),
    ensures
        l.approve_step(to, token_id).approve_step(to, token_id) == l.approve_step(to, token_id),
        !l.approve_step(to, token_id).approve_adds(to, token_id),
        l.approve_err(owner, token_id) is None ==> l.approve_step(to, token_id).approve_err(
            owner,
            token_id,
        ) is None,
{
    if l.approve_adds(to, token_id) {
        let step = l.approve_step(to, token_id);
        let pushed = l.approvals[token_id - 1].push(to);
        assert(pushed[pushed.len() - 1] == to);
        assert(step.approvals_of(token_id).contains(to));
    }
}

/// A delegated transfer hands the token to `to` and cannot be replayed: the
/// same `transfer_from` now fails, with `FromNotOwner` where `from` lost
/// ownership and otherwise with `SpenderNotApproved`, approvals having been
/// cleared.
pub proof fn lemma_transfer_from_round_trip(
    l: LedgerView,
    spender: Address,
    from: Address,
    to: Address,
    token_id: int,
)
    requires
        l.wf(),
        l.transfer_from_err(spender, from, token_id) is None,
    ensures
        l.transfer_step(to, token_id).owner_of(token_id) == to,
        l.transfer_step(to, token_id).transfer_from_err(spender, from, token_id) is Some,
        from != to ==> l.transfer_step(to, token_id).transfer_from_err(spender, from, token_id)
            == Some(Error::FromNotOwner),
        from == to ==> l.transfer_step(to, token_id).transfer_from_err(spender, from, token_id)
            == Some(Error::SpenderNotApproved),
{
    assert(1 <= token_id <= l.token_count) by {
        if !(1 <= token_id <= l.token_count) {
            assert(l.approvals_of(token_id) =~= Seq::empty());
        }
    }
}

} // verus!
