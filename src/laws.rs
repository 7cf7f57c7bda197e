use vstd::prelude::*;

use crate::contract::{
    add_contributor_error, contribute_error, contribute_post, credited_ledger, ledger_total,
    release_funds_error, sign_release_error, AddContributor, Contribute, ReleaseFunds,
    SignRelease,
};
use crate::identity::Identity;
use crate::pot::{ContributorAccount, ErrorCode, PotAccount};

verus! {

/// Sum of the running totals of a pot's contributor records; a record not yet
/// created counts as nothing.
pub open spec fn ledgers_total(ledgers: Seq<Option<ContributorAccount>>) -> int
    decreases ledgers.len(),
{
    if ledgers.len() == 0 {
        0
    } else {
        ledgers_total(ledgers.drop_last()) + ledger_total(ledgers.last())
    }
}

/// Replacing one record changes the sum by the difference of the two totals.
pub proof fn lemma_ledgers_total_update(
    ledgers: Seq<Option<ContributorAccount>>,
    i: int,
    ledger: Option<ContributorAccount>,
)
    requires
        0 <= i < ledgers.len(),
    ensures
        ledgers_total(ledgers.update(i, ledger)) == ledgers_total(ledgers) - ledger_total(
            ledgers[i],
        ) + ledger_total(ledger),
    decreases ledgers.len(),
{
    let updated = ledgers.update(i, ledger);
    if i == ledgers.len() - 1 {
        assert(updated.drop_last() =~= ledgers.drop_last());
    } else {
        lemma_ledgers_total_update(ledgers.drop_last(), i, ledger);
        assert(updated.drop_last() =~= ledgers.drop_last().update(i, ledger));
    }
}

/// The pot's total stays the sum of its contributor records' totals across a
/// contribution, whether it is accepted or rejected: `i` is the slot of the
/// contributor's record among `ledgers`, and `new_ledger` what it holds after.
pub proof fn lemma_contribution_keeps_ledger_sum(
    pot: PotAccount,
    new_pot: PotAccount,
    ledgers: Seq<Option<ContributorAccount>>,
    i: int,
    ctx: Contribute,
    amount: u64,
    r: Result<(), ErrorCode>,
    new_ledger: Option<ContributorAccount>,
)
    requires
        0 <= i < ledgers.len(),
        ledgers_total(ledgers) == pot.total_contributed,
        contribute_post(pot, ledgers[i], ctx, amount, r, new_pot, new_ledger),
    ensures
        ledgers_total(ledgers.update(i, new_ledger)) == new_pot.total_contributed,
{
    lemma_ledgers_total_update(ledgers, i, new_ledger);
    if contribute_error(pot, ledgers[i], ctx, amount) is None {
        assert(ledger_total(Some(credited_ledger(ledgers[i], ctx, amount))) == ledger_total(
            ledgers[i],
        ) + amount);
    }
}

/// Whether each pot in `pots` is what one operation made of the one before.
pub open spec fn is_history(pots: Seq<PotAccount>) -> bool {
    forall|k: int| 0 <= k < pots.len() - 1 ==> #[trigger] pots[k].evolves_to(&pots[k + 1])
}

/// Along any sequence of operations the pot's total never decreases.
pub proof fn lemma_total_never_decreases(pots: Seq<PotAccount>, i: int, j: int)
    requires
        is_history(pots),
        0 <= i <= j < pots.len(),
    ensures
        pots[i].total_contributed <= pots[j].total_contributed,
    decreases j - i,
{
    if i < j {
        lemma_total_never_decreases(pots, i, j - 1);
        assert(pots[j - 1].evolves_to(&pots[j - 1 + 1]));
    }
}

/// Once a pot is released, no later operation changes any of its fields.
pub proof fn lemma_released_pot_is_frozen(pots: Seq<PotAccount>, i: int, j: int)
    requires
        is_history(pots),
        0 <= i <= j < pots.len(),
        pots[i].is_released,
    ensures
        pots[j].same_as(&pots[i]),
    decreases j - i,
{
    if i < j {
        lemma_released_pot_is_frozen(pots, i, j - 1);
        assert(pots[j - 1].evolves_to(&pots[j - 1 + 1]));
    }
}

/// A released pot rejects every operation: contributions, approvals, a second
/// release and enrolments all fail.
pub proof fn lemma_released_pot_rejects_all(
    pot: PotAccount,
    ledger: Option<ContributorAccount>,
    contribution: Contribute,
    amount: u64,
    approval: SignRelease,
    release: ReleaseFunds,
    enrolment: AddContributor,
    new_contributor: Identity,
)
    requires
        pot.is_released,
    ensures
        contribute_error(pot, ledger, contribution, amount) is Some,
        sign_release_error(pot, approval) == Some(ErrorCode::PotAlreadyReleased),
        release_funds_error(pot, release) == Some(ErrorCode::PotAlreadyReleased),
        add_contributor_error(pot, enrolment, new_contributor) is Some,
{
}

/// A release by the authority of an open pot fails exactly on the first of its
/// gates that is shut, with that gate's error: the time lock, then the quorum,
/// then the vault balance; with all three open it succeeds.
pub proof fn lemma_release_gates(pot: PotAccount, ctx: ReleaseFunds)
    requires
        !pot.is_released,
        ctx.authority == pot.authority,
    ensures
        !pot.is_unlocked(ctx.now) ==> release_funds_error(pot, ctx) == Some(
            ErrorCode::TimeLockNotExpired,
        ),
        pot.is_unlocked(ctx.now) && !pot.has_quorum() ==> release_funds_error(pot, ctx) == Some(
            ErrorCode::InsufficientSignatures,
        ),
        pot.is_unlocked(ctx.now) && pot.has_quorum() && ctx.vault_balance == 0
            ==> release_funds_error(pot, ctx) == Some(ErrorCode::InsufficientFunds),
        release_funds_error(pot, ctx) is None <==> (pot.is_unlocked(ctx.now) && pot.has_quorum()
            && ctx.vault_balance > 0),
{
}

} // verus!
