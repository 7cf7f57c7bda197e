use vstd::prelude::*;

use crate::identity::{contains_key, Identity};
use crate::pot::{
    byte_len, ContributorAccount, ErrorCode, PotAccount, DESCRIPTION_MAX_BYTES, MAX_CONTRIBUTORS,
    MAX_SIGNATURES, NAME_MAX_BYTES, SECONDS_PER_DAY,
};

verus! {

/// The environment of a pot's creation.
#[derive(Clone, Copy, Debug)]
pub struct CreatePot {
    /// The authenticated creator, who becomes the pot's authority.
    pub authority: Identity,
    /// The account that will hold the pot's funds.
    pub pot_vault: Identity,
    /// Current time.
    pub now: i64,
    /// Derivation seed of the pot record.
    pub bump: u8,
    /// Derivation seed of the vault.
    pub vault_bump: u8,
}

/// The environment of an approval: who signs, and when.
#[derive(Clone, Copy, Debug)]
pub struct SignRelease {
    /// The authenticated signer.
    pub signer: Identity,
    /// Current time.
    pub now: i64,
}

/// The environment of a release: who asks, what the vault holds, and when.
#[derive(Clone, Copy, Debug)]
pub struct ReleaseFunds {
    /// The authenticated caller.
    pub authority: Identity,
    /// Balance of the pot's vault, as read from the ledger.
    pub vault_balance: u64,
    /// Current time.
    pub now: i64,
}

/// The environment of an enrolment: who asks.
#[derive(Clone, Copy, Debug)]
pub struct AddContributor {
    /// The authenticated caller.
    pub authority: Identity,
}

/// The unlock time of a pot created at `now` with a lock of `unlock_days` days.
pub open spec fn unlock_time(now: i64, unlock_days: i64) -> int {
    now + unlock_days * SECONDS_PER_DAY
}

/// The first rule that the creation arguments break, if any.
pub open spec fn create_pot_error(
    ctx: CreatePot,
    name: Seq<char>,
    description: Seq<char>,
    target_amount: u64,
    unlock_days: i64,
    signers_required: u8,
) -> Option<ErrorCode> {
    if byte_len(name) > NAME_MAX_BYTES {
        Some(ErrorCode::NameTooLong)
    } else if byte_len(description) > DESCRIPTION_MAX_BYTES {
        Some(ErrorCode::DescriptionTooLong)
    } else if target_amount == 0 {
        Some(ErrorCode::InvalidTargetAmount)
    } else if signers_required == 0 {
        Some(ErrorCode::InvalidSignersRequired)
    } else if !(i64::MIN <= unlock_time(ctx.now, unlock_days) <= i64::MAX) {
        Some(ErrorCode::Overflow)
    } else {
        None
    }
}

/// Creates a pot owned by `ctx.authority`, with the creator as its only
/// contributor, nothing contributed, no approvals, and an unlock time
/// `unlock_days` days after `ctx.now` (a negative count backdates it).
pub fn create_pot(
    ctx: &CreatePot,
    name: String,
    description: String,
    target_amount: u64,
    unlock_days: i64,
    signers_required: u8,
) -> (r: Result<PotAccount, ErrorCode>)
    requires
        byte_len(name@) <= usize::MAX,
        byte_len(description@) <= usize::MAX,
    ensures
        match create_pot_error(
            *ctx,
            name@,
            description@,
            target_amount,
            unlock_days,
            signers_required,
        ) {
            Some(e) => r == Err::<PotAccount, ErrorCode>(e),
            None => match r {
                Ok(pot) => {
                    &&& pot.wf()
                    &&& pot.authority == ctx.authority
                    &&& pot.vault == ctx.pot_vault
                    &&& pot.name@ == name@
                    &&& pot.description@ == description@
                    &&& pot.target_amount == target_amount
                    &&& pot.total_contributed == 0
                    &&& pot.unlock_timestamp == unlock_time(ctx.now, unlock_days)
                    &&& pot.signers_required == signers_required
                    &&& pot.signatures@ == Seq::<Identity>::empty()
                    &&& pot.contributors@ == seq![ctx.authority]
                    &&& !pot.is_released
                    &&& pot.created_at == ctx.now
                    &&& pot.bump == ctx.bump
                    &&& pot.vault_bump == ctx.vault_bump
                },
                Err(_) => false,
            },
        },
{
    if name.as_str().len() > NAME_MAX_BYTES {
        return Err(ErrorCode::NameTooLong);
    }
    if description.as_str().len() > DESCRIPTION_MAX_BYTES {
        return Err(ErrorCode::DescriptionTooLong);
    }
    if target_amount == 0 {
        return Err(ErrorCode::InvalidTargetAmount);
    }
    if signers_required == 0 {
        return Err(ErrorCode::InvalidSignersRequired);
    }
    let unlock: i128 = ctx.now as i128 + unlock_days as i128 * SECONDS_PER_DAY as i128;
    if unlock < i64::MIN as i128 || unlock > i64::MAX as i128 {
        return Err(ErrorCode::Overflow);
    }
    let mut contributors: Vec<Identity> = Vec::new();
    contributors.push(ctx.authority);
    let pot = PotAccount {
        authority: ctx.authority,
        vault: ctx.pot_vault,
        name,
        description,
        target_amount,
        total_contributed: 0,
        unlock_timestamp: unlock as i64,
        signers_required,
        signatures: Vec::new(),
        contributors,
        is_released: false,
        released_at: None,
        recipient: None,
        created_at: ctx.now,
        bump: ctx.bump,
        vault_bump: ctx.vault_bump,
    };
    proof {
        assert(pot.contributors@[0] == ctx.authority);
        assert(pot.signatures@.len() == 0);
    }
    Ok(pot)
}

/// The environment of a contribution: which pot record, who pays, and when.
#[derive(Clone, Copy, Debug)]
pub struct Contribute {
    /// Address of the pot record.
    pub pot_key: Identity,
    /// The authenticated contributor.
    pub contributor: Identity,
    /// Current time.
    pub now: i64,
    /// Derivation seed of the contributor record, kept when it is created.
    pub bump: u8,
}

/// Running total of a contributor record; nothing for one not yet created.
pub open spec fn ledger_total(ledger: Option<ContributorAccount>) -> int {
    match ledger {
        Some(a) => a.total_contributed as int,
        None => 0,
    }
}

/// Contribution count of a contributor record; nothing for one not yet created.
pub open spec fn ledger_count(ledger: Option<ContributorAccount>) -> int {
    match ledger {
        Some(a) => a.contribution_count as int,
        None => 0,
    }
}

/// The first rule that a contribution of `amount` breaks, if any.
pub open spec fn contribute_error(
    pot: PotAccount,
    ledger: Option<ContributorAccount>,
    ctx: Contribute,
    amount: u64,
) -> Option<ErrorCode> {
    if amount == 0 {
        Some(ErrorCode::InvalidAmount)
    } else if pot.is_released {
        Some(ErrorCode::PotAlreadyReleased)
    } else if pot.total_contributed + amount > u64::MAX {
        Some(ErrorCode::Overflow)
    } else if !pot.contributors@.contains(ctx.contributor) && pot.contributors@.len()
        >= MAX_CONTRIBUTORS {
        Some(ErrorCode::TooManyContributors)
    } else if ledger_total(ledger) + amount > u64::MAX || ledger_count(ledger) + 1 > u32::MAX {
        Some(ErrorCode::Overflow)
    } else {
        None
    }
}

/// The contributor record after a successful contribution of `amount`: created
/// with zeroed counters on first use, then credited.
pub open spec fn credited_ledger(
    ledger: Option<ContributorAccount>,
    ctx: Contribute,
    amount: u64,
) -> ContributorAccount {
    match ledger {
        Some(a) => ContributorAccount {
            total_contributed: (a.total_contributed + amount) as u64,
            contribution_count: (a.contribution_count + 1) as u32,
            last_contribution_at: ctx.now,
            ..a
        },
        None => ContributorAccount {
            pot: ctx.pot_key,
            contributor: ctx.contributor,
            total_contributed: amount,
            contribution_count: 1,
            last_contribution_at: ctx.now,
            joined_at: ctx.now,
            bump: ctx.bump,
        },
    }
}

/// `members` with `who` appended unless already present.
pub open spec fn with_member(members: Seq<Identity>, who: Identity) -> Seq<Identity> {
    if members.contains(who) {
        members
    } else {
        members.push(who)
    }
}

/// What `contribute` guarantees: on a broken rule, the matching error and no
/// change; otherwise success, the pot's total and the contributor's record both
/// credited with `amount`, and the contributor enrolled.
pub open spec fn contribute_post(
    pot: PotAccount,
    ledger: Option<ContributorAccount>,
    ctx: Contribute,
    amount: u64,
    r: Result<(), ErrorCode>,
    new_pot: PotAccount,
    new_ledger: Option<ContributorAccount>,
) -> bool {
    match contribute_error(pot, ledger, ctx, amount) {
        Some(e) => {
            &&& r == Err::<(), ErrorCode>(e)
            &&& new_pot == pot
            &&& new_ledger == ledger
        },
        None => {
            &&& r is Ok
            &&& new_pot.same_settings(&pot)
            &&& new_pot.total_contributed == pot.total_contributed + amount
            &&& new_pot.signatures@ == pot.signatures@
            &&& new_pot.contributors@ == with_member(pot.contributors@, ctx.contributor)
            &&& new_ledger == Some(credited_ledger(ledger, ctx, amount))
        },
    }
}

/// Appending an absent identity keeps the list duplicate-free and keeps every
/// earlier member.
pub proof fn lemma_push_keeps_members(members: Seq<Identity>, who: Identity)
    requires
        members.no_duplicates(),
        !members.contains(who),
    ensures
        members.push(who).no_duplicates(),
        members.push(who).contains(who),
        forall|x: Identity| members.contains(x) ==> #[trigger] members.push(who).contains(x),
{
    assert(members.push(who).last() == who);
    assert forall|x: Identity| members.contains(x) implies #[trigger] members.push(who).contains(
        x,
    ) by {
        let i = choose|i: int| 0 <= i < members.len() && members[i] == x;
        assert(members.push(who)[i] == x);
    }
}

/// Records a contribution of `amount` by `ctx.contributor`: adds it to the pot's
/// total and to the contributor's record (created on first use), and enrols the
/// contributor. The moving of the funds themselves is the caller's, in the same
/// all-or-nothing unit of work; it is to happen only when this returns `Ok`.
pub fn contribute(
    pot: &mut PotAccount,
    contributor_account: &mut Option<ContributorAccount>,
    ctx: &Contribute,
    amount: u64,
) -> (r: Result<(), ErrorCode>)
    requires
        old(pot).wf(),
    ensures
        final(pot).wf(),
        old(pot).evolves_to(final(pot)),
        contribute_post(
            *old(pot),
            *old(contributor_account),
            *ctx,
            amount,
            r,
            *final(pot),
            *final(contributor_account),
        ),
{
    if amount == 0 {
        return Err(ErrorCode::InvalidAmount);
    }
    if pot.is_released {
        return Err(ErrorCode::PotAlreadyReleased);
    }
    let new_total = match pot.total_contributed.checked_add(amount) {
        Some(t) => t,
        None => {
            return Err(ErrorCode::Overflow);
        },
    };
    let is_member = contains_key(&pot.contributors, &ctx.contributor);
    if !is_member && pot.contributors.len() >= MAX_CONTRIBUTORS {
        return Err(ErrorCode::TooManyContributors);
    }
    let (old_total, old_count) = match contributor_account {
        Some(a) => (a.total_contributed, a.contribution_count),
        None => (0u64, 0u32),
    };
    let ledger_total = match old_total.checked_add(amount) {
        Some(t) => t,
        None => {
            return Err(ErrorCode::Overflow);
        },
    };
    let ledger_count = match old_count.checked_add(1) {
        Some(c) => c,
        None => {
            return Err(ErrorCode::Overflow);
        },
    };
    let credited = match contributor_account {
        Some(a) => ContributorAccount {
            total_contributed: ledger_total,
            contribution_count: ledger_count,
            last_contribution_at: ctx.now,
            ..*a
        },
        None => ContributorAccount {
            pot: ctx.pot_key,
            contributor: ctx.contributor,
            total_contributed: ledger_total,
            contribution_count: ledger_count,
            last_contribution_at: ctx.now,
            joined_at: ctx.now,
            bump: ctx.bump,
        },
    };
    let ghost before = pot.contributors@;
    pot.total_contributed = new_total;
    if !is_member {
        pot.contributors.push(ctx.contributor);
        proof {
            lemma_push_keeps_members(before, ctx.contributor);
        }
    }
    *contributor_account = Some(credited);
    Ok(())
}

/// The first rule that an approval by `ctx.signer` breaks, if any.
pub open spec fn sign_release_error(pot: PotAccount, ctx: SignRelease) -> Option<ErrorCode> {
    if pot.is_released {
        Some(ErrorCode::PotAlreadyReleased)
    } else if !pot.contributors@.contains(ctx.signer) {
        Some(ErrorCode::NotAContributor)
    } else if pot.signatures@.contains(ctx.signer) {
        Some(ErrorCode::AlreadySigned)
    } else if !pot.is_unlocked(ctx.now) {
        Some(ErrorCode::TimeLockNotExpired)
    } else if pot.signatures@.len() >= MAX_SIGNATURES {
        Some(ErrorCode::TooManySignatures)
    } else {
        None
    }
}

/// Records `ctx.signer`'s approval of release: once per contributor, and only
/// after the time lock has expired.
pub fn sign_release(pot: &mut PotAccount, ctx: &SignRelease) -> (r: Result<(), ErrorCode>)
    requires
        old(pot).wf(),
    ensures
        final(pot).wf(),
        old(pot).evolves_to(final(pot)),
        match sign_release_error(*old(pot), *ctx) {
            Some(e) => {
                &&& r == Err::<(), ErrorCode>(e)
                &&& *final(pot) == *old(pot)
            },
            None => {
                &&& r is Ok
                &&& final(pot).same_settings(old(pot))
                &&& final(pot).total_contributed == old(pot).total_contributed
                &&& final(pot).contributors@ == old(pot).contributors@
                &&& final(pot).signatures@ == old(pot).signatures@.push(ctx.signer)
            },
        },
{
    if pot.is_released {
        return Err(ErrorCode::PotAlreadyReleased);
    }
    if !contains_key(&pot.contributors, &ctx.signer) {
        return Err(ErrorCode::NotAContributor);
    }
    if contains_key(&pot.signatures, &ctx.signer) {
        return Err(ErrorCode::AlreadySigned);
    }
    if ctx.now < pot.unlock_timestamp {
        return Err(ErrorCode::TimeLockNotExpired);
    }
    if pot.signatures.len() >= MAX_SIGNATURES {
        return Err(ErrorCode::TooManySignatures);
    }
    let ghost before = pot.signatures@;
    pot.signatures.push(ctx.signer);
    proof {
        lemma_push_keeps_members(before, ctx.signer);
        assert forall|i: int| 0 <= i < pot.signatures@.len() implies pot.contributors@.contains(
            #[trigger] pot.signatures@[i],
        ) by {
            if i < before.len() {
                assert(pot.signatures@[i] == before[i]);
            }
        }
    }
    Ok(())
}

/// The first rule that a release by `ctx.authority` breaks, if any.
pub open spec fn release_funds_error(pot: PotAccount, ctx: ReleaseFunds) -> Option<ErrorCode> {
    if pot.is_released {
        Some(ErrorCode::PotAlreadyReleased)
    } else if ctx.authority != pot.authority {
        Some(ErrorCode::Unauthorized)
    } else if !pot.is_unlocked(ctx.now) {
        Some(ErrorCode::TimeLockNotExpired)
    } else if !pot.has_quorum() {
        Some(ErrorCode::InsufficientSignatures)
    } else if ctx.vault_balance == 0 {
        Some(ErrorCode::InsufficientFunds)
    } else {
        None
    }
}

/// Releases the pot to `recipient`: the authority may do so once the time lock
/// has expired, the quorum of approvals is met and the vault holds funds. On
/// success the pot is closed for good, and the result is the amount to move
/// from the vault to `recipient`: the vault's whole balance.
pub fn release_funds(pot: &mut PotAccount, ctx: &ReleaseFunds, recipient: Identity) -> (r: Result<
    u64,
    ErrorCode,
>)
    requires
        old(pot).wf(),
    ensures
        final(pot).wf(),
        old(pot).evolves_to(final(pot)),
        r is Ok <==> {
            &&& !old(pot).is_released
            &&& ctx.authority == old(pot).authority
            &&& old(pot).is_unlocked(ctx.now)
            &&& old(pot).has_quorum()
            &&& ctx.vault_balance > 0
        },
        match release_funds_error(*old(pot), *ctx) {
            Some(e) => {
                &&& r == Err::<u64, ErrorCode>(e)
                &&& *final(pot) == *old(pot)
            },
            None => {
                &&& r == Ok::<u64, ErrorCode>(ctx.vault_balance)
                &&& final(pot).is_released
                &&& final(pot).released_at == Some(ctx.now)
                &&& final(pot).recipient == Some(recipient)
                &&& final(pot).authority == old(pot).authority
                &&& final(pot).vault == old(pot).vault
                &&& final(pot).name@ == old(pot).name@
                &&& final(pot).description@ == old(pot).description@
                &&& final(pot).target_amount == old(pot).target_amount
                &&& final(pot).unlock_timestamp == old(pot).unlock_timestamp
                &&& final(pot).signers_required == old(pot).signers_required
                &&& final(pot).created_at == old(pot).created_at
                &&& final(pot).bump == old(pot).bump
                &&& final(pot).vault_bump == old(pot).vault_bump
                &&& final(pot).total_contributed == old(pot).total_contributed
                &&& final(pot).contributors@ == old(pot).contributors@
                &&& final(pot).signatures@ == old(pot).signatures@
            },
        },
{
    if pot.is_released {
        return Err(ErrorCode::PotAlreadyReleased);
    }
    if !ctx.authority.eq(&pot.authority) {
        return Err(ErrorCode::Unauthorized);
    }
    if ctx.now < pot.unlock_timestamp {
        return Err(ErrorCode::TimeLockNotExpired);
    }
    if pot.signatures.len() < pot.signers_required as usize {
        return Err(ErrorCode::InsufficientSignatures);
    }
    if ctx.vault_balance == 0 {
        return Err(ErrorCode::InsufficientFunds);
    }
    pot.is_released = true;
    pot.released_at = Some(ctx.now);
    pot.recipient = Some(recipient);
    Ok(ctx.vault_balance)
}

/// The first rule that enrolling `new_contributor` breaks, if any.
pub open spec fn add_contributor_error(
    pot: PotAccount,
    ctx: AddContributor,
    new_contributor: Identity,
) -> Option<ErrorCode> {
    if ctx.authority != pot.authority {
        Some(ErrorCode::Unauthorized)
    } else if pot.is_released {
        Some(ErrorCode::PotAlreadyReleased)
    } else if pot.contributors@.contains(new_contributor) {
        Some(ErrorCode::AlreadyAContributor)
    } else if pot.contributors@.len() >= MAX_CONTRIBUTORS {
        Some(ErrorCode::TooManyContributors)
    } else {
        None
    }
}

/// Lets the authority make `new_contributor` eligible to approve release,
/// without a contribution.
pub fn add_contributor(
    pot: &mut PotAccount,
    ctx: &AddContributor,
    new_contributor: Identity,
) -> (r: Result<(), ErrorCode>)
    requires
        old(pot).wf(),
    ensures
        final(pot).wf(),
        old(pot).evolves_to(final(pot)),
        match add_contributor_error(*old(pot), *ctx, new_contributor) {
            Some(e) => {
                &&& r == Err::<(), ErrorCode>(e)
                &&& *final(pot) == *old(pot)
            },
            None => {
                &&& r is Ok
                &&& final(pot).same_settings(old(pot))
                &&& final(pot).total_contributed == old(pot).total_contributed
                &&& final(pot).signatures@ == old(pot).signatures@
                &&& final(pot).contributors@ == old(pot).contributors@.push(new_contributor)
            },
        },
{
    if !ctx.authority.eq(&pot.authority) {
        return Err(ErrorCode::Unauthorized);
    }
    if pot.is_released {
        return Err(ErrorCode::PotAlreadyReleased);
    }
    if contains_key(&pot.contributors, &new_contributor) {
        return Err(ErrorCode::AlreadyAContributor);
    }
    if pot.contributors.len() >= MAX_CONTRIBUTORS {
        return Err(ErrorCode::TooManyContributors);
    }
    let ghost before = pot.contributors@;
    pot.contributors.push(new_contributor);
    proof {
        lemma_push_keeps_members(before, new_contributor);
    }
    Ok(())
}

} // verus!
