use vstd::prelude::*;

use crate::identity::{all_contained, all_distinct, contains_key, Identity};

verus! {

/// Longest pot name, in UTF-8 bytes.
pub const NAME_MAX_BYTES: usize = 32;

/// Longest pot description, in UTF-8 bytes.
pub const DESCRIPTION_MAX_BYTES: usize = 200;

/// Most release approvals a pot record can hold.
pub const MAX_SIGNATURES: usize = 10;

/// Most contributors a pot record can hold.
pub const MAX_CONTRIBUTORS: usize = 20;

/// Length of one day, in seconds.
pub const SECONDS_PER_DAY: i64 = 86400;

/// Why an operation on a pot was rejected. A rejected operation changes nothing.
#[derive(Clone, Copy, Debug, PartialEq, Eq, Structural)]
pub enum ErrorCode {
    NameTooLong,
    DescriptionTooLong,
    InvalidTargetAmount,
    InvalidSignersRequired,
    InvalidAmount,
    PotAlreadyReleased,
    TimeLockNotExpired,
    NotAContributor,
    AlreadySigned,
    InsufficientSignatures,
    AlreadyAContributor,
    InsufficientFunds,
    Overflow,
    Unauthorized,
    TooManyContributors,
    TooManySignatures,
}

/// The length of a string in UTF-8 bytes.
pub open spec fn byte_len(s: Seq<char>) -> nat {
    vstd::utf8::encode_utf8(s).len()
}

/// A time-locked, multi-signature savings pot.
pub struct PotAccount {
    /// Creator of the pot; the only party that may add contributors or release.
    pub authority: Identity,
    /// The account that holds the pot's funds.
    pub vault: Identity,
    pub name: String,
    pub description: String,
    /// Savings goal; informational only.
    pub target_amount: u64,
    /// Sum of all contributions so far.
    pub total_contributed: u64,
    /// Earliest time at which approvals and release are allowed.
    pub unlock_timestamp: i64,
    /// Number of distinct approvals needed for release.
    pub signers_required: u8,
    /// Contributors that approved release, in the order they signed.
    pub signatures: Vec<Identity>,
    /// Identities allowed to approve release, in the order they joined.
    pub contributors: Vec<Identity>,
    pub is_released: bool,
    pub released_at: Option<i64>,
    pub recipient: Option<Identity>,
    pub created_at: i64,
    pub bump: u8,
    pub vault_bump: u8,
}

/// One contributor's running record within one pot.
#[derive(Clone, Copy, Debug)]
pub struct ContributorAccount {
    pub pot: Identity,
    pub contributor: Identity,
    /// Sum of this contributor's contributions.
    pub total_contributed: u64,
    /// Number of contributions made.
    pub contribution_count: u32,
    pub last_contribution_at: i64,
    pub joined_at: i64,
    pub bump: u8,
}

impl PotAccount {
    /// The record's invariant: bounded metadata, a positive quorum, bounded
    /// duplicate-free member lists with every signer a contributor and the
    /// authority among the contributors, and a consistent release latch.
    pub open spec fn wf(&self) -> bool {
        &&& byte_len(self.name@) <= NAME_MAX_BYTES
        &&& byte_len(self.description@) <= DESCRIPTION_MAX_BYTES
        &&& self.target_amount > 0
        &&& self.signers_required > 0
        &&& self.signatures@.len() <= MAX_SIGNATURES
        &&& self.contributors@.len() <= MAX_CONTRIBUTORS
        &&& self.signatures@.no_duplicates()
        &&& self.contributors@.no_duplicates()
        &&& forall|i: int|
            0 <= i < self.signatures@.len() ==> self.contributors@.contains(
                #[trigger] self.signatures@[i],
            )
        &&& self.contributors@.contains(self.authority)
        &&& self.is_released == self.released_at.is_some()
        &&& self.is_released == self.recipient.is_some()
    }

    /// Every field but the two member lists and the running total is the same in
    /// `self` and `other`.
    pub open spec fn same_settings(&self, other: &PotAccount) -> bool {
        &&& self.authority == other.authority
        &&& self.vault == other.vault
        &&& self.name@ == other.name@
        &&& self.description@ == other.description@
        &&& self.target_amount == other.target_amount
        &&& self.unlock_timestamp == other.unlock_timestamp
        &&& self.signers_required == other.signers_required
        &&& self.is_released == other.is_released
        &&& self.released_at == other.released_at
        &&& self.recipient == other.recipient
        &&& self.created_at == other.created_at
        &&& self.bump == other.bump
        &&& self.vault_bump == other.vault_bump
    }

    /// `self` and `other` agree on every field.
    pub open spec fn same_as(&self, other: &PotAccount) -> bool {
        &&& self.same_settings(other)
        &&& self.total_contributed == other.total_contributed
        &&& self.signatures@ == other.signatures@
        &&& self.contributors@ == other.contributors@
    }

    /// How a pot may change in one operation: its total never decreases, and a
    /// released pot does not change at all.
    pub open spec fn evolves_to(&self, after: &PotAccount) -> bool {
        &&& after.total_contributed >= self.total_contributed
        &&& self.is_released ==> after.same_as(self)
    }

    /// Whether enough distinct contributors have approved release.
    pub open spec fn has_quorum(&self) -> bool {
        self.signatures@.len() >= self.signers_required
    }

    /// Whether the time lock has expired at time `now`.
    pub open spec fn is_unlocked(&self, now: i64) -> bool {
        now >= self.unlock_timestamp
    }

    /// Checks the record's invariant, as for a record read back from storage.
    pub fn is_well_formed(&self) -> (r: bool)
        requires
            byte_len(self.name@) <= usize::MAX,
            byte_len(self.description@) <= usize::MAX,
        ensures
            r == self.wf(),
    {
        self.name.as_str().len() <= NAME_MAX_BYTES && self.description.as_str().len()
            <= DESCRIPTION_MAX_BYTES && self.target_amount > 0 && self.signers_required > 0
            && self.signatures.len() <= MAX_SIGNATURES && self.contributors.len()
            <= MAX_CONTRIBUTORS && all_distinct(&self.signatures) && all_distinct(
            &self.contributors,
        ) && all_contained(&self.signatures, &self.contributors) && contains_key(
            &self.contributors,
            &self.authority,
        ) && self.is_released == self.released_at.is_some() && self.is_released
            == self.recipient.is_some()
    }

    /// Whether `who` may approve release.
    pub fn is_contributor(&self, who: &Identity) -> (r: bool)
        ensures
            r == self.contributors@.contains(*who),
    {
        contains_key(&self.contributors, who)
    }

    /// Whether `who` has approved release.
    pub fn has_signed(&self, who: &Identity) -> (r: bool)
        ensures
            r == self.signatures@.contains(*who),
    {
        contains_key(&self.signatures, who)
    }

    /// Number of approvals collected so far.
    pub fn signature_count(&self) -> (r: usize)
        ensures
            r == self.signatures@.len(),
    {
        self.signatures.len()
    }
}

} // verus!
