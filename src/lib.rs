mod identity;
mod laws;
mod pot;
mod contract;

pub use contract::{
    add_contributor, add_contributor_error, contribute, contribute_error, contribute_post, create_pot,
    create_pot_error, credited_ledger, ledger_count, ledger_total, release_funds,
    release_funds_error, sign_release, sign_release_error, unlock_time, with_member,
    AddContributor, Contribute, CreatePot, ReleaseFunds, SignRelease,
};
pub use identity::{all_contained, all_distinct, contains_key, Identity};
pub use laws::{
    is_history, ledgers_total, lemma_contribution_keeps_ledger_sum, lemma_ledgers_total_update,
    lemma_release_gates, lemma_released_pot_is_frozen, lemma_released_pot_rejects_all,
    lemma_total_never_decreases,
};
pub use pot::{
    byte_len, ContributorAccount, ErrorCode, PotAccount, DESCRIPTION_MAX_BYTES, MAX_CONTRIBUTORS,
    MAX_SIGNATURES, NAME_MAX_BYTES, SECONDS_PER_DAY,
};
