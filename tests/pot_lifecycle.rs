use cause_pots::{
    all_contained, all_distinct, contains_key,
    add_contributor, contribute, create_pot, release_funds, sign_release, AddContributor,
    Contribute, ContributorAccount, CreatePot, ErrorCode, Identity, PotAccount, ReleaseFunds,
    SignRelease,
};

const DAY: i64 = 86400;
const START: i64 = 1_700_000_000;

fn id(b: u8) -> Identity {
    Identity::new([b; 32])
}

fn creator() -> Identity {
    id(1)
}

fn pot_key() -> Identity {
    id(200)
}

fn new_pot(unlock_days: i64, signers_required: u8) -> PotAccount {
    let ctx = CreatePot {
        authority: creator(),
        pot_vault: id(100),
        now: START,
        bump: 254,
        vault_bump: 253,
    };
    create_pot(
        &ctx,
        "Holiday".to_string(),
        "Saving for the trip".to_string(),
        1_000,
        unlock_days,
        signers_required,
    )
    .unwrap()
}

fn give(
    pot: &mut PotAccount,
    ledger: &mut Option<ContributorAccount>,
    who: Identity,
    amount: u64,
    now: i64,
) -> Result<(), ErrorCode> {
    let ctx = Contribute {
        pot_key: pot_key(),
        contributor: who,
        now,
        bump: 7,
    };
    contribute(pot, ledger, &ctx, amount)
}

fn sign(pot: &mut PotAccount, who: Identity, now: i64) -> Result<(), ErrorCode> {
    sign_release(pot, &SignRelease { signer: who, now })
}

fn release(
    pot: &mut PotAccount,
    caller: Identity,
    balance: u64,
    now: i64,
    to: Identity,
) -> Result<u64, ErrorCode> {
    let ctx = ReleaseFunds {
        authority: caller,
        vault_balance: balance,
        now,
    };
    release_funds(pot, &ctx, to)
}

#[test]
fn create_pot_sets_initial_state() {
    let pot = new_pot(30, 2);
    assert!(pot.authority == creator());
    assert!(pot.vault == id(100));
    assert_eq!(pot.name, "Holiday");
    assert_eq!(pot.description, "Saving for the trip");
    assert_eq!(pot.target_amount, 1_000);
    assert_eq!(pot.total_contributed, 0);
    assert_eq!(pot.unlock_timestamp, START + 30 * DAY);
    assert_eq!(pot.signers_required, 2);
    assert!(pot.signatures.is_empty());
    assert_eq!(pot.contributors.len(), 1);
    assert!(pot.contributors[0] == creator());
    assert!(!pot.is_released);
    assert_eq!(pot.released_at, None);
    assert!(pot.recipient.is_none());
    assert_eq!(pot.created_at, START);
    assert_eq!(pot.bump, 254);
    assert_eq!(pot.vault_bump, 253);
}

#[test]
fn create_pot_negative_days_backdates_unlock() {
    let pot = new_pot(-2, 1);
    assert_eq!(pot.unlock_timestamp, START - 2 * DAY);
}

fn try_create(name: &str, description: &str, target: u64, days: i64, signers: u8, now: i64) -> Result<PotAccount, ErrorCode> {
    let ctx = CreatePot {
        authority: creator(),
        pot_vault: id(100),
        now,
        bump: 1,
        vault_bump: 2,
    };
    create_pot(&ctx, name.to_string(), description.to_string(), target, days, signers)
}

#[test]
fn create_pot_rejects_bad_inputs() {
    let long_name = "n".repeat(33);
    let long_description = "d".repeat(201);
    assert_eq!(try_create(&long_name, "", 1, 0, 1, START).err(), Some(ErrorCode::NameTooLong));
    assert_eq!(
        try_create("a", &long_description, 1, 0, 1, START).err(),
        Some(ErrorCode::DescriptionTooLong)
    );
    assert_eq!(try_create("a", "", 0, 0, 1, START).err(), Some(ErrorCode::InvalidTargetAmount));
    assert_eq!(try_create("a", "", 1, 0, 0, START).err(), Some(ErrorCode::InvalidSignersRequired));
    assert_eq!(try_create("a", "", 1, i64::MAX / DAY + 1, 1, 0).err(), Some(ErrorCode::Overflow));
}

#[test]
fn create_pot_accepts_limits() {
    let name = "n".repeat(32);
    let description = "d".repeat(200);
    let pot = try_create(&name, &description, 1, 0, 1, START).unwrap();
    assert_eq!(pot.name.len(), 32);
    assert_eq!(pot.description.len(), 200);
}

#[test]
fn create_pot_counts_name_in_bytes() {
    // sixteen two-byte characters fill the name exactly
    let fits = "é".repeat(16);
    assert!(try_create(&fits, "", 1, 0, 1, START).is_ok());
    let too_long = "é".repeat(17);
    assert_eq!(try_create(&too_long, "", 1, 0, 1, START).err(), Some(ErrorCode::NameTooLong));
}

#[test]
fn two_contributors_release_whole_vault() {
    let mut pot = new_pot(0, 2);
    let (a, b, out) = (id(2), id(3), id(9));
    let mut la = None;
    let mut lb = None;
    give(&mut pot, &mut la, a, 100, START).unwrap();
    give(&mut pot, &mut lb, b, 100, START).unwrap();
    sign(&mut pot, a, START).unwrap();
    sign(&mut pot, b, START).unwrap();
    assert_eq!(release(&mut pot, creator(), 200, START + 5, out), Ok(200));
    assert_eq!(pot.total_contributed, 200);
    assert!(pot.is_released);
    assert_eq!(pot.released_at, Some(START + 5));
    assert!(pot.recipient == Some(out));
}

#[test]
fn outsider_signs_after_enrolment() {
    let mut pot = new_pot(0, 1);
    let outsider = id(4);
    assert_eq!(sign(&mut pot, outsider, START), Err(ErrorCode::NotAContributor));
    assert!(pot.signatures.is_empty());
    add_contributor(&mut pot, &AddContributor { authority: creator() }, outsider).unwrap();
    assert_eq!(sign(&mut pot, outsider, START + 1), Ok(()));
    assert_eq!(pot.signatures.len(), 1);
    assert!(pot.signatures[0] == outsider);
}

#[test]
fn zero_contribution_rejected() {
    let mut pot = new_pot(0, 1);
    let mut ledger = None;
    give(&mut pot, &mut ledger, id(2), 50, START).unwrap();
    assert_eq!(give(&mut pot, &mut ledger, id(2), 0, START + 1), Err(ErrorCode::InvalidAmount));
    assert_eq!(pot.total_contributed, 50);
    let l = ledger.unwrap();
    assert_eq!(l.total_contributed, 50);
    assert_eq!(l.contribution_count, 1);
    assert_eq!(l.last_contribution_at, START);
    let mut fresh = None;
    assert_eq!(give(&mut pot, &mut fresh, id(3), 0, START), Err(ErrorCode::InvalidAmount));
    assert!(fresh.is_none());
    assert_eq!(pot.contributors.len(), 2);
}

#[test]
fn sign_before_unlock_fails() {
    let mut pot = new_pot(1, 1);
    let a = id(2);
    let mut la = None;
    give(&mut pot, &mut la, a, 10, START).unwrap();
    assert_eq!(sign(&mut pot, a, START + DAY - 1), Err(ErrorCode::TimeLockNotExpired));
    assert_eq!(sign(&mut pot, creator(), START), Err(ErrorCode::TimeLockNotExpired));
    assert!(pot.signatures.is_empty());
    assert_eq!(sign(&mut pot, a, START + DAY), Ok(()));
}

#[test]
fn repeat_contributor_keeps_one_record() {
    let mut pot = new_pot(0, 1);
    let a = id(2);
    let mut ledger = None;
    give(&mut pot, &mut ledger, a, 30, START).unwrap();
    give(&mut pot, &mut ledger, a, 45, START + 60).unwrap();
    let l = ledger.unwrap();
    assert_eq!(l.contribution_count, 2);
    assert_eq!(l.total_contributed, 75);
    assert!(l.pot == pot_key());
    assert!(l.contributor == a);
    assert_eq!(l.joined_at, START);
    assert_eq!(l.last_contribution_at, START + 60);
    assert_eq!(l.bump, 7);
    assert_eq!(pot.total_contributed, 75);
    assert_eq!(pot.contributors.len(), 2);
}

#[test]
fn ledger_totals_sum_to_pot_total() {
    let mut pot = new_pot(0, 1);
    let mut ledgers: Vec<Option<ContributorAccount>> = vec![None, None, None];
    let plan: [(usize, u64); 5] = [(0, 5), (1, 7), (0, 11), (2, 13), (1, 0)];
    for (slot, amount) in plan {
        let _ = give(&mut pot, &mut ledgers[slot], id(10 + slot as u8), amount, START);
        let sum: u64 = ledgers.iter().map(|l| l.map_or(0, |a| a.total_contributed)).sum();
        assert_eq!(sum, pot.total_contributed);
    }
    assert_eq!(pot.total_contributed, 36);
}

#[test]
fn total_never_decreases_over_operations() {
    let mut pot = new_pot(0, 1);
    let mut ledger = None;
    let mut last = pot.total_contributed;
    give(&mut pot, &mut ledger, id(2), 8, START).unwrap();
    assert!(pot.total_contributed >= last);
    last = pot.total_contributed;
    sign(&mut pot, id(2), START).unwrap();
    assert!(pot.total_contributed >= last);
    last = pot.total_contributed;
    add_contributor(&mut pot, &AddContributor { authority: creator() }, id(3)).unwrap();
    assert!(pot.total_contributed >= last);
    last = pot.total_contributed;
    release(&mut pot, creator(), 8, START, id(9)).unwrap();
    assert_eq!(pot.total_contributed, last);
}

#[test]
fn released_pot_rejects_everything() {
    let mut pot = new_pot(0, 1);
    let mut ledger = None;
    give(&mut pot, &mut ledger, id(2), 8, START).unwrap();
    sign(&mut pot, id(2), START).unwrap();
    release(&mut pot, creator(), 8, START, id(9)).unwrap();
    let before_total = pot.total_contributed;
    let before_contributors = pot.contributors.clone();
    let before_signatures = pot.signatures.clone();
    assert_eq!(give(&mut pot, &mut ledger, id(2), 8, START), Err(ErrorCode::PotAlreadyReleased));
    assert_eq!(sign(&mut pot, creator(), START), Err(ErrorCode::PotAlreadyReleased));
    assert_eq!(release(&mut pot, creator(), 8, START, id(5)), Err(ErrorCode::PotAlreadyReleased));
    assert_eq!(
        add_contributor(&mut pot, &AddContributor { authority: creator() }, id(6)),
        Err(ErrorCode::PotAlreadyReleased)
    );
    assert_eq!(pot.total_contributed, before_total);
    assert!(pot.contributors == before_contributors);
    assert!(pot.signatures == before_signatures);
    assert!(pot.recipient == Some(id(9)));
    assert_eq!(ledger.unwrap().total_contributed, 8);
    assert_eq!(ledger.unwrap().contribution_count, 1);
}

#[test]
fn release_gates_each_fail_with_their_error() {
    let mut pot = new_pot(1, 2);
    let mut ledger = None;
    give(&mut pot, &mut ledger, id(2), 8, START).unwrap();
    let unlocked = START + DAY;
    assert_eq!(release(&mut pot, creator(), 8, START, id(9)), Err(ErrorCode::TimeLockNotExpired));
    sign(&mut pot, creator(), unlocked).unwrap();
    assert_eq!(release(&mut pot, creator(), 8, unlocked, id(9)), Err(ErrorCode::InsufficientSignatures));
    sign(&mut pot, id(2), unlocked).unwrap();
    assert_eq!(release(&mut pot, creator(), 0, unlocked, id(9)), Err(ErrorCode::InsufficientFunds));
    assert_eq!(release(&mut pot, id(2), 8, unlocked, id(9)), Err(ErrorCode::Unauthorized));
    assert!(!pot.is_released);
    assert_eq!(pot.released_at, None);
    assert_eq!(release(&mut pot, creator(), 500, unlocked, id(9)), Ok(500));
}

#[test]
fn sign_twice_fails() {
    let mut pot = new_pot(0, 1);
    sign(&mut pot, creator(), START).unwrap();
    assert_eq!(sign(&mut pot, creator(), START), Err(ErrorCode::AlreadySigned));
    assert_eq!(pot.signatures.len(), 1);
}

#[test]
fn add_contributor_errors() {
    let mut pot = new_pot(0, 1);
    assert_eq!(
        add_contributor(&mut pot, &AddContributor { authority: id(2) }, id(3)),
        Err(ErrorCode::Unauthorized)
    );
    assert_eq!(
        add_contributor(&mut pot, &AddContributor { authority: creator() }, creator()),
        Err(ErrorCode::AlreadyAContributor)
    );
    for b in 2..21u8 {
        add_contributor(&mut pot, &AddContributor { authority: creator() }, id(b)).unwrap();
    }
    assert_eq!(pot.contributors.len(), 20);
    assert_eq!(
        add_contributor(&mut pot, &AddContributor { authority: creator() }, id(21)),
        Err(ErrorCode::TooManyContributors)
    );
    let mut ledger = None;
    assert_eq!(give(&mut pot, &mut ledger, id(22), 5, START), Err(ErrorCode::TooManyContributors));
    assert_eq!(pot.total_contributed, 0);
    assert!(ledger.is_none());
    // an existing member may still contribute when the list is full
    assert_eq!(give(&mut pot, &mut ledger, id(20), 5, START), Ok(()));
}

#[test]
fn signatures_capped() {
    let mut pot = new_pot(0, 1);
    for b in 2..12u8 {
        add_contributor(&mut pot, &AddContributor { authority: creator() }, id(b)).unwrap();
    }
    for b in 2..12u8 {
        sign(&mut pot, id(b), START).unwrap();
    }
    assert_eq!(pot.signatures.len(), 10);
    assert_eq!(sign(&mut pot, creator(), START), Err(ErrorCode::TooManySignatures));
    assert_eq!(pot.signatures.len(), 10);
}

#[test]
fn contribute_overflow_changes_nothing() {
    let mut pot = new_pot(0, 1);
    let mut la = None;
    give(&mut pot, &mut la, id(2), u64::MAX - 1, START).unwrap();
    let mut lb = None;
    assert_eq!(give(&mut pot, &mut lb, id(3), 2, START), Err(ErrorCode::Overflow));
    assert_eq!(pot.total_contributed, u64::MAX - 1);
    assert_eq!(pot.contributors.len(), 2);
    assert!(lb.is_none());
    assert_eq!(give(&mut pot, &mut lb, id(3), 1, START), Ok(()));
    assert_eq!(pot.total_contributed, u64::MAX);
}

#[test]
fn contribute_ledger_overflow() {
    let mut pot = new_pot(0, 1);
    let mut ledger = Some(ContributorAccount {
        pot: pot_key(),
        contributor: id(2),
        total_contributed: u64::MAX,
        contribution_count: 3,
        last_contribution_at: START,
        joined_at: START,
        bump: 7,
    });
    assert_eq!(give(&mut pot, &mut ledger, id(2), 1, START), Err(ErrorCode::Overflow));
    assert_eq!(pot.total_contributed, 0);
    let mut counted = Some(ContributorAccount {
        pot: pot_key(),
        contributor: id(3),
        total_contributed: 0,
        contribution_count: u32::MAX,
        last_contribution_at: START,
        joined_at: START,
        bump: 7,
    });
    assert_eq!(give(&mut pot, &mut counted, id(3), 1, START), Err(ErrorCode::Overflow));
    assert_eq!(counted.unwrap().contribution_count, u32::MAX);
}

#[test]
fn self_enrolling_contribution() {
    let mut pot = new_pot(0, 1);
    let mut ledger = None;
    give(&mut pot, &mut ledger, id(5), 1, START).unwrap();
    assert!(pot.is_contributor(&id(5)));
    assert!(!pot.has_signed(&id(5)));
    sign(&mut pot, id(5), START).unwrap();
    assert!(pot.has_signed(&id(5)));
    assert_eq!(pot.signature_count(), 1);
}

#[test]
fn fresh_pot_is_well_formed() {
    let pot = new_pot(3, 2);
    assert!(pot.is_well_formed());
}

#[test]
fn corrupt_records_are_detected() {
    let mut dup = new_pot(0, 1);
    dup.contributors.push(creator());
    assert!(!dup.is_well_formed());

    let mut stranger_signed = new_pot(0, 1);
    stranger_signed.signatures.push(id(8));
    assert!(!stranger_signed.is_well_formed());

    let mut half_released = new_pot(0, 1);
    half_released.is_released = true;
    assert!(!half_released.is_well_formed());

    let mut no_quorum = new_pot(0, 1);
    no_quorum.signers_required = 0;
    assert!(!no_quorum.is_well_formed());

    let mut orphan = new_pot(0, 1);
    orphan.contributors = vec![id(2)];
    assert!(!orphan.is_well_formed());
}

#[test]
fn distinct_and_contained_lists() {
    let a = vec![id(1), id(2), id(3)];
    assert!(all_distinct(&a));
    assert!(all_distinct(&Vec::new()));
    assert!(!all_distinct(&vec![id(1), id(2), id(1)]));
    assert!(all_contained(&vec![id(3), id(1)], &a));
    assert!(!all_contained(&vec![id(4)], &a));
    assert!(contains_key(&a, &id(2)));
    assert!(!contains_key(&a, &id(9)));
    let mut near = [2u8; 32];
    near[31] = 3;
    assert!(Identity::new(near) != id(2));
}
