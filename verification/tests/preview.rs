use yield_vault::address::Address;
use yield_vault::donations::{YieldVault, MIN_DONATION_AMOUNT};
use yield_vault::entries::{DonationKey, StoredValue};
use yield_vault::error::VaultError;
use yield_vault::ledger::Ledger;

/// The contract address numbered `n`.
fn address(n: u8) -> Address {
    let mut strkey = [b'A'; 56];
    strkey[0] = b'C';
    strkey[55] = n;
    Address { strkey }
}

fn setup() -> Ledger {
    Ledger::new(address(1))
}

/// Registers a user with a split of `bps` toward an approved charity.
fn setup_donor(ledger: &mut Ledger, bps: i128) -> Address {
    let user = address(10);
    let charity = address(11);
    let admin_check: Result<(), VaultError> = Ok(());
    assert_eq!(YieldVault::set_charity_whitelist(ledger, admin_check, charity, true), Ok(()));
    assert_eq!(YieldVault::set_donation_split(ledger, user, bps, charity), Ok(()));
    user
}

/// The donation, or a panic that names the error by its number.
fn preview(ledger: &Ledger, user: Address, yield_amount: i128) -> i128 {
    match YieldVault::preview_donation(ledger, user, yield_amount) {
        Ok(donation) => donation,
        Err(error) => panic!("Error(Contract, #{})", error.code()),
    }
}

#[test]
#[should_panic(expected = "Error(Contract, #3)")]
fn test_preview_donation_zero_yield_panics() {
    let mut ledger = setup();
    let user = setup_donor(&mut ledger, 1_000);
    preview(&ledger, user, 0);
}

#[test]
#[should_panic(expected = "Error(Contract, #3)")]
fn test_preview_donation_negative_yield_panics() {
    let mut ledger = setup();
    let user = setup_donor(&mut ledger, 1_000);
    preview(&ledger, user, -100);
}

#[test]
#[should_panic(expected = "Error(Contract, #2007)")]
fn test_preview_donation_without_config_panics() {
    let ledger = setup();
    let user = address(10);
    preview(&ledger, user, 100_000_000);
}

#[test]
#[should_panic(expected = "Error(Contract, #2007)")]
fn test_preview_donation_disabled_split_panics() {
    let mut ledger = setup();
    let user = setup_donor(&mut ledger, 0);
    preview(&ledger, user, 100_000_000);
}

#[test]
#[should_panic(expected = "Error(Contract, #2007)")]
fn test_preview_donation_rounds_to_zero_panics() {
    // One basis point of a tiny yield rounds down to nothing.
    let mut ledger = setup();
    let user = setup_donor(&mut ledger, 1);
    preview(&ledger, user, 5_000);
}

#[test]
#[should_panic(expected = "Error(Contract, #2007)")]
fn test_preview_donation_below_minimum_panics() {
    // 10 % of 1_000_000 stroops are 100_000 stroops.
    let mut ledger = setup();
    let user = setup_donor(&mut ledger, 1_000);
    preview(&ledger, user, 1_000_000);
}

#[test]
fn test_preview_donation_at_minimum_boundary() {
    // 100 % of the minimum is the minimum.
    let mut ledger = setup();
    let user = setup_donor(&mut ledger, 10_000);
    let donation = preview(&ledger, user, MIN_DONATION_AMOUNT);
    assert_eq!(donation, MIN_DONATION_AMOUNT);
}

#[test]
fn test_preview_donation_valid() {
    // 10 % of 100_000_000 stroops are 10_000_000 stroops.
    let mut ledger = setup();
    let user = setup_donor(&mut ledger, 1_000);
    let donation = preview(&ledger, user, 100_000_000);
    assert_eq!(donation, 10_000_000);
}

#[test]
fn test_preview_donation_is_read_only() {
    let mut ledger = setup();
    let user = setup_donor(&mut ledger, 1_000);
    let actions = ledger.actions().clone();
    let _ = preview(&ledger, user, 100_000_000);
    assert_eq!(YieldVault::get_total_donated(&ledger), 0);
    assert_eq!(ledger.actions(), &actions);
}

#[test]
fn preview_just_below_the_minimum_is_refused() {
    let mut ledger = setup();
    let user = setup_donor(&mut ledger, 10_000);
    assert_eq!(
        YieldVault::preview_donation(&ledger, user, MIN_DONATION_AMOUNT - 1),
        Err(VaultError::DonationBelowMinimum)
    );
}

#[test]
fn preview_of_a_negative_stored_split_is_refused() {
    let mut ledger = setup();
    let user = address(10);
    ledger.set(DonationKey::DonationBps(user), StoredValue::Amount(-5));
    assert_eq!(
        YieldVault::preview_donation(&ledger, user, 100_000_000),
        Err(VaultError::DonationBelowMinimum)
    );
}

#[test]
fn preview_needs_no_charity() {
    let mut ledger = setup();
    let user = address(10);
    ledger.set(DonationKey::DonationBps(user), StoredValue::Amount(2_500));
    assert_eq!(YieldVault::preview_donation(&ledger, user, 8_000_003), Ok(2_000_000));
}

#[test]
fn preview_tells_what_is_sent() {
    let mut ledger = setup();
    let user = setup_donor(&mut ledger, 333);
    let yield_amount = 98_765_432_123;
    let donation = preview(&ledger, user, yield_amount);
    assert_eq!(donation, 3_288_888_889);
    let net = YieldVault::apply_donation(&mut ledger, &user, yield_amount, &address(2));
    assert_eq!(net + donation, yield_amount);
    assert_eq!(YieldVault::get_total_donated(&ledger), donation);
}
