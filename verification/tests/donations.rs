use yield_vault::address::Address;
use yield_vault::donations::{YieldVault, BPS_DENOMINATOR, MIN_DONATION_AMOUNT};
use yield_vault::entries::{DonationKey, Entries, StoredValue};
use yield_vault::error::VaultError;
use yield_vault::ledger::{Action, Event, Ledger};

const ADMIN_OK: Result<(), VaultError> = Ok(());

/// The contract address numbered `n`.
fn address(n: u8) -> Address {
    let mut strkey = [b'A'; 56];
    strkey[0] = b'C';
    strkey[55] = n;
    Address { strkey }
}

fn donor(ledger: &mut Ledger, bps: i128) -> (Address, Address) {
    let user = address(10);
    let charity = address(11);
    assert_eq!(YieldVault::set_charity_whitelist(ledger, ADMIN_OK, charity, true), Ok(()));
    assert_eq!(YieldVault::set_donation_split(ledger, user, bps, charity), Ok(()));
    (user, charity)
}

#[test]
fn constants() {
    assert_eq!(BPS_DENOMINATOR, 10_000);
    assert_eq!(MIN_DONATION_AMOUNT, 1_000_000);
}

#[test]
fn error_numbers() {
    assert_eq!(VaultError::ZeroAmount.code(), 3);
    assert_eq!(VaultError::InvalidDonationBps.code(), 2001);
    assert_eq!(VaultError::CharityNotWhitelisted.code(), 2002);
    assert_eq!(VaultError::DonationBelowMinimum.code(), 2007);
}

#[test]
fn a_new_ledger_is_empty() {
    let ledger = Ledger::new(address(1));
    assert_eq!(ledger.contract(), address(1));
    assert_eq!(ledger.actions().len(), 0);
    assert_eq!(YieldVault::get_donation_config(&ledger, address(10)), (0, None));
    assert_eq!(YieldVault::get_total_donated(&ledger), 0);
}

#[test]
fn addresses_differ_in_any_place() {
    let a = address(1);
    for i in 0..56 {
        let mut b = a;
        b.strkey[i] = b'z';
        assert!(a != b);
    }
    assert_eq!(a, address(1));
}

#[test]
fn entries_replace_and_keep() {
    let mut entries = Entries::new();
    let keys = [
        DonationKey::DonationBps(address(10)),
        DonationKey::DonationBps(address(11)),
        DonationKey::TotalDonated,
    ];
    for key in keys.iter() {
        assert_eq!(entries.get(key), None);
    }
    entries.set(keys[0], StoredValue::Amount(1));
    entries.set(keys[1], StoredValue::Amount(2));
    entries.set(keys[2], StoredValue::Amount(3));
    entries.set(keys[1], StoredValue::Amount(4));
    entries.set(DonationKey::DonationCharity(address(10)), StoredValue::Charity(address(12)));
    entries.set(DonationKey::WhitelistedCharity(address(10)), StoredValue::Flag(false));
    assert_eq!(entries.get(&keys[0]), Some(StoredValue::Amount(1)));
    assert_eq!(entries.get(&keys[1]), Some(StoredValue::Amount(4)));
    assert_eq!(entries.get(&keys[2]), Some(StoredValue::Amount(3)));
    assert_eq!(
        entries.get(&DonationKey::DonationCharity(address(10))),
        Some(StoredValue::Charity(address(12)))
    );
    assert_eq!(
        entries.get(&DonationKey::WhitelistedCharity(address(10))),
        Some(StoredValue::Flag(false))
    );
    assert_eq!(entries.get(&DonationKey::WhitelistedCharity(address(12))), None);
}

#[test]
fn split_is_read_back() {
    let mut ledger = Ledger::new(address(1));
    let (user, charity) = donor(&mut ledger, 2_500);
    assert_eq!(YieldVault::get_donation_config(&ledger, user), (2_500, Some(charity)));
    assert_eq!(YieldVault::get_donation_config(&ledger, charity), (0, None));
    assert_eq!(
        ledger.actions(),
        &vec![
            Action::Publish(Event::CharityReviewed { charity, approved: true }),
            Action::RequireAuth(user),
            Action::Publish(Event::SplitSet { user, bps: 2_500 }),
        ]
    );
}

#[test]
fn split_may_be_changed() {
    let mut ledger = Ledger::new(address(1));
    let (user, charity) = donor(&mut ledger, 2_500);
    let other = address(12);
    assert_eq!(YieldVault::set_charity_whitelist(&mut ledger, ADMIN_OK, other, true), Ok(()));
    assert_eq!(YieldVault::set_donation_split(&mut ledger, user, 10_000, other), Ok(()));
    assert_eq!(YieldVault::get_donation_config(&ledger, user), (10_000, Some(other)));
    assert!(charity != other);
}

#[test]
fn split_leaves_other_users_alone() {
    let mut ledger = Ledger::new(address(1));
    let (user, charity) = donor(&mut ledger, 2_500);
    let other = address(20);
    assert_eq!(YieldVault::set_donation_split(&mut ledger, other, 1, charity), Ok(()));
    assert_eq!(YieldVault::get_donation_config(&ledger, user), (2_500, Some(charity)));
    assert_eq!(YieldVault::get_donation_config(&ledger, other), (1, Some(charity)));
}

#[test]
fn split_beyond_the_whole_is_refused() {
    let mut ledger = Ledger::new(address(1));
    let (user, charity) = donor(&mut ledger, 10_000);
    for bps in [10_001, -1, i128::MAX, i128::MIN] {
        assert_eq!(
            YieldVault::set_donation_split(&mut ledger, user, bps, charity),
            Err(VaultError::InvalidDonationBps)
        );
    }
    // The amount is looked at before the charity is.
    assert_eq!(
        YieldVault::set_donation_split(&mut ledger, user, 10_001, address(99)),
        Err(VaultError::InvalidDonationBps)
    );
    assert_eq!(YieldVault::get_donation_config(&ledger, user), (10_000, Some(charity)));
    assert_eq!(ledger.actions().last(), Some(&Action::RequireAuth(user)));
}

#[test]
fn split_toward_an_unknown_charity_is_refused() {
    let mut ledger = Ledger::new(address(1));
    assert_eq!(
        YieldVault::set_donation_split(&mut ledger, address(10), 100, address(11)),
        Err(VaultError::CharityNotWhitelisted)
    );
    assert_eq!(YieldVault::get_donation_config(&ledger, address(10)), (0, None));
    assert_eq!(ledger.actions(), &vec![Action::RequireAuth(address(10))]);
}

#[test]
fn charity_that_was_struck_off_is_refused() {
    let mut ledger = Ledger::new(address(1));
    let (user, charity) = donor(&mut ledger, 2_000);
    assert_eq!(YieldVault::set_charity_whitelist(&mut ledger, ADMIN_OK, charity, false), Ok(()));
    assert_eq!(
        ledger.actions().last(),
        Some(&Action::Publish(Event::CharityReviewed { charity, approved: false }))
    );
    assert_eq!(
        YieldVault::set_donation_split(&mut ledger, user, 100, charity),
        Err(VaultError::CharityNotWhitelisted)
    );
    // The split that was there before stays in force.
    assert_eq!(YieldVault::get_donation_config(&ledger, user), (2_000, Some(charity)));
    assert_eq!(YieldVault::apply_donation(&mut ledger, &user, 1_000, &address(2)), 800);
}

#[test]
fn failed_admin_check_changes_nothing() {
    let mut ledger = Ledger::new(address(1));
    let charity = address(11);
    let refused: Result<(), &str> = Err("not the admin");
    assert_eq!(
        YieldVault::set_charity_whitelist(&mut ledger, refused, charity, true),
        Err("not the admin")
    );
    assert_eq!(ledger.get(&DonationKey::WhitelistedCharity(charity)), None);
    assert_eq!(ledger.actions().len(), 0);
}

#[test]
fn donation_is_sent_and_reported() {
    let mut ledger = Ledger::new(address(1));
    let (user, charity) = donor(&mut ledger, 1_000);
    let asked = ledger.actions().len();
    let net = YieldVault::apply_donation(&mut ledger, &user, 100_000_009, &address(2));
    assert_eq!(net, 90_000_009);
    assert_eq!(YieldVault::get_total_donated(&ledger), 10_000_000);
    assert_eq!(
        ledger.actions()[asked..],
        vec![
            Action::Transfer {
                token: address(2),
                from: address(1),
                to: charity,
                amount: 10_000_000
            },
            Action::Publish(Event::Donated { user, charity, donation: 10_000_000 }),
        ]
    );
    assert_eq!(YieldVault::get_donation_config(&ledger, user), (1_000, Some(charity)));
}

#[test]
fn yield_is_conserved() {
    for bps in [0, 1, 3, 333, 5_000, 9_999, 10_000] {
        for yield_amount in [1, 7, 9_999, 10_000, 10_001, 123_456_789_012_345] {
            let mut ledger = Ledger::new(address(1));
            let (user, _) = donor(&mut ledger, bps);
            let net = YieldVault::apply_donation(&mut ledger, &user, yield_amount, &address(2));
            let donated = YieldVault::get_total_donated(&ledger);
            assert_eq!(net + donated, yield_amount);
            assert!(net >= 0);
            assert!(donated >= 0);
        }
    }
}

#[test]
fn whole_yield_may_be_donated() {
    let mut ledger = Ledger::new(address(1));
    let (user, _) = donor(&mut ledger, 10_000);
    assert_eq!(YieldVault::apply_donation(&mut ledger, &user, 77, &address(2)), 0);
    assert_eq!(YieldVault::get_total_donated(&ledger), 77);
}

#[test]
fn no_yield_no_donation() {
    let mut ledger = Ledger::new(address(1));
    let (user, _) = donor(&mut ledger, 10_000);
    let asked = ledger.actions().len();
    for yield_amount in [0, -1, i128::MIN] {
        let net = YieldVault::apply_donation(&mut ledger, &user, yield_amount, &address(2));
        assert_eq!(net, yield_amount);
    }
    assert_eq!(ledger.actions().len(), asked);
    assert_eq!(YieldVault::get_total_donated(&ledger), 0);
}

#[test]
fn split_of_nothing_turns_donations_off() {
    let mut ledger = Ledger::new(address(1));
    let (user, _) = donor(&mut ledger, 0);
    let asked = ledger.actions().len();
    assert_eq!(
        YieldVault::apply_donation(&mut ledger, &user, i128::MAX, &address(2)),
        i128::MAX
    );
    assert_eq!(ledger.actions().len(), asked);
}

#[test]
fn user_without_a_split_keeps_everything() {
    let mut ledger = Ledger::new(address(1));
    assert_eq!(YieldVault::apply_donation(&mut ledger, &address(10), 500, &address(2)), 500);
    assert_eq!(ledger.actions().len(), 0);
}

#[test]
fn donation_that_rounds_to_nothing_is_not_sent() {
    let mut ledger = Ledger::new(address(1));
    let (user, _) = donor(&mut ledger, 1);
    let asked = ledger.actions().len();
    assert_eq!(YieldVault::apply_donation(&mut ledger, &user, 9_999, &address(2)), 9_999);
    assert_eq!(ledger.actions().len(), asked);
    assert_eq!(ledger.get(&DonationKey::TotalDonated), None);
    assert_eq!(YieldVault::apply_donation(&mut ledger, &user, 10_000, &address(2)), 9_999);
    assert_eq!(YieldVault::get_total_donated(&ledger), 1);
}

#[test]
fn split_without_a_charity_is_skipped() {
    let mut ledger = Ledger::new(address(1));
    ledger.set(DonationKey::DonationBps(address(10)), StoredValue::Amount(5_000));
    assert_eq!(
        YieldVault::apply_donation(&mut ledger, &address(10), i128::MAX, &address(2)),
        i128::MAX
    );
    assert_eq!(ledger.actions().len(), 0);
}

#[test]
fn donation_beyond_the_yield_is_held_back() {
    let mut ledger = Ledger::new(address(1));
    let user = address(10);
    ledger.set(DonationKey::DonationBps(user), StoredValue::Amount(20_000));
    ledger.set(DonationKey::DonationCharity(user), StoredValue::Charity(address(11)));
    assert_eq!(YieldVault::apply_donation(&mut ledger, &user, 500, &address(2)), 500);
    assert_eq!(
        ledger.actions(),
        &vec![Action::Publish(Event::DonationRefused { user, donation: 1_000, yield_amount: 500 })]
    );
    assert_eq!(YieldVault::get_total_donated(&ledger), 0);
}

#[test]
fn total_adds_up_over_users() {
    let mut ledger = Ledger::new(address(1));
    let (user, charity) = donor(&mut ledger, 1_000);
    let other = address(20);
    assert_eq!(YieldVault::set_donation_split(&mut ledger, other, 5_000, charity), Ok(()));
    assert_eq!(YieldVault::apply_donation(&mut ledger, &user, 1_000, &address(2)), 900);
    assert_eq!(YieldVault::apply_donation(&mut ledger, &other, 1_000, &address(3)), 500);
    assert_eq!(YieldVault::apply_donation(&mut ledger, &user, 2_000, &address(2)), 1_800);
    assert_eq!(YieldVault::get_total_donated(&ledger), 800);
    let sent: i128 = ledger
        .actions()
        .iter()
        .map(|action| match action {
            Action::Transfer { amount, .. } => *amount,
            _ => 0,
        })
        .sum();
    assert_eq!(sent, 800);
}

#[test]
fn total_stops_at_the_largest_number() {
    let mut ledger = Ledger::new(address(1));
    let (user, _) = donor(&mut ledger, 10_000);
    ledger.set(DonationKey::TotalDonated, StoredValue::Amount(i128::MAX - 5));
    assert_eq!(YieldVault::apply_donation(&mut ledger, &user, 5, &address(2)), 0);
    assert_eq!(YieldVault::get_total_donated(&ledger), i128::MAX);
    assert_eq!(YieldVault::apply_donation(&mut ledger, &user, 6, &address(2)), 0);
    assert_eq!(YieldVault::get_total_donated(&ledger), i128::MAX);
}

#[test]
fn event_topics() {
    let user = address(10);
    let charity = address(11);
    assert_eq!(Event::SplitSet { user, bps: 1 }.topic(), "don_set");
    assert_eq!(Event::CharityReviewed { charity, approved: true }.topic(), "charity");
    assert_eq!(
        Event::DonationRefused { user, donation: 2, yield_amount: 1 }.topic(),
        "don_err"
    );
    assert_eq!(Event::Donated { user, charity, donation: 1 }.topic(), "donated");
}

#[test]
fn asked_actions_come_in_order() {
    let mut ledger = Ledger::new(address(1));
    ledger.ask(Action::RequireAuth(address(3)));
    ledger.ask(Action::RequireAuth(address(2)));
    assert_eq!(
        ledger.actions(),
        &vec![Action::RequireAuth(address(3)), Action::RequireAuth(address(2))]
    );
}
