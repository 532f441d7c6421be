//! # Yield donations
//!
//! A user configures a split: a share of their yield, in basis points, and an
//! approved charity. Whenever yield is paid out to the user, that share goes to
//! the charity first.
//!
//! - Donations come out of the yield, never out of the principal.
//! - The running total of all donations stops at the largest `i128` instead of
//!   overflowing.

use crate::address::Address;
use crate::entries::{DonationKey, StoredValue};
use crate::error::VaultError;
use crate::ledger::{Action, Event, Ledger, LedgerView};
use vstd::prelude::*;

verus! {

/// The number of basis points in the whole.
pub const BPS_DENOMINATOR: i128 = 10_000;

/// The smallest donation that is worth a transaction, in stroops:
/// 0.1 units of a token with seven decimals.
pub const MIN_DONATION_AMOUNT: i128 = 1_000_000;

/// The share of `yield_amount` that a split of `bps` basis points gives away,
/// rounded down.
pub open spec fn donation_amount(yield_amount: int, bps: int) -> int {
    yield_amount * bps / BPS_DENOMINATOR as int
}

/// What is left of `amount` when it may be at most the largest `i128`.
pub open spec fn saturated(amount: int) -> int {
    if amount > i128::MAX {
        i128::MAX as int
    } else {
        amount
    }
}

/// What the entries say.
impl LedgerView {
    /// The user's split in basis points, 0 where none is configured.
    pub open spec fn bps_of(self, user: Address) -> i128 {
        match self.entries.get(DonationKey::DonationBps(user)) {
            Some(StoredValue::Amount(bps)) => bps,
            _ => 0,
        }
    }

    /// The charity that the user has chosen.
    pub open spec fn charity_of(self, user: Address) -> Option<Address> {
        match self.entries.get(DonationKey::DonationCharity(user)) {
            Some(StoredValue::Charity(charity)) => Some(charity),
            _ => None,
        }
    }

    /// The charity is an approved one.
    pub open spec fn approves(self, charity: Address) -> bool {
        self.entries.get(DonationKey::WhitelistedCharity(charity)) == Some(StoredValue::Flag(true))
    }

    /// The total of all donations.
    pub open spec fn total(self) -> i128 {
        match self.entries.get(DonationKey::TotalDonated) {
            Some(StoredValue::Amount(total)) => total,
            _ => 0,
        }
    }
}

/// What the functions do.
impl LedgerView {
    /// Why a split is refused, if it is.
    pub open spec fn split_refusal(self, bps: i128, charity: Address) -> Option<VaultError> {
        if !(0 <= bps <= BPS_DENOMINATOR) {
            Some(VaultError::InvalidDonationBps)
        } else if !self.approves(charity) {
            Some(VaultError::CharityNotWhitelisted)
        } else {
            None
        }
    }

    /// The ledger after a user has asked for a split.
    pub open spec fn after_split(self, user: Address, bps: i128, charity: Address) -> LedgerView {
        let asked = self.actions.push(Action::RequireAuth(user));
        if self.split_refusal(bps, charity) is Some {
            LedgerView { actions: asked, ..self }
        } else {
            LedgerView {
                entries: self.entries.insert(
                    DonationKey::DonationBps(user),
                    StoredValue::Amount(bps),
                ).insert(DonationKey::DonationCharity(user), StoredValue::Charity(charity)),
                actions: asked.push(Action::Publish(Event::SplitSet { user, bps })),
                ..self
            }
        }
    }

    /// The ledger after the admin has approved a charity, or taken the approval
    /// back.
    pub open spec fn after_review(self, charity: Address, approved: bool) -> LedgerView {
        LedgerView {
            entries: self.entries.insert(
                DonationKey::WhitelistedCharity(charity),
                StoredValue::Flag(approved),
            ),
            actions: self.actions.push(
                Action::Publish(Event::CharityReviewed { charity, approved }),
            ),
            ..self
        }
    }

    /// The donation that a preview reports, or why there is none.
    pub open spec fn preview(self, user: Address, yield_amount: i128) -> Result<int, VaultError> {
        let donation = donation_amount(yield_amount as int, self.bps_of(user) as int);
        if yield_amount <= 0 {
            Err(VaultError::ZeroAmount)
        } else if donation < MIN_DONATION_AMOUNT {
            Err(VaultError::DonationBelowMinimum)
        } else {
            Ok(donation)
        }
    }

    /// The donation that the user's split asks of a yield: nothing of no yield,
    /// nothing without a split, and nothing without a charity.
    pub open spec fn donation_due(self, user: Address, yield_amount: i128) -> int {
        if yield_amount > 0 && self.bps_of(user) > 0 && self.charity_of(user) is Some {
            donation_amount(yield_amount as int, self.bps_of(user) as int)
        } else {
            0
        }
    }

    /// The part of a yield that goes to the user's charity. A donation that is
    /// larger than the yield is held back altogether.
    pub open spec fn donated(self, user: Address, yield_amount: i128) -> int {
        let due = self.donation_due(user, yield_amount);
        if due > yield_amount {
            0
        } else {
            due
        }
    }

    /// The part of a yield that is left for the user.
    pub open spec fn net(self, user: Address, yield_amount: i128) -> int {
        yield_amount - self.donated(user, yield_amount)
    }

    /// The ledger after a yield was paid out in the token `token`.
    pub open spec fn after_apply(
        self,
        user: Address,
        yield_amount: i128,
        token: Address,
    ) -> LedgerView {
        let due = self.donation_due(user, yield_amount);
        if due == 0 {
            self
        } else if due > yield_amount {
            LedgerView {
                actions: self.actions.push(
                    Action::Publish(
                        Event::DonationRefused { user, donation: due as i128, yield_amount },
                    ),
                ),
                ..self
            }
        } else {
            let charity = self.charity_of(user)->0;
            LedgerView {
                entries: self.entries.insert(
                    DonationKey::TotalDonated,
                    StoredValue::Amount(saturated(self.total() + due) as i128),
                ),
                actions: self.actions.push(
                    Action::Transfer {
                        token,
                        from: self.contract,
                        to: charity,
                        amount: due as i128,
                    },
                ).push(
                    Action::Publish(Event::Donated { user, charity, donation: due as i128 }),
                ),
                ..self
            }
        }
    }

    /// The user's split of this yield can be multiplied out in an `i128`.
    pub open spec fn preview_in_range(self, user: Address, yield_amount: i128) -> bool {
        yield_amount > 0 && self.bps_of(user) > 0 ==> yield_amount * self.bps_of(user) <= i128::MAX
    }

    /// The user's split of this yield, where there is one to carry out, can be
    /// multiplied out in an `i128`.
    pub open spec fn apply_in_range(self, user: Address, yield_amount: i128) -> bool {
        self.charity_of(user) is Some ==> self.preview_in_range(user, yield_amount)
    }
}

/// The vault contract.
pub struct YieldVault;

impl YieldVault {
    /// Configures the split for `user`, who has to authorise the call: `bps`
    /// basis points of each yield go to `charity`, which has to be an approved
    /// one. A split of 0 turns donations off.
    ///
    /// # Errors
    /// * `InvalidDonationBps`: `bps` is not between 0 and 10_000.
    /// * `CharityNotWhitelisted`: the charity is not approved.
    pub fn set_donation_split(
        ledger: &mut Ledger,
        user: Address,
        bps: i128,
        charity: Address,
    ) -> (res: Result<(), VaultError>)
        requires
            old(ledger).wf(),
        ensures
            final(ledger).wf(),
            final(ledger)@ == old(ledger)@.after_split(user, bps, charity),
            res == (match old(ledger)@.split_refusal(bps, charity) {
                Some(error) => Err(error),
                None => Ok(()),
            }),
    {
        ledger.ask(Action::RequireAuth(user));

        if bps < 0 || bps > BPS_DENOMINATOR {
            return Err(VaultError::InvalidDonationBps);
        }
        let is_whitelisted = match ledger.get(&DonationKey::WhitelistedCharity(charity)) {
            Some(StoredValue::Flag(approved)) => approved,
            _ => false,
        };
        if !is_whitelisted {
            return Err(VaultError::CharityNotWhitelisted);
        }
        ledger.set(DonationKey::DonationBps(user), StoredValue::Amount(bps));
        ledger.set(DonationKey::DonationCharity(user), StoredValue::Charity(charity));
        ledger.ask(Action::Publish(Event::SplitSet { user, bps }));
        Ok(())
    }

    /// Approves `charity` as a destination, or takes the approval back.
    ///
    /// Only the vault's admin may do so: `admin_check` is what the check of the
    /// caller came to. A failed check is handed back, and nothing changes.
    pub fn set_charity_whitelist<E>(
        ledger: &mut Ledger,
        admin_check: Result<(), E>,
        charity: Address,
        approved: bool,
    ) -> (res: Result<(), E>)
        requires
            old(ledger).wf(),
        ensures
            final(ledger).wf(),
            res == admin_check,
            final(ledger)@ == (if admin_check is Ok {
                old(ledger)@.after_review(charity, approved)
            } else {
                old(ledger)@
            }),
    {
        if admin_check.is_ok() {
            ledger.set(DonationKey::WhitelistedCharity(charity), StoredValue::Flag(approved));
            ledger.ask(Action::Publish(Event::CharityReviewed { charity, approved }));
        }
        admin_check
    }

    /// The split and the charity of `user`: `(0, None)` where none are
    /// configured.
    pub fn get_donation_config(ledger: &Ledger, user: Address) -> (res: (i128, Option<Address>))
        requires
            ledger.wf(),
        ensures
            res == (ledger@.bps_of(user), ledger@.charity_of(user)),
    {
        let bps: i128 = match ledger.get(&DonationKey::DonationBps(user)) {
            Some(StoredValue::Amount(bps)) => bps,
            _ => 0,
        };
        let charity = match ledger.get(&DonationKey::DonationCharity(user)) {
            Some(StoredValue::Charity(charity)) => Some(charity),
            _ => None,
        };
        (bps, charity)
    }

    /// The total of all donations.
    pub fn get_total_donated(ledger: &Ledger) -> (res: i128)
        requires
            ledger.wf(),
        ensures
            res == ledger@.total(),
    {
        match ledger.get(&DonationKey::TotalDonated) {
            Some(StoredValue::Amount(total)) => total,
            _ => 0,
        }
    }

    /// The donation that would go to the charity out of `yield_amount` at the
    /// user's split, in stroops. It tells a donation that is not worth a
    /// transaction before the transaction is sent.
    ///
    /// # Errors
    /// * `ZeroAmount`: there is no yield.
    /// * `DonationBelowMinimum`: the donation is nothing, or less than
    ///   `MIN_DONATION_AMOUNT`.
    pub fn preview_donation(ledger: &Ledger, user: Address, yield_amount: i128) -> (res: Result<
        i128,
        VaultError,
    >)
        requires
            ledger.wf(),
            ledger@.preview_in_range(user, yield_amount),
        ensures
            match res {
                Ok(donation) => ledger@.preview(user, yield_amount) == Ok::<int, VaultError>(
                    donation as int,
                ),
                Err(error) => ledger@.preview(user, yield_amount) == Err::<int, VaultError>(error),
            },
    {
        if yield_amount <= 0 {
            return Err(VaultError::ZeroAmount);
        }
        let bps: i128 = match ledger.get(&DonationKey::DonationBps(user)) {
            Some(StoredValue::Amount(bps)) => bps,
            _ => 0,
        };
        if bps <= 0 {
            assert(yield_amount * bps <= 0) by (nonlinear_arith)
                requires
                    yield_amount > 0,
                    bps <= 0,
            ;
            return Err(VaultError::DonationBelowMinimum);
        }
        assert(yield_amount * bps > 0) by (nonlinear_arith)
            requires
                yield_amount > 0,
                bps > 0,
        ;
        let donation: i128 = (yield_amount * bps) / BPS_DENOMINATOR;
        if donation < MIN_DONATION_AMOUNT {
            return Err(VaultError::DonationBelowMinimum);
        }
        Ok(donation)
    }

    /// Sends the donation out of `yield_amount` to the charity of `user`, in the
    /// token `token_id` and from the contract's own balance, and returns what
    /// is left for the user.
    ///
    /// A stored split beyond the whole can ask for more than the yield. Such a
    /// donation is reported and held back, and the user keeps the whole yield.
    pub fn apply_donation(
        ledger: &mut Ledger,
        user: &Address,
        yield_amount: i128,
        token_id: &Address,
    ) -> (res: i128)
        requires
            old(ledger).wf(),
            old(ledger)@.apply_in_range(*user, yield_amount),
        ensures
            final(ledger).wf(),
            final(ledger)@ == old(ledger)@.after_apply(*user, yield_amount, *token_id),
            res == old(ledger)@.net(*user, yield_amount),
    {
        if yield_amount <= 0 {
            return yield_amount;
        }
        let (bps, charity_opt) = Self::get_donation_config(ledger, *user);
        if bps <= 0 {
            return yield_amount;
        }
        let charity = match charity_opt {
            Some(charity) => charity,
            None => return yield_amount,
        };
        assert(yield_amount * bps > 0) by (nonlinear_arith)
            requires
                yield_amount > 0,
                bps > 0,
        ;
        let donation: i128 = (yield_amount * bps) / BPS_DENOMINATOR;
        if donation > yield_amount {
            ledger.ask(
                Action::Publish(Event::DonationRefused { user: *user, donation, yield_amount }),
            );
            return yield_amount;
        }
        if donation > 0 {
            let from = ledger.contract();
            ledger.ask(
                Action::Transfer { token: *token_id, from, to: charity, amount: donation },
            );
            let prev_total: i128 = Self::get_total_donated(ledger);
            let new_total: i128 = match prev_total.checked_add(donation) {
                Some(total) => total,
                None => i128::MAX,
            };
            ledger.set(DonationKey::TotalDonated, StoredValue::Amount(new_total));
            ledger.ask(Action::Publish(Event::Donated { user: *user, charity, donation }));
        }
        yield_amount - donation
    }
}

} // verus!
