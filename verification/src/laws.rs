//! What holds of the donation functions together.

use crate::address::Address;
use crate::donations::{BPS_DENOMINATOR, MIN_DONATION_AMOUNT};
use crate::entries::{DonationKey, StoredValue};
use crate::error::VaultError;
use crate::ledger::{Action, Event, LedgerView};
use vstd::prelude::*;

verus! {

// ---- One donation ----

/// A donation is the exact share rounded down. Out of a split between nothing
/// and the whole it lies between nothing and the yield; a split of nothing gives
/// nothing, and a split of the whole gives the whole yield.
pub proof fn law_donation_is_a_share(yield_amount: int, bps: int)
    requires
        yield_amount >= 0,
        0 <= bps <= BPS_DENOMINATOR,
    ensures
        ({
            let donation = crate::donations::donation_amount(yield_amount, bps);
            &&& donation * BPS_DENOMINATOR <= yield_amount * bps
            &&& yield_amount * bps < (donation + 1) * BPS_DENOMINATOR
            &&& 0 <= donation <= yield_amount
            &&& bps == 0 ==> donation == 0
            &&& bps == BPS_DENOMINATOR ==> donation == yield_amount
        }),
{
    assert(0 <= yield_amount * bps <= yield_amount * 10_000) by (nonlinear_arith)
        requires
            yield_amount >= 0,
            0 <= bps <= 10_000,
    ;
    if bps == 0 {
        assert(yield_amount * bps == 0) by (nonlinear_arith)
            requires
                bps == 0,
        ;
    }
}

/// More yield never makes for a smaller donation, and neither does a larger
/// split.
pub proof fn law_donation_is_monotone(
    yield_amount: int,
    bps: int,
    larger_yield: int,
    larger_bps: int,
)
    requires
        0 <= yield_amount <= larger_yield,
        0 <= bps <= larger_bps,
    ensures
        crate::donations::donation_amount(yield_amount, bps)
            <= crate::donations::donation_amount(larger_yield, larger_bps),
{
    assert(yield_amount * bps <= larger_yield * larger_bps) by (nonlinear_arith)
        requires
            0 <= yield_amount <= larger_yield,
            0 <= bps <= larger_bps,
    ;
}

// ---- Paying out a yield ----

/// The amount that a list of actions moves in all.
pub open spec fn transferred(actions: Seq<Action>) -> int
    decreases actions.len(),
{
    if actions.len() == 0 {
        0
    } else {
        transferred(actions.drop_last()) + match actions.last() {
            Action::Transfer { amount, .. } => amount as int,
            _ => 0,
        }
    }
}

/// One more action moves what it moves.
proof fn lemma_transferred_push(actions: Seq<Action>, action: Action)
    ensures
        transferred(actions.push(action)) == transferred(actions) + match action {
            Action::Transfer { amount, .. } => amount as int,
            _ => 0,
        },
{
    assert(actions.push(action).drop_last() =~= actions);
}

/// A donation that is due is not negative, and where the split can be multiplied
/// out it is an `i128`.
proof fn lemma_due(view: LedgerView, user: Address, yield_amount: i128)
    requires
        view.apply_in_range(user, yield_amount),
    ensures
        0 <= view.donation_due(user, yield_amount) <= i128::MAX,
{
    let bps = view.bps_of(user);
    if yield_amount > 0 && bps > 0 {
        assert(yield_amount * bps > 0) by (nonlinear_arith)
            requires
                yield_amount > 0,
                bps > 0,
        ;
    }
}

/// The yield is what the user keeps and what is transferred, together. What is
/// transferred comes out of the yield alone, so the user is never left with less
/// than nothing, and where there is no yield nothing is transferred.
pub proof fn law_yield_is_conserved(
    view: LedgerView,
    user: Address,
    yield_amount: i128,
    token: Address,
)
    requires
        view.apply_in_range(user, yield_amount),
    ensures
        ({
            let sent = transferred(view.after_apply(user, yield_amount, token).actions)
                - transferred(view.actions);
            &&& view.net(user, yield_amount) + sent == yield_amount
            &&& 0 <= sent
            &&& yield_amount >= 0 ==> sent <= yield_amount && view.net(user, yield_amount) >= 0
            &&& yield_amount <= 0 ==> sent == 0
        }),
{
    lemma_due(view, user, yield_amount);
    let due = view.donation_due(user, yield_amount);
    if due > yield_amount {
        lemma_transferred_push(
            view.actions,
            Action::Publish(
                Event::DonationRefused { user, donation: due as i128, yield_amount },
            ),
        );
    } else if due != 0 {
        let charity = view.charity_of(user)->0;
        let transfer = Action::Transfer {
            token,
            from: view.contract,
            to: charity,
            amount: due as i128,
        };
        lemma_transferred_push(view.actions, transfer);
        lemma_transferred_push(
            view.actions.push(transfer),
            Action::Publish(Event::Donated { user, charity, donation: due as i128 }),
        );
    }
}

/// A donation goes from the contract to the charity that the user has chosen, in
/// the token of the yield, and is reported.
pub proof fn law_donation_goes_to_the_chosen_charity(
    view: LedgerView,
    user: Address,
    yield_amount: i128,
    token: Address,
)
    requires
        view.donated(user, yield_amount) > 0,
    ensures
        view.charity_of(user) is Some,
        ({
            let charity = view.charity_of(user)->0;
            let amount = view.donated(user, yield_amount) as i128;
            view.after_apply(user, yield_amount, token).actions == view.actions + seq![
                Action::Transfer { token, from: view.contract, to: charity, amount },
                Action::Publish(Event::Donated { user, charity, donation: amount }),
            ]
        }),
{
}

/// Paying out a yield leaves every split, every charity and every approval as it
/// was.
pub proof fn law_apply_changes_the_total_alone(
    view: LedgerView,
    user: Address,
    yield_amount: i128,
    token: Address,
    key: DonationKey,
)
    requires
        key != DonationKey::TotalDonated,
    ensures
        view.after_apply(user, yield_amount, token).entries.get(key) == view.entries.get(key),
{
}

/// The total grows by what was donated, up to the largest `i128`, and never
/// shrinks.
pub proof fn law_total_grows_by_the_donation(
    view: LedgerView,
    user: Address,
    yield_amount: i128,
    token: Address,
)
    requires
        view.apply_in_range(user, yield_amount),
    ensures
        ({
            let after = view.after_apply(user, yield_amount, token);
            &&& after.total() == crate::donations::saturated(
                view.total() + view.donated(user, yield_amount),
            )
            &&& after.total() >= view.total()
        }),
{
    lemma_due(view, user, yield_amount);
}

/// What comes of paying out a yield rests on the user's own split and charity
/// and on the total, and on no other entry.
pub proof fn law_apply_reads_its_own_entries(
    view: LedgerView,
    other: LedgerView,
    user: Address,
    yield_amount: i128,
    token: Address,
)
    requires
        view.contract == other.contract,
        view.actions == other.actions,
        view.entries.get(DonationKey::DonationBps(user)) == other.entries.get(
            DonationKey::DonationBps(user),
        ),
        view.entries.get(DonationKey::DonationCharity(user)) == other.entries.get(
            DonationKey::DonationCharity(user),
        ),
        view.entries.get(DonationKey::TotalDonated) == other.entries.get(
            DonationKey::TotalDonated,
        ),
    ensures
        view.net(user, yield_amount) == other.net(user, yield_amount),
        ({
            let after = view.after_apply(user, yield_amount, token);
            let other_after = other.after_apply(user, yield_amount, token);
            &&& after.actions == other_after.actions
            &&& after.entries.get(DonationKey::TotalDonated) == other_after.entries.get(
                DonationKey::TotalDonated,
            )
        }),
{
}

// ---- Configuring a split ----

/// A split that was accepted is the one that is read back.
pub proof fn law_split_is_read_back(view: LedgerView, user: Address, bps: i128, charity: Address)
    requires
        view.split_refusal(bps, charity) is None,
    ensures
        ({
            let after = view.after_split(user, bps, charity);
            &&& after.bps_of(user) == bps
            &&& after.charity_of(user) == Some(charity)
        }),
{
}

/// A user's split changes nothing of anybody else's, no approval, and not the
/// total.
pub proof fn law_split_leaves_the_rest(
    view: LedgerView,
    user: Address,
    bps: i128,
    charity: Address,
    key: DonationKey,
)
    requires
        key != DonationKey::DonationBps(user),
        key != DonationKey::DonationCharity(user),
    ensures
        view.after_split(user, bps, charity).entries.get(key) == view.entries.get(key),
{
}

/// A split that is refused leaves every entry as it was, and is not reported.
pub proof fn law_refused_split_changes_nothing(
    view: LedgerView,
    user: Address,
    bps: i128,
    charity: Address,
)
    requires
        view.split_refusal(bps, charity) is Some,
    ensures
        view.after_split(user, bps, charity).entries == view.entries,
        view.after_split(user, bps, charity).actions == view.actions.push(
            Action::RequireAuth(user),
        ),
{
}

/// What comes of a split rests on the approval of its charity, and on no other
/// entry.
pub proof fn law_split_reads_the_approval_alone(
    view: LedgerView,
    other: LedgerView,
    bps: i128,
    charity: Address,
)
    requires
        view.entries.get(DonationKey::WhitelistedCharity(charity)) == other.entries.get(
            DonationKey::WhitelistedCharity(charity),
        ),
    ensures
        view.split_refusal(bps, charity) == other.split_refusal(bps, charity),
{
}

/// A split of nothing turns donations off: the user keeps the whole of any
/// yield, nothing is asked of the host, and a preview finds the donation too
/// small.
pub proof fn law_split_of_nothing_turns_donations_off(
    view: LedgerView,
    user: Address,
    charity: Address,
    yield_amount: i128,
    token: Address,
)
    requires
        view.approves(charity),
    ensures
        ({
            let after = view.after_split(user, 0, charity);
            &&& view.split_refusal(0, charity) is None
            &&& after.net(user, yield_amount) == yield_amount
            &&& after.after_apply(user, yield_amount, token) == after
            &&& yield_amount > 0 ==> after.preview(user, yield_amount) == Err::<int, VaultError>(
                VaultError::DonationBelowMinimum,
            )
        }),
{
    assert(yield_amount * 0 == 0);
}

// ---- Approving charities ----

/// An approval that was given or taken back is the one that splits are held to:
/// a charity just approved is accepted at every split between nothing and the
/// whole, and one just struck off is refused.
pub proof fn law_review_governs_splits(
    view: LedgerView,
    charity: Address,
    approved: bool,
    bps: i128,
)
    requires
        0 <= bps <= BPS_DENOMINATOR,
    ensures
        ({
            let after = view.after_review(charity, approved);
            &&& after.approves(charity) == approved
            &&& after.split_refusal(bps, charity) == (if approved {
                None
            } else {
                Some(VaultError::CharityNotWhitelisted)
            })
        }),
{
}

/// A review changes the approval of its charity alone. Splits that are already
/// configured stay as they are, also those towards a charity that is struck off.
pub proof fn law_review_leaves_the_rest(
    view: LedgerView,
    charity: Address,
    approved: bool,
    key: DonationKey,
)
    requires
        key != DonationKey::WhitelistedCharity(charity),
    ensures
        view.after_review(charity, approved).entries.get(key) == view.entries.get(key),
{
}

// ---- Previews ----

/// A preview rests on the user's own split, and on no other entry.
pub proof fn law_preview_reads_the_split_alone(
    view: LedgerView,
    other: LedgerView,
    user: Address,
    yield_amount: i128,
)
    requires
        view.entries.get(DonationKey::DonationBps(user)) == other.entries.get(
            DonationKey::DonationBps(user),
        ),
    ensures
        view.preview(user, yield_amount) == other.preview(user, yield_amount),
{
}

/// A preview that finds a donation worth sending tells exactly what paying out
/// that yield then sends to the charity, provided that the user has a charity
/// and the donation is no larger than the yield.
pub proof fn law_preview_tells_what_is_sent(view: LedgerView, user: Address, yield_amount: i128)
    requires
        view.preview(user, yield_amount) is Ok,
        view.charity_of(user) is Some,
        view.donation_due(user, yield_amount) <= yield_amount,
    ensures
        view.preview(user, yield_amount) == Ok::<int, VaultError>(
            view.donated(user, yield_amount),
        ),
{
    let bps = view.bps_of(user);
    if bps <= 0 {
        assert(yield_amount * bps <= 0) by (nonlinear_arith)
            requires
                yield_amount > 0,
                bps <= 0,
        ;
    }
}

/// Where the entries are sound, every preview that finds a donation worth
/// sending tells exactly what is then sent, which is no less than the minimum and
/// no more than the yield.
pub proof fn law_sound_previews_tell_what_is_sent(
    view: LedgerView,
    user: Address,
    yield_amount: i128,
)
    requires
        view.sound(),
        view.preview(user, yield_amount) is Ok,
    ensures
        view.preview(user, yield_amount) == Ok::<int, VaultError>(
            view.donated(user, yield_amount),
        ),
        MIN_DONATION_AMOUNT <= view.donated(user, yield_amount) <= yield_amount,
{
    let bps = view.bps_of(user);
    law_donation_is_a_share(yield_amount as int, bps as int);
    assert(view.entries.dom().contains(DonationKey::DonationBps(user)));
    assert(view.entries.dom().contains(DonationKey::DonationCharity(user)));
    law_preview_tells_what_is_sent(view, user, yield_amount);
}

/// A preview that finds the donation too small is right about it: paying out
/// that yield sends less than the minimum.
pub proof fn law_preview_refuses_what_is_too_small(
    view: LedgerView,
    user: Address,
    yield_amount: i128,
)
    requires
        view.preview(user, yield_amount) is Err,
    ensures
        view.donated(user, yield_amount) < MIN_DONATION_AMOUNT,
{
}

// ---- Every ledger that calls can lead to ----

/// A call that changes the ledger.
pub enum Call {
    Split { user: Address, bps: i128, charity: Address },
    Review { charity: Address, approved: bool },
    Apply { user: Address, yield_amount: i128, token: Address },
}

impl LedgerView {
    /// A ledger on which nothing has happened yet.
    pub open spec fn fresh(contract: Address) -> LedgerView {
        LedgerView { contract, entries: Map::empty(), actions: Seq::empty() }
    }

    /// The ledger after a call.
    pub open spec fn step(self, call: Call) -> LedgerView {
        match call {
            Call::Split { user, bps, charity } => self.after_split(user, bps, charity),
            Call::Review { charity, approved } => self.after_review(charity, approved),
            Call::Apply { user, yield_amount, token } => {
                self.after_apply(user, yield_amount, token)
            },
        }
    }

    /// The call does not ask for a product beyond an `i128`.
    pub open spec fn step_in_range(self, call: Call) -> bool {
        match call {
            Call::Apply { user, yield_amount, .. } => self.apply_in_range(user, yield_amount),
            _ => true,
        }
    }

    /// The ledger after a series of calls.
    pub open spec fn run(self, calls: Seq<Call>) -> LedgerView
        decreases calls.len(),
    {
        if calls.len() == 0 {
            self
        } else {
            self.run(calls.drop_last()).step(calls.last())
        }
    }

    /// No call of the series asks for a product beyond an `i128`.
    pub open spec fn run_in_range(self, calls: Seq<Call>) -> bool
        decreases calls.len(),
    {
        calls.len() == 0 || {
            &&& self.run_in_range(calls.drop_last())
            &&& self.run(calls.drop_last()).step_in_range(calls.last())
        }
    }

    /// The entries make sense together: every split lies between nothing and the
    /// whole, a user has a split if and only if they have chosen a charity, and
    /// the total is not negative.
    pub open spec fn sound(self) -> bool {
        &&& crate::entries::typed(self.entries)
        &&& forall|user: Address|
            0 <= #[trigger] self.bps_of(user) <= BPS_DENOMINATOR
        &&& forall|user: Address|
            #![trigger self.entries.dom().contains(DonationKey::DonationBps(user))]
            #![trigger self.entries.dom().contains(DonationKey::DonationCharity(user))]
            self.entries.dom().contains(DonationKey::DonationBps(user))
                == self.entries.dom().contains(DonationKey::DonationCharity(user))
        &&& self.total() >= 0
    }

    /// The charity was approved at some time.
    pub open spec fn once_approved(self, charity: Address) -> bool {
        self.actions.contains(
            Action::Publish(Event::CharityReviewed { charity, approved: true }),
        )
    }

    /// Every charity that is approved now, that a user has chosen, or that was
    /// sent anything, was approved at some time.
    pub open spec fn charities_approved(self) -> bool {
        &&& forall|charity: Address| #[trigger]
            self.approves(charity) ==> self.once_approved(charity)
        &&& forall|user: Address| #[trigger]
            self.charity_of(user) is Some ==> self.once_approved(self.charity_of(user)->0)
        &&& forall|i: int|
            #![trigger self.actions[i]]
            0 <= i < self.actions.len() && self.actions[i] is Transfer ==> self.once_approved(
                self.actions[i]->to,
            )
    }

    /// The total is what was transferred in all, up to the largest `i128`.
    pub open spec fn total_accounts_for_transfers(self) -> bool {
        self.total() == crate::donations::saturated(transferred(self.actions))
    }
}

/// A call keeps the entries sound.
pub proof fn law_step_keeps_sound(view: LedgerView, call: Call)
    requires
        view.sound(),
        view.step_in_range(call),
    ensures
        view.step(call).sound(),
{
    if let Call::Apply { user, yield_amount, .. } = call {
        lemma_due(view, user, yield_amount);
    }
    let after = view.step(call);
    assert forall|user: Address| 0 <= #[trigger] after.bps_of(user) <= BPS_DENOMINATOR by {
        assert(0 <= view.bps_of(user) <= BPS_DENOMINATOR);
    }
}

/// Where the entries are sound, the split of any yield up to a ten-thousandth of
/// the largest `i128` can be multiplied out.
pub proof fn law_sound_splits_multiply_out(view: LedgerView, user: Address, yield_amount: i128)
    requires
        view.sound(),
        yield_amount <= i128::MAX / BPS_DENOMINATOR,
    ensures
        view.preview_in_range(user, yield_amount),
        view.apply_in_range(user, yield_amount),
{
    let bps = view.bps_of(user);
    if yield_amount > 0 && bps > 0 {
        assert(yield_amount * bps <= yield_amount * 10_000) by (nonlinear_arith)
            requires
                yield_amount > 0,
                bps <= 10_000,
        ;
    }
}

/// Where the entries are sound, a donation is never larger than the yield, so
/// none is ever held back.
pub proof fn law_sound_entries_hold_no_donation_back(
    view: LedgerView,
    user: Address,
    yield_amount: i128,
)
    requires
        view.sound(),
    ensures
        yield_amount > 0 ==> view.donation_due(user, yield_amount) <= yield_amount,
        view.donated(user, yield_amount) == (if yield_amount > 0 {
            view.donation_due(user, yield_amount)
        } else {
            0
        }),
{
    if yield_amount > 0 {
        law_donation_is_a_share(yield_amount as int, view.bps_of(user) as int);
    }
}

/// An action once asked for stays on the list.
proof fn lemma_asked_for_stays(actions: Seq<Action>, more: Seq<Action>, action: Action)
    requires
        actions.contains(action),
    ensures
        (actions + more).contains(action),
{
    let i = actions.index_of(action);
    assert((actions + more)[i] == action);
}

/// The actions that a call adds to the list.
spec fn added(view: LedgerView, call: Call) -> Seq<Action> {
    let actions = view.step(call).actions;
    actions.subrange(view.actions.len() as int, actions.len() as int)
}

/// A call keeps to approved charities.
pub proof fn law_step_keeps_charities_approved(view: LedgerView, call: Call)
    requires
        view.charities_approved(),
    ensures
        view.step(call).charities_approved(),
{
    let after = view.step(call);
    let more = added(view, call);
    assert(after.actions =~= view.actions + more);
    assert forall|charity: Address| view.once_approved(charity) implies #[trigger]
        after.once_approved(charity) by {
        lemma_asked_for_stays(
            view.actions,
            more,
            Action::Publish(Event::CharityReviewed { charity, approved: true }),
        );
    }
    assert forall|charity: Address| #[trigger] after.approves(charity) implies
        after.once_approved(charity) by {
        if view.approves(charity) {
            assert(view.once_approved(charity));
        } else {
            assert(after.actions.last() == Action::Publish(
                Event::CharityReviewed { charity, approved: true },
            ));
        }
    }
    assert forall|user: Address| #[trigger] after.charity_of(user) is Some implies
        after.once_approved(after.charity_of(user)->0) by {
        if after.charity_of(user) == view.charity_of(user) {
            assert(view.once_approved(view.charity_of(user)->0));
        } else {
            assert(view.approves(after.charity_of(user)->0));
        }
    }
    assert forall|i: int|
        #![trigger after.actions[i]]
        0 <= i < after.actions.len() && after.actions[i] is Transfer implies after.once_approved(
        after.actions[i]->to,
    ) by {
        if i < view.actions.len() {
            assert(after.actions[i] == view.actions[i]);
        } else {
            assert(call is Apply);
            assert(after.actions[i]->to == view.charity_of(call->Apply_user)->0);
            assert(view.charity_of(call->Apply_user) is Some);
        }
    }
}

/// A call keeps the total equal to what was transferred in all.
pub proof fn law_step_keeps_total_accounting_for_transfers(view: LedgerView, call: Call)
    requires
        view.total_accounts_for_transfers(),
        view.step_in_range(call),
    ensures
        view.step(call).total_accounts_for_transfers(),
        transferred(view.step(call).actions) >= transferred(view.actions),
{
    match call {
        Call::Split { user, bps, charity } => {
            lemma_transferred_push(view.actions, Action::RequireAuth(user));
            lemma_transferred_push(
                view.actions.push(Action::RequireAuth(user)),
                Action::Publish(Event::SplitSet { user, bps }),
            );
        },
        Call::Review { charity, approved } => {
            lemma_transferred_push(
                view.actions,
                Action::Publish(Event::CharityReviewed { charity, approved }),
            );
        },
        Call::Apply { user, yield_amount, token } => {
            law_yield_is_conserved(view, user, yield_amount, token);
            law_total_grows_by_the_donation(view, user, yield_amount, token);
        },
    }
}

/// Whatever calls were made since nothing had happened: the entries are sound,
/// nobody but a charity that was approved at some time was sent anything, and
/// the total is what was transferred in all, up to the largest `i128`.
pub proof fn law_every_history(contract: Address, calls: Seq<Call>)
    requires
        LedgerView::fresh(contract).run_in_range(calls),
    ensures
        ({
            let view = LedgerView::fresh(contract).run(calls);
            &&& view.contract == contract
            &&& view.sound()
            &&& view.charities_approved()
            &&& view.total_accounts_for_transfers()
            &&& transferred(view.actions) >= 0
        }),
    decreases calls.len(),
{
    if calls.len() > 0 {
        law_every_history(contract, calls.drop_last());
        let before = LedgerView::fresh(contract).run(calls.drop_last());
        law_step_keeps_sound(before, calls.last());
        law_step_keeps_charities_approved(before, calls.last());
        law_step_keeps_total_accounting_for_transfers(before, calls.last());
    }
}

// ---- Reading the entries ----

/// A user's configuration is what the entries hold of it: the split and the
/// charity that are filed under the user, a split of 0 where none is filed, and no
/// charity where none is filed.
pub proof fn law_configuration_is_what_is_filed(
    view: LedgerView,
    user: Address,
    bps: i128,
    charity: Address,
)
    ensures
        view.entries.get(DonationKey::DonationBps(user)) is None ==> view.bps_of(user) == 0,
        view.entries.get(DonationKey::DonationBps(user)) == Some(StoredValue::Amount(bps))
            ==> view.bps_of(user) == bps,
        view.entries.get(DonationKey::DonationCharity(user)) is None ==> view.charity_of(user)
            is None,
        view.entries.get(DonationKey::DonationCharity(user)) == Some(StoredValue::Charity(charity))
            ==> view.charity_of(user) == Some(charity),
{
}

/// The total is what is filed as the total, and 0 where nothing is.
pub proof fn law_total_is_what_is_filed(view: LedgerView, total: i128)
    ensures
        view.entries.get(DonationKey::TotalDonated) is None ==> view.total() == 0,
        view.entries.get(DonationKey::TotalDonated) == Some(StoredValue::Amount(total))
            ==> view.total() == total,
{
}

/// Where nothing has happened yet nobody has a split or a charity, nothing was
/// donated, and no charity can be chosen.
pub proof fn law_nothing_is_configured_at_first(
    contract: Address,
    user: Address,
    bps: i128,
    charity: Address,
)
    ensures
        ({
            let view = LedgerView {
                contract,
                entries: Map::<DonationKey, StoredValue>::empty(),
                actions: Seq::<Action>::empty(),
            };
            &&& LedgerView::fresh(contract) == view
            &&& view.bps_of(user) == 0
            &&& view.charity_of(user) is None
            &&& view.total() == 0
            &&& view.split_refusal(bps, charity) is Some
        }),
{
}

// ---- The effect of each call, entry by entry and action by action ----

/// A split is accepted if and only if it lies between 0 and 10_000 basis points
/// and its charity is flagged as approved. One out of these bounds is refused on
/// that account, whatever its charity is.
pub proof fn law_split_is_judged_by_its_bounds_and_its_charity(
    view: LedgerView,
    bps: i128,
    charity: Address,
)
    ensures
        ({
            let bounded = 0 <= bps && bps <= 10_000;
            let flagged = view.entries.dom().contains(DonationKey::WhitelistedCharity(charity))
                && view.entries[DonationKey::WhitelistedCharity(charity)]
                == StoredValue::Flag(true);
            let refusal = view.split_refusal(bps, charity);
            &&& refusal is None <==> bounded && flagged
            &&& refusal == Some(VaultError::InvalidDonationBps) <==> !bounded
            &&& refusal == Some(VaultError::CharityNotWhitelisted) <==> bounded && !flagged
        }),
{
}

/// A split that is accepted needs the user's authorisation and nobody else's. It
/// is reported with that user and those basis points, and both are filed with the
/// charity; all else is as it was.
pub proof fn law_accepted_split_is_authorised_filed_and_reported(
    view: LedgerView,
    user: Address,
    bps: i128,
    charity: Address,
    key: DonationKey,
)
    requires
        0 <= bps <= 10_000,
        view.entries.get(DonationKey::WhitelistedCharity(charity)) == Some(
            StoredValue::Flag(true),
        ),
    ensures
        ({
            let after = view.after_split(user, bps, charity);
            &&& after.contract == view.contract
            &&& after.actions == view.actions + seq![
                Action::RequireAuth(user),
                Action::Publish(Event::SplitSet { user, bps }),
            ]
            &&& after.entries.get(DonationKey::DonationBps(user)) == Some(
                StoredValue::Amount(bps),
            )
            &&& after.entries.get(DonationKey::DonationCharity(user)) == Some(
                StoredValue::Charity(charity),
            )
            &&& key != DonationKey::DonationBps(user) && key != DonationKey::DonationCharity(user)
                ==> after.entries.get(key) == view.entries.get(key)
        }),
{
}

/// A split that is not between 0 and 10_000 basis points, or whose charity is not
/// flagged as approved, asks for the user's authorisation and does nothing else.
pub proof fn law_refused_split_asks_for_the_user_alone(
    view: LedgerView,
    user: Address,
    bps: i128,
    charity: Address,
)
    requires
        bps < 0 || bps > 10_000 || view.entries.get(DonationKey::WhitelistedCharity(charity))
            != Some(StoredValue::Flag(true)),
    ensures
        ({
            let after = view.after_split(user, bps, charity);
            &&& after.contract == view.contract
            &&& after.entries == view.entries
            &&& after.actions == view.actions + seq![Action::RequireAuth(user)]
        }),
{
}

/// A review asks for nobody's authorisation and moves nothing: it files the
/// approval of that charity and reports it, and all else is as it was.
pub proof fn law_review_is_filed_and_reported(
    view: LedgerView,
    charity: Address,
    approved: bool,
    key: DonationKey,
)
    ensures
        ({
            let after = view.after_review(charity, approved);
            &&& after.contract == view.contract
            &&& after.actions == view.actions + seq![
                Action::Publish(Event::CharityReviewed { charity, approved }),
            ]
            &&& after.entries.get(DonationKey::WhitelistedCharity(charity)) == Some(
                StoredValue::Flag(approved),
            )
            &&& key != DonationKey::WhitelistedCharity(charity) ==> after.entries.get(key)
                == view.entries.get(key)
        }),
{
}

/// A donation is the one amount `share` that is the exact share rounded down: ten
/// thousand times it does not exceed the yield times the split, and one more would.
pub proof fn law_donation_is_the_share(yield_amount: int, bps: int, share: int)
    ensures
        crate::donations::donation_amount(yield_amount, bps) == share <==> (share * 10_000
            <= yield_amount * bps && yield_amount * bps < (share + 1) * 10_000),
{
}

/// A preview of a split that is filed tells its share of the yield where that is
/// at least 1_000_000 stroops. A smaller share is refused as too small, and where
/// there is no yield the preview says so.
pub proof fn law_preview_is_the_share(
    view: LedgerView,
    user: Address,
    yield_amount: i128,
    bps: i128,
    share: int,
)
    requires
        view.entries.get(DonationKey::DonationBps(user)) == Some(StoredValue::Amount(bps)),
        share * 10_000 <= yield_amount * bps < (share + 1) * 10_000,
    ensures
        ({
            let preview = view.preview(user, yield_amount);
            &&& yield_amount <= 0 ==> preview == Err::<int, VaultError>(VaultError::ZeroAmount)
            &&& yield_amount > 0 && share < 1_000_000 ==> preview == Err::<int, VaultError>(
                VaultError::DonationBelowMinimum,
            )
            &&& yield_amount > 0 && share >= 1_000_000 ==> preview == Ok::<int, VaultError>(share)
        }),
{
}

/// Without a split there is nothing to preview.
pub proof fn law_preview_needs_a_split(view: LedgerView, user: Address, yield_amount: i128)
    requires
        view.entries.get(DonationKey::DonationBps(user)) is None,
    ensures
        yield_amount <= 0 ==> view.preview(user, yield_amount) == Err::<int, VaultError>(
            VaultError::ZeroAmount,
        ),
        yield_amount > 0 ==> view.preview(user, yield_amount) == Err::<int, VaultError>(
            VaultError::DonationBelowMinimum,
        ),
{
    assert(yield_amount * 0 == 0);
}

/// The user's whole share of a yield goes to the charity that is filed under the
/// user, however small it is: the contract sends it in the token of the yield and
/// reports it, the total grows by it up to the largest `i128`, and the user keeps
/// the rest of the yield. All else is as it was.
pub proof fn law_payout_sends_the_share(
    view: LedgerView,
    user: Address,
    yield_amount: i128,
    token: Address,
    bps: i128,
    charity: Address,
    total: i128,
    share: i128,
    key: DonationKey,
)
    requires
        yield_amount > 0,
        view.entries.get(DonationKey::DonationBps(user)) == Some(StoredValue::Amount(bps)),
        view.entries.get(DonationKey::DonationCharity(user)) == Some(StoredValue::Charity(charity)),
        view.entries.get(DonationKey::TotalDonated) == Some(StoredValue::Amount(total)) || (
        view.entries.get(DonationKey::TotalDonated) is None && total == 0),
        share * 10_000 <= yield_amount * bps < (share + 1) * 10_000,
        0 < share <= yield_amount,
    ensures
        view.donated(user, yield_amount) == share,
        view.net(user, yield_amount) == yield_amount - share,
        ({
            let after = view.after_apply(user, yield_amount, token);
            let sum = total + share;
            let new_total = if sum > 0x7fff_ffff_ffff_ffff_ffff_ffff_ffff_ffff {
                0x7fff_ffff_ffff_ffff_ffff_ffff_ffff_ffffi128
            } else {
                sum as i128
            };
            &&& after.contract == view.contract
            &&& after.actions == view.actions + seq![
                Action::Transfer { token, from: view.contract, to: charity, amount: share },
                Action::Publish(Event::Donated { user, charity, donation: share }),
            ]
            &&& after.entries.get(DonationKey::TotalDonated) == Some(
                StoredValue::Amount(new_total),
            )
            &&& key != DonationKey::TotalDonated ==> after.entries.get(key) == view.entries.get(
                key,
            )
        }),
{
    if bps <= 0 {
        assert(yield_amount * bps <= 0) by (nonlinear_arith)
            requires
                yield_amount > 0,
                bps <= 0,
        ;
    }
}

/// A share that rounds down to nothing leaves the ledger as it was, and the user
/// keeps the whole yield.
pub proof fn law_payout_of_no_share_does_nothing(
    view: LedgerView,
    user: Address,
    yield_amount: i128,
    token: Address,
    bps: i128,
)
    requires
        yield_amount > 0,
        view.entries.get(DonationKey::DonationBps(user)) == Some(StoredValue::Amount(bps)),
        yield_amount * bps < 10_000,
    ensures
        view.donated(user, yield_amount) == 0,
        view.net(user, yield_amount) == yield_amount,
        view.after_apply(user, yield_amount, token) == view,
{
    if bps > 0 {
        assert(yield_amount * bps > 0) by (nonlinear_arith)
            requires
                yield_amount > 0,
                bps > 0,
        ;
    }
}

/// A share that is larger than the yield is reported as refused. Nothing is sent,
/// every entry is as it was, and the user keeps the whole yield.
pub proof fn law_payout_holds_back_more_than_the_yield(
    view: LedgerView,
    user: Address,
    yield_amount: i128,
    token: Address,
    bps: i128,
    charity: Address,
    share: i128,
)
    requires
        yield_amount > 0,
        view.entries.get(DonationKey::DonationBps(user)) == Some(StoredValue::Amount(bps)),
        view.entries.get(DonationKey::DonationCharity(user)) == Some(StoredValue::Charity(charity)),
        share * 10_000 <= yield_amount * bps < (share + 1) * 10_000,
        share > yield_amount,
    ensures
        view.donated(user, yield_amount) == 0,
        view.net(user, yield_amount) == yield_amount,
        ({
            let after = view.after_apply(user, yield_amount, token);
            &&& after.contract == view.contract
            &&& after.entries == view.entries
            &&& after.actions == view.actions + seq![
                Action::Publish(Event::DonationRefused { user, donation: share, yield_amount }),
            ]
        }),
{
    if bps <= 0 {
        assert(yield_amount * bps <= 0) by (nonlinear_arith)
            requires
                yield_amount > 0,
                bps <= 0,
        ;
    }
}

/// Without a yield, a split or a charity, paying out leaves the ledger as it was,
/// and the user keeps the whole amount.
pub proof fn law_payout_needs_a_yield_a_split_and_a_charity(
    view: LedgerView,
    user: Address,
    yield_amount: i128,
    token: Address,
)
    requires
        yield_amount <= 0 || view.entries.get(DonationKey::DonationBps(user)) is None
            || view.entries.get(DonationKey::DonationCharity(user)) is None,
    ensures
        view.donated(user, yield_amount) == 0,
        view.net(user, yield_amount) == yield_amount,
        view.after_apply(user, yield_amount, token) == view,
{
}

/// A preview is owed wherever the yield times the split that is filed is an
/// `i128`, and wherever there is no yield or no split; a payout moreover wherever
/// there is no charity.
pub proof fn law_previews_and_payouts_are_owed(
    view: LedgerView,
    user: Address,
    yield_amount: i128,
    bps: i128,
)
    ensures
        yield_amount <= 0 || view.entries.get(DonationKey::DonationBps(user)) is None
            ==> view.preview_in_range(user, yield_amount),
        view.entries.get(DonationKey::DonationBps(user)) == Some(StoredValue::Amount(bps)) && (
        bps <= 0 || yield_amount * bps <= 0x7fff_ffff_ffff_ffff_ffff_ffff_ffff_ffff)
            ==> view.preview_in_range(user, yield_amount),
        view.preview_in_range(user, yield_amount) || view.entries.get(
            DonationKey::DonationCharity(user),
        ) is None ==> view.apply_in_range(user, yield_amount),
{
}

// ---- How calls relate ----

/// Whoever reads back a split that was accepted, and pays out a yield on it, finds
/// the share of that very split sent to that very charity.
pub proof fn law_accepted_split_is_what_payouts_send(
    view: LedgerView,
    user: Address,
    bps: i128,
    charity: Address,
    yield_amount: i128,
    token: Address,
    share: i128,
)
    requires
        view.split_refusal(bps, charity) is None,
        yield_amount > 0,
        share * 10_000 <= yield_amount * bps < (share + 1) * 10_000,
        share > 0,
    ensures
        share <= yield_amount,
        ({
            let split = view.after_split(user, bps, charity);
            let paid = split.after_apply(user, yield_amount, token);
            &&& split.net(user, yield_amount) == yield_amount - share
            &&& paid.actions == view.actions + seq![
                Action::RequireAuth(user),
                Action::Publish(Event::SplitSet { user, bps }),
                Action::Transfer { token, from: view.contract, to: charity, amount: share },
                Action::Publish(Event::Donated { user, charity, donation: share }),
            ]
        }),
{
    law_split_is_judged_by_its_bounds_and_its_charity(view, bps, charity);
    assert(yield_amount * bps <= yield_amount * 10_000) by (nonlinear_arith)
        requires
            yield_amount > 0,
            bps <= 10_000,
    ;
    if bps <= 0 {
        assert(yield_amount * bps <= 0) by (nonlinear_arith)
            requires
                yield_amount > 0,
                bps <= 0,
        ;
    }
    let split = view.after_split(user, bps, charity);
    assert(split.bps_of(user) == bps);
    assert(split.charity_of(user) == Some(charity));
    assert(split.donation_due(user, yield_amount) == share);
}

// ---- Names and numbers ----

/// Two addresses are found equal if and only if they are the same one, and so are
/// two keys.
pub proof fn law_equality_is_identity(a: Address, b: Address, k: DonationKey, l: DonationKey)
    ensures
        vstd::std_specs::cmp::PartialEqSpec::eq_spec(&a, &b) == (a == b),
        vstd::std_specs::cmp::PartialEqSpec::eq_spec(&k, &l) == (k == l),
{
}

/// Amounts are filed as splits and as the total, addresses as chosen charities,
/// and flags as approvals, whatever their value.
pub proof fn law_any_value_of_the_kind_fits(a: Address, amount: i128, charity: Address, flag: bool)
    ensures
        StoredValue::Amount(amount).fits(DonationKey::DonationBps(a)),
        StoredValue::Charity(charity).fits(DonationKey::DonationCharity(a)),
        StoredValue::Flag(flag).fits(DonationKey::WhitelistedCharity(a)),
        StoredValue::Amount(amount).fits(DonationKey::TotalDonated),
{
}

/// The topic of an event rests on its kind alone.
pub proof fn law_topics(
    user: Address,
    charity: Address,
    bps: i128,
    approved: bool,
    donation: i128,
    yield_amount: i128,
)
    ensures
        (Event::SplitSet { user, bps }).spec_topic() == "don_set"@,
        (Event::CharityReviewed { charity, approved }).spec_topic() == "charity"@,
        (Event::DonationRefused { user, donation, yield_amount }).spec_topic() == "don_err"@,
        (Event::Donated { user, charity, donation }).spec_topic() == "donated"@,
{
}

/// Each error has its own published number.
pub proof fn law_error_numbers(error: VaultError)
    ensures
        error is ZeroAmount <==> error.spec_code() == 3,
        error is InvalidDonationBps <==> error.spec_code() == 2001,
        error is CharityNotWhitelisted <==> error.spec_code() == 2002,
        error is DonationBelowMinimum <==> error.spec_code() == 2007,
{
}

} // verus!
