//! The ledger as one call of the vault sees it.

use crate::address::Address;
use crate::entries::{DonationKey, Entries, StoredValue};
use vstd::prelude::*;

verus! {

/// What the vault tells the outside world about a donation.
#[derive(Clone, Copy, Debug, PartialEq, Eq)]
pub enum Event {
    /// A user has configured a donation split.
    SplitSet { user: Address, bps: i128 },
    /// A charity was approved, or its approval was taken back.
    CharityReviewed { charity: Address, approved: bool },
    /// A donation larger than the yield was held back.
    DonationRefused { user: Address, donation: i128, yield_amount: i128 },
    /// A donation was sent.
    Donated { user: Address, charity: Address, donation: i128 },
}

impl Event {
    /// The topic under which the event is published.
    pub open spec fn spec_topic(self) -> Seq<char> {
        match self {
            Event::SplitSet { .. } => "don_set"@,
            Event::CharityReviewed { .. } => "charity"@,
            Event::DonationRefused { .. } => "don_err"@,
            Event::Donated { .. } => "donated"@,
        }
    }

    /// The topic under which the event is published.
    pub fn topic(&self) -> (res: &'static str)
        ensures
            res@ == self.spec_topic(),
    {
        match self {
            Event::SplitSet { .. } => "don_set",
            Event::CharityReviewed { .. } => "charity",
            Event::DonationRefused { .. } => "don_err",
            Event::Donated { .. } => "donated",
        }
    }
}

/// What a call asks of the host. The host takes the actions in order, and a call
/// one of whose actions fails leaves no trace on the ledger.
#[derive(Clone, Copy, Debug, PartialEq, Eq)]
pub enum Action {
    /// Make sure that this address has authorised the call.
    RequireAuth(Address),
    /// Move `amount` of the token `token` from one address to another.
    Transfer { token: Address, from: Address, to: Address, amount: i128 },
    /// Publish an event.
    Publish(Event),
}

/// What a `Ledger` stands for.
#[verifier::ext_equal]
pub struct LedgerView {
    /// The vault contract itself.
    pub contract: Address,
    /// The storage entries.
    pub entries: Map<DonationKey, StoredValue>,
    /// The actions asked for so far, oldest first.
    pub actions: Seq<Action>,
}

/// The storage entries of the vault contract, with the actions that were asked
/// of the host.
pub struct Ledger {
    contract: Address,
    entries: Entries,
    actions: Vec<Action>,
}

impl View for Ledger {
    type V = LedgerView;

    closed spec fn view(&self) -> LedgerView {
        LedgerView {
            contract: self.contract,
            entries: self.entries@,
            actions: self.actions@,
        }
    }
}

impl Ledger {
    /// The entries are filed properly.
    pub closed spec fn wf(&self) -> bool {
        self.entries.wf()
    }

    /// The ledger of the vault contract `contract`, with no entry and no action.
    pub fn new(contract: Address) -> (res: Self)
        ensures
            res.wf(),
            res@ == (LedgerView {
                contract,
                entries: Map::empty(),
                actions: Seq::empty(),
            }),
    {
        Ledger { contract, entries: Entries::new(), actions: Vec::new() }
    }

    /// The vault contract itself.
    pub fn contract(&self) -> (res: Address)
        ensures
            res == self@.contract,
    {
        self.contract
    }

    /// What is filed under `key`, if anything.
    pub fn get(&self, key: &DonationKey) -> (res: Option<StoredValue>)
        requires
            self.wf(),
        ensures
            res == self@.entries.get(*key),
            res matches Some(value) ==> value.fits(*key),
    {
        proof {
            self.entries.lemma_typed();
        }
        self.entries.get(key)
    }

    /// Files `value` under `key`, in place of what was there before.
    pub fn set(&mut self, key: DonationKey, value: StoredValue)
        requires
            old(self).wf(),
            value.fits(key),
        ensures
            final(self).wf(),
            final(self)@ == (LedgerView {
                entries: old(self)@.entries.insert(key, value),
                ..old(self)@
            }),
    {
        self.entries.set(key, value);
    }

    /// Asks an action of the host.
    pub fn ask(&mut self, action: Action)
        requires
            old(self).wf(),
        ensures
            final(self).wf(),
            final(self)@ == (LedgerView {
                actions: old(self)@.actions.push(action),
                ..old(self)@
            }),
    {
        self.actions.push(action);
    }

    /// The actions asked for so far, oldest first.
    pub fn actions(&self) -> (res: &Vec<Action>)
        ensures
            res@ == self@.actions,
    {
        &self.actions
    }
}

} // verus!
