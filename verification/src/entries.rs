//! The entries of the contract's storage that the donation functions work on.

use crate::address::Address;
use vstd::prelude::*;

verus! {

/// What an entry is filed under.
#[derive(Clone, Copy, Debug, Eq)]
pub enum DonationKey {
    /// Donation split in basis points for a specific user account.
    DonationBps(Address),
    /// Charity chosen by a specific user account.
    DonationCharity(Address),
    /// Flag: true if this address is an approved charity.
    WhitelistedCharity(Address),
    /// Cumulative protocol-wide donated token amount, in stroops.
    TotalDonated,
}

impl PartialEq for DonationKey {
    fn eq(&self, other: &Self) -> (res: bool) {
        match (self, other) {
            (DonationKey::DonationBps(a), DonationKey::DonationBps(b)) => *a == *b,
            (DonationKey::DonationCharity(a), DonationKey::DonationCharity(b)) => *a == *b,
            (DonationKey::WhitelistedCharity(a), DonationKey::WhitelistedCharity(b)) => *a == *b,
            (DonationKey::TotalDonated, DonationKey::TotalDonated) => true,
            _ => false,
        }
    }
}

impl vstd::std_specs::cmp::PartialEqSpecImpl for DonationKey {
    open spec fn obeys_eq_spec() -> bool {
        true
    }

    open spec fn eq_spec(&self, other: &Self) -> bool {
        *self == *other
    }
}

/// What an entry holds.
#[derive(Clone, Copy, Debug, PartialEq, Eq)]
pub enum StoredValue {
    /// A number of basis points, or of stroops.
    Amount(i128),
    /// A charity's address.
    Charity(Address),
    /// A yes or no.
    Flag(bool),
}

impl StoredValue {
    /// The kind of value is the one that belongs under `key`.
    pub open spec fn fits(self, key: DonationKey) -> bool {
        match key {
            DonationKey::DonationBps(_) => self is Amount,
            DonationKey::DonationCharity(_) => self is Charity,
            DonationKey::WhitelistedCharity(_) => self is Flag,
            DonationKey::TotalDonated => self is Amount,
        }
    }
}

/// Every entry holds the kind of value that belongs under its key.
pub open spec fn typed(entries: Map<DonationKey, StoredValue>) -> bool {
    forall|key: DonationKey| #[trigger]
        entries.dom().contains(key) ==> entries[key].fits(key)
}

/// A set of entries, each key at most once.
pub struct Entries {
    list: Vec<(DonationKey, StoredValue)>,
}

/// The map that a list of entries stands for.
spec fn entry_map(list: Seq<(DonationKey, StoredValue)>) -> Map<DonationKey, StoredValue> {
    Map::new(
        |key: DonationKey| exists|i: int| 0 <= i < list.len() && (#[trigger] list[i]).0 == key,
        |key: DonationKey|
            list[choose|i: int| 0 <= i < list.len() && (#[trigger] list[i]).0 == key].1,
    )
}

/// No key occurs twice in a list of entries.
spec fn distinct(list: Seq<(DonationKey, StoredValue)>) -> bool {
    forall|i: int, j: int|
        #![trigger list[i], list[j]]
        0 <= i < list.len() && 0 <= j < list.len() && list[i].0 == list[j].0 ==> i == j
}

/// The map holds each entry of a list without repeated keys.
proof fn lemma_entry(list: Seq<(DonationKey, StoredValue)>, i: int)
    requires
        distinct(list),
        0 <= i < list.len(),
    ensures
        entry_map(list).dom().contains(list[i].0),
        entry_map(list)[list[i].0] == list[i].1,
{
    let key = list[i].0;
    let k = choose|k: int| 0 <= k < list.len() && (#[trigger] list[k]).0 == key;
    assert(list[k].0 == list[i].0);
}

impl View for Entries {
    type V = Map<DonationKey, StoredValue>;

    closed spec fn view(&self) -> Map<DonationKey, StoredValue> {
        entry_map(self.list@)
    }
}

impl Entries {
    /// No key is filed twice, and every entry holds the right kind of value.
    pub closed spec fn wf(&self) -> bool {
        distinct(self.list@) && typed(self@)
    }

    /// What `wf` says of the entries.
    pub proof fn lemma_typed(&self)
        requires
            self.wf(),
        ensures
            typed(self@),
    {
    }

    /// No entries.
    pub fn new() -> (res: Self)
        ensures
            res.wf(),
            res@ == Map::<DonationKey, StoredValue>::empty(),
    {
        let res = Entries { list: Vec::new() };
        assert(res@ =~= Map::<DonationKey, StoredValue>::empty());
        res
    }

    /// What is filed under `key`, if anything.
    pub fn get(&self, key: &DonationKey) -> (res: Option<StoredValue>)
        requires
            self.wf(),
        ensures
            res == self@.get(*key),
    {
        let mut i: usize = 0;
        while i < self.list.len()
            invariant
                self.wf(),
                i <= self.list@.len(),
                forall|j: int| 0 <= j < i ==> (#[trigger] self.list@[j]).0 != *key,
            decreases self.list@.len() - i,
        {
            let entry = self.list[i];
            if entry.0 == *key {
                proof {
                    lemma_entry(self.list@, i as int);
                }
                return Some(entry.1);
            }
            i += 1;
        }
        None
    }

    /// Files `value` under `key`, in place of what was there before.
    pub fn set(&mut self, key: DonationKey, value: StoredValue)
        requires
            old(self).wf(),
            value.fits(key),
        ensures
            final(self).wf(),
            final(self)@ == old(self)@.insert(key, value),
    {
        let ghost before = self.list@;
        let mut i: usize = 0;
        while i < self.list.len()
            invariant
                self.list@ == before,
                distinct(before),
                typed(entry_map(before)),
                value.fits(key),
                old(self).list@ == before,
                i <= before.len(),
                forall|j: int| 0 <= j < i ==> (#[trigger] before[j]).0 != key,
            decreases before.len() - i,
        {
            if self.list[i].0 == key {
                self.list.set(i, (key, value));
                proof {
                    lemma_replace(before, i as int, value);
                }
                return;
            }
            i += 1;
        }
        self.list.push((key, value));
        proof {
            lemma_append(before, key, value);
        }
    }
}

/// Replacing the value of an entry changes the map under its key alone.
proof fn lemma_replace(list: Seq<(DonationKey, StoredValue)>, i: int, value: StoredValue)
    requires
        distinct(list),
        0 <= i < list.len(),
    ensures
        distinct(list.update(i, (list[i].0, value))),
        entry_map(list.update(i, (list[i].0, value))) == entry_map(list).insert(list[i].0, value),
{
    let after = list.update(i, (list[i].0, value));
    assert forall|j: int| 0 <= j < list.len() implies (#[trigger] after[j]).0 == list[j].0 by {}
    let left = entry_map(after);
    let right = entry_map(list).insert(list[i].0, value);
    assert forall|key: DonationKey| left.dom().contains(key) == right.dom().contains(key) by {
        if left.dom().contains(key) {
            let j = choose|j: int| 0 <= j < after.len() && (#[trigger] after[j]).0 == key;
            assert(list[j].0 == key);
        }
        if right.dom().contains(key) {
            if key == list[i].0 {
                assert(after[i].0 == key);
            } else {
                let j = choose|j: int| 0 <= j < list.len() && (#[trigger] list[j]).0 == key;
                assert(after[j].0 == key);
            }
        }
    }
    assert forall|key: DonationKey| left.dom().contains(key) implies left[key] == right[key] by {
        let j = choose|j: int| 0 <= j < after.len() && (#[trigger] after[j]).0 == key;
        lemma_entry(after, j);
        lemma_entry(list, j);
    }
    assert(left =~= right);
}

/// Appending an entry under a new key adds it to the map.
proof fn lemma_append(
    list: Seq<(DonationKey, StoredValue)>,
    key: DonationKey,
    value: StoredValue,
)
    requires
        distinct(list),
        forall|j: int| 0 <= j < list.len() ==> (#[trigger] list[j]).0 != key,
    ensures
        distinct(list.push((key, value))),
        entry_map(list.push((key, value))) == entry_map(list).insert(key, value),
{
    let after = list.push((key, value));
    assert(after[list.len() as int] == (key, value));
    assert forall|j: int| 0 <= j < list.len() implies #[trigger] after[j] == list[j] by {}
    let left = entry_map(after);
    let right = entry_map(list).insert(key, value);
    assert forall|k: DonationKey| left.dom().contains(k) == right.dom().contains(k) by {
        if left.dom().contains(k) && k != key {
            let j = choose|j: int| 0 <= j < after.len() && (#[trigger] after[j]).0 == k;
            assert(list[j].0 == k);
        }
        if right.dom().contains(k) && k != key {
            let j = choose|j: int| 0 <= j < list.len() && (#[trigger] list[j]).0 == k;
            assert(after[j].0 == k);
        }
    }
    assert forall|k: DonationKey| left.dom().contains(k) implies left[k] == right[k] by {
        let j = choose|j: int| 0 <= j < after.len() && (#[trigger] after[j]).0 == k;
        lemma_entry(after, j);
        if k != key {
            lemma_entry(list, j);
        } else {
            lemma_entry(after, list.len() as int);
        }
    }
    assert(left =~= right);
}

} // verus!
