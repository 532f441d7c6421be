//! Ledger addresses.

use vstd::prelude::*;

verus! {

/// The number of characters in the text form of a ledger address.
pub const STRKEY_LEN: usize = 56;

/// An account or contract on the ledger, named by its text form
/// (`G...` for an account, `C...` for a contract) in ASCII.
///
/// The vault only ever asks whether two addresses are the same one, and an
/// address has exactly one text form.
#[derive(Clone, Copy, Debug, Eq)]
pub struct Address {
    pub strkey: [u8; STRKEY_LEN],
}

impl PartialEq for Address {
    fn eq(&self, other: &Self) -> (res: bool) {
        let mut i: usize = 0;
        while i < STRKEY_LEN
            invariant
                i <= STRKEY_LEN,
                forall|j: int| 0 <= j < i ==> self.strkey@[j] == other.strkey@[j],
            decreases STRKEY_LEN - i,
        {
            if self.strkey[i] != other.strkey[i] {
                return false;
            }
            i += 1;
        }
        assert(self.strkey =~= other.strkey);
        true
    }
}

impl vstd::std_specs::cmp::PartialEqSpecImpl for Address {
    open spec fn obeys_eq_spec() -> bool {
        true
    }

    open spec fn eq_spec(&self, other: &Self) -> bool {
        *self == *other
    }
}

} // verus!
