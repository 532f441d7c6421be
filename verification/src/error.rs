//! The errors that the donation functions answer with.

use vstd::prelude::*;

verus! {

/// Why a donation request was refused.
#[derive(Clone, Copy, Debug, PartialEq, Eq, Structural)]
pub enum VaultError {
    /// An amount that has to be positive was zero or negative.
    ZeroAmount,
    /// A donation split outside of 0 to 10_000 basis points.
    InvalidDonationBps,
    /// The charity is not an approved one.
    CharityNotWhitelisted,
    /// The donation is zero, or too small to be worth a transaction.
    DonationBelowMinimum,
}

impl VaultError {
    /// The number by which the error is known outside of the contract.
    pub open spec fn spec_code(self) -> u32 {
        match self {
            VaultError::ZeroAmount => 3,
            VaultError::InvalidDonationBps => 2001,
            VaultError::CharityNotWhitelisted => 2002,
            VaultError::DonationBelowMinimum => 2007,
        }
    }

    /// The number by which the error is known outside of the contract.
    pub fn code(self) -> (res: u32)
        ensures
            res == self.spec_code(),
    {
        match self {
            VaultError::ZeroAmount => 3,
            VaultError::InvalidDonationBps => 2001,
            VaultError::CharityNotWhitelisted => 2002,
            VaultError::DonationBelowMinimum => 2007,
        }
    }
}

} // verus!
