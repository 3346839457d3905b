use vstd::prelude::*;

verus! {

/// Every failure an operation of this crate reports. Each operation's
/// contract states exactly which variant comes on which inputs.
#[derive(Clone, Copy, PartialEq, Eq, Structural, Debug)]
pub enum BidError {
    /// A transfer asks for more funds than the paying balance holds.
    InsufficientFunds,
    /// A supplied derivation salt does not reproduce the vault's address.
    BadDerivation,
    /// A live bid record for the same (bidder, asset) pair already exists.
    DuplicateBid,
    /// The caller is not the owner of the addressed bid record.
    NotOwner,
    /// The caller's amount differs from the stored bid amount.
    BidAmountMismatch,
    /// The supplied metadata account is not the asset-derived one.
    InvalidMetadata,
    /// Seller fee plus platform fee exceeds the whole, in basis points.
    InvalidRoyaltyFee,
    /// The supplied creator accounts do not match the metadata creator list.
    CreatorMismatch,
}

/// Failure of the royalty-metadata decoder. The settlement engine treats any
/// decode failure as "no royalties owed", never as a fatal error.
#[derive(Clone, Copy, PartialEq, Eq, Structural, Debug)]
pub enum DecodeError {
    /// The buffer ends before the layout does.
    TooShort,
    /// The creator-list option tag is neither 0 nor 1.
    BadCreatorsFlag,
    /// A creator's verified flag is neither 0 nor 1.
    BadVerifiedFlag,
}

} // verus!
