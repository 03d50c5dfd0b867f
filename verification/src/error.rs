use vstd::prelude::*;

verus! {

/// The failure conditions of the marketplace engine. Every operation either
/// fully commits or aborts with one of these; no partial effects survive a
/// failure.
#[derive(Clone, Copy, PartialEq, Eq, Structural, Debug)]
pub enum ErrorCode {
    /// A fee rate outside [0, 1000] basis points was supplied.
    InvalidFee,
    /// The price is zero, or the marketplace name is empty or over 32 bytes.
    InvalidPrice,
    /// The asset's provenance record does not certify the expected collection.
    CollectionNotVerified,
    /// A balance check failed: native funds below the price, or the seller
    /// does not hold exactly one unit of the asset.
    InsufficientFunds,
    /// The caller is not the maker recorded in the listing.
    NotOwner,
    /// A fee or payout computation would overflow.
    ArithmeticOverflow,
    /// The operation targets a listing or vault that does not exist, or that
    /// a terminal transition already closed.
    RecordNotFound,
    /// A record keyed by the same identifying fields already exists.
    AlreadyExists,
}

} // verus!
