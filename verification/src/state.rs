use vstd::prelude::*;
use crate::address::Address;

verus! {

/// The global configuration of one marketplace instance, keyed by its name.
/// Created once by the admin; immutable afterwards.
pub struct MarketplaceConfig {
    /// The identity that created the marketplace.
    pub admin: Address,
    /// The fee rate in basis points, at most 1000 (10%).
    pub fee_bps: u16,
    /// The marketplace name: 1 to 32 bytes.
    pub name: Vec<u8>,
    /// The derivation bump of the marketplace's own storage address.
    pub bump: u8,
    /// The derived address that collects fees.
    pub treasury: Address,
    /// The derivation bump of the treasury address.
    pub treasury_bump: u8,
    /// The derived address of the rewards mint.
    pub rewards_mint: Address,
    /// The derivation bump of the rewards-mint address.
    pub rewards_bump: u8,
}

impl MarketplaceConfig {
    /// The configuration invariant: the fee rate is within [0, 1000] basis
    /// points and the name is non-empty and at most 32 bytes.
    pub open spec fn wf(&self) -> bool {
        &&& self.fee_bps <= 1000
        &&& 1 <= self.name@.len() <= 32
    }
}

/// One listing: a seller offering one unit of an asset at a price. Exists
/// exactly while its escrow vault custodies the asset.
pub struct Listing {
    /// The seller: the only identity allowed to delist.
    pub maker: Address,
    /// The listed asset.
    pub asset_id: Address,
    /// The asking price in the native currency's smallest unit; positive.
    pub price: u64,
    /// The derivation bump of the vault authority.
    pub bump: u8,
}

/// The escrow vault of one listing: custodies exactly one unit of the listed
/// asset, controlled by the authority derived from (marketplace, asset) —
/// never by a human signer.
pub struct EscrowVault {
    /// The custodied asset.
    pub asset_id: Address,
    /// The derived authority that controls the vault.
    pub authority: Address,
    /// The custodied amount: one unit while the listing exists.
    pub amount: u64,
}

/// A custody account on the external asset ledger: how many units of one
/// asset an identity holds.
pub struct CustodyAccount {
    /// The holder.
    pub owner: Address,
    /// The held asset.
    pub asset_id: Address,
    /// The held amount.
    pub amount: u64,
}

/// An asset's record in the provenance registry: which collection the asset
/// belongs to, and whether that membership is verified.
pub struct ProvenanceRecord {
    /// The asset the record certifies.
    pub asset_id: Address,
    /// The collection the asset claims membership of.
    pub collection_id: Address,
    /// Whether the membership has been verified by the registry.
    pub verified: bool,
}

} // verus!
