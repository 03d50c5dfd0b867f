use vstd::prelude::*;
use crate::address::{addr_eq, Address};
use crate::authority::{resolve_vault_authority, spec_derived_vault_authority};
use crate::bank::{bank_total, sbal, Bank};
use crate::error::ErrorCode;
use crate::fees::{fee_computable, fee_split, spec_fee, spec_seller_amount};
use crate::state::{CustodyAccount, EscrowVault, Listing, MarketplaceConfig, ProvenanceRecord};

verus! {

/// The balance of `x` once a settlement commits: the buyer pays the seller
/// amount and the fee, the maker gains the seller amount, the treasury
/// gains the fee. Additive, so identities playing several roles net
/// correctly.
pub open spec fn settled_balance(
    s: Seq<(Seq<u8>, u64)>,
    buyer: Seq<u8>,
    maker: Seq<u8>,
    treasury: Seq<u8>,
    seller: int,
    fee: int,
    x: Seq<u8>,
) -> int {
    sbal(s, x) - (if x == buyer {
        seller + fee
    } else {
        0
    }) + (if x == maker {
        seller
    } else {
        0
    }) + (if x == treasury {
        fee
    } else {
        0
    })
}

/// Whether every balance the settlement would leave behind lies within
/// `u64` range, so both payment legs can commit.
pub open spec fn settlement_fits(
    s: Seq<(Seq<u8>, u64)>,
    buyer: Seq<u8>,
    maker: Seq<u8>,
    treasury: Seq<u8>,
    seller: int,
    fee: int,
) -> bool {
    forall|x: Seq<u8>| 0 <= #[trigger] settled_balance(s, buyer, maker, treasury, seller, fee, x)
        <= u64::MAX
}

/// The record of a committed purchase: the price paid, the seller's share,
/// and the fee leg — `None` when the fee was zero and no transfer to the
/// treasury was made at all.
pub struct Settlement {
    /// The listing price the buyer paid.
    pub price: u64,
    /// What the maker received: the price minus the fee.
    pub seller_amount: u64,
    /// The transfer to the treasury: `Some(fee)` when a positive fee was
    /// collected, `None` when the fee was zero and the leg was skipped.
    pub fee_leg: Option<u64>,
}

/// One marketplace instance: its configuration together with every live
/// listing and the escrow vault of each.
pub struct Marketplace {
    /// The immutable configuration.
    pub config: MarketplaceConfig,
    /// The live listings, at most one per asset.
    pub listings: Vec<Listing>,
    /// The escrow vaults, aligned with `listings`: the vault of
    /// `listings[i]` is `vaults[i]`.
    pub vaults: Vec<EscrowVault>,
}

impl Marketplace {
    /// The escrow invariant: the configuration is well formed, each asset is
    /// listed at most once at a positive price, and a listing exists exactly
    /// together with a vault that custodies exactly one unit of its asset.
    pub open spec fn wf(&self) -> bool {
        &&& self.config.wf()
        &&& self.listings@.len() == self.vaults@.len()
        &&& forall|i: int|
            0 <= i < self.listings@.len() ==> {
                &&& (#[trigger] self.vaults@[i]).asset_id@ == self.listings@[i].asset_id@
                &&& self.vaults@[i].amount == 1
                &&& self.listings@[i].price > 0
            }
        &&& forall|i: int, j: int|
            0 <= i < j < self.listings@.len() ==> self.listings@[i].asset_id@
                != self.listings@[j].asset_id@
    }

    /// Whether `asset` is currently listed.
    pub open spec fn spec_has_listing(&self, asset: Seq<u8>) -> bool {
        exists|i: int| 0 <= i < self.listings@.len() && self.listings@[i].asset_id@ == asset
    }

    /// The index of the (unique) listing of `asset`; meaningful only when
    /// `spec_has_listing(asset)` holds.
    pub open spec fn spec_listing_idx(&self, asset: Seq<u8>) -> int {
        choose|i: int| 0 <= i < self.listings@.len() && self.listings@[i].asset_id@ == asset
    }

    /// The listing of `asset`; meaningful only when `spec_has_listing(asset)`
    /// holds.
    pub open spec fn spec_listing(&self, asset: Seq<u8>) -> Listing {
        self.listings@[self.spec_listing_idx(asset)]
    }

    /// The balance custodied for `asset`: `Some(amount)` while a vault for
    /// `asset` exists, `None` once it no longer does.
    pub open spec fn spec_vault_amount(&self, asset: Seq<u8>) -> Option<u64> {
        if self.spec_has_listing(asset) {
            Some(self.vaults@[self.spec_listing_idx(asset)].amount)
        } else {
            None
        }
    }

    /// The authority recorded for `asset`'s vault; meaningful only while the
    /// vault exists.
    pub open spec fn spec_vault_authority(&self, asset: Seq<u8>) -> Seq<u8> {
        self.vaults@[self.spec_listing_idx(asset)].authority@
    }

    /// The fee a purchase of `asset` would collect, at the marketplace's
    /// fee rate; meaningful only while `asset` is listed.
    pub open spec fn spec_fee_of(&self, asset: Seq<u8>) -> int {
        spec_fee(self.spec_listing(asset).price, self.config.fee_bps)
    }

    /// What the maker would receive from a purchase of `asset`: the price
    /// minus the fee; meaningful only while `asset` is listed.
    pub open spec fn spec_seller_of(&self, asset: Seq<u8>) -> int {
        spec_seller_amount(self.spec_listing(asset).price, self.config.fee_bps)
    }

    /// Whether a purchase of `asset` by `buyer` can commit against the
    /// ledger `bank`: the asset is listed, the buyer covers the price, the
    /// fee computation fits in a `u64`, and both payment legs stay within
    /// balance range.
    pub open spec fn spec_can_settle(
        &self,
        bank: Seq<(Seq<u8>, u64)>,
        buyer: Seq<u8>,
        asset: Seq<u8>,
    ) -> bool {
        &&& self.spec_has_listing(asset)
        &&& sbal(bank, buyer) >= self.spec_listing(asset).price
        &&& fee_computable(self.spec_listing(asset).price, self.config.fee_bps)
        &&& settlement_fits(
            bank,
            buyer,
            self.spec_listing(asset).maker@,
            self.config.treasury@,
            self.spec_seller_of(asset),
            self.spec_fee_of(asset),
        )
    }

    /// A marketplace instance with no listings.
    pub fn new(config: MarketplaceConfig) -> (r: Marketplace)
        requires
            config.wf(),
        ensures
            r.wf(),
            r.config == config,
            forall|x: Seq<u8>| !r.spec_has_listing(x),
    {
        Marketplace { config, listings: Vec::new(), vaults: Vec::new() }
    }

    /// Whether `asset` is currently listed.
    pub fn has_listing(&self, asset: &Address) -> (r: bool)
        requires
            self.wf(),
        ensures
            r == self.spec_has_listing(asset@),
    {
        self.find_listing(asset).is_some()
    }

    /// The index of `asset`'s listing, or `None` when `asset` is not listed.
    fn find_listing(&self, asset: &Address) -> (r: Option<usize>)
        requires
            self.wf(),
        ensures
            match r {
                Some(i) => {
                    &&& self.spec_has_listing(asset@)
                    &&& self.spec_listing_idx(asset@) == i as int
                    &&& i < self.listings@.len()
                    &&& self.listings@[i as int].asset_id@ == asset@
                },
                None => !self.spec_has_listing(asset@),
            },
    {
        let n = self.listings.len();
        let mut i: usize = 0;
        while i < n
            invariant
                self.wf(),
                n == self.listings@.len(),
                i <= n,
                forall|j: int| 0 <= j < i ==> self.listings@[j].asset_id@ != asset@,
            decreases n - i,
        {
            if addr_eq(&self.listings[i].asset_id, asset) {
                proof {
                    let k = self.spec_listing_idx(asset@);
                    assert(0 <= k < self.listings@.len() && self.listings@[k].asset_id@ == asset@);
                    if k != i as int {
                        assert(self.listings@[k].asset_id@ != self.listings@[i as int].asset_id@);
                    }
                }
                return Some(i);
            }
            i += 1;
        }
        None
    }

    /// Lists one unit of the asset held by `maker_custody` at `price`,
    /// escrowing it under `vault_authority`. Preconditions, first failure
    /// wins: the price must be positive (`InvalidPrice`), the seller must
    /// hold exactly one unit (`InsufficientFunds`), the asset's provenance
    /// must certify verified membership of `collection_id`
    /// (`CollectionNotVerified`), and the asset must not be listed already
    /// (`AlreadyExists`). On success the unit moves from the seller's
    /// custody into a fresh escrow vault and the listing is recorded; on any
    /// failure nothing changes.
    pub fn list(
        &mut self,
        maker_custody: &mut CustodyAccount,
        provenance: &ProvenanceRecord,
        collection_id: &Address,
        price: u64,
        vault_authority: Address,
        authority_bump: u8,
    ) -> (r: Result<(), ErrorCode>)
        requires
            old(self).wf(),
            old(maker_custody).asset_id@ == provenance.asset_id@,
        ensures
            final(self).wf(),
            match r {
                Ok(()) => {
                    &&& price > 0
                    &&& old(maker_custody).amount == 1
                    &&& provenance.collection_id@ == collection_id@
                    &&& provenance.verified
                    &&& !old(self).spec_has_listing(old(maker_custody).asset_id@)
                    &&& final(maker_custody).owner == old(maker_custody).owner
                    &&& final(maker_custody).asset_id == old(maker_custody).asset_id
                    &&& final(maker_custody).amount == 0
                    &&& final(self).config == old(self).config
                    &&& final(self).spec_has_listing(old(maker_custody).asset_id@)
                    &&& final(self).spec_listing(old(maker_custody).asset_id@).maker@ == old(
                        maker_custody,
                    ).owner@
                    &&& final(self).spec_listing(old(maker_custody).asset_id@).price == price
                    &&& final(self).spec_listing(old(maker_custody).asset_id@).bump
                        == authority_bump
                    &&& final(self).spec_vault_amount(old(maker_custody).asset_id@) == Some(1u64)
                    &&& final(self).spec_vault_authority(old(maker_custody).asset_id@)
                        == vault_authority@
                    &&& forall|x: Seq<u8>|
                        x != old(maker_custody).asset_id@ ==> final(self).spec_has_listing(x)
                            == old(self).spec_has_listing(x)
                    &&& forall|x: Seq<u8>|
                        x != old(maker_custody).asset_id@ && old(self).spec_has_listing(x) ==> {
                            &&& final(self).spec_listing(x) == old(self).spec_listing(x)
                            &&& final(self).spec_vault_amount(x) == old(self).spec_vault_amount(x)
                        }
                },
                Err(e) => {
                    &&& *final(self) == *old(self)
                    &&& *final(maker_custody) == *old(maker_custody)
                    &&& if price == 0 {
                        e == ErrorCode::InvalidPrice
                    } else if old(maker_custody).amount != 1 {
                        e == ErrorCode::InsufficientFunds
                    } else if !(provenance.collection_id@ == collection_id@
                        && provenance.verified) {
                        e == ErrorCode::CollectionNotVerified
                    } else {
                        e == ErrorCode::AlreadyExists && old(self).spec_has_listing(
                            old(maker_custody).asset_id@,
                        )
                    }
                },
            },
    {
        if price == 0 {
            return Err(ErrorCode::InvalidPrice);
        }
        if maker_custody.amount != 1 {
            return Err(ErrorCode::InsufficientFunds);
        }
        if !(addr_eq(&provenance.collection_id, collection_id) && provenance.verified) {
            return Err(ErrorCode::CollectionNotVerified);
        }
        match self.find_listing(&maker_custody.asset_id) {
            Some(_) => Err(ErrorCode::AlreadyExists),
            None => {
                let amount = maker_custody.amount;
                maker_custody.amount = 0;
                let new_listing = Listing {
                    maker: maker_custody.owner.duplicate(),
                    asset_id: maker_custody.asset_id.duplicate(),
                    price,
                    bump: authority_bump,
                };
                let new_vault = EscrowVault {
                    asset_id: maker_custody.asset_id.duplicate(),
                    authority: vault_authority,
                    amount,
                };
                self.listings.push(new_listing);
                self.vaults.push(new_vault);
                proof {
                    let a = old(maker_custody).asset_id@;
                    let n = old(self).listings@.len() as int;
                    assert(forall|j: int|
                        0 <= j < n ==> old(self).listings@[j].asset_id@ != a);
                    assert(self.listings@[n].asset_id@ == a);
                    assert(self.wf());
                    assert(self.spec_has_listing(a));
                    let k = self.spec_listing_idx(a);
                    assert(0 <= k < self.listings@.len() && self.listings@[k].asset_id@ == a);
                    assert(k == n);
                    assert forall|x: Seq<u8>| x != a implies self.spec_has_listing(x) == old(
                        self,
                    ).spec_has_listing(x) by {
                        if old(self).spec_has_listing(x) {
                            let j = old(self).spec_listing_idx(x);
                            assert(self.listings@[j].asset_id@ == x);
                            assert(self.spec_has_listing(x));
                        }
                        if self.spec_has_listing(x) {
                            let j = self.spec_listing_idx(x);
                            assert(0 <= j < self.listings@.len()
                                && self.listings@[j].asset_id@ == x);
                            assert(j != n);
                            assert(old(self).spec_has_listing(x));
                        }
                    }
                    assert forall|x: Seq<u8>|
                        x != a && old(self).spec_has_listing(x) implies {
                        &&& self.spec_listing(x) == old(self).spec_listing(x)
                        &&& self.spec_vault_amount(x) == old(self).spec_vault_amount(x)
                    } by {
                        let jo = old(self).spec_listing_idx(x);
                        assert(0 <= jo < n && old(self).listings@[jo].asset_id@ == x);
                        assert(self.listings@[jo].asset_id@ == x);
                        assert(self.spec_has_listing(x));
                        let jn = self.spec_listing_idx(x);
                        assert(0 <= jn < self.listings@.len()
                            && self.listings@[jn].asset_id@ == x);
                        assert(jn == jo);
                    }
                }
                Ok(())
            },
        }
    }

    /// Lists one unit of the asset held by `maker_custody`, resolving the
    /// vault authority itself: the marketplace address derives from the
    /// configured name, and the vault authority from that address and the
    /// asset, under `program_id`. Returns `None`, changing nothing, in the
    /// statistically improbable event that no authority can be derived;
    /// otherwise behaves exactly as `list` under the derived authority.
    pub fn list_derived(
        &mut self,
        program_id: &Address,
        maker_custody: &mut CustodyAccount,
        provenance: &ProvenanceRecord,
        collection_id: &Address,
        price: u64,
    ) -> (r: Option<Result<(), ErrorCode>>)
        requires
            old(self).wf(),
            old(maker_custody).asset_id@ == provenance.asset_id@,
        ensures
            final(self).wf(),
            match r {
                None => {
                    &&& *final(self) == *old(self)
                    &&& *final(maker_custody) == *old(maker_custody)
                    &&& spec_derived_vault_authority(
                        old(self).config.name@,
                        old(maker_custody).asset_id@,
                        program_id@,
                    ) is None
                },
                Some(inner) => {
                    &&& spec_derived_vault_authority(
                        old(self).config.name@,
                        old(maker_custody).asset_id@,
                        program_id@,
                    ) is Some
                    &&& match inner {
                        Ok(()) => {
                            &&& price > 0
                            &&& old(maker_custody).amount == 1
                            &&& provenance.collection_id@ == collection_id@
                            &&& provenance.verified
                            &&& !old(self).spec_has_listing(old(maker_custody).asset_id@)
                            &&& final(maker_custody).amount == 0
                            &&& final(self).spec_has_listing(old(maker_custody).asset_id@)
                            &&& final(self).spec_vault_amount(old(maker_custody).asset_id@)
                                == Some(1u64)
                            &&& Some(
                                (
                                    final(self).spec_vault_authority(
                                        old(maker_custody).asset_id@,
                                    ),
                                    final(self).spec_listing(old(maker_custody).asset_id@).bump,
                                ),
                            ) == spec_derived_vault_authority(
                                old(self).config.name@,
                                old(maker_custody).asset_id@,
                                program_id@,
                            )
                            &&& final(self).spec_listing(old(maker_custody).asset_id@).maker@
                                == old(maker_custody).owner@
                            &&& final(self).spec_listing(old(maker_custody).asset_id@).price
                                == price
                            &&& final(self).config == old(self).config
                            &&& forall|x: Seq<u8>|
                                x != old(maker_custody).asset_id@
                                    ==> final(self).spec_has_listing(x) == old(
                                    self,
                                ).spec_has_listing(x)
                        },
                        Err(e) => {
                            &&& *final(self) == *old(self)
                            &&& *final(maker_custody) == *old(maker_custody)
                            &&& if price == 0 {
                                e == ErrorCode::InvalidPrice
                            } else if old(maker_custody).amount != 1 {
                                e == ErrorCode::InsufficientFunds
                            } else if !(provenance.collection_id@ == collection_id@
                                && provenance.verified) {
                                e == ErrorCode::CollectionNotVerified
                            } else {
                                e == ErrorCode::AlreadyExists && old(self).spec_has_listing(
                                    old(maker_custody).asset_id@,
                                )
                            }
                        },
                    }
                },
            },
    {
        let (authority, bump) = match resolve_vault_authority(
            &self.config.name,
            &maker_custody.asset_id,
            program_id,
        ) {
            Some(pair) => pair,
            None => {
                return None;
            },
        };
        Some(self.list(maker_custody, provenance, collection_id, price, authority, bump))
    }

    /// Delists `asset_id`: returns the escrowed unit to the seller's custody
    /// and closes the listing and its vault, as one indivisible unit. Fails
    /// with `RecordNotFound` when no listing for `asset_id` exists (in
    /// particular after a terminal transition already closed it), and with
    /// `NotOwner` when `caller` is not the recorded maker; on failure
    /// nothing changes.
    pub fn delist(
        &mut self,
        caller: &Address,
        asset_id: &Address,
        maker_custody: &mut CustodyAccount,
    ) -> (r: Result<(), ErrorCode>)
        requires
            old(self).wf(),
            old(maker_custody).owner@ == caller@,
            old(maker_custody).asset_id@ == asset_id@,
            old(maker_custody).amount < u64::MAX,
        ensures
            final(self).wf(),
            match r {
                Ok(()) => {
                    &&& old(self).spec_has_listing(asset_id@)
                    &&& old(self).spec_listing(asset_id@).maker@ == caller@
                    &&& !final(self).spec_has_listing(asset_id@)
                    &&& final(self).spec_vault_amount(asset_id@) is None
                    &&& final(maker_custody).owner == old(maker_custody).owner
                    &&& final(maker_custody).asset_id == old(maker_custody).asset_id
                    &&& final(maker_custody).amount == old(maker_custody).amount + 1
                    &&& final(self).config == old(self).config
                    &&& forall|x: Seq<u8>|
                        x != asset_id@ ==> final(self).spec_has_listing(x) == old(
                            self,
                        ).spec_has_listing(x)
                    &&& forall|x: Seq<u8>|
                        x != asset_id@ && old(self).spec_has_listing(x) ==> {
                            &&& final(self).spec_listing(x) == old(self).spec_listing(x)
                            &&& final(self).spec_vault_amount(x) == old(self).spec_vault_amount(x)
                        }
                },
                Err(e) => {
                    &&& *final(self) == *old(self)
                    &&& *final(maker_custody) == *old(maker_custody)
                    &&& if !old(self).spec_has_listing(asset_id@) {
                        e == ErrorCode::RecordNotFound
                    } else {
                        e == ErrorCode::NotOwner && old(self).spec_listing(asset_id@).maker@
                            != caller@
                    }
                },
            },
    {
        match self.find_listing(asset_id) {
            None => Err(ErrorCode::RecordNotFound),
            Some(i) => {
                if !addr_eq(&self.listings[i].maker, caller) {
                    return Err(ErrorCode::NotOwner);
                }
                let vault = self.vaults.remove(i);
                let _closed = self.listings.remove(i);
                maker_custody.amount = maker_custody.amount + vault.amount;
                proof {
                    self.lemma_after_remove(*old(self), i as int, asset_id@);
                }
                Ok(())
            },
        }
    }

    /// After removing index `i` (the unique listing of `a`) from both
    /// sequences, the escrow invariant still holds, `a` is gone, and every
    /// other listing and vault is unchanged.
    proof fn lemma_after_remove(&self, pre: Marketplace, i: int, a: Seq<u8>)
        requires
            pre.wf(),
            0 <= i < pre.listings@.len(),
            pre.listings@[i].asset_id@ == a,
            self.config == pre.config,
            self.listings@ == pre.listings@.remove(i),
            self.vaults@ == pre.vaults@.remove(i),
        ensures
            self.wf(),
            !self.spec_has_listing(a),
            self.spec_vault_amount(a) is None,
            forall|x: Seq<u8>| x != a ==> self.spec_has_listing(x) == pre.spec_has_listing(x),
            forall|x: Seq<u8>|
                x != a && pre.spec_has_listing(x) ==> {
                    &&& self.spec_listing(x) == pre.spec_listing(x)
                    &&& self.spec_vault_amount(x) == pre.spec_vault_amount(x)
                },
    {
        let n = self.listings@.len() as int;
        assert(forall|j: int|
            0 <= j < n ==> self.listings@[j] == pre.listings@[if j < i {
                j
            } else {
                j + 1
            }]);
        assert(forall|j: int|
            0 <= j < n ==> self.vaults@[j] == pre.vaults@[if j < i {
                j
            } else {
                j + 1
            }]);
        assert(self.wf());
        assert forall|j: int| 0 <= j < n implies self.listings@[j].asset_id@ != a by {
            let jo = if j < i {
                j
            } else {
                j + 1
            };
            assert(pre.listings@[jo].asset_id@ != pre.listings@[i].asset_id@);
        }
        assert(!self.spec_has_listing(a));
        assert forall|x: Seq<u8>| x != a implies self.spec_has_listing(x) == pre.spec_has_listing(
            x,
        ) by {
            if pre.spec_has_listing(x) {
                let jo = pre.spec_listing_idx(x);
                assert(0 <= jo < pre.listings@.len() && pre.listings@[jo].asset_id@ == x);
                assert(jo != i);
                let jn = if jo < i {
                    jo
                } else {
                    jo - 1
                };
                assert(self.listings@[jn].asset_id@ == x);
                assert(self.spec_has_listing(x));
            }
            if self.spec_has_listing(x) {
                let jn = self.spec_listing_idx(x);
                assert(0 <= jn < n && self.listings@[jn].asset_id@ == x);
                assert(pre.spec_has_listing(x));
            }
        }
        assert forall|x: Seq<u8>| x != a && pre.spec_has_listing(x) implies {
            &&& self.spec_listing(x) == pre.spec_listing(x)
            &&& self.spec_vault_amount(x) == pre.spec_vault_amount(x)
        } by {
            let jo = pre.spec_listing_idx(x);
            assert(0 <= jo < pre.listings@.len() && pre.listings@[jo].asset_id@ == x);
            assert(jo != i);
            let jn = if jo < i {
                jo
            } else {
                jo - 1
            };
            assert(self.listings@[jn] == pre.listings@[jo]);
            assert(self.vaults@[jn] == pre.vaults@[jo]);
            assert(self.spec_has_listing(x));
            let k = self.spec_listing_idx(x);
            assert(0 <= k < n && self.listings@[k].asset_id@ == x);
            assert(k == jn);
        }
    }

    /// Purchases `asset_id`: pays the maker the price minus the fee, pays
    /// the treasury the fee (skipping that leg entirely when the fee is
    /// zero), moves the escrowed unit into the buyer's custody, and closes
    /// the listing and its vault — all as one indivisible unit. Fails with
    /// `RecordNotFound` when no listing exists (in particular once a
    /// terminal transition already closed it), `InsufficientFunds` when the
    /// buyer's balance is below the price, and `ArithmeticOverflow` when
    /// the fee computation or a payment leg would overflow; on failure
    /// nothing changes.
    pub fn purchase(
        &mut self,
        bank: &mut Bank,
        buyer: &Address,
        asset_id: &Address,
        buyer_custody: &mut CustodyAccount,
    ) -> (r: Result<Settlement, ErrorCode>)
        requires
            old(self).wf(),
            old(bank).wf(),
            old(buyer_custody).owner@ == buyer@,
            old(buyer_custody).asset_id@ == asset_id@,
            old(buyer_custody).amount < u64::MAX,
        ensures
            final(self).wf(),
            final(bank).wf(),
            bank_total(final(bank)@) == bank_total(old(bank)@),
            match r {
                Ok(s) => {
                    &&& old(self).spec_can_settle(old(bank)@, buyer@, asset_id@)
                    &&& s.price == old(self).spec_listing(asset_id@).price
                    &&& s.seller_amount == old(self).spec_seller_of(asset_id@)
                    &&& old(self).spec_fee_of(asset_id@) > 0 ==> s.fee_leg == Some(
                        old(self).spec_fee_of(asset_id@) as u64,
                    )
                    &&& old(self).spec_fee_of(asset_id@) == 0 ==> s.fee_leg is None
                    &&& forall|x: Seq<u8>|
                        sbal(final(bank)@, x) == settled_balance(
                            old(bank)@,
                            buyer@,
                            old(self).spec_listing(asset_id@).maker@,
                            old(self).config.treasury@,
                            old(self).spec_seller_of(asset_id@),
                            old(self).spec_fee_of(asset_id@),
                            x,
                        )
                    &&& final(buyer_custody).owner == old(buyer_custody).owner
                    &&& final(buyer_custody).asset_id == old(buyer_custody).asset_id
                    &&& final(buyer_custody).amount == old(buyer_custody).amount + 1
                    &&& !final(self).spec_has_listing(asset_id@)
                    &&& final(self).spec_vault_amount(asset_id@) is None
                    &&& final(self).config == old(self).config
                    &&& forall|x: Seq<u8>|
                        x != asset_id@ ==> final(self).spec_has_listing(x) == old(
                            self,
                        ).spec_has_listing(x)
                    &&& forall|x: Seq<u8>|
                        x != asset_id@ && old(self).spec_has_listing(x) ==> {
                            &&& final(self).spec_listing(x) == old(self).spec_listing(x)
                            &&& final(self).spec_vault_amount(x) == old(self).spec_vault_amount(x)
                        }
                },
                Err(e) => {
                    &&& *final(self) == *old(self)
                    &&& *final(bank) == *old(bank)
                    &&& *final(buyer_custody) == *old(buyer_custody)
                    &&& if !old(self).spec_has_listing(asset_id@) {
                        e == ErrorCode::RecordNotFound
                    } else if sbal(old(bank)@, buyer@) < old(self).spec_listing(asset_id@).price {
                        e == ErrorCode::InsufficientFunds
                    } else {
                        e == ErrorCode::ArithmeticOverflow && !old(self).spec_can_settle(
                            old(bank)@,
                            buyer@,
                            asset_id@,
                        )
                    }
                },
            },
    {
        let i = match self.find_listing(asset_id) {
            None => {
                return Err(ErrorCode::RecordNotFound);
            },
            Some(i) => i,
        };
        let price = self.listings[i].price;
        let fee_bps = self.config.fee_bps;
        let buyer_bal = bank.balance_of(buyer);
        if buyer_bal < price {
            return Err(ErrorCode::InsufficientFunds);
        }
        let (fee, seller) = match fee_split(price, fee_bps) {
            Ok(pair) => pair,
            Err(e) => {
                return Err(e);
            },
        };
        let ghost b0 = bank@;
        let ghost mk = old(self).spec_listing(asset_id@).maker@;
        let ghost tr = old(self).config.treasury@;
        let ghost sfee = old(self).spec_fee_of(asset_id@);
        let ghost ssell = old(self).spec_seller_of(asset_id@);
        let maker_is_buyer = addr_eq(&self.listings[i].maker, buyer);
        let treasury_is_buyer = addr_eq(&self.config.treasury, buyer);
        let treasury_is_maker = addr_eq(&self.config.treasury, &self.listings[i].maker);
        if !maker_is_buyer {
            let maker_bal = bank.balance_of(&self.listings[i].maker);
            let gain = if treasury_is_maker {
                seller + fee
            } else {
                seller
            };
            if maker_bal.checked_add(gain).is_none() {
                proof {
                    assert(settled_balance(b0, buyer@, mk, tr, ssell, sfee, mk) > u64::MAX);
                }
                return Err(ErrorCode::ArithmeticOverflow);
            }
        }
        if fee > 0 && !treasury_is_buyer && !treasury_is_maker {
            let treasury_bal = bank.balance_of(&self.config.treasury);
            if treasury_bal.checked_add(fee).is_none() {
                proof {
                    assert(settled_balance(b0, buyer@, mk, tr, ssell, sfee, tr) > u64::MAX);
                }
                return Err(ErrorCode::ArithmeticOverflow);
            }
        }
        proof {
            assert forall|x: Seq<u8>| 0 <= #[trigger] settled_balance(
                b0,
                buyer@,
                mk,
                tr,
                ssell,
                sfee,
                x,
            ) <= u64::MAX by {
                assert(sbal(b0, x) <= u64::MAX);
            }
        }
        let r1 = bank.transfer(buyer, &self.listings[i].maker, seller);
        if let Err(e) = r1 {
            return Err(e);
        }
        let ghost b1 = bank@;
        if fee > 0 {
            let r2 = bank.transfer(buyer, &self.config.treasury, fee);
            if let Err(e) = r2 {
                return Err(e);
            }
        }
        let ghost b2 = bank@;
        let vault = self.vaults.remove(i);
        let _closed = self.listings.remove(i);
        buyer_custody.amount = buyer_custody.amount + vault.amount;
        proof {
            self.lemma_after_remove(*old(self), i as int, asset_id@);
            assert forall|x: Seq<u8>| sbal(b2, x) == settled_balance(
                b0,
                buyer@,
                mk,
                tr,
                ssell,
                sfee,
                x,
            ) by {
                assert(sbal(b1, x) == if x == buyer@ && x == mk {
                    sbal(b0, x)
                } else if x == buyer@ {
                    (sbal(b0, x) - seller) as u64
                } else if x == mk {
                    (sbal(b0, x) + seller) as u64
                } else {
                    sbal(b0, x)
                });
                if sfee > 0 {
                    assert(sbal(b2, x) == if x == buyer@ && x == tr {
                        sbal(b1, x)
                    } else if x == buyer@ {
                        (sbal(b1, x) - fee) as u64
                    } else if x == tr {
                        (sbal(b1, x) + fee) as u64
                    } else {
                        sbal(b1, x)
                    });
                }
            }
        }
        Ok(Settlement {
            price,
            seller_amount: seller,
            fee_leg: if fee > 0 {
                Some(fee)
            } else {
                None
            },
        })
    }
}

/// The escrow invariant, read off a well-formed marketplace: an asset is
/// listed exactly when its vault exists and custodies exactly one unit.
pub proof fn lemma_escrow_invariant(m: Marketplace, asset: Seq<u8>)
    requires
        m.wf(),
    ensures
        m.spec_has_listing(asset) <==> m.spec_vault_amount(asset) == Some(1u64),
{
    if m.spec_has_listing(asset) {
        let i = m.spec_listing_idx(asset);
        assert(0 <= i < m.listings@.len() && m.listings@[i].asset_id@ == asset);
    }
}

} // verus!
