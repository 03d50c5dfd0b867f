use vstd::prelude::*;
use crate::address::{bytes_eq, Address};
use crate::authority::{
    derive_marketplace_address, derive_rewards_address, derive_treasury_address, marketplace_seeds,
    pda_of, spec_derived_rewards, spec_derived_treasury,
};
use crate::error::ErrorCode;
use crate::market::Marketplace;
use crate::state::MarketplaceConfig;

verus! {

/// The names of the marketplaces already created. A marketplace's storage
/// address derives deterministically from its name, so creating the same
/// name twice collides and must be refused.
pub struct Registry {
    pub names: Vec<Vec<u8>>,
}

impl Registry {
    /// Well-formed: no name registered twice.
    pub open spec fn wf(&self) -> bool {
        forall|i: int, j: int|
            0 <= i < j < self.names@.len() ==> self.names@[i]@ != self.names@[j]@
    }

    /// Whether a marketplace named `n` has been created.
    pub open spec fn spec_has_name(&self, n: Seq<u8>) -> bool {
        exists|i: int| 0 <= i < self.names@.len() && self.names@[i]@ == n
    }

    /// An empty registry: no marketplace exists yet.
    pub fn new() -> (r: Registry)
        ensures
            r.wf(),
            forall|x: Seq<u8>| !r.spec_has_name(x),
    {
        Registry { names: Vec::new() }
    }

    fn has_name(&self, n: &Vec<u8>) -> (r: bool)
        ensures
            r == self.spec_has_name(n@),
    {
        let count = self.names.len();
        let mut i: usize = 0;
        while i < count
            invariant
                count == self.names@.len(),
                i <= count,
                forall|j: int| 0 <= j < i ==> self.names@[j]@ != n@,
            decreases count - i,
        {
            if bytes_eq(&self.names[i], n) {
                return true;
            }
            i += 1;
        }
        false
    }

    /// Creates the marketplace named `name` with the given fee rate and
    /// derived addresses. Fails with `InvalidFee` when the rate exceeds
    /// 1000 basis points, with `InvalidPrice` when the name is empty or
    /// over 32 bytes, and with `AlreadyExists` when a marketplace of that
    /// name was created before — its storage address would collide; on
    /// failure the registry is unchanged.
    pub fn initialize(
        &mut self,
        name: Vec<u8>,
        fee_bps: u16,
        admin: Address,
        bump: u8,
        treasury: Address,
        treasury_bump: u8,
        rewards_mint: Address,
        rewards_bump: u8,
    ) -> (r: Result<Marketplace, ErrorCode>)
        requires
            old(self).wf(),
        ensures
            final(self).wf(),
            match r {
                Ok(m) => {
                    &&& fee_bps <= 1000
                    &&& 1 <= name@.len() <= 32
                    &&& !old(self).spec_has_name(name@)
                    &&& m.wf()
                    &&& m.config.admin == admin
                    &&& m.config.fee_bps == fee_bps
                    &&& m.config.name@ == name@
                    &&& m.config.bump == bump
                    &&& m.config.treasury == treasury
                    &&& m.config.treasury_bump == treasury_bump
                    &&& m.config.rewards_mint == rewards_mint
                    &&& m.config.rewards_bump == rewards_bump
                    &&& forall|x: Seq<u8>| !m.spec_has_listing(x)
                    &&& final(self).spec_has_name(name@)
                    &&& forall|x: Seq<u8>|
                        x != name@ ==> final(self).spec_has_name(x) == old(self).spec_has_name(x)
                },
                Err(e) => {
                    &&& *final(self) == *old(self)
                    &&& if fee_bps > 1000 {
                        e == ErrorCode::InvalidFee
                    } else if name@.len() == 0 || name@.len() > 32 {
                        e == ErrorCode::InvalidPrice
                    } else {
                        e == ErrorCode::AlreadyExists && old(self).spec_has_name(name@)
                    }
                },
            },
    {
        if fee_bps > 1000 {
            return Err(ErrorCode::InvalidFee);
        }
        if name.len() == 0 || name.len() > 32 {
            return Err(ErrorCode::InvalidPrice);
        }
        if self.has_name(&name) {
            return Err(ErrorCode::AlreadyExists);
        }
        let ghost nv = name@;
        let stored = name.clone();
        proof {
            assert(stored@ =~= nv);
        }
        self.names.push(stored);
        proof {
            let n = old(self).names@.len() as int;
            assert(forall|j: int| 0 <= j < n ==> old(self).names@[j]@ != nv);
            assert(self.names@[n]@ == nv);
            assert(self.spec_has_name(nv));
            assert forall|x: Seq<u8>| x != nv implies self.spec_has_name(x) == old(
                self,
            ).spec_has_name(x) by {
                if old(self).spec_has_name(x) {
                    let j = choose|j: int|
                        0 <= j < old(self).names@.len() && old(self).names@[j]@ == x;
                    assert(self.names@[j]@ == x);
                    assert(self.spec_has_name(x));
                }
                if self.spec_has_name(x) {
                    let j = choose|j: int| 0 <= j < self.names@.len() && self.names@[j]@ == x;
                    assert(j != n);
                    assert(old(self).spec_has_name(x));
                }
            }
        }
        let config = MarketplaceConfig {
            admin,
            fee_bps,
            name,
            bump,
            treasury,
            treasury_bump,
            rewards_mint,
            rewards_bump,
        };
        Ok(Marketplace::new(config))
    }

    /// Creates the marketplace named `name`, resolving its storage, treasury
    /// and rewards-mint addresses itself from the name under `program_id`.
    /// Returns `None`, changing nothing, in the statistically improbable
    /// event that one of the derivations finds no viable bump; otherwise
    /// behaves exactly as `initialize` with the derived addresses and bumps.
    pub fn initialize_derived(
        &mut self,
        program_id: &Address,
        name: Vec<u8>,
        fee_bps: u16,
        admin: Address,
    ) -> (r: Option<Result<Marketplace, ErrorCode>>)
        requires
            old(self).wf(),
        ensures
            final(self).wf(),
            match r {
                None => {
                    &&& *final(self) == *old(self)
                    &&& {
                        ||| pda_of(marketplace_seeds(name@), program_id@) is None
                        ||| spec_derived_treasury(name@, program_id@) is None
                        ||| spec_derived_rewards(name@, program_id@) is None
                    }
                },
                Some(inner) => match inner {
                    Ok(m) => {
                        &&& fee_bps <= 1000
                        &&& 1 <= name@.len() <= 32
                        &&& !old(self).spec_has_name(name@)
                        &&& m.wf()
                        &&& m.config.admin == admin
                        &&& m.config.fee_bps == fee_bps
                        &&& m.config.name@ == name@
                        &&& match pda_of(marketplace_seeds(name@), program_id@) {
                            Some(p) => m.config.bump == p.1,
                            None => false,
                        }
                        &&& spec_derived_treasury(name@, program_id@) == Some(
                            (m.config.treasury@, m.config.treasury_bump),
                        )
                        &&& spec_derived_rewards(name@, program_id@) == Some(
                            (m.config.rewards_mint@, m.config.rewards_bump),
                        )
                        &&& forall|x: Seq<u8>| !m.spec_has_listing(x)
                        &&& final(self).spec_has_name(name@)
                        &&& forall|x: Seq<u8>|
                            x != name@ ==> final(self).spec_has_name(x) == old(
                                self,
                            ).spec_has_name(x)
                    },
                    Err(e) => {
                        &&& *final(self) == *old(self)
                        &&& if fee_bps > 1000 {
                            e == ErrorCode::InvalidFee
                        } else if name@.len() == 0 || name@.len() > 32 {
                            e == ErrorCode::InvalidPrice
                        } else {
                            e == ErrorCode::AlreadyExists && old(self).spec_has_name(name@)
                        }
                    },
                },
            },
    {
        let (market_addr, market_bump) = match derive_marketplace_address(&name, program_id) {
            Some(pair) => pair,
            None => {
                return None;
            },
        };
        let (treasury, treasury_bump) = match derive_treasury_address(&market_addr, program_id) {
            Some(pair) => pair,
            None => {
                return None;
            },
        };
        let (rewards_mint, rewards_bump) = match derive_rewards_address(&market_addr, program_id) {
            Some(pair) => pair,
            None => {
                return None;
            },
        };
        Some(
            self.initialize(
                name,
                fee_bps,
                admin,
                market_bump,
                treasury,
                treasury_bump,
                rewards_mint,
                rewards_bump,
            ),
        )
    }
}

} // verus!
