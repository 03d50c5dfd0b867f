use vstd::prelude::*;
use crate::address::{addr_eq, Address};

verus! {

/// The program-derived address for a seed tuple under a program id: the
/// address and bump that `Pubkey::try_find_program_address` computes, a
/// deterministic one-way hash derivation, or `None` in the statistically
/// improbable event that no bump yields a valid address (or the seeds are
/// out of bounds).
pub uninterp spec fn pda_of(seeds: Seq<Seq<u8>>, program_id: Seq<u8>) -> Option<(Seq<u8>, u8)>;

/// Relies on anchor_lang's `Pubkey::try_find_program_address`: the result is
/// a deterministic function of the seeds and the program id alone, and a
/// derived address is 32 bytes.
#[verifier::external_body]
fn find_pda(seeds: &Vec<Vec<u8>>, program_id: &Address) -> (r: Option<(Address, u8)>)
    ensures
        match r {
            Some(pair) => {
                &&& pda_of(seeds.deep_view(), program_id@) == Some((pair.0@, pair.1))
                &&& pair.0@.len() == 32
            },
            None => pda_of(seeds.deep_view(), program_id@) is None,
        },
{
    let pid = anchor_lang::prelude::Pubkey::try_from(program_id.bytes.as_slice()).ok()?;
    let seed_slices: Vec<&[u8]> = seeds.iter().map(|s| s.as_slice()).collect();
    let (addr, bump) = anchor_lang::prelude::Pubkey::try_find_program_address(&seed_slices, &pid)?;
    Some((Address { bytes: addr.to_bytes().to_vec() }, bump))
}

/// The namespace tag of a marketplace registry record: the bytes of
/// `"marketplace"`.
pub open spec fn tag_marketplace() -> Seq<u8> {
    seq![109u8, 97u8, 114u8, 107u8, 101u8, 116u8, 112u8, 108u8, 97u8, 99u8, 101u8]
}

/// The namespace tag of a treasury account: the bytes of `"treasury"`.
pub open spec fn tag_treasury() -> Seq<u8> {
    seq![116u8, 114u8, 101u8, 97u8, 115u8, 117u8, 114u8, 121u8]
}

/// The namespace tag of a rewards mint: the bytes of `"rewards"`.
pub open spec fn tag_rewards() -> Seq<u8> {
    seq![114u8, 101u8, 119u8, 97u8, 114u8, 100u8, 115u8]
}

fn tag_marketplace_bytes() -> (r: Vec<u8>)
    ensures
        r@ == tag_marketplace(),
{
    let mut v: Vec<u8> = Vec::new();
    v.push(109);
    v.push(97);
    v.push(114);
    v.push(107);
    v.push(101);
    v.push(116);
    v.push(112);
    v.push(108);
    v.push(97);
    v.push(99);
    v.push(101);
    proof {
        assert(v@ =~= tag_marketplace());
    }
    v
}

fn tag_treasury_bytes() -> (r: Vec<u8>)
    ensures
        r@ == tag_treasury(),
{
    let mut v: Vec<u8> = Vec::new();
    v.push(116);
    v.push(114);
    v.push(101);
    v.push(97);
    v.push(115);
    v.push(117);
    v.push(114);
    v.push(121);
    proof {
        assert(v@ =~= tag_treasury());
    }
    v
}

fn tag_rewards_bytes() -> (r: Vec<u8>)
    ensures
        r@ == tag_rewards(),
{
    let mut v: Vec<u8> = Vec::new();
    v.push(114);
    v.push(101);
    v.push(119);
    v.push(97);
    v.push(114);
    v.push(100);
    v.push(115);
    proof {
        assert(v@ =~= tag_rewards());
    }
    v
}

/// The seed tuple that controls a marketplace registry record: the
/// `"marketplace"` tag and the marketplace name.
pub open spec fn marketplace_seeds(name: Seq<u8>) -> Seq<Seq<u8>> {
    seq![tag_marketplace(), name]
}

/// The seed tuple that controls a marketplace's treasury.
pub open spec fn treasury_seeds(marketplace: Seq<u8>) -> Seq<Seq<u8>> {
    seq![tag_treasury(), marketplace]
}

/// The seed tuple that controls a marketplace's rewards mint.
pub open spec fn rewards_seeds(marketplace: Seq<u8>) -> Seq<Seq<u8>> {
    seq![tag_rewards(), marketplace]
}

/// The seed tuple that controls the escrow vault of one asset listed on one
/// marketplace.
pub open spec fn vault_seeds(marketplace: Seq<u8>, asset: Seq<u8>) -> Seq<Seq<u8>> {
    seq![marketplace, asset]
}

/// Derives the storage address of the marketplace registry record keyed by
/// `name`: deterministic, so a second marketplace under the same name would
/// collide with the first.
pub fn derive_marketplace_address(name: &Vec<u8>, program_id: &Address) -> (r: Option<
    (Address, u8),
>)
    ensures
        match r {
            Some(pair) => {
                &&& pda_of(marketplace_seeds(name@), program_id@) == Some((pair.0@, pair.1))
                &&& pair.0@.len() == 32
            },
            None => pda_of(marketplace_seeds(name@), program_id@) is None,
        },
{
    let mut seeds: Vec<Vec<u8>> = Vec::new();
    seeds.push(tag_marketplace_bytes());
    seeds.push(name.clone());
    proof {
        assert(seeds.deep_view() =~~= marketplace_seeds(name@));
    }
    find_pda(&seeds, program_id)
}

/// Derives a marketplace's treasury address from the marketplace address.
pub fn derive_treasury_address(marketplace: &Address, program_id: &Address) -> (r: Option<
    (Address, u8),
>)
    ensures
        match r {
            Some(pair) => {
                &&& pda_of(treasury_seeds(marketplace@), program_id@) == Some((pair.0@, pair.1))
                &&& pair.0@.len() == 32
            },
            None => pda_of(treasury_seeds(marketplace@), program_id@) is None,
        },
{
    let mut seeds: Vec<Vec<u8>> = Vec::new();
    seeds.push(tag_treasury_bytes());
    seeds.push(marketplace.bytes.clone());
    proof {
        assert(seeds.deep_view() =~~= treasury_seeds(marketplace@));
    }
    find_pda(&seeds, program_id)
}

/// Derives a marketplace's rewards-mint address from the marketplace
/// address.
pub fn derive_rewards_address(marketplace: &Address, program_id: &Address) -> (r: Option<
    (Address, u8),
>)
    ensures
        match r {
            Some(pair) => {
                &&& pda_of(rewards_seeds(marketplace@), program_id@) == Some((pair.0@, pair.1))
                &&& pair.0@.len() == 32
            },
            None => pda_of(rewards_seeds(marketplace@), program_id@) is None,
        },
{
    let mut seeds: Vec<Vec<u8>> = Vec::new();
    seeds.push(tag_rewards_bytes());
    seeds.push(marketplace.bytes.clone());
    proof {
        assert(seeds.deep_view() =~~= rewards_seeds(marketplace@));
    }
    find_pda(&seeds, program_id)
}

/// Derives the authority that controls the escrow vault of `asset` on the
/// marketplace at `marketplace`. No private key exists for this address; the
/// owning program alone can act as it, by reproducing the derivation.
pub fn derive_vault_authority(marketplace: &Address, asset: &Address, program_id: &Address) -> (r:
    Option<(Address, u8)>)
    ensures
        match r {
            Some(pair) => {
                &&& pda_of(vault_seeds(marketplace@, asset@), program_id@) == Some(
                    (pair.0@, pair.1),
                )
                &&& pair.0@.len() == 32
            },
            None => pda_of(vault_seeds(marketplace@, asset@), program_id@) is None,
        },
{
    let mut seeds: Vec<Vec<u8>> = Vec::new();
    seeds.push(marketplace.bytes.clone());
    seeds.push(asset.bytes.clone());
    proof {
        assert(seeds.deep_view() =~~= vault_seeds(marketplace@, asset@));
    }
    find_pda(&seeds, program_id)
}

/// The treasury address reached from a marketplace name: the marketplace's
/// own address derives from the name, and the treasury from that address.
pub open spec fn spec_derived_treasury(name: Seq<u8>, program_id: Seq<u8>) -> Option<(Seq<u8>, u8)> {
    match pda_of(marketplace_seeds(name), program_id) {
        Some(market) => pda_of(treasury_seeds(market.0), program_id),
        None => None,
    }
}

/// The rewards-mint address reached from a marketplace name, like
/// `spec_derived_treasury`.
pub open spec fn spec_derived_rewards(name: Seq<u8>, program_id: Seq<u8>) -> Option<(Seq<u8>, u8)> {
    match pda_of(marketplace_seeds(name), program_id) {
        Some(market) => pda_of(rewards_seeds(market.0), program_id),
        None => None,
    }
}

/// The vault authority reached from a marketplace name: first the
/// marketplace's own address derives from the name, then the vault
/// authority derives from that address and the asset. `None` when either
/// derivation finds no viable bump.
pub open spec fn spec_derived_vault_authority(
    name: Seq<u8>,
    asset: Seq<u8>,
    program_id: Seq<u8>,
) -> Option<(Seq<u8>, u8)> {
    match pda_of(marketplace_seeds(name), program_id) {
        Some(market) => pda_of(vault_seeds(market.0, asset), program_id),
        None => None,
    }
}

/// Resolves the vault authority for `asset` on the marketplace named
/// `name`, chaining the two derivations of `spec_derived_vault_authority`.
pub fn resolve_vault_authority(name: &Vec<u8>, asset: &Address, program_id: &Address) -> (r:
    Option<(Address, u8)>)
    ensures
        match r {
            Some(pair) => {
                &&& spec_derived_vault_authority(name@, asset@, program_id@) == Some(
                    (pair.0@, pair.1),
                )
                &&& pair.0@.len() == 32
            },
            None => spec_derived_vault_authority(name@, asset@, program_id@) is None,
        },
{
    let (market_addr, _market_bump) = match derive_marketplace_address(name, program_id) {
        Some(pair) => pair,
        None => {
            return None;
        },
    };
    derive_vault_authority(&market_addr, asset, program_id)
}

/// Checks a caller-supplied authority against the expected derivation for
/// `(marketplace, asset)`: true exactly when the pair is the derived vault
/// authority.
pub fn verify_vault_authority(
    marketplace: &Address,
    asset: &Address,
    program_id: &Address,
    claimed: &Address,
    bump: u8,
) -> (r: bool)
    ensures
        r == (pda_of(vault_seeds(marketplace@, asset@), program_id@) == Some((claimed@, bump))),
{
    match derive_vault_authority(marketplace, asset, program_id) {
        Some(pair) => addr_eq(&pair.0, claimed) && pair.1 == bump,
        None => false,
    }
}

} // verus!
