//! Reading Raydium AMM v4 pools: their accounts, addresses and true reserves.
use vstd::prelude::*;
use crate::pubkey::Pubkey;
use crate::raydium_port::state::{is_raydium_amm_id, raydium_amm_id};

pub mod calc_reserves;
pub mod math;
pub mod pack;
pub mod state;

verus! {

/// The program-derived address and bump seed that the runtime finds for the given seeds and
/// program, if one exists.
pub uninterp spec fn spec_try_find_program_address(seeds: Seq<Seq<u8>>, program_id: Seq<u8>) -> Option<(Seq<u8>, u8)>;

/// `Pubkey::try_find_program_address` with three seeds: the first bump seed, counting down from
/// 255, for which the hash of the seeds, the bump, the program id and the derivation marker is
/// not a curve point, with the address that hash gives.
#[verifier::external_body]
fn try_find_program_address(seed0: &[u8], seed1: &[u8], seed2: &[u8], program_id: &Pubkey) -> (r: Option<(Pubkey, u8)>)
    ensures
        r is Some <==> spec_try_find_program_address(seq![seed0@, seed1@, seed2@], program_id.bytes@) is Some,
        r matches Some(found) ==> spec_try_find_program_address(seq![seed0@, seed1@, seed2@], program_id.bytes@)
            == Some((found.0.bytes@, found.1)),
{
    let program = anchor_lang::prelude::Pubkey::new_from_array(program_id.bytes);
    match anchor_lang::prelude::Pubkey::try_find_program_address(&[seed0, seed1, seed2], &program) {
        Some((address, bump)) => Some((Pubkey { bytes: address.to_bytes() }, bump)),
        None => None,
    }
}

/// The address derived for the seeds under the program (meaningful when one exists).
pub open spec fn derived_address(seeds: Seq<Seq<u8>>, program_id: Seq<u8>) -> Seq<u8> {
    match spec_try_find_program_address(seeds, program_id) {
        Some(found) => found.0,
        None => Seq::empty(),
    }
}

/// Suffix seed of a pool's address.
pub open spec fn spec_amm_associated_seed() -> Seq<u8> {
    seq![97u8, 109u8, 109u8, 95u8, 97u8, 115u8, 115u8, 111u8, 99u8, 105u8, 97u8, 116u8, 101u8, 100u8, 95u8, 115u8, 101u8, 101u8, 100u8]
}

/// Suffix seed of a pool's lp mint address.
pub open spec fn spec_lp_mint_associated_seed() -> Seq<u8> {
    seq![108u8, 112u8, 95u8, 109u8, 105u8, 110u8, 116u8, 95u8, 97u8, 115u8, 115u8, 111u8, 99u8, 105u8, 97u8, 116u8, 101u8, 100u8, 95u8, 115u8, 101u8, 101u8, 100u8]
}

/// Suffix seed of a pool's address.
pub fn amm_associated_seed() -> (r: Vec<u8>)
    ensures
        r@ == spec_amm_associated_seed(),
{
    let r = vec![97u8, 109u8, 109u8, 95u8, 97u8, 115u8, 115u8, 111u8, 99u8, 105u8, 97u8, 116u8, 101u8, 100u8, 95u8, 115u8, 101u8, 101u8, 100u8];
    assert(r@ =~= spec_amm_associated_seed());
    r
}

/// Suffix seed of a pool's lp mint address.
pub fn lp_mint_associated_seed() -> (r: Vec<u8>)
    ensures
        r@ == spec_lp_mint_associated_seed(),
{
    let r = vec![108u8, 112u8, 95u8, 109u8, 105u8, 110u8, 116u8, 95u8, 97u8, 115u8, 115u8, 111u8, 99u8, 105u8, 97u8, 116u8, 101u8, 100u8, 95u8, 115u8, 101u8, 101u8, 100u8];
    assert(r@ =~= spec_lp_mint_associated_seed());
    r
}

/// The seeds of an address associated with a pool: the info id, the market and a suffix.
pub open spec fn associated_seeds(info_id: Pubkey, market_address: Pubkey, associated_seed: Seq<u8>) -> Seq<Seq<u8>> {
    seq![info_id.bytes@, market_address.bytes@, associated_seed]
}

/// An address associated with a pool can be derived for these seeds.
pub open spec fn associated_address_exists(
    info_id: Pubkey,
    market_address: Pubkey,
    associated_seed: Seq<u8>,
    program_id: Pubkey,
) -> bool {
    spec_try_find_program_address(associated_seeds(info_id, market_address, associated_seed), program_id.bytes@) is Some
}

/// The program-derived address (and bump) of `[info_id, market_address, associated_seed]`
/// under `program_id`.
pub fn get_associated_address_and_bump_seed(
    info_id: &Pubkey,
    market_address: &Pubkey,
    associated_seed: &[u8],
    program_id: &Pubkey,
) -> (r: (Pubkey, u8))
    requires
        associated_address_exists(*info_id, *market_address, associated_seed@, *program_id),
    ensures
        spec_try_find_program_address(associated_seeds(*info_id, *market_address, associated_seed@), program_id.bytes@)
            == Some((r.0.bytes@, r.1)),
{
    let info_bytes = info_id.to_bytes();
    let market_bytes = market_address.to_bytes();
    proof {
        assert(seq![info_bytes@, market_bytes@, associated_seed@] =~= associated_seeds(
            *info_id,
            *market_address,
            associated_seed@,
        ));
    }
    match try_find_program_address(&info_bytes, &market_bytes, associated_seed, program_id) {
        Some(found) => found,
        None => {
            proof {
                assert(false);
            }
            (*program_id, 0)
        },
    }
}

/// `get_associated_address_and_bump_seed` when the address exists, `None` otherwise.
pub fn try_get_associated_address_and_bump_seed(
    info_id: &Pubkey,
    market_address: &Pubkey,
    associated_seed: &[u8],
    program_id: &Pubkey,
) -> (r: Option<(Pubkey, u8)>)
    ensures
        r is Some <==> associated_address_exists(*info_id, *market_address, associated_seed@, *program_id),
        r matches Some(found) ==> spec_try_find_program_address(
            associated_seeds(*info_id, *market_address, associated_seed@),
            program_id.bytes@,
        ) == Some((found.0.bytes@, found.1)),
{
    let info_bytes = info_id.to_bytes();
    let market_bytes = market_address.to_bytes();
    proof {
        assert(seq![info_bytes@, market_bytes@, associated_seed@] =~= associated_seeds(
            *info_id,
            *market_address,
            associated_seed@,
        ));
    }
    match try_find_program_address(&info_bytes, &market_bytes, associated_seed, program_id) {
        Some(_) => Some(get_associated_address_and_bump_seed(info_id, market_address, associated_seed, program_id)),
        None => None,
    }
}

/// The address of the pool listed on a market can be derived.
pub open spec fn raydium_amm_info_key_exists(market_address: Pubkey) -> bool {
    exists|id: Pubkey| is_raydium_amm_id(id) && associated_address_exists(id, market_address, spec_amm_associated_seed(), id)
}

/// The lp mint address of the pool listed on a market can be derived.
pub open spec fn raydium_amm_lp_mint_key_exists(market_address: Pubkey) -> bool {
    exists|id: Pubkey| is_raydium_amm_id(id) && associated_address_exists(id, market_address, spec_lp_mint_associated_seed(), id)
}

proof fn lemma_raydium_id_unique(a: Pubkey, b: Pubkey)
    requires
        is_raydium_amm_id(a),
        is_raydium_amm_id(b),
    ensures
        a == b,
{
    broadcast use vstd::array::group_array_axioms;
    assert(a.bytes =~= b.bytes);
}

/// The address of the Raydium pool listed on a market.
pub fn get_raydium_amm_info_key(market_address: &Pubkey) -> (r: Pubkey)
    requires
        raydium_amm_info_key_exists(*market_address),
    ensures
        forall|id: Pubkey|
            is_raydium_amm_id(id) ==> #[trigger] derived_address(
                associated_seeds(id, *market_address, spec_amm_associated_seed()),
                id.bytes@,
            ) == r.bytes@,
{
    let id = raydium_amm_id();
    let seed = amm_associated_seed();
    proof {
        let w = choose|w: Pubkey| is_raydium_amm_id(w) && associated_address_exists(w, *market_address, spec_amm_associated_seed(), w);
        lemma_raydium_id_unique(w, id);
    }
    let (amm_info_key, _) = get_associated_address_and_bump_seed(&id, market_address, seed.as_slice(), &id);
    proof {
        assert forall|other: Pubkey| is_raydium_amm_id(other) implies #[trigger] derived_address(
            associated_seeds(other, *market_address, spec_amm_associated_seed()),
            other.bytes@,
        ) == amm_info_key.bytes@ by {
            lemma_raydium_id_unique(other, id);
        }
    }
    amm_info_key
}

/// `get_raydium_amm_info_key` when the address can be derived, `None` otherwise.
pub fn try_get_raydium_amm_info_key(market_address: &Pubkey) -> (r: Option<Pubkey>)
    ensures
        r is Some <==> raydium_amm_info_key_exists(*market_address),
        r matches Some(k) ==> forall|id: Pubkey|
            is_raydium_amm_id(id) ==> #[trigger] derived_address(
                associated_seeds(id, *market_address, spec_amm_associated_seed()),
                id.bytes@,
            ) == k.bytes@,
{
    let id = raydium_amm_id();
    let seed = amm_associated_seed();
    match try_get_associated_address_and_bump_seed(&id, market_address, seed.as_slice(), &id) {
        Some(_) => Some(get_raydium_amm_info_key(market_address)),
        None => {
            proof {
                if raydium_amm_info_key_exists(*market_address) {
                    let w = choose|w: Pubkey| is_raydium_amm_id(w) && associated_address_exists(w, *market_address, spec_amm_associated_seed(), w);
                    lemma_raydium_id_unique(w, id);
                }
            }
            None
        },
    }
}

/// The lp mint address of the Raydium pool listed on a market.
pub fn get_raydium_amm_lp_mint_key(market_address: &Pubkey) -> (r: Pubkey)
    requires
        raydium_amm_lp_mint_key_exists(*market_address),
    ensures
        forall|id: Pubkey|
            is_raydium_amm_id(id) ==> #[trigger] derived_address(
                associated_seeds(id, *market_address, spec_lp_mint_associated_seed()),
                id.bytes@,
            ) == r.bytes@,
{
    let id = raydium_amm_id();
    let seed = lp_mint_associated_seed();
    proof {
        let w = choose|w: Pubkey| is_raydium_amm_id(w) && associated_address_exists(w, *market_address, spec_lp_mint_associated_seed(), w);
        lemma_raydium_id_unique(w, id);
    }
    let (amm_info_key, _) = get_associated_address_and_bump_seed(&id, market_address, seed.as_slice(), &id);
    proof {
        assert forall|other: Pubkey| is_raydium_amm_id(other) implies #[trigger] derived_address(
            associated_seeds(other, *market_address, spec_lp_mint_associated_seed()),
            other.bytes@,
        ) == amm_info_key.bytes@ by {
            lemma_raydium_id_unique(other, id);
        }
    }
    amm_info_key
}

/// `get_raydium_amm_lp_mint_key` when the address can be derived, `None` otherwise.
pub fn try_get_raydium_amm_lp_mint_key(market_address: &Pubkey) -> (r: Option<Pubkey>)
    ensures
        r is Some <==> raydium_amm_lp_mint_key_exists(*market_address),
        r matches Some(k) ==> forall|id: Pubkey|
            is_raydium_amm_id(id) ==> #[trigger] derived_address(
                associated_seeds(id, *market_address, spec_lp_mint_associated_seed()),
                id.bytes@,
            ) == k.bytes@,
{
    let id = raydium_amm_id();
    let seed = lp_mint_associated_seed();
    match try_get_associated_address_and_bump_seed(&id, market_address, seed.as_slice(), &id) {
        Some(_) => Some(get_raydium_amm_lp_mint_key(market_address)),
        None => {
            proof {
                if raydium_amm_lp_mint_key_exists(*market_address) {
                    let w = choose|w: Pubkey| is_raydium_amm_id(w) && associated_address_exists(w, *market_address, spec_lp_mint_associated_seed(), w);
                    lemma_raydium_id_unique(w, id);
                }
            }
            None
        },
    }
}

} // verus!
